use photolib::codec::{load_image, ContainerPlane};
use photolib::media::{map_extension_to_mime, ErrorKind};
use photolib::paths::{base_name, extension_of, id_part, stored_file_name, thumb_file_name};
use photolib::prepare::prepare_item;
use photolib::text::{ascii_lower, str_eq, treat_msg};

fn png_bytes(width: u32, height: u32) -> Vec<u8> {
    let img = image::DynamicImage::ImageRgb8(image::RgbImage::from_fn(width, height, |x, y| {
        image::Rgb([(x % 256) as u8, (y % 256) as u8, 7])
    }));
    let mut out = std::io::Cursor::new(Vec::new());
    img.write_to(&mut out, image::ImageFormat::Png).unwrap();
    out.into_inner()
}

fn jpeg_bytes(width: u32, height: u32) -> Vec<u8> {
    let img = image::DynamicImage::ImageRgb8(image::RgbImage::from_fn(width, height, |x, y| {
        image::Rgb([(x % 256) as u8, (y % 256) as u8, 7])
    }));
    let mut out = std::io::Cursor::new(Vec::new());
    img.write_to(&mut out, image::ImageFormat::Jpeg).unwrap();
    out.into_inner()
}

fn jpeg_with_orientation(width: u32, height: u32, orientation: u16) -> Vec<u8> {
    let jpeg = jpeg_bytes(width, height);
    let field = exif::Field {
        tag: exif::Tag::Orientation,
        ifd_num: exif::In::PRIMARY,
        value: exif::Value::Short(vec![orientation]),
    };
    let mut writer = exif::experimental::Writer::new();
    writer.push_field(&field);
    let mut tiff = std::io::Cursor::new(Vec::new());
    writer.write(&mut tiff, false).unwrap();
    let tiff = tiff.into_inner();
    let mut out = Vec::new();
    out.extend_from_slice(&jpeg[0..2]);
    out.extend_from_slice(&[0xFF, 0xE1]);
    out.extend_from_slice(&((tiff.len() + 8) as u16).to_be_bytes());
    out.extend_from_slice(b"Exif\0\0");
    out.extend_from_slice(&tiff);
    out.extend_from_slice(&jpeg[2..]);
    out
}

#[test]
fn mime_table_matches_extension() {
    assert_eq!(map_extension_to_mime("jpg"), "image/jpeg");
    assert_eq!(map_extension_to_mime("jpeg"), "image/jpeg");
    assert_eq!(map_extension_to_mime("png"), "image/png");
    assert_eq!(map_extension_to_mime("gif"), "image/gif");
    assert_eq!(map_extension_to_mime("webp"), "image/webp");
    assert_eq!(map_extension_to_mime("heic"), "image/heic");
    assert_eq!(map_extension_to_mime("heif"), "image/heic");
    assert_eq!(map_extension_to_mime("mp4"), "video/mp4");
    assert_eq!(map_extension_to_mime("mov"), "video/quicktime");
    assert_eq!(map_extension_to_mime("avi"), "video/x-msvideo");
    assert_eq!(map_extension_to_mime("xyz"), "application/octet-stream");
    assert_eq!(map_extension_to_mime(""), "application/octet-stream");
    assert_eq!(map_extension_to_mime("JPG"), "image/jpeg");
    assert_eq!(map_extension_to_mime("HeIc"), "image/heic");
}

#[test]
fn path_helpers() {
    assert_eq!(base_name("dir/sub/photo.png").as_str(), "photo.png");
    assert_eq!(base_name("photo.png").as_str(), "photo.png");
    assert_eq!(base_name("dir/").as_str(), "");
    assert_eq!(extension_of("dir/sub/photo.png").as_str(), "png");
    assert_eq!(extension_of("archive.tar.gz").as_str(), "gz");
    assert_eq!(extension_of("noext").as_str(), "");
    assert_eq!(extension_of(".hidden").as_str(), "");
    assert_eq!(extension_of("dir.v2/noext").as_str(), "");
    assert_eq!(id_part("abc-123.webp").as_str(), "abc-123");
    assert_eq!(id_part("noext").as_str(), "noext");
    assert_eq!(stored_file_name("id1", "png").as_str(), "id1.png");
    assert_eq!(thumb_file_name("id1").as_str(), "id1.webp");
}

#[test]
fn text_helpers() {
    assert_eq!(ascii_lower("AbC.PnG").as_str(), "abc.png");
    assert!(str_eq("same", "same"));
    assert!(!str_eq("same", "Same"));
    assert!(!str_eq("ab", "abc"));
    assert_eq!(treat_msg("a message").as_str(), "a message");
}

#[test]
fn prepare_png_records_identity_and_dimensions() {
    let bytes = png_bytes(4, 2);
    let expected_checksum = format!("{:x}", md5::compute(&bytes));
    let p = prepare_item("photos/a.png", Some(bytes.clone()), None).unwrap();
    assert_eq!(p.item.original_name.as_str(), "a.png");
    assert_eq!(p.item.file_type.as_str(), "image/png");
    assert_eq!(p.item.file_size, bytes.len() as u64);
    assert_eq!(p.item.width, 4);
    assert_eq!(p.item.height, 2);
    assert_eq!(p.item.checksum, expected_checksum);
    assert!(!p.item.is_favorite);
    assert!(!p.item.is_screenshot);
    assert!(!p.item.is_screen_recording);
    assert!(p.item.live_video.is_none());
    assert_eq!(p.item.id.len(), 36);
    assert!(chrono::DateTime::parse_from_rfc3339(&p.item.created_at).is_ok());
    assert_eq!(p.stored_name, format!("{}.png", p.item.id));
    assert_eq!(p.thumb_name, format!("{}.webp", p.item.id));
    assert!(p.thumbnail.is_some());
}

#[test]
fn prepare_missing_source_fails_with_its_path() {
    let e = prepare_item("missing.jpg", None, None).unwrap_err();
    assert_eq!(e.path.as_str(), "missing.jpg");
    assert_eq!(e.kind, ErrorKind::SourceNotFound);
    assert_eq!(e.kind.message(), "Source file does not exist");
}

#[test]
fn prepare_empty_base_name_fails() {
    let e = prepare_item("somedir/", Some(vec![1, 2, 3]), None).unwrap_err();
    assert_eq!(e.path.as_str(), "somedir/");
    assert_eq!(e.kind, ErrorKind::IoError);
}

#[test]
fn prepare_video_skips_decode_without_failing() {
    let bytes = vec![0u8, 1, 2, 3, 4, 5];
    let p = prepare_item("clips/c.mp4", Some(bytes.clone()), None).unwrap();
    assert_eq!(p.item.file_type.as_str(), "video/mp4");
    assert_eq!(p.item.width, 0);
    assert_eq!(p.item.height, 0);
    assert!(p.thumbnail.is_none());
    assert_eq!(p.item.file_size, bytes.len() as u64);
}

#[test]
fn prepare_garbage_png_is_a_decode_error() {
    let e = prepare_item("bad.png", Some(vec![9u8; 64]), None).unwrap_err();
    assert_eq!(e.path.as_str(), "bad.png");
    assert_eq!(e.kind, ErrorKind::DecodeError);
    assert_eq!(e.kind.message(), "Unable to load image");
}

#[test]
fn reimported_bytes_keep_checksum_under_new_id() {
    let bytes = png_bytes(3, 3);
    let p1 = prepare_item("one.png", Some(bytes.clone()), None).unwrap();
    let p2 = prepare_item("two/other.png", Some(bytes), None).unwrap();
    assert_eq!(p1.item.checksum, p2.item.checksum);
    assert_ne!(p1.item.id, p2.item.id);
}

#[test]
fn orientation_six_swaps_dimensions_and_thumbnail_follows() {
    let bytes = jpeg_with_orientation(8, 4, 6);
    let p = prepare_item("rot.jpg", Some(bytes.clone()), None).unwrap();
    // raw decode is 8x4; the quarter turn normalizes to 4x8
    assert_eq!((p.item.width, p.item.height), (4, 8));
    let thumb = image::load_from_memory(p.thumbnail.as_ref().unwrap()).unwrap();
    assert_eq!((thumb.width(), thumb.height()), (256, 512));
}

#[test]
fn orientation_three_keeps_dimensions() {
    let bytes = jpeg_with_orientation(8, 4, 3);
    let p = prepare_item("rot.jpg", Some(bytes), None).unwrap();
    assert_eq!((p.item.width, p.item.height), (8, 4));
}

#[test]
fn jpeg_without_orientation_keeps_raw_decode() {
    let bytes = jpeg_bytes(6, 2);
    let p = prepare_item("plain.jpg", Some(bytes), None).unwrap();
    assert_eq!((p.item.width, p.item.height), (6, 2));
}

#[test]
fn heic_plane_is_rebuilt_when_it_divides_evenly() {
    let plane = ContainerPlane { width: 2, height: 2, data: vec![50u8; 12] };
    let p = prepare_item("h.heic", Some(vec![0u8; 10]), Some(plane)).unwrap();
    assert_eq!((p.item.width, p.item.height), (2, 2));
    assert_eq!(p.item.file_type.as_str(), "image/heic");
    assert!(p.thumbnail.is_some());
}

#[test]
fn heic_plane_with_wrong_length_is_a_decode_error() {
    let plane = ContainerPlane { width: 2, height: 2, data: vec![50u8; 11] };
    let e = prepare_item("h.heic", Some(vec![0u8; 10]), Some(plane)).unwrap_err();
    assert_eq!(e.kind, ErrorKind::DecodeError);
}

#[test]
fn heic_without_container_decode_is_a_decode_error() {
    let e = prepare_item("h.heic", Some(vec![0u8; 10]), None).unwrap_err();
    assert_eq!(e.kind, ErrorKind::DecodeError);
}

#[test]
fn thumbnail_clamps_longer_edge_to_512() {
    let bytes = png_bytes(1024, 256);
    let p = prepare_item("wide.png", Some(bytes), None).unwrap();
    assert_eq!((p.item.width, p.item.height), (1024, 256));
    let thumb = image::load_from_memory(p.thumbnail.as_ref().unwrap()).unwrap();
    assert_eq!((thumb.width(), thumb.height()), (512, 128));
}

#[test]
fn error_messages_match_their_kinds() {
    assert_eq!(ErrorKind::UnsupportedFormat.message(), "File type not supported");
    assert_eq!(ErrorKind::ThumbnailError.message(), "Unable to generate thumbnail");
    assert_eq!(ErrorKind::LibraryNotFound.message(), "Library not found");
    assert_eq!(ErrorKind::StorageError.message(), "Unable to import item to the library");
    assert_eq!(ErrorKind::IoError.message(), "Unable to copy item");
}

#[test]
fn load_image_dispatches_by_codec_family() {
    let png = png_bytes(5, 3);
    let img = load_image(&png, "png", None).unwrap();
    assert_eq!((img.width(), img.height()), (5, 3));

    let e = load_image(&vec![1u8, 2, 3], "mp4", None).unwrap_err();
    assert_eq!(e, ErrorKind::UnsupportedFormat);
    assert_eq!(e.message(), "File type not supported");

    let e = load_image(&vec![1u8; 32], "png", None).unwrap_err();
    assert_eq!(e, ErrorKind::DecodeError);

    let plane = ContainerPlane { width: 3, height: 1, data: vec![10u8; 9] };
    let img = load_image(&vec![0u8; 4], "HEIF", Some(plane)).unwrap();
    assert_eq!((img.width(), img.height()), (3, 1));
}

#[test]
fn gif_and_webp_decode_through_the_raster_codec() {
    let img = image::DynamicImage::ImageRgb8(image::RgbImage::from_fn(7, 2, |_, _| {
        image::Rgb([1, 2, 3])
    }));
    let mut gif = std::io::Cursor::new(Vec::new());
    img.write_to(&mut gif, image::ImageFormat::Gif).unwrap();
    let p = prepare_item("g.gif", Some(gif.into_inner()), None).unwrap();
    assert_eq!((p.item.width, p.item.height), (7, 2));
    assert_eq!(p.item.file_type.as_str(), "image/gif");

    let mut webp = std::io::Cursor::new(Vec::new());
    img.write_to(&mut webp, image::ImageFormat::WebP).unwrap();
    let p = prepare_item("w.webp", Some(webp.into_inner()), None).unwrap();
    assert_eq!((p.item.width, p.item.height), (7, 2));
    assert_eq!(p.item.file_type.as_str(), "image/webp");
}

#[test]
fn mirror_and_turn_orientations_change_the_pixels() {
    // one asymmetric source; the transforms must yield distinct previews
    let plain = prepare_item("p.jpg", Some(jpeg_bytes(8, 4)), None).unwrap();
    let mirrored = prepare_item("p.jpg", Some(jpeg_with_orientation(8, 4, 2)), None).unwrap();
    let flipped = prepare_item("p.jpg", Some(jpeg_with_orientation(8, 4, 4)), None).unwrap();
    let turned_cw = prepare_item("p.jpg", Some(jpeg_with_orientation(8, 4, 6)), None).unwrap();
    let turned_ccw = prepare_item("p.jpg", Some(jpeg_with_orientation(8, 4, 8)), None).unwrap();

    assert_eq!((mirrored.item.width, mirrored.item.height), (8, 4));
    assert_eq!((flipped.item.width, flipped.item.height), (8, 4));
    assert_eq!((turned_ccw.item.width, turned_ccw.item.height), (4, 8));

    assert_ne!(plain.thumbnail, mirrored.thumbnail);
    assert_ne!(plain.thumbnail, flipped.thumbnail);
    assert_ne!(mirrored.thumbnail, flipped.thumbnail);
    assert_ne!(turned_cw.thumbnail, turned_ccw.thumbnail);
}
