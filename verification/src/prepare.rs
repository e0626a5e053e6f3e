//! The item preparer: turns one source file's path and raw bytes into a
//! fully populated item record with its artifact names and preview, or a
//! per-file error tagged with the path.

use vstd::prelude::*;

use crate::codec::{generate_thumbnail, load_image, raster_dims_of, ContainerPlane};
use crate::ident::{canonical_timestamp, md5_hex, md5_hex_of, new_uuid, now_rfc3339};
use crate::media::{spec_codec_family, spec_mime_of, CodecFamily, ErrorKind, ImportError, Item};
use crate::orient::{normalize_orientation, normalized_dims};
use crate::paths::{
    base_name, extension_of, spec_base_name, spec_extension_of, stored_file_name, thumb_file_name,
};

verus! {

/// Everything one successful preparation yields: the item record, the file
/// names its artifacts go under, and the encoded preview when one was
/// produced.
#[derive(Debug)]
pub struct PreparedItem {
    pub item: Item,
    /// `<id>.<ext>`, the name for the verbatim copy of the source bytes.
    pub stored_name: String,
    /// `<id>.webp`, the name for the preview.
    pub thumb_name: String,
    /// The encoded preview; `None` exactly when the extension is outside
    /// the decodable set.
    pub thumbnail: Option<Vec<u8>>,
}

/// The identity half of a prepared item: every field that does not depend
/// on decoding, stated over the source path and raw bytes.
pub open spec fn item_identity_ok(item: Item, path: Seq<char>, data: Seq<u8>) -> bool {
    &&& item.original_name@ == spec_base_name(path)
    &&& item.file_type@ == spec_mime_of(spec_extension_of(path))
    &&& item.file_size == data.len()
    &&& item.checksum@ == md5_hex_of(data)
    &&& item.is_favorite == false
    &&& item.is_screenshot == false
    &&& item.is_screen_recording == false
    &&& item.live_video is None
    &&& item.id@.len() == 36
    &&& canonical_timestamp(item.created_at@)
}

/// The artifact names of a prepared item: both derive from the generated
/// id, so the metadata row, the stored original and the preview share one
/// join key.
pub open spec fn prepared_names_ok(p: PreparedItem, path: Seq<char>) -> bool {
    &&& p.stored_name@ == p.item.id@ + "."@ + spec_extension_of(path)
    &&& p.thumb_name@ == p.item.id@ + ".webp"@
}

/// The media half of a prepared item: dimensions are the decode dimensions
/// after orientation normalization, zero when no decode was attempted, and
/// a preview exists exactly when a decode happened.
pub open spec fn prepared_media_ok(
    p: PreparedItem,
    path: Seq<char>,
    data: Seq<u8>,
    container: Option<ContainerPlane>,
) -> bool {
    let ext = spec_extension_of(path);
    match spec_codec_family(ext) {
        CodecFamily::NoDecode => {
            &&& p.item.width == 0
            &&& p.item.height == 0
            &&& p.thumbnail is None
        },
        CodecFamily::Raster => {
            &&& raster_dims_of(data) matches Some((w, h)) && (p.item.width, p.item.height)
                == normalized_dims(data, ext, w, h)
            &&& p.thumbnail is Some
        },
        CodecFamily::BlockContainer => {
            &&& container matches Some(c) && (p.item.width, p.item.height) == (c.width, c.height)
            &&& p.thumbnail is Some
        },
    }
}

/// A fully correct successful preparation.
pub open spec fn prepared_ok(
    p: PreparedItem,
    path: Seq<char>,
    data: Seq<u8>,
    container: Option<ContainerPlane>,
) -> bool {
    &&& item_identity_ok(p.item, path, data)
    &&& prepared_names_ok(p, path)
    &&& prepared_media_ok(p, path, data, container)
}

/// Whether a container plane is acceptable: positive dimensions that
/// evenly divide the buffer, three bytes per pixel.
pub open spec fn container_plane_ok(container: Option<ContainerPlane>) -> bool {
    container matches Some(c) && c.width >= 1 && c.height >= 1 && c.data@.len() == 3 * (
    c.width as int) * (c.height as int)
}

/// Everything `prepare_item` may return on given inputs, case by case over
/// the source's presence, its name, and its codec family.
pub open spec fn spec_prepare(
    path: Seq<char>,
    data: Option<Vec<u8>>,
    container: Option<ContainerPlane>,
    r: Result<PreparedItem, ImportError>,
) -> bool {
    match data {
        Option::None => r matches Err(e) && e.path@ == path && e.kind == ErrorKind::SourceNotFound,
        Option::Some(d) => if spec_base_name(path).len() == 0 {
            r matches Err(e) && e.path@ == path && e.kind == ErrorKind::IoError
        } else {
            let ext = spec_extension_of(path);
            match spec_codec_family(ext) {
                CodecFamily::NoDecode => r matches Ok(p) && prepared_ok(p, path, d@, container),
                CodecFamily::Raster => match raster_dims_of(d@) {
                    Some((w, h)) => if w >= 1 && h >= 1 {
                        r matches Ok(p) && prepared_ok(p, path, d@, container)
                    } else {
                        r matches Err(e) && e.path@ == path && e.kind == ErrorKind::DecodeError
                    },
                    None => r matches Err(e) && e.path@ == path && e.kind
                        == ErrorKind::DecodeError,
                },
                CodecFamily::BlockContainer => if container_plane_ok(container) {
                    r matches Ok(p) && prepared_ok(p, path, d@, container)
                } else {
                    r matches Err(e) && e.path@ == path && e.kind == ErrorKind::DecodeError
                },
            }
        },
    }
}

/// Prepares one source file for import: derives name, type, checksum and
/// size from the path and the raw bytes, decodes and
/// orientation-normalizes supported still images, synthesizes the preview,
/// and assigns the fresh id every artifact is filed under. An unsupported
/// extension is not a failure: it yields zero dimensions and no preview.
/// Every failure is tagged with the offending source path.
pub fn prepare_item(
    source_path: &str,
    data: Option<Vec<u8>>,
    container: Option<ContainerPlane>,
) -> (r: Result<PreparedItem, ImportError>)
    ensures
        spec_prepare(source_path@, data, container, r),
{
    let data = match data {
        Option::None => {
            return Err(
                ImportError {
                    path: crate::text::treat_msg(source_path),
                    kind: ErrorKind::SourceNotFound,
                },
            );
        },
        Option::Some(d) => d,
    };
    let original_name = base_name(source_path);
    if original_name.as_str().unicode_len() == 0 {
        return Err(
            ImportError { path: crate::text::treat_msg(source_path), kind: ErrorKind::IoError },
        );
    }
    let ext = extension_of(source_path);
    let file_type = crate::media::map_extension_to_mime(ext.as_str());
    let checksum = md5_hex(&data);
    let file_size = data.len() as u64;
    let dims_and_thumb: (u32, u32, Option<Vec<u8>>) = match load_image(
        &data,
        ext.as_str(),
        container,
    ) {
        Ok(img) => {
            let img = normalize_orientation(img, &data, ext.as_str());
            let w = img.width();
            let h = img.height();
            match generate_thumbnail(&img) {
                Ok(bytes) => (w, h, Some(bytes)),
                Err(_) => {
                    return Err(
                        ImportError {
                            path: crate::text::treat_msg(source_path),
                            kind: ErrorKind::ThumbnailError,
                        },
                    );
                },
            }
        },
        Err(ErrorKind::UnsupportedFormat) => (0, 0, None),
        Err(k) => {
            return Err(ImportError { path: crate::text::treat_msg(source_path), kind: k });
        },
    };
    let id = new_uuid();
    let created_at = now_rfc3339();
    let stored_name = stored_file_name(id.as_str(), ext.as_str());
    let thumb_name = thumb_file_name(id.as_str());
    let item = Item {
        id,
        original_name,
        file_type: crate::text::treat_msg(file_type),
        file_size,
        width: dims_and_thumb.0,
        height: dims_and_thumb.1,
        checksum,
        is_favorite: false,
        is_screenshot: false,
        is_screen_recording: false,
        live_video: Option::None,
        created_at,
    };
    Ok(PreparedItem { item, stored_name, thumb_name, thumbnail: dims_and_thumb.2 })
}

/// For every present source with a proper name whose extension is in the
/// decodable raster set and whose bytes decode, preparation succeeds, and
/// the item records exactly the decoded dimensions after orientation
/// normalization — never the raw decode dimensions — beside a preview.
pub proof fn lemma_dims_follow_normalization(
    path: Seq<char>,
    d: Vec<u8>,
    container: Option<ContainerPlane>,
    r: Result<PreparedItem, ImportError>,
    w: u32,
    h: u32,
)
    requires
        spec_prepare(path, Some(d), container, r),
        spec_base_name(path).len() > 0,
        spec_codec_family(spec_extension_of(path)) is Raster,
        raster_dims_of(d@) == Some((w, h)),
        w >= 1,
        h >= 1,
    ensures
        r matches Ok(p) && (p.item.width, p.item.height) == normalized_dims(
            d@,
            spec_extension_of(path),
            w,
            h,
        ) && p.thumbnail is Some,
{
}

/// For every source whose extension is outside the decodable set, a
/// successful preparation records zero dimensions and writes no preview —
/// and it is a success, so it cannot fail a batch.
pub proof fn lemma_undecodable_yields_zero(
    path: Seq<char>,
    d: Vec<u8>,
    container: Option<ContainerPlane>,
    r: Result<PreparedItem, ImportError>,
)
    requires
        spec_prepare(path, Some(d), container, r),
        spec_base_name(path).len() > 0,
        spec_codec_family(spec_extension_of(path)) is NoDecode,
    ensures
        r matches Ok(p) && p.item.width == 0 && p.item.height == 0 && p.thumbnail is None,
{
}

/// Checksum is a pure function of the raw source bytes: two successful
/// preparations of identical bytes carry identical checksums, whatever
/// paths they were imported under.
pub proof fn lemma_checksum_pure(
    path1: Seq<char>,
    path2: Seq<char>,
    d1: Vec<u8>,
    d2: Vec<u8>,
    c1: Option<ContainerPlane>,
    c2: Option<ContainerPlane>,
    r1: Result<PreparedItem, ImportError>,
    r2: Result<PreparedItem, ImportError>,
)
    requires
        d1@ == d2@,
        spec_prepare(path1, Some(d1), c1, r1),
        spec_prepare(path2, Some(d2), c2, r2),
        r1 is Ok,
        r2 is Ok,
    ensures
        r1->Ok_0.item.checksum@ == r2->Ok_0.item.checksum@,
{
}

} // verus!
