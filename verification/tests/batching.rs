use photolib::batch::{collect_batch, commit_batch, set_items_favorite};
use photolib::media::{ErrorKind, Item};
use photolib::prepare::prepare_item;

fn png_bytes(width: u32, height: u32) -> Vec<u8> {
    let img = image::DynamicImage::ImageRgb8(image::RgbImage::from_fn(width, height, |x, y| {
        image::Rgb([(x % 256) as u8, (y % 256) as u8, 9])
    }));
    let mut out = std::io::Cursor::new(Vec::new());
    img.write_to(&mut out, image::ImageFormat::Png).unwrap();
    out.into_inner()
}

fn jpeg_bytes(width: u32, height: u32) -> Vec<u8> {
    let img = image::DynamicImage::ImageRgb8(image::RgbImage::from_fn(width, height, |x, y| {
        image::Rgb([(x % 256) as u8, (y % 256) as u8, 9])
    }));
    let mut out = std::io::Cursor::new(Vec::new());
    img.write_to(&mut out, image::ImageFormat::Jpeg).unwrap();
    out.into_inner()
}

#[test]
fn importing_three_sources_commits_three_rows() {
    let results = vec![
        prepare_item("a.png", Some(png_bytes(4, 2)), None),
        prepare_item("b.jpg", Some(jpeg_bytes(3, 5)), None),
        prepare_item("c.mp4", Some(vec![1u8, 2, 3]), None),
    ];
    let with_thumb: Vec<bool> =
        results.iter().map(|r| r.as_ref().unwrap().thumbnail.is_some()).collect();
    let mut table: Vec<Item> = Vec::new();
    let n = commit_batch(&mut table, results).unwrap();
    assert_eq!(n, 3);
    assert_eq!(table.len(), 3);
    assert_eq!(table[0].original_name.as_str(), "a.png");
    assert_eq!(table[1].original_name.as_str(), "b.jpg");
    assert_eq!(table[2].original_name.as_str(), "c.mp4");
    assert!(table[0].width > 0 && table[0].height > 0);
    assert!(table[1].width > 0 && table[1].height > 0);
    assert_eq!((table[2].width, table[2].height), (0, 0));
    assert_eq!(with_thumb, vec![true, true, false]);
}

#[test]
fn one_missing_source_commits_nothing() {
    let preexisting = prepare_item("old.png", Some(png_bytes(2, 2)), None);
    let mut table: Vec<Item> = Vec::new();
    commit_batch(&mut table, vec![preexisting]).unwrap();
    assert_eq!(table.len(), 1);
    let before = table.clone();

    let results = vec![
        prepare_item("a.png", Some(png_bytes(4, 2)), None),
        prepare_item("missing.jpg", None, None),
    ];
    let e = commit_batch(&mut table, results).unwrap_err();
    assert_eq!(e.path.as_str(), "missing.jpg");
    assert_eq!(e.kind, ErrorKind::SourceNotFound);
    assert_eq!(table.len(), 1);
    assert_eq!(table, before);
}

#[test]
fn the_first_of_several_failures_wins() {
    let results = vec![
        prepare_item("a.png", Some(png_bytes(2, 2)), None),
        prepare_item("bad.png", Some(vec![0u8; 16]), None),
        prepare_item("also-missing.jpg", None, None),
    ];
    let mut table: Vec<Item> = Vec::new();
    let e = commit_batch(&mut table, results).unwrap_err();
    assert_eq!(e.path.as_str(), "bad.png");
    assert_eq!(e.kind, ErrorKind::DecodeError);
    assert!(table.is_empty());
}

#[test]
fn an_empty_batch_commits_nothing_and_succeeds() {
    let mut table: Vec<Item> = Vec::new();
    let n = commit_batch(&mut table, Vec::new()).unwrap();
    assert_eq!(n, 0);
    assert!(table.is_empty());
}

#[test]
fn collect_returns_all_items_in_order() {
    let results = vec![
        prepare_item("a.png", Some(png_bytes(2, 2)), None),
        prepare_item("b.mp4", Some(vec![9u8]), None),
    ];
    let items = collect_batch(results).unwrap();
    assert_eq!(items.len(), 2);
    assert_eq!(items[0].item.original_name.as_str(), "a.png");
    assert_eq!(items[1].item.original_name.as_str(), "b.mp4");
}

#[test]
fn favorite_flag_is_set_only_on_listed_ids() {
    let results = vec![
        prepare_item("a.png", Some(png_bytes(2, 2)), None),
        prepare_item("b.png", Some(png_bytes(2, 2)), None),
    ];
    let mut table: Vec<Item> = Vec::new();
    commit_batch(&mut table, results).unwrap();
    let chosen = table[1].id.clone();

    set_items_favorite(&mut table, &vec![chosen.clone(), String::from("no-such-id")], true);
    assert!(!table[0].is_favorite);
    assert!(table[1].is_favorite);

    set_items_favorite(&mut table, &vec![chosen], false);
    assert!(!table[1].is_favorite);
}
