//! The orientation normalizer: reads the embedded orientation value of
//! JPEG-like sources and applies the canonical transform, degrading to
//! the untransformed image when the metadata is missing or unreadable.

use vstd::prelude::*;

use crate::codec::{fliph, flipv, rotate180, rotate270, rotate90, DecodedImage};
use crate::media::spec_is_jpeg_family;

verus! {

/// The orientation value embedded in a byte sequence's metadata: `None`
/// when the container is unreadable, carries no orientation field, or the
/// field's value cannot be read as an integer. Reading is a pure function
/// of the bytes.
pub uninterp spec fn exif_orientation_of(data: Seq<u8>) -> Option<u32>;

/// Relies on `exif::Reader::read_from_container`, `Exif::get_field` with
/// the primary orientation tag, and `Value::get_uint`: together they read
/// the embedded orientation value, a pure function of the bytes; every
/// failure along the way collapses to `None`.
#[verifier::external_body]
fn read_exif_orientation(data: &Vec<u8>) -> (r: Option<u32>)
    ensures
        r == exif_orientation_of(data@),
{
    let mut cursor = std::io::Cursor::new(data.as_slice());
    match exif::Reader::new().read_from_container(&mut cursor) {
        Ok(meta) => match meta.get_field(exif::Tag::Orientation, exif::In::PRIMARY) {
            Some(field) => field.value.get_uint(0),
            None => None,
        },
        Err(_) => None,
    }
}

/// The orientation that takes effect for a byte sequence: the embedded
/// value when one can be read, the identity orientation `1` otherwise.
pub open spec fn effective_orientation(data: Seq<u8>) -> u32 {
    match exif_orientation_of(data) {
        Some(o) => o,
        None => 1,
    }
}

/// The dimensions after the canonical transform for an orientation value:
/// values `5` to `8` involve a quarter turn and swap width and height,
/// every other value keeps them.
pub open spec fn oriented_dims(o: u32, w: u32, h: u32) -> (u32, u32) {
    if 5 <= o <= 8 {
        (h, w)
    } else {
        (w, h)
    }
}

/// For a JPEG-like source carrying an effective orientation in the
/// quarter-turn range — the tag value `6` among them — normalization
/// swaps the decoded width and height.
pub proof fn lemma_jpeg_quarter_turn_swaps(data: Seq<u8>, ext: Seq<char>, w: u32, h: u32)
    requires
        spec_is_jpeg_family(ext),
        5 <= effective_orientation(data) <= 8,
    ensures
        normalized_dims(data, ext, w, h) == (h, w),
{
}

/// Applies the canonical transform for an orientation value: identity,
/// mirror, half turn, or quarter turn with or without a mirror; values
/// outside `2..=8` leave the image untouched.
pub fn apply_orientation(img: DecodedImage, o: u32) -> (r: DecodedImage)
    ensures
        (r.spec_width(), r.spec_height()) == oriented_dims(o, img.spec_width(), img.spec_height()),
{
    match o {
        2 => fliph(img),
        3 => rotate180(img),
        4 => flipv(img),
        5 => fliph(rotate90(img)),
        6 => rotate90(img),
        7 => fliph(rotate270(img)),
        8 => rotate270(img),
        _ => img,
    }
}

/// The dimensions an image of the given decode dimensions has after
/// orientation normalization: only the JPEG-like family carries the
/// metadata, every other family keeps the decode dimensions.
pub open spec fn normalized_dims(data: Seq<u8>, ext: Seq<char>, w: u32, h: u32) -> (u32, u32) {
    if spec_is_jpeg_family(ext) {
        oriented_dims(effective_orientation(data), w, h)
    } else {
        (w, h)
    }
}

/// Reads the orientation metadata embedded in the raw bytes — for the
/// JPEG-like family only — and applies the canonical transform; missing or
/// unreadable metadata degrades to the untransformed image and never
/// fails.
pub fn normalize_orientation(img: DecodedImage, data: &Vec<u8>, ext: &str) -> (r: DecodedImage)
    ensures
        (r.spec_width(), r.spec_height()) == normalized_dims(
            data@,
            ext@,
            img.spec_width(),
            img.spec_height(),
        ),
{
    if crate::media::is_jpeg_family(ext) {
        let o = match read_exif_orientation(data) {
            Some(v) => v,
            None => 1,
        };
        apply_orientation(img, o)
    } else {
        img
    }
}

} // verus!
