//! The data model: items, albums, the error taxonomy, and the fixed
//! extension tables that drive media typing and codec dispatch.

use vstd::prelude::*;

use crate::text::{ascii_lower, lower_seq, str_eq};

verus! {

/// One ingested media asset, as held in the `item` table.
///
/// Timestamps are carried as RFC 3339 text normalized to UTC, the form in
/// which the store keeps them.
#[derive(Debug, Clone, PartialEq)]
pub struct Item {
    pub id: String,
    pub original_name: String,
    pub file_type: String,
    pub file_size: u64,
    pub width: u32,
    pub height: u32,
    pub checksum: String,
    pub is_favorite: bool,
    pub is_screenshot: bool,
    pub is_screen_recording: bool,
    pub live_video: Option<String>,
    pub created_at: String,
}

/// A named collection of items.
#[derive(Debug, Clone, PartialEq)]
pub struct Album {
    pub id: String,
    pub name: String,
    pub description: Option<String>,
    pub cover_photo_id: Option<String>,
    pub created_at: String,
    pub modified_at: String,
}

/// Membership of one item in one album.
#[derive(Debug, Clone, PartialEq)]
pub struct AlbumItem {
    pub album_id: String,
    pub item_id: String,
    pub added_at: String,
}

/// What went wrong with one operation.
#[derive(Debug, Clone, Copy, PartialEq, Eq, Structural)]
pub enum ErrorKind {
    /// The source file does not exist.
    SourceNotFound,
    /// The extension is outside the decodable still-image set; callers use
    /// this to skip dimensions and thumbnail without failing the import.
    UnsupportedFormat,
    /// A codec failed on a format that is nominally supported.
    DecodeError,
    /// The preview could not be encoded or written.
    ThumbnailError,
    /// The registry knows no library under the given identifier.
    LibraryNotFound,
    /// The metadata transaction could not be opened, run or committed.
    StorageError,
    /// A copy or directory creation failed.
    IoError,
}

/// An error tagged with the source path it arose on.
#[derive(Debug, Clone, PartialEq)]
pub struct ImportError {
    pub path: String,
    pub kind: ErrorKind,
}

impl ErrorKind {
    /// The user-facing message for this kind of failure.
    pub fn message(&self) -> (r: &'static str)
        ensures
            r@ == spec_message(*self),
    {
        match self {
            ErrorKind::SourceNotFound => "Source file does not exist",
            ErrorKind::UnsupportedFormat => "File type not supported",
            ErrorKind::DecodeError => "Unable to load image",
            ErrorKind::ThumbnailError => "Unable to generate thumbnail",
            ErrorKind::LibraryNotFound => "Library not found",
            ErrorKind::StorageError => "Unable to import item to the library",
            ErrorKind::IoError => "Unable to copy item",
        }
    }
}

/// The message that `ErrorKind::message` returns for each kind.
pub open spec fn spec_message(k: ErrorKind) -> Seq<char> {
    match k {
        ErrorKind::SourceNotFound => "Source file does not exist"@,
        ErrorKind::UnsupportedFormat => "File type not supported"@,
        ErrorKind::DecodeError => "Unable to load image"@,
        ErrorKind::ThumbnailError => "Unable to generate thumbnail"@,
        ErrorKind::LibraryNotFound => "Library not found"@,
        ErrorKind::StorageError => "Unable to import item to the library"@,
        ErrorKind::IoError => "Unable to copy item"@,
    }
}

/// The codec family an extension selects.
#[derive(Debug, Clone, Copy, PartialEq, Eq, Structural)]
pub enum CodecFamily {
    /// A native bitmap family, decoded by the general-purpose raster codec.
    Raster,
    /// The block-tiled container family, decoded by the dedicated container
    /// codec.
    BlockContainer,
    /// Everything else: no decode is attempted, dimensions stay zero.
    NoDecode,
}

/// The normalized media type for an extension, after ASCII case folding.
pub open spec fn spec_mime_of(ext: Seq<char>) -> Seq<char> {
    let l = lower_seq(ext);
    if l == "jpg"@ || l == "jpeg"@ {
        "image/jpeg"@
    } else if l == "png"@ {
        "image/png"@
    } else if l == "gif"@ {
        "image/gif"@
    } else if l == "webp"@ {
        "image/webp"@
    } else if l == "heic"@ || l == "heif"@ {
        "image/heic"@
    } else if l == "mp4"@ {
        "video/mp4"@
    } else if l == "mov"@ {
        "video/quicktime"@
    } else if l == "avi"@ {
        "video/x-msvideo"@
    } else {
        "application/octet-stream"@
    }
}

/// The codec family selected by an extension, after ASCII case folding.
pub open spec fn spec_codec_family(ext: Seq<char>) -> CodecFamily {
    let l = lower_seq(ext);
    if l == "jpg"@ || l == "jpeg"@ || l == "png"@ || l == "webp"@ || l == "gif"@ {
        CodecFamily::Raster
    } else if l == "heic"@ || l == "heif"@ {
        CodecFamily::BlockContainer
    } else {
        CodecFamily::NoDecode
    }
}

/// True for the JPEG-like family, the only one whose orientation metadata is
/// read.
pub open spec fn spec_is_jpeg_family(ext: Seq<char>) -> bool {
    lower_seq(ext) == "jpg"@ || lower_seq(ext) == "jpeg"@
}

/// Maps a file extension to its normalized media type; extensions outside
/// the table map to the generic binary type.
pub fn map_extension_to_mime(ext: &str) -> (r: &'static str)
    ensures
        r@ == spec_mime_of(ext@),
{
    let low = ascii_lower(ext);
    let l = low.as_str();
    if str_eq(l, "jpg") || str_eq(l, "jpeg") {
        "image/jpeg"
    } else if str_eq(l, "png") {
        "image/png"
    } else if str_eq(l, "gif") {
        "image/gif"
    } else if str_eq(l, "webp") {
        "image/webp"
    } else if str_eq(l, "heic") || str_eq(l, "heif") {
        "image/heic"
    } else if str_eq(l, "mp4") {
        "video/mp4"
    } else if str_eq(l, "mov") {
        "video/quicktime"
    } else if str_eq(l, "avi") {
        "video/x-msvideo"
    } else {
        "application/octet-stream"
    }
}

/// Selects the codec family for an extension.
pub fn codec_family_of(ext: &str) -> (r: CodecFamily)
    ensures
        r == spec_codec_family(ext@),
{
    let low = ascii_lower(ext);
    let l = low.as_str();
    if str_eq(l, "jpg") || str_eq(l, "jpeg") || str_eq(l, "png") || str_eq(l, "webp") || str_eq(
        l,
        "gif",
    ) {
        CodecFamily::Raster
    } else if str_eq(l, "heic") || str_eq(l, "heif") {
        CodecFamily::BlockContainer
    } else {
        CodecFamily::NoDecode
    }
}

/// True exactly for the JPEG-like extensions.
pub fn is_jpeg_family(ext: &str) -> (r: bool)
    ensures
        r == spec_is_jpeg_family(ext@),
{
    let low = ascii_lower(ext);
    str_eq(low.as_str(), "jpg") || str_eq(low.as_str(), "jpeg")
}

} // verus!
