//! The format decoder and thumbnail generator: decoding raw bytes into a
//! pixel buffer whose dimensions the contracts track, rebuilding an image
//! from a container codec's RGB plane, and synthesizing the bounded
//! preview.

use vstd::prelude::*;

use crate::media::{spec_codec_family, CodecFamily, ErrorKind};

verus! {

#[verifier::external_type_specification]
#[verifier::external_body]
pub struct ExDynamicImage(image::DynamicImage);

/// A decoded still image: an opaque pixel buffer together with its pixel
/// dimensions, which every operation below keeps in step with the buffer.
#[derive(Debug)]
pub struct DecodedImage {
    inner: image::DynamicImage,
    width: u32,
    height: u32,
}

impl DecodedImage {
    /// The recorded pixel width.
    pub closed spec fn spec_width(&self) -> u32 {
        self.width
    }

    /// The recorded pixel height.
    pub closed spec fn spec_height(&self) -> u32 {
        self.height
    }

    /// The pixel width of the decoded image.
    pub fn width(&self) -> (r: u32)
        ensures
            r == self.spec_width(),
    {
        self.width
    }

    /// The pixel height of the decoded image.
    pub fn height(&self) -> (r: u32)
        ensures
            r == self.spec_height(),
    {
        self.height
    }
}

/// The dimensions the raster codec reports for a byte sequence, or `None`
/// when it cannot decode them. Decoding is a pure function of the bytes.
pub uninterp spec fn raster_dims_of(data: Seq<u8>) -> Option<(u32, u32)>;

/// The dimensions of the bounded preview of an image of the given
/// dimensions: the largest size that fits in a 512-by-512 box while keeping
/// the aspect ratio, a pure function of the dimensions alone.
pub uninterp spec fn thumb_dims_of(width: u32, height: u32) -> (u32, u32);

/// The interleaved RGB plane the block-container codec hands back: its
/// reported width and height, and the raw plane bytes.
pub struct ContainerPlane {
    pub width: u32,
    pub height: u32,
    pub data: Vec<u8>,
}

/// Relies on `image::load_from_memory`: decodes the bytes of any native
/// bitmap format into a pixel buffer, a pure function of the bytes; the
/// buffer's reported dimensions are recorded beside it.
#[verifier::external_body]
fn decode_raster(data: &Vec<u8>) -> (r: Option<DecodedImage>)
    ensures
        match r {
            Some(img) => raster_dims_of(data@) == Some((img.spec_width(), img.spec_height())),
            None => raster_dims_of(data@) is None,
        },
{
    match image::load_from_memory(data.as_slice()) {
        Ok(img) => {
            let width = img.width();
            let height = img.height();
            Some(DecodedImage { inner: img, width, height })
        },
        Err(_) => None,
    }
}

/// Relies on `image::RgbImage::from_raw`, which accepts a buffer that holds
/// exactly three bytes per pixel, and on `DynamicImage::ImageRgb8`, which
/// keeps the buffer's dimensions.
#[verifier::external_body]
fn rgb_from_plane(width: u32, height: u32, data: Vec<u8>) -> (r: DecodedImage)
    requires
        data@.len() == 3 * (width as int) * (height as int),
    ensures
        r.spec_width() == width,
        r.spec_height() == height,
{
    let buf = image::RgbImage::from_raw(width, height, data).unwrap();
    DecodedImage { inner: image::DynamicImage::ImageRgb8(buf), width, height }
}

/// Relies on `DynamicImage::fliph`: mirrors horizontally, keeping the
/// dimensions.
#[verifier::external_body]
pub(crate) fn fliph(img: DecodedImage) -> (r: DecodedImage)
    ensures
        r.spec_width() == img.spec_width(),
        r.spec_height() == img.spec_height(),
{
    let flipped = img.inner.fliph();
    let width = flipped.width();
    let height = flipped.height();
    DecodedImage { inner: flipped, width, height }
}

/// Relies on `DynamicImage::flipv`: mirrors vertically, keeping the
/// dimensions.
#[verifier::external_body]
pub(crate) fn flipv(img: DecodedImage) -> (r: DecodedImage)
    ensures
        r.spec_width() == img.spec_width(),
        r.spec_height() == img.spec_height(),
{
    let flipped = img.inner.flipv();
    let width = flipped.width();
    let height = flipped.height();
    DecodedImage { inner: flipped, width, height }
}

/// Relies on `DynamicImage::rotate90`: rotates a quarter turn clockwise,
/// swapping the dimensions.
#[verifier::external_body]
pub(crate) fn rotate90(img: DecodedImage) -> (r: DecodedImage)
    ensures
        r.spec_width() == img.spec_height(),
        r.spec_height() == img.spec_width(),
{
    let rotated = img.inner.rotate90();
    let width = rotated.width();
    let height = rotated.height();
    DecodedImage { inner: rotated, width, height }
}

/// Relies on `DynamicImage::rotate180`: rotates a half turn, keeping the
/// dimensions.
#[verifier::external_body]
pub(crate) fn rotate180(img: DecodedImage) -> (r: DecodedImage)
    ensures
        r.spec_width() == img.spec_width(),
        r.spec_height() == img.spec_height(),
{
    let rotated = img.inner.rotate180();
    let width = rotated.width();
    let height = rotated.height();
    DecodedImage { inner: rotated, width, height }
}

/// Relies on `DynamicImage::rotate270`: rotates a quarter turn
/// counter-clockwise, swapping the dimensions.
#[verifier::external_body]
pub(crate) fn rotate270(img: DecodedImage) -> (r: DecodedImage)
    ensures
        r.spec_width() == img.spec_height(),
        r.spec_height() == img.spec_width(),
{
    let rotated = img.inner.rotate270();
    let width = rotated.width();
    let height = rotated.height();
    DecodedImage { inner: rotated, width, height }
}

/// Relies on `DynamicImage::thumbnail`, whose result dimensions are
/// `resize_dimensions` of the input dimensions against a 512-by-512 box:
/// a pure function of the dimensions that, for positive input, lands
/// both sides in `1..=512` and places the longer edge at exactly 512 —
/// the side attaining the limiting ratio scales to the full box edge.
#[verifier::external_body]
pub(crate) fn make_thumbnail(img: &DecodedImage) -> (r: DecodedImage)
    requires
        img.spec_width() >= 1,
        img.spec_height() >= 1,
    ensures
        (r.spec_width(), r.spec_height()) == thumb_dims_of(img.spec_width(), img.spec_height()),
        1 <= r.spec_width() <= 512,
        1 <= r.spec_height() <= 512,
        r.spec_width() >= r.spec_height() ==> r.spec_width() == 512,
        r.spec_height() >= r.spec_width() ==> r.spec_height() == 512,
{
    let thumb = img.inner.thumbnail(512, 512);
    let width = thumb.width();
    let height = thumb.height();
    DecodedImage { inner: thumb, width, height }
}

/// Relies on `DynamicImage::write_to` with the lossy web-image format:
/// encodes the pixel buffer into bytes in memory. The encoder converts
/// any pixel layout to an 8-bit one, refuses only a side of zero or
/// beyond 16384 pixels, and writes into an in-memory cursor that cannot
/// fail — so for dimensions in range the encode succeeds.
#[verifier::external_body]
pub(crate) fn encode_webp(img: &DecodedImage) -> (r: Option<Vec<u8>>)
    ensures
        (1 <= img.spec_width() <= 16384 && 1 <= img.spec_height() <= 16384) ==> r is Some,
{
    let mut cursor = std::io::Cursor::new(Vec::new());
    match img.inner.write_to(&mut cursor, image::ImageFormat::WebP) {
        Ok(()) => Some(cursor.into_inner()),
        Err(_) => None,
    }
}

/// Produces the bounded preview of a decoded image, encoded in the lossy
/// web-image format: the longer edge is clamped to 512 while the aspect
/// ratio is kept. The preview's dimensions always fit the encoder's
/// range, so for a decoded image the preview is owed; the error arm
/// stands for the hard thumbnail failure, distinguishing a broken encode
/// from the unsupported-format skip.
pub fn generate_thumbnail(img: &DecodedImage) -> (r: Result<Vec<u8>, ErrorKind>)
    requires
        img.spec_width() >= 1,
        img.spec_height() >= 1,
    ensures
        r is Ok,
{
    let thumb = make_thumbnail(img);
    match encode_webp(&thumb) {
        Option::Some(bytes) => Ok(bytes),
        Option::None => Err(ErrorKind::ThumbnailError),
    }
}

/// What `load_image` returns, stated over the codec family of the extension
/// and the pure decode functions.
pub open spec fn spec_load_image(
    data: Seq<u8>,
    ext: Seq<char>,
    container: Option<ContainerPlane>,
    r: Result<DecodedImage, ErrorKind>,
) -> bool {
    match spec_codec_family(ext) {
        CodecFamily::Raster => match raster_dims_of(data) {
            Some((w, h)) => if w >= 1 && h >= 1 {
                r matches Ok(img) && img.spec_width() == w && img.spec_height() == h
            } else {
                r == Result::<DecodedImage, ErrorKind>::Err(ErrorKind::DecodeError)
            },
            None => r == Result::<DecodedImage, ErrorKind>::Err(ErrorKind::DecodeError),
        },
        CodecFamily::BlockContainer => match container {
            Some(p) => if p.data@.len() == 3 * (p.width as int) * (p.height as int) && p.width >= 1
                && p.height >= 1 {
                r matches Ok(img) && img.spec_width() == p.width && img.spec_height() == p.height
            } else {
                r == Result::<DecodedImage, ErrorKind>::Err(ErrorKind::DecodeError)
            },
            None => r == Result::<DecodedImage, ErrorKind>::Err(ErrorKind::DecodeError),
        },
        CodecFamily::NoDecode => r == Result::<DecodedImage, ErrorKind>::Err(
            ErrorKind::UnsupportedFormat,
        ),
    }
}

/// Decodes raw file bytes according to the extension's codec family.
///
/// Native bitmap families go through the raster codec. The block-tiled
/// container family is decoded by an external container codec whose output
/// plane, if any, the caller hands in; the plane is accepted only when its
/// dimensions evenly divide the buffer, three bytes per pixel. Every other
/// extension is refused as unsupported, with nothing read — callers use
/// that to skip thumbnailing without failing. A decode that reports a zero
/// dimension is refused as a decode failure.
pub fn load_image(data: &Vec<u8>, ext: &str, container: Option<ContainerPlane>) -> (r: Result<
    DecodedImage,
    ErrorKind,
>)
    ensures
        spec_load_image(data@, ext@, container, r),
{
    match crate::media::codec_family_of(ext) {
        CodecFamily::Raster => match decode_raster(data) {
            Some(img) => if img.width() >= 1 && img.height() >= 1 {
                Ok(img)
            } else {
                Err(ErrorKind::DecodeError)
            },
            None => Err(ErrorKind::DecodeError),
        },
        CodecFamily::BlockContainer => match container {
            Some(p) => {
                let w64 = p.width as u64;
                let h64 = p.height as u64;
                proof {
                    assert(w64 * h64 <= 0xffffffff * 0xffffffff) by (nonlinear_arith)
                        requires
                            w64 <= 0xffffffff,
                            h64 <= 0xffffffff,
                    ;
                }
                let need = w64 * h64;
                let len = p.data.len() as u64;
                proof {
                    let li = len as int;
                    let ni = need as int;
                    assert(li == 3 * (li / 3) + (li % 3)) by (nonlinear_arith);
                    if li == 3 * ni {
                        assert(li / 3 == ni && li % 3 == 0) by (nonlinear_arith)
                            requires
                                li == 3 * ni,
                        ;
                    }
                    assert((li % 3 == 0 && li / 3 == ni) <==> li == 3 * ni);
                    assert(3 * (p.width as int) * (p.height as int) == 3 * ni) by (nonlinear_arith)
                        requires
                            ni == (p.width as int) * (p.height as int),
                    ;
                }
                if p.width >= 1 && p.height >= 1 && len % 3 == 0 && len / 3 == need {
                    let w = p.width;
                    let h = p.height;
                    Ok(rgb_from_plane(w, h, p.data))
                } else {
                    Err(ErrorKind::DecodeError)
                }
            },
            None => Err(ErrorKind::DecodeError),
        },
        CodecFamily::NoDecode => Err(ErrorKind::UnsupportedFormat),
    }
}

} // verus!
