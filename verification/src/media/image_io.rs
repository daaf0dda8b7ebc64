//! The `image` crate's decoding, scaling, pixel conversion and JPEG writing.
//!
//! A decoded image is opaque; what it holds is told by where it came from:
//! the bytes it was decoded from, and the box it was scaled to fit, if any.
//! Only `load_image` and `resize_within` make a `Decoded`, so that record is
//! always true of the image it carries.
use vstd::prelude::*;
use crate::text::starts_with_seq;

verus! {

#[verifier::external_type_specification]
#[verifier::external_body]
pub struct ExDynamicImage(image::DynamicImage);

/// Whether `image::load_from_memory` decodes the given bytes.
pub uninterp spec fn image_decodes(data: Seq<u8>) -> bool;

/// The width and height of the image that `image::load_from_memory` decodes
/// from the given bytes.
pub uninterp spec fn decoded_size(data: Seq<u8>) -> (u32, u32);

/// The width and height that `DynamicImage::resize(max, max, ..)` gives the
/// image decoded from the given bytes.
pub uninterp spec fn fitted_size(data: Seq<u8>, max: u32) -> (u32, u32);

/// The RGB pixels (`DynamicImage::to_rgb8`) of the image decoded from the
/// given bytes, as decoded (not scaled).
pub uninterp spec fn rgb_pixels(data: Seq<u8>) -> Seq<u8>;

/// The bytes `JpegEncoder::encode` writes for RGB pixels of the given size at
/// the given quality.
pub uninterp spec fn jpeg_bytes(pixels: Seq<u8>, width: u32, height: u32, quality: u8) -> Seq<u8>;

/// The size of the image decoded from `data`, scaled as `fit` says.
pub open spec fn image_size(data: Seq<u8>, fit: Option<u32>) -> (u32, u32) {
    match fit {
        None => decoded_size(data),
        Some(max) => fitted_size(data, max),
    }
}

/// A `w` × `h` image scaled to fit a `max` × `max` box, keeping its aspect
/// ratio: its longer side becomes `max`, and its other side is the shorter
/// side scaled by the same ratio, to within one pixel.
pub open spec fn scaled_to_fit(w: int, h: int, fw: int, fh: int, max: int) -> bool {
    if w >= h {
        fw == max && fh * w <= h * max + w && fh * w + w >= h * max
    } else {
        fh == max && fw * h <= w * max + h && fw * h + h >= w * max
    }
}

/// A decoded image, with the bytes it was decoded from and the box it was
/// scaled to fit, if it was.
pub struct Decoded {
    image: image::DynamicImage,
    source: Ghost<Seq<u8>>,
    fit: Ghost<Option<u32>>,
}

impl Decoded {
    /// The bytes the image was decoded from.
    pub closed spec fn source(self) -> Seq<u8> {
        self.source@
    }

    /// The box the image was scaled to fit, if it was.
    pub closed spec fn fit(self) -> Option<u32> {
        self.fit@
    }
}

/// Decodes an image in any format the `image` crate recognises
/// (`image::load_from_memory`), with its width and height.
///
/// Trusted: whether decoding succeeds and the size found are named
/// `image_decodes` and `decoded_size`; the error text starts with
/// "Invalid image: " as the format string writes it.
#[verifier::external_body]
pub(crate) fn load_image(data: &[u8]) -> (r: Result<(Decoded, u32, u32), String>)
    ensures
        r is Ok <==> image_decodes(data@),
        match r {
            Ok((d, w, h)) => d.source() == data@ && d.fit() is None && (w, h) == decoded_size(data@),
            Err(m) => starts_with_seq(m@, "Invalid image: "@),
        },
{
    match image::load_from_memory(data) {
        Ok(image) => {
            let (w, h) = (image.width(), image.height());
            Ok((Decoded { image, source: Ghost(data@), fit: Ghost(None) }, w, h))
        },
        Err(e) => Err(format!("Invalid image: {}", e)),
    }
}

/// Scales a decoded image to fit a `max` × `max` box, keeping its aspect
/// ratio, with the Lanczos3 filter (`DynamicImage::resize`), and gives the
/// new width and height.
///
/// Trusted: the size is named `fitted_size`. `resize_dimensions` scales both
/// sides by `min(max / width, max / height)` in `f64`, rounds, and keeps each
/// side at least 1, so both sides lie between 1 and `max`; an empty image is
/// given that size too (`imageops::resize`). With a side that is not 0, the
/// longer side comes to `max` exactly and the other to the rounded scaled
/// side (the error of the two `f64` operations is far below half a pixel);
/// which of two possible roundings it takes is not stated.
#[verifier::external_body]
pub(crate) fn resize_within(d: Decoded, max: u32) -> (r: (Decoded, u32, u32))
    requires
        d.fit() is None,
        max >= 1,
    ensures
        r.0.source() == d.source(),
        r.0.fit() == Some(max),
        (r.1, r.2) == fitted_size(d.source(), max),
        1 <= r.1 <= max,
        1 <= r.2 <= max,
        decoded_size(d.source()).0 >= 1 || decoded_size(d.source()).1 >= 1 ==> scaled_to_fit(
            decoded_size(d.source()).0 as int,
            decoded_size(d.source()).1 as int,
            r.1 as int,
            r.2 as int,
            max as int,
        ),
{
    let image = d.image.resize(max, max, image::imageops::FilterType::Lanczos3);
    let (w, h) = (image.width(), image.height());
    (Decoded { image, source: d.source, fit: Ghost(Some(max)) }, w, h)
}

/// The RGB pixels of a decoded image, three bytes a pixel, row by row
/// (`DynamicImage::to_rgb8`).
///
/// Trusted: an `RgbImage` has the size of the image it was converted from
/// and three bytes for each pixel. The pixels of an image as decoded are
/// named `rgb_pixels`; those of a scaled image are not stated, since the
/// Lanczos3 filter computes them with `f32::sin`, whose precision std leaves
/// open.
#[verifier::external_body]
pub(crate) fn rgb8_pixels(d: &Decoded) -> (r: Vec<u8>)
    ensures
        d.fit() is None ==> r@ == rgb_pixels(d.source()),
        r@.len() == image_size(d.source(), d.fit()).0 as int * image_size(d.source(), d.fit()).1 as int * 3,
{
    d.image.to_rgb8().into_raw()
}

/// Writes RGB pixels as a JPEG of the given quality (`JpegEncoder::encode`
/// into a `Vec`).
///
/// Trusted: the encoder panics unless the buffer holds three bytes a pixel,
/// which `requires` rules out; `encode_image` refuses a side of 0 or above
/// 65535 and otherwise only writes to the `Vec`, which cannot fail. The bytes
/// written are named `jpeg_bytes`; the error text starts with
/// "Encode failed: " as the format string writes it.
#[verifier::external_body]
pub(crate) fn encode_jpeg(pixels: &[u8], width: u32, height: u32, quality: u8) -> (r: Result<Vec<u8>, String>)
    requires
        pixels@.len() == width as int * height as int * 3,
    ensures
        r is Ok <==> (1 <= width <= 65535 && 1 <= height <= 65535),
        match r {
            Ok(out) => out@ == jpeg_bytes(pixels@, width, height, quality),
            Err(m) => starts_with_seq(m@, "Encode failed: "@),
        },
{
    let mut buf = Vec::new();
    let mut encoder = image::codecs::jpeg::JpegEncoder::new_with_quality(&mut buf, quality);
    encoder
        .encode(pixels, width, height, image::ExtendedColorType::Rgb8)
        .map_err(|e| format!("Encode failed: {}", e))?;
    Ok(buf)
}

} // verus!
