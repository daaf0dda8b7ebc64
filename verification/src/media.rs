//! Shrinking uploaded images: at most 1920 pixels a side, as JPEG of quality 88.
use vstd::prelude::*;
use crate::text::starts_with_seq;

mod image_io;

pub use image_io::{decoded_size, fitted_size, image_decodes, image_size, jpeg_bytes, rgb_pixels, scaled_to_fit};
use image_io::{encode_jpeg, load_image, resize_within, rgb8_pixels};

verus! {

/// The longest side an image keeps.
pub const MAX_IMAGE_DIMENSION: u32 = 1920;

/// The JPEG quality images are written with.
pub const JPEG_QUALITY: u8 = 88;

/// The box an image decoded from `data` is scaled to fit: 1920 × 1920 where a
/// side is longer than 1920, none otherwise.
pub open spec fn fit_for(data: Seq<u8>) -> Option<u32> {
    if decoded_size(data).0 > MAX_IMAGE_DIMENSION || decoded_size(data).1 > MAX_IMAGE_DIMENSION {
        Some(MAX_IMAGE_DIMENSION)
    } else {
        None
    }
}

/// The size of the shrunk image.
pub open spec fn shrunk_size(data: Seq<u8>) -> (u32, u32) {
    image_size(data, fit_for(data))
}

/// Whether an image shrinks: it decodes, and neither side of the shrunk
/// image is 0 (only an empty image that is not scaled keeps a side of 0).
pub open spec fn shrinks(data: Seq<u8>) -> bool {
    image_decodes(data) && shrunk_size(data).0 >= 1 && shrunk_size(data).1 >= 1
}

/// Whether `out` is a JPEG of quality 88 of some RGB pixels of the given size.
pub open spec fn is_jpeg_of_size(out: Seq<u8>, width: u32, height: u32) -> bool {
    exists|p: Seq<u8>|
        p.len() == width as int * height as int * 3 && out == #[trigger] jpeg_bytes(p, width, height, JPEG_QUALITY)
}

/// Whether an image of this size is scaled down: when a side exceeds 1920.
pub fn needs_resize(width: u32, height: u32) -> (r: bool)
    ensures
        r == (width > MAX_IMAGE_DIMENSION || height > MAX_IMAGE_DIMENSION),
{
    width > MAX_IMAGE_DIMENSION || height > MAX_IMAGE_DIMENSION
}

/// Shrinks an image: decodes it, scales it down to fit 1920 × 1920 where a
/// side is longer, and writes its RGB pixels as a JPEG of quality 88.
pub fn compress_image(data: &[u8]) -> (r: Result<Vec<u8>, String>)
    ensures
        r is Ok <==> shrinks(data@),
        image_decodes(data@) ==> shrunk_size(data@).0 <= MAX_IMAGE_DIMENSION
            && shrunk_size(data@).1 <= MAX_IMAGE_DIMENSION,
        image_decodes(data@) && fit_for(data@) is Some ==> scaled_to_fit(
            decoded_size(data@).0 as int,
            decoded_size(data@).1 as int,
            shrunk_size(data@).0 as int,
            shrunk_size(data@).1 as int,
            MAX_IMAGE_DIMENSION as int,
        ),
        match r {
            Ok(out) => is_jpeg_of_size(out@, shrunk_size(data@).0, shrunk_size(data@).1)
                && (fit_for(data@) is None ==> out@ == jpeg_bytes(
                rgb_pixels(data@),
                decoded_size(data@).0,
                decoded_size(data@).1,
                JPEG_QUALITY,
            )),
            Err(m) => if image_decodes(data@) {
                starts_with_seq(m@, "Encode failed: "@)
            } else {
                starts_with_seq(m@, "Invalid image: "@)
            },
        },
{
    let (img, w, h) = match load_image(data) {
        Ok(x) => x,
        Err(m) => {
            return Err(m);
        },
    };
    let (fitted, width, height) = if needs_resize(w, h) {
        resize_within(img, MAX_IMAGE_DIMENSION)
    } else {
        (img, w, h)
    };
    let pixels = rgb8_pixels(&fitted);
    let r = encode_jpeg(pixels.as_slice(), width, height, JPEG_QUALITY);
    proof {
        if r is Ok {
            let out = r->Ok_0;
            assert(pixels@.len() == width as int * height as int * 3 && out@ == jpeg_bytes(
                pixels@,
                width,
                height,
                JPEG_QUALITY,
            ));
        }
    }
    r
}

/// The bytes an uploaded image is stored as: the shrunk JPEG where shrinking
/// worked, else the upload as it came.
pub fn image_to_store(original: Vec<u8>, compressed: Option<Vec<u8>>) -> (r: Vec<u8>)
    ensures
        r == match compressed {
            Some(c) => c,
            None => original,
        },
{
    match compressed {
        Some(c) => c,
        None => original,
    }
}

} // verus!
