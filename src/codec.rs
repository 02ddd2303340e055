use vstd::prelude::*;
use image::imageops::FilterType;
use image::RgbaImage;

verus! {

/// What `image::imageops::resize` with the triangle filter makes of an RGBA
/// image of `width` x `height` pixels at `new_width` x `new_height`.
pub uninterp spec fn triangle_resized(
    pixels: Seq<u8>,
    width: u32,
    height: u32,
    new_width: u32,
    new_height: u32,
) -> Seq<u8>;

/// Relies on `image::guess_format` (magic bytes only) and
/// `image::load_from_memory_with_format` with the guessed built-in format,
/// which bypass the process-wide format and decoder hooks, then on
/// `DynamicImage::to_rgba8` / `ImageBuffer::into_raw` for the pixels in RGBA.
/// Nothing is stated of the pixels: decoders such as JPEG's choose
/// CPU-specific code paths at run time.
#[verifier::external_body]
pub(crate) fn decode_rgba(bytes: &[u8]) -> (r: Option<(u32, u32, Vec<u8>)>) {
    let decoded = match image::guess_format(bytes) {
        Ok(format) => image::load_from_memory_with_format(bytes, format),
        Err(e) => Err(e),
    };
    match decoded {
        Ok(img) => {
            let rgba = img.to_rgba8();
            let (w, h) = rgba.dimensions();
            Some((w, h, rgba.into_raw()))
        },
        Err(_) => None,
    }
}

/// Relies on `ImageBuffer::from_raw` (which accepts a buffer of exactly
/// `4 * width * height` bytes) and `image::imageops::resize` with
/// `FilterType::Triangle`, whose result is a fresh `new_width` x `new_height`
/// buffer, and a copy of the source when the size is unchanged.
#[verifier::external_body]
pub(crate) fn resize_triangle(
    pixels: &Vec<u8>,
    width: u32,
    height: u32,
    new_width: u32,
    new_height: u32,
) -> (r: Vec<u8>)
    requires
        pixels@.len() == 4 * width * height,
        width > 0,
        height > 0,
        0 < new_width <= 224,
        0 < new_height <= 224,
    ensures
        r@ == triangle_resized(pixels@, width, height, new_width, new_height),
        r@.len() == 4 * new_width * new_height,
        new_width == width && new_height == height ==> r@ == pixels@,
{
    let src = RgbaImage::from_raw(width, height, pixels.clone()).unwrap();
    image::imageops::resize(&src, new_width, new_height, FilterType::Triangle).into_raw()
}

} // verus!
