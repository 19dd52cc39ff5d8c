//! Bringing a cover image to its target size, through the `image` crate.
use vstd::prelude::*;
use crate::error::NasError;
use image::GenericImageView;

verus! {

#[verifier::external_type_specification]
#[verifier::external_body]
pub struct ExDynamicImage(image::DynamicImage);

#[verifier::external_type_specification]
#[verifier::external_body]
pub struct ExImageError(image::ImageError);

/// The largest width or height a cover is resized to.
pub const MAX_SIDE: u32 = 65535;

/// Whether `image::load_from_memory` decodes these bytes.
pub uninterp spec fn decodes(bytes: Seq<u8>) -> bool;

/// Relies on `image::load_from_memory`: it guesses the format from the
/// bytes and decodes them; whether that succeeds depends on the bytes alone.
#[verifier::external_body]
fn decode_image(bytes: &[u8]) -> (r: Result<image::DynamicImage, image::ImageError>)
    ensures
        r is Ok <==> decodes(bytes@),
{
    image::load_from_memory(bytes)
}

/// Relies on `GenericImageView::dimensions` of `DynamicImage`: the width
/// and height in pixels.
#[verifier::external_body]
fn image_size(img: &image::DynamicImage) -> (r: (u32, u32)) {
    img.dimensions()
}

/// Relies on `image::imageops::resize` with the triangle filter: it builds
/// its result with `ImageBuffer::new(nwidth, nheight)`, whatever the input's
/// aspect ratio; the size handed back is measured on that result. The bound
/// on the sides keeps `ImageBuffer::new`'s length within a 64-bit `usize`.
#[verifier::external_body]
fn resize_image(img: &image::DynamicImage, w: u32, h: u32) -> (r: (image::DynamicImage, u32, u32))
    requires
        w <= MAX_SIDE,
        h <= MAX_SIDE,
    ensures
        r.1 == w,
        r.2 == h,
{
    let out = image::DynamicImage::ImageRgba8(image::imageops::resize(img, w, h, image::imageops::FilterType::Triangle));
    let (ow, oh) = out.dimensions();
    (out, ow, oh)
}

/// Relies on `DynamicImage::to_rgba8`: the same pixels as 8-bit RGBA, the
/// layout the compact encoder takes.
#[verifier::external_body]
fn to_rgba(img: &image::DynamicImage) -> (r: image::DynamicImage) {
    image::DynamicImage::ImageRgba8(img.to_rgba8())
}

/// Decodes an encoded image as 8-bit RGBA and brings it to exactly `target`,
/// whatever its aspect ratio, or keeps its own size where no target is
/// given. Returns the image with its width and height.
pub fn prepare_cover(bytes: &Vec<u8>, target: Option<(u32, u32)>) -> (r: Result<(image::DynamicImage, u32, u32), NasError>)
    requires
        target is Some ==> target.unwrap().0 <= MAX_SIDE && target.unwrap().1 <= MAX_SIDE,
    ensures
        r is Ok <==> decodes(bytes@),
        r is Err ==> r == Err::<(image::DynamicImage, u32, u32), NasError>(NasError::FailedToReadFile),
        r is Ok && target is Some ==> (r.unwrap().1, r.unwrap().2) == target.unwrap(),
{
    let img = match decode_image(bytes.as_slice()) {
        Ok(img) => img,
        Err(_) => return Err(NasError::FailedToReadFile),
    };
    match target {
        Some((w, h)) => Ok(resize_image(&img, w, h)),
        None => {
            let (w, h) = image_size(&img);
            Ok((to_rgba(&img), w, h))
        },
    }
}

} // verus!
