//! The image that a render produces.
//!
//! The renderer hands over a width, a height and a buffer of RGBA bytes.
//! The pool turns them into an image once and carries that image to the
//! caller without looking inside.

use vstd::prelude::*;
use crate::error::Error;
use image::DynamicImage;

verus! {

/// `image::DynamicImage`, carried through as it is.
#[verifier::external_type_specification]
#[verifier::external_body]
pub struct ExDynamicImage(image::DynamicImage);

/// The bytes that an image holds, row by row, four to a pixel: what
/// `DynamicImage::as_bytes` hands out.
pub uninterp spec fn raster_bytes(image: DynamicImage) -> Seq<u8>;

/// The width and the height that an image was made with: what
/// `DynamicImage::width` and `DynamicImage::height` hand out.
pub uninterp spec fn raster_size(image: DynamicImage) -> (u32, u32);

/// Whether a buffer of `len` bytes holds an RGBA image of the given size:
/// four bytes for each pixel. The length of a row must itself be a number
/// that the machine can address, also where there are no rows.
pub open spec fn fits(width: int, height: int, len: int) -> bool {
    &&& 0 <= width
    &&& 0 <= height
    &&& 4 * width <= usize::MAX
    &&& 4 * width * height <= len
}

/// `image::ImageBuffer::from_raw` for RGBA pixels of one byte per channel,
/// the buffer it makes wrapped as `DynamicImage::ImageRgba8`.
///
/// Trusted: the image exists exactly if the number of bytes needed, four
/// for each of `width * height` pixels, can be computed without overflow
/// and the buffer holds at least as many; it then keeps the buffer as it
/// is, together with the two dimensions.
#[verifier::external_body]
fn rgba_from_raw(width: u32, height: u32, data: Vec<u8>) -> (image: Option<DynamicImage>)
    ensures
        image is Some <==> fits(width as int, height as int, data@.len() as int),
        image matches Some(image) ==> raster_size(image) == (width, height) && raster_bytes(image)
            == data@,
{
    image::RgbaImage::from_raw(width, height, data).map(image::DynamicImage::ImageRgba8)
}

/// Makes the image out of what the renderer handed over.
///
/// The renderer reports the two dimensions as signed numbers. There is an
/// image exactly if neither is negative and the buffer is long enough.
pub fn assemble(width: i32, height: i32, data: Vec<u8>) -> (image: Option<DynamicImage>)
    ensures
        image is Some <==> fits(width as int, height as int, data@.len() as int),
        image matches Some(image) ==> raster_size(image) == (width as u32, height as u32)
            && raster_bytes(image) == data@,
{
    if width < 0 || height < 0 {
        None
    } else {
        rgba_from_raw(width as u32, height as u32, data)
    }
}

/// What a call ends with, given what its last render attempt produced.
pub fn render_result(image: Option<DynamicImage>) -> (result: Result<DynamicImage, Error>)
    ensures
        result == (match image {
            Some(image) => Ok::<DynamicImage, Error>(image),
            None => Err::<DynamicImage, Error>(Error::Unknown),
        }),
{
    match image {
        Some(image) => Ok(image),
        None => Err(Error::Unknown),
    }
}

} // verus!
