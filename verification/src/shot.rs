//! A captured image of the screen.
//!
//! The pixels are held by the `image` crate. What the rest of the library knows
//! of it is a width, a height, and the bytes of the pixels: three for each, row
//! by row from the top.
use vstd::prelude::*;

use crate::color::Rgb;

verus! {

/// A captured image of the screen, as an `image::RgbImage`.
#[verifier::external_body]
pub struct Screenshot {
    image: image::RgbImage,
}

/// The width of the image in pixels.
pub uninterp spec fn shot_width(shot: Screenshot) -> u32;

/// The height of the image in pixels.
pub uninterp spec fn shot_height(shot: Screenshot) -> u32;

/// The bytes that the image holds its pixels in.
pub uninterp spec fn shot_bytes(shot: Screenshot) -> Seq<u8>;

/// Calls `image::ImageBuffer::from_raw` for three-channel byte pixels.
///
/// It takes the buffer over as it is, and gives an image of the size asked for
/// exactly when the buffer holds three bytes for each pixel. The size of one
/// row has to fit a `usize` even where there are no rows.
#[verifier::external_body]
fn image_from_raw(width: u32, height: u32, data: Vec<u8>) -> (res: Option<Screenshot>)
    ensures
        res is Some <==> (3 * width <= usize::MAX && 3 * width * height <= data@.len()),
        res is Some ==> shot_width(res->0) == width,
        res is Some ==> shot_height(res->0) == height,
        res is Some ==> shot_bytes(res->0) == data@,
{
    match image::RgbImage::from_raw(width, height, data) {
        Some(image) => Some(Screenshot { image }),
        None => None,
    }
}

/// Calls `image::ImageBuffer::width`, which returns the image's width.
#[verifier::external_body]
fn image_width(shot: &Screenshot) -> (res: u32)
    ensures
        res == shot_width(*shot),
{
    shot.image.width()
}

/// Calls `image::ImageBuffer::height`, which returns the image's height.
#[verifier::external_body]
fn image_height(shot: &Screenshot) -> (res: u32)
    ensures
        res == shot_height(*shot),
{
    shot.image.height()
}

/// Calls `image::ImageBuffer::get_pixel`.
///
/// It panics outside the image, and returns the three bytes of the pixel that
/// stands at column `x` of row `y` inside it.
#[verifier::external_body]
fn image_pixel(shot: &Screenshot, x: u32, y: u32) -> (res: (u8, u8, u8))
    requires
        x < shot_width(*shot),
        y < shot_height(*shot),
    ensures
        res.0 == shot_bytes(*shot)[3 * (y * shot_width(*shot) + x)],
        res.1 == shot_bytes(*shot)[3 * (y * shot_width(*shot) + x) + 1],
        res.2 == shot_bytes(*shot)[3 * (y * shot_width(*shot) + x) + 2],
{
    let image::Rgb([r, g, b]) = *shot.image.get_pixel(x, y);
    (r, g, b)
}

impl Screenshot {
    /// The color at column `x` of row `y`.
    pub open spec fn at(self, x: int, y: int) -> Rgb {
        let start = 3 * (y * shot_width(self) + x);
        Rgb {
            r: shot_bytes(self)[start],
            g: shot_bytes(self)[start + 1],
            b: shot_bytes(self)[start + 2],
        }
    }

    /// Whether there is a pixel at all.
    pub open spec fn has_pixels(self) -> bool {
        shot_width(self) > 0 && shot_height(self) > 0
    }

    /// The image of this size whose pixels `data` holds, three bytes for each
    /// and row by row, if it holds enough of them.
    pub fn from_raw(width: u32, height: u32, data: Vec<u8>) -> (res: Option<Self>)
        ensures
            res is Some <==> 3 * width <= usize::MAX && 3 * width * height <= data@.len(),
            res matches Some(shot) ==> shot_width(shot) == width && shot_height(shot) == height
                && shot_bytes(shot) == data@,
    {
        image_from_raw(width, height, data)
    }

    /// The width in pixels.
    pub fn width(&self) -> (res: u32)
        ensures
            res == shot_width(*self),
    {
        image_width(self)
    }

    /// The height in pixels.
    pub fn height(&self) -> (res: u32)
        ensures
            res == shot_height(*self),
    {
        image_height(self)
    }

    /// The color at column `x` of row `y`.
    pub fn pixel(&self, x: u32, y: u32) -> (res: Rgb)
        requires
            x < shot_width(*self),
            y < shot_height(*self),
        ensures
            res == self.at(x as int, y as int),
            res.r == shot_bytes(*self)[3 * (y * shot_width(*self) + x)],
            res.g == shot_bytes(*self)[3 * (y * shot_width(*self) + x) + 1],
            res.b == shot_bytes(*self)[3 * (y * shot_width(*self) + x) + 2],
    {
        let (r, g, b) = image_pixel(self, x, y);
        Rgb::new(r, g, b)
    }
}

/// The image holds red, green and blue of a pixel in three bytes that follow one
/// another, after those of the pixels to its left and of the rows above it.
pub proof fn law_pixels_are_three_bytes(shot: Screenshot, x: int, y: int)
    ensures
        shot.at(x, y).r == shot_bytes(shot)[3 * (y * shot_width(shot) + x)],
        shot.at(x, y).g == shot_bytes(shot)[3 * (y * shot_width(shot) + x) + 1],
        shot.at(x, y).b == shot_bytes(shot)[3 * (y * shot_width(shot) + x) + 2],
        shot.has_pixels() <==> shot_width(shot) >= 1 && shot_height(shot) >= 1,
{
}

} // verus!
