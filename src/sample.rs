//! The classifier's view of a drawing: the canvas scaled to a fixed square
//! with a triangle filter, one byte per pixel.
use crate::canvas::{rgb_bytes, CanvasTexture};
use vstd::prelude::*;

verus! {

/// Side, in pixels, of the square image that the classifier reads.
pub const MODEL_INPUT_SIZE: u32 = 128;

/// The bytes of an RGB image of `width` by `height` pixels after it is
/// resampled to `new_width` by `new_height` pixels with a triangle filter.
pub uninterp spec fn triangle_resized(
    rgb: Seq<u8>,
    width: u32,
    height: u32,
    new_width: u32,
    new_height: u32,
) -> Seq<u8>;

/// Relies on `image::imageops::resize` with `FilterType::Triangle` on an RGB
/// image of eight-bit channels: it first resamples the columns into an image of
/// `width` by `new_height` pixels, then the rows into the `new_width` by
/// `new_height` result, and reads nothing but its arguments. It indexes the
/// source on every row and column, so the source must not be empty.
#[verifier::external_body]
fn resize_triangle(rgb: Vec<u8>, width: u32, height: u32, new_width: u32, new_height: u32) -> (r:
    Vec<u8>)
    requires
        width > 0,
        height > 0,
        rgb@.len() == width * height * 3,
        width * new_height * 3 <= usize::MAX,
        new_width * new_height * 3 <= usize::MAX,
    ensures
        r@ == triangle_resized(rgb@, width, height, new_width, new_height),
        r@.len() == new_width * new_height * 3,
{
    let source: image::RgbImage = image::ImageBuffer::from_raw(width, height, rgb).unwrap();
    image::imageops::resize(&source, new_width, new_height, image::imageops::FilterType::Triangle)
        .into_raw()
}

/// The first channel of each three-byte pixel.
pub open spec fn red_of(rgb: Seq<u8>) -> Seq<u8> {
    Seq::new(rgb.len() / 3, |k: int| rgb[3 * k])
}

/// Keeps the red byte of every pixel of an RGB image: what is drawn is grey,
/// so one channel carries the whole picture.
pub fn red_channel(rgb: &Vec<u8>) -> (r: Vec<u8>)
    ensures
        r@ == red_of(rgb@),
{
    let n = rgb.len();
    let pixels = n / 3;
    let mut out: Vec<u8> = Vec::new();
    let mut p: usize = 0;
    while p < pixels
        invariant
            n == rgb@.len(),
            pixels == n / 3,
            p <= pixels,
            out@.len() == p,
            forall|k: int| 0 <= k < p ==> #[trigger] out@[k] == rgb@[3 * k],
        decreases pixels - p,
    {
        out.push(rgb[3 * p]);
        p = p + 1;
    }
    assert(out@ =~= red_of(rgb@));
    out
}

/// The classifier's input for a drawing: the canvas's colours resampled to
/// `MODEL_INPUT_SIZE` pixels square, then the red byte of each pixel in row
/// order. A canvas without pixels cannot be resampled.
pub fn model_input(canvas: &CanvasTexture) -> (r: Vec<u8>)
    requires
        canvas.wf(),
        canvas.width() > 0,
        canvas.height() > 0,
        canvas.width() * MODEL_INPUT_SIZE * 3 <= usize::MAX,
    ensures
        r@ == red_of(
            triangle_resized(
                rgb_bytes(canvas.bytes()),
                canvas.width(),
                canvas.height(),
                MODEL_INPUT_SIZE,
                MODEL_INPUT_SIZE,
            ),
        ),
        r@.len() == MODEL_INPUT_SIZE * MODEL_INPUT_SIZE,
{
    let rgb = canvas.rgb_pixels();
    proof {
        let w = canvas.width() as int;
        let h = canvas.height() as int;
        assert((w * h * 4) / 4 * 3 == w * h * 3) by (nonlinear_arith);
    }
    let resized = resize_triangle(
        rgb,
        canvas.width(),
        canvas.height(),
        MODEL_INPUT_SIZE,
        MODEL_INPUT_SIZE,
    );
    red_channel(&resized)
}

} // verus!
