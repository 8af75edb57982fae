//! Colouring of a raster frame from the escape counts of its pixels.

use vstd::prelude::*;

use crate::palette::{color_of, to_rgb};

verus! {

/// Colours a frame. `counts` holds the escape count of every pixel, row by
/// row; the result holds the three RGB bytes of every pixel in that order.
pub fn color_frame(counts: &Vec<u32>, colors: &Vec<[u8; 3]>) -> (pixels: Vec<u8>)
    requires
        colors@.len() > 0,
    ensures
        pixels@.len() == 3 * counts@.len(),
        forall|i: int, k: int|
            0 <= i < counts@.len() && 0 <= k < 3 ==> #[trigger] pixels@[3 * i + k] == color_of(
                counts@[i],
                colors@,
            )[k],
{
    let mut pixels: Vec<u8> = Vec::new();
    let mut i: usize = 0;
    while i < counts.len()
        invariant
            colors@.len() > 0,
            i <= counts@.len(),
            pixels@.len() == 3 * i,
            forall|p: int, k: int|
                0 <= p < i && 0 <= k < 3 ==> #[trigger] pixels@[3 * p + k] == color_of(
                    counts@[p],
                    colors@,
                )[k],
        decreases counts@.len() - i,
    {
        let c: [u8; 3] = to_rgb(counts[i], colors);
        pixels.push(c[0]);
        pixels.push(c[1]);
        pixels.push(c[2]);
        proof {
            assert forall|p: int, k: int|
                0 <= p < i + 1 && 0 <= k < 3 implies #[trigger] pixels@[3 * p + k] == color_of(
                counts@[p],
                colors@,
            )[k] by {
                if p == i {
                    assert(k == 0 || k == 1 || k == 2);
                }
            }
        }
        i = i + 1;
    }
    pixels
}


#[verifier::external_type_specification]
#[verifier::external_body]
pub struct ExGifFrame<'a>(gif::Frame<'a>);

/// Quantisation effort for animation frames, from 1 (slowest, best) to 30.
pub const QUANTIZE_SPEED: i32 = 28;

/// Relies on gif::Frame::from_rgb_speed, which reduces RGB pixels to a
/// palette frame of the given size; it panics unless there are three bytes
/// per pixel and the speed lies in 1..=30.
#[verifier::external_body]
fn gif_from_rgb(width: u16, height: u16, pixels: &Vec<u8>, speed: i32) -> gif::Frame<'static>
    requires
        pixels@.len() == 3 * width * height,
        1 <= speed <= 30,
{
    gif::Frame::from_rgb_speed(width, height, pixels.as_slice(), speed)
}

/// Turns coloured pixels of a `width` by `height` frame into an animation
/// frame; pixel data of any other size is refused.
pub fn encode_frame(width: u16, height: u16, pixels: &Vec<u8>) -> (r: Option<gif::Frame<'static>>)
    ensures
        r is Some <==> pixels@.len() == 3 * width * height,
{
    assert(width * height <= 0xffff * 0xffff && 3 * width * height == 3 * (width * height))
        by (nonlinear_arith)
        requires
            width <= 0xffff,
            height <= 0xffff,
    ;
    let area: u64 = (width as u64) * (height as u64);
    let expected: u64 = 3 * area;
    if pixels.len() as u64 != expected {
        return None;
    }
    Some(gif_from_rgb(width, height, pixels, QUANTIZE_SPEED))
}

} // verus!
