//! Escape-time fractal zoom: colouring, palettes and ordered frame assembly.

pub mod fractals;
pub mod frame;
pub mod palette;
pub mod sequence;

use vstd::prelude::*;

verus! {

/// Iteration cap of the escape-time kernel; a count equal to it means the
/// point did not escape.
pub const MAX_ITERATIONS: u32 = 500;

/// Width of a frame, in pixels.
pub const WIDTH: usize = 2100;

/// Height of a frame, in pixels.
pub const HEIGHT: usize = 1500;

/// First zoom level of the animation.
pub const START_ZOOM: i32 = -4;

/// Zoom level just past the last frame of the animation.
pub const END_ZOOM: i32 = 500;

/// Display time of each frame, in hundredths of a second.
pub const FRAME_TIME: u16 = 2;

} // verus!
