//! The escape-time formulas that a run can select. Each is a marker type;
//! its recurrence is evaluated in floating point by the caller.

use vstd::prelude::*;

verus! {

/// The standard recurrence `z' = z^2 + c`.
#[derive(Clone, Copy, Debug, PartialEq, Eq)]
pub struct Mandelbrot;

/// The burning-ship recurrence `z' = (|Re z| + i|Im z|)^2 + c`.
#[derive(Clone, Copy, Debug, PartialEq, Eq)]
pub struct BurningShip;

/// The power-three recurrence `z' = z^3 + c`.
#[derive(Clone, Copy, Debug, PartialEq, Eq)]
pub struct Cubic;

} // verus!
