//! Frame-bounded interpolation between two sets of values.
//!
//! The values are f32 bits (or plain integers, where a field says so); the
//! library decides at which point of the interpolation a frame falls, and
//! the caller applies the easing formula to the values.

use vstd::prelude::*;

verus! {

/// Easing formula of an interpolation: `x`, `x²` or `2x − x²`.
#[derive(Debug, Clone, Copy, PartialEq, Eq, Structural)]
pub enum Formula {
    Linear,
    Power2,
    InvertPower2,
}

/// A pair of values, as f32 bits.
#[derive(Debug, Clone, Copy, PartialEq, Eq, Structural)]
pub struct Vec2 {
    pub x: u32,
    pub y: u32,
}

/// A triple of values, as f32 bits.
#[derive(Debug, Clone, Copy, PartialEq, Eq, Structural)]
pub struct Vec3 {
    pub x: u32,
    pub y: u32,
    pub z: u32,
}

/// Where a frame falls in an interpolation.
#[derive(Debug, Clone, Copy, PartialEq, Eq, Structural)]
pub enum Progress {
    /// The end values apply, verbatim.
    Done,
    /// The values are `start + formula(elapsed / duration) · (end − start)`.
    Running { elapsed: i32, duration: i32 },
}

/// Where `frame` falls in an interpolation from `start_frame` to
/// `end_frame`: the end is reached one frame early, at `end_frame − 1`.
pub open spec fn progress_of(start_frame: u16, end_frame: u16, frame: u16) -> Progress {
    if frame + 1 >= end_frame {
        Progress::Done
    } else {
        Progress::Running {
            elapsed: (frame - start_frame) as i32,
            duration: (end_frame - start_frame) as i32,
        }
    }
}

/// Where `frame` falls in an interpolation from `start_frame` to
/// `end_frame`.
pub fn progress(start_frame: u16, end_frame: u16, frame: u16) -> (r: Progress)
    ensures
        r == progress_of(start_frame, end_frame, frame),
{
    if frame as u32 + 1 >= end_frame as u32 {
        Progress::Done
    } else {
        Progress::Running {
            elapsed: frame as i32 - start_frame as i32,
            duration: end_frame as i32 - start_frame as i32,
        }
    }
}

/// Sampling at any frame from `end_frame − 1` on gives the end values
/// exactly: the interpolation never runs past its end.
pub proof fn lemma_end_is_final(start_frame: u16, end_frame: u16, frame: u16)
    requires
        frame + 1 >= end_frame,
    ensures
        progress_of(start_frame, end_frame, frame) == Progress::Done,
{
}

/// Interpolation of one value.
#[derive(Debug, Clone, Copy, PartialEq, Eq, Structural)]
pub struct Interpolator1 {
    pub start_values: u32,
    pub end_values: u32,
    pub start_frame: u16,
    pub end_frame: u16,
    pub formula: Formula,
}

/// Interpolation of two values.
#[derive(Debug, Clone, Copy, PartialEq, Eq, Structural)]
pub struct Interpolator2 {
    pub start_values: Vec2,
    pub end_values: Vec2,
    pub start_frame: u16,
    pub end_frame: u16,
    pub formula: Formula,
}

/// Interpolation of three values.
#[derive(Debug, Clone, Copy, PartialEq, Eq, Structural)]
pub struct Interpolator3 {
    pub start_values: Vec3,
    pub end_values: Vec3,
    pub start_frame: u16,
    pub end_frame: u16,
    pub formula: Formula,
}

impl Interpolator1 {
    pub fn new(start_values: u32, start_frame: u16, end_values: u32, end_frame: u16, formula: Formula) -> (r: Interpolator1)
        ensures
            r == (Interpolator1 { start_values, end_values, start_frame, end_frame, formula }),
    {
        Interpolator1 { start_values, end_values, start_frame, end_frame, formula }
    }

    /// Where `frame` falls in this interpolation.
    pub fn progress(&self, frame: u16) -> (r: Progress)
        ensures
            r == progress_of(self.start_frame, self.end_frame, frame),
    {
        progress(self.start_frame, self.end_frame, frame)
    }
}

impl Interpolator2 {
    pub fn new(start_values: Vec2, start_frame: u16, end_values: Vec2, end_frame: u16, formula: Formula) -> (r: Interpolator2)
        ensures
            r == (Interpolator2 { start_values, end_values, start_frame, end_frame, formula }),
    {
        Interpolator2 { start_values, end_values, start_frame, end_frame, formula }
    }

    /// Where `frame` falls in this interpolation.
    pub fn progress(&self, frame: u16) -> (r: Progress)
        ensures
            r == progress_of(self.start_frame, self.end_frame, frame),
    {
        progress(self.start_frame, self.end_frame, frame)
    }
}

impl Interpolator3 {
    pub fn new(start_values: Vec3, start_frame: u16, end_values: Vec3, end_frame: u16, formula: Formula) -> (r: Interpolator3)
        ensures
            r == (Interpolator3 { start_values, end_values, start_frame, end_frame, formula }),
    {
        Interpolator3 { start_values, end_values, start_frame, end_frame, formula }
    }

    /// Where `frame` falls in this interpolation.
    pub fn progress(&self, frame: u16) -> (r: Progress)
        ensures
            r == progress_of(self.start_frame, self.end_frame, frame),
    {
        progress(self.start_frame, self.end_frame, frame)
    }
}

} // verus!
