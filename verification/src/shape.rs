//! Drawable timeline geometry and the per-output / per-surface bookkeeping
//! records that the aggregator owns.

use vstd::prelude::*;

verus! {

/// One drawable element of the timeline. Every shape has a left and a right
/// extent in source time (nanoseconds); point shapes have both at the same
/// instant.
#[derive(Clone, Copy, Debug, PartialEq, Eq, Structural)]
pub enum Shape {
    /// Start of a new render frame: (time, output index).
    FrameBoundary(u64, usize),
    /// Interval during which an output was repainting: (start, end, output index).
    RepaintRegion(u64, u64, usize),
    /// A client surface submitting content: (time, surface index).
    Commit(u64, usize),
}

/// Left extent of a shape in source time.
pub open spec fn shape_left(s: Shape) -> u64 {
    match s {
        Shape::FrameBoundary(l, _) => l,
        Shape::RepaintRegion(l, _, _) => l,
        Shape::Commit(l, _) => l,
    }
}

/// Right extent of a shape in source time.
pub open spec fn shape_right(s: Shape) -> u64 {
    match s {
        Shape::FrameBoundary(r, _) => r,
        Shape::RepaintRegion(_, r, _) => r,
        Shape::Commit(r, _) => r,
    }
}

impl Shape {
    /// Left extent in source time.
    pub fn left(&self) -> (r: u64)
        ensures
            r == shape_left(*self),
    {
        match self {
            Shape::FrameBoundary(l, _) => *l,
            Shape::RepaintRegion(l, _, _) => *l,
            Shape::Commit(l, _) => *l,
        }
    }

    /// Right extent in source time.
    pub fn right(&self) -> (r: u64)
        ensures
            r == shape_right(*self),
    {
        match self {
            Shape::FrameBoundary(r, _) => *r,
            Shape::RepaintRegion(_, r, _) => *r,
            Shape::Commit(r, _) => *r,
        }
    }
}

/// Bookkeeping for one output: its name and the time of the most recent
/// repaint-start event seen on it.
#[derive(Debug, Clone, PartialEq)]
pub struct OutputState {
    pub name: String,
    pub last_repaint_start: u64,
}

/// Spec-level image of an [`OutputState`]: the name as a character sequence.
#[verifier::ext_equal]
pub struct OutputModel {
    pub name: Seq<char>,
    pub last_repaint_start: u64,
}

impl View for OutputState {
    type V = OutputModel;

    open spec fn view(&self) -> OutputModel {
        OutputModel { name: self.name@, last_repaint_start: self.last_repaint_start }
    }
}

/// Bookkeeping for one surface: its wire identifier and the index of the
/// output it first committed under, fixed at creation.
#[derive(Clone, Copy, Debug, PartialEq, Eq, Structural)]
pub struct SurfaceState {
    pub index: u32,
    pub output_idx: usize,
}

} // verus!
