use vstd::prelude::*;

verus! {

/// One of the two scroll directions.
#[derive(Clone, Copy, Debug, PartialEq, Eq, Structural)]
pub enum Axis {
    Horizontal,
    Vertical,
}

/// A measured size, in whole layout units.
#[derive(Clone, Copy, Debug, PartialEq, Eq, Structural)]
pub struct Extent {
    pub width: u64,
    pub height: u64,
}

impl Extent {
    /// The size along `axis`.
    pub open spec fn along(self, axis: Axis) -> u64 {
        match axis {
            Axis::Horizontal => self.width,
            Axis::Vertical => self.height,
        }
    }

    pub fn new(width: u64, height: u64) -> (r: Extent)
        ensures
            r.width == width,
            r.height == height,
    {
        Extent { width, height }
    }

    /// The size before anything was measured.
    pub fn zero() -> (r: Extent)
        ensures
            r.width == 0,
            r.height == 0,
    {
        Extent { width: 0, height: 0 }
    }

    pub fn get(&self, axis: Axis) -> (r: u64)
        ensures
            r == self.along(axis),
    {
        match axis {
            Axis::Horizontal => self.width,
            Axis::Vertical => self.height,
        }
    }
}

/// The scroll commands of one phase: on each axis, whether to move the
/// offset to the far edge.
#[derive(Clone, Copy, Debug, PartialEq, Eq, Structural)]
pub struct SnapAction {
    pub horizontal: bool,
    pub vertical: bool,
}

impl SnapAction {
    /// No scroll on either axis.
    pub open spec fn is_none(self) -> bool {
        !self.horizontal && !self.vertical
    }

    pub fn none() -> (r: SnapAction)
        ensures
            r.is_none(),
    {
        SnapAction { horizontal: false, vertical: false }
    }

    pub fn any(&self) -> (r: bool)
        ensures
            r == !self.is_none(),
    {
        self.horizontal || self.vertical
    }
}

} // verus!
