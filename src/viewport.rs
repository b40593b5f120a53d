use vstd::prelude::*;

use crate::geometry::{Axis, Extent, SnapAction};

verus! {

/// The largest offset along `axis` at which the window still lies within the
/// content: `content - view`, or zero where the content fits.
pub open spec fn max_offset_of(content: Extent, view: Extent, axis: Axis) -> u64 {
    if content.along(axis) > view.along(axis) {
        (content.along(axis) - view.along(axis)) as u64
    } else {
        0
    }
}

/// `offset + delta`, held to `[0, max]`.
pub open spec fn clamped(offset: u64, delta: i64, max: u64) -> u64 {
    let t = offset + delta;
    if t < 0 {
        0
    } else if t > max {
        max
    } else {
        t as u64
    }
}

/// What a [`Viewport`] holds.
pub struct ViewportState {
    pub content: Extent,
    pub view: Extent,
    pub offset_x: u64,
    pub offset_y: u64,
}

impl ViewportState {
    pub open spec fn offset(self, axis: Axis) -> u64 {
        match axis {
            Axis::Horizontal => self.offset_x,
            Axis::Vertical => self.offset_y,
        }
    }

    pub open spec fn max_offset(self, axis: Axis) -> u64 {
        max_offset_of(self.content, self.view, axis)
    }

    /// Each offset lies within its valid range.
    pub open spec fn wf(self) -> bool {
        self.offset_x <= self.max_offset(Axis::Horizontal) && self.offset_y <= self.max_offset(
            Axis::Vertical,
        )
    }

    /// The state with the offset along `axis` set to `value`.
    pub open spec fn with_offset(self, axis: Axis, value: u64) -> ViewportState {
        match axis {
            Axis::Horizontal => ViewportState { offset_x: value, ..self },
            Axis::Vertical => ViewportState { offset_y: value, ..self },
        }
    }

    /// Scrolled to the far edge along `axis`.
    pub open spec fn to_extreme(self, axis: Axis) -> ViewportState {
        self.with_offset(axis, self.max_offset(axis))
    }

    /// Scrolled by `delta` along `axis`, held to the valid range.
    pub open spec fn scrolled(self, axis: Axis, delta: i64) -> ViewportState {
        self.with_offset(axis, clamped(self.offset(axis), delta, self.max_offset(axis)))
    }

    /// The state after `action`: each axis it names goes to its far edge.
    pub open spec fn applied(self, action: SnapAction) -> ViewportState {
        let h = if action.horizontal {
            self.max_offset(Axis::Horizontal)
        } else {
            self.offset_x
        };
        let v = if action.vertical {
            self.max_offset(Axis::Vertical)
        } else {
            self.offset_y
        };
        ViewportState { offset_x: h, offset_y: v, ..self }
    }
}

/// A scrollable window of size `view` onto content of size `content`; its
/// offsets are always held to the valid range.
pub struct Viewport {
    content: Extent,
    view: Extent,
    offset_x: u64,
    offset_y: u64,
}

impl View for Viewport {
    type V = ViewportState;

    closed spec fn view(&self) -> ViewportState {
        ViewportState {
            content: self.content,
            view: self.view,
            offset_x: self.offset_x,
            offset_y: self.offset_y,
        }
    }
}

fn max_offset_exec(content: Extent, view: Extent, axis: Axis) -> (r: u64)
    ensures
        r == max_offset_of(content, view, axis),
{
    let c = content.get(axis);
    let v = view.get(axis);
    if c > v {
        c - v
    } else {
        0
    }
}

fn clamp_exec(offset: u64, delta: i64, max: u64) -> (r: u64)
    ensures
        r == clamped(offset, delta, max),
{
    let t: i128 = offset as i128 + delta as i128;
    if t < 0 {
        0
    } else if t > max as i128 {
        max
    } else {
        t as u64
    }
}

impl Viewport {
    /// A viewport at offset zero.
    pub fn new(content: Extent, view: Extent) -> (r: Viewport)
        ensures
            r@ == (ViewportState { content, view, offset_x: 0, offset_y: 0 }),
            r@.wf(),
    {
        Viewport { content, view, offset_x: 0, offset_y: 0 }
    }

    /// The content was measured anew; an offset past the new range is pulled
    /// back to its end.
    pub fn set_content(&mut self, content: Extent)
        requires
            old(self)@.wf(),
        ensures
            final(self)@.content == content,
            final(self)@.view == old(self)@.view,
            final(self)@.offset_x == if old(self)@.offset_x <= final(self)@.max_offset(
                Axis::Horizontal,
            ) {
                old(self)@.offset_x
            } else {
                final(self)@.max_offset(Axis::Horizontal)
            },
            final(self)@.offset_y == if old(self)@.offset_y <= final(self)@.max_offset(
                Axis::Vertical,
            ) {
                old(self)@.offset_y
            } else {
                final(self)@.max_offset(Axis::Vertical)
            },
            final(self)@.wf(),
    {
        self.content = content;
        let mx = max_offset_exec(self.content, self.view, Axis::Horizontal);
        let my = max_offset_exec(self.content, self.view, Axis::Vertical);
        if self.offset_x > mx {
            self.offset_x = mx;
        }
        if self.offset_y > my {
            self.offset_y = my;
        }
    }

    /// Moves the offset along `axis` by `delta`, held to the valid range.
    pub fn scroll_by(&mut self, axis: Axis, delta: i64)
        requires
            old(self)@.wf(),
        ensures
            final(self)@ == old(self)@.scrolled(axis, delta),
            final(self)@.wf(),
    {
        let max = max_offset_exec(self.content, self.view, axis);
        match axis {
            Axis::Horizontal => {
                self.offset_x = clamp_exec(self.offset_x, delta, max);
            },
            Axis::Vertical => {
                self.offset_y = clamp_exec(self.offset_y, delta, max);
            },
        }
    }

    /// Moves the offset along `axis` to the far edge.
    pub fn scroll_to_extreme(&mut self, axis: Axis)
        requires
            old(self)@.wf(),
        ensures
            final(self)@ == old(self)@.to_extreme(axis),
            final(self)@.wf(),
    {
        let max = max_offset_exec(self.content, self.view, axis);
        match axis {
            Axis::Horizontal => {
                self.offset_x = max;
            },
            Axis::Vertical => {
                self.offset_y = max;
            },
        }
    }

    /// Carries out a snap: each axis that `action` names goes to its far edge.
    pub fn apply(&mut self, action: SnapAction)
        requires
            old(self)@.wf(),
        ensures
            final(self)@ == old(self)@.applied(action),
            final(self)@.wf(),
    {
        if action.horizontal {
            self.scroll_to_extreme(Axis::Horizontal);
        }
        if action.vertical {
            self.scroll_to_extreme(Axis::Vertical);
        }
    }

    pub fn offset(&self, axis: Axis) -> (r: u64)
        ensures
            r == self@.offset(axis),
    {
        match axis {
            Axis::Horizontal => self.offset_x,
            Axis::Vertical => self.offset_y,
        }
    }

    pub fn max_offset(&self, axis: Axis) -> (r: u64)
        ensures
            r == self@.max_offset(axis),
    {
        max_offset_exec(self.content, self.view, axis)
    }
}

/// Idempotence at the bound: scrolling to the far edge when the offset is
/// already there changes nothing, and doing it twice is doing it once.
pub proof fn lemma_extreme_idempotent(v: ViewportState, axis: Axis)
    ensures
        v.offset(axis) == v.max_offset(axis) ==> v.to_extreme(axis) == v,
        v.to_extreme(axis).to_extreme(axis) == v.to_extreme(axis),
{
}

} // verus!
