use vstd::prelude::*;

use crate::geometry::{Extent, SnapAction};

verus! {

/// What a [`ScrollSnap`] knows between phases.
pub struct SnapState {
    /// A horizontal snap policy is installed.
    pub horizontal: bool,
    /// A vertical snap policy is installed.
    pub vertical: bool,
    /// The content size of the last layout pass (zero before the first).
    pub extent: Extent,
    /// Growth was seen and the next update has not yet looked at it.
    pub pending: bool,
}

/// True iff `next` is strictly larger than `prev` along a tracked axis.
pub open spec fn grew(prev: Extent, next: Extent, horizontal: bool, vertical: bool) -> bool {
    (horizontal && next.width > prev.width) || (vertical && next.height > prev.height)
}

/// One phase of the host framework's cycle, as this decorator sees it.
#[derive(Clone, Copy, Debug, PartialEq, Eq, Structural)]
pub enum Phase {
    /// The content was measured at the given size.
    Layout(Extent),
    /// Data changed; the fields are what the horizontal and vertical policies
    /// say of the new data.
    Update(bool, bool),
}

impl SnapState {
    /// The state after a layout pass that measured `next`.
    pub open spec fn measured(self, next: Extent) -> SnapState {
        SnapState {
            pending: self.pending || grew(self.extent, next, self.horizontal, self.vertical),
            extent: next,
            ..self
        }
    }

    /// The scroll that an update issues when the policies answer
    /// `allow_horizontal` and `allow_vertical`.
    pub open spec fn action(self, allow_horizontal: bool, allow_vertical: bool) -> SnapAction {
        SnapAction {
            horizontal: self.pending && self.horizontal && allow_horizontal,
            vertical: self.pending && self.vertical && allow_vertical,
        }
    }

    /// The state after an update: the pending flag is consumed.
    pub open spec fn updated(self) -> SnapState {
        SnapState { pending: false, ..self }
    }

    pub open spec fn step(self, phase: Phase) -> SnapState {
        match phase {
            Phase::Layout(next) => self.measured(next),
            Phase::Update(_, _) => self.updated(),
        }
    }

    /// The scroll issued by `phase`.
    pub open spec fn emitted(self, phase: Phase) -> SnapAction {
        match phase {
            Phase::Layout(_) => SnapAction { horizontal: false, vertical: false },
            Phase::Update(h, v) => self.action(h, v),
        }
    }

    /// The state after the phases of `phases`, in order.
    pub open spec fn run(self, phases: Seq<Phase>) -> SnapState
        decreases phases.len(),
    {
        if phases.len() == 0 {
            self
        } else {
            self.run(phases.drop_last()).step(phases.last())
        }
    }
}

/// Decorator of a scroll view that snaps it to the far edge after its
/// content grew, where a policy allows it.
///
/// Growth is detected in [`ScrollSnap::layout`], which never scrolls; the
/// scroll is decided in the following [`ScrollSnap::update`].
pub struct ScrollSnap {
    snap_horizontal: bool,
    snap_vertical: bool,
    extent: Extent,
    snap: bool,
}

impl View for ScrollSnap {
    type V = SnapState;

    closed spec fn view(&self) -> SnapState {
        SnapState {
            horizontal: self.snap_horizontal,
            vertical: self.snap_vertical,
            extent: self.extent,
            pending: self.snap,
        }
    }
}

impl ScrollSnap {
    /// A decorator with no policy on either axis: it never snaps.
    pub fn new() -> (r: ScrollSnap)
        ensures
            r@ == (SnapState {
                horizontal: false,
                vertical: false,
                extent: Extent { width: 0, height: 0 },
                pending: false,
            }),
    {
        ScrollSnap {
            snap_horizontal: false,
            snap_vertical: false,
            extent: Extent::zero(),
            snap: false,
        }
    }

    /// Installs a horizontal policy; its answer is passed to each update.
    pub fn with_snap_horizontal(self) -> (r: ScrollSnap)
        ensures
            r@ == (SnapState { horizontal: true, ..self@ }),
    {
        ScrollSnap { snap_horizontal: true, ..self }
    }

    /// Installs a vertical policy; its answer is passed to each update.
    pub fn with_snap_vertical(self) -> (r: ScrollSnap)
        ensures
            r@ == (SnapState { vertical: true, ..self@ }),
    {
        ScrollSnap { snap_vertical: true, ..self }
    }

    /// Layout phase: records the content size that the wrapped view measured,
    /// notes growth along a tracked axis, and hands the size back unchanged.
    pub fn layout(&mut self, size: Extent) -> (r: Extent)
        ensures
            r == size,
            final(self)@ == old(self)@.measured(size),
    {
        let grown = (self.snap_horizontal && size.width > self.extent.width)
            || (self.snap_vertical && size.height > self.extent.height);
        self.snap = self.snap || grown;
        self.extent = size;
        size
    }

    /// Update phase: given what the horizontal and vertical policies say of
    /// the new data, returns the scroll to issue, and clears the pending flag
    /// whatever the answer.
    pub fn update(&mut self, allow_horizontal: bool, allow_vertical: bool) -> (r: SnapAction)
        ensures
            r == old(self)@.action(allow_horizontal, allow_vertical),
            final(self)@ == old(self)@.updated(),
    {
        let action = SnapAction {
            horizontal: self.snap && self.snap_horizontal && allow_horizontal,
            vertical: self.snap && self.snap_vertical && allow_vertical,
        };
        self.snap = false;
        action
    }

    /// Runs one phase: a layout pass records the size, an update decides the
    /// scroll. Only an update ever returns a scroll.
    pub fn handle(&mut self, phase: Phase) -> (r: SnapAction)
        ensures
            r == old(self)@.emitted(phase),
            final(self)@ == old(self)@.step(phase),
    {
        match phase {
            Phase::Layout(size) => {
                self.layout(size);
                SnapAction::none()
            },
            Phase::Update(allow_horizontal, allow_vertical) => self.update(
                allow_horizontal,
                allow_vertical,
            ),
        }
    }

    /// Whether growth waits for the next update.
    pub fn is_pending(&self) -> (r: bool)
        ensures
            r == self@.pending,
    {
        self.snap
    }

    /// The content size of the last layout pass.
    pub fn extent(&self) -> (r: Extent)
        ensures
            r == self@.extent,
    {
        self.extent
    }
}

} // verus!
