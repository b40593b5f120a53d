use vstd::prelude::*;

use crate::geometry::SnapAction;

verus! {

/// Decorator of a list that tells its scrolling ancestor when the list got
/// longer, by a signal without payload sent during the data update.
pub struct ListSnap;

impl ListSnap {
    pub fn new() -> (r: ListSnap) {
        ListSnap
    }

    /// Data update of the list, from `old_len` items to `new_len`: returns
    /// whether the list-extended signal is to be sent.
    pub fn update(&self, old_len: usize, new_len: usize) -> (extended: bool)
        ensures
            extended == (new_len > old_len),
    {
        new_len > old_len
    }
}

/// What the scroll view's controller does with one event.
#[derive(Clone, Copy, Debug, PartialEq, Eq, Structural)]
pub struct EventResponse {
    /// The scroll to issue.
    pub action: SnapAction,
    /// The event is consumed here and goes no further.
    pub handled: bool,
}

/// Controller of the scroll view above a [`ListSnap`]: on the list-extended
/// signal it scrolls to the bottom if the user asked for it.
///
/// The signal arrives while events are dispatched, where scrolling is safe, so
/// nothing is deferred.
pub struct ScrollSnap;

impl ScrollSnap {
    /// Handles one event, where `list_extended` says whether it is the
    /// list-extended signal and `snap_user_requested` is the current policy.
    pub fn event(&self, list_extended: bool, snap_user_requested: bool) -> (r: EventResponse)
        ensures
            r.handled == list_extended,
            r.action == (SnapAction {
                horizontal: false,
                vertical: list_extended && snap_user_requested,
            }),
    {
        EventResponse {
            action: SnapAction { horizontal: false, vertical: list_extended && snap_user_requested },
            handled: list_extended,
        }
    }
}

} // verus!
