use autosnap::geometry::{Axis, Extent, SnapAction};
use autosnap::list_snap::{self, ListSnap};
use autosnap::scroll_snap::{Phase, ScrollSnap};
use autosnap::types::AppData;
use autosnap::viewport::Viewport;

const ITEM_HEIGHT: u64 = 40;
const WIDTH: u64 = 60;

fn list_extent(data: &AppData) -> Extent {
    Extent::new(WIDTH, data.indices.len() as u64 * ITEM_HEIGHT)
}

#[test]
fn scenario_toggle_policy_between_appends() {
    let mut data = AppData::new();
    let mut snap = ScrollSnap::new().with_snap_vertical();
    let mut vp = Viewport::new(list_extent(&data), Extent::new(WIDTH, 30));

    // First item: growth from zero, policy on.
    data.add_item(15);
    let size = snap.layout(list_extent(&data));
    vp.set_content(size);
    assert!(snap.is_pending());
    let action = snap.update(false, data.snap_user_requested);
    assert_eq!(action, SnapAction { horizontal: false, vertical: true });
    vp.apply(action);
    assert_eq!(vp.offset(Axis::Vertical), 10);
    assert_eq!(vp.offset(Axis::Vertical), vp.max_offset(Axis::Vertical));

    // Policy off: growth is seen but nothing scrolls.
    data.snap_user_requested = false;
    data.add_item(15);
    let size = snap.layout(list_extent(&data));
    vp.set_content(size);
    assert!(snap.is_pending());
    let action = snap.update(false, data.snap_user_requested);
    assert!(!action.any());
    vp.apply(action);
    assert_eq!(vp.offset(Axis::Vertical), 10);
    assert!(!snap.is_pending());

    // Policy back on: the third item scrolls to the new bottom.
    data.snap_user_requested = true;
    data.add_item(15);
    let size = snap.layout(list_extent(&data));
    vp.set_content(size);
    let action = snap.update(false, data.snap_user_requested);
    vp.apply(action);
    assert_eq!(vp.offset(Axis::Vertical), 90);
    assert_eq!(vp.max_offset(Axis::Vertical), 90);
}

#[test]
fn shrinking_or_unchanged_never_snaps() {
    let mut snap = ScrollSnap::new().with_snap_vertical().with_snap_horizontal();
    snap.layout(Extent::new(50, 100));
    snap.update(true, true);
    snap.layout(Extent::new(50, 100));
    assert!(!snap.update(true, true).any());
    snap.layout(Extent::new(40, 80));
    assert!(!snap.is_pending());
    assert!(!snap.update(true, true).any());
    assert_eq!(snap.extent(), Extent::new(40, 80));
}

#[test]
fn growth_on_untracked_axis_is_ignored() {
    let mut snap = ScrollSnap::new().with_snap_vertical();
    snap.layout(Extent::new(200, 0));
    assert!(!snap.is_pending());
    assert!(!snap.update(true, true).any());
}

#[test]
fn no_policy_never_snaps() {
    let mut snap = ScrollSnap::new();
    snap.layout(Extent::new(10, 10));
    assert!(!snap.is_pending());
    assert_eq!(snap.update(true, true), SnapAction::none());
}

#[test]
fn horizontal_growth_snaps_horizontally() {
    let mut snap = ScrollSnap::new().with_snap_horizontal();
    snap.layout(Extent::new(30, 0));
    assert_eq!(snap.update(true, true), SnapAction { horizontal: true, vertical: false });
}

#[test]
fn one_growth_event_scrolls_once() {
    let mut snap = ScrollSnap::new().with_snap_vertical();
    snap.layout(Extent::new(10, 10));
    assert!(snap.update(false, true).vertical);
    assert!(!snap.update(false, true).any());
}

#[test]
fn repeated_growth_before_update_collapses() {
    let mut snap = ScrollSnap::new().with_snap_vertical();
    snap.layout(Extent::new(10, 10));
    snap.layout(Extent::new(10, 20));
    snap.layout(Extent::new(10, 5));
    assert!(snap.is_pending());
    assert!(snap.update(false, true).vertical);
    assert!(!snap.update(false, true).any());
}

#[test]
fn suppressed_growth_is_not_retried() {
    let mut snap = ScrollSnap::new().with_snap_vertical();
    snap.layout(Extent::new(10, 10));
    assert!(!snap.update(true, false).any());
    assert!(!snap.is_pending());
    snap.layout(Extent::new(10, 10));
    assert!(!snap.update(true, true).any());
}

#[test]
fn layout_returns_size_and_does_not_scroll() {
    let mut snap = ScrollSnap::new().with_snap_vertical();
    let vp = Viewport::new(Extent::new(10, 100), Extent::new(10, 30));
    let size = snap.layout(Extent::new(10, 100));
    assert_eq!(size, Extent::new(10, 100));
    assert_eq!(vp.offset(Axis::Vertical), 0);
    assert!(snap.is_pending());
}

#[test]
fn scroll_to_extreme_is_idempotent() {
    let mut vp = Viewport::new(Extent::new(100, 300), Extent::new(40, 100));
    vp.scroll_to_extreme(Axis::Vertical);
    assert_eq!(vp.offset(Axis::Vertical), 200);
    vp.scroll_to_extreme(Axis::Vertical);
    assert_eq!(vp.offset(Axis::Vertical), 200);
    assert_eq!(vp.offset(Axis::Horizontal), 0);
    vp.scroll_to_extreme(Axis::Horizontal);
    assert_eq!(vp.offset(Axis::Horizontal), 60);
}

#[test]
fn scroll_by_clamps_to_range() {
    let mut vp = Viewport::new(Extent::new(100, 300), Extent::new(40, 100));
    vp.scroll_by(Axis::Vertical, 50);
    assert_eq!(vp.offset(Axis::Vertical), 50);
    vp.scroll_by(Axis::Vertical, -80);
    assert_eq!(vp.offset(Axis::Vertical), 0);
    vp.scroll_by(Axis::Vertical, i64::MAX);
    assert_eq!(vp.offset(Axis::Vertical), 200);
    vp.scroll_by(Axis::Horizontal, 7);
    assert_eq!(vp.offset(Axis::Horizontal), 7);
}

#[test]
fn content_that_fits_has_no_range() {
    let mut vp = Viewport::new(Extent::new(10, 20), Extent::new(40, 100));
    vp.scroll_to_extreme(Axis::Vertical);
    assert_eq!(vp.offset(Axis::Vertical), 0);
    assert_eq!(vp.max_offset(Axis::Horizontal), 0);
}

#[test]
fn shrinking_content_pulls_offset_back() {
    let mut vp = Viewport::new(Extent::new(40, 300), Extent::new(40, 100));
    vp.scroll_to_extreme(Axis::Vertical);
    vp.set_content(Extent::new(40, 150));
    assert_eq!(vp.offset(Axis::Vertical), 50);
    vp.set_content(Extent::new(40, 400));
    assert_eq!(vp.offset(Axis::Vertical), 50);
}

#[test]
fn extent_along_axis() {
    let e = Extent::new(3, 4);
    assert_eq!(e.get(Axis::Horizontal), 3);
    assert_eq!(e.get(Axis::Vertical), 4);
    assert_eq!(Extent::zero(), Extent::new(0, 0));
}

#[test]
fn list_signals_only_growth() {
    let list = ListSnap::new();
    assert!(list.update(2, 3));
    assert!(!list.update(3, 3));
    assert!(!list.update(3, 0));
}

#[test]
fn controller_scrolls_on_signal_when_requested() {
    let ctl = list_snap::ScrollSnap;
    let r = ctl.event(true, true);
    assert!(r.handled);
    assert_eq!(r.action, SnapAction { horizontal: false, vertical: true });
    let r = ctl.event(true, false);
    assert!(r.handled);
    assert!(!r.action.any());
    let r = ctl.event(false, true);
    assert!(!r.handled);
    assert!(!r.action.any());
}

#[test]
fn app_data_starts_empty_and_following() {
    let d = AppData::new();
    assert!(d.indices.is_empty());
    assert_eq!(d.next_index, 0);
    assert!(d.snap_user_requested);
}

#[test]
fn add_item_wraps_after_last_word() {
    let mut d = AppData::new();
    d.add_item(3);
    d.add_item(3);
    assert_eq!(d.next_index, 2);
    d.add_item(3);
    assert_eq!(d.next_index, 0);
    d.add_item(3);
    assert_eq!(d.indices, vec![0, 1, 2, 0]);
    d.clear();
    assert!(d.indices.is_empty());
    assert_eq!(d.next_index, 0);
    assert!(d.snap_user_requested);
}

#[test]
fn phases_in_sequence_snap_after_each_growth() {
    let mut snap = ScrollSnap::new().with_snap_vertical();
    let phases = [
        Phase::Layout(Extent::new(10, 0)),
        Phase::Update(true, true),
        Phase::Layout(Extent::new(10, 40)),
        Phase::Update(true, true),
        Phase::Update(true, true),
        Phase::Layout(Extent::new(10, 20)),
        Phase::Update(true, true),
        Phase::Layout(Extent::new(10, 60)),
        Phase::Update(true, false),
        Phase::Layout(Extent::new(10, 80)),
        Phase::Update(false, true),
    ];
    let scrolled: Vec<bool> = phases.iter().map(|p| snap.handle(*p).vertical).collect();
    assert_eq!(
        scrolled,
        vec![false, false, false, true, false, false, false, false, false, false, true]
    );
}
