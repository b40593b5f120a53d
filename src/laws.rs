use vstd::prelude::*;

use crate::geometry::Extent;
use crate::scroll_snap::{grew, Phase, SnapState};

verus! {

/// A layout phase that measured growth over `st`'s last size, along an axis
/// with a policy.
pub open spec fn growing_layout(st: SnapState, phase: Phase) -> bool {
    match phase {
        Phase::Layout(next) => grew(st.extent, next, st.horizontal, st.vertical),
        Phase::Update(_, _) => false,
    }
}

/// Between positions `j` and `k` of `phases` (both excluded) there is no update.
pub open spec fn no_update_between(phases: Seq<Phase>, j: int, k: int) -> bool {
    forall|m: int| j < m < k ==> (#[trigger] phases[m]) is Layout
}

/// No phase changes which policies a decorator has.
pub proof fn lemma_run_keeps_policies(s: SnapState, phases: Seq<Phase>)
    ensures
        s.run(phases).horizontal == s.horizontal,
        s.run(phases).vertical == s.vertical,
    decreases phases.len(),
{
    if phases.len() > 0 {
        lemma_run_keeps_policies(s, phases.drop_last());
    }
}

proof fn lemma_run_prefix_step(s: SnapState, phases: Seq<Phase>, k: int)
    requires
        0 < k <= phases.len(),
    ensures
        s.run(phases.take(k)) == s.run(phases.take(k - 1)).step(phases[k - 1]),
{
    assert(phases.take(k).drop_last() =~= phases.take(k - 1));
}

proof fn lemma_pending_has_cause(s: SnapState, phases: Seq<Phase>, k: int)
    requires
        !s.pending,
        0 <= k <= phases.len(),
    ensures
        s.run(phases.take(k)).pending ==> exists|j: int|
            0 <= j < k && growing_layout(s.run(phases.take(j)), #[trigger] phases[j])
                && no_update_between(phases, j, k),
    decreases k,
{
    if k == 0 {
        assert(phases.take(0) =~= Seq::<Phase>::empty());
    } else {
        lemma_pending_has_cause(s, phases, k - 1);
        lemma_run_prefix_step(s, phases, k);
        let prev = s.run(phases.take(k - 1));
        match phases[k - 1] {
            Phase::Layout(next) => {
                if grew(prev.extent, next, prev.horizontal, prev.vertical) {
                    assert(growing_layout(s.run(phases.take(k - 1)), phases[k - 1]));
                    assert(no_update_between(phases, k - 1, k));
                } else if prev.pending {
                    let j = choose|j: int|
                        0 <= j < k - 1 && growing_layout(s.run(phases.take(j)), #[trigger] phases[j])
                            && no_update_between(phases, j, k - 1);
                    assert(no_update_between(phases, j, k));
                }
            },
            Phase::Update(_, _) => {},
        }
    }
}

/// Growth-only trigger: starting from a decorator with nothing pending, in any
/// sequence of phases, an update that scrolls comes after a layout pass that
/// measured strict growth along an axis with a policy, with no update in
/// between.
pub proof fn lemma_snap_only_after_growth(s: SnapState, phases: Seq<Phase>, i: int)
    requires
        !s.pending,
        0 <= i < phases.len(),
        !s.run(phases.take(i)).emitted(phases[i]).is_none(),
    ensures
        exists|j: int|
            0 <= j < i && (#[trigger] phases[j] matches Phase::Layout(next) && grew(
                s.run(phases.take(j)).extent,
                next,
                s.horizontal,
                s.vertical,
            )) && no_update_between(phases, j, i),
{
    lemma_pending_has_cause(s, phases, i);
    let j = choose|j: int|
        0 <= j < i && growing_layout(s.run(phases.take(j)), #[trigger] phases[j])
            && no_update_between(phases, j, i);
    lemma_run_keeps_policies(s, phases.take(j));
}

/// A layout pass that measured no larger size than the last one, on either
/// axis, leaves nothing for the next update to scroll when nothing was pending.
pub proof fn lemma_no_growth_no_snap(
    s: SnapState,
    next: Extent,
    allow_horizontal: bool,
    allow_vertical: bool,
)
    requires
        !s.pending,
        next.width <= s.extent.width,
        next.height <= s.extent.height,
    ensures
        s.measured(next).action(allow_horizontal, allow_vertical).is_none(),
{
}

/// At most once per growth event: after an update the flag is clear, and a
/// further update scrolls nothing until a layout pass finds new growth;
/// growth measured twice before the update leaves one pending snap, not two.
pub proof fn lemma_at_most_once(
    s: SnapState,
    first: Extent,
    second: Extent,
    allow_horizontal: bool,
    allow_vertical: bool,
)
    ensures
        !s.updated().pending,
        s.updated().action(allow_horizontal, allow_vertical).is_none(),
        s.measured(first).measured(second).pending == (s.measured(first).pending || grew(
            first,
            second,
            s.horizontal,
            s.vertical,
        )),
        s.measured(first).measured(second).updated().action(
            allow_horizontal,
            allow_vertical,
        ).is_none(),
{
}

/// Policy gating: where an axis's policy answers false, the update does not
/// scroll along it, and the pending flag is cleared all the same.
pub proof fn lemma_policy_gating(s: SnapState, allow_horizontal: bool, allow_vertical: bool)
    ensures
        !allow_horizontal ==> !s.action(allow_horizontal, allow_vertical).horizontal,
        !allow_vertical ==> !s.action(allow_horizontal, allow_vertical).vertical,
        !s.updated().pending,
{
}

/// Phase safety: a layout pass never issues a scroll, whatever it measures.
pub proof fn lemma_layout_never_scrolls(s: SnapState, next: Extent)
    ensures
        s.emitted(Phase::Layout(next)).is_none(),
{
}

} // verus!
