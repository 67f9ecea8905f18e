//! Note activity: the count of currently-held notes, driven by one
//! ordered batch of performance events per processing cycle.

use vstd::prelude::*;

use crate::events::{is_note_off, is_note_on, PerformanceEvent};

verus! {

/// The held-note count after one more event: a note-on raises it, a
/// note-off lowers it but never below zero, and any other event
/// leaves it alone.
pub open spec fn next_count(c: nat, e: PerformanceEvent) -> nat {
    if is_note_on(e) {
        c + 1
    } else if is_note_off(e) {
        if c > 0 {
            (c - 1) as nat
        } else {
            0
        }
    } else {
        c
    }
}

/// The held-note count after a whole batch, applied in delivery order.
pub open spec fn count_after(c: nat, evs: Seq<PerformanceEvent>) -> nat
    decreases evs.len(),
{
    if evs.len() == 0 {
        c
    } else {
        next_count(count_after(c, evs.drop_last()), evs.last())
    }
}

/// How many events of a batch are note-ons.
pub open spec fn note_ons(evs: Seq<PerformanceEvent>) -> nat
    decreases evs.len(),
{
    if evs.len() == 0 {
        0
    } else {
        note_ons(evs.drop_last()) + if is_note_on(evs.last()) {
            1nat
        } else {
            0nat
        }
    }
}

/// How many events of a batch are note-offs.
pub open spec fn note_offs(evs: Seq<PerformanceEvent>) -> nat
    decreases evs.len(),
{
    if evs.len() == 0 {
        0
    } else {
        note_offs(evs.drop_last()) + if is_note_off(evs.last()) {
            1nat
        } else {
            0nat
        }
    }
}

/// A batch never raises the count by more than its own length.
pub proof fn lemma_count_after_upper(c: nat, evs: Seq<PerformanceEvent>)
    ensures
        count_after(c, evs) <= c + evs.len(),
    decreases evs.len(),
{
    if evs.len() > 0 {
        lemma_count_after_upper(c, evs.drop_last());
    }
}

/// Law: whatever the batch, the held-note count never underflows:
/// starting from any count it stays a non-negative integer.
pub proof fn lemma_count_never_negative(c: nat, evs: Seq<PerformanceEvent>)
    ensures
        count_after(c, evs) >= 0,
{
}

/// Whether every prefix of a batch holds at least as many note-ons as
/// note-offs, so that the zero clamp of a note-off never engages when
/// the batch is applied to a count of zero.
pub open spec fn prefix_balanced(evs: Seq<PerformanceEvent>) -> bool {
    forall|i: int|
        0 <= i <= evs.len() ==> #[trigger] note_offs(evs.take(i)) <= note_ons(evs.take(i))
}

/// Law: on a batch whose every prefix has at least as many note-ons
/// as note-offs, the count starting from zero is exactly the number
/// of note-ons minus the number of note-offs — which, being
/// non-negative, is its own clamp at zero. (On other batches the
/// clamp engages mid-way and the count exceeds that difference.)
pub proof fn lemma_count_is_balance(evs: Seq<PerformanceEvent>)
    requires
        prefix_balanced(evs),
    ensures
        count_after(0, evs) == note_ons(evs) - note_offs(evs),
    decreases evs.len(),
{
    if evs.len() == 0 {
    } else {
        let pre = evs.drop_last();
        assert forall|i: int| 0 <= i <= pre.len() implies #[trigger] note_offs(pre.take(i))
            <= note_ons(pre.take(i)) by {
            assert(pre.take(i) =~= evs.take(i));
        }
        lemma_count_is_balance(pre);
        assert(evs.take(evs.len() as int) =~= evs);
        assert(note_offs(evs) <= note_ons(evs));
    }
}

} // verus!
