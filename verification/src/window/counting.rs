//! Counting events in recorded event streams.

use vstd::prelude::*;

use super::WindowEvent;

verus! {

/// How many times `event` occurs in `events`.
pub open spec fn occurrences(events: Seq<WindowEvent>, event: WindowEvent) -> nat
    decreases events.len(),
{
    if events.len() == 0 {
        0
    } else {
        occurrences(events.drop_last(), event) + if events.last() == event {
            1nat
        } else {
            0nat
        }
    }
}

/// Occurrences add up over concatenation.
pub proof fn lemma_occurrences_concat(a: Seq<WindowEvent>, b: Seq<WindowEvent>, event: WindowEvent)
    ensures
        occurrences(a + b, event) == occurrences(a, event) + occurrences(b, event),
    decreases b.len(),
{
    if b.len() == 0 {
        assert(a + b == a);
    } else {
        lemma_occurrences_concat(a, b.drop_last(), event);
        assert((a + b).drop_last() == a + b.drop_last());
    }
}

/// A one-event sequence counts that event once.
pub proof fn lemma_occurrences_single(item: WindowEvent, event: WindowEvent)
    ensures
        occurrences(seq![item], event) == if item == event {
            1nat
        } else {
            0nat
        },
{
    assert(seq![item].drop_last() == Seq::<WindowEvent>::empty());
    assert(occurrences(Seq::<WindowEvent>::empty(), event) == 0);
}

} // verus!
