//! What holds of the events of any run.
use vstd::prelude::*;

verus! {

/// What happened before the last event has happened, and so has the last event.
pub(crate) proof fn lemma_events_stay<E>(events: Seq<E>)
    requires
        events.len() > 0,
    ensures
        forall|e: E|
            #![trigger events.contains(e)]
            #![trigger events.drop_last().contains(e)]
            events.drop_last().contains(e) ==> events.contains(e),
        events.contains(events.last()),
{
    let before = events.drop_last();
    assert forall|e: E| before.contains(e) implies #[trigger] events.contains(e) by {
        let i = choose|i: int| 0 <= i < before.len() && before[i] == e;
        assert(events[i] == e);
    }
    assert(events[events.len() - 1] == events.last());
}

} // verus!
