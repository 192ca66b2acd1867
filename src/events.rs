use vstd::prelude::*;

verus! {

/// The native identifier of an event kind.
pub type EventId = u32;

/// The highest event identifier of the client API.
pub const LAST_EVENT_ID: EventId = 25;

/// The deprecated event kinds: tracks changed, track switched, pause,
/// unpause, script input dispatch, metadata update and chapter change.
pub open spec fn deprecated_ids() -> Seq<EventId> {
    seq![9, 10, 12, 13, 15, 19, 23]
}

/// The event kinds that enabling all events turns on: every identifier from 1
/// to 25 but 9, 10, 12, 13, 15 and 19.
pub open spec fn enabled_ids() -> Seq<EventId> {
    seq![1, 2, 3, 4, 5, 6, 7, 8, 11, 14, 16, 17, 18, 20, 21, 22, 23, 24, 25]
}

/// The deprecated event kinds, in the order in which they are turned off.
pub fn deprecated_event_ids() -> (r: Vec<EventId>)
    ensures
        r@ == deprecated_ids(),
{
    let r: Vec<EventId> = vec![9, 10, 12, 13, 15, 19, 23];
    assert(r@ =~= deprecated_ids());
    r
}

/// The event kinds that enabling all events turns on, in order.
pub fn enabled_event_ids() -> (r: Vec<EventId>)
    ensures
        r@ == enabled_ids(),
{
    let r: Vec<EventId> = vec![1, 2, 3, 4, 5, 6, 7, 8, 11, 14, 16, 17, 18, 20, 21, 22, 23, 24, 25];
    assert(r@ =~= enabled_ids());
    r
}

/// Every event identifier, from 1 to `LAST_EVENT_ID`, in order.
pub fn all_event_ids() -> (r: Vec<EventId>)
    ensures
        r@.len() == LAST_EVENT_ID,
        forall|i: int| 0 <= i < r@.len() ==> r@[i] == i + 1,
{
    let mut r: Vec<EventId> = Vec::new();
    let mut id: EventId = 1;
    while id <= LAST_EVENT_ID
        invariant
            1 <= id <= LAST_EVENT_ID + 1,
            r@.len() == id - 1,
            forall|i: int| 0 <= i < r@.len() ==> r@[i] == i + 1,
        decreases LAST_EVENT_ID + 1 - id,
    {
        r.push(id);
        id += 1;
    }
    r
}

} // verus!
