use vstd::prelude::*;

verus! {

/// The decision of the event filter installed before the event queue: an
/// event whose type code is among the `known` codes, or within the range
/// of user event codes, is kept (1); any other is dropped (0). This keeps
/// type codes that the event bindings cannot represent out of the queue.
pub fn drop_unknown_events(known: &[u32], first_user_event: u32, last_user_event: u32, event_type: u32) -> (keep: i32)
    ensures
        keep == (if known@.contains(event_type) || (first_user_event <= event_type
            <= last_user_event) {
            1i32
        } else {
            0i32
        }),
{
    let mut i: usize = 0;
    while i < known.len()
        invariant
            i <= known@.len(),
            forall|j: int| 0 <= j < i ==> known@[j] != event_type,
        decreases known@.len() - i,
    {
        if known[i] == event_type {
            return 1;
        }
        i = i + 1;
    }
    if first_user_event <= event_type && event_type <= last_user_event {
        1
    } else {
        0
    }
}

} // verus!
