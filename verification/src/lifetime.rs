//! The whole life of a broker: every order in which dictionaries can be
//! issued and come back, and in which the owner can let go.
//!
//! The steps of `Broker` each say what happens at one moment. The laws here
//! say what that adds up to: over any life, the broker's resource is released
//! at most once, as the last thing that is released at all, and it has been
//! released exactly when nobody needs it any more.
use vstd::prelude::*;
use crate::broker::{law_freed_is_final, BrokerState};
use crate::call::CallView;
use crate::dict::DictView;

verus! {

/// One thing that happens to a broker.
pub enum Event {
    /// The engine returned a dictionary, by address, and it was issued.
    Issued(usize),
    /// A dictionary came back.
    Returned(DictView),
    /// The owner let go of the broker.
    Released,
}

/// The broker after one event.
pub open spec fn step(broker: BrokerState, event: Event) -> BrokerState {
    match event {
        Event::Issued(addr) => broker.issue(addr),
        Event::Returned(dict) => broker.release_dict(dict),
        Event::Released => broker.release(),
    }
}

/// The calls that one event asks for.
pub open spec fn step_calls(broker: BrokerState, event: Event) -> Seq<CallView> {
    match event {
        Event::Issued(addr) => Seq::empty(),
        Event::Returned(dict) => broker.release_dict_calls(dict),
        Event::Released => broker.release_calls(),
    }
}

/// The broker after a run of events.
pub open spec fn run(broker: BrokerState, events: Seq<Event>) -> BrokerState
    decreases events.len(),
{
    if events.len() == 0 {
        broker
    } else {
        step(run(broker, events.drop_last()), events.last())
    }
}

/// All the calls that a run of events asks for, in order.
pub open spec fn run_calls(broker: BrokerState, events: Seq<Event>) -> Seq<CallView>
    decreases events.len(),
{
    if events.len() == 0 {
        Seq::empty()
    } else {
        run_calls(broker, events.drop_last()) + step_calls(
            run(broker, events.drop_last()),
            events.last(),
        )
    }
}

/// Whether a run of events can happen: a broker whose resource has been
/// released issues nothing.
pub open spec fn possible(broker: BrokerState, events: Seq<Event>) -> bool
    decreases events.len(),
{
    events.len() == 0 || (possible(broker, events.drop_last()) && (events.last() is Issued
        ==> !run(broker, events.drop_last()).is_freed()))
}

/// Whether a call releases a broker resource.
pub open spec fn frees_broker(call: CallView) -> bool {
    call is FreeBroker
}

/// Whether no call of a list releases a broker resource.
pub open spec fn spares_broker(calls: Seq<CallView>) -> bool {
    forall|i: int| 0 <= i < calls.len() ==> !frees_broker(#[trigger] calls[i])
}

/// Whether exactly one call of a list releases a broker resource, and that
/// call is the last of the list.
pub open spec fn frees_broker_last(calls: Seq<CallView>) -> bool {
    &&& calls.len() > 0
    &&& frees_broker(calls.last())
    &&& spares_broker(calls.drop_last())
}

/// One event on a broker that is still needed: the broker's resource is
/// released by it exactly if nobody needs the broker afterwards, and then as
/// the last call of the event.
pub proof fn law_step_frees_last(broker: BrokerState, event: Event)
    requires
        !broker.is_freed(),
    ensures
        step(broker, event).handle == broker.handle,
        !step(broker, event).is_freed() ==> spares_broker(step_calls(broker, event)),
        step(broker, event).is_freed() ==> frees_broker_last(step_calls(broker, event)),
{
}

/// Over any life of a broker that starts with the broker needed: as long as
/// somebody needs the broker, no call has released its resource; once nobody
/// does, exactly one call has, and nothing was released after it. So the
/// resource is released once, and every dictionary's resource before it.
pub proof fn law_broker_freed_once_and_last(broker: BrokerState, events: Seq<Event>)
    requires
        !broker.is_freed(),
        possible(broker, events),
    ensures
        run(broker, events).handle == broker.handle,
        !run(broker, events).is_freed() ==> spares_broker(run_calls(broker, events)),
        run(broker, events).is_freed() ==> frees_broker_last(run_calls(broker, events)),
    decreases events.len(),
{
    if events.len() > 0 {
        let before = events.drop_last();
        let event = events.last();
        law_broker_freed_once_and_last(broker, before);
        let mid = run(broker, before);
        if mid.is_freed() {
            // Nothing more is asked for, and nothing changes.
            if let Event::Returned(dict) = event {
                law_freed_is_final(mid, dict);
            }
        } else {
            // No call so far released the broker; this event decides.
            law_step_frees_last(mid, event);
        }
    }
}

} // verus!
