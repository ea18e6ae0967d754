//! Demultiplexing of inbound session events to connector callbacks.
//!
//! The dispatcher is invoked once per inbound protocol message, on whatever
//! thread drives the transport's event loop.  It performs no buffering and
//! no reordering: events reach the connector in exactly the order they were
//! received, each recognized event triggering its one callback and unknown
//! kinds triggering none.

use vstd::prelude::*;

verus! {

use crate::events::{delivery_of, deliveries_of, Callback, ImEvent};
use crate::traits::IMConnector;

/// Delivers one event to the connector: invokes the one callback the event
/// kind maps to, or none when the kind is unknown, and reports which.
pub fn dispatch_event<C: IMConnector>(connector: &C, event: &ImEvent) -> (r: Option<Callback>)
    ensures
        r == delivery_of(*event),
{
    match event {
        ImEvent::Activate => {
            connector.activated();
            Some(Callback::Activated)
        },
        ImEvent::Deactivate => {
            connector.deactivated();
            Some(Callback::Deactivated)
        },
        ImEvent::SurroundingText { text, cursor, anchor } => {
            connector.surrounding_text(text.clone(), *cursor as usize, *anchor as usize);
            Some(Callback::SurroundingText)
        },
        ImEvent::TextChangeCause { cause } => {
            connector.text_change_cause(*cause);
            Some(Callback::TextChangeCause)
        },
        ImEvent::ContentType { hint, purpose } => {
            connector.content_type(*hint, *purpose);
            Some(Callback::ContentType)
        },
        ImEvent::Done => {
            connector.done();
            Some(Callback::Done)
        },
        ImEvent::Unavailable => {
            connector.unavailable();
            Some(Callback::Unavailable)
        },
        ImEvent::Unknown => None,
    }
}

/// Delivers a batch of events to the connector in the batch's own order and
/// reports the callbacks invoked: one per recognized event, in that same
/// order, with unknown kinds skipped.
pub fn dispatch_all<C: IMConnector>(connector: &C, events: &Vec<ImEvent>) -> (r: Vec<Callback>)
    ensures
        r@ == deliveries_of(events@),
{
    let mut delivered: Vec<Callback> = Vec::new();
    let mut i: usize = 0;
    while i < events.len()
        invariant
            i <= events.len(),
            delivered@ == deliveries_of(events@.subrange(0, i as int)),
        decreases events.len() - i,
    {
        proof {
            assert(events@.subrange(0, (i + 1) as int).drop_last() =~= events@.subrange(
                0,
                i as int,
            ));
            assert(events@.subrange(0, (i + 1) as int).last() == events@[i as int]);
        }
        if let Some(c) = dispatch_event(connector, &events[i]) {
            delivered.push(c);
        }
        i = i + 1;
    }
    proof {
        assert(events@.subrange(0, events@.len() as int) =~= events@);
    }
    delivered
}

} // verus!
