//! Events of the input-method session, as the library models them.
//!
//! The transport delivers each inbound protocol message as one value of
//! [`ImEvent`]; message kinds that this library does not recognize arrive as
//! [`ImEvent::Unknown`] and are silently ignored (forward compatibility).

use vstd::prelude::*;

verus! {

/// Why the surrounding text changed, as reported by the server.
#[derive(Debug, Clone, Copy, PartialEq, Eq, Structural)]
pub enum ChangeCause {
    /// The change was caused by the input method itself.
    InputMethod,
    /// The change has some other cause.
    Other,
}

/// One inbound event of the input-method session.
#[derive(Debug, Clone, PartialEq, Eq)]
pub enum ImEvent {
    /// The session was activated (for example, a text field was focused).
    Activate,
    /// The session was deactivated.
    Deactivate,
    /// A snapshot of the text around the cursor, with the cursor and anchor
    /// offsets into it.
    SurroundingText { text: String, cursor: u32, anchor: u32 },
    /// Why the surrounding text last changed.
    TextChangeCause { cause: ChangeCause },
    /// The content hint and purpose of the focused field, as opaque protocol
    /// codes passed through unchanged.
    ContentType { hint: u32, purpose: u32 },
    /// End of one atomically-delivered batch of events.
    Done,
    /// The server revoked the input-method capability.
    Unavailable,
    /// An event kind this library does not recognize.
    Unknown,
}

/// The connector callback that one event triggers.
#[derive(Debug, Clone, Copy, PartialEq, Eq, Structural)]
pub enum Callback {
    Activated,
    Deactivated,
    SurroundingText,
    TextChangeCause,
    ContentType,
    Done,
    Unavailable,
}

/// The callback that dispatching one event invokes: exactly one for each
/// recognized event kind, and none for an unknown kind.
pub open spec fn delivery_of(ev: ImEvent) -> Option<Callback> {
    match ev {
        ImEvent::Activate => Some(Callback::Activated),
        ImEvent::Deactivate => Some(Callback::Deactivated),
        ImEvent::SurroundingText { .. } => Some(Callback::SurroundingText),
        ImEvent::TextChangeCause { .. } => Some(Callback::TextChangeCause),
        ImEvent::ContentType { .. } => Some(Callback::ContentType),
        ImEvent::Done => Some(Callback::Done),
        ImEvent::Unavailable => Some(Callback::Unavailable),
        ImEvent::Unknown => None,
    }
}

/// The callbacks that dispatching a sequence of events invokes, in the
/// events' own order, with unknown kinds contributing nothing.
pub open spec fn deliveries_of(events: Seq<ImEvent>) -> Seq<Callback>
    decreases events.len(),
{
    if events.len() == 0 {
        Seq::empty()
    } else {
        let rest = deliveries_of(events.drop_last());
        match delivery_of(events.last()) {
            Some(c) => rest.push(c),
            None => rest,
        }
    }
}

} // verus!
