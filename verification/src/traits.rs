//! The connector capability an application supplies to observe the
//! input-method session.

use vstd::prelude::*;

verus! {

use crate::events::ChangeCause;

/// Gets notified of the input-method session's events.
///
/// If the user clicks for example on a text field, the method `activated()`
/// is called.  The application supplies an implementation; when it supplies
/// none, [`DummyConnector`] stands in so the dispatcher always has a valid
/// target.
pub trait IMConnector {
    /// The session was activated.
    fn activated(&self);

    /// The session was deactivated.
    fn deactivated(&self);

    /// A snapshot of the text around the cursor was reported, with the
    /// cursor and anchor offsets into it.
    fn surrounding_text(&self, text: String, cursor: usize, anchor: usize);

    /// The cause of the last surrounding-text change was reported.
    fn text_change_cause(&self, change_cause: ChangeCause);

    /// The content hint and purpose of the focused field were reported, as
    /// opaque protocol codes.
    fn content_type(&self, content_hint: u32, content_purpose: u32);

    /// One atomically-delivered batch of events ended.
    fn done(&self);

    /// The server revoked the input-method capability.
    fn unavailable(&self);
}

/// A no-op connector, used when the application supplies none.
#[derive(Debug, Clone, Copy)]
pub struct DummyConnector {}

impl Default for DummyConnector {
    /// Returns the no-op connector.
    fn default() -> (d: Self) {
        DummyConnector {  }
    }
}

impl IMConnector for DummyConnector {
    fn activated(&self) {
    }

    fn deactivated(&self) {
    }

    fn surrounding_text(&self, _text: String, _cursor: usize, _anchor: usize) {
    }

    fn text_change_cause(&self, _change_cause: ChangeCause) {
    }

    fn content_type(&self, _content_hint: u32, _content_purpose: u32) {
    }

    fn done(&self) {
    }

    fn unavailable(&self) {
    }
}

/// A cache of the last server-reported state of the input method, as the
/// connector callbacks deliver it.  The library does not reconcile it with
/// local edits; keeping it current is the application's concern.
#[derive(Debug, Clone)]
pub struct SurroundingTextState {
    /// The last reported text around the cursor.
    pub surrounding_text: String,
    /// The cursor offset into `surrounding_text`.
    pub cursor: usize,
    /// The anchor offset into `surrounding_text`.
    pub anchor: usize,
    /// The last reported content hint, an opaque protocol code.
    pub content_hint: u32,
    /// The last reported content purpose, an opaque protocol code.
    pub content_purpose: u32,
    /// Why the surrounding text last changed.
    pub text_change_cause: ChangeCause,
    /// Whether the session is currently active.
    pub active: bool,
}

impl Default for SurroundingTextState {
    /// Returns the state before any server report: empty text, zero
    /// offsets, neutral codes, a change attributed to the input method,
    /// and an inactive session.
    fn default() -> (s: Self)
        ensures
            s.surrounding_text@ == Seq::<char>::empty(),
            s.cursor == 0,
            s.anchor == 0,
            s.content_hint == 0,
            s.content_purpose == 0,
            s.text_change_cause == ChangeCause::InputMethod,
            !s.active,
    {
        SurroundingTextState {
            surrounding_text: String::new(),
            cursor: 0,
            anchor: 0,
            content_hint: 0,
            content_purpose: 0,
            text_change_cause: ChangeCause::InputMethod,
            active: false,
        }
    }
}

} // verus!
