//! The input-method session: liveness-gated edit requests finalized by
//! serial-carrying commits.
//!
//! The session owns the commit serial and decides, from its own state and
//! from the liveness of the remote object, whether a request may go out and
//! which protocol request that is.  Liveness can change asynchronously, so
//! it is queried at every call and never cached; the transport reports it
//! and executes the returned request values.

use vstd::prelude::*;

verus! {

use crate::serial::{wrap_inc, CommitSerialTracker};
use crate::SubmitError;

/// The largest text payload, in bytes, that a single request may carry:
/// protocol messages have a bounded length.
pub const MAX_SUBMIT_BYTES: usize = 4000;

/// Whether a text fits into a single request.
pub open spec fn submit_text_fits(text: Seq<char>) -> bool {
    vstd::utf8::encode_utf8(text).len() <= MAX_SUBMIT_BYTES
}

/// One outbound request of the input-method session, for the transport to
/// execute on the remote object.
#[derive(Debug, Clone, PartialEq, Eq)]
pub enum ImRequest {
    /// Stage the insertion of `text` at the cursor.
    CommitString { text: String },
    /// Stage the deletion of `before` characters left and `after` characters
    /// right of the cursor, in the server's surrounding-text model.
    DeleteSurroundingText { before: u32, after: u32 },
    /// Finalize all staged requests as one atomic batch, acknowledged by the
    /// server under `serial`.
    Commit { serial: u32 },
    /// Tear the remote object down.
    Destroy,
}

/// Manages the pending state of one input-method session: the serial for
/// atomic commits and whether the session was explicitly torn down.
#[derive(Debug)]
pub struct IMServiceArc {
    serial: CommitSerialTracker,
    destroyed: bool,
}

impl IMServiceArc {
    /// The serial that the next successful commit will carry.
    pub closed spec fn current_serial(&self) -> u32 {
        self.serial.current()
    }

    /// Whether the session was explicitly torn down.
    pub closed spec fn is_destroyed(&self) -> bool {
        self.destroyed
    }

    /// Whether a request may go out now: the remote object reports alive
    /// and the session was not torn down.
    pub open spec fn accepts(self, alive: bool) -> bool {
        alive && !self.is_destroyed()
    }

    /// Returns the serial that the next successful commit will carry.
    pub fn serial(&self) -> (s: u32)
        ensures
            s == self.current_serial(),
    {
        self.serial.value()
    }

    /// Creates the session state for a freshly bound remote object: the
    /// first commit will carry serial 0.
    pub fn new() -> (s: Self)
        ensures
            s.current_serial() == 0,
            !s.is_destroyed(),
    {
        IMServiceArc { serial: CommitSerialTracker::new(), destroyed: false }
    }

    /// Stages the insertion of `text`.  Returns the request to execute, or
    /// `NotAlive` (and no request) when the remote object is gone.
    pub fn commit_string(&self, alive: bool, text: String) -> (r: Result<ImRequest, SubmitError>)
        requires
            submit_text_fits(text@),
        ensures
            r == if self.accepts(alive) {
                Ok::<ImRequest, SubmitError>(ImRequest::CommitString { text })
            } else {
                Err::<ImRequest, SubmitError>(SubmitError::NotAlive)
            },
    {
        if alive && !self.destroyed {
            Ok(ImRequest::CommitString { text })
        } else {
            Err(SubmitError::NotAlive)
        }
    }

    /// Stages the deletion of `before` characters left and `after`
    /// characters right of the cursor.  Returns the request to execute, or
    /// `NotAlive` (and no request) when the remote object is gone.
    pub fn delete_surrounding_text(&self, alive: bool, before: usize, after: usize) -> (r: Result<
        ImRequest,
        SubmitError,
    >)
        requires
            before <= u32::MAX,
            after <= u32::MAX,
        ensures
            r == if self.accepts(alive) {
                Ok::<ImRequest, SubmitError>(
                    ImRequest::DeleteSurroundingText {
                        before: before as u32,
                        after: after as u32,
                    },
                )
            } else {
                Err::<ImRequest, SubmitError>(SubmitError::NotAlive)
            },
    {
        if alive && !self.destroyed {
            Ok(ImRequest::DeleteSurroundingText { before: before as u32, after: after as u32 })
        } else {
            Err(SubmitError::NotAlive)
        }
    }

    /// Finalizes all staged requests as one atomic batch.  On success the
    /// returned commit carries the current serial and the counter advances
    /// by exactly one (modulo 2^32); on failure the serial is unchanged.
    pub fn commit(&mut self, alive: bool) -> (r: Result<ImRequest, SubmitError>)
        ensures
            old(self).accepts(alive) ==> {
                &&& r == Ok::<ImRequest, SubmitError>(
                    ImRequest::Commit { serial: old(self).current_serial() },
                )
                &&& final(self).current_serial() == wrap_inc(old(self).current_serial())
                &&& final(self).is_destroyed() == old(self).is_destroyed()
            },
            !old(self).accepts(alive) ==> {
                &&& r == Err::<ImRequest, SubmitError>(SubmitError::NotAlive)
                &&& final(self).current_serial() == old(self).current_serial()
                &&& *final(self) == *old(self)
            },
    {
        if alive && !self.destroyed {
            let serial = self.serial.next();
            Ok(ImRequest::Commit { serial })
        } else {
            Err(SubmitError::NotAlive)
        }
    }

    /// Best-effort teardown: always emits the destroy request, regardless
    /// of prior state, and marks the session destroyed.  Errors are not
    /// surfaced (fire and forget); the serial is left untouched.
    pub fn make_unavailable(&mut self) -> (r: ImRequest)
        ensures
            r == ImRequest::Destroy,
            final(self).is_destroyed(),
            final(self).current_serial() == old(self).current_serial(),
    {
        self.destroyed = true;
        ImRequest::Destroy
    }
}

} // verus!
