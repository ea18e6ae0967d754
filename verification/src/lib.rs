//! Client-side core of an input-method / virtual-keyboard adapter.
//!
//! The library holds the session and commit state machine of the adapter:
//! serial-number tracking for atomic commits, liveness-gated request
//! submission, keymap preparation, monotonic timestamp generation for key
//! events, and the demultiplexing of asynchronous server events to
//! application-supplied handlers.  Every request method decides, from the
//! session state and the liveness of the remote object, whether a protocol
//! request may go out and which one; the transport that carries the request
//! (and the connection bootstrap around it) stays outside the library and
//! only executes the request values returned here.

use vstd::prelude::*;

pub mod arc_input_method;
pub mod arc_vk;
pub mod dispatch;
pub mod events;
pub mod keymap;
pub mod serial;
pub mod time;
pub mod traits;

verus! {

/// A key code of the virtual-keyboard protocol.
pub type KeyCode = u32;

/// Error when a request of the adapter cannot be submitted.
#[derive(Debug, Clone, PartialEq, Eq, Structural)]
pub enum SubmitError {
    /// The remote object's connection was dropped
    NotAlive,
    /// The input-method protocol is unavailable
    IMNotAvailable,
    /// The virtual-keyboard protocol is unavailable
    VKNotAvailable,
}

/// State of a key reported by a key event.
#[derive(Debug, Clone, Copy, PartialEq, Eq, Structural)]
pub enum KeyState {
    Pressed,
    Released,
}

pub use arc_input_method::{ImRequest, IMServiceArc};
pub use arc_vk::{VKServiceArc, VkRequest};
pub use dispatch::{dispatch_all, dispatch_event};
pub use events::{Callback, ChangeCause, ImEvent};
pub use keymap::{KeymapBlob, KeymapError};
pub use serial::CommitSerialTracker;
pub use time::TimeSource;
pub use traits::{DummyConnector, IMConnector, SurroundingTextState};

impl KeyState {
    /// The wire code of this key state in the virtual-keyboard protocol.
    pub open spec fn spec_code(self) -> u32 {
        match self {
            KeyState::Pressed => 1,
            KeyState::Released => 0,
        }
    }

    /// Returns the wire code of this key state.
    pub fn code(self) -> (c: u32)
        ensures
            c == self.spec_code(),
    {
        match self {
            KeyState::Pressed => 1,
            KeyState::Released => 0,
        }
    }
}

/// Composes one optional input-method session and one optional
/// virtual-keyboard session behind a single capability-checked entry point.
///
/// Either protocol capability may be absent on a given server; an absent
/// capability makes every request that needs it fail with the matching
/// "not available" error, while a present session gates each request on the
/// liveness the transport reports at call time.
#[derive(Debug)]
pub struct IMService {
    im: Option<IMServiceArc>,
    vk: Option<VKServiceArc>,
}

impl IMService {
    /// The input-method session, when that capability was negotiated.
    pub closed spec fn im_state(&self) -> Option<IMServiceArc> {
        self.im
    }

    /// The virtual-keyboard session, when that capability was negotiated.
    pub closed spec fn vk_state(&self) -> Option<VKServiceArc> {
        self.vk
    }

    /// Composes the facade from the sessions the capability negotiation
    /// produced; an absent capability arrives as `None` and stays one.
    pub fn new(im: Option<IMServiceArc>, vk: Option<VKServiceArc>) -> (s: Self)
        ensures
            s.im_state() == im,
            s.vk_state() == vk,
    {
        IMService { im, vk }
    }

    /// Creates the state of a freshly bound input-method session: the first
    /// commit will carry serial 0.
    pub fn new_im() -> (s: IMServiceArc)
        ensures
            s.current_serial() == 0,
            !s.is_destroyed(),
    {
        IMServiceArc::new()
    }

    /// Creates the state of a freshly bound virtual-keyboard session and
    /// the one keymap publication request, sized to the blob exactly; the
    /// epoch of key timestamps starts at the clock reading `now_ms`.
    pub fn new_vk(now_ms: u64, keymap: &KeymapBlob) -> (r: (VKServiceArc, VkRequest))
        ensures
            r.0.time_source().base() == now_ms,
            r.1 == (VkRequest::Keymap {
                format: arc_vk::KEYMAP_FORMAT_TEXT,
                size: keymap.contents().len() as u32,
            }),
    {
        VKServiceArc::new(now_ms, keymap)
    }

    /// The serial the next successful commit will carry, when an
    /// input-method session is present.
    pub fn im_serial(&self) -> (r: Option<u32>)
        ensures
            r == match self.im_state() {
                Some(s) => Some(s.current_serial()),
                None => None::<u32>,
            },
    {
        match &self.im {
            Some(s) => Some(s.serial()),
            None => None,
        }
    }

    /// Stages the insertion of `text` in the input-method session.  Fails
    /// with `IMNotAvailable` when the capability is absent and `NotAlive`
    /// when the remote object is gone; only on success is there a request
    /// to execute.
    pub fn commit_string(&self, im_alive: bool, text: String) -> (r: Result<
        ImRequest,
        SubmitError,
    >)
        requires
            arc_input_method::submit_text_fits(text@),
        ensures
            r == match self.im_state() {
                Some(s) => if s.accepts(im_alive) {
                    Ok::<ImRequest, SubmitError>(ImRequest::CommitString { text })
                } else {
                    Err::<ImRequest, SubmitError>(SubmitError::NotAlive)
                },
                None => Err::<ImRequest, SubmitError>(SubmitError::IMNotAvailable),
            },
    {
        match &self.im {
            Some(s) => s.commit_string(im_alive, text),
            None => Err(SubmitError::IMNotAvailable),
        }
    }

    /// Stages the deletion of `before` characters left and `after`
    /// characters right of the cursor in the input-method session.  Fails
    /// with `IMNotAvailable` when the capability is absent and `NotAlive`
    /// when the remote object is gone; only on success is there a request
    /// to execute.
    pub fn delete_surrounding_text(&self, im_alive: bool, before: usize, after: usize) -> (r:
        Result<ImRequest, SubmitError>)
        requires
            before <= u32::MAX,
            after <= u32::MAX,
        ensures
            r == match self.im_state() {
                Some(s) => if s.accepts(im_alive) {
                    Ok::<ImRequest, SubmitError>(
                        ImRequest::DeleteSurroundingText {
                            before: before as u32,
                            after: after as u32,
                        },
                    )
                } else {
                    Err::<ImRequest, SubmitError>(SubmitError::NotAlive)
                },
                None => Err::<ImRequest, SubmitError>(SubmitError::IMNotAvailable),
            },
    {
        match &self.im {
            Some(s) => s.delete_surrounding_text(im_alive, before, after),
            None => Err(SubmitError::IMNotAvailable),
        }
    }

    /// Finalizes the staged requests of the input-method session as one
    /// atomic batch carrying the current serial.  The serial advances by
    /// exactly one (modulo 2^32) on success and is unchanged on any
    /// failure; the virtual-keyboard session is untouched either way.
    pub fn commit(&mut self, im_alive: bool) -> (r: Result<ImRequest, SubmitError>)
        ensures
            final(self).vk_state() == old(self).vk_state(),
            match old(self).im_state() {
                Some(s) => if s.accepts(im_alive) {
                    &&& r == Ok::<ImRequest, SubmitError>(
                        ImRequest::Commit { serial: s.current_serial() },
                    )
                    &&& final(self).im_state() matches Some(s2) && s2.current_serial()
                        == serial::wrap_inc(s.current_serial()) && s2.is_destroyed()
                        == s.is_destroyed()
                } else {
                    &&& r == Err::<ImRequest, SubmitError>(SubmitError::NotAlive)
                    &&& final(self).im_state() == old(self).im_state()
                },
                None => {
                    &&& r == Err::<ImRequest, SubmitError>(SubmitError::IMNotAvailable)
                    &&& final(self).im_state() == old(self).im_state()
                },
            },
    {
        match &mut self.im {
            Some(s) => s.commit(im_alive),
            None => Err(SubmitError::IMNotAvailable),
        }
    }

    /// Best-effort teardown of the input-method session.  Fails with
    /// `IMNotAvailable` when the capability is absent; otherwise the
    /// destroy request goes out regardless of prior state, the session is
    /// marked destroyed, and no further error is surfaced.
    pub fn make_unavailable(&mut self) -> (r: Result<ImRequest, SubmitError>)
        ensures
            final(self).vk_state() == old(self).vk_state(),
            match old(self).im_state() {
                Some(s) => {
                    &&& r == Ok::<ImRequest, SubmitError>(ImRequest::Destroy)
                    &&& final(self).im_state() matches Some(s2) && s2.is_destroyed()
                        && s2.current_serial() == s.current_serial()
                },
                None => {
                    &&& r == Err::<ImRequest, SubmitError>(SubmitError::IMNotAvailable)
                    &&& final(self).im_state() == old(self).im_state()
                },
            },
    {
        match &mut self.im {
            Some(s) => Ok(s.make_unavailable()),
            None => Err(SubmitError::IMNotAvailable),
        }
    }

    /// Reports one key state change through the virtual-keyboard session,
    /// stamped with the milliseconds elapsed since session start at the
    /// clock reading `now_ms`.  Fails with `VKNotAvailable` when the
    /// capability is absent and `NotAlive` when the remote object is gone;
    /// the input-method session is untouched either way.
    pub fn send_key(&mut self, vk_alive: bool, now_ms: u64, keycode: KeyCode, state: KeyState) -> (
    r: Result<VkRequest, SubmitError>)
        ensures
            final(self).im_state() == old(self).im_state(),
            match old(self).vk_state() {
                Some(v) => {
                    &&& final(self).vk_state() matches Some(v2) && v2.time_source().base()
                        == v.time_source().spec_base_after(now_ms)
                    &&& r == if vk_alive {
                        Ok::<VkRequest, SubmitError>(
                            VkRequest::Key {
                                time: v.time_source().spec_elapsed(now_ms),
                                keycode: keycode,
                                state: state.spec_code(),
                            },
                        )
                    } else {
                        Err::<VkRequest, SubmitError>(SubmitError::NotAlive)
                    }
                },
                None => {
                    &&& r == Err::<VkRequest, SubmitError>(SubmitError::VKNotAvailable)
                    &&& final(self).vk_state() == old(self).vk_state()
                },
            },
    {
        match &mut self.vk {
            Some(v) => v.send_key(vk_alive, now_ms, keycode, state),
            None => Err(SubmitError::VKNotAvailable),
        }
    }

    /// Reports a modifier-state update through the virtual-keyboard
    /// session, the bitmasks passed through unchanged.  Fails with
    /// `VKNotAvailable` when the capability is absent and `NotAlive` when
    /// the remote object is gone.
    pub fn modifiers(
        &self,
        vk_alive: bool,
        mods_depressed: u32,
        mods_latched: u32,
        mods_locked: u32,
        group: u32,
    ) -> (r: Result<VkRequest, SubmitError>)
        ensures
            r == match self.vk_state() {
                Some(v) => if vk_alive {
                    Ok::<VkRequest, SubmitError>(
                        VkRequest::Modifiers { mods_depressed, mods_latched, mods_locked, group },
                    )
                } else {
                    Err::<VkRequest, SubmitError>(SubmitError::NotAlive)
                },
                None => Err::<VkRequest, SubmitError>(SubmitError::VKNotAvailable),
            },
    {
        match &self.vk {
            Some(v) => v.modifiers(vk_alive, mods_depressed, mods_latched, mods_locked, group),
            None => Err(SubmitError::VKNotAvailable),
        }
    }
}

} // verus!
