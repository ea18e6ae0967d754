//! The virtual-keyboard session: keymap publication at construction, then
//! timestamped key events and modifier updates, gated on liveness.
//!
//! The session has a single state, live, until the remote object dies;
//! death is detected lazily through the liveness the transport reports at
//! each call.  No debouncing is performed: sending `Pressed` twice in a row
//! is permitted by this layer and the caller's to avoid if undesired.

use vstd::prelude::*;

verus! {

use crate::keymap::KeymapBlob;
use crate::time::TimeSource;
use crate::{KeyCode, KeyState, SubmitError};

/// The keymap format code for a byte-serialized textual layout description,
/// the one format this library publishes.
pub const KEYMAP_FORMAT_TEXT: u32 = 1;

/// One outbound request of the virtual-keyboard session, for the transport
/// to execute on the remote object.
#[derive(Debug, Clone, PartialEq, Eq)]
pub enum VkRequest {
    /// Publish the keymap: the server maps `size` bytes of the shared
    /// backing store and interprets them under `format`.
    Keymap { format: u32, size: u32 },
    /// Report one key state change at `time` milliseconds since session
    /// start.
    Key { time: u32, keycode: u32, state: u32 },
    /// Report a modifier-state update; the values are opaque bitmasks of
    /// the remote protocol, passed through unchanged.
    Modifiers { mods_depressed: u32, mods_latched: u32, mods_locked: u32, group: u32 },
}

/// Manages the pending state of one virtual-keyboard session: the time
/// base that key-event timestamps are measured against.
#[derive(Debug)]
pub struct VKServiceArc {
    time: TimeSource,
}

impl VKServiceArc {
    /// The time source whose base the next key event is stamped against.
    pub closed spec fn time_source(&self) -> TimeSource {
        self.time
    }

    /// Creates the session state and the one keymap publication request.
    /// The keymap is published exactly once, at construction: the returned
    /// request reports the blob's exact byte length, and the epoch of key
    /// timestamps starts at the clock reading `now_ms`.
    pub fn new(now_ms: u64, keymap: &KeymapBlob) -> (r: (VKServiceArc, VkRequest))
        ensures
            r.0.time_source().base() == now_ms,
            r.1 == (VkRequest::Keymap {
                format: KEYMAP_FORMAT_TEXT,
                size: keymap.contents().len() as u32,
            }),
    {
        let size = keymap.size();
        let service = VKServiceArc { time: TimeSource::new(now_ms) };
        (service, VkRequest::Keymap { format: KEYMAP_FORMAT_TEXT, size })
    }

    /// Reports one key state change, stamped with the milliseconds elapsed
    /// since session start at the clock reading `now_ms`.  The timestamp is
    /// computed before the liveness gate, so an epoch reset moves the base
    /// even when the request is refused; no request goes out unless the
    /// remote object reports alive.
    pub fn send_key(&mut self, alive: bool, now_ms: u64, keycode: KeyCode, state: KeyState) -> (r:
        Result<VkRequest, SubmitError>)
        ensures
            final(self).time_source().base() == old(self).time_source().spec_base_after(now_ms),
            r == if alive {
                Ok::<VkRequest, SubmitError>(
                    VkRequest::Key {
                        time: old(self).time_source().spec_elapsed(now_ms),
                        keycode: keycode,
                        state: state.spec_code(),
                    },
                )
            } else {
                Err::<VkRequest, SubmitError>(SubmitError::NotAlive)
            },
    {
        let time = self.time.elapsed_ms(now_ms);
        if alive {
            Ok(VkRequest::Key { time, keycode, state: state.code() })
        } else {
            Err(SubmitError::NotAlive)
        }
    }

    /// Reports a modifier-state update, the bitmasks passed through
    /// unchanged.  No request goes out unless the remote object reports
    /// alive.
    pub fn modifiers(
        &self,
        alive: bool,
        mods_depressed: u32,
        mods_latched: u32,
        mods_locked: u32,
        group: u32,
    ) -> (r: Result<VkRequest, SubmitError>)
        ensures
            r == if alive {
                Ok::<VkRequest, SubmitError>(
                    VkRequest::Modifiers { mods_depressed, mods_latched, mods_locked, group },
                )
            } else {
                Err::<VkRequest, SubmitError>(SubmitError::NotAlive)
            },
    {
        if alive {
            Ok(VkRequest::Modifiers { mods_depressed, mods_latched, mods_locked, group })
        } else {
            Err(SubmitError::NotAlive)
        }
    }
}

} // verus!
