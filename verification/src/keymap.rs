//! Preparation of a keyboard-layout description for publication.
//!
//! A virtual-keyboard session publishes its keymap exactly once, at
//! construction: a byte-serialized layout description is placed in a shared,
//! memory-mappable buffer and handed to the server as a descriptor together
//! with its byte length.  The library prepares and validates the blob and
//! states its size; the shared-memory backing and the descriptor hand-off
//! are the transport's work.

use vstd::prelude::*;

verus! {

/// Error when a keymap cannot be published.
#[derive(Debug, Clone, PartialEq, Eq, Structural)]
pub enum KeymapError {
    /// The shared backing store or its memory mapping could not be created.
    /// Fatal to virtual-keyboard session construction: no session exists
    /// without a keymap.
    AllocationFailed,
}

/// An immutable byte-serialized keyboard-layout description, sized for
/// publication: the protocol reports the length as an unsigned 32-bit
/// value, so the blob never exceeds `u32::MAX` bytes.
pub struct KeymapBlob {
    bytes: Vec<u8>,
}

impl KeymapBlob {
    /// The bytes of the layout description.
    pub closed spec fn contents(&self) -> Seq<u8> {
        self.bytes@
    }

    #[verifier::type_invariant]
    spec fn inv(self) -> bool {
        self.bytes@.len() <= u32::MAX
    }

    /// Wraps a layout description for publication.  The description is
    /// treated as an opaque blob; only its size is constrained, by the
    /// 32-bit length field of the protocol.
    pub fn new(bytes: Vec<u8>) -> (b: Self)
        requires
            bytes@.len() <= u32::MAX,
        ensures
            b.contents() == bytes@,
    {
        KeymapBlob { bytes }
    }

    /// The byte length that the descriptor reports to the server.
    pub fn size(&self) -> (s: u32)
        ensures
            s == self.contents().len(),
    {
        proof {
            use_type_invariant(self);
        }
        self.bytes.len() as u32
    }

    /// The bytes to copy into the shared backing store, exactly the
    /// description handed to [`KeymapBlob::new`].
    pub fn as_bytes(&self) -> (r: &Vec<u8>)
        ensures
            r@ == self.contents(),
    {
        &self.bytes
    }
}

} // verus!
