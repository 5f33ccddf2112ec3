//! The fields that every libcouchbase key command starts with.

use vstd::prelude::*;

use super::super::key_buffer::KeyBuffer;

verus! {

/// The common head of a key command (`lcb_CMDBASE`).
#[derive(Debug, Clone)]
pub struct Base {
    pub cmdflags: u32,
    pub exptime: u32,
    pub cas: u64,
    pub key: KeyBuffer,
    pub hashkey: KeyBuffer,
}

/// A remove command carries nothing beyond the common head (`lcb_CMDREMOVE`).
pub type Remove = Base;

impl Base {
    /// The command with every field zero: no flags, no expiry, no CAS and
    /// empty copy-mode key buffers.
    pub open spec fn is_zeroed(&self) -> bool {
        &&& self.cmdflags == 0
        &&& self.exptime == 0
        &&& self.cas == 0
        &&& self.key.is_zeroed()
        &&& self.hashkey.is_zeroed()
    }
}

impl Default for Base {
    fn default() -> (b: Base)
        ensures
            b.is_zeroed(),
    {
        Base {
            cmdflags: 0,
            exptime: 0,
            cas: 0,
            key: KeyBuffer::empty(),
            hashkey: KeyBuffer::empty(),
        }
    }
}

} // verus!
