//! The get command.

use vstd::prelude::*;

use super::super::key_buffer::KeyBuffer;

verus! {

/// A get command (`lcb_CMDGET`).
#[derive(Debug, Clone)]
pub struct Get {
    pub cmdflags: u32,
    pub exptime: u32,
    pub cas: u64,
    pub key: KeyBuffer,
    pub hashkey: KeyBuffer,
    pub lock: i32,
}

impl Get {
    /// The command with every field zero.
    pub open spec fn is_zeroed(&self) -> bool {
        &&& self.cmdflags == 0
        &&& self.exptime == 0
        &&& self.cas == 0
        &&& self.key.is_zeroed()
        &&& self.hashkey.is_zeroed()
        &&& self.lock == 0
    }
}

impl Default for Get {
    fn default() -> (g: Get)
        ensures
            g.is_zeroed(),
    {
        Get {
            cmdflags: 0,
            exptime: 0,
            cas: 0,
            key: KeyBuffer::empty(),
            hashkey: KeyBuffer::empty(),
            lock: 0,
        }
    }
}

} // verus!
