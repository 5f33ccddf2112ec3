//! The common head of a key command, under its older name.

use vstd::prelude::*;

use super::key_buffer::KeyBuffer;

verus! {

/// The common head of a key command (`lcb_CMDBASE`).
#[derive(Debug, Clone)]
pub struct CmdBase {
    pub cmdflags: u32,
    pub exptime: u32,
    pub cas: u64,
    pub key: KeyBuffer,
    pub hashkey: KeyBuffer,
}

impl Default for CmdBase {
    fn default() -> (b: CmdBase)
        ensures
            b.cmdflags == 0,
            b.exptime == 0,
            b.cas == 0,
            b.key.is_zeroed(),
            b.hashkey.is_zeroed(),
    {
        CmdBase {
            cmdflags: 0,
            exptime: 0,
            cas: 0,
            key: KeyBuffer::empty(),
            hashkey: KeyBuffer::empty(),
        }
    }
}

} // verus!
