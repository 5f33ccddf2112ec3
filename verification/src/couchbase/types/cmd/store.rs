//! The store command.

use vstd::prelude::*;

use super::super::key_buffer::KeyBuffer;
use super::super::operation::Operation;

verus! {

/// A store command (`lcb_CMDSTORE`).
#[derive(Debug, Clone)]
pub struct Store {
    pub cmdflags: u32,
    pub exptime: u32,
    pub cas: u64,
    pub key: KeyBuffer,
    pub hashkey: KeyBuffer,
    /// Value to store on the server.
    pub value: KeyBuffer,
    /// Format flags used by clients to determine the underlying encoding of the value.
    pub flags: u32,
    /// Left zero.
    pub datatype: u8,
    /// Controls how the operation is performed.
    pub operation: Operation,
}

impl Store {
    /// The command with every field zero; the zero operation is `Upsert`.
    pub open spec fn is_zeroed(&self) -> bool {
        &&& self.cmdflags == 0
        &&& self.exptime == 0
        &&& self.cas == 0
        &&& self.key.is_zeroed()
        &&& self.hashkey.is_zeroed()
        &&& self.value.is_zeroed()
        &&& self.flags == 0
        &&& self.datatype == 0
        &&& self.operation == Operation::Upsert
    }
}

impl Default for Store {
    fn default() -> (s: Store)
        ensures
            s.is_zeroed(),
    {
        Store {
            cmdflags: 0,
            exptime: 0,
            cas: 0,
            key: KeyBuffer::empty(),
            hashkey: KeyBuffer::empty(),
            value: KeyBuffer::empty(),
            flags: 0,
            datatype: 0,
            operation: Operation::Upsert,
        }
    }
}

} // verus!
