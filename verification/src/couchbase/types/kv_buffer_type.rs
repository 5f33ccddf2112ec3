//! How libcouchbase reads a key or value buffer.

use vstd::prelude::*;

verus! {

/// How libcouchbase reads a key or value buffer (`lcb_KVBUFTYPE`).
#[derive(Debug, Clone, Copy, PartialEq, Eq, Structural)]
pub enum KvBufferType {
    Copy,
    Contig,
    Iov,
    Vbid,
    Iovcopy,
}

/// The number that libcouchbase uses for each `KvBufferType`.
pub open spec fn kv_buffer_type_code(x: KvBufferType) -> u32 {
    match x {
        KvBufferType::Copy => 0,
        KvBufferType::Contig => 1,
        KvBufferType::Iov => 2,
        KvBufferType::Vbid => 3,
        KvBufferType::Iovcopy => 4,
    }
}

impl KvBufferType {
    /// The number that libcouchbase uses for this value.
    pub fn code(&self) -> (c: u32)
        ensures
            c == kv_buffer_type_code(*self),
    {
        match self {
            KvBufferType::Copy => 0,
            KvBufferType::Contig => 1,
            KvBufferType::Iov => 2,
            KvBufferType::Vbid => 3,
            KvBufferType::Iovcopy => 4,
        }
    }
}

/// The numbers libcouchbase assigns to its buffer kinds (`lcb_KVBUFTYPE`).
pub proof fn lemma_kv_buffer_type_code_table()
    ensures
        kv_buffer_type_code(KvBufferType::Copy) == 0,
        kv_buffer_type_code(KvBufferType::Contig) == 1,
        kv_buffer_type_code(KvBufferType::Iov) == 2,
        kv_buffer_type_code(KvBufferType::Vbid) == 3,
        kv_buffer_type_code(KvBufferType::Iovcopy) == 4,
{
}

} // verus!
