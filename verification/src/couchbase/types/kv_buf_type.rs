//! How libcouchbase reads a key or value buffer, in the older naming.

use vstd::prelude::*;

verus! {

/// How libcouchbase reads a key or value buffer (`lcb_KVBUFTYPE`).
#[derive(Debug, Clone, Copy, PartialEq, Eq, Structural)]
pub enum LcbKvBufType {
    LcbKvCopy,
    LcbKvContig,
    LcbKvIov,
    LcbKvVbid,
    LcbKvIovcopy,
}

/// The number that libcouchbase uses for each `LcbKvBufType`.
pub open spec fn lcb_kv_buf_type_code(x: LcbKvBufType) -> u32 {
    match x {
        LcbKvBufType::LcbKvCopy => 0,
        LcbKvBufType::LcbKvContig => 1,
        LcbKvBufType::LcbKvIov => 2,
        LcbKvBufType::LcbKvVbid => 3,
        LcbKvBufType::LcbKvIovcopy => 4,
    }
}

impl LcbKvBufType {
    /// The number that libcouchbase uses for this value.
    pub fn code(&self) -> (c: u32)
        ensures
            c == lcb_kv_buf_type_code(*self),
    {
        match self {
            LcbKvBufType::LcbKvCopy => 0,
            LcbKvBufType::LcbKvContig => 1,
            LcbKvBufType::LcbKvIov => 2,
            LcbKvBufType::LcbKvVbid => 3,
            LcbKvBufType::LcbKvIovcopy => 4,
        }
    }
}

/// The numbers libcouchbase assigns to its buffer kinds (`lcb_KVBUFTYPE`).
pub proof fn lemma_lcb_kv_buf_type_code_table()
    ensures
        lcb_kv_buf_type_code(LcbKvBufType::LcbKvCopy) == 0,
        lcb_kv_buf_type_code(LcbKvBufType::LcbKvContig) == 1,
        lcb_kv_buf_type_code(LcbKvBufType::LcbKvIov) == 2,
        lcb_kv_buf_type_code(LcbKvBufType::LcbKvVbid) == 3,
        lcb_kv_buf_type_code(LcbKvBufType::LcbKvIovcopy) == 4,
{
}

} // verus!
