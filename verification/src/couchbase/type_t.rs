//! Kinds of libcouchbase handles, in the older naming.

use vstd::prelude::*;

verus! {

/// What a libcouchbase handle connects to (`lcb_type_t`).
#[derive(Debug, Clone, Copy, PartialEq, Eq, Structural)]
pub enum LcbTypeT {
    LcbTypeBucket,
    LcbTypeCluster,
}

/// The number that libcouchbase uses for each `LcbTypeT`.
pub open spec fn lcb_type_code(x: LcbTypeT) -> u32 {
    match x {
        LcbTypeT::LcbTypeBucket => 0,
        LcbTypeT::LcbTypeCluster => 1,
    }
}

impl LcbTypeT {
    /// The number that libcouchbase uses for this value.
    pub fn code(&self) -> (c: u32)
        ensures
            c == lcb_type_code(*self),
    {
        match self {
            LcbTypeT::LcbTypeBucket => 0,
            LcbTypeT::LcbTypeCluster => 1,
        }
    }
}

/// The opaque libcouchbase handle state (`lcb_st`). It lives on the C side:
/// no value of it is made here.
pub struct LcbSt {
    _opaque: (),
}

/// The numbers libcouchbase assigns to its handle kinds (`lcb_type_t`): a bucket handle is 0, a cluster-management handle 1.
pub proof fn lemma_lcb_type_code_table()
    ensures
        lcb_type_code(LcbTypeT::LcbTypeBucket) == 0,
        lcb_type_code(LcbTypeT::LcbTypeCluster) == 1,
{
}

} // verus!
