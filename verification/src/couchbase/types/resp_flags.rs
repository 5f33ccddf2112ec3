//! Flags that libcouchbase sets on a response, in the older naming.

use vstd::prelude::*;

verus! {

/// A flag of a libcouchbase response (`lcb_RESPFLAGS`).
#[derive(Debug, Clone, Copy, PartialEq, Eq, Structural)]
pub enum LcbRespFlags {
    LcbRespFFinal,
    LcbRespFClientgen,
    LcbRespFNmvgen,
    LcbRespFExtdata,
    LcbRespFSdsingle,
}

/// The number that libcouchbase uses for each `LcbRespFlags`.
pub open spec fn lcb_resp_flag_code(x: LcbRespFlags) -> u32 {
    match x {
        LcbRespFlags::LcbRespFFinal => 1,
        LcbRespFlags::LcbRespFClientgen => 2,
        LcbRespFlags::LcbRespFNmvgen => 4,
        LcbRespFlags::LcbRespFExtdata => 8,
        LcbRespFlags::LcbRespFSdsingle => 16,
    }
}

impl LcbRespFlags {
    /// The number that libcouchbase uses for this value.
    pub fn code(&self) -> (c: u32)
        ensures
            c == lcb_resp_flag_code(*self),
    {
        match self {
            LcbRespFlags::LcbRespFFinal => 1,
            LcbRespFlags::LcbRespFClientgen => 2,
            LcbRespFlags::LcbRespFNmvgen => 4,
            LcbRespFlags::LcbRespFExtdata => 8,
            LcbRespFlags::LcbRespFSdsingle => 16,
        }
    }
}

/// The bits libcouchbase assigns to its response flags (`lcb_RESPFLAGS`).
pub proof fn lemma_lcb_resp_flag_code_table()
    ensures
        lcb_resp_flag_code(LcbRespFlags::LcbRespFFinal) == 1,
        lcb_resp_flag_code(LcbRespFlags::LcbRespFClientgen) == 2,
        lcb_resp_flag_code(LcbRespFlags::LcbRespFNmvgen) == 4,
        lcb_resp_flag_code(LcbRespFlags::LcbRespFExtdata) == 8,
        lcb_resp_flag_code(LcbRespFlags::LcbRespFSdsingle) == 16,
{
}

} // verus!
