//! Flags that libcouchbase sets on a response.

use vstd::prelude::*;

verus! {

/// A flag of a libcouchbase response (`lcb_RESPFLAGS`).
#[derive(Debug, Clone, Copy, PartialEq, Eq, Structural)]
pub enum Flags {
    Final,
    Clientgen,
    Nmvgen,
    Extdata,
    Sdsingle,
}

/// The number that libcouchbase uses for each `Flags`.
pub open spec fn response_flag_code(x: Flags) -> u32 {
    match x {
        Flags::Final => 1,
        Flags::Clientgen => 2,
        Flags::Nmvgen => 4,
        Flags::Extdata => 8,
        Flags::Sdsingle => 16,
    }
}

impl Flags {
    /// The number that libcouchbase uses for this value.
    pub fn code(&self) -> (c: u32)
        ensures
            c == response_flag_code(*self),
    {
        match self {
            Flags::Final => 1,
            Flags::Clientgen => 2,
            Flags::Nmvgen => 4,
            Flags::Extdata => 8,
            Flags::Sdsingle => 16,
        }
    }
}

/// The bits libcouchbase assigns to its response flags (`lcb_RESPFLAGS`).
pub proof fn lemma_response_flag_code_table()
    ensures
        response_flag_code(Flags::Final) == 1,
        response_flag_code(Flags::Clientgen) == 2,
        response_flag_code(Flags::Nmvgen) == 4,
        response_flag_code(Flags::Extdata) == 8,
        response_flag_code(Flags::Sdsingle) == 16,
{
}

} // verus!
