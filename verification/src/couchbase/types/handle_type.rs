//! Kinds of libcouchbase handles.

use vstd::prelude::*;

verus! {

/// What a libcouchbase handle connects to.
#[derive(Debug, Clone, Copy, PartialEq, Eq, Structural)]
pub enum HandleType {
    Bucket,
    Cluster,
}

/// The number that libcouchbase uses for each `HandleType`.
pub open spec fn handle_type_code(x: HandleType) -> u32 {
    match x {
        HandleType::Bucket => 0,
        HandleType::Cluster => 1,
    }
}

impl HandleType {
    /// The number that libcouchbase uses for this value.
    pub fn code(&self) -> (c: u32)
        ensures
            c == handle_type_code(*self),
    {
        match self {
            HandleType::Bucket => 0,
            HandleType::Cluster => 1,
        }
    }
}

/// The numbers libcouchbase assigns to its handle kinds: a bucket handle is 0, a cluster-management handle 1.
pub proof fn lemma_handle_type_code_table()
    ensures
        handle_type_code(HandleType::Bucket) == 0,
        handle_type_code(HandleType::Cluster) == 1,
{
}

} // verus!
