//! The libcouchbase handle.

use vstd::prelude::*;

verus! {

/// The state behind a libcouchbase handle. It lives on the C side: no
/// value of it is made here.
pub struct InstanceInternal {
    _opaque: (),
}

/// A libcouchbase handle (`lcb_t`), held as the address it points to.
#[derive(Debug, Clone, Copy)]
pub struct InstancePtr {
    ptr: usize,
}

/// The handle type used throughout the client.
pub type Instance = InstancePtr;

impl InstancePtr {
    /// The address of the handle.
    pub closed spec fn spec_address(&self) -> usize {
        self.ptr
    }

    /// The handle at `address`.
    pub fn from_address(address: usize) -> (p: InstancePtr)
        ensures
            p.spec_address() == address,
    {
        InstancePtr { ptr: address }
    }

    /// The address of the handle.
    pub fn address(&self) -> (a: usize)
        ensures
            a == self.spec_address(),
    {
        self.ptr
    }
}

impl Default for InstancePtr {
    /// The null handle.
    fn default() -> (p: InstancePtr)
        ensures
            p.spec_address() == 0,
    {
        InstancePtr { ptr: 0 }
    }
}

} // verus!
