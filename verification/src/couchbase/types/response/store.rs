//! The response to a store command.

use vstd::prelude::*;

use super::super::super::error::LcbErrorT;
use super::super::operation::Operation;
use super::text::{field_readable, field_string, field_text};

verus! {

/// A store response as libcouchbase delivers it (`lcb_RESPSTORE`).
#[derive(Debug, Clone)]
pub struct StoreInternal {
    pub key: Vec<u8>,
    pub cas: u64,
    pub rc: LcbErrorT,
    pub version: u16,
    pub rflags: u16,
    pub operation: Operation,
}

impl StoreInternal {
    /// The key can be read: where the response reports success it is valid UTF-8.
    pub open spec fn readable(&self) -> bool {
        field_readable(self.rc, self.key@)
    }

    /// The key as text, present only when the response reports success.
    pub fn key(&self) -> (k: Option<String>)
        requires
            self.readable(),
        ensures
            k.deep_view() == field_text(self.rc, self.key@),
    {
        field_string(self.rc, &self.key)
    }
}

/// A store response in owned form.
#[derive(Debug, Clone)]
pub struct Store {
    pub key: Option<String>,
    pub cas: u64,
    pub rc: LcbErrorT,
    pub version: u16,
    pub rflags: u16,
    pub operation: Operation,
}

impl Store {
    /// This response carries what `internal` reports.
    pub open spec fn describes(&self, internal: StoreInternal) -> bool {
        &&& self.key.deep_view() == field_text(internal.rc, internal.key@)
        &&& self.cas == internal.cas
        &&& self.rc == internal.rc
        &&& self.version == internal.version
        &&& self.rflags == internal.rflags
        &&& self.operation == internal.operation
    }

    /// The owned form of a delivered response.
    pub fn new(internal: &StoreInternal) -> (r: Store)
        requires
            internal.readable(),
        ensures
            r.describes(*internal),
    {
        Store {
            key: internal.key(),
            cas: internal.cas,
            rc: internal.rc,
            version: internal.version,
            rflags: internal.rflags,
            operation: internal.operation,
        }
    }
}

} // verus!
