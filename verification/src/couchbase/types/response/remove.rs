//! The response to a remove command.

use vstd::prelude::*;

use super::super::super::error::LcbErrorT;
use super::text::{field_readable, field_string, field_text};

verus! {

/// A remove response as libcouchbase delivers it (`lcb_RESPREMOVE`).
#[derive(Debug, Clone)]
pub struct RemoveInternal {
    pub key: Vec<u8>,
    pub cas: u64,
    pub rc: LcbErrorT,
    pub version: u16,
    pub rflags: u16,
}

impl RemoveInternal {
    /// The key can be read: where the response reports success it is valid UTF-8.
    pub open spec fn readable(&self) -> bool {
        field_readable(self.rc, self.key@)
    }

    /// The key as text, present only when the response reports success.
    pub fn key(&self) -> (k: Option<String>)
        requires
            self.readable(),
        ensures
            k.deep_view() == field_text(self.rc, self.key@),
    {
        field_string(self.rc, &self.key)
    }
}

/// A remove response in owned form.
#[derive(Debug, Clone)]
pub struct Remove {
    pub key: Option<String>,
    pub cas: u64,
    pub rc: LcbErrorT,
    pub version: u16,
    pub rflags: u16,
}

impl Remove {
    /// This response carries what `internal` reports.
    pub open spec fn describes(&self, internal: RemoveInternal) -> bool {
        &&& self.key.deep_view() == field_text(internal.rc, internal.key@)
        &&& self.cas == internal.cas
        &&& self.rc == internal.rc
        &&& self.version == internal.version
        &&& self.rflags == internal.rflags
    }

    /// The owned form of a delivered response.
    pub fn new(internal: &RemoveInternal) -> (r: Remove)
        requires
            internal.readable(),
        ensures
            r.describes(*internal),
    {
        Remove {
            key: internal.key(),
            cas: internal.cas,
            rc: internal.rc,
            version: internal.version,
            rflags: internal.rflags,
        }
    }
}

} // verus!
