//! The response to a get command.

use vstd::prelude::*;

use super::super::super::error::LcbErrorT;
use super::text::{field_readable, field_string, field_text};

verus! {

/// A get response as libcouchbase delivers it (`lcb_RESPGET`): the key and
/// value are the bytes the response points at.
#[derive(Debug, Clone)]
pub struct GetInternal {
    pub key: Vec<u8>,
    pub cas: u64,
    pub rc: LcbErrorT,
    pub version: u16,
    pub rflags: u16,
    pub value: Vec<u8>,
    pub datatype: u8,
    pub itmflags: u32,
}

impl GetInternal {
    /// The key and the value can be read: where the response reports
    /// success, both are valid UTF-8.
    pub open spec fn readable(&self) -> bool {
        field_readable(self.rc, self.key@) && field_readable(self.rc, self.value@)
    }

    /// The key as text, present only when the response reports success.
    pub fn key(&self) -> (k: Option<String>)
        requires
            field_readable(self.rc, self.key@),
        ensures
            k.deep_view() == field_text(self.rc, self.key@),
    {
        field_string(self.rc, &self.key)
    }

    /// The value as text, present only when the response reports success.
    pub fn value(&self) -> (v: Option<String>)
        requires
            field_readable(self.rc, self.value@),
        ensures
            v.deep_view() == field_text(self.rc, self.value@),
    {
        field_string(self.rc, &self.value)
    }
}

/// A get response in owned form.
#[derive(Debug, Clone)]
pub struct Get {
    pub key: Option<String>,
    pub value: Option<String>,
    pub cas: u64,
    pub rc: LcbErrorT,
    pub version: u16,
    pub rflags: u16,
}

impl Get {
    /// This response carries what `internal` reports.
    pub open spec fn describes(&self, internal: GetInternal) -> bool {
        &&& self.key.deep_view() == field_text(internal.rc, internal.key@)
        &&& self.value.deep_view() == field_text(internal.rc, internal.value@)
        &&& self.cas == internal.cas
        &&& self.rc == internal.rc
        &&& self.version == internal.version
        &&& self.rflags == internal.rflags
    }

    /// The owned form of a delivered response.
    pub fn new(internal: &GetInternal) -> (g: Get)
        requires
            internal.readable(),
        ensures
            g.describes(*internal),
    {
        Get {
            key: internal.key(),
            value: internal.value(),
            cas: internal.cas,
            rc: internal.rc,
            version: internal.version,
            rflags: internal.rflags,
        }
    }
}

} // verus!
