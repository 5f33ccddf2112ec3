//! A row of a view query response.

use vstd::prelude::*;

use super::super::super::error::LcbErrorT;
use super::text::{field_readable, field_string, field_text};

verus! {

/// A view query row as libcouchbase delivers it (`lcb_RESPVIEWQUERY`). The
/// HTTP response and the included document, which are addresses, are not
/// read here.
#[derive(Debug, Clone)]
pub struct ViewQueryInternal {
    pub key: Vec<u8>,
    pub cas: u64,
    pub rc: LcbErrorT,
    pub version: u16,
    pub rflags: u16,
    pub docid: Vec<u8>,
    pub value: Vec<u8>,
    pub geometry: Vec<u8>,
}

impl ViewQueryInternal {
    /// Every text field can be read: where the row reports success, each is
    /// valid UTF-8.
    pub open spec fn readable(&self) -> bool {
        &&& field_readable(self.rc, self.key@)
        &&& field_readable(self.rc, self.docid@)
        &&& field_readable(self.rc, self.value@)
        &&& field_readable(self.rc, self.geometry@)
    }

    /// The key as text, present only when the row reports success.
    pub fn key(&self) -> (k: Option<String>)
        requires
            field_readable(self.rc, self.key@),
        ensures
            k.deep_view() == field_text(self.rc, self.key@),
    {
        field_string(self.rc, &self.key)
    }

    /// The document id as text, present only when the row reports success.
    pub fn docid(&self) -> (d: Option<String>)
        requires
            field_readable(self.rc, self.docid@),
        ensures
            d.deep_view() == field_text(self.rc, self.docid@),
    {
        field_string(self.rc, &self.docid)
    }

    /// The value as text, present only when the row reports success.
    pub fn value(&self) -> (v: Option<String>)
        requires
            field_readable(self.rc, self.value@),
        ensures
            v.deep_view() == field_text(self.rc, self.value@),
    {
        field_string(self.rc, &self.value)
    }

    /// The geometry as text, present only when the row reports success.
    pub fn geometry(&self) -> (g: Option<String>)
        requires
            field_readable(self.rc, self.geometry@),
        ensures
            g.deep_view() == field_text(self.rc, self.geometry@),
    {
        field_string(self.rc, &self.geometry)
    }
}

/// A view query row in owned form: its key and value.
#[derive(Debug, Clone)]
pub struct ViewQuery {
    pub key: Option<String>,
    pub value: Option<String>,
    pub cas: u64,
    pub rc: LcbErrorT,
    pub version: u16,
    pub rflags: u16,
}

impl ViewQuery {
    /// This row carries what `internal` reports.
    pub open spec fn describes(&self, internal: ViewQueryInternal) -> bool {
        &&& self.key.deep_view() == field_text(internal.rc, internal.key@)
        &&& self.value.deep_view() == field_text(internal.rc, internal.value@)
        &&& self.cas == internal.cas
        &&& self.rc == internal.rc
        &&& self.version == internal.version
        &&& self.rflags == internal.rflags
    }

    /// The owned form of a delivered row.
    pub fn new(internal: &ViewQueryInternal) -> (q: ViewQuery)
        requires
            field_readable(internal.rc, internal.key@),
            field_readable(internal.rc, internal.value@),
        ensures
            q.describes(*internal),
    {
        ViewQuery {
            key: internal.key(),
            value: internal.value(),
            cas: internal.cas,
            rc: internal.rc,
            version: internal.version,
            rflags: internal.rflags,
        }
    }
}

} // verus!
