//! What the client sends for each operation and what it reports back.

use vstd::prelude::*;

use crate::couchbase::error::LcbErrorT;
use crate::couchbase::types::cmd;
use crate::couchbase::types::key_buffer::KeyBuffer;
use crate::couchbase::types::kv_buffer_type::KvBufferType;
use crate::couchbase::types::operation::Operation;
use crate::couchbase::types::response;
use crate::couchbase::types::response::flags::{response_flag_code, Flags};
use crate::couchbase::types::response::text::field_readable;

verus! {

/// The outcome of a get: the response on success, else the response and the status.
pub type OperationResultGet = Result<response::Get, (Option<response::Get>, LcbErrorT)>;

/// The outcome of a remove: the response on success, else the response and the status.
pub type OperationResultRemove = Result<response::Remove, (Option<response::Remove>, LcbErrorT)>;

/// The outcome of a store: the response on success, else the response and the status.
pub type OperationResultStore = Result<response::Store, (Option<response::Store>, LcbErrorT)>;

/// The outcome of a view query row: the row on success, else the row and the status.
pub type OperationResultViewQuery = Result<
    response::ViewQuery,
    (Option<response::ViewQuery>, LcbErrorT),
>;

/// The `cmdflags` bit that asks a view query to include the documents
/// (`LCB_CMDVIEWQUERY_F_INCLUDE_DOCS`).
pub const VIEW_QUERY_INCLUDE_DOCS: u32 = 0x10000;

/// A key buffer that libcouchbase copies and that holds the UTF-8 bytes of `text`.
pub open spec fn copies_text(b: KeyBuffer, text: Seq<char>) -> bool {
    &&& b._type == KvBufferType::Copy
    &&& b.contig.bytes@ == vstd::utf8::encode_utf8(text)
    &&& b.contig.nbytes == b.contig.bytes@.len()
}

/// The command that gets the document `key`, under the given CAS.
pub fn get_command(key: &str, cas: u64) -> (c: cmd::Get)
    ensures
        c.cmdflags == 0,
        c.exptime == 0,
        c.cas == cas,
        copies_text(c.key, key@),
        c.hashkey.is_zeroed(),
        c.lock == 0,
{
    let mut gcmd = cmd::Get::default();
    gcmd.cas = cas;
    gcmd.key = KeyBuffer::copied(key);
    gcmd
}

/// The command that removes the document `key`.
pub fn remove_command(key: &str) -> (c: cmd::Remove)
    ensures
        c.cmdflags == 0,
        c.exptime == 0,
        c.cas == 0,
        copies_text(c.key, key@),
        c.hashkey.is_zeroed(),
{
    let mut gcmd = cmd::Remove::default();
    gcmd.key = KeyBuffer::copied(key);
    gcmd
}

/// The command that stores `value` under `key` in the given mode, under
/// the given CAS and expiry.
pub fn store_command(key: &str, value: &str, operation: Operation, cas: u64, exptime: u32) -> (c:
    cmd::Store)
    ensures
        c.cmdflags == 0,
        c.exptime == exptime,
        c.cas == cas,
        copies_text(c.key, key@),
        c.hashkey.is_zeroed(),
        copies_text(c.value, value@),
        c.flags == 0,
        c.datatype == 0,
        c.operation == operation,
{
    let mut gcmd = cmd::Store::default();
    gcmd.cas = cas;
    gcmd.exptime = exptime;
    gcmd.key = KeyBuffer::copied(key);
    gcmd.value = KeyBuffer::copied(value);
    gcmd.operation = operation;
    gcmd
}

/// The command that queries the view `view` of the design document `ddoc`,
/// with the documents included.
pub fn view_query_command(ddoc: &str, view: &str) -> (c: cmd::ViewQuery)
    ensures
        c.cmdflags == VIEW_QUERY_INCLUDE_DOCS,
        c.ddoc@ == vstd::utf8::encode_utf8(ddoc@),
        c.nddoc == c.ddoc@.len(),
        c.view@ == vstd::utf8::encode_utf8(view@),
        c.nview == c.view@.len(),
        c.optstr@.len() == 0 && c.noptstr == 0,
        c.postdata@.len() == 0 && c.npostdata == 0,
        c.docs_concurrent_max == 0,
{
    let mut gcmd = cmd::ViewQuery::default();
    gcmd.cmdflags = gcmd.cmdflags | VIEW_QUERY_INCLUDE_DOCS;
    assert(0u32 | 0x10000u32 == 0x10000u32) by (bit_vector);
    let ddoc_bytes = ddoc.as_bytes_vec();
    gcmd.nddoc = ddoc_bytes.len() as u64;
    gcmd.ddoc = ddoc_bytes;
    let view_bytes = view.as_bytes_vec();
    gcmd.nview = view_bytes.len() as u64;
    gcmd.view = view_bytes;
    gcmd
}

/// What a get reports for a delivered response: `Ok` with the response
/// exactly when the status is success, otherwise the response and its status.
pub fn get_outcome(internal: &response::GetInternal) -> (r: OperationResultGet)
    requires
        internal.readable(),
    ensures
        r is Ok <==> internal.rc == LcbErrorT::LcbSuccess,
        r matches Ok(g) ==> g.describes(*internal),
        r matches Err((g, e)) ==> (e == internal.rc && (g matches Some(g) && g.describes(
            *internal,
        ))),
{
    let g = response::Get::new(internal);
    if internal.rc.is_success() {
        Ok(g)
    } else {
        Err((Some(g), internal.rc))
    }
}

/// What a remove reports for a delivered response: `Ok` with the response
/// exactly when the status is success, otherwise the response and its status.
pub fn remove_outcome(internal: &response::RemoveInternal) -> (r: OperationResultRemove)
    requires
        internal.readable(),
    ensures
        r is Ok <==> internal.rc == LcbErrorT::LcbSuccess,
        r matches Ok(g) ==> g.describes(*internal),
        r matches Err((g, e)) ==> (e == internal.rc && (g matches Some(g) && g.describes(
            *internal,
        ))),
{
    let g = response::Remove::new(internal);
    if internal.rc.is_success() {
        Ok(g)
    } else {
        Err((Some(g), internal.rc))
    }
}

/// What a store reports for a delivered response: `Ok` with the response
/// exactly when the status is success, otherwise the response and its status.
pub fn store_outcome(internal: &response::StoreInternal) -> (r: OperationResultStore)
    requires
        internal.readable(),
    ensures
        r is Ok <==> internal.rc == LcbErrorT::LcbSuccess,
        r matches Ok(g) ==> g.describes(*internal),
        r matches Err((g, e)) ==> (e == internal.rc && (g matches Some(g) && g.describes(
            *internal,
        ))),
{
    let g = response::Store::new(internal);
    if internal.rc.is_success() {
        Ok(g)
    } else {
        Err((Some(g), internal.rc))
    }
}

/// What a view query reports for a delivered row: `Ok` with the row exactly
/// when the status is success, otherwise the row and its status.
pub fn view_query_outcome(internal: &response::ViewQueryInternal) -> (r: OperationResultViewQuery)
    requires
        field_readable(internal.rc, internal.key@),
        field_readable(internal.rc, internal.value@),
    ensures
        r is Ok <==> internal.rc == LcbErrorT::LcbSuccess,
        r matches Ok(g) ==> g.describes(*internal),
        r matches Err((g, e)) ==> (e == internal.rc && (g matches Some(g) && g.describes(
            *internal,
        ))),
{
    let g = response::ViewQuery::new(internal);
    if internal.rc.is_success() {
        Ok(g)
    } else {
        Err((Some(g), internal.rc))
    }
}

/// Whether a view query row is handed to the caller: only the row that
/// carries exactly the `Final` flag is.
pub fn view_row_delivered(row: &response::ViewQueryInternal) -> (b: bool)
    ensures
        b == (row.rflags == response_flag_code(Flags::Final)),
{
    row.rflags as u32 == Flags::Final.code()
}

} // verus!
