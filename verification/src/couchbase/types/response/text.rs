//! Reading the text fields of a libcouchbase response.

use vstd::prelude::*;

use super::super::super::error::LcbErrorT;

verus! {

/// `String::from_utf8` (std): `Some` exactly when the bytes are valid UTF-8,
/// and then the characters they encode. The error value is dropped.
#[verifier::external_body]
fn string_from_utf8(bytes: Vec<u8>) -> (s: Option<String>)
    ensures
        s is Some <==> vstd::utf8::valid_utf8(bytes@),
        s matches Some(t) ==> t@ == vstd::utf8::decode_utf8(bytes@),
{
    String::from_utf8(bytes).ok()
}

/// The text that a response field carries: its bytes read as UTF-8 when the
/// response reports success, nothing otherwise.
pub open spec fn field_text(rc: LcbErrorT, bytes: Seq<u8>) -> Option<Seq<char>> {
    if rc == LcbErrorT::LcbSuccess {
        Some(vstd::utf8::decode_utf8(bytes))
    } else {
        None
    }
}

/// A field can be read when the response does not report success, or when
/// its bytes are valid UTF-8.
pub open spec fn field_readable(rc: LcbErrorT, bytes: Seq<u8>) -> bool {
    rc == LcbErrorT::LcbSuccess ==> vstd::utf8::valid_utf8(bytes)
}

/// Reads a response field as text (see `field_text`).
pub fn field_string(rc: LcbErrorT, bytes: &Vec<u8>) -> (s: Option<String>)
    requires
        field_readable(rc, bytes@),
    ensures
        s.deep_view() == field_text(rc, bytes@),
{
    if rc.is_success() {
        let copy = bytes.clone();
        assert(copy@ == bytes@);
        string_from_utf8(copy)
    } else {
        None
    }
}

} // verus!
