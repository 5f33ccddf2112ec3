//! The answers of the REST interface to the outcomes of client operations.

use serde_json::Value;

use vstd::prelude::*;

use super::json::{
    json_map_insert, json_map_new, json_object, json_object_entries, json_object_from_str,
    json_object_parse, json_object_value, json_string, json_string_value, json_text,
    json_to_string, json_u64, json_u64_value,
};
use crate::client::operations::{
    OperationResultGet, OperationResultRemove, OperationResultStore, OperationResultViewQuery,
};
use crate::couchbase::types::response::Get;

verus! {

/// The HTTP status of a successful request.
pub const STATUS_OK: u16 = 200;

/// The HTTP status of a request that the database refused.
pub const STATUS_BAD_REQUEST: u16 = 400;

/// An answer to a REST request.
#[derive(Debug)]
pub struct WebResponse {
    /// The HTTP status code.
    pub status: u16,
    /// Whether the answer is declared as `application/json; charset=utf-8`.
    pub json: bool,
    /// The entity tag of the answer, if any.
    pub etag: Option<String>,
    /// The body of the answer.
    pub body: String,
}

/// The decimal digits of `n`, most significant first, without leading zeros.
pub open spec fn decimal_text(n: nat) -> Seq<char>
    decreases n,
{
    if n < 10 {
        seq![(n + 48) as char]
    } else {
        decimal_text(n / 10).push(((n % 10) + 48) as char)
    }
}

/// The number that a run of decimal digits stands for.
pub open spec fn digits_value(s: Seq<char>) -> nat
    decreases s.len(),
{
    if s.len() == 0 {
        0
    } else {
        digits_value(s.drop_last()) * 10 + ((s.last() as nat) - 48) as nat
    }
}

/// The decimal text of a number is a run of digits `0` to `9` that stands
/// for that number, and starts with `0` only when the number is zero.
pub proof fn lemma_decimal_text(n: nat)
    ensures
        decimal_text(n).len() >= 1,
        forall|i: int| 0 <= i < decimal_text(n).len() ==> '0' <= #[trigger] decimal_text(n)[i] <= '9',
        digits_value(decimal_text(n)) == n,
        decimal_text(n)[0] == '0' ==> n == 0,
    decreases n,
{
    if n >= 10 {
        lemma_decimal_text(n / 10);
        let p = decimal_text(n / 10);
        let s = decimal_text(n);
        assert(s.drop_last() =~= p);
        assert(s[0] == p[0]);
        assert forall|i: int| 0 <= i < s.len() implies '0' <= #[trigger] s[i] <= '9' by {
            if i < p.len() {
                assert(s[i] == p[i]);
            }
        }
        let d = n % 10;
        assert(s.last() == ((d + 48) as char));
        assert(((d + 48) as char) as nat == d + 48);
        assert(digits_value(s) == digits_value(p) * 10 + d);
        assert(n == (n / 10) * 10 + n % 10);
    } else {
        let s = decimal_text(n);
        assert(((n + 48) as char) as nat == n + 48);
        assert(s.drop_last() =~= Seq::<char>::empty());
        assert(digits_value(s) == digits_value(s.drop_last()) * 10 + n);
    }
}

/// The text of the decimal digit `d`.
fn decimal_digit(d: u64) -> (s: &'static str)
    requires
        d < 10,
    ensures
        s@ == seq![(d + 48) as char],
{
    proof {
        reveal_strlit("0");
        reveal_strlit("1");
        reveal_strlit("2");
        reveal_strlit("3");
        reveal_strlit("4");
        reveal_strlit("5");
        reveal_strlit("6");
        reveal_strlit("7");
        reveal_strlit("8");
        reveal_strlit("9");
    }
    match d {
        0 => "0",
        1 => "1",
        2 => "2",
        3 => "3",
        4 => "4",
        5 => "5",
        6 => "6",
        7 => "7",
        8 => "8",
        _ => "9",
    }
}

/// The decimal digits of `n`, as `u64::to_string` writes them.
pub(crate) fn u64_to_decimal(n: u64) -> (s: String)
    ensures
        s@ == decimal_text(n as nat),
{
    let mut m: u64 = n;
    let mut acc = String::new();
    while m >= 10
        invariant
            decimal_text(n as nat) == decimal_text(m as nat) + acc@,
        decreases m,
    {
        let d = m % 10;
        let digit = decimal_digit(d);
        let ghost c = (d + 48) as char;
        assert(decimal_text(m as nat) == decimal_text((m / 10) as nat).push(c));
        let next = String::from_str(digit).concat(acc.as_str());
        assert(decimal_text((m / 10) as nat) + next@ =~= decimal_text((m / 10) as nat).push(c)
            + acc@);
        acc = next;
        m = m / 10;
    }
    let s = String::from_str(decimal_digit(m)).concat(acc.as_str());
    assert(decimal_text(m as nat) =~= seq![(m + 48) as char]);
    s
}

/// The members of the `meta` object: the CAS as text and the version.
pub open spec fn meta_entries(cas: Seq<char>, version: u16) -> Map<Seq<char>, Value> {
    Map::empty().insert("cas"@, json_string(cas)).insert(
        "version"@,
        json_u64(version as u64),
    )
}

/// The members of an error answer.
pub open spec fn error_entries(description: Seq<char>) -> Map<Seq<char>, Value> {
    Map::empty().insert("error"@, json_string(description))
}

/// The members of the answer to a successful store or remove.
pub open spec fn meta_answer_entries(cas: u64, version: u16) -> Map<Seq<char>, Value> {
    Map::empty().insert(
        "meta"@,
        json_object(meta_entries(decimal_text(cas as nat), version)),
    )
}

/// The members of the answer to a successful get.
pub open spec fn document_answer_entries(
    cas: u64,
    version: u16,
    doc: Map<Seq<char>, Value>,
) -> Map<Seq<char>, Value> {
    meta_answer_entries(cas, version).insert("doc"@, json_object(doc))
}

/// The answer to a request the database refused: status 400, JSON, no
/// entity tag, and an object whose `error` member is the description.
pub open spec fn is_error_answer(r: WebResponse, description: Seq<char>) -> bool {
    &&& r.status == STATUS_BAD_REQUEST
    &&& r.json
    &&& r.etag is None
    &&& r.body@ == json_text(error_entries(description))
}

/// The answer to a successful request whose response carries `cas`:
/// status 200, JSON, the CAS as entity tag, and the given members.
pub open spec fn is_success_answer(
    r: WebResponse,
    cas: u64,
    entries: Map<Seq<char>, Value>,
) -> bool {
    &&& r.status == STATUS_OK
    &&& r.json
    &&& r.etag matches Some(t) && t@ == decimal_text(cas as nat)
    &&& r.body@ == json_text(entries)
}

/// The `meta` object of an answer: the CAS (as text) and the version.
pub fn get_meta(cas: &String, version: u16) -> (m: serde_json::Map<String, Value>)
    ensures
        json_object_entries(m) == meta_entries(cas@, version),
{
    let mut res = json_map_new();
    json_map_insert(&mut res, String::from_str("cas"), json_string_value(cas.clone()));
    json_map_insert(&mut res, String::from_str("version"), json_u64_value(version as u64));
    res
}

/// The object of an error answer: the description of the failure under `error`.
pub fn get_error(description: &str) -> (m: serde_json::Map<String, Value>)
    ensures
        json_object_entries(m) == error_entries(description@),
{
    let mut res = json_map_new();
    json_map_insert(&mut res, String::from_str("error"), json_string_value(String::from_str(description)));
    res
}

/// The answer to a request that the database refused, described by `description`.
pub fn error_response(description: &str) -> (r: WebResponse)
    ensures
        is_error_answer(r, description@),
{
    let body = json_to_string(&get_error(description));
    WebResponse { status: STATUS_BAD_REQUEST, json: true, etag: None, body }
}

/// The answer to a successful store or remove whose response carries
/// `cas` and `version`: the `meta` object alone.
pub fn meta_response(cas: u64, version: u16) -> (r: WebResponse)
    ensures
        is_success_answer(r, cas, meta_answer_entries(cas, version)),
{
    let cas_text = u64_to_decimal(cas);
    let mut map = json_map_new();
    json_map_insert(&mut map, String::from_str("meta"), json_object_value(get_meta(&cas_text, version)));
    let body = json_to_string(&map);
    WebResponse { status: STATUS_OK, json: true, etag: Some(cas_text), body }
}

/// The answer to a successful get: the `meta` object and, under `doc`,
/// the document `doc`.
pub fn document_response(response: &Get, doc: serde_json::Map<String, Value>) -> (r: WebResponse)
    ensures
        is_success_answer(
            r,
            response.cas,
            document_answer_entries(response.cas, response.version, json_object_entries(doc)),
        ),
{
    let cas_text = u64_to_decimal(response.cas);
    let mut map = json_map_new();
    json_map_insert(&mut map, String::from_str("meta"), json_object_value(get_meta(&cas_text, response.version)));
    json_map_insert(&mut map, String::from_str("doc"), json_object_value(doc));
    let body = json_to_string(&map);
    WebResponse { status: STATUS_OK, json: true, etag: Some(cas_text), body }
}

/// The answer to a get. On success the document is the response's value
/// read as a JSON object; `None` exactly when that value is no JSON object
/// (nothing can be answered then). On failure, the error answer with
/// `error_description`, libcouchbase's description of the status.
pub fn get_response(result: &OperationResultGet, error_description: &str) -> (r: Option<
    WebResponse,
>)
    requires
        result matches Ok(g) ==> g.value is Some,
    ensures
        match result {
            Ok(g) => match json_object_parse(g.value->0@) {
                Some(doc) => r matches Some(a) && is_success_answer(
                    a,
                    g.cas,
                    document_answer_entries(g.cas, g.version, doc),
                ),
                None => r is None,
            },
            Err(_) => r matches Some(a) && is_error_answer(a, error_description@),
        },
{
    match result {
        Ok(g) => {
            let value = match &g.value {
                Some(v) => v,
                None => {
                    return None;
                },
            };
            match json_object_from_str(value.as_str()) {
                Some(doc) => Some(document_response(g, doc)),
                None => None,
            }
        },
        Err(_) => Some(error_response(error_description)),
    }
}

/// The answer to a store: the `meta` object on success, else the error
/// answer with `error_description`.
pub fn store_response(result: &OperationResultStore, error_description: &str) -> (r: WebResponse)
    ensures
        match result {
            Ok(s) => is_success_answer(r, s.cas, meta_answer_entries(s.cas, s.version)),
            Err(_) => is_error_answer(r, error_description@),
        },
{
    match result {
        Ok(s) => meta_response(s.cas, s.version),
        Err(_) => error_response(error_description),
    }
}

/// The answer to a remove: the `meta` object on success, else the error
/// answer with `error_description`.
pub fn remove_response(result: &OperationResultRemove, error_description: &str) -> (r: WebResponse)
    ensures
        match result {
            Ok(s) => is_success_answer(r, s.cas, meta_answer_entries(s.cas, s.version)),
            Err(_) => is_error_answer(r, error_description@),
        },
{
    match result {
        Ok(s) => meta_response(s.cas, s.version),
        Err(_) => error_response(error_description),
    }
}

/// The answer to a view query: on success a plain `test` with status 200
/// and no headers, else the error answer with `error_description`.
pub fn view_query_response(result: &OperationResultViewQuery, error_description: &str) -> (r:
    WebResponse)
    ensures
        match result {
            Ok(_) => r.status == STATUS_OK && !r.json && r.etag is None && r.body@ == "test"@,
            Err(_) => is_error_answer(r, error_description@),
        },
{
    match result {
        Ok(_) => WebResponse {
            status: STATUS_OK,
            json: false,
            etag: None,
            body: String::from_str("test"),
        },
        Err(_) => error_response(error_description),
    }
}

} // verus!
