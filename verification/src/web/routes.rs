//! The routes of the REST interface and where it listens.

use vstd::prelude::*;

use super::response::{decimal_text, u64_to_decimal};
use crate::couchbase::types::operation::Operation;

verus! {

/// The HTTP method of a route.
#[derive(Debug, Clone, Copy, PartialEq, Eq, Structural)]
pub enum HttpMethod {
    Get,
    Post,
    Delete,
}

/// What answers a route.
#[derive(Debug, Clone, Copy, PartialEq, Eq, Structural)]
pub enum RouteHandler {
    /// Get the document `:docid`.
    GetDocument,
    /// Remove the document `:docid`.
    RemoveDocument,
    /// Store the request body as the document `:docid`, in this mode.
    StoreDocument(Operation),
    /// Query the view `:view` of the design document `:ddoc`.
    ViewQuery,
}

/// A route: method, path pattern, handler and the route's name.
#[derive(Debug)]
pub struct Route {
    pub method: HttpMethod,
    pub path: &'static str,
    pub handler: RouteHandler,
    pub name: &'static str,
}

/// A route as plain values.
pub open spec fn route_view(r: Route) -> (HttpMethod, Seq<char>, RouteHandler, Seq<char>) {
    (r.method, r.path@, r.handler, r.name@)
}

/// The route table of the REST interface, in the order it is set up.
pub open spec fn route_table() -> Seq<(HttpMethod, Seq<char>, RouteHandler, Seq<char>)> {
    seq![
        (HttpMethod::Get, "/bucket/:bucketid/doc/:docid"@, RouteHandler::GetDocument, "doc_get"@),
        (HttpMethod::Post, "/bucket/:bucketid/doc/:docid"@, RouteHandler::StoreDocument(Operation::Upsert), "doc_insert"@),
        (HttpMethod::Post, "/bucket/:bucketid/doc/:docid/add"@, RouteHandler::StoreDocument(Operation::Add), "doc_add"@),
        (HttpMethod::Post, "/bucket/:bucketid/doc/:docid/append"@, RouteHandler::StoreDocument(Operation::Append), "doc_append"@),
        (HttpMethod::Post, "/bucket/:bucketid/doc/:docid/prepend"@, RouteHandler::StoreDocument(Operation::Prepend), "doc_prepend"@),
        (HttpMethod::Delete, "/bucket/:bucketid/doc/:docid"@, RouteHandler::RemoveDocument, "doc_remove"@),
        (HttpMethod::Post, "/bucket/:bucketid/doc/:docid/replace"@, RouteHandler::StoreDocument(Operation::Replace), "doc_replace"@),
        (HttpMethod::Post, "/bucket/:bucketid/doc/:docid/set"@, RouteHandler::StoreDocument(Operation::SetItem), "doc_set"@),
        (HttpMethod::Post, "/bucket/:bucketid/doc/:docid/upsert"@, RouteHandler::StoreDocument(Operation::Upsert), "doc_upsert"@),
        (HttpMethod::Get, "/bucket/:bucketid/view/:ddoc/:view"@, RouteHandler::ViewQuery, "view_query"@),
    ]
}

/// The path of a document.
pub open spec fn document_path() -> Seq<char> {
    "/bucket/:bucketid/doc/:docid"@
}

/// The path of a view of a design document.
pub open spec fn view_path() -> Seq<char> {
    "/bucket/:bucketid/view/:ddoc/:view"@
}

/// The word that names a storage mode at the end of a path.
pub open spec fn mode_word(op: Operation) -> Seq<char> {
    match op {
        Operation::Upsert => "upsert"@,
        Operation::Add => "add"@,
        Operation::Replace => "replace"@,
        Operation::SetItem => "set"@,
        Operation::Append => "append"@,
        Operation::Prepend => "prepend"@,
    }
}

/// The path that stores a document in mode `op`: the document's path, a
/// slash and the mode's word.
pub open spec fn mode_path(op: Operation) -> Seq<char> {
    document_path() + "/"@ + mode_word(op)
}

/// What the REST interface promises of its routes:
/// - a POST to the path of a mode stores in that mode, and there is one;
/// - a POST to the document's path stores in the default mode;
/// - a document is got with GET and removed with DELETE at its own path,
///   the same path for both, and only there;
/// - a view is queried with GET at the view path, and only there;
/// - every store route is a POST to the document's path or to the path of
///   its mode.
pub open spec fn routes_follow_paths(t: Seq<(HttpMethod, Seq<char>, RouteHandler, Seq<char>)>) -> bool {
    &&& forall|op: Operation, i: int|
        0 <= i < t.len() && t[i].0 == HttpMethod::Post && t[i].1 == mode_path(op) ==> t[i].2
            == RouteHandler::StoreDocument(op)
    &&& forall|op: Operation|
        #![trigger mode_path(op)]
        exists|i: int|
            #![trigger t[i]]
            0 <= i < t.len() && t[i].0 == HttpMethod::Post && t[i].1 == mode_path(op)
    &&& forall|i: int|
        0 <= i < t.len() && t[i].0 == HttpMethod::Post && t[i].1 == document_path() ==> t[i].2
            == RouteHandler::StoreDocument(Operation::Upsert)
    &&& forall|i: int|
        0 <= i < t.len() && t[i].2 == RouteHandler::GetDocument ==> t[i].0 == HttpMethod::Get
            && t[i].1 == document_path()
    &&& forall|i: int|
        0 <= i < t.len() && t[i].2 == RouteHandler::RemoveDocument ==> t[i].0
            == HttpMethod::Delete && t[i].1 == document_path()
    &&& forall|i: int|
        0 <= i < t.len() && t[i].2 == RouteHandler::ViewQuery ==> t[i].0 == HttpMethod::Get
            && t[i].1 == view_path()
    &&& forall|i: int, op: Operation|
        0 <= i < t.len() && t[i].2 == RouteHandler::StoreDocument(op) ==> t[i].0
            == HttpMethod::Post && (t[i].1 == document_path() || t[i].1 == mode_path(op))
    &&& exists|i: int| 0 <= i < t.len() && t[i].2 == RouteHandler::GetDocument
    &&& exists|i: int| 0 <= i < t.len() && t[i].2 == RouteHandler::RemoveDocument
    &&& exists|i: int| 0 <= i < t.len() && t[i].2 == RouteHandler::ViewQuery
}

/// The route table keeps the promises of `routes_follow_paths`.
pub proof fn lemma_routes_follow_paths()
    ensures
        routes_follow_paths(route_table()),
{
    reveal_strlit("/bucket/:bucketid/doc/:docid");
    reveal_strlit("/bucket/:bucketid/doc/:docid/add");
    reveal_strlit("/bucket/:bucketid/doc/:docid/append");
    reveal_strlit("/bucket/:bucketid/doc/:docid/prepend");
    reveal_strlit("/bucket/:bucketid/doc/:docid/replace");
    reveal_strlit("/bucket/:bucketid/doc/:docid/set");
    reveal_strlit("/bucket/:bucketid/doc/:docid/upsert");
    reveal_strlit("/bucket/:bucketid/view/:ddoc/:view");
    reveal_strlit("/");
    reveal_strlit("upsert");
    reveal_strlit("add");
    reveal_strlit("replace");
    reveal_strlit("set");
    reveal_strlit("append");
    reveal_strlit("prepend");
    let t = route_table();
    assert(mode_path(Operation::Add) =~= t[2].1);
    assert(mode_path(Operation::Append) =~= t[3].1);
    assert(mode_path(Operation::Prepend) =~= t[4].1);
    assert(mode_path(Operation::Replace) =~= t[6].1);
    assert(mode_path(Operation::SetItem) =~= t[7].1);
    assert(mode_path(Operation::Upsert) =~= t[8].1);
    assert(t[0].1 =~= document_path());
    assert(t[9].1 =~= view_path());
    assert forall|op: Operation, i: int|
        0 <= i < t.len() && t[i].0 == HttpMethod::Post && t[i].1 == mode_path(
            op,
        ) implies t[i].2 == RouteHandler::StoreDocument(op) by {
        let p = mode_path(op);
        assert(p[29] == t[i].1[29]);
        assert(p[30] == t[i].1[30]);
        assert(p.len() == t[i].1.len());
    }
    assert forall|op: Operation|
        #![trigger mode_path(op)]
        exists|i: int|
            #![trigger t[i]]
            0 <= i < t.len() && t[i].0 == HttpMethod::Post && t[i].1 == mode_path(op) by {
        match op {
            Operation::Add => assert(t[2].1 == mode_path(op)),
            Operation::Append => assert(t[3].1 == mode_path(op)),
            Operation::Prepend => assert(t[4].1 == mode_path(op)),
            Operation::Replace => assert(t[6].1 == mode_path(op)),
            Operation::SetItem => assert(t[7].1 == mode_path(op)),
            Operation::Upsert => assert(t[8].1 == mode_path(op)),
        }
    }
    assert forall|i: int|
        0 <= i < t.len() && t[i].0 == HttpMethod::Post && t[i].1
            == document_path() implies t[i].2 == RouteHandler::StoreDocument(Operation::Upsert) by {
        assert(t[i].1.len() == document_path().len());
    }
    assert forall|i: int, op: Operation|
        0 <= i < t.len() && t[i].2 == RouteHandler::StoreDocument(op) implies t[i].0
        == HttpMethod::Post && (t[i].1 == document_path() || t[i].1 == mode_path(op)) by {
    }
    assert(t[0].2 == RouteHandler::GetDocument);
    assert(t[5].2 == RouteHandler::RemoveDocument);
    assert(t[9].2 == RouteHandler::ViewQuery);
}

/// The routes of the REST interface (see `route_table`).
pub fn routes() -> (v: Vec<Route>)
    ensures
        v@.map_values(|r: Route| route_view(r)) == route_table(),
        routes_follow_paths(v@.map_values(|r: Route| route_view(r))),
{
    let mut v: Vec<Route> = Vec::new();
    v.push(Route { method: HttpMethod::Get, path: "/bucket/:bucketid/doc/:docid", handler: RouteHandler::GetDocument, name: "doc_get" });
    v.push(Route { method: HttpMethod::Post, path: "/bucket/:bucketid/doc/:docid", handler: RouteHandler::StoreDocument(Operation::Upsert), name: "doc_insert" });
    v.push(Route { method: HttpMethod::Post, path: "/bucket/:bucketid/doc/:docid/add", handler: RouteHandler::StoreDocument(Operation::Add), name: "doc_add" });
    v.push(Route { method: HttpMethod::Post, path: "/bucket/:bucketid/doc/:docid/append", handler: RouteHandler::StoreDocument(Operation::Append), name: "doc_append" });
    v.push(Route { method: HttpMethod::Post, path: "/bucket/:bucketid/doc/:docid/prepend", handler: RouteHandler::StoreDocument(Operation::Prepend), name: "doc_prepend" });
    v.push(Route { method: HttpMethod::Delete, path: "/bucket/:bucketid/doc/:docid", handler: RouteHandler::RemoveDocument, name: "doc_remove" });
    v.push(Route { method: HttpMethod::Post, path: "/bucket/:bucketid/doc/:docid/replace", handler: RouteHandler::StoreDocument(Operation::Replace), name: "doc_replace" });
    v.push(Route { method: HttpMethod::Post, path: "/bucket/:bucketid/doc/:docid/set", handler: RouteHandler::StoreDocument(Operation::SetItem), name: "doc_set" });
    v.push(Route { method: HttpMethod::Post, path: "/bucket/:bucketid/doc/:docid/upsert", handler: RouteHandler::StoreDocument(Operation::Upsert), name: "doc_upsert" });
    v.push(Route { method: HttpMethod::Get, path: "/bucket/:bucketid/view/:ddoc/:view", handler: RouteHandler::ViewQuery, name: "view_query" });
    assert(v@.map_values(|r: Route| route_view(r)) =~= route_table());
    proof {
        lemma_routes_follow_paths();
    }
    v
}

/// The address the REST interface listens on: every interface, at `port`.
pub fn listen_address(port: u16) -> (a: String)
    ensures
        a@ == "0.0.0.0:"@ + decimal_text(port as nat),
{
    let a = String::from_str("0.0.0.0:");
    a.concat(u64_to_decimal(port as u64).as_str())
}

} // verus!
