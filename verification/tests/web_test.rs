use gauc::client::operations::{get_outcome, remove_outcome, store_outcome, view_query_outcome};
use gauc::couchbase::error::LcbErrorT;
use gauc::couchbase::types::operation::Operation;
use gauc::couchbase::types::response::{GetInternal, RemoveInternal, StoreInternal, ViewQueryInternal};
use gauc::web::response::{
    error_response, get_error, get_meta, get_response, meta_response, remove_response,
    store_response, view_query_response, STATUS_BAD_REQUEST, STATUS_OK,
};
use gauc::web::routes::{listen_address, routes, HttpMethod, RouteHandler};

fn get_internal(rc: LcbErrorT, value: &str) -> GetInternal {
    GetInternal {
        key: b"foo".to_vec(),
        cas: 123,
        rc,
        version: 1,
        rflags: 0,
        value: value.as_bytes().to_vec(),
        datatype: 0,
        itmflags: 0,
    }
}

#[test]
fn meta_object() {
    let m = get_meta(&"123".to_string(), 7);
    assert_eq!(serde_json::to_string(&m).unwrap(), "{\"cas\":\"123\",\"version\":7}");
    let e = get_error("The key does not exist");
    assert_eq!(serde_json::to_string(&e).unwrap(), "{\"error\":\"The key does not exist\"}");
}

#[test]
fn meta_answer() {
    let r = meta_response(1476585187967238144, 0);
    assert_eq!(r.status, STATUS_OK);
    assert!(r.json);
    assert_eq!(r.etag.as_deref(), Some("1476585187967238144"));
    assert_eq!(r.body, "{\"meta\":{\"cas\":\"1476585187967238144\",\"version\":0}}");
    assert_eq!(meta_response(0, 0).etag.as_deref(), Some("0"));
}

#[test]
fn error_answer_escapes_description() {
    let r = error_response("bad \"quote\"");
    assert_eq!(r.status, STATUS_BAD_REQUEST);
    assert!(r.json);
    assert_eq!(r.etag, None);
    assert_eq!(r.body, "{\"error\":\"bad \\\"quote\\\"\"}");
}

#[test]
fn get_answers() {
    let ok = get_outcome(&get_internal(LcbErrorT::LcbSuccess, "{\"msg\": \"This is test!\"}"));
    let r = get_response(&ok, "").unwrap();
    assert_eq!(r.status, 200);
    assert_eq!(r.etag.as_deref(), Some("123"));
    assert_eq!(
        r.body,
        "{\"doc\":{\"msg\":\"This is test!\"},\"meta\":{\"cas\":\"123\",\"version\":1}}"
    );
    let not_object = get_outcome(&get_internal(LcbErrorT::LcbSuccess, "[1, 2]"));
    assert!(get_response(&not_object, "").is_none());
    let missing = get_outcome(&get_internal(LcbErrorT::LcbKeyEnoent, ""));
    let r = get_response(&missing, "The key does not exist on the server").unwrap();
    assert_eq!(r.status, 400);
    assert_eq!(r.body, "{\"error\":\"The key does not exist on the server\"}");
}

#[test]
fn store_and_remove_answers() {
    let ok = StoreInternal { key: b"k".to_vec(), cas: 5, rc: LcbErrorT::LcbSuccess, version: 2, rflags: 0, operation: Operation::Upsert };
    let r = store_response(&store_outcome(&ok), "");
    assert_eq!(r.status, 200);
    assert_eq!(r.body, "{\"meta\":{\"cas\":\"5\",\"version\":2}}");
    let bad = StoreInternal { rc: LcbErrorT::LcbKeyEexists, ..ok };
    let r = store_response(&store_outcome(&bad), "The key already exists in the server.");
    assert_eq!(r.status, 400);
    assert_eq!(r.body, "{\"error\":\"The key already exists in the server.\"}");
    let gone = RemoveInternal { key: b"k".to_vec(), cas: 6, rc: LcbErrorT::LcbSuccess, version: 0, rflags: 0 };
    let r = remove_response(&remove_outcome(&gone), "");
    assert_eq!(r.etag.as_deref(), Some("6"));
    assert_eq!(r.body, "{\"meta\":{\"cas\":\"6\",\"version\":0}}");
}

#[test]
fn view_query_answers() {
    let row = ViewQueryInternal { key: b"k".to_vec(), cas: 0, rc: LcbErrorT::LcbSuccess, version: 0, rflags: 1, docid: Vec::new(), value: Vec::new(), geometry: Vec::new() };
    let r = view_query_response(&view_query_outcome(&row), "");
    assert_eq!(r.status, 200);
    assert!(!r.json);
    assert_eq!(r.body, "test");
    let failed = ViewQueryInternal { rc: LcbErrorT::LcbHttpError, ..row };
    let r = view_query_response(&view_query_outcome(&failed), "HTTP Operation failed.");
    assert_eq!(r.status, 400);
    assert_eq!(r.body, "{\"error\":\"HTTP Operation failed.\"}");
}

#[test]
fn route_table() {
    let rs = routes();
    assert_eq!(rs.len(), 10);
    assert_eq!(rs[0].method, HttpMethod::Get);
    assert_eq!(rs[0].path, "/bucket/:bucketid/doc/:docid");
    assert_eq!(rs[0].handler, RouteHandler::GetDocument);
    assert_eq!(rs[1].handler, RouteHandler::StoreDocument(Operation::Upsert));
    assert_eq!(rs[1].name, "doc_insert");
    assert_eq!(rs[5].method, HttpMethod::Delete);
    assert_eq!(rs[5].handler, RouteHandler::RemoveDocument);
    assert_eq!(rs[7].path, "/bucket/:bucketid/doc/:docid/set");
    assert_eq!(rs[7].handler, RouteHandler::StoreDocument(Operation::SetItem));
    assert_eq!(rs[9].path, "/bucket/:bucketid/view/:ddoc/:view");
    assert_eq!(rs[9].handler, RouteHandler::ViewQuery);
    assert_eq!(listen_address(5000), "0.0.0.0:5000");
    assert_eq!(listen_address(0), "0.0.0.0:0");
    assert_eq!(listen_address(65535), "0.0.0.0:65535");
    assert_eq!(listen_address(10), "0.0.0.0:10");
}
