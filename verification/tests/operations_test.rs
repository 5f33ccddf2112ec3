use gauc::client::operations::{
    get_command, get_outcome, remove_command, remove_outcome, store_command, store_outcome,
    view_query_command, view_query_outcome, view_row_delivered, VIEW_QUERY_INCLUDE_DOCS,
};
use gauc::couchbase::error::LcbErrorT;
use gauc::couchbase::types::cmd;
use gauc::couchbase::types::create_st::CreateSt;
use gauc::couchbase::types::handle_type::HandleType;
use gauc::couchbase::types::instance::InstancePtr;
use gauc::couchbase::types::kv_buffer_type::KvBufferType;
use gauc::couchbase::types::operation::Operation;
use gauc::couchbase::types::response::{
    Get, GetInternal, Remove, RemoveInternal, StoreInternal, ViewQueryInternal,
};

fn get_internal(rc: LcbErrorT) -> GetInternal {
    GetInternal {
        key: b"foo".to_vec(),
        cas: 1476585187967238144,
        rc,
        version: 0,
        rflags: 1,
        value: "{\"msg\": \"This is test!\"}".as_bytes().to_vec(),
        datatype: 0,
        itmflags: 0,
    }
}

#[test]
fn get_command_copies_key() {
    let c = get_command("foo", 7);
    assert_eq!(c.cas, 7);
    assert_eq!(c.key._type, KvBufferType::Copy);
    assert_eq!(c.key.contig.bytes, b"foo".to_vec());
    assert_eq!(c.key.contig.nbytes, 3);
    assert_eq!(c.hashkey.contig.nbytes, 0);
    assert_eq!(c.lock, 0);
    assert_eq!(c.cmdflags, 0);
}

#[test]
fn key_buffer_counts_utf8_bytes() {
    let c = get_command("žluť", 0);
    assert_eq!(c.key.contig.bytes, "žluť".as_bytes().to_vec());
    assert_eq!(c.key.contig.nbytes, 6);
}

#[test]
fn remove_command_has_no_cas() {
    let c: cmd::Remove = remove_command("doc");
    assert_eq!(c.cas, 0);
    assert_eq!(c.key.contig.bytes, b"doc".to_vec());
    assert_eq!(c.key.contig.nbytes, 3);
}

#[test]
fn store_command_fields() {
    let c = store_command("k", "value!", Operation::Append, 42, 60);
    assert_eq!(c.cas, 42);
    assert_eq!(c.exptime, 60);
    assert_eq!(c.operation, Operation::Append);
    assert_eq!(c.key.contig.bytes, b"k".to_vec());
    assert_eq!(c.value.contig.bytes, b"value!".to_vec());
    assert_eq!(c.value.contig.nbytes, 6);
    assert_eq!(c.value._type, KvBufferType::Copy);
    assert_eq!(c.flags, 0);
    assert_eq!(c.datatype, 0);
}

#[test]
fn view_query_command_includes_docs() {
    let c = view_query_command("dev_ddoc", "by_name");
    assert_eq!(c.cmdflags, VIEW_QUERY_INCLUDE_DOCS);
    assert_eq!(c.cmdflags, 1 << 16);
    assert_eq!(c.ddoc, b"dev_ddoc".to_vec());
    assert_eq!(c.nddoc, 8);
    assert_eq!(c.view, b"by_name".to_vec());
    assert_eq!(c.nview, 7);
    assert_eq!(c.noptstr, 0);
    assert_eq!(c.npostdata, 0);
}

#[test]
fn zeroed_commands() {
    let s = cmd::Store::default();
    assert_eq!(s.operation, Operation::Upsert);
    assert_eq!(s.cas, 0);
    assert_eq!(s.key.contig.nbytes, 0);
    let g = cmd::Get::default();
    assert_eq!(g.lock, 0);
    let b = cmd::Base::default();
    assert_eq!(b.exptime, 0);
}

#[test]
fn get_success_carries_text() {
    let internal = get_internal(LcbErrorT::LcbSuccess);
    match get_outcome(&internal) {
        Ok(g) => {
            assert_eq!(g.key.as_deref(), Some("foo"));
            assert_eq!(g.value.as_deref(), Some("{\"msg\": \"This is test!\"}"));
            assert_eq!(g.cas, 1476585187967238144);
            assert_eq!(g.rc, LcbErrorT::LcbSuccess);
            assert_eq!(g.rflags, 1);
        }
        Err(_) => panic!("expected success"),
    }
}

#[test]
fn get_failure_carries_response_and_status() {
    let internal = get_internal(LcbErrorT::LcbKeyEnoent);
    match get_outcome(&internal) {
        Ok(_) => panic!("expected failure"),
        Err((resp, rc)) => {
            assert_eq!(rc, LcbErrorT::LcbKeyEnoent);
            let g: Get = resp.unwrap();
            assert_eq!(g.key, None);
            assert_eq!(g.value, None);
            assert_eq!(g.rc, LcbErrorT::LcbKeyEnoent);
            assert_eq!(g.cas, 1476585187967238144);
        }
    }
}

#[test]
fn failed_response_is_not_decoded() {
    let mut internal = get_internal(LcbErrorT::LcbEtimedout);
    internal.key = vec![0xff, 0xfe];
    internal.value = vec![0xc0];
    assert_eq!(internal.key(), None);
    assert_eq!(internal.value(), None);
}

#[test]
fn utf8_text_is_decoded() {
    let mut internal = get_internal(LcbErrorT::LcbSuccess);
    internal.key = "klíč".as_bytes().to_vec();
    assert_eq!(internal.key().as_deref(), Some("klíč"));
}

#[test]
fn remove_outcomes() {
    let ok = RemoveInternal { key: b"gone".to_vec(), cas: 9, rc: LcbErrorT::LcbSuccess, version: 0, rflags: 0 };
    let r: Remove = remove_outcome(&ok).unwrap();
    assert_eq!(r.key.as_deref(), Some("gone"));
    assert_eq!(r.cas, 9);
    let bad = RemoveInternal { key: b"gone".to_vec(), cas: 0, rc: LcbErrorT::LcbKeyEnoent, version: 0, rflags: 0 };
    match remove_outcome(&bad) {
        Err((Some(r), LcbErrorT::LcbKeyEnoent)) => assert_eq!(r.key, None),
        _ => panic!("expected the refused remove"),
    }
}

#[test]
fn store_outcomes() {
    let ok = StoreInternal {
        key: b"k".to_vec(),
        cas: 11,
        rc: LcbErrorT::LcbSuccess,
        version: 2,
        rflags: 0,
        operation: Operation::Add,
    };
    let s = store_outcome(&ok).unwrap();
    assert_eq!(s.cas, 11);
    assert_eq!(s.version, 2);
    assert_eq!(s.operation, Operation::Add);
    let exists = StoreInternal { rc: LcbErrorT::LcbKeyEexists, ..ok };
    match store_outcome(&exists) {
        Err((Some(s), rc)) => {
            assert_eq!(rc, LcbErrorT::LcbKeyEexists);
            assert_eq!(s.key, None);
        }
        _ => panic!("expected the refused store"),
    }
}

#[test]
fn view_rows() {
    let row = ViewQueryInternal {
        key: b"\"a\"".to_vec(),
        cas: 0,
        rc: LcbErrorT::LcbSuccess,
        version: 0,
        rflags: 1,
        docid: b"doc1".to_vec(),
        value: b"null".to_vec(),
        geometry: Vec::new(),
    };
    assert!(view_row_delivered(&row));
    assert_eq!(row.docid().as_deref(), Some("doc1"));
    assert_eq!(row.geometry().as_deref(), Some(""));
    let q = view_query_outcome(&row).unwrap();
    assert_eq!(q.key.as_deref(), Some("\"a\""));
    assert_eq!(q.value.as_deref(), Some("null"));
    let not_final = ViewQueryInternal { rflags: 0, ..row.clone() };
    assert!(!view_row_delivered(&not_final));
    let final_and_more = ViewQueryInternal { rflags: 3, ..row.clone() };
    assert!(!view_row_delivered(&final_and_more));
    let failed = ViewQueryInternal { rc: LcbErrorT::LcbHttpError, ..row };
    assert!(view_query_outcome(&failed).is_err());
}

#[test]
fn creation_options() {
    let opts = CreateSt::default();
    assert_eq!(opts.version(), 3);
    assert!(opts.v3.connstr.is_none());
    let opts = CreateSt::for_connection("couchbase://localhost/default");
    assert_eq!(opts.version(), 3);
    assert_eq!(opts.v3.connstr.as_deref(), Some("couchbase://localhost/default"));
    assert_eq!(opts.v3._type, HandleType::Bucket);
    let p = InstancePtr::default();
    assert_eq!(p.address(), 0);
    assert_eq!(InstancePtr::from_address(4096).address(), 4096);
}
