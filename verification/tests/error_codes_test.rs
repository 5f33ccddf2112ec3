use gauc::couchbase::error::LcbErrorT;
use gauc::couchbase::types::operation::Operation;
use gauc::couchbase::LcbCallbackType;
use gauc::couchbase::types::handle_type::HandleType;
use gauc::couchbase::types::kv_buffer_type::KvBufferType;
use gauc::couchbase::types::response::Flags;
use gauc::couchbase::{LcbKvBufType, LcbRespFlags, LcbTypeT};

#[test]
fn error_codes_match_libcouchbase() {
    assert_eq!(LcbErrorT::LcbSuccess.code(), 0);
    assert_eq!(LcbErrorT::LcbKeyEnoent.code(), 13);
    assert_eq!(LcbErrorT::LcbQueryError.code(), 79);
    assert_eq!(LcbErrorT::LcbMaxError.code(), 4096);
}

#[test]
fn error_code_roundtrip_for_every_code() {
    let mut known = 0;
    for code in 0u32..5000 {
        if let Some(e) = LcbErrorT::from_code(code) {
            assert_eq!(e.code(), code);
            known += 1;
        }
    }
    assert_eq!(known, 81);
    assert_eq!(LcbErrorT::from_code(80), None);
    assert_eq!(LcbErrorT::from_code(4097), None);
    assert_eq!(LcbErrorT::from_code(4096), Some(LcbErrorT::LcbMaxError));
}

#[test]
fn error_name_is_debug_text() {
    for code in 0u32..5000 {
        if let Some(e) = LcbErrorT::from_code(code) {
            assert_eq!(e.name(), format!("{:?}", e));
        }
    }
}

#[test]
fn error_display_text() {
    let e = LcbErrorT::LcbKeyEnoent;
    assert_eq!(
        e.fmt_with_description("The key does not exist on the server"),
        "The key does not exist on the server (LcbKeyEnoent)"
    );
    assert!(LcbErrorT::LcbSuccess.is_success());
    assert!(!LcbErrorT::LcbEtimedout.is_success());
}

#[test]
fn operation_codes_roundtrip() {
    let all = [
        Operation::Upsert,
        Operation::Add,
        Operation::Replace,
        Operation::SetItem,
        Operation::Append,
        Operation::Prepend,
    ];
    for (i, op) in all.iter().enumerate() {
        assert_eq!(op.code(), i as u32);
        assert_eq!(Operation::from_code(i as u32), Some(*op));
    }
    assert_eq!(Operation::from_code(6), None);
}

#[test]
fn callback_type_codes_roundtrip() {
    assert_eq!(LcbCallbackType::LcbCallbackGet.code(), 1);
    assert_eq!(LcbCallbackType::LcbCallbackStore.code(), 2);
    assert_eq!(LcbCallbackType::LcbCallbackRemove.code(), 5);
    assert_eq!(LcbCallbackType::LcbCallbackMax.code(), 20);
    for code in 0u32..=20 {
        assert_eq!(LcbCallbackType::from_code(code).unwrap().code(), code);
    }
    assert_eq!(LcbCallbackType::from_code(21), None);
}

#[test]
fn flag_and_buffer_codes() {
    assert_eq!(Flags::Final.code(), 1);
    assert_eq!(Flags::Sdsingle.code(), 16);
    assert_eq!(LcbRespFlags::LcbRespFExtdata.code(), 8);
    assert_eq!(KvBufferType::Copy.code(), 0);
    assert_eq!(KvBufferType::Iovcopy.code(), 4);
    assert_eq!(LcbKvBufType::LcbKvVbid.code(), 3);
    assert_eq!(HandleType::Cluster.code(), 1);
    assert_eq!(LcbTypeT::LcbTypeBucket.code(), 0);
}
