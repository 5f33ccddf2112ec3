use gauc::client::client2::{get_request, quit_request, worker_continues, Proxy, Request, RequestType};
use gauc::client::connect::{
    client_callback_types, client_connect_step, connect_error_message, worker_callback_types,
    worker_connect_step, ConnectStage, ConnectStep,
};
use gauc::couchbase::error::LcbErrorT;
use gauc::couchbase::LcbCallbackType;

use std::sync::mpsc;
use std::sync::{Arc, Mutex};

fn run_client(rcs: &[LcbErrorT]) -> ConnectStep {
    let mut stage = ConnectStage::Create;
    for rc in rcs {
        match client_connect_step(stage, *rc) {
            ConnectStep::Next(s) => stage = s,
            other => return other,
        }
    }
    ConnectStep::Next(stage)
}

#[test]
fn client_connects_when_every_call_succeeds() {
    let ok = LcbErrorT::LcbSuccess;
    assert_eq!(run_client(&[ok, ok, ok, ok, ok]), ConnectStep::Ready);
    assert_eq!(run_client(&[ok, ok, LcbErrorT::LcbEinval, ok, ok]), ConnectStep::Ready);
}

#[test]
fn client_fails_at_first_failing_call() {
    let ok = LcbErrorT::LcbSuccess;
    let bad = LcbErrorT::LcbConnectError;
    assert_eq!(run_client(&[bad, ok, ok, ok, ok]), ConnectStep::Failed(ConnectStage::Create));
    assert_eq!(run_client(&[ok, bad, ok, ok, ok]), ConnectStep::Failed(ConnectStage::Connect));
    assert_eq!(run_client(&[ok, ok, ok, bad, ok]), ConnectStep::Failed(ConnectStage::Wait));
    assert_eq!(
        run_client(&[ok, ok, ok, ok, bad]),
        ConnectStep::Failed(ConnectStage::BootstrapStatus)
    );
}

#[test]
fn worker_only_gives_up_on_bootstrap() {
    let bad = LcbErrorT::LcbNetworkError;
    let ok = LcbErrorT::LcbSuccess;
    assert_eq!(worker_connect_step(ConnectStage::Create, bad), ConnectStep::Next(ConnectStage::Connect));
    assert_eq!(worker_connect_step(ConnectStage::Connect, bad), ConnectStep::Next(ConnectStage::Wait));
    assert_eq!(worker_connect_step(ConnectStage::Wait, bad), ConnectStep::Next(ConnectStage::BootstrapStatus));
    assert_eq!(worker_connect_step(ConnectStage::BootstrapStatus, ok), ConnectStep::Ready);
    assert_eq!(
        worker_connect_step(ConnectStage::BootstrapStatus, bad),
        ConnectStep::Failed(ConnectStage::BootstrapStatus)
    );
}

#[test]
fn connect_failure_messages() {
    assert_eq!(
        connect_error_message(ConnectStage::Create, "Invalid input/arguments"),
        "lcb_create() - Invalid input/arguments"
    );
    assert_eq!(
        connect_error_message(ConnectStage::BootstrapStatus, "Operation timed out"),
        "lcb_get_bootstrap_status() - Operation timed out"
    );
    assert_eq!(ConnectStage::Wait.function_name(), "lcb_wait");
    assert_eq!(ConnectStage::Configure.function_name(), "lcb_cntl_string");
}

#[test]
fn installed_callbacks() {
    assert_eq!(
        client_callback_types(),
        vec![
            LcbCallbackType::LcbCallbackGet,
            LcbCallbackType::LcbCallbackRemove,
            LcbCallbackType::LcbCallbackStore
        ]
    );
    assert_eq!(
        worker_callback_types(),
        vec![LcbCallbackType::LcbCallbackGet, LcbCallbackType::LcbCallbackStore]
    );
}

#[test]
fn worker_stops_on_quit() {
    assert!(worker_continues(&Request::new(RequestType::Get)));
    assert!(worker_continues(&Request::new(RequestType::Store)));
    assert!(!worker_continues(&Request::new(RequestType::Quit)));
}

#[test]
fn proxy_sends_requests() {
    let (tx, rx) = mpsc::channel();
    let proxy = Proxy::new(Arc::new(Mutex::new(tx)));
    assert_eq!(proxy.get("foo"), "foo");
    proxy.quit();
    assert_eq!(rx.recv().unwrap().typ, RequestType::Get);
    assert_eq!(rx.recv().unwrap().typ, RequestType::Quit);
}

#[test]
fn proxy_requests() {
    assert_eq!(get_request().typ, RequestType::Get);
    assert_eq!(quit_request().typ, RequestType::Quit);
}

