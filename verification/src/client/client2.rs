//! Requests to a worker that owns a libcouchbase handle, and the proxy that sends them.

use std::sync::mpsc::{Receiver, Sender};
use std::sync::{Arc, Mutex};

use vstd::prelude::*;

use super::channel::{lock_sender, mutex_new, request_channel, send_on};

verus! {

/// Type of libcouchbase Request.
#[derive(Debug, Clone, Copy, PartialEq, Eq, Structural)]
pub enum RequestType {
    Quit,
    Get,
    Store,
}

/// Request instance.
#[derive(Debug, Clone, Copy, PartialEq, Eq, Structural)]
pub struct Request {
    pub typ: RequestType,
}

impl Request {
    /// A request of the given type.
    pub fn new(typ: RequestType) -> (r: Request)
        ensures
            r.typ == typ,
    {
        Request { typ: typ }
    }
}

/// Whether a worker keeps receiving after handling `request`: it stops on
/// exactly the `Quit` request.
pub fn worker_continues(request: &Request) -> (b: bool)
    ensures
        b == (request.typ != RequestType::Quit),
{
    match request.typ {
        RequestType::Quit => false,
        _ => true,
    }
}

/// The request that asks a worker for a document.
pub fn get_request() -> (r: Request)
    ensures
        r.typ == RequestType::Get,
{
    Request::new(RequestType::Get)
}

/// The request that asks a worker to stop.
pub fn quit_request() -> (r: Request)
    ensures
        r.typ == RequestType::Quit,
{
    Request::new(RequestType::Quit)
}

/// Sends `request` on `tx`, unless the lock around the sender is poisoned.
fn send_request(tx: &Arc<Mutex<Sender<Request>>>, request: Request) {
    match lock_sender(tx) {
        Some(guard) => send_on(&guard, request),
        None => {},
    }
}

/// The sending side of a worker's request channel.
pub struct Proxy {
    pub tx: Arc<Mutex<Sender<Request>>>,
}

impl Proxy {
    /// A proxy that sends on `tx`.
    pub fn new(tx: Arc<Mutex<Sender<Request>>>) -> (p: Proxy)
        ensures
            p.tx == tx,
    {
        Proxy { tx: tx }
    }

    /// Asks the worker for the document `docid` (sends `get_request()`,
    /// unless the lock is poisoned) and returns that id.
    pub fn get(&self, docid: &str) -> (s: String)
        ensures
            s@ == docid@,
    {
        send_request(&self.tx, get_request());
        docid.to_owned()
    }

    /// Asks the worker to stop (sends `quit_request()`, unless the lock is
    /// poisoned).
    pub fn quit(&self) {
        send_request(&self.tx, quit_request());
    }
}

/// The operations a Couchbase client offers.
pub trait CouchbaseClient {
    /// Fetches the document `docid`.
    fn get(&self, docid: &str);

    /// Stores `value` as the document `docid`.
    fn store(&self, docid: &str, value: &str);
}

/// A client that owns both ends of a request channel.
pub struct Client2 {
    tx: Arc<Mutex<Sender<Request>>>,
    rx: Arc<Mutex<Receiver<Request>>>,
}

impl Client2 {
    /// A client with a fresh request channel.
    pub fn new() -> Client2 {
        let (tx, rx) = request_channel();
        let safe_rx = Arc::new(mutex_new(rx));
        let safe_tx = Arc::new(mutex_new(tx));
        Client2 { tx: safe_tx, rx: safe_rx }
    }
}

impl CouchbaseClient for Client2 {
    /// Does nothing yet.
    fn get(&self, _docid: &str) {
    }

    /// Does nothing yet.
    fn store(&self, _docid: &str, _value: &str) {
    }
}

} // verus!
