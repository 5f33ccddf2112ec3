//! The Couchbase client: what it sends to libcouchbase and what it reports.

pub mod channel;
pub mod client2;
pub mod connect;
pub mod operations;

pub use self::client2::{Client2, CouchbaseClient, Proxy, Request, RequestType};
