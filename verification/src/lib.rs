//! A client library for Couchbase built around libcouchbase.

pub mod cli;
pub mod client;
pub mod couchbase;
pub mod web;
