//! Commands sent to libcouchbase.

pub mod base;
pub mod get;
pub mod store;
pub mod view_query;

pub use self::base::{Base, Remove};
pub use self::get::Get;
pub use self::store::Store;
pub use self::view_query::ViewQuery;
