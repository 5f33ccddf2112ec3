//! Responses delivered by libcouchbase.

pub mod flags;
pub mod get;
pub mod remove;
pub mod store;
pub mod text;
pub mod view_query;

pub use self::flags::Flags;
pub use self::get::{Get, GetInternal};
pub use self::remove::{Remove, RemoveInternal};
pub use self::store::{Store, StoreInternal};
pub use self::view_query::{ViewQuery, ViewQueryInternal};
