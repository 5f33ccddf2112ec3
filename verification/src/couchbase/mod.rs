//! The libcouchbase vocabulary: status codes, handle and callback kinds.

pub mod callback_type;
pub mod error;
pub mod type_t;
pub mod types;

pub use self::callback_type::LcbCallbackType;
pub use self::error::LcbErrorT;
pub use self::type_t::{LcbSt, LcbTypeT};
pub use self::types::kv_buf_type::LcbKvBufType;
pub use self::types::resp_flags::LcbRespFlags;
