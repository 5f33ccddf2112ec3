//! The data that passes between this library and libcouchbase.

pub mod cmd;
pub mod cmd_base;
pub mod create_st;
pub mod create_st3;
pub mod handle_type;
pub mod instance;
pub mod key_buffer;
pub mod kv_buf_type;
pub mod kv_buffer_type;
pub mod operation;
pub mod resp_flags;
pub mod response;
