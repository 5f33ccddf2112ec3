//! The REST interface: its routes and what each request is answered with.

pub mod json;
pub mod response;
pub mod routes;
