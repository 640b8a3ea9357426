//! A small file server: each request names a verb and a path, and is answered
//! by one file operation on the path and exactly one response.

pub mod message;
pub mod ops;
pub mod store;
pub mod handler;
pub mod laws;
pub mod greeting;
pub mod seconds;
