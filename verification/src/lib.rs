//! Request resolution for a read-only gateway that serves a static site out of
//! a bucket-style object store.
//!
//! The crate holds the decisions of one request and proves them: how a request
//! path becomes an object key that stays inside the bucket's namespace, which
//! content type a key is served with, and which HTTP response answers each
//! outcome of the fetch. Talking to the store and to HTTP clients is left to
//! the program around it.

pub mod content_type;
pub mod errors;
pub mod handler;
pub mod path;
pub mod text;
