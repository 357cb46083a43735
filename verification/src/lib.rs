//! A size-bounded cache between a text measurement engine and a vector-path
//! encoding pipeline.

pub mod encoding;
pub mod key;
pub mod store;
pub mod cache;
pub mod laws;
