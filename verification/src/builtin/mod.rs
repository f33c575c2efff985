//! Built-in implementations of cache backends.

pub mod cache;
