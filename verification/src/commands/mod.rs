//! Command metadata and argument handling.

pub mod slash;
