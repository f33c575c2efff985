//! Library-side representations of Discord data and of the actions a bot performs.

pub mod actions;
pub mod types;
