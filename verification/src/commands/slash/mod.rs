//! Slash commands.

pub mod arguments;
pub mod localizations;
