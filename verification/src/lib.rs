//! Verified core of the dyncord Discord bot framework: slash-command argument
//! metadata, the in-memory cache backend, Discord entity types, reaction emoji
//! parsing, message and interaction builders, and the cache-first lookup
//! protocol that bot handles follow.

pub mod builtin;
pub mod commands;
pub mod handle;
pub mod state;
pub mod wrappers;
