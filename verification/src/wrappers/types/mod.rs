//! Discord entity types held by the library.

pub mod channels;
pub mod members;
pub mod roles;
pub mod servers;
pub mod users;
