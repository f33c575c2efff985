//! Cache backends shipped with the library.

pub mod inmemory;
