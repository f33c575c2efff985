//! Custom state types that can be used across a bot instance.
//!
//! A bot's state is cloned and sent across threads constantly, so it must be
//! `Clone + Send + Sync + 'static`. It is common to wrap such state in an
//! `Arc` to make cloning cheap.

use vstd::prelude::*;

verus! {

/// Defines the boundaries for the state that can be used in a bot instance.
pub trait StateBound: Clone + Send + Sync + 'static {

}

impl<T> StateBound for T where T: Clone + Send + Sync + 'static {

}

} // verus!
