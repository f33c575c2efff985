//! Role types.

use vstd::prelude::*;

verus! {

/// A Discord role.
pub struct Role {
    /// The role's ID.
    pub id: u64,
}

} // verus!
