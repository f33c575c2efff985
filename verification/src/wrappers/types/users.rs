//! User types.

use vstd::prelude::*;

verus! {

/// A Discord user.
pub struct User {
    /// The user's ID.
    pub id: u64,

    /// The user's unique name.
    pub name: String,
}

impl Clone for User {
    fn clone(&self) -> (copy: Self)
        ensures
            copy == *self,
    {
        User { id: self.id, name: self.name.clone() }
    }
}

} // verus!
