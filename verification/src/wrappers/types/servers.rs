//! Server types.

use vstd::prelude::*;

verus! {

/// A Discord server.
pub struct Server {
    /// The server's ID.
    pub id: u64,

    /// The name of the server.
    pub name: String,
}

/// The part of a partial server payload that a cached server is refreshed from.
pub struct PartialServer {
    /// The server's current name.
    pub name: String,
}

impl Clone for Server {
    fn clone(&self) -> (copy: Self)
        ensures
            copy == *self,
    {
        Server { id: self.id, name: self.name.clone() }
    }
}

impl Server {
    /// Updates the server from partial server data.
    ///
    /// Only the name is refreshed; the ID is kept.
    pub fn update_from_partial(&mut self, update: PartialServer)
        ensures
            final(self).id == old(self).id,
            final(self).name == update.name,
    {
        self.name = update.name;
    }
}

} // verus!
