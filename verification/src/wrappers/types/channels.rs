//! Channel types.

use vstd::prelude::*;

verus! {

/// A Discord channel.
pub struct Channel {
    /// The channel's ID.
    pub id: u64,

    /// The channel's name.
    pub name: String,
}

/// The name a channel is given when Discord reports none.
pub open spec fn unnamed_channel_name() -> Seq<char> {
    seq!['U', 'n', 'n', 'a', 'm', 'e', 'd']
}

impl Channel {
    /// Builds a channel from its ID and the name Discord reported, if any.
    ///
    /// A channel without a name is called `"Unnamed"`.
    pub fn from_parts(id: u64, name: Option<String>) -> (channel: Channel)
        ensures
            channel.id == id,
            channel.name@ == (match name {
                Some(n) => n@,
                None => unnamed_channel_name(),
            }),
    {
        let name = match name {
            Some(n) => n,
            None => {
                let unnamed = "Unnamed".to_string();
                proof {
                    reveal_strlit("Unnamed");
                }
                unnamed
            },
        };
        Channel { id, name }
    }
}

} // verus!
