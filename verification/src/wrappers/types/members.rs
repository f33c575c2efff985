//! Server member types.

use vstd::prelude::*;

verus! {

/// A Discord server member.
pub struct Member {
    /// The user's ID.
    pub id: u64,

    /// The member's server nickname.
    pub nickname: Option<String>,

    /// IDs of the roles the member has.
    pub roles: Vec<u64>,

    pub is_muted: bool,
    pub is_deafened: bool,
    pub is_pending: bool,
}

/// The member data carried by a partial member payload.
pub struct PartialMember {
    pub nick: Option<String>,
    pub roles: Vec<u64>,
    pub mute: bool,
    pub deaf: bool,
}

/// The member data carried by a member update event.
///
/// Mute and deafen states are optional: an event that omits them leaves the
/// member's current state in place.
pub struct MemberUpdate {
    pub nick: Option<String>,
    pub roles: Vec<u64>,
    pub mute: Option<bool>,
    pub deaf: Option<bool>,
    pub pending: bool,
}

/// The value of a member as the contracts see it.
pub struct MemberView {
    pub id: u64,
    pub nickname: Option<Seq<char>>,
    pub roles: Seq<u64>,
    pub is_muted: bool,
    pub is_deafened: bool,
    pub is_pending: bool,
}

impl View for Member {
    type V = MemberView;

    open spec fn view(&self) -> MemberView {
        MemberView {
            id: self.id,
            nickname: match self.nickname {
                Some(n) => Some(n@),
                None => None,
            },
            roles: self.roles@,
            is_muted: self.is_muted,
            is_deafened: self.is_deafened,
            is_pending: self.is_pending,
        }
    }
}

impl Clone for Member {
    fn clone(&self) -> (copy: Self)
        ensures
            copy@ == self@,
    {
        let nickname = match &self.nickname {
            Some(n) => Some(n.clone()),
            None => None,
        };
        let mut roles: Vec<u64> = Vec::new();
        let mut i: usize = 0;
        while i < self.roles.len()
            invariant
                i <= self.roles.len(),
                roles@ == self.roles@.take(i as int),
            decreases self.roles.len() - i,
        {
            roles.push(self.roles[i]);
            i = i + 1;
            proof {
                assert(roles@ =~= self.roles@.take(i as int));
            }
        }
        proof {
            assert(roles@ =~= self.roles@);
        }
        Member {
            id: self.id,
            nickname,
            roles,
            is_muted: self.is_muted,
            is_deafened: self.is_deafened,
            is_pending: self.is_pending,
        }
    }
}

impl Member {
    /// Updates a member from partial member data.
    ///
    /// Nickname, roles, mute and deafen states are replaced; the ID and the
    /// pending state are kept.
    pub fn update_from_partial(&mut self, update: PartialMember)
        ensures
            final(self).id == old(self).id,
            final(self).nickname == update.nick,
            final(self).roles@ == update.roles@,
            final(self).is_muted == update.mute,
            final(self).is_deafened == update.deaf,
            final(self).is_pending == old(self).is_pending,
    {
        self.nickname = update.nick;
        self.roles = update.roles;
        self.is_muted = update.mute;
        self.is_deafened = update.deaf;
    }

    /// Updates a member from an update event.
    ///
    /// Nickname, roles and the pending state are replaced. Mute and deafen
    /// states are replaced only when the event carries them.
    pub fn update_from_event(&mut self, update: MemberUpdate)
        ensures
            final(self).id == old(self).id,
            final(self).nickname == update.nick,
            final(self).roles@ == update.roles@,
            final(self).is_muted == (match update.mute {
                Some(m) => m,
                None => old(self).is_muted,
            }),
            final(self).is_deafened == (match update.deaf {
                Some(d) => d,
                None => old(self).is_deafened,
            }),
            final(self).is_pending == update.pending,
    {
        self.nickname = update.nick;
        self.roles = update.roles;
        if let Some(m) = update.mute {
            self.is_muted = m;
        }
        if let Some(d) = update.deaf {
            self.is_deafened = d;
        }
        self.is_pending = update.pending;
    }
}

} // verus!
