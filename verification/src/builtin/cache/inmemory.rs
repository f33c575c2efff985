//! A local in-memory cache backend.
//!
//! The cache keeps users (by ID and by name), servers (by ID) and server
//! members (by server ID and member ID) in concurrent hash maps. Every
//! operation succeeds; lookups return copies of the stored values.

use vstd::prelude::*;

use crate::wrappers::types::members::{Member, MemberView};
use crate::wrappers::types::servers::Server;
use crate::wrappers::types::users::User;

verus! {

/// The concurrent hash map the cache stores its entries in.
///
/// `papaya::HashMap` allows writes through shared references; the cache only
/// writes to a map it holds exclusively (`&mut`), so no other writer can
/// change a map between a call and the next, and each call's effect on the
/// entries is the one its wrapper below states.
#[verifier::external_type_specification]
#[verifier::external_body]
#[verifier::reject_recursive_types(K)]
#[verifier::reject_recursive_types(V)]
#[verifier::reject_recursive_types(S)]
pub struct ExConcurrentHashMap<K, V, S>(papaya::HashMap<K, V, S>);

/// The entries of the users-by-ID map.
pub uninterp spec fn users_by_id_entries(map: papaya::HashMap<u64, User>) -> Map<u64, User>;

/// The entries of the users-by-name map, keyed by the name's characters.
pub uninterp spec fn users_by_name_entries(map: papaya::HashMap<String, User>) -> Map<
    Seq<char>,
    User,
>;

/// The entries of the servers-by-ID map.
pub uninterp spec fn servers_by_id_entries(map: papaya::HashMap<u64, Server>) -> Map<u64, Server>;

/// The entries of the members map, keyed by (server ID, member ID).
pub uninterp spec fn members_by_id_entries(map: papaya::HashMap<(u64, u64), Member>) -> Map<
    (u64, u64),
    MemberView,
>;

/// `papaya::HashMap::new`: a map with no entries.
#[verifier::external_body]
fn users_by_id_new() -> (fresh: papaya::HashMap<u64, User>)
    ensures
        users_by_id_entries(fresh) == CacheView::empty().users_by_id,
{
    papaya::HashMap::new()
}

/// `papaya::HashMapRef::get` followed by `Option::cloned`: the stored user,
/// copied, if the key is present.
#[verifier::external_body]
fn users_by_id_get(map: &papaya::HashMap<u64, User>, id: u64) -> (user: Option<User>)
    ensures
        user == users_by_id_entries(*map).get(id),
{
    map.pin().get(&id).cloned()
}

/// `papaya::HashMapRef::insert`: the key now maps to the value, every other
/// entry is kept.
#[verifier::external_body]
fn users_by_id_insert(map: &mut papaya::HashMap<u64, User>, id: u64, user: User)
    ensures
        users_by_id_entries(*final(map)) == users_by_id_entries(*old(map)).insert(id, user),
{
    map.pin().insert(id, user);
}

/// `papaya::HashMap::new`: a map with no entries.
#[verifier::external_body]
fn users_by_name_new() -> (fresh: papaya::HashMap<String, User>)
    ensures
        users_by_name_entries(fresh) == CacheView::empty().users_by_name,
{
    papaya::HashMap::new()
}

/// `papaya::HashMapRef::get` followed by `Option::cloned`: the stored user,
/// copied, if a key with the same characters is present.
#[verifier::external_body]
fn users_by_name_get(map: &papaya::HashMap<String, User>, name: &String) -> (user: Option<User>)
    ensures
        user == users_by_name_entries(*map).get(name@),
{
    map.pin().get(name).cloned()
}

/// `papaya::HashMapRef::insert`: the key now maps to the value, every other
/// entry is kept.
#[verifier::external_body]
fn users_by_name_insert(map: &mut papaya::HashMap<String, User>, name: String, user: User)
    ensures
        users_by_name_entries(*final(map)) == users_by_name_entries(*old(map)).insert(
            name@,
            user,
        ),
{
    map.pin().insert(name, user);
}

/// `papaya::HashMapRef::remove`: the key is absent afterwards, every other
/// entry is kept.
#[verifier::external_body]
fn users_by_name_remove(map: &mut papaya::HashMap<String, User>, name: &String)
    ensures
        users_by_name_entries(*final(map)) == users_by_name_entries(*old(map)).remove(name@),
{
    map.pin().remove(name);
}

/// `papaya::HashMap::new`: a map with no entries.
#[verifier::external_body]
fn servers_by_id_new() -> (fresh: papaya::HashMap<u64, Server>)
    ensures
        servers_by_id_entries(fresh) == CacheView::empty().servers_by_id,
{
    papaya::HashMap::new()
}

/// `papaya::HashMapRef::get` followed by `Option::cloned`: the stored server,
/// copied, if the key is present.
#[verifier::external_body]
fn servers_by_id_get(map: &papaya::HashMap<u64, Server>, id: u64) -> (server: Option<Server>)
    ensures
        server == servers_by_id_entries(*map).get(id),
{
    map.pin().get(&id).cloned()
}

/// `papaya::HashMapRef::insert`: the key now maps to the value, every other
/// entry is kept.
#[verifier::external_body]
fn servers_by_id_insert(map: &mut papaya::HashMap<u64, Server>, id: u64, server: Server)
    ensures
        servers_by_id_entries(*final(map)) == servers_by_id_entries(*old(map)).insert(id, server),
{
    map.pin().insert(id, server);
}

/// `papaya::HashMapRef::remove`: the key is absent afterwards, every other
/// entry is kept.
#[verifier::external_body]
fn servers_by_id_remove(map: &mut papaya::HashMap<u64, Server>, id: u64)
    ensures
        servers_by_id_entries(*final(map)) == servers_by_id_entries(*old(map)).remove(id),
{
    map.pin().remove(&id);
}

/// `papaya::HashMap::new`: a map with no entries.
#[verifier::external_body]
fn members_by_id_new() -> (fresh: papaya::HashMap<(u64, u64), Member>)
    ensures
        members_by_id_entries(fresh) == CacheView::empty().members_by_id,
{
    papaya::HashMap::new()
}

/// `papaya::HashMapRef::get` followed by `Option::cloned`: a copy of the
/// stored member, if the key is present.
#[verifier::external_body]
fn members_by_id_get(map: &papaya::HashMap<(u64, u64), Member>, key: (u64, u64)) -> (member:
    Option<Member>)
    ensures
        match member {
            Some(m) => members_by_id_entries(*map).get(key) == Some(m@),
            None => !members_by_id_entries(*map).contains_key(key),
        },
{
    map.pin().get(&key).cloned()
}

/// `papaya::HashMapRef::insert`: the key now maps to the value, every other
/// entry is kept.
#[verifier::external_body]
fn members_by_id_insert(map: &mut papaya::HashMap<(u64, u64), Member>, key: (u64, u64), member: Member)
    ensures
        members_by_id_entries(*final(map)) == members_by_id_entries(*old(map)).insert(
            key,
            member@,
        ),
{
    map.pin().insert(key, member);
}

/// `papaya::HashMapRef::remove`: the key is absent afterwards, every other
/// entry is kept.
#[verifier::external_body]
fn members_by_id_remove(map: &mut papaya::HashMap<(u64, u64), Member>, key: (u64, u64))
    ensures
        members_by_id_entries(*final(map)) == members_by_id_entries(*old(map)).remove(key),
{
    map.pin().remove(&key);
}

/// The contents of an [`InMemoryCache`].
pub struct CacheView {
    pub users_by_id: Map<u64, User>,
    pub users_by_name: Map<Seq<char>, User>,
    pub servers_by_id: Map<u64, Server>,
    pub members_by_id: Map<(u64, u64), MemberView>,
}

impl CacheView {
    /// The cache holds nothing.
    pub open spec fn empty() -> CacheView {
        CacheView {
            users_by_id: Map::empty(),
            users_by_name: Map::empty(),
            servers_by_id: Map::empty(),
            members_by_id: Map::empty(),
        }
    }

    /// Every entry is filed under its own key, and the name index only points
    /// at users whose current record is the one filed under their ID.
    pub open spec fn wf(self) -> bool {
        &&& forall|id: u64| #[trigger]
            self.users_by_id.contains_key(id) ==> self.users_by_id[id].id == id
        &&& forall|name: Seq<char>| #[trigger]
            self.users_by_name.contains_key(name) ==> {
                let user = self.users_by_name[name];
                &&& user.name@ == name
                &&& self.users_by_id.contains_key(user.id)
                &&& self.users_by_id[user.id] == user
            }
        &&& forall|id: u64| #[trigger]
            self.servers_by_id.contains_key(id) ==> self.servers_by_id[id].id == id
        &&& forall|key: (u64, u64)| #[trigger]
            self.members_by_id.contains_key(key) ==> self.members_by_id[key].id == key.1
    }

    /// The name index after `user` is stored: the user's previous name is
    /// dropped when it changed, and the current name points at the new record.
    pub open spec fn users_by_name_after_set(self, user: User) -> Map<Seq<char>, User> {
        let base = if self.users_by_id.contains_key(user.id) && self.users_by_id[user.id].name@
            != user.name@ {
            self.users_by_name.remove(self.users_by_id[user.id].name@)
        } else {
            self.users_by_name
        };
        base.insert(user.name@, user)
    }

    /// The cache after storing `user`.
    pub open spec fn after_set_user(self, user: User) -> CacheView {
        CacheView {
            users_by_id: self.users_by_id.insert(user.id, user),
            users_by_name: self.users_by_name_after_set(user),
            ..self
        }
    }

    /// The cache after storing `server`.
    pub open spec fn after_set_server(self, server: Server) -> CacheView {
        CacheView { servers_by_id: self.servers_by_id.insert(server.id, server), ..self }
    }

    /// The cache after removing the server with ID `server_id`.
    pub open spec fn after_del_server(self, server_id: u64) -> CacheView {
        CacheView { servers_by_id: self.servers_by_id.remove(server_id), ..self }
    }

    /// The cache after storing `member` as a member of server `server_id`.
    pub open spec fn after_set_member(self, server_id: u64, member: MemberView) -> CacheView {
        CacheView {
            members_by_id: self.members_by_id.insert((server_id, member.id), member),
            ..self
        }
    }

    /// The cache after removing member `member_id` of server `server_id`.
    pub open spec fn after_del_member(self, server_id: u64, member_id: u64) -> CacheView {
        CacheView { members_by_id: self.members_by_id.remove((server_id, member_id)), ..self }
    }
}

/// A local in-memory cache backend.
pub struct InMemoryCache {
    users_by_id: papaya::HashMap<u64, User>,
    users_by_name: papaya::HashMap<String, User>,
    servers_by_id: papaya::HashMap<u64, Server>,
    members_by_id: papaya::HashMap<(u64, u64), Member>,
}

impl View for InMemoryCache {
    type V = CacheView;

    closed spec fn view(&self) -> CacheView {
        CacheView {
            users_by_id: users_by_id_entries(self.users_by_id),
            users_by_name: users_by_name_entries(self.users_by_name),
            servers_by_id: servers_by_id_entries(self.servers_by_id),
            members_by_id: members_by_id_entries(self.members_by_id),
        }
    }
}

impl InMemoryCache {
    /// The cache is well formed at all times.
    #[verifier::type_invariant]
    closed spec fn inv(self) -> bool {
        self@.wf()
    }

    /// Moves the maps out, leaving an empty cache in place.
    fn take(&mut self) -> (taken: InMemoryCache)
        ensures
            taken@ == old(self)@,
            final(self)@ == CacheView::empty(),
    {
        let mut taken = InMemoryCache::new();
        std::mem::swap(self, &mut taken);
        taken
    }
}

impl Default for InMemoryCache {
    fn default() -> (cache: Self)
        ensures
            cache@ == CacheView::empty(),
            cache@.wf(),
    {
        InMemoryCache::new()
    }
}

impl InMemoryCache {
    /// Creates an empty cache.
    pub fn new() -> (cache: Self)
        ensures
            cache@ == CacheView::empty(),
            cache@.wf(),
    {
        InMemoryCache {
            users_by_id: users_by_id_new(),
            users_by_name: users_by_name_new(),
            servers_by_id: servers_by_id_new(),
            members_by_id: members_by_id_new(),
        }
    }

    /// Stores a user, indexed by ID and by name.
    ///
    /// When the cache already held this user under another name, that name no
    /// longer finds anything.
    pub fn set_user(&mut self, user: User)
        ensures
            final(self)@ == old(self)@.after_set_user(user),
            final(self)@.wf(),
    {
        proof {
            use_type_invariant(&*self);
        }
        let ghost before = self@;
        let InMemoryCache { mut users_by_id, mut users_by_name, servers_by_id, members_by_id } =
            self.take();
        let cached = users_by_id_get(&users_by_id, user.id);
        if let Some(cached_user) = cached {
            if !(cached_user.name == user.name) {
                users_by_name_remove(&mut users_by_name, &cached_user.name);
            }
        }
        users_by_id_insert(&mut users_by_id, user.id, user.clone());
        users_by_name_insert(&mut users_by_name, user.name.clone(), user);
        proof {
            lemma_set_user_keeps_wf(before, user);
        }
        *self = InMemoryCache { users_by_id, users_by_name, servers_by_id, members_by_id };
    }

    /// Looks a user up by ID.
    pub fn get_user_by_id(&self, user_id: u64) -> (user: Option<User>)
        ensures
            user == self@.users_by_id.get(user_id),
    {
        users_by_id_get(&self.users_by_id, user_id)
    }

    /// Looks a user up by name.
    pub fn get_user_by_name(&self, user_name: String) -> (user: Option<User>)
        ensures
            user == self@.users_by_name.get(user_name@),
    {
        users_by_name_get(&self.users_by_name, &user_name)
    }

    /// Stores a server under its ID.
    pub fn set_server(&mut self, server: Server)
        ensures
            final(self)@ == old(self)@.after_set_server(server),
            final(self)@.wf(),
    {
        proof {
            use_type_invariant(&*self);
        }
        let ghost before = self@;
        let InMemoryCache { users_by_id, users_by_name, mut servers_by_id, members_by_id } =
            self.take();
        servers_by_id_insert(&mut servers_by_id, server.id, server);
        proof {
            lemma_set_server_keeps_wf(before, server);
        }
        *self = InMemoryCache { users_by_id, users_by_name, servers_by_id, members_by_id };
    }

    /// Removes the server with the given ID, if cached.
    pub fn del_server(&mut self, server_id: u64)
        ensures
            final(self)@ == old(self)@.after_del_server(server_id),
            final(self)@.wf(),
    {
        proof {
            use_type_invariant(&*self);
        }
        let ghost before = self@;
        let InMemoryCache { users_by_id, users_by_name, mut servers_by_id, members_by_id } =
            self.take();
        servers_by_id_remove(&mut servers_by_id, server_id);
        proof {
            lemma_del_server_keeps_wf(before, server_id);
        }
        *self = InMemoryCache { users_by_id, users_by_name, servers_by_id, members_by_id };
    }

    /// Looks a server up by ID.
    pub fn get_server_by_id(&self, server_id: u64) -> (server: Option<Server>)
        ensures
            server == self@.servers_by_id.get(server_id),
    {
        servers_by_id_get(&self.servers_by_id, server_id)
    }

    /// Stores a member of the given server, under the server ID and the
    /// member's ID.
    pub fn set_member(&mut self, server_id: u64, member: Member)
        ensures
            final(self)@ == old(self)@.after_set_member(server_id, member@),
            final(self)@.wf(),
    {
        proof {
            use_type_invariant(&*self);
        }
        let key = (server_id, member.id);
        let ghost before = self@;
        let ghost stored = member@;
        let InMemoryCache { users_by_id, users_by_name, servers_by_id, mut members_by_id } =
            self.take();
        members_by_id_insert(&mut members_by_id, key, member);
        proof {
            lemma_set_member_keeps_wf(before, server_id, stored);
        }
        *self = InMemoryCache { users_by_id, users_by_name, servers_by_id, members_by_id };
    }

    /// Removes a member of a server, if cached.
    pub fn del_member(&mut self, server_id: u64, member_id: u64)
        ensures
            final(self)@ == old(self)@.after_del_member(server_id, member_id),
            final(self)@.wf(),
    {
        proof {
            use_type_invariant(&*self);
        }
        let ghost before = self@;
        let InMemoryCache { users_by_id, users_by_name, servers_by_id, mut members_by_id } =
            self.take();
        members_by_id_remove(&mut members_by_id, (server_id, member_id));
        proof {
            lemma_del_member_keeps_wf(before, server_id, member_id);
        }
        *self = InMemoryCache { users_by_id, users_by_name, servers_by_id, members_by_id };
    }

    /// Looks a member of a server up by the member's ID.
    pub fn get_member_by_id(&self, server_id: u64, member_id: u64) -> (member: Option<Member>)
        ensures
            match member {
                Some(m) => self@.members_by_id.get((server_id, member_id)) == Some(m@),
                None => !self@.members_by_id.contains_key((server_id, member_id)),
            },
    {
        members_by_id_get(&self.members_by_id, (server_id, member_id))
    }
}

/// Storing a user keeps the cache well formed.
pub proof fn lemma_set_user_keeps_wf(c: CacheView, user: User)
    requires
        c.wf(),
    ensures
        c.after_set_user(user).wf(),
{
    let d = c.after_set_user(user);
    assert forall|name: Seq<char>| #[trigger] d.users_by_name.contains_key(name) implies {
        let u = d.users_by_name[name];
        &&& u.name@ == name
        &&& d.users_by_id.contains_key(u.id)
        &&& d.users_by_id[u.id] == u
    } by {
        if name != user.name@ {
            let u = c.users_by_name[name];
            assert(c.users_by_name.contains_key(name));
            if u.id == user.id {
                assert(c.users_by_id[user.id] == u);
                assert(false);
            }
        }
    }
}

/// Storing a server keeps the cache well formed.
pub proof fn lemma_set_server_keeps_wf(c: CacheView, server: Server)
    requires
        c.wf(),
    ensures
        c.after_set_server(server).wf(),
{
    let d = c.after_set_server(server);
    assert forall|id: u64| #[trigger] d.servers_by_id.contains_key(id) implies d.servers_by_id[id].id
        == id by {
        if id != server.id {
            assert(c.servers_by_id.contains_key(id));
        }
    }
    lemma_users_unchanged_keep_wf(c, d);
}

/// Removing a server keeps the cache well formed.
pub proof fn lemma_del_server_keeps_wf(c: CacheView, server_id: u64)
    requires
        c.wf(),
    ensures
        c.after_del_server(server_id).wf(),
{
    let d = c.after_del_server(server_id);
    assert forall|id: u64| #[trigger] d.servers_by_id.contains_key(id) implies d.servers_by_id[id].id
        == id by {
        assert(c.servers_by_id.contains_key(id));
    }
    lemma_users_unchanged_keep_wf(c, d);
}

/// Storing a member keeps the cache well formed.
pub proof fn lemma_set_member_keeps_wf(c: CacheView, server_id: u64, member: MemberView)
    requires
        c.wf(),
    ensures
        c.after_set_member(server_id, member).wf(),
{
    let d = c.after_set_member(server_id, member);
    assert forall|key: (u64, u64)| #[trigger] d.members_by_id.contains_key(key) implies d.members_by_id[key].id
        == key.1 by {
        if key != (server_id, member.id) {
            assert(c.members_by_id.contains_key(key));
        }
    }
    lemma_users_unchanged_keep_wf(c, d);
}

/// Removing a member keeps the cache well formed.
pub proof fn lemma_del_member_keeps_wf(c: CacheView, server_id: u64, member_id: u64)
    requires
        c.wf(),
    ensures
        c.after_del_member(server_id, member_id).wf(),
{
    let d = c.after_del_member(server_id, member_id);
    assert forall|key: (u64, u64)| #[trigger] d.members_by_id.contains_key(key) implies d.members_by_id[key].id
        == key.1 by {
        assert(c.members_by_id.contains_key(key));
    }
    lemma_users_unchanged_keep_wf(c, d);
}

/// A stored user is found again by its ID and by its name.
pub proof fn lemma_user_read_after_write(c: CacheView, user: User)
    ensures
        c.after_set_user(user).users_by_id.get(user.id) == Some(user),
        c.after_set_user(user).users_by_name.get(user.name@) == Some(user),
{
}

/// When a user is stored under a new name, the old name finds nothing.
pub proof fn lemma_renamed_user_old_name_forgotten(c: CacheView, user: User)
    requires
        c.users_by_id.contains_key(user.id),
        c.users_by_id[user.id].name@ != user.name@,
    ensures
        !c.after_set_user(user).users_by_name.contains_key(c.users_by_id[user.id].name@),
{
}

/// Storing a user leaves the name index as it was at every name other than
/// the user's new name and, when the user was cached under another name,
/// that previous name.
pub proof fn lemma_set_user_keeps_other_names(c: CacheView, user: User, name: Seq<char>)
    requires
        name != user.name@,
        !(c.users_by_id.contains_key(user.id) && c.users_by_id[user.id].name@ == name),
    ensures
        c.after_set_user(user).users_by_name.get(name) == c.users_by_name.get(name),
{
}

/// A user stored under an unchanged name, or for the first time, leaves the
/// name index as it was at every other name.
pub proof fn lemma_set_user_fresh_or_same_name_keeps_index(c: CacheView, user: User)
    requires
        !c.users_by_id.contains_key(user.id) || c.users_by_id[user.id].name@ == user.name@,
    ensures
        c.after_set_user(user).users_by_name == c.users_by_name.insert(user.name@, user),
{
}

/// Storing a user leaves every other user ID as it was.
pub proof fn lemma_set_user_keeps_other_ids(c: CacheView, user: User, other: u64)
    requires
        other != user.id,
    ensures
        c.after_set_user(user).users_by_id.get(other) == c.users_by_id.get(other),
{
}

/// Storing the same user twice is the same as storing it once.
pub proof fn lemma_set_user_idempotent(c: CacheView, user: User)
    ensures
        c.after_set_user(user).after_set_user(user) == c.after_set_user(user),
{
    let once = c.after_set_user(user);
    let twice = once.after_set_user(user);
    assert(twice.users_by_id =~= once.users_by_id);
    assert(twice.users_by_name =~= once.users_by_name);
}

/// In a well-formed cache, a lookup by ID returns a user with that ID, and a
/// lookup by name returns a user with that name whose record under its ID is
/// the same.
pub proof fn lemma_lookups_match_keys(c: CacheView, id: u64, name: Seq<char>)
    requires
        c.wf(),
    ensures
        c.users_by_id.contains_key(id) ==> c.users_by_id[id].id == id,
        c.users_by_name.contains_key(name) ==> {
            let user = c.users_by_name[name];
            user.name@ == name && c.users_by_id.get(user.id) == Some(user)
        },
{
}

/// A stored server is found again by its ID; after removal it is gone; other
/// server IDs are untouched by both.
pub proof fn lemma_server_read_after_write(c: CacheView, server: Server, other: u64)
    requires
        other != server.id,
    ensures
        c.after_set_server(server).servers_by_id.get(server.id) == Some(server),
        c.after_del_server(server.id).servers_by_id.get(server.id) == None::<Server>,
        c.after_set_server(server).after_del_server(server.id).servers_by_id.get(server.id)
            == None::<Server>,
        c.after_set_server(server).servers_by_id.get(other) == c.servers_by_id.get(other),
        c.after_del_server(server.id).servers_by_id.get(other) == c.servers_by_id.get(other),
{
}

/// A stored member is found again under its server and its ID; after removal
/// it is gone; other keys are untouched by both.
pub proof fn lemma_member_read_after_write(
    c: CacheView,
    server_id: u64,
    member: MemberView,
    other: (u64, u64),
)
    requires
        other != (server_id, member.id),
    ensures
        c.after_set_member(server_id, member).members_by_id.get((server_id, member.id)) == Some(
            member,
        ),
        c.after_del_member(server_id, member.id).members_by_id.get((server_id, member.id))
            == None::<MemberView>,
        c.after_set_member(server_id, member).members_by_id.get(other) == c.members_by_id.get(
            other,
        ),
        c.after_del_member(server_id, member.id).members_by_id.get(other)
            == c.members_by_id.get(other),
{
}

/// Server and member operations leave the user indexes alone, and user
/// operations leave servers and members alone.
pub proof fn lemma_stores_are_independent(
    c: CacheView,
    user: User,
    server: Server,
    server_id: u64,
    member: MemberView,
    member_id: u64,
)
    ensures
        c.after_set_user(user).servers_by_id == c.servers_by_id,
        c.after_set_user(user).members_by_id == c.members_by_id,
        c.after_set_server(server).users_by_id == c.users_by_id,
        c.after_set_server(server).users_by_name == c.users_by_name,
        c.after_del_server(server.id).users_by_name == c.users_by_name,
        c.after_set_member(server_id, member).users_by_id == c.users_by_id,
        c.after_set_member(server_id, member).servers_by_id == c.servers_by_id,
        c.after_del_member(server_id, member_id).users_by_name == c.users_by_name,
{
}

/// A change that leaves both user indexes alone keeps their part of the
/// well-formedness.
proof fn lemma_users_unchanged_keep_wf(c: CacheView, d: CacheView)
    requires
        c.wf(),
        d.users_by_id == c.users_by_id,
        d.users_by_name == c.users_by_name,
        forall|id: u64| #[trigger]
            d.servers_by_id.contains_key(id) ==> d.servers_by_id[id].id == id,
        forall|key: (u64, u64)| #[trigger]
            d.members_by_id.contains_key(key) ==> d.members_by_id[key].id == key.1,
    ensures
        d.wf(),
{
}

} // verus!
