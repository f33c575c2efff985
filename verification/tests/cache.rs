use dyncord::builtin::cache::inmemory::InMemoryCache;
use dyncord::wrappers::types::members::Member;
use dyncord::wrappers::types::servers::Server;
use dyncord::wrappers::types::users::User;

fn user(id: u64, name: &str) -> User {
    User { id, name: name.to_string() }
}

fn member(id: u64, nickname: Option<&str>) -> Member {
    Member {
        id,
        nickname: nickname.map(|n| n.to_string()),
        roles: vec![1, 2],
        is_muted: false,
        is_deafened: true,
        is_pending: false,
    }
}

#[test]
fn user_read_after_write() {
    let mut cache = InMemoryCache::new();
    assert!(cache.get_user_by_id(1).is_none());
    cache.set_user(user(1, "alice"));
    let by_id = cache.get_user_by_id(1).unwrap();
    assert_eq!((by_id.id, by_id.name.as_str()), (1, "alice"));
    let by_name = cache.get_user_by_name("alice".to_string()).unwrap();
    assert_eq!(by_name.id, 1);
    assert!(cache.get_user_by_id(2).is_none());
    assert!(cache.get_user_by_name("bob".to_string()).is_none());
}

#[test]
fn renamed_user_forgets_old_name() {
    let mut cache = InMemoryCache::default();
    cache.set_user(user(1, "alice"));
    cache.set_user(user(1, "alicia"));
    assert!(cache.get_user_by_name("alice".to_string()).is_none());
    assert_eq!(cache.get_user_by_name("alicia".to_string()).unwrap().id, 1);
    assert_eq!(cache.get_user_by_id(1).unwrap().name, "alicia");
}

#[test]
fn set_user_twice_is_idempotent() {
    let mut cache = InMemoryCache::new();
    cache.set_user(user(3, "carol"));
    cache.set_user(user(3, "carol"));
    assert_eq!(cache.get_user_by_name("carol".to_string()).unwrap().id, 3);
    assert_eq!(cache.get_user_by_id(3).unwrap().name, "carol");
}

#[test]
fn name_taken_over_by_other_user() {
    let mut cache = InMemoryCache::new();
    cache.set_user(user(1, "sam"));
    cache.set_user(user(2, "sam"));
    assert_eq!(cache.get_user_by_name("sam".to_string()).unwrap().id, 2);
    assert_eq!(cache.get_user_by_id(1).unwrap().name, "sam");
    // User 2 renames: its old name is dropped from the name index.
    cache.set_user(user(2, "samuel"));
    assert!(cache.get_user_by_name("sam".to_string()).is_none());
    assert_eq!(cache.get_user_by_name("samuel".to_string()).unwrap().id, 2);
}

#[test]
fn server_set_get_delete() {
    let mut cache = InMemoryCache::new();
    cache.set_server(Server { id: 10, name: "Guild".to_string() });
    cache.set_server(Server { id: 11, name: "Other".to_string() });
    assert_eq!(cache.get_server_by_id(10).unwrap().name, "Guild");
    cache.set_server(Server { id: 10, name: "Renamed".to_string() });
    assert_eq!(cache.get_server_by_id(10).unwrap().name, "Renamed");
    cache.del_server(10);
    assert!(cache.get_server_by_id(10).is_none());
    assert_eq!(cache.get_server_by_id(11).unwrap().name, "Other");
    cache.del_server(99);
    assert_eq!(cache.get_server_by_id(11).unwrap().id, 11);
}

#[test]
fn member_set_get_delete() {
    let mut cache = InMemoryCache::new();
    cache.set_member(10, member(5, Some("five")));
    cache.set_member(20, member(5, None));
    let m = cache.get_member_by_id(10, 5).unwrap();
    assert_eq!(m.id, 5);
    assert_eq!(m.nickname.as_deref(), Some("five"));
    assert_eq!(m.roles, vec![1, 2]);
    assert!(m.is_deafened);
    assert_eq!(cache.get_member_by_id(20, 5).unwrap().nickname, None);
    assert!(cache.get_member_by_id(10, 6).is_none());
    cache.del_member(10, 5);
    assert!(cache.get_member_by_id(10, 5).is_none());
    assert!(cache.get_member_by_id(20, 5).is_some());
}

#[test]
fn stores_are_independent() {
    let mut cache = InMemoryCache::new();
    cache.set_user(user(7, "seven"));
    cache.set_server(Server { id: 7, name: "Seven".to_string() });
    cache.set_member(7, member(7, None));
    cache.del_server(7);
    cache.del_member(7, 7);
    assert_eq!(cache.get_user_by_id(7).unwrap().name, "seven");
    assert_eq!(cache.get_user_by_name("seven".to_string()).unwrap().id, 7);
}
