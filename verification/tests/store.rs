use lobby_core::store::EntityStore;
use lobby_core::user::User;

fn blank_user(nick: &str) -> User {
    let mut u = User::default();
    u.nick_name = nick.to_string();
    u
}

#[test]
fn ids_are_distinct_and_increasing() {
    let mut store: EntityStore<User> = EntityStore::new();
    let a = store.insert(blank_user("a"));
    let b = store.insert(blank_user("b"));
    let c = store.insert(blank_user("c"));
    assert!(a < b && b < c);
    assert_eq!(a, 0);
    assert_eq!(b, 1);
    assert_eq!(c, 2);
}

#[test]
fn removed_id_is_not_reused_while_counter_lives() {
    let mut store: EntityStore<User> = EntityStore::new();
    let a = store.insert(blank_user("a"));
    store.remove(a);
    let b = store.insert(blank_user("b"));
    assert_ne!(a, b);
}

#[test]
fn get_take_contains() {
    let mut store: EntityStore<User> = EntityStore::new();
    let a = store.insert(blank_user("a"));
    let b = store.insert(blank_user("b"));
    assert!(store.contains(a));
    assert_eq!(store.get(a).unwrap().nick_name, "a");
    assert_eq!(store.len(), 2);
    let taken = store.take(a).unwrap();
    assert_eq!(taken.id, a);
    assert_eq!(taken.nick_name, "a");
    assert!(!store.contains(a));
    assert!(store.get(a).is_none());
    assert!(store.take(a).is_none());
    assert!(store.contains(b));
    assert_eq!(store.len(), 1);
}

#[test]
fn missing_operations_are_total() {
    let mut store: EntityStore<User> = EntityStore::new();
    assert!(!store.contains(5));
    assert!(store.get(5).is_none());
    store.remove(5);
    assert_eq!(store.len(), 0);
}

#[test]
fn insert_assigns_the_id_field() {
    let mut store: EntityStore<User> = EntityStore::new();
    let mut u = User::default();
    u.id = 999; // client-supplied identity is overwritten by the store
    let assigned = store.insert(u);
    assert_eq!(assigned, 0);
    assert_eq!(store.get(assigned).unwrap().id, 0);
}
