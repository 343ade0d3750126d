use lobby_core::user::User;
use lobby_core::user_manager::UserManager;
use lobby_core::utils::cur_timestamp;

#[test]
fn test_user() {
    let user = User::default();
    println!("{:?}", user);
}

#[test]
fn default_user_is_blank() {
    let user = User::default();
    assert_eq!(user.id, 0);
    assert_eq!(user.nick_name, "");
    assert_eq!(user.uuid, "");
    assert_eq!(user.login_timestamp, 0);
    assert!(!user.prepared);
    assert!(user.preferred_game_config.is_none());
}

#[test]
fn created_user_carries_given_data() {
    let mut users = UserManager::new();
    let uid = users.create_user_with_token("alice".to_string(), "token-a".to_string(), 7);
    let u = users.get(uid).unwrap();
    assert_eq!(u.id, uid);
    assert_eq!(u.nick_name, "alice");
    assert_eq!(u.uuid, "token-a");
    assert_eq!(u.login_timestamp, 7);
}

#[test]
fn fresh_token_is_a_uuid() {
    let mut users = UserManager::new();
    let uid = users.create_user("bob".to_string(), 0);
    let token = users.get(uid).unwrap().uuid.clone();
    // hyphenated UUID text form: 36 ASCII characters, 4 hyphens
    assert_eq!(token.len(), 36);
    assert_eq!(token.chars().filter(|c| *c == '-').count(), 4);
    // a second token is (overwhelmingly likely) different
    let uid2 = users.create_user("carol".to_string(), 0);
    let token2 = users.get(uid2).unwrap().uuid.clone();
    assert_ne!(token, token2);
}

#[test]
fn token_lookup_finds_user() {
    let mut users = UserManager::new();
    let uid = users.create_user_with_token("dave".to_string(), "tok-d".to_string(), 1);
    let _ = users.create_user_with_token("erin".to_string(), "tok-e".to_string(), 2);
    let found = users.find_user_by_uuid(&"tok-d".to_string()).unwrap();
    assert_eq!(found.id, uid);
    assert!(users.find_user_by_uuid(&"missing".to_string()).is_none());
}

#[test]
fn set_nick_name_replaces_only_the_name() {
    let mut users = UserManager::new();
    let uid = users.create_user_with_token("old".to_string(), "tok".to_string(), 3);
    assert!(users.set_nick_name(uid, "new".to_string()));
    let u = users.get(uid).unwrap();
    assert_eq!(u.nick_name, "new");
    assert_eq!(u.uuid, "tok");
    assert_eq!(u.login_timestamp, 3);
    assert!(!users.set_nick_name(99, "ghost".to_string()));
}

#[test]
fn find_first_by_predicate() {
    let mut users = UserManager::new();
    users.create_user_with_token("a".to_string(), "t1".to_string(), 0);
    let uid = users.create_user_with_token("b".to_string(), "t2".to_string(), 0);
    let found = users.find_first(|u: &User| u.nick_name == "b").unwrap();
    assert_eq!(found.id, uid);
    assert!(users.find_first(|u: &User| u.nick_name == "zzz").is_none());
}

#[test]
fn clock_reads_after_the_epoch() {
    // the machine clock is long past 2001
    assert!(cur_timestamp() > 1_000_000_000);
}
