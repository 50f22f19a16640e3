use ocean::api::user_cache;
use ocean::api::user_cache::{get, init, parse_user_code, update_blocked, user_code, UserCache, UserData};
use ocean::types::{User, UserCode};

fn user(id: i32, name: &str) -> User {
    User { id, code: UserCode::User, name: name.to_string(), blocked: false }
}

fn row(id: i32, name: &str, token: &str, code: &str, blocked: bool) -> UserData {
    UserData { id, name: name.to_string(), token: token.to_string(), code: code.to_string(), blocked }
}

#[test]
fn empty_cache_holds_nothing() {
    let cache = UserCache::new();
    assert!(get(&cache, "").is_none());
    assert!(get(&cache, "T").is_none());
}

#[test]
fn get_returns_what_was_set() {
    let mut cache = UserCache::new();
    user_cache::set(&mut cache, "a", user(1, "Ann"));
    user_cache::set(&mut cache, "b", user(2, "Bob"));
    let ann = get(&cache, "a").unwrap();
    assert_eq!((ann.id, ann.name.as_str(), ann.code, ann.blocked), (1, "Ann", UserCode::User, false));
    assert_eq!(get(&cache, "b").unwrap().id, 2);
    assert!(get(&cache, "c").is_none());
    assert!(get(&cache, "A").is_none());
}

#[test]
fn set_replaces_the_entry_of_a_token() {
    let mut cache = UserCache::new();
    user_cache::set(&mut cache, "a", user(1, "Ann"));
    user_cache::set(&mut cache, "a", User { id: 3, code: UserCode::Admin, name: "Cy".to_string(), blocked: true });
    let found = get(&cache, "a").unwrap();
    assert_eq!((found.id, found.name.as_str(), found.code, found.blocked), (3, "Cy", UserCode::Admin, true));
}

#[test]
fn get_hands_out_a_copy() {
    let mut cache = UserCache::new();
    user_cache::set(&mut cache, "a", user(1, "Ann"));
    let mut copy = get(&cache, "a").unwrap();
    copy.blocked = true;
    copy.name.push_str("!!");
    let again = get(&cache, "a").unwrap();
    assert!(!again.blocked);
    assert_eq!(again.name, "Ann");
}

#[test]
fn update_blocked_patches_the_entry_of_the_user() {
    let mut cache = UserCache::new();
    user_cache::set(&mut cache, "a", user(1, "Ann"));
    user_cache::set(&mut cache, "b", user(2, "Bob"));
    update_blocked(&mut cache, 2, true);
    assert!(!get(&cache, "a").unwrap().blocked);
    let bob = get(&cache, "b").unwrap();
    assert!(bob.blocked);
    assert_eq!((bob.id, bob.name.as_str(), bob.code), (2, "Bob", UserCode::User));
    update_blocked(&mut cache, 2, false);
    assert!(!get(&cache, "b").unwrap().blocked);
}

#[test]
fn update_blocked_of_an_unknown_user_changes_nothing() {
    let mut cache = UserCache::new();
    user_cache::set(&mut cache, "a", user(1, "Ann"));
    update_blocked(&mut cache, 9, true);
    assert!(!get(&cache, "a").unwrap().blocked);
    let mut empty = UserCache::new();
    update_blocked(&mut empty, 1, true);
    assert!(get(&empty, "a").is_none());
}

#[test]
fn update_blocked_patches_one_of_several_tokens() {
    let mut cache = UserCache::new();
    user_cache::set(&mut cache, "old", user(1, "Ann"));
    user_cache::set(&mut cache, "new", user(1, "Ann"));
    update_blocked(&mut cache, 1, true);
    let blocked = ["old", "new"].iter().filter(|t| get(&cache, t).unwrap().blocked).count();
    assert_eq!(blocked, 1);
}

#[test]
fn role_codes() {
    assert_eq!(user_code("admin"), UserCode::Admin);
    assert_eq!(user_code("user"), UserCode::User);
    assert_eq!(user_code("anonym"), UserCode::Anonym);
    assert_eq!(parse_user_code("admin"), Some(UserCode::Admin));
    assert_eq!(parse_user_code("user"), Some(UserCode::User));
    assert_eq!(parse_user_code("anonym"), Some(UserCode::Anonym));
    assert_eq!(parse_user_code("Admin"), None);
    assert_eq!(parse_user_code(""), None);
    assert_eq!(parse_user_code("root"), None);
}

#[test]
fn init_loads_every_row() {
    let rows = vec![
        row(1, "Ann", "a", "admin", false),
        row(2, "Bob", "b", "user", true),
        row(3, "Guest", "g", "anonym", false),
        row(4, "Dan", "a", "user", false),
    ];
    let cache = init(rows);
    let a = get(&cache, "a").unwrap();
    assert_eq!((a.id, a.name.as_str(), a.code, a.blocked), (4, "Dan", UserCode::User, false));
    let b = get(&cache, "b").unwrap();
    assert_eq!((b.id, b.name.as_str(), b.code, b.blocked), (2, "Bob", UserCode::User, true));
    let g = get(&cache, "g").unwrap();
    assert_eq!((g.id, g.code), (3, UserCode::Anonym));
    assert!(get(&cache, "x").is_none());
    let empty = init(Vec::new());
    assert!(get(&empty, "a").is_none());
}
