use rocket_blog::blog::post_model::Post;
use rocket_blog::crypto::hash_password;
use rocket_blog::database::database_model::{dummy_admin_user, dummy_post, dummy_post_with, StateHandler};
use rocket_blog::database::model;
use rocket_blog::user::user_model::User;

const ADMIN_HASH: &str = "c7ad44cbad762a5da0a452f9e854fdc1e0e7a52a38015f23f3eab1d80b931dd472634dfac71cd34ebc35d16ab7fb8a90c81f975113d6c7538dc69dd8de9077ec";

fn user(name: &str, login: &str, rights: u8) -> User {
    User::new(
        name.to_string(),
        rights,
        format!("bio of {}", login),
        format!("@{}", login),
        format!("gh-{}", login),
        login.to_string(),
        hash_password(login),
    )
}

fn post(uuid: &str, author: &str) -> Post {
    Post::new(
        uuid.to_string(),
        "2021-01-01 10:00:00".to_string(),
        author.to_string(),
        format!("title {}", uuid),
        format!("body {}", uuid),
    )
}

fn store() -> StateHandler {
    let mut db = StateHandler::new();
    db.users.push(user("Alice", "alice", 1));
    db.users.push(user("Bob", "bob", 0));
    db.users.push(user("Bobby", "bob", 2));
    db.posts.push(post("p1", "bob"));
    db.posts.push(post("p2", "alice"));
    db.posts.push(post("p3", "bob"));
    db.posts.push(post("p1", "alice"));
    db
}

#[test]
fn hash_password_is_lower_hex_sha512() {
    assert_eq!(hash_password("admin"), ADMIN_HASH);
    assert_eq!(
        hash_password(""),
        "cf83e1357eefb8bdf1542850d66d8007d620e4050b5715dc83f4a921d36ce9ce47d0d13c5d85f2b0ff8318d2877eec2f63b931bd47417a81a538327af927da3e"
    );
    assert_eq!(
        hash_password("pässwörd"),
        "72c7fe1bd33b785746a9c94f9b80d2591cd38f3c13c8aa43f7537f32a2a8c5f9b5d1cee16b69f0212e0e39a94d83f57bcf3a26bae776007cebb01f0d6311273e"
    );
}

#[test]
fn new_store_is_empty() {
    let db = StateHandler::new();
    assert!(db.users.is_empty());
    assert!(db.posts.is_empty());
}

#[test]
fn get_user_returns_first_match() {
    let db = store();
    let found = db.get_user("bob").unwrap();
    assert_eq!(found.name, "Bob");
    assert_eq!(found.admin_rights, 0);
    assert_eq!(found, db.users[1]);
    assert!(db.get_user("carol").is_none());
    assert!(db.get_user("").is_none());
}

#[test]
fn user_ids_and_lookup_by_id() {
    let db = store();
    assert_eq!(db.get_user_id_by_username("alice"), Some(0));
    assert_eq!(db.get_user_id_by_username("bob"), Some(1));
    assert_eq!(db.get_user_id_by_username("Bob"), None);
    assert_eq!(db.get_user_by_id(2).unwrap().name, "Bobby");
    assert!(db.get_user_by_id(3).is_none());
}

#[test]
fn post_lookups() {
    let db = store();
    assert_eq!(db.get_post_id_by_uuid("p1"), Some(0));
    assert_eq!(db.get_post_id_by_uuid("p3"), Some(2));
    assert_eq!(db.get_post_id_by_uuid("nope"), None);
    assert_eq!(db.get_post_by_uuid("p1").unwrap().author, "bob");
    assert_eq!(db.get_post_by_id(3).unwrap().author, "alice");
    assert!(db.get_post_by_id(4).is_none());
    assert!(db.get_post_by_uuid("nope").is_none());
}

#[test]
fn posts_by_user_keep_store_order() {
    let db = store();
    let bobs = db.get_posts_by_user("bob");
    let ids: Vec<&str> = bobs.iter().map(|p| p.uuid.as_str()).collect();
    assert_eq!(ids, vec!["p1", "p3"]);
    assert!(db.get_posts_by_user("carol").is_empty());
}

#[test]
fn get_posts_copies_all() {
    let db = store();
    assert_eq!(db.get_posts(), db.posts);
}

#[test]
fn create_post_appends() {
    let mut db = store();
    db.create_post(post("p9", "carol"));
    assert_eq!(db.posts.len(), 5);
    assert_eq!(db.posts[4].uuid, "p9");
    assert_eq!(db.posts[0].uuid, "p1");
}

#[test]
fn dummy_admin_has_password_admin() {
    let admin = dummy_admin_user();
    assert_eq!(admin.name, "John Doe");
    assert_eq!(admin.admin_rights, 1);
    assert_eq!(admin.profile.bio, "Admin account, please delete me after adding real users");
    assert_eq!(admin.profile.twitter, "themangomago");
    assert_eq!(admin.profile.github, "themangomago");
    assert_eq!(admin.credentials.username, "admin");
    assert_eq!(admin.credentials.password_hash, ADMIN_HASH);
    assert!(admin.credentials.check_password("admin"));
    assert!(!admin.credentials.check_password("Admin"));
}

#[test]
fn dummy_post_fields() {
    let p = dummy_post_with("u-1".to_string(), "2020-05-01 12:00:00".to_string());
    assert_eq!(p.uuid, "u-1");
    assert_eq!(p.date, "2020-05-01 12:00:00");
    assert_eq!(p.author, "admin");
    assert_eq!(p.title, "Dummy post");
    assert_eq!(
        p.body,
        "This is a dummy post. Congratulations! Be sure to add some real content to it."
    );
}

#[test]
fn earlier_store_lookup_and_dummy() {
    let mut db = model::StateHandler::new();
    assert!(db.get_user("admin").is_none());
    db.users.push(model::dummy_user());
    let found = db.get_user("admin").unwrap();
    assert_eq!(found.get_name(), "John Doe");
    assert_eq!(found.get_profile(), "This is a dummy user");
    assert!(found.credentials.check_password("admin"));
    assert!(!found.credentials.check_password("secret"));
    assert!(db.get_user("root").is_none());
}

#[test]
fn dummy_post_has_fresh_uuid() {
    let p = dummy_post("2020-02-02 20:20:20".to_string());
    assert_eq!(p.uuid.len(), 36);
    assert_eq!(p.uuid.chars().nth(14), Some('4'));
    assert_eq!(p.uuid.matches('-').count(), 4);
    assert_eq!(p.date, "2020-02-02 20:20:20");
    assert_eq!(p.author, "admin");
    assert_eq!(p.title, "Dummy post");
    assert_ne!(dummy_post(String::new()).uuid, p.uuid);
}
