use rocket_blog::crypto::hash_password;
use rocket_blog::database::database_model::{dummy_admin_user, StateHandler};
use rocket_blog::user::model;
use rocket_blog::user::user_model::{AuthenticatedUser, User, UserCredentials, UserProfile};
use rocket_blog::user::{
    add_user, delete_user, login_post, profile, settings, update_admin, update_password, update_profile,
    welcome_message, Login, LoginOutcome, SettingsAddUserForm, SettingsAdminUserForm, SettingsDeleteUserForm,
    SettingsOutcome, SettingsPasswordForm, SettingsProfileForm,
};
use rocket_blog::blog::post_model::Post;
use rocket_blog::Status;

fn user(login: &str, password: &str, rights: u8) -> User {
    User::new(
        format!("Name {}", login),
        rights,
        format!("bio {}", login),
        format!("tw {}", login),
        format!("gh {}", login),
        login.to_string(),
        hash_password(password),
    )
}

fn store() -> StateHandler {
    let mut db = StateHandler::new();
    db.users.push(user("admin", "admin", 1));
    db.users.push(user("bob", "secret", 0));
    db.users.push(user("root", "toor", 2));
    for i in 0..8 {
        db.posts.push(Post::new(
            format!("p{}", i),
            "d".to_string(),
            if i == 3 { "admin".to_string() } else { "bob".to_string() },
            format!("t{}", i),
            format!("b{}", i),
        ));
    }
    db
}

fn signed_in(login: &str) -> AuthenticatedUser {
    AuthenticatedUser { username: login.to_string() }
}

fn login(db: &StateHandler, name: &str, password: &str) -> LoginOutcome {
    login_post(&Login { username: name.to_string(), password: password.to_string() }, db)
}

#[test]
fn check_password_compares_hashes() {
    let creds = UserCredentials { username: "bob".to_string(), password_hash: hash_password("secret") };
    assert!(creds.check_password("secret"));
    assert!(!creds.check_password("Secret"));
    assert!(!creds.check_password(""));
    assert_eq!(
        UserCredentials::calc_password_hash("secret"),
        "bd2b1aaf7ef4f09be9f52ce2d8d599674d81aa9d6a4421696dc4d93dd0619d682ce56b4d64a9ef097761ced99e0f67265b5f76085e5b0ee7ca4696b2ad6fe2b2"
    );
}

#[test]
fn user_new_and_getters() {
    let u = User::new("N".into(), 3, "b".into(), "t".into(), "g".into(), "login".into(), "h".into());
    assert_eq!(u.admin_rights, 3);
    assert_eq!(u.profile, UserProfile { bio: "b".into(), twitter: "t".into(), github: "g".into() });
    assert_eq!(u.credentials, UserCredentials { username: "login".into(), password_hash: "h".into() });
    assert_eq!(u.get_name(), "N");
    assert_eq!(u.get_user("login"), Some(u.clone()));
    assert_eq!(u.get_user("Login"), None);
}

#[test]
fn earlier_user_record() {
    let u = model::User::new("N".into(), "P".into(), "login".into(), hash_password("pw"));
    assert_eq!(u.get_name(), "N");
    assert_eq!(u.get_profile(), "P");
    assert_eq!(u.credentials.username, "login");
    assert!(u.credentials.check_password("pw"));
    assert!(!u.credentials.check_password("pw "));
}

#[test]
fn login_succeeds_with_right_password() {
    let db = store();
    match login(&db, "admin", "admin") {
        LoginOutcome::LoggedIn { admin_cookie, welcome } => {
            assert_eq!(admin_cookie, Some(1));
            assert_eq!(welcome, "Welcome back, admin!");
        }
        LoginOutcome::Rejected => panic!("admin login refused"),
    }
    let bob = login(&db, "bob", "secret");
    assert_eq!(bob, LoginOutcome::LoggedIn { admin_cookie: None, welcome: "Welcome back, bob!".to_string() });
    assert_eq!(bob.redirect(), "/");
    assert_eq!(bob.message(), "Welcome back, bob!");
    assert!(matches!(login(&db, "root", "toor"), LoginOutcome::LoggedIn { admin_cookie: Some(2), .. }));
}

#[test]
fn login_rejects_wrong_password_or_unknown_user() {
    let db = store();
    let wrong = login(&db, "bob", "admin");
    assert_eq!(wrong, LoginOutcome::Rejected);
    assert_eq!(wrong.redirect(), "/user/login");
    assert_eq!(wrong.message(), "Error: User not found or password did not match.");
    assert_eq!(login(&db, "carol", "secret"), LoginOutcome::Rejected);
}

#[test]
fn welcome_message_text() {
    assert_eq!(welcome_message("ann"), "Welcome back, ann!");
    assert_eq!(welcome_message(""), "Welcome back, !");
}

#[test]
fn profile_shows_five_latest_posts() {
    let db = store();
    let page = profile("bob", &db).unwrap();
    assert_eq!(page.name, "Name bob");
    assert_eq!(page.userhandle, "bob");
    assert_eq!(page.profile.bio, "bio bob");
    let ids: Vec<&str> = page.posts.iter().map(|p| p.uuid.as_str()).collect();
    assert_eq!(ids, vec!["p0", "p1", "p2", "p4", "p5"]);
    let admin = profile("admin", &db).unwrap();
    assert_eq!(admin.posts.len(), 1);
    assert_eq!(profile("nobody", &db), Err(Status::NotFound));
}

#[test]
fn settings_hide_password_hashes() {
    let db = store();
    let admin = settings("admin", &db).unwrap();
    assert_eq!(admin.user.credentials.password_hash, "");
    assert_eq!(admin.user.profile.bio, "bio admin");
    let list = admin.users.unwrap();
    assert_eq!(list.len(), 3);
    for (shown, stored) in list.iter().zip(db.users.iter()) {
        assert_eq!(shown.name, stored.name);
        assert_eq!(shown.credentials.username, stored.credentials.username);
        assert_eq!(shown.admin_rights, stored.admin_rights);
        assert_eq!(shown.credentials.password_hash, "");
        assert_eq!(shown.profile.bio, "");
        assert_eq!(shown.profile.twitter, "");
        assert_eq!(shown.profile.github, "");
    }
    let bob = settings("bob", &db).unwrap();
    assert!(bob.users.is_none());
    assert!(settings("root", &db).unwrap().users.is_none());
    assert!(settings("nobody", &db).is_none());
}

#[test]
fn update_profile_keeps_credentials() {
    let mut db = store();
    let form = SettingsProfileForm {
        profile_name: "Robert".into(),
        profile_bio: "new bio".into(),
        profile_twitter: "@rob".into(),
        profile_github: "robgh".into(),
    };
    assert_eq!(update_profile(&signed_in("bob"), form, &mut db), Ok(()));
    let bob = &db.users[1];
    assert_eq!(bob.name, "Robert");
    assert_eq!(bob.profile, UserProfile { bio: "new bio".into(), twitter: "@rob".into(), github: "robgh".into() });
    assert_eq!(bob.credentials.username, "bob");
    assert_eq!(bob.credentials.password_hash, hash_password("secret"));
    assert_eq!(bob.admin_rights, 0);
}

#[test]
fn password_change_outcomes() {
    let mut db = store();
    let before = db.users.clone();
    let wrong = SettingsPasswordForm { password_old: "nope".into(), password_new: "a".into(), password_confirm: "a".into() };
    let outcome = update_password(&signed_in("bob"), &wrong, &mut db);
    assert_eq!(outcome, SettingsOutcome::CurrentPasswordWrong);
    assert_eq!(outcome.message(), "Current password does not match.");
    assert_eq!(outcome.redirect(), "/user/settings");
    assert!(!outcome.is_success());
    let mismatch = SettingsPasswordForm { password_old: "secret".into(), password_new: "a".into(), password_confirm: "b".into() };
    let outcome = update_password(&signed_in("bob"), &mismatch, &mut db);
    assert_eq!(outcome, SettingsOutcome::NewPasswordMismatch);
    assert_eq!(outcome.message(), "New password does not match the confirm password.");
    assert_eq!(db.users, before);
    let good = SettingsPasswordForm { password_old: "secret".into(), password_new: "new-pass".into(), password_confirm: "new-pass".into() };
    let outcome = update_password(&signed_in("bob"), &good, &mut db);
    assert_eq!(outcome, SettingsOutcome::PasswordChanged);
    assert_eq!(outcome.message(), "Password has been changed successfully.");
    assert_eq!(outcome.redirect(), "/");
    assert!(outcome.is_success());
    assert_eq!(
        db.users[1].credentials.password_hash,
        "f7b418f479e782a7742fa67cc36b043f3b382197729729302628225abb67fafc757dde9e943b289231f711f51e955b4c3125001861792cee2dc29e581565b267"
    );
    assert!(matches!(login(&db, "bob", "new-pass"), LoginOutcome::LoggedIn { .. }));
    assert_eq!(login(&db, "bob", "secret"), LoginOutcome::Rejected);
}

#[test]
fn add_user_by_admin_creates_account_that_logs_in() {
    let mut db = store();
    let form = SettingsAddUserForm { user_name: "carol".into(), user_password: "pw".into(), user_admin: true };
    let outcome = add_user(&signed_in("admin"), form, &mut db);
    assert_eq!(outcome, SettingsOutcome::UserCreated);
    assert_eq!(outcome.message(), "User has been created.");
    assert_eq!(db.users.len(), 4);
    let carol = &db.users[3];
    assert_eq!(carol.name, "carol");
    assert_eq!(carol.credentials.username, "carol");
    assert_eq!(carol.admin_rights, 1);
    assert_eq!(carol.profile, UserProfile { bio: String::new(), twitter: String::new(), github: String::new() });
    assert!(matches!(login(&db, "carol", "pw"), LoginOutcome::LoggedIn { admin_cookie: Some(1), .. }));
    let plain = SettingsAddUserForm { user_name: "dave".into(), user_password: "pw".into(), user_admin: false };
    assert_eq!(add_user(&signed_in("admin"), plain, &mut db), SettingsOutcome::UserCreated);
    assert_eq!(db.users[4].admin_rights, 0);
}

#[test]
fn add_user_refusals() {
    let mut db = store();
    let before = db.users.clone();
    let form = SettingsAddUserForm { user_name: "carol".into(), user_password: "pw".into(), user_admin: false };
    let outcome = add_user(&signed_in("bob"), form, &mut db);
    assert_eq!(outcome, SettingsOutcome::GeneralError);
    assert_eq!(outcome.message(), "General Error");
    let form = SettingsAddUserForm { user_name: "carol".into(), user_password: "pw".into(), user_admin: false };
    assert_eq!(add_user(&signed_in("root"), form, &mut db), SettingsOutcome::GeneralError);
    let taken = SettingsAddUserForm { user_name: "bob".into(), user_password: "pw".into(), user_admin: false };
    let outcome = add_user(&signed_in("admin"), taken, &mut db);
    assert_eq!(outcome, SettingsOutcome::UserExists);
    assert_eq!(outcome.message(), "User with that name already exists.");
    assert_eq!(db.users, before);
}

#[test]
fn delete_user_outcomes() {
    let mut db = store();
    let before = db.users.clone();
    let form = SettingsDeleteUserForm { user_name: "root".into() };
    assert_eq!(delete_user(&signed_in("bob"), &form, &mut db), SettingsOutcome::GeneralError);
    assert_eq!(db.users, before);
    let outcome = delete_user(&signed_in("admin"), &form, &mut db);
    assert_eq!(outcome, SettingsOutcome::UserDeleted);
    assert_eq!(outcome.message(), "User has been deleted.");
    assert_eq!(db.users.len(), 2);
    assert!(db.get_user("root").is_none());
    let missing = SettingsDeleteUserForm { user_name: "nobody".into() };
    assert_eq!(delete_user(&signed_in("admin"), &missing, &mut db), SettingsOutcome::UserDeleted);
    assert_eq!(db.users.len(), 2);
}

#[test]
fn update_admin_switches_rights() {
    let mut db = store();
    let form = SettingsAdminUserForm { user_name: "bob".into() };
    let outcome = update_admin(&signed_in("admin"), &form, &mut db);
    assert_eq!(outcome, SettingsOutcome::AdminRightsChanged);
    assert_eq!(outcome.message(), "Admin rights have been changed successfully.");
    assert_eq!(db.users[1].admin_rights, 1);
    assert_eq!(update_admin(&signed_in("admin"), &form, &mut db), SettingsOutcome::AdminRightsChanged);
    assert_eq!(db.users[1].admin_rights, 0);
    let root = SettingsAdminUserForm { user_name: "root".into() };
    update_admin(&signed_in("admin"), &root, &mut db);
    assert_eq!(db.users[2].admin_rights, 1);
    let before = db.users.clone();
    assert_eq!(update_admin(&signed_in("bob"), &root, &mut db), SettingsOutcome::GeneralError);
    assert_eq!(db.users, before);
}

#[test]
fn fresh_store_admin_logs_in_with_admin() {
    let mut db = StateHandler::new();
    db.users.push(dummy_admin_user());
    assert_eq!(
        login(&db, "admin", "admin"),
        LoginOutcome::LoggedIn { admin_cookie: Some(1), welcome: "Welcome back, admin!".to_string() }
    );
    assert_eq!(login(&db, "admin", "password"), LoginOutcome::Rejected);
}

#[test]
fn deleting_a_new_account_restores_the_store() {
    let mut db = store();
    let before = db.users.clone();
    let form = SettingsAddUserForm { user_name: "erin".into(), user_password: "pw".into(), user_admin: false };
    assert_eq!(add_user(&signed_in("admin"), form, &mut db), SettingsOutcome::UserCreated);
    let gone = SettingsDeleteUserForm { user_name: "erin".into() };
    assert_eq!(delete_user(&signed_in("admin"), &gone, &mut db), SettingsOutcome::UserDeleted);
    assert_eq!(db.users, before);
}

#[test]
fn added_accounts_keep_login_names_unique() {
    let mut db = store();
    for name in ["carol", "dave", "carol", "bob", "erin"] {
        let form = SettingsAddUserForm { user_name: name.into(), user_password: "pw".into(), user_admin: false };
        add_user(&signed_in("admin"), form, &mut db);
    }
    let mut names: Vec<&str> = db.users.iter().map(|u| u.credentials.username.as_str()).collect();
    assert_eq!(names.len(), 6);
    names.sort();
    names.dedup();
    assert_eq!(names.len(), 6);
}
