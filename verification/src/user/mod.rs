//! User accounts: login, profiles and the settings actions.
use vstd::prelude::*;
use vstd::string::*;

use crate::blog::post_model::Post;
use crate::crypto::password_hash_of;
use crate::database::database_model::{
    admin_rights_of,
    has_user_named,
    is_first_user_named,
    posts_by_author,
    written_by,
    unique_usernames,
    user_position,
    StateHandler,
};
use crate::Status;

use self::user_model::{AuthenticatedUser, User, UserCredentials, UserProfile};

pub mod model;
pub mod user_model;

verus! {

/// The login form.
#[derive(Debug, PartialEq, Eq)]
pub struct Login {
    pub username: String,
    pub password: String,
}

/// The form that replaces a user's display name and profile.
#[derive(Debug, PartialEq, Eq)]
pub struct SettingsProfileForm {
    pub profile_name: String,
    pub profile_bio: String,
    pub profile_twitter: String,
    pub profile_github: String,
}

/// The form that changes a user's own password.
#[derive(Debug, PartialEq, Eq)]
pub struct SettingsPasswordForm {
    pub password_old: String,
    pub password_new: String,
    pub password_confirm: String,
}

/// The administrator's form that creates an account.
#[derive(Debug, PartialEq, Eq)]
pub struct SettingsAddUserForm {
    pub user_name: String,
    pub user_password: String,
    pub user_admin: bool,
}

/// The administrator's form that deletes an account.
#[derive(Debug, PartialEq, Eq)]
pub struct SettingsDeleteUserForm {
    pub user_name: String,
}

/// The administrator's form that switches an account's admin rights.
#[derive(Debug, PartialEq, Eq)]
pub struct SettingsAdminUserForm {
    pub user_name: String,
}

/// Whether the store accepts `password` for the login name `username`: the
/// first user with that name has the password's hash.
pub open spec fn login_accepts(users: Seq<User>, username: Seq<char>, password: Seq<char>) -> bool {
    match user_position(users, username) {
        Some(i) => users[i].credentials.password_hash@ == password_hash_of(password),
        None => false,
    }
}

/// The answer to a login attempt.
#[derive(Debug, PartialEq, Eq)]
pub enum LoginOutcome {
    /// The session starts; an admin cookie with the user's level is set
    /// where that level is above 0.
    LoggedIn { admin_cookie: Option<u8>, welcome: String },
    Rejected,
}

impl LoginOutcome {
    /// The page that the answer redirects to.
    pub fn redirect(&self) -> (path: &'static str)
        ensures
            path@ == (if self is LoggedIn {
                "/"@
            } else {
                "/user/login"@
            }),
    {
        match self {
            LoginOutcome::LoggedIn { .. } => "/",
            LoginOutcome::Rejected => "/user/login",
        }
    }

    /// The message shown after the redirect.
    pub fn message(&self) -> (text: &str)
        ensures
            text@ == (match self {
                LoginOutcome::LoggedIn { welcome, .. } => welcome@,
                LoginOutcome::Rejected => "Error: User not found or password did not match."@,
            }),
    {
        match self {
            LoginOutcome::LoggedIn { welcome, .. } => welcome.as_str(),
            LoginOutcome::Rejected => "Error: User not found or password did not match.",
        }
    }
}

/// The greeting after a successful login.
pub fn welcome_message(username: &str) -> (text: String)
    ensures
        text@ == "Welcome back, "@ + username@ + "!"@,
{
    let mut text = "Welcome back, ".to_owned();
    text.append(username);
    text.append("!");
    text
}

/// Checks a login form against the user store.
pub fn login_post(form: &Login, database: &StateHandler) -> (outcome: LoginOutcome)
    ensures
        match outcome {
            LoginOutcome::LoggedIn { admin_cookie, welcome } => {
                &&& login_accepts(database.users@, form.username@, form.password@)
                &&& welcome@ == "Welcome back, "@ + form.username@ + "!"@
                &&& admin_cookie == (if admin_rights_of(database.users@, form.username@) > 0 {
                    Some(admin_rights_of(database.users@, form.username@))
                } else {
                    None
                })
            },
            LoginOutcome::Rejected => !login_accepts(database.users@, form.username@, form.password@),
        },
{
    let user = database.get_user(form.username.as_str());
    if user.is_some() {
        let user = user.unwrap();
        if user.credentials.check_password(form.password.as_str()) {
            let admin_level: u8 = user.admin_rights;
            let admin_cookie = if admin_level > 0 {
                Some(admin_level)
            } else {
                None
            };
            return LoginOutcome::LoggedIn {
                admin_cookie,
                welcome: welcome_message(form.username.as_str()),
            };
        }
    }
    LoginOutcome::Rejected
}

/// The most recent posts of `author` that a profile shows: the first five
/// of them in store order.
pub open spec fn latest_posts(posts: Seq<Post>, author: Seq<char>) -> Seq<Post> {
    let all = posts_by_author(posts, author);
    if all.len() <= 5 {
        all
    } else {
        all.take(5)
    }
}

/// What a profile page shows.
#[derive(Debug, PartialEq, Eq)]
pub struct ProfileView {
    pub name: String,
    pub userhandle: String,
    pub profile: UserProfile,
    pub posts: Vec<Post>,
}

/// The profile page of `username`, or `NotFound`.
pub fn profile(username: &str, database: &StateHandler) -> (page: Result<ProfileView, Status>)
    ensures
        match user_position(database.users@, username@) {
            Some(i) => page matches Ok(view) && {
                &&& view.name == database.users@[i].name
                &&& view.userhandle@ == username@
                &&& view.profile == database.users@[i].profile
                &&& view.posts@ == latest_posts(database.posts@, username@)
                &&& view.posts@.len() == if posts_by_author(database.posts@, username@).len() <= 5 {
                    posts_by_author(database.posts@, username@).len()
                } else {
                    5
                }
                &&& view.posts@ == posts_by_author(database.posts@, username@).take(
                    view.posts@.len() as int,
                )
            },
            None => page == Err::<ProfileView, Status>(Status::NotFound),
        },
{
    let user = database.get_user(username);
    if user.is_some() {
        let user = user.unwrap();
        let user_profile = UserProfile {
            bio: user.profile.bio,
            twitter: user.profile.twitter,
            github: user.profile.github,
        };
        let mut posts = database.get_posts_by_user(username);
        posts.truncate(5);
        return Ok(
            ProfileView { name: user.name, userhandle: username.to_owned(), profile: user_profile, posts },
        );
    }
    Err(Status::NotFound)
}

/// `shown` is `user` with the password hash left empty.
pub open spec fn is_settings_copy(shown: User, user: User) -> bool {
    &&& shown.name == user.name
    &&& shown.admin_rights == user.admin_rights
    &&& shown.profile == user.profile
    &&& shown.credentials.username == user.credentials.username
    &&& shown.credentials.password_hash@ == Seq::<char>::empty()
}

/// `shown` is `user` as the administrator's list shows it: name, login name
/// and admin rights, with password hash and profile left empty.
pub open spec fn is_listing_entry(shown: User, user: User) -> bool {
    &&& shown.name == user.name
    &&& shown.admin_rights == user.admin_rights
    &&& shown.credentials.username == user.credentials.username
    &&& shown.credentials.password_hash@ == Seq::<char>::empty()
    &&& shown.profile.bio@ == Seq::<char>::empty()
    &&& shown.profile.twitter@ == Seq::<char>::empty()
    &&& shown.profile.github@ == Seq::<char>::empty()
}

/// What the settings page shows: the user's own record and, for an
/// administrator, the list of all users.
#[derive(Debug, PartialEq, Eq)]
pub struct SettingsView {
    pub user: User,
    pub users: Option<Vec<User>>,
}

/// The settings page of `username`; `None` where no such user exists.
pub fn settings(username: &str, database: &StateHandler) -> (page: Option<SettingsView>)
    ensures
        match user_position(database.users@, username@) {
            None => page is None,
            Some(i) => page matches Some(view) && {
                &&& is_settings_copy(view.user, database.users@[i])
                &&& view.user.name == database.users@[i].name
                &&& view.user.admin_rights == database.users@[i].admin_rights
                &&& view.user.profile == database.users@[i].profile
                &&& view.user.credentials.username == database.users@[i].credentials.username
                &&& view.user.credentials.password_hash@.len() == 0
                &&& if database.users@[i].admin_rights == 1 {
                    view.users matches Some(list) && list@.len() == database.users@.len() && forall|k: int|
                        0 <= k < list@.len() ==> #[trigger] is_listing_entry(list@[k], database.users@[k])
                } else {
                    view.users is None
                }
            },
        },
{
    let user = database.get_user(username);
    if user.is_some() {
        let user_data = user.unwrap();
        let admin_rights = user_data.admin_rights;
        let user = User {
            name: user_data.name,
            credentials: UserCredentials {
                username: user_data.credentials.username,
                password_hash: String::new(),
            },
            profile: user_data.profile,
            admin_rights: user_data.admin_rights,
        };
        let mut listing: Option<Vec<User>> = None;
        if admin_rights == 1 {
            let mut users: Vec<User> = Vec::new();
            let mut k: usize = 0;
            while k < database.users.len()
                invariant
                    k <= database.users@.len(),
                    users@.len() == k,
                    forall|m: int| 0 <= m < k ==> #[trigger] is_listing_entry(users@[m], database.users@[m]),
                decreases database.users@.len() - k,
            {
                let record = &database.users[k];
                let entry = User {
                    name: record.name.clone(),
                    credentials: UserCredentials {
                        username: record.credentials.username.clone(),
                        password_hash: String::new(),
                    },
                    profile: UserProfile { bio: String::new(), twitter: String::new(), github: String::new() },
                    admin_rights: record.admin_rights,
                };
                users.push(entry);
                k = k + 1;
            }
            listing = Some(users);
        }
        return Some(SettingsView { user, users: listing });
    }
    None
}

/// The answer to a settings action.
#[derive(Debug, Clone, Copy, PartialEq, Eq)]
pub enum SettingsOutcome {
    PasswordChanged,
    NewPasswordMismatch,
    CurrentPasswordWrong,
    GeneralError,
    UserExists,
    UserCreated,
    UserDeleted,
    AdminRightsChanged,
}

/// The text shown for each answer.
pub open spec fn settings_message(outcome: SettingsOutcome) -> Seq<char> {
    match outcome {
        SettingsOutcome::PasswordChanged => "Password has been changed successfully."@,
        SettingsOutcome::NewPasswordMismatch => "New password does not match the confirm password."@,
        SettingsOutcome::CurrentPasswordWrong => "Current password does not match."@,
        SettingsOutcome::GeneralError => "General Error"@,
        SettingsOutcome::UserExists => "User with that name already exists."@,
        SettingsOutcome::UserCreated => "User has been created."@,
        SettingsOutcome::UserDeleted => "User has been deleted."@,
        SettingsOutcome::AdminRightsChanged => "Admin rights have been changed successfully."@,
    }
}

/// The answers that report success.
pub open spec fn settings_success(outcome: SettingsOutcome) -> bool {
    ||| outcome == SettingsOutcome::PasswordChanged
    ||| outcome == SettingsOutcome::UserCreated
    ||| outcome == SettingsOutcome::UserDeleted
    ||| outcome == SettingsOutcome::AdminRightsChanged
}

impl SettingsOutcome {
    /// Whether the answer is shown as a success rather than an error.
    pub fn is_success(&self) -> (success: bool)
        ensures
            success == settings_success(*self),
            success == (match *self {
                SettingsOutcome::PasswordChanged => true,
                SettingsOutcome::UserCreated => true,
                SettingsOutcome::UserDeleted => true,
                SettingsOutcome::AdminRightsChanged => true,
                _ => false,
            }),
    {
        match self {
            SettingsOutcome::PasswordChanged => true,
            SettingsOutcome::UserCreated => true,
            SettingsOutcome::UserDeleted => true,
            SettingsOutcome::AdminRightsChanged => true,
            _ => false,
        }
    }

    /// The page that the answer redirects to: the front page after a
    /// password change, the settings page otherwise.
    pub fn redirect(&self) -> (path: &'static str)
        ensures
            path@ == (if *self == SettingsOutcome::PasswordChanged {
                "/"@
            } else {
                "/user/settings"@
            }),
    {
        match self {
            SettingsOutcome::PasswordChanged => "/",
            _ => "/user/settings",
        }
    }

    /// The message shown after the redirect.
    pub fn message(&self) -> (text: &'static str)
        ensures
            text@ == settings_message(*self),
    {
        match self {
            SettingsOutcome::PasswordChanged => "Password has been changed successfully.",
            SettingsOutcome::NewPasswordMismatch => "New password does not match the confirm password.",
            SettingsOutcome::CurrentPasswordWrong => "Current password does not match.",
            SettingsOutcome::GeneralError => "General Error",
            SettingsOutcome::UserExists => "User with that name already exists.",
            SettingsOutcome::UserCreated => "User has been created.",
            SettingsOutcome::UserDeleted => "User has been deleted.",
            SettingsOutcome::AdminRightsChanged => "Admin rights have been changed successfully.",
        }
    }
}

/// Replaces the display name and profile of the signed-in user; the login
/// name, password hash and admin rights stay.
pub fn update_profile(
    user: &AuthenticatedUser,
    form: SettingsProfileForm,
    database: &mut StateHandler,
) -> (result: Result<(), Status>)
    requires
        has_user_named(old(database).users@, user.username@),
    ensures
        result == Ok::<(), Status>(()),
        ({
            let i = user_position(old(database).users@, user.username@)->0;
            let record = old(database).users@[i];
            final(database).users@ == old(database).users@.update(
                i,
                User {
                    name: form.profile_name,
                    admin_rights: record.admin_rights,
                    profile: UserProfile {
                        bio: form.profile_bio,
                        twitter: form.profile_twitter,
                        github: form.profile_github,
                    },
                    credentials: record.credentials,
                },
            )
        }),
        final(database).posts@ == old(database).posts@,
        unique_usernames(old(database).users@) ==> unique_usernames(final(database).users@),
{
    let user_id = database.get_user_id_by_username(user.username.as_str()).unwrap();
    let user_data = database.get_user_by_id(user_id);
    if user_data.is_some() {
        let user_data = user_data.unwrap();
        if user.username == user_data.credentials.username {
            let updated = User {
                name: form.profile_name,
                credentials: user_data.credentials.clone(),
                profile: UserProfile {
                    bio: form.profile_bio,
                    twitter: form.profile_twitter,
                    github: form.profile_github,
                },
                admin_rights: user_data.admin_rights,
            };
            database.users.set(user_id, updated);
            return Ok(());
        } else {
            return Err(Status::Unauthorized);
        }
    }
    Ok(())
}

/// Changes the signed-in user's password, where the current password
/// matches and the new one equals its confirmation.
pub fn update_password(
    user: &AuthenticatedUser,
    form: &SettingsPasswordForm,
    database: &mut StateHandler,
) -> (outcome: SettingsOutcome)
    requires
        has_user_named(old(database).users@, user.username@),
    ensures
        ({
            let i = user_position(old(database).users@, user.username@)->0;
            let record = old(database).users@[i];
            if record.credentials.password_hash@ != password_hash_of(form.password_old@) {
                &&& outcome == SettingsOutcome::CurrentPasswordWrong
                &&& final(database).users@ == old(database).users@
            } else if form.password_confirm@ != form.password_new@ {
                &&& outcome == SettingsOutcome::NewPasswordMismatch
                &&& final(database).users@ == old(database).users@
            } else {
                let changed = final(database).users@[i];
                &&& outcome == SettingsOutcome::PasswordChanged
                &&& final(database).users@ == old(database).users@.update(i, changed)
                &&& changed.name == record.name
                &&& changed.admin_rights == record.admin_rights
                &&& changed.profile == record.profile
                &&& changed.credentials.username == record.credentials.username
                &&& changed.credentials.password_hash@ == password_hash_of(form.password_new@)
            }
        }),
        final(database).posts@ == old(database).posts@,
        unique_usernames(old(database).users@) ==> unique_usernames(final(database).users@),
{
    let user_id = database.get_user_id_by_username(user.username.as_str()).unwrap();
    let user_data = database.get_user_by_id(user_id);
    if user_data.is_some() {
        let user_data = user_data.unwrap();
        if user.username == user_data.credentials.username {
            if user_data.credentials.check_password(form.password_old.as_str()) {
                if form.password_confirm == form.password_new {
                    let password_hash = UserCredentials::calc_password_hash(form.password_new.as_str());
                    let mut changed = user_data;
                    changed.credentials.password_hash = password_hash;
                    database.users.set(user_id, changed);
                    return SettingsOutcome::PasswordChanged;
                } else {
                    return SettingsOutcome::NewPasswordMismatch;
                }
            } else {
                return SettingsOutcome::CurrentPasswordWrong;
            }
        }
    }
    SettingsOutcome::GeneralError
}

/// `user` is the account that the add-user form describes: display and login
/// name from the form, the password's hash, an empty profile, and admin
/// rights 1 where the form asks for them, 0 otherwise.
pub open spec fn is_new_account(user: User, form: SettingsAddUserForm) -> bool {
    &&& user.name == form.user_name
    &&& user.credentials.username == form.user_name
    &&& user.credentials.password_hash@ == password_hash_of(form.user_password@)
    &&& user.profile.bio@ == Seq::<char>::empty()
    &&& user.profile.twitter@ == Seq::<char>::empty()
    &&& user.profile.github@ == Seq::<char>::empty()
    &&& user.admin_rights == (if form.user_admin {
        1u8
    } else {
        0u8
    })
}

/// The administrator's action that creates an account with a fresh login name.
pub fn add_user(
    user: &AuthenticatedUser,
    form: SettingsAddUserForm,
    database: &mut StateHandler,
) -> (outcome: SettingsOutcome)
    requires
        has_user_named(old(database).users@, user.username@),
    ensures
        if admin_rights_of(old(database).users@, user.username@) != 1 {
            &&& outcome == SettingsOutcome::GeneralError
            &&& final(database).users@ == old(database).users@
        } else if has_user_named(old(database).users@, form.user_name@) {
            &&& outcome == SettingsOutcome::UserExists
            &&& final(database).users@ == old(database).users@
        } else {
            &&& outcome == SettingsOutcome::UserCreated
            &&& final(database).users@ == old(database).users@.push(final(database).users@.last())
            &&& is_new_account(final(database).users@.last(), form)
        },
        final(database).posts@ == old(database).posts@,
        unique_usernames(old(database).users@) ==> unique_usernames(final(database).users@),
{
    let user_id = database.get_user_id_by_username(user.username.as_str()).unwrap();
    let user_data = database.get_user_by_id(user_id);
    if user_data.is_none() {
        return SettingsOutcome::GeneralError;
    }
    let user_data = user_data.unwrap();
    if user_data.admin_rights != 1 {
        return SettingsOutcome::GeneralError;
    }
    if database.get_user_id_by_username(form.user_name.as_str()).is_some() {
        return SettingsOutcome::UserExists;
    }
    let admin_right: u8 = if form.user_admin {
        1
    } else {
        0
    };
    let password_hash = UserCredentials::calc_password_hash(form.user_password.as_str());
    let login = form.user_name.clone();
    let new_user = User {
        name: form.user_name,
        credentials: UserCredentials { username: login, password_hash: password_hash },
        profile: UserProfile { bio: String::new(), twitter: String::new(), github: String::new() },
        admin_rights: admin_right,
    };
    database.users.push(new_user);
    SettingsOutcome::UserCreated
}

/// The administrator's action that deletes the first account with a login name.
pub fn delete_user(
    user: &AuthenticatedUser,
    form: &SettingsDeleteUserForm,
    database: &mut StateHandler,
) -> (outcome: SettingsOutcome)
    requires
        has_user_named(old(database).users@, user.username@),
    ensures
        if admin_rights_of(old(database).users@, user.username@) != 1 {
            &&& outcome == SettingsOutcome::GeneralError
            &&& final(database).users@ == old(database).users@
        } else {
            &&& outcome == SettingsOutcome::UserDeleted
            &&& final(database).users@ == match user_position(old(database).users@, form.user_name@) {
                Some(j) => old(database).users@.remove(j),
                None => old(database).users@,
            }
        },
        final(database).posts@ == old(database).posts@,
        unique_usernames(old(database).users@) ==> unique_usernames(final(database).users@),
{
    let user_id = database.get_user_id_by_username(user.username.as_str()).unwrap();
    let user_data = database.get_user_by_id(user_id);
    if user_data.is_none() {
        return SettingsOutcome::GeneralError;
    }
    let user_data = user_data.unwrap();
    if user_data.admin_rights != 1 {
        return SettingsOutcome::GeneralError;
    }
    let delete_user_id = database.get_user_id_by_username(form.user_name.as_str());
    if delete_user_id.is_some() {
        database.users.remove(delete_user_id.unwrap());
    }
    SettingsOutcome::UserDeleted
}

/// The admin rights that the switch gives: 0 for an account at 1, 1 for any other.
pub open spec fn toggled_rights(rights: u8) -> u8 {
    if rights == 1 {
        0
    } else {
        1
    }
}

/// The administrator's action that switches an account's admin rights.
pub fn update_admin(
    user: &AuthenticatedUser,
    form: &SettingsAdminUserForm,
    database: &mut StateHandler,
) -> (outcome: SettingsOutcome)
    requires
        has_user_named(old(database).users@, user.username@),
        admin_rights_of(old(database).users@, user.username@) == 1 ==> has_user_named(
            old(database).users@,
            form.user_name@,
        ),
    ensures
        if admin_rights_of(old(database).users@, user.username@) != 1 {
            &&& outcome == SettingsOutcome::GeneralError
            &&& final(database).users@ == old(database).users@
        } else {
            let j = user_position(old(database).users@, form.user_name@)->0;
            let record = old(database).users@[j];
            &&& outcome == SettingsOutcome::AdminRightsChanged
            &&& final(database).users@ == old(database).users@.update(
                j,
                User { admin_rights: toggled_rights(record.admin_rights), ..record },
            )
        },
        final(database).posts@ == old(database).posts@,
        unique_usernames(old(database).users@) ==> unique_usernames(final(database).users@),
{
    let user_id = database.get_user_id_by_username(user.username.as_str()).unwrap();
    let user_data = database.get_user_by_id(user_id);
    if user_data.is_none() {
        return SettingsOutcome::GeneralError;
    }
    let user_data = user_data.unwrap();
    if user_data.admin_rights != 1 {
        return SettingsOutcome::GeneralError;
    }
    let update_user_id = database.get_user_id_by_username(form.user_name.as_str());
    let update_user_data = database.get_user_by_id(update_user_id.unwrap());
    if update_user_data.is_some() {
        let update_user_data = update_user_data.unwrap();
        let admin_right: u8 = if update_user_data.admin_rights == 1 {
            0
        } else {
            1
        };
        let mut changed = update_user_data;
        changed.admin_rights = admin_right;
        database.users.set(update_user_id.unwrap(), changed);
    }
    SettingsOutcome::AdminRightsChanged
}


/// An account that the add-user action creates can log in with the password
/// given in the form.
pub proof fn lemma_new_account_logs_in(users: Seq<User>, account: User, form: SettingsAddUserForm)
    requires
        !has_user_named(users, form.user_name@),
        is_new_account(account, form),
    ensures
        login_accepts(users.push(account), form.user_name@, form.user_password@),
{
    let added = users.push(account);
    let n = users.len() as int;
    assert(added[n] == account);
    assert forall|j: int| 0 <= j < n implies #[trigger] added[j].credentials.username@ != form.user_name@ by {
        assert(added[j] == users[j]);
    }
    assert(is_first_user_named(added, form.user_name@, n));
    assert forall|k: int| is_first_user_named(added, form.user_name@, k) implies k == n by {
        if k < n {
            assert(added[k] == users[k]);
        }
    }
}

/// After a password change, the account logs in with the new password.
pub proof fn lemma_changed_password_logs_in(
    users: Seq<User>,
    username: Seq<char>,
    changed: User,
    new_password: Seq<char>,
)
    requires
        user_position(users, username) is Some,
        changed.credentials.username == users[user_position(users, username)->0].credentials.username,
        changed.credentials.password_hash@ == password_hash_of(new_password),
    ensures
        login_accepts(
            users.update(user_position(users, username)->0, changed),
            username,
            new_password,
        ),
{
    let i = user_position(users, username)->0;
    let updated = users.update(i, changed);
    assert(is_first_user_named(users, username, i));
    assert(is_first_user_named(updated, username, i));
    assert forall|k: int| is_first_user_named(updated, username, k) implies k == i by {
        if k < i {
            assert(updated[k] == users[k]);
        }
    }
}

/// The account that an empty user store starts with logs in as `admin`
/// with the password `admin`.
pub proof fn lemma_dummy_admin_logs_in(admin: User)
    requires
        admin.credentials.username@ == "admin"@,
        admin.credentials.password_hash@ == password_hash_of("admin"@),
    ensures
        login_accepts(seq![admin], "admin"@, "admin"@),
{
    let users = seq![admin];
    assert(is_first_user_named(users, "admin"@, 0));
}

/// Where login names are unique, deleting the account with a login name
/// leaves no account with that name.
pub proof fn lemma_deleted_name_is_gone(users: Seq<User>, username: Seq<char>)
    requires
        unique_usernames(users),
        user_position(users, username) is Some,
    ensures
        !has_user_named(users.remove(user_position(users, username)->0), username),
{
    let j = user_position(users, username)->0;
    let rest = users.remove(j);
    assert(is_first_user_named(users, username, j));
    assert forall|k: int| 0 <= k < rest.len() implies #[trigger] rest[k].credentials.username@ != username by {
        if k < j {
            assert(rest[k] == users[k]);
        } else {
            assert(rest[k] == users[k + 1]);
            assert(users[j].credentials.username@ != users[k + 1].credentials.username@);
        }
    }
}

/// Deleting the account that the add-user action just created gives back the
/// user store as it was before.
pub proof fn lemma_delete_undoes_add(users: Seq<User>, account: User, form: SettingsAddUserForm)
    requires
        !has_user_named(users, form.user_name@),
        is_new_account(account, form),
    ensures
        user_position(users.push(account), form.user_name@) == Some(users.len() as int),
        users.push(account).remove(users.len() as int) == users,
{
    let added = users.push(account);
    let n = users.len() as int;
    assert forall|j: int| 0 <= j < n implies #[trigger] added[j].credentials.username@ != form.user_name@ by {
        assert(added[j] == users[j]);
    }
    assert(is_first_user_named(added, form.user_name@, n));
    assert forall|k: int| is_first_user_named(added, form.user_name@, k) implies k == n by {
        if k < n {
            assert(added[k] == users[k]);
        }
    }
    assert(added.remove(n) =~= users);
}

/// Adding an account whose login name no user has keeps login names unique.
pub proof fn lemma_fresh_name_keeps_unique(users: Seq<User>, account: User)
    requires
        unique_usernames(users),
        !has_user_named(users, account.credentials.username@),
    ensures
        unique_usernames(users.push(account)),
{
    let added = users.push(account);
    let n = users.len() as int;
    assert forall|i: int, j: int|
        0 <= i < added.len() && 0 <= j < added.len() && i != j implies #[trigger] added[i].credentials.username@
        != #[trigger] added[j].credentials.username@ by {
        if i < n && j < n {
            assert(added[i] == users[i] && added[j] == users[j]);
        } else if i < n {
            assert(added[i] == users[i]);
        } else {
            assert(added[j] == users[j]);
        }
    }
}

/// The outcomes that report a carried-out change (a password changed, an
/// account created, deleted or switched) are successes; the refusals
/// (general error, taken name, wrong or unconfirmed password) are errors.
pub proof fn lemma_success_outcomes()
    ensures
        settings_success(SettingsOutcome::PasswordChanged),
        settings_success(SettingsOutcome::UserCreated),
        settings_success(SettingsOutcome::UserDeleted),
        settings_success(SettingsOutcome::AdminRightsChanged),
        !settings_success(SettingsOutcome::GeneralError),
        !settings_success(SettingsOutcome::UserExists),
        !settings_success(SettingsOutcome::CurrentPasswordWrong),
        !settings_success(SettingsOutcome::NewPasswordMismatch),
{
}

/// An administrator's delete action is reported as a success, and a
/// non-administrator's as an error.
pub proof fn lemma_delete_success_iff_admin(users: Seq<User>, username: Seq<char>, outcome: SettingsOutcome)
    requires
        admin_rights_of(users, username) == 1 ==> outcome == SettingsOutcome::UserDeleted,
        admin_rights_of(users, username) != 1 ==> outcome == SettingsOutcome::GeneralError,
    ensures
        settings_success(outcome) <==> admin_rights_of(users, username) == 1,
{
}

/// The settings page shows the signed-in user's own record with the stored
/// display name, login name, profile and admin rights, and an empty password
/// hash.
pub proof fn lemma_settings_shows_own_record(users: Seq<User>, username: Seq<char>, shown: User)
    requires
        user_position(users, username) is Some,
        is_settings_copy(shown, users[user_position(users, username)->0]),
    ensures
        ({
            let i = user_position(users, username)->0;
            &&& shown.name == users[i].name
            &&& shown.credentials.username@ == username
            &&& shown.profile == users[i].profile
            &&& shown.admin_rights == users[i].admin_rights
            &&& shown.credentials.password_hash@.len() == 0
        }),
{
    assert(is_first_user_named(users, username, user_position(users, username)->0));
}

/// The posts that a profile shows: only posts by the user, as many as the
/// user has up to five, and, where that is fewer than five, every post of
/// the user anywhere in the store; a user with any post shows at least one.
pub proof fn lemma_profile_posts(posts: Seq<Post>, username: Seq<char>)
    ensures
        forall|k: int|
            0 <= k < latest_posts(posts, username).len() ==> #[trigger] latest_posts(posts, username)[k].author@
                == username,
        latest_posts(posts, username).len() <= 5,
        latest_posts(posts, username).len() < 5 ==> forall|i: int|
            0 <= i < posts.len() && #[trigger] posts[i].author@ == username ==> latest_posts(
                posts,
                username,
            ).contains(posts[i]),
        (exists|i: int| 0 <= i < posts.len() && #[trigger] posts[i].author@ == username) ==> latest_posts(
            posts,
            username,
        ).len() > 0,
{
    let pred = written_by(username);
    let all = posts_by_author(posts, username);
    let shown = latest_posts(posts, username);
    assert forall|k: int| 0 <= k < shown.len() implies #[trigger] shown[k].author@ == username by {
        posts.lemma_filter_pred(pred, k);
        assert(shown[k] == all[k]);
    }
    assert forall|i: int| 0 <= i < posts.len() && #[trigger] posts[i].author@ == username implies all.contains(
        posts[i],
    ) by {
        posts.lemma_filter_contains(pred, i);
    }
    if shown.len() < 5 {
        assert(shown == all);
    }
    if exists|i: int| 0 <= i < posts.len() && #[trigger] posts[i].author@ == username {
        let i = choose|i: int| 0 <= i < posts.len() && #[trigger] posts[i].author@ == username;
        assert(all.contains(posts[i]));
        assert(all.len() > 0);
    }
}

/// Switching admin rights twice restores an account's rights where they
/// were 0 or 1.
pub proof fn lemma_toggle_twice(rights: u8)
    requires
        rights <= 1,
    ensures
        toggled_rights(toggled_rights(rights)) == rights,
{
}

} // verus!
