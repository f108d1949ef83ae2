//! Data model and request logic of a small file-backed blog: posts with
//! pagination and author-or-admin editing, user accounts with SHA-512
//! password hashes, and the admin settings actions.
use vstd::prelude::*;

pub mod crypto;
pub mod user;
pub mod blog;
pub mod database;
pub mod stamp;

verus! {

/// A refusal that a request is answered with.
#[derive(Debug, Clone, Copy, PartialEq, Eq)]
pub enum Status {
    Unauthorized,
    Forbidden,
    NotFound,
}

/// A one-time message shown on the next page: its kind and its text.
#[derive(Debug)]
pub struct FlashNotification<'a> {
    pub severity: &'a str,
    pub message: &'a str,
}

} // verus!
