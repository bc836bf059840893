//! Rules enforced by the account and settings management endpoints.
//!
//! The endpoints themselves are transport plumbing outside the library;
//! what they decide - which usernames, passwords and overrides are
//! acceptable, and whose job logs a caller may list - is here.

use vstd::prelude::*;

use crate::auth::AuthUser;
use crate::jobs::JobStore;
use crate::jobs::UploadLog;
use crate::jobs::spec_select_logs;
use crate::strutil::has_pair;
use crate::strutil::str_has_pair;

verus! {

/// A request to create an account.
#[derive(Debug, Clone)]
pub struct CreateUserRequest {
    pub username: String,
    pub password: String,
    pub is_admin: bool,
    pub library_path: Option<String>,
}

/// A request to write one runtime setting.
#[derive(Debug, Clone)]
pub struct UpdateConfigRequest {
    pub key: String,
    pub value: String,
}

/// A request to rename the calling account.
#[derive(Debug, Clone)]
pub struct UpdateUsernameRequest {
    pub new_username: String,
}

/// An acceptable username: at least three characters.
pub open spec fn spec_username_ok(name: Seq<char>) -> bool {
    name.len() >= 3
}

pub fn validate_username(name: &str) -> (r: bool)
    ensures
        r == spec_username_ok(name@),
{
    name.unicode_len() >= 3
}

/// An acceptable password: at least eight characters.
pub open spec fn spec_password_ok(password: Seq<char>) -> bool {
    password.len() >= 8
}

pub fn validate_password(password: &str) -> (r: bool)
    ensures
        r == spec_password_ok(password@),
{
    password.unicode_len() >= 8
}

/// An acceptable library-path override: non-empty and free of `..`.
pub open spec fn spec_library_path_ok(path: Seq<char>) -> bool {
    path.len() > 0 && !has_pair(path, '.', '.')
}

pub fn validate_library_path(path: &str) -> (r: bool)
    ensures
        r == spec_library_path_ok(path@),
{
    path.unicode_len() > 0 && !str_has_pair(path, '.', '.')
}

/// The job-log rows an authenticated caller may see: an administrator sees
/// everyone's, anyone else their own.
pub fn visible_upload_logs(store: &JobStore, user: &AuthUser, limit: usize) -> (r: Vec<UploadLog>)
    ensures
        user.is_admin ==> r@ == spec_select_logs(store@, None, limit as int),
        !user.is_admin ==> r@ == spec_select_logs(store@, Some(user.user_id@), limit as int),
{
    if user.is_admin {
        store.get_upload_logs(None, limit)
    } else {
        store.get_upload_logs(Some(&user.user_id), limit)
    }
}

} // verus!
