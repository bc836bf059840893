//! Plain data carried between the pipeline and its callers.
//!
//! Timestamps are Unix seconds supplied by the caller's clock.

use vstd::prelude::*;

verus! {

/// A stored user account.
#[derive(Debug, Clone)]
pub struct User {
    pub id: String,
    pub username: String,
    pub password_hash: String,
    pub is_admin: bool,
    pub library_path: Option<String>,
    pub created_at: i64,
    pub updated_at: i64,
}

/// The fields needed to create an account.
#[derive(Debug, Clone)]
pub struct CreateUser {
    pub username: String,
    pub password: String,
    pub is_admin: bool,
    pub library_path: Option<String>,
}

#[derive(Debug, Clone)]
pub struct LoginRequest {
    pub username: String,
    pub password: String,
}

#[derive(Debug, Clone)]
pub struct LoginResponse {
    pub token: String,
    pub username: String,
    pub is_admin: bool,
}

/// The reply to a job submission.
#[derive(Debug, Clone)]
pub struct UploadResponse {
    pub success: bool,
    pub message: String,
    pub log_id: Option<i64>,
    pub session_id: Option<String>,
}

#[derive(Debug, Clone)]
pub struct YoutubeDownloadRequest {
    pub url: String,
}

#[derive(Debug, Clone)]
pub struct SpotifyDownloadRequest {
    pub url: String,
}

/// The claims carried by a session token.
#[derive(Debug, Clone)]
pub struct Claims {
    pub sub: String,
    pub username: String,
    pub is_admin: bool,
    pub exp: i64,
}

} // verus!
