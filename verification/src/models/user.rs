use vstd::prelude::*;

verus! {

/// An account as stored: `username` is unique among accounts, and
/// `password_hash` is a digest, never a password. `created_at` is in
/// microseconds since the Unix epoch.
#[derive(Debug, Clone)]
pub struct UserProfile {
    pub id: i64,
    pub username: String,
    pub password_hash: String,
    pub created_at: i64,
}

/// The body of a sign-up and of a login request.
#[derive(Debug, Clone)]
pub struct SignupAndLoginPayload {
    pub username: String,
    pub password: String,
}

/// What a login reads of an account.
#[derive(Debug, Clone)]
pub struct DBUserQuery {
    pub id: i64,
    pub username: String,
    pub password_hash: String,
}

/// The session that a successful login opens.
#[derive(Debug, Clone)]
pub struct LoginResponse {
    pub token: String,
    pub username: String,
    pub user_id: i64,
}

} // verus!
