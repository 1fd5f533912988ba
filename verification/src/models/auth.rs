//! Bodies of the authentication endpoints.
use vstd::prelude::*;

use crate::models::user::UserPublic;

verus! {

/// Body of `POST /auth/login`.
#[derive(Debug)]
pub struct LoginRequest {
    pub email: String,
    pub password: String,
}

/// Body of `POST /auth/signup`.
#[derive(Debug)]
pub struct SignupRequest {
    pub name: String,
    pub email: String,
    pub password: String,
    pub confirm_password: String,
    /// Family / company / firm name: the first user signing up bootstraps
    /// the tenant, and this becomes the organization's display name.
    pub organization_name: Option<String>,
}

/// Answer of a successful signup or login.
#[derive(Debug)]
pub struct AuthResponse {
    pub success: bool,
    pub token: String,
    pub user: UserPublic,
}

} // verus!
