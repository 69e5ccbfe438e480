//! Requests handled by the user service.

use vstd::prelude::*;

verus! {

/// A page of users, filtered by a search text.
#[derive(Debug, Clone)]
pub struct FindAllUsers {
    pub search: String,
    pub page: i32,
    pub page_size: i32,
}

/// A user's registration as received by the user service.
#[derive(Debug, Clone)]
pub struct RegisterRequest {
    pub first_name: String,
    pub last_name: String,
    pub email: String,
    pub password: String,
    pub confirm_password: String,
    pub verified_code: String,
    pub is_verified: bool,
}

/// A user to create.
#[derive(Debug, Clone)]
pub struct CreateUserRequest {
    pub first_name: String,
    pub last_name: String,
    pub email: String,
    pub password: String,
    pub confirm_password: String,
    pub verified_code: String,
    pub is_verified: bool,
}

/// New values for a user; empty texts keep the stored values.
#[derive(Debug, Clone)]
pub struct UpdateUserRequest {
    pub user_id: Option<i32>,
    pub first_name: String,
    pub last_name: String,
    pub email: String,
    pub password: String,
    pub confirm_password: String,
}

/// A change of a user's verified flag.
#[derive(Debug, Clone)]
pub struct UpdateUserVerifiedRequest {
    pub user_id: i32,
    pub is_verified: bool,
}

/// A change of a user's password.
#[derive(Debug, Clone)]
pub struct UpdateUserPasswordRequest {
    pub user_id: i32,
    pub password: String,
}

} // verus!
