//! Rows of the services' tables, as the repositories return them. Dates
//! are carried as their texts.

use vstd::prelude::*;
use crate::errors::{RepositoryError, ServiceError};
use crate::text::copy_str;

verus! {

/// A user row.
#[derive(Debug, Clone)]
pub struct UserRecord {
    pub user_id: i32,
    pub firstname: String,
    pub lastname: String,
    pub email: String,
    pub password: String,
    pub verification_code: String,
    pub is_verified: bool,
    pub created_at: Option<String>,
    pub updated_at: Option<String>,
    pub deleted_at: Option<String>,
}

/// A password-reset token row: the token, the user it resets, and when it
/// expires.
#[derive(Debug)]
pub struct ResetToken {
    pub reset_token_id: i32,
    pub user_id: i32,
    pub token: String,
    pub expired_date: chrono::NaiveDateTime,
}

/// A role row.
#[derive(Debug, Clone)]
pub struct RoleRecord {
    pub role_id: i32,
    pub role_name: String,
    pub created_at: Option<String>,
    pub updated_at: Option<String>,
    pub deleted_at: Option<String>,
}

/// A product row; the price is in the smallest currency unit.
#[derive(Debug, Clone)]
pub struct ProductRecord {
    pub product_id: i32,
    pub name: String,
    pub price: i64,
    pub stock: i32,
    pub created_at: Option<String>,
    pub updated_at: Option<String>,
    pub deleted_at: Option<String>,
}

/// An order row; the total is in the smallest currency unit.
#[derive(Debug, Clone)]
pub struct OrderRecord {
    pub order_id: i32,
    pub product_id: i32,
    pub quantity: i32,
    pub total: i64,
    pub created_at: Option<String>,
    pub updated_at: Option<String>,
    pub deleted_at: Option<String>,
}

/// The answer of a service: a status word, a message and the data.
#[derive(Debug, Clone)]
pub struct ApiResponse<T> {
    pub status: String,
    pub message: String,
    pub data: T,
}

/// Whether an answer is a success with this message and this data.
pub open spec fn is_success_reply<T>(r: ApiResponse<T>, message: Seq<char>, data: T) -> bool {
    &&& r.status@ == "success"@
    &&& r.message@ == message
    &&& r.data == data
}

/// Whether a reply is the error of a failed repository call.
pub open spec fn repo_failure<T>(r: Result<T, ServiceError>, e: RepositoryError) -> bool {
    r matches Err(ServiceError::Repo(x)) && x@ == e@
}

/// Whether a reply is a custom error with this message.
pub open spec fn custom_failure<T>(r: Result<T, ServiceError>, m: Seq<char>) -> bool {
    r matches Err(ServiceError::Custom(x)) && x@ == m
}

/// A successful answer with a message and data.
pub fn success_reply<T>(message: &str, data: T) -> (r: ApiResponse<T>)
    ensures
        is_success_reply(r, message@, data),
{
    ApiResponse { status: copy_str("success"), message: copy_str(message), data }
}

/// The answer to a command that returns nothing.
pub(crate) fn unit_reply(outcome: Result<(), RepositoryError>, message: &str) -> (r: Result<ApiResponse<()>, ServiceError>)
    ensures
        match outcome {
            Err(e) => repo_failure(r, e),
            Ok(()) => r matches Ok(a) && is_success_reply(a, message@, ()),
        },
{
    match outcome {
        Err(e) => Err(ServiceError::Repo(e)),
        Ok(()) => Ok(success_reply(message, ())),
    }
}

/// A user as the services answer with it: no password, no code.
#[derive(Debug, Clone)]
pub struct UserResponse {
    pub id: i32,
    pub firstname: String,
    pub lastname: String,
    pub email: String,
    pub created_at: Option<String>,
    pub updated_at: Option<String>,
}

/// Whether a user answer shows this user row.
pub open spec fn shows_user(r: UserResponse, u: UserRecord) -> bool {
    &&& r.id == u.user_id
    &&& r.firstname@ == u.firstname@
    &&& r.lastname@ == u.lastname@
    &&& r.email@ == u.email@
    &&& r.created_at == u.created_at
    &&& r.updated_at == u.updated_at
}

/// A copy of an optional text.
pub fn copy_opt_text(o: &Option<String>) -> (r: Option<String>)
    ensures
        r == *o,
{
    match o {
        Some(t) => Some(t.clone()),
        None => None,
    }
}

impl UserResponse {
    /// The answer showing a user row.
    pub fn from_record(u: &UserRecord) -> (r: UserResponse)
        ensures
            shows_user(r, *u),
    {
        UserResponse {
            id: u.user_id,
            firstname: u.firstname.clone(),
            lastname: u.lastname.clone(),
            email: u.email.clone(),
            created_at: copy_opt_text(&u.created_at),
            updated_at: copy_opt_text(&u.updated_at),
        }
    }
}

/// A trashed user as the services answer with it.
#[derive(Debug, Clone)]
pub struct UserResponseDeleteAt {
    pub id: i32,
    pub firstname: String,
    pub lastname: String,
    pub email: String,
    pub created_at: Option<String>,
    pub updated_at: Option<String>,
    pub deleted_at: Option<String>,
}

/// A user with its password hash, as the sign-in path needs it.
#[derive(Debug, Clone)]
pub struct UserResponseWithPassword {
    pub id: i32,
    pub firstname: String,
    pub lastname: String,
    pub email: String,
    pub password: String,
    pub created_at: Option<String>,
    pub updated_at: Option<String>,
}

/// Whether a trashed-user answer shows this user row.
pub open spec fn shows_trashed_user(r: UserResponseDeleteAt, u: UserRecord) -> bool {
    &&& r.id == u.user_id
    &&& r.firstname@ == u.firstname@
    &&& r.lastname@ == u.lastname@
    &&& r.email@ == u.email@
    &&& r.created_at == u.created_at
    &&& r.updated_at == u.updated_at
    &&& r.deleted_at == u.deleted_at
}

/// Whether an answer with password shows this user row.
pub open spec fn shows_user_with_password(r: UserResponseWithPassword, u: UserRecord) -> bool {
    &&& r.id == u.user_id
    &&& r.firstname@ == u.firstname@
    &&& r.lastname@ == u.lastname@
    &&& r.email@ == u.email@
    &&& r.password@ == u.password@
    &&& r.created_at == u.created_at
    &&& r.updated_at == u.updated_at
}

impl UserResponseDeleteAt {
    /// The answer showing a trashed user row.
    pub fn from_record(u: &UserRecord) -> (r: UserResponseDeleteAt)
        ensures
            shows_trashed_user(r, *u),
    {
        UserResponseDeleteAt {
            id: u.user_id,
            firstname: u.firstname.clone(),
            lastname: u.lastname.clone(),
            email: u.email.clone(),
            created_at: copy_opt_text(&u.created_at),
            updated_at: copy_opt_text(&u.updated_at),
            deleted_at: copy_opt_text(&u.deleted_at),
        }
    }
}

impl UserResponseWithPassword {
    /// The answer showing a user row with its password hash.
    pub fn from_record(u: &UserRecord) -> (r: UserResponseWithPassword)
        ensures
            shows_user_with_password(r, *u),
    {
        UserResponseWithPassword {
            id: u.user_id,
            firstname: u.firstname.clone(),
            lastname: u.lastname.clone(),
            email: u.email.clone(),
            password: u.password.clone(),
            created_at: copy_opt_text(&u.created_at),
            updated_at: copy_opt_text(&u.updated_at),
        }
    }
}

} // verus!
