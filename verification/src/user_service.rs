//! The user service's commands: creating a user, which hashes the password
//! and links the user to the default role held by the role service, and
//! changing a user, where empty fields keep the stored values.
//!
//! The caller runs the steps: it hashes passwords, asks the role service,
//! and queries and writes the user repository.

use vstd::prelude::*;
use crate::errors::{AppErrorGrpc, RepositoryError, ServiceError};
use crate::model::{
    ApiResponse, UserRecord, UserResponse, UserResponseDeleteAt, custom_failure, is_success_reply, repo_failure,
    shows_trashed_user, shows_user, success_reply, unit_reply,
};
use crate::requests::{CreateUserRequest, UpdateUserRequest};
use crate::responses::RoleResponse;
use crate::text::copy_str;

verus! {

/// A link of a user to a role, to ask the role service for.
#[derive(Debug, Clone, Copy)]
pub struct UserRoleRequest {
    pub user_id: i32,
    pub role_id: i32,
}

/// The role every new user gets.
pub open spec fn new_user_role_name() -> Seq<char> {
    "ROLE_ADMIN"@
}

/// Whether a reply is an internal error with this message.
pub open spec fn internal_failure<T>(r: Result<T, ServiceError>, m: Seq<char>) -> bool {
    r matches Err(ServiceError::Internal(x)) && x@ == m
}

/// Whether two creation requests hold the same texts and flag.
pub open spec fn same_create_request(a: CreateUserRequest, b: CreateUserRequest) -> bool {
    &&& a.first_name@ == b.first_name@
    &&& a.last_name@ == b.last_name@
    &&& a.email@ == b.email@
    &&& a.password@ == b.password@
    &&& a.confirm_password@ == b.confirm_password@
    &&& a.verified_code@ == b.verified_code@
    &&& a.is_verified == b.is_verified
}

// ---------------------------------------------------------------- create

/// A user being created.
#[derive(Debug, Clone)]
pub struct CreateUserFlow {
    pub request: CreateUserRequest,
}

/// A user being created whose password is hashed.
#[derive(Debug, Clone)]
pub struct CreateUserHashed {
    pub request: CreateUserRequest,
    pub hashed: String,
}

/// A user being created with the role it will be linked to.
#[derive(Debug, Clone)]
pub struct CreateUserWithRole {
    pub role_id: i32,
}

/// A stored user being linked to its role.
#[derive(Debug, Clone)]
pub struct CreateUserLinking {
    pub user: UserRecord,
}

/// What the caller does next when creating a user.
#[derive(Debug)]
pub enum CreateUserStep {
    /// Hash the password, then call `on_hashed`.
    HashPassword { flow: CreateUserFlow, password: String },
    /// Ask the role service for the role by name, then call `on_role`.
    FindRole { flow: CreateUserHashed, name: String },
    /// Store the user, then call `on_created`.
    StoreUser { flow: CreateUserWithRole, request: CreateUserRequest },
    /// Ask the role service to link the user to the role, then call
    /// `on_assigned`.
    AssignRole { flow: CreateUserLinking, request: UserRoleRequest },
    /// Answer.
    Finish { reply: Result<ApiResponse<UserResponse>, ServiceError> },
}

/// The first step of a creation: a password that differs from its
/// confirmation refuses it; else the password is hashed.
pub open spec fn create_start_step(request: CreateUserRequest, s: CreateUserStep) -> bool {
    if request.password@ != request.confirm_password@ {
        s matches CreateUserStep::Finish { reply } && custom_failure(
            reply,
            "Password and confirm password do not match"@,
        )
    } else {
        s matches CreateUserStep::HashPassword { flow, password } && password@ == request.password@
            && same_create_request(flow.request, request)
    }
}

/// The hash step of a creation: without a hash the user is not created;
/// with it the default role is asked for.
pub open spec fn create_hashed_step(flow: CreateUserFlow, hashed: Result<String, ServiceError>, s: CreateUserStep) -> bool {
    match hashed {
        Err(_) => s matches CreateUserStep::Finish { reply } && internal_failure(reply, "Failed to hash password"@),
        Ok(h) => s matches CreateUserStep::FindRole { flow: next, name } && name@ == new_user_role_name()
            && next.hashed@ == h@ && same_create_request(next.request, flow.request),
    }
}

/// The role step of a creation: without the role service the user is not
/// created; with it, the user is stored with the hash in place of the
/// password, everything else as requested.
pub open spec fn create_role_step(
    flow: CreateUserHashed,
    role: Result<ApiResponse<RoleResponse>, AppErrorGrpc>,
    s: CreateUserStep,
) -> bool {
    match role {
        Err(_) => s matches CreateUserStep::Finish { reply } && internal_failure(reply, "Role service unavailable"@),
        Ok(r) => s matches CreateUserStep::StoreUser { flow: next, request } && {
            &&& next.role_id == r.data.id
            &&& request.password@ == flow.hashed@
            &&& request.first_name@ == flow.request.first_name@
            &&& request.last_name@ == flow.request.last_name@
            &&& request.email@ == flow.request.email@
            &&& request.confirm_password@ == flow.request.confirm_password@
            &&& request.verified_code@ == flow.request.verified_code@
            &&& request.is_verified == flow.request.is_verified
        },
    }
}

impl CreateUserFlow {
    /// Creating a user begins by checking the confirmation; a matching
    /// password is hashed.
    pub fn start(request: CreateUserRequest) -> (s: CreateUserStep)
        ensures
            create_start_step(request, s),
    {
        if request.password != request.confirm_password {
            CreateUserStep::Finish {
                reply: Err(ServiceError::Custom(copy_str("Password and confirm password do not match"))),
            }
        } else {
            let password = request.password.clone();
            CreateUserStep::HashPassword { flow: CreateUserFlow { request }, password }
        }
    }

    /// The hasher answered: without a hash the user is not created; with
    /// it the default role is asked for.
    pub fn on_hashed(self, hashed: Result<String, ServiceError>) -> (s: CreateUserStep)
        ensures
            create_hashed_step(self, hashed, s),
    {
        match hashed {
            Err(_) => CreateUserStep::Finish { reply: Err(ServiceError::Internal(copy_str("Failed to hash password"))) },
            Ok(h) => CreateUserStep::FindRole {
                flow: CreateUserHashed { request: self.request, hashed: h },
                name: copy_str("ROLE_ADMIN"),
            },
        }
    }
}

impl CreateUserHashed {
    /// The role service answered the role lookup.
    pub fn on_role(self, role: Result<ApiResponse<RoleResponse>, AppErrorGrpc>) -> (s: CreateUserStep)
        ensures
            create_role_step(self, role, s),
    {
        match role {
            Err(_) => CreateUserStep::Finish { reply: Err(ServiceError::Internal(copy_str("Role service unavailable"))) },
            Ok(r) => {
                let request = CreateUserRequest {
                    first_name: self.request.first_name,
                    last_name: self.request.last_name,
                    email: self.request.email,
                    password: self.hashed,
                    confirm_password: self.request.confirm_password,
                    verified_code: self.request.verified_code,
                    is_verified: self.request.is_verified,
                };
                CreateUserStep::StoreUser { flow: CreateUserWithRole { role_id: r.data.id }, request }
            },
        }
    }
}

impl CreateUserWithRole {
    /// The user was stored, or not: a stored user is linked to the role.
    pub fn on_created(self, created: Result<UserRecord, RepositoryError>) -> (s: CreateUserStep)
        ensures
            match created {
                Err(e) => s matches CreateUserStep::Finish { reply } && repo_failure(reply, e),
                Ok(u) => s matches CreateUserStep::AssignRole { flow, request } && flow.user == u
                    && request.user_id == u.user_id && request.role_id == self.role_id,
            },
    {
        match created {
            Err(e) => CreateUserStep::Finish { reply: Err(ServiceError::Repo(e)) },
            Ok(u) => {
                let request = UserRoleRequest { user_id: u.user_id, role_id: self.role_id };
                CreateUserStep::AssignRole { flow: CreateUserLinking { user: u }, request }
            },
        }
    }
}

impl CreateUserLinking {
    /// The role service answered the link request: without the link the
    /// creation fails; with it the new user is answered.
    pub fn on_assigned(self, assigned: Result<(), AppErrorGrpc>) -> (s: CreateUserStep)
        ensures
            match assigned {
                Err(_) => s matches CreateUserStep::Finish { reply } && internal_failure(
                    reply,
                    "Role service unavailable"@,
                ),
                Ok(()) => s matches CreateUserStep::Finish { reply: Ok(r) } && r.status@ == "success"@
                    && r.message@ == "User created successfully"@ && shows_user(r.data, self.user),
            },
    {
        match assigned {
            Err(_) => CreateUserStep::Finish { reply: Err(ServiceError::Internal(copy_str("Role service unavailable"))) },
            Ok(()) => CreateUserStep::Finish {
                reply: Ok(success_reply("User created successfully", UserResponse::from_record(&self.user))),
            },
        }
    }
}

// ---------------------------------------------------------------- update

/// A user being changed.
#[derive(Debug, Clone)]
pub struct UpdateUserFlow {
    pub request: UpdateUserRequest,
    pub user_id: i32,
}

/// A user being changed whose stored row is known.
#[derive(Debug, Clone)]
pub struct UpdateUserFound {
    pub request: UpdateUserRequest,
    pub user_id: i32,
    pub existing: UserRecord,
}

/// A user being changed whose new e-mail address is settled.
#[derive(Debug, Clone)]
pub struct UpdateUserEmailSettled {
    pub request: UpdateUserRequest,
    pub user_id: i32,
    pub existing: UserRecord,
    pub email: String,
}

/// A stored change being answered.
#[derive(Debug, Clone)]
pub struct UpdateUserStored {
    pub user_id: i32,
}

/// What the caller does next when changing a user.
#[derive(Debug)]
pub enum UpdateUserStep {
    /// Look the user up by id, then call `on_user`.
    FindUser { flow: UpdateUserFlow, user_id: i32 },
    /// Look up who holds the new e-mail address, then call
    /// `on_email_checked`.
    CheckEmail { flow: UpdateUserFound, email: String },
    /// Hash the new password, then call `on_hashed`.
    HashPassword { flow: UpdateUserEmailSettled, password: String },
    /// Store the change, then call `on_stored`.
    StoreUser { flow: UpdateUserStored, request: UpdateUserRequest },
    /// Answer.
    Finish { reply: Result<ApiResponse<UserResponse>, ServiceError> },
}

/// The text a field takes: the requested one, or the stored one when the
/// request leaves it empty.
pub open spec fn kept_or_new(requested: Seq<char>, stored: Seq<char>) -> Seq<char> {
    if requested.len() == 0 { stored } else { requested }
}

/// Whether the e-mail of a change differs from the stored one: an empty
/// e-mail changes nothing.
pub open spec fn changes_email(requested: Seq<char>, stored: Seq<char>) -> bool {
    requested.len() != 0 && requested != stored
}

/// The change stored: names kept unless given, the settled e-mail, the
/// given password's hash or the stored hash, and the request's id and
/// confirmation.
pub open spec fn stored_change(
    flow: UpdateUserEmailSettled,
    password: Seq<char>,
    request: UpdateUserRequest,
) -> bool {
    &&& request.user_id == flow.request.user_id
    &&& request.first_name@ == kept_or_new(flow.request.first_name@, flow.existing.firstname@)
    &&& request.last_name@ == kept_or_new(flow.request.last_name@, flow.existing.lastname@)
    &&& request.email@ == flow.email@
    &&& request.password@ == password
    &&& request.confirm_password@ == flow.request.confirm_password@
}

/// The password part of a change once the e-mail is settled: an empty
/// password keeps the stored hash; a given one must match its confirmation
/// and is hashed.
pub open spec fn password_step(flow: UpdateUserEmailSettled, s: UpdateUserStep) -> bool {
    if flow.request.password@.len() == 0 {
        s matches UpdateUserStep::StoreUser { flow: next, request } && next.user_id == flow.user_id
            && stored_change(flow, flow.existing.password@, request)
    } else if flow.request.password@ != flow.request.confirm_password@ {
        s matches UpdateUserStep::Finish { reply } && custom_failure(reply, "Password and confirmation do not match"@)
    } else {
        s matches UpdateUserStep::HashPassword { flow: next, password } && next == flow
            && password@ == flow.request.password@
    }
}

/// The hash step of a change: without a hash the change fails; with it
/// the change is stored with the hash as the password.
pub open spec fn update_hashed_step(flow: UpdateUserEmailSettled, hashed: Result<String, ServiceError>, s: UpdateUserStep) -> bool {
    match hashed {
        Err(_) => s matches UpdateUserStep::Finish { reply } && internal_failure(reply, "Failed to hash password"@),
        Ok(h) => s matches UpdateUserStep::StoreUser { flow: next, request } && next.user_id == flow.user_id
            && stored_change(flow, h@, request),
    }
}

/// The owner lookup of a new e-mail: an address held by a user refuses
/// the change; else the change takes the new address.
pub open spec fn email_checked_step(flow: UpdateUserFound, holder: Result<Option<UserRecord>, RepositoryError>, s: UpdateUserStep) -> bool {
    match holder {
        Err(e) => s matches UpdateUserStep::Finish { reply } && repo_failure(reply, e),
        Ok(Some(_)) => s matches UpdateUserStep::Finish { reply } && custom_failure(reply, "Email already registered"@),
        Ok(None) => password_step(
            UpdateUserEmailSettled {
                request: flow.request,
                user_id: flow.user_id,
                existing: flow.existing,
                email: flow.request.email,
            },
            s,
        ),
    }
}

/// The e-mail part of a change once the user is found: a changed e-mail is
/// checked; else the stored e-mail is kept.
pub open spec fn found_step(flow: UpdateUserFound, s: UpdateUserStep) -> bool {
    if changes_email(flow.request.email@, flow.existing.email@) {
        s matches UpdateUserStep::CheckEmail { flow: next, email } && next == flow
            && email@ == flow.request.email@
    } else {
        password_step(
            UpdateUserEmailSettled {
                request: flow.request,
                user_id: flow.user_id,
                existing: flow.existing,
                email: flow.existing.email,
            },
            s,
        )
    }
}

impl UpdateUserEmailSettled {
    /// Goes on with the password part of the change.
    fn settle_password(self) -> (s: UpdateUserStep)
        ensures
            password_step(self, s),
    {
        if self.request.password.as_str().is_empty() {
            let request = UpdateUserRequest {
                user_id: self.request.user_id,
                first_name: if self.request.first_name.as_str().is_empty() {
                    self.existing.firstname.clone()
                } else {
                    self.request.first_name.clone()
                },
                last_name: if self.request.last_name.as_str().is_empty() {
                    self.existing.lastname.clone()
                } else {
                    self.request.last_name.clone()
                },
                email: self.email.clone(),
                password: self.existing.password.clone(),
                confirm_password: self.request.confirm_password.clone(),
            };
            UpdateUserStep::StoreUser { flow: UpdateUserStored { user_id: self.user_id }, request }
        } else if self.request.password != self.request.confirm_password {
            UpdateUserStep::Finish {
                reply: Err(ServiceError::Custom(copy_str("Password and confirmation do not match"))),
            }
        } else {
            let password = self.request.password.clone();
            UpdateUserStep::HashPassword { flow: self, password }
        }
    }

    /// The hasher answered: without a hash the change fails; with it the
    /// change is stored with the hash as the password.
    pub fn on_hashed(self, hashed: Result<String, ServiceError>) -> (s: UpdateUserStep)
        ensures
            update_hashed_step(self, hashed, s),
    {
        match hashed {
            Err(_) => UpdateUserStep::Finish { reply: Err(ServiceError::Internal(copy_str("Failed to hash password"))) },
            Ok(h) => {
                let request = UpdateUserRequest {
                    user_id: self.request.user_id,
                    first_name: if self.request.first_name.as_str().is_empty() {
                        self.existing.firstname.clone()
                    } else {
                        self.request.first_name.clone()
                    },
                    last_name: if self.request.last_name.as_str().is_empty() {
                        self.existing.lastname.clone()
                    } else {
                        self.request.last_name.clone()
                    },
                    email: self.email.clone(),
                    password: h,
                    confirm_password: self.request.confirm_password.clone(),
                };
                UpdateUserStep::StoreUser { flow: UpdateUserStored { user_id: self.user_id }, request }
            },
        }
    }
}

impl UpdateUserFlow {
    /// Changing a user begins with the id of the user: without one the
    /// change is refused; with one the user is looked up.
    pub fn start(request: UpdateUserRequest) -> (s: UpdateUserStep)
        ensures
            match request.user_id {
                None => s matches UpdateUserStep::Finish { reply } && custom_failure(
                    reply,
                    "User ID is required for update"@,
                ),
                Some(id) => s matches UpdateUserStep::FindUser { flow, user_id } && user_id == id
                    && flow.user_id == id && flow.request == request,
            },
    {
        match request.user_id {
            None => UpdateUserStep::Finish {
                reply: Err(ServiceError::Custom(copy_str("User ID is required for update"))),
            },
            Some(id) => UpdateUserStep::FindUser { flow: UpdateUserFlow { request, user_id: id }, user_id: id },
        }
    }

    /// The user lookup answered.
    pub fn on_user(self, found: Result<Option<UserRecord>, RepositoryError>) -> (s: UpdateUserStep)
        ensures
            match found {
                Err(e) => s matches UpdateUserStep::Finish { reply } && repo_failure(reply, e),
                Ok(None) => s matches UpdateUserStep::Finish { reply } && custom_failure(reply, "User not found"@),
                Ok(Some(u)) => found_step(
                    UpdateUserFound { request: self.request, user_id: self.user_id, existing: u },
                    s,
                ),
            },
    {
        match found {
            Err(e) => UpdateUserStep::Finish { reply: Err(ServiceError::Repo(e)) },
            Ok(None) => UpdateUserStep::Finish { reply: Err(ServiceError::Custom(copy_str("User not found"))) },
            Ok(Some(u)) => {
                let flow = UpdateUserFound { request: self.request, user_id: self.user_id, existing: u };
                if !flow.request.email.as_str().is_empty() && flow.request.email != flow.existing.email {
                    let email = flow.request.email.clone();
                    UpdateUserStep::CheckEmail { flow, email }
                } else {
                    let email = flow.existing.email.clone();
                    let settled = UpdateUserEmailSettled {
                        request: flow.request,
                        user_id: flow.user_id,
                        existing: flow.existing,
                        email,
                    };
                    settled.settle_password()
                }
            },
        }
    }
}

impl UpdateUserFound {
    /// The owner lookup of the new e-mail answered: an address held by a
    /// user refuses the change; else the change takes the new address.
    pub fn on_email_checked(self, holder: Result<Option<UserRecord>, RepositoryError>) -> (s: UpdateUserStep)
        ensures
            email_checked_step(self, holder, s),
    {
        match holder {
            Err(e) => UpdateUserStep::Finish { reply: Err(ServiceError::Repo(e)) },
            Ok(Some(_)) => UpdateUserStep::Finish {
                reply: Err(ServiceError::Custom(copy_str("Email already registered"))),
            },
            Ok(None) => {
                let email = self.request.email.clone();
                let settled = UpdateUserEmailSettled {
                    request: self.request,
                    user_id: self.user_id,
                    existing: self.existing,
                    email,
                };
                settled.settle_password()
            },
        }
    }
}

impl UpdateUserStored {
    /// The change was stored, or not.
    pub fn on_stored(self, stored: Result<UserRecord, RepositoryError>) -> (s: UpdateUserStep)
        ensures
            match stored {
                Err(e) => s matches UpdateUserStep::Finish { reply } && repo_failure(reply, e),
                Ok(u) => s matches UpdateUserStep::Finish { reply: Ok(r) } && r.status@ == "success"@
                    && r.message@ == "User updated successfully"@ && shows_user(r.data, u),
            },
    {
        match stored {
            Err(e) => UpdateUserStep::Finish { reply: Err(ServiceError::Repo(e)) },
            Ok(u) => UpdateUserStep::Finish {
                reply: Ok(success_reply("User updated successfully", UserResponse::from_record(&u))),
            },
        }
    }
}

// ---------------------------------------------------------- single calls

/// The answer to a command that returns the changed user row.
fn user_reply(outcome: Result<UserRecord, RepositoryError>, message: &str) -> (r: Result<ApiResponse<UserResponse>, ServiceError>)
    ensures
        match outcome {
            Err(e) => repo_failure(r, e),
            Ok(u) => r matches Ok(a) && a.status@ == "success"@ && a.message@ == message@ && shows_user(a.data, u),
        },
{
    match outcome {
        Err(e) => Err(ServiceError::Repo(e)),
        Ok(u) => Ok(success_reply(message, UserResponse::from_record(&u))),
    }
}

/// The answer to a command that returns a user row with its deletion date.
fn trashed_user_reply(outcome: Result<UserRecord, RepositoryError>, message: &str) -> (r: Result<ApiResponse<UserResponseDeleteAt>, ServiceError>)
    ensures
        match outcome {
            Err(e) => repo_failure(r, e),
            Ok(u) => r matches Ok(a) && a.status@ == "success"@ && a.message@ == message@ && shows_trashed_user(
                a.data,
                u,
            ),
        },
{
    match outcome {
        Err(e) => Err(ServiceError::Repo(e)),
        Ok(u) => Ok(success_reply(message, UserResponseDeleteAt::from_record(&u))),
    }
}

/// The answer to creating a verified user from a sign-up request.
pub fn admin_created_user_reply(outcome: Result<UserRecord, RepositoryError>) -> (r: Result<ApiResponse<UserResponse>, ServiceError>)
    ensures
        match outcome {
            Err(e) => repo_failure(r, e),
            Ok(x) => r matches Ok(a) && a.status@ == "success"@ && a.message@ == "User created successfully"@ && shows_user(a.data, x),
        },
{
    user_reply(outcome, "User created successfully")
}

/// The answer to changing a user's names, e-mail and password.
pub fn user_updated_reply(outcome: Result<UserRecord, RepositoryError>) -> (r: Result<ApiResponse<UserResponse>, ServiceError>)
    ensures
        match outcome {
            Err(e) => repo_failure(r, e),
            Ok(x) => r matches Ok(a) && a.status@ == "success"@ && a.message@ == "User updated successfully"@ && shows_user(a.data, x),
        },
{
    user_reply(outcome, "User updated successfully")
}

/// The answer to changing a user's verified flag.
pub fn verification_updated_reply(outcome: Result<UserRecord, RepositoryError>) -> (r: Result<ApiResponse<UserResponse>, ServiceError>)
    ensures
        match outcome {
            Err(e) => repo_failure(r, e),
            Ok(x) => r matches Ok(a) && a.status@ == "success"@ && a.message@ == "User verification updated successfully"@ && shows_user(a.data, x),
        },
{
    user_reply(outcome, "User verification updated successfully")
}

/// The answer to changing a user's password.
pub fn password_updated_reply(outcome: Result<UserRecord, RepositoryError>) -> (r: Result<ApiResponse<UserResponse>, ServiceError>)
    ensures
        match outcome {
            Err(e) => repo_failure(r, e),
            Ok(x) => r matches Ok(a) && a.status@ == "success"@ && a.message@ == "Password updated successfully"@ && shows_user(a.data, x),
        },
{
    user_reply(outcome, "Password updated successfully")
}

/// The answer to trashing a user: the row with its deletion date.
pub fn user_trashed_reply(outcome: Result<UserRecord, RepositoryError>) -> (r: Result<ApiResponse<UserResponseDeleteAt>, ServiceError>)
    ensures
        match outcome {
            Err(e) => repo_failure(r, e),
            Ok(x) => r matches Ok(a) && a.status@ == "success"@ && a.message@ == "User moved to trash successfully"@ && shows_trashed_user(a.data, x),
        },
{
    trashed_user_reply(outcome, "User moved to trash successfully")
}

/// The answer to restoring a user, as the authentication service gives it.
pub fn user_restored_reply(outcome: Result<UserRecord, RepositoryError>) -> (r: Result<ApiResponse<UserResponse>, ServiceError>)
    ensures
        match outcome {
            Err(e) => repo_failure(r, e),
            Ok(x) => r matches Ok(a) && a.status@ == "success"@ && a.message@ == "User restored successfully"@ && shows_user(a.data, x),
        },
{
    user_reply(outcome, "User restored successfully")
}

/// The answer to restoring a user, as the user service gives it: the row with its deletion date.
pub fn user_restored_with_dates_reply(outcome: Result<UserRecord, RepositoryError>) -> (r: Result<ApiResponse<UserResponseDeleteAt>, ServiceError>)
    ensures
        match outcome {
            Err(e) => repo_failure(r, e),
            Ok(x) => r matches Ok(a) && a.status@ == "success"@ && a.message@ == "User restored successfully"@ && shows_trashed_user(a.data, x),
        },
{
    trashed_user_reply(outcome, "User restored successfully")
}

/// The answer to deleting a trashed user for good.
pub fn user_deleted_reply(outcome: Result<(), RepositoryError>) -> (r: Result<ApiResponse<()>, ServiceError>)
    ensures
        match outcome {
            Err(e) => repo_failure(r, e),
            Ok(()) => r matches Ok(a) && is_success_reply(a, "User deleted permanently"@, ()),
        },
{
    unit_reply(outcome, "User deleted permanently")
}

/// The answer to restoring all trashed users.
pub fn all_users_restored_reply(outcome: Result<(), RepositoryError>) -> (r: Result<ApiResponse<()>, ServiceError>)
    ensures
        match outcome {
            Err(e) => repo_failure(r, e),
            Ok(()) => r matches Ok(a) && is_success_reply(a, "All users restored successfully"@, ()),
        },
{
    unit_reply(outcome, "All users restored successfully")
}

/// The answer to deleting all trashed users for good.
pub fn all_users_deleted_reply(outcome: Result<(), RepositoryError>) -> (r: Result<ApiResponse<()>, ServiceError>)
    ensures
        match outcome {
            Err(e) => repo_failure(r, e),
            Ok(()) => r matches Ok(a) && is_success_reply(a, "All users deleted permanently"@, ()),
        },
{
    unit_reply(outcome, "All users deleted permanently")
}

// ------------------------------------------------------------------ laws

/// A created user is stored with the hash of its password: the password
/// the user store receives is the hasher's answer for the requested
/// password, which matched its confirmation.
pub proof fn lemma_created_user_stores_hash(
    request: CreateUserRequest,
    s1: CreateUserStep,
    hashed: String,
    s2: CreateUserStep,
    role: ApiResponse<RoleResponse>,
    s3: CreateUserStep,
)
    requires
        create_start_step(request, s1),
        s1 is HashPassword,
        create_hashed_step(s1->HashPassword_flow, Ok(hashed), s2),
        create_role_step(s2->FindRole_flow, Ok(role), s3),
    ensures
        request.password@ == request.confirm_password@,
        s3 matches CreateUserStep::StoreUser { request: stored, .. } && stored.password@ == hashed@
            && stored.email@ == request.email@ && stored.is_verified == request.is_verified,
        s3 matches CreateUserStep::StoreUser { request: stored, .. } && stored.first_name@ == request.first_name@
            && stored.last_name@ == request.last_name@ && stored.verified_code@ == request.verified_code@
            && stored.confirm_password@ == request.confirm_password@,
{
}

/// The user stored by a creation is the requested user: once the role
/// service answers, the request stored holds the requested first name,
/// last name, e-mail, confirmation, code and verified flag, and the hash
/// in place of the password.
pub proof fn lemma_created_user_keeps_request(
    flow: CreateUserHashed,
    role: ApiResponse<RoleResponse>,
    s: CreateUserStep,
)
    requires
        create_role_step(flow, Ok(role), s),
    ensures
        s is StoreUser,
        s->StoreUser_request.first_name@ == flow.request.first_name@,
        s->StoreUser_request.last_name@ == flow.request.last_name@,
        s->StoreUser_request.email@ == flow.request.email@,
        s->StoreUser_request.confirm_password@ == flow.request.confirm_password@,
        s->StoreUser_request.verified_code@ == flow.request.verified_code@,
        s->StoreUser_request.is_verified == flow.request.is_verified,
        s->StoreUser_request.password@ == flow.hashed@,
        s->StoreUser_flow.role_id == role.data.id,
{
}

/// A change stores each name as requested when the request gives one and
/// keeps the stored one when it leaves it empty, keeps the settled e-mail
/// and the user's id, and stores the password as it was settled: the
/// stored hash when no password is given, the hasher's answer otherwise.
/// This holds whichever way the change reaches the store.
pub proof fn lemma_change_stores_requested_fields(
    flow: UpdateUserEmailSettled,
    s1: UpdateUserStep,
    hashed: Result<String, ServiceError>,
    s2: UpdateUserStep,
)
    requires
        password_step(flow, s1),
        update_hashed_step(flow, hashed, s2),
    ensures
        s1 is StoreUser ==> s1->StoreUser_request.user_id == flow.request.user_id
            && s1->StoreUser_flow.user_id == flow.user_id,
        s1 is StoreUser ==> s1->StoreUser_request.first_name@ == (if flow.request.first_name@.len() == 0 {
            flow.existing.firstname@
        } else {
            flow.request.first_name@
        }),
        s1 is StoreUser ==> s1->StoreUser_request.last_name@ == (if flow.request.last_name@.len() == 0 {
            flow.existing.lastname@
        } else {
            flow.request.last_name@
        }),
        s1 is StoreUser ==> s1->StoreUser_request.email@ == flow.email@
            && s1->StoreUser_request.confirm_password@ == flow.request.confirm_password@,
        s2 is StoreUser ==> s2->StoreUser_request.user_id == flow.request.user_id
            && s2->StoreUser_flow.user_id == flow.user_id,
        s2 is StoreUser ==> s2->StoreUser_request.first_name@ == (if flow.request.first_name@.len() == 0 {
            flow.existing.firstname@
        } else {
            flow.request.first_name@
        }),
        s2 is StoreUser ==> s2->StoreUser_request.last_name@ == (if flow.request.last_name@.len() == 0 {
            flow.existing.lastname@
        } else {
            flow.request.last_name@
        }),
        s2 is StoreUser ==> s2->StoreUser_request.email@ == flow.email@
            && s2->StoreUser_request.confirm_password@ == flow.request.confirm_password@,
        s1 is StoreUser ==> flow.request.password@.len() == 0 && s1->StoreUser_request.password@
            == flow.existing.password@,
        s2 is StoreUser ==> hashed is Ok && s2->StoreUser_request.password@ == hashed->Ok_0@,
{
}

/// A change of a found user that leaves the e-mail alone or repeats it
/// stores the user's own e-mail; the names follow the request where it
/// gives them and the stored user where it does not.
pub proof fn lemma_found_change_stores_requested_names(flow: UpdateUserFound, s: UpdateUserStep)
    requires
        found_step(flow, s),
        s is StoreUser,
    ensures
        s->StoreUser_request.email@ == flow.existing.email@,
        s->StoreUser_request.first_name@ == (if flow.request.first_name@.len() == 0 {
            flow.existing.firstname@
        } else {
            flow.request.first_name@
        }),
        s->StoreUser_request.last_name@ == (if flow.request.last_name@.len() == 0 {
            flow.existing.lastname@
        } else {
            flow.request.last_name@
        }),
        s->StoreUser_request.password@ == flow.existing.password@,
{
}

/// A change whose texts are all empty changes nothing: once the user is
/// found, the change stored holds the stored names, e-mail and password
/// hash, and nothing is hashed or checked on the way.
pub proof fn lemma_empty_change_keeps_user(flow: UpdateUserFound, s: UpdateUserStep)
    requires
        flow.request.first_name@.len() == 0,
        flow.request.last_name@.len() == 0,
        flow.request.email@.len() == 0,
        flow.request.password@.len() == 0,
        found_step(flow, s),
    ensures
        s matches UpdateUserStep::StoreUser { request, .. } && {
            &&& request.first_name@ == flow.existing.firstname@
            &&& request.last_name@ == flow.existing.lastname@
            &&& request.email@ == flow.existing.email@
            &&& request.password@ == flow.existing.password@
        },
{
}

/// A new e-mail address is stored only when no user holds it: a change to
/// an address someone holds is refused, and a change to a free address
/// that needs no new hash stores that address, with the names as
/// requested where given; one that needs a hash goes on with that address.
pub proof fn lemma_free_email_is_stored(
    flow: UpdateUserFound,
    holder: UserRecord,
    s_taken: UpdateUserStep,
    s_free: UpdateUserStep,
)
    requires
        email_checked_step(flow, Ok(Some(holder)), s_taken),
        email_checked_step(flow, Ok(None), s_free),
    ensures
        s_taken matches UpdateUserStep::Finish { reply: Err(ServiceError::Custom(m)) } && m@
            == "Email already registered"@,
        s_free is StoreUser ==> s_free->StoreUser_request.email@ == flow.request.email@
            && s_free->StoreUser_request.password@ == flow.existing.password@
            && s_free->StoreUser_request.last_name@ == (if flow.request.last_name@.len() == 0 {
                flow.existing.lastname@
            } else {
                flow.request.last_name@
            }),
        s_free is HashPassword ==> s_free->HashPassword_flow.email@ == flow.request.email@
            && s_free->HashPassword_password@ == flow.request.password@,
{
}

} // verus!
