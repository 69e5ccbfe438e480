//! Signing up: the decisions of the registration operation, step by step.
//!
//! The caller runs the steps: it reads and writes the cache, queries the
//! user and role repositories, links the new user to its role, and sends
//! the welcome e-mail over the message bus.

use vstd::prelude::*;
use crate::errors::{RepositoryError, ServiceError};
use crate::model::{ApiResponse, RoleRecord, UserRecord, UserResponse, is_success_reply, shows_user, success_reply};
use crate::random::{RandomStringError, code_alphabet, generate_random_string};
use crate::template::EmailTemplateData;
use crate::text::{copy_str, i64_text, int_decimal, join2};

verus! {

/// The role every new user gets.
pub open spec fn default_role_name() -> Seq<char> {
    "ROLE_ADMIN"@
}

/// The length of a verification code.
pub const VERIFICATION_CODE_LENGTH: usize = 10;

/// Hours a registration answer stays in the cache.
pub const REGISTRATION_CACHE_HOURS: i64 = 24;

/// The topic the welcome e-mails are published on.
pub open spec fn welcome_topic() -> Seq<char> {
    "email-service-topic-auth-register"@
}

/// The start of the link in a welcome e-mail; the verification code
/// follows it.
pub open spec fn verify_link_prefix() -> Seq<char> {
    "https://sanedge.example.com/login?verify_code="@
}

/// A sign-up request.
#[derive(Debug, Clone)]
pub struct RegisterRequest {
    pub firstname: String,
    pub lastname: String,
    pub email: String,
    pub password: String,
    pub confirm_password: String,
}

/// A user to store.
#[derive(Debug, Clone)]
pub struct CreateUserRequest {
    pub firstname: String,
    pub lastname: String,
    pub email: String,
    pub password: String,
    pub confirm_password: String,
    pub verification_code: String,
    pub is_verified: bool,
}

/// A user-role link to store.
#[derive(Debug, Clone, Copy)]
pub struct CreateUserRoleRequest {
    pub user_id: i32,
    pub role_id: i32,
}

/// An e-mail to send.
#[derive(Debug, Clone)]
pub struct EmailRequest {
    pub to: String,
    pub subject: String,
    pub data: EmailTemplateData,
}

/// Why the welcome e-mail could not be handed to the message bus.
#[derive(Debug, Clone)]
pub enum WelcomeFailure {
    /// The e-mail could not be serialized; the text says why.
    Serialize(String),
    /// The message bus refused it.
    Publish,
}

/// A registration answer to keep in the cache.
#[derive(Debug, Clone)]
pub struct CacheWrite {
    pub key: String,
    pub value: UserResponse,
    pub ttl_hours: i64,
}

/// A sign-up in progress.
#[derive(Debug, Clone)]
pub struct RegisterFlow {
    pub request: RegisterRequest,
    pub cache_key: String,
    pub role_id: i32,
    pub verification_code: String,
}

/// A sign-up whose user is stored: the link to the role and the welcome
/// e-mail remain.
#[derive(Debug, Clone)]
pub struct RegisterLinking {
    pub flow: RegisterFlow,
    pub user: UserRecord,
}

/// What the caller does next.
#[derive(Debug)]
pub enum RegisterStep {
    /// Look up a user by e-mail, then call `on_email_lookup`.
    FindUserByEmail { flow: RegisterFlow, email: String },
    /// Look up the role by name, then call `on_role`.
    FindRoleByName { flow: RegisterFlow, name: String },
    /// Store the user, then call `on_user_created`.
    CreateUser { flow: RegisterFlow, request: CreateUserRequest },
    /// Link the user to the role, then call `on_role_assigned`.
    AssignRole { linking: RegisterLinking, request: CreateUserRoleRequest },
    /// Serialize the e-mail and publish it under the key, then call
    /// `on_welcome_sent`.
    SendWelcome { linking: RegisterLinking, topic: String, key: String, email: EmailRequest },
    /// Write the cache entry when there is one, and answer.
    Finish { cache_write: Option<CacheWrite>, reply: Result<ApiResponse<UserResponse>, ServiceError> },
}

/// The cache key of a registration.
pub open spec fn register_cache_key(email: Seq<char>) -> Seq<char> {
    "auth:register:"@ + email
}

/// Whether a step answers with this error and writes nothing.
pub open spec fn fails_with(s: RegisterStep, e: ServiceError) -> bool {
    s matches RegisterStep::Finish { cache_write: None, reply: Err(x) } && x@ == e@
}

/// Whether a step answers with a custom error with this message.
pub open spec fn fails_custom(s: RegisterStep, m: Seq<char>) -> bool {
    s matches RegisterStep::Finish { cache_write: None, reply: Err(ServiceError::Custom(x)) } && x@ == m
}

/// Whether two flows carry the same request and cache key.
pub open spec fn same_request(a: RegisterFlow, b: RegisterFlow) -> bool {
    &&& a.request.firstname@ == b.request.firstname@
    &&& a.request.lastname@ == b.request.lastname@
    &&& a.request.email@ == b.request.email@
    &&& a.request.password@ == b.request.password@
    &&& a.request.confirm_password@ == b.request.confirm_password@
    &&& a.cache_key@ == b.cache_key@
}

/// The step taken once a verification code was drawn, or could not be:
/// without a code the sign-up fails; with one, the user is stored
/// unverified with that code and the flow goes on with the role and the
/// code.
pub open spec fn code_step(
    flow: RegisterFlow,
    role_id: i32,
    code: Result<String, RandomStringError>,
    s: RegisterStep,
) -> bool {
    match code {
        Err(_) => s matches RegisterStep::Finish { cache_write: None, reply: Err(ServiceError::Internal(m)) }
            && m@ == "Failed to generate verification code"@,
        Ok(c) => s matches RegisterStep::CreateUser { flow: next, request } && {
            &&& same_request(next, flow)
            &&& next.role_id == role_id
            &&& next.verification_code@ == c@
            &&& request.verification_code@ == c@
            &&& request.firstname@ == flow.request.firstname@
            &&& request.lastname@ == flow.request.lastname@
            &&& request.email@ == flow.request.email@
            &&& request.password@ == flow.request.password@
            &&& request.confirm_password@ == flow.request.confirm_password@
            &&& !request.is_verified
        },
    }
}

/// The role lookup step: the default role must exist; a code is drawn and
/// the user is stored unverified with it.
pub open spec fn role_step(flow: RegisterFlow, found: Result<Option<RoleRecord>, RepositoryError>, s: RegisterStep) -> bool {
    match found {
        Err(e) => fails_with(s, ServiceError::Repo(e)),
        Ok(None) => fails_custom(s, "Default role not found"@),
        Ok(Some(role)) => {
            ||| s matches RegisterStep::Finish { cache_write: None, reply: Err(ServiceError::Internal(m)) }
                && m@ == "Failed to generate verification code"@
            ||| s matches RegisterStep::CreateUser { flow: next, request } && {
                &&& same_request(next, flow)
                &&& next.role_id == role.role_id
                &&& next.verification_code@ == request.verification_code@
                &&& request.verification_code@.len() == VERIFICATION_CODE_LENGTH
                &&& forall|i: int| 0 <= i < request.verification_code@.len()
                    ==> code_alphabet().contains(#[trigger] request.verification_code@[i])
                &&& request.firstname@ == flow.request.firstname@
                &&& request.lastname@ == flow.request.lastname@
                &&& request.email@ == flow.request.email@
                &&& request.password@ == flow.request.password@
                &&& request.confirm_password@ == flow.request.confirm_password@
                &&& !request.is_verified
            }
        },
    }
}

/// The user creation step: the new user is linked to the default role.
pub open spec fn created_step(flow: RegisterFlow, created: Result<UserRecord, RepositoryError>, s: RegisterStep) -> bool {
    match created {
        Err(e) => fails_with(s, ServiceError::Repo(e)),
        Ok(user) => s matches RegisterStep::AssignRole { linking: next, request } && {
            &&& same_request(next.flow, flow)
            &&& next.flow.verification_code@ == flow.verification_code@
            &&& next.user == user
            &&& request.user_id == user.user_id
            &&& request.role_id == flow.role_id
        },
    }
}

/// The role link step: the welcome e-mail, whose link carries the
/// verification code, goes to the new user.
pub open spec fn assigned_step(linking: RegisterLinking, assigned: Result<(), RepositoryError>, s: RegisterStep) -> bool {
    match assigned {
        Err(e) => fails_with(s, ServiceError::Repo(e)),
        Ok(()) => s matches RegisterStep::SendWelcome { linking: next, topic, key, email } && {
            &&& same_request(next.flow, linking.flow)
            &&& next.user == linking.user
            &&& topic@ == welcome_topic()
            &&& key@ == int_decimal(linking.user.user_id as int)
            &&& email.to@ == linking.user.email@
            &&& email.subject@ == "Welcome to SanEdge"@
            &&& email.data.title@ == "Welcome to SanEdge"@
            &&& email.data.message@ == "Your account has been successfully created."@
            &&& email.data.button@ == "Login Now"@
            &&& email.data.link@ == verify_link_prefix() + linking.flow.verification_code@
        },
    }
}

/// The welcome step: on success the new user is answered and the answer
/// cached for a day.
pub open spec fn welcome_step(linking: RegisterLinking, sent: Result<(), WelcomeFailure>, s: RegisterStep) -> bool {
    match sent {
        Err(WelcomeFailure::Serialize(m)) => fails_custom(s, "Failed to serialize email: "@ + m@),
        Err(WelcomeFailure::Publish) => fails_custom(s, "Failed to send welcome email"@),
        Ok(()) => s matches RegisterStep::Finish { cache_write: Some(w), reply: Ok(r) }
            && r.status@ == "success"@ && r.message@ == "User registered successfully"@
            && shows_user(r.data, linking.user) && w.key@ == linking.flow.cache_key@
            && shows_user(w.value, linking.user) && w.ttl_hours == REGISTRATION_CACHE_HOURS,
    }
}

impl RegisterFlow {
    /// A sign-up begins: the caller reads the cache under `cache_key` and
    /// calls `on_cached`.
    pub fn start(request: RegisterRequest) -> (f: RegisterFlow)
        ensures
            f.request == request,
            f.cache_key@ == register_cache_key(request.email@),
    {
        let cache_key = join2("auth:register:", request.email.as_str());
        RegisterFlow { request, cache_key, role_id: 0, verification_code: String::new() }
    }

    /// The cache answered: a cached registration is answered again; else
    /// the e-mail address is looked up.
    pub fn on_cached(self, cached: Option<UserResponse>) -> (s: RegisterStep)
        ensures
            match cached {
                Some(u) => s matches RegisterStep::Finish { cache_write: None, reply: Ok(r) }
                    && is_success_reply(r, "User already registered (from cache)"@, u),
                None => s matches RegisterStep::FindUserByEmail { flow, email } && email@
                    == self.request.email@ && same_request(flow, self),
            },
    {
        match cached {
            Some(u) => RegisterStep::Finish {
                cache_write: None,
                reply: Ok(success_reply("User already registered (from cache)", u)),
            },
            None => {
                let email = copy_str(self.request.email.as_str());
                RegisterStep::FindUserByEmail { flow: self, email }
            },
        }
    }

    /// The e-mail lookup answered: a taken address refuses the sign-up;
    /// else the default role is looked up.
    pub fn on_email_lookup(self, found: Result<Option<UserRecord>, RepositoryError>) -> (s: RegisterStep)
        ensures
            match found {
                Err(e) => fails_with(s, ServiceError::Repo(e)),
                Ok(Some(_)) => fails_custom(s, "Email already registered"@),
                Ok(None) => s matches RegisterStep::FindRoleByName { flow, name } && name@
                    == default_role_name() && same_request(flow, self),
            },
    {
        match found {
            Err(e) => RegisterStep::Finish { cache_write: None, reply: Err(ServiceError::Repo(e)) },
            Ok(Some(_)) => RegisterStep::Finish {
                cache_write: None,
                reply: Err(ServiceError::Custom(copy_str("Email already registered"))),
            },
            Ok(None) => RegisterStep::FindRoleByName { flow: self, name: copy_str("ROLE_ADMIN") },
        }
    }

    /// The role lookup answered: with the default role, a verification
    /// code is drawn and the user is stored, unverified, with that code.
    pub fn on_role(self, found: Result<Option<RoleRecord>, RepositoryError>) -> (s: RegisterStep)
        ensures
            role_step(self, found, s),
    {
        match found {
            Err(e) => RegisterStep::Finish { cache_write: None, reply: Err(ServiceError::Repo(e)) },
            Ok(None) => RegisterStep::Finish {
                cache_write: None,
                reply: Err(ServiceError::Custom(copy_str("Default role not found"))),
            },
            Ok(Some(role)) => {
                let code = generate_random_string(VERIFICATION_CODE_LENGTH);
                self.with_code(role.role_id, code)
            },
        }
    }

    /// A verification code was drawn for the sign-up, or could not be:
    /// with one, the user is stored unverified with it, to be linked to the
    /// role `role_id`.
    pub fn with_code(self, role_id: i32, code: Result<String, RandomStringError>) -> (s: RegisterStep)
        ensures
            code_step(self, role_id, code, s),
    {
        match code {
            Err(_) => RegisterStep::Finish {
                cache_write: None,
                reply: Err(ServiceError::Internal(copy_str("Failed to generate verification code"))),
            },
            Ok(code) => {
                let request = CreateUserRequest {
                    firstname: copy_str(self.request.firstname.as_str()),
                    lastname: copy_str(self.request.lastname.as_str()),
                    email: copy_str(self.request.email.as_str()),
                    password: copy_str(self.request.password.as_str()),
                    confirm_password: copy_str(self.request.confirm_password.as_str()),
                    verification_code: copy_str(code.as_str()),
                    is_verified: false,
                };
                RegisterStep::CreateUser { flow: RegisterFlow { role_id, verification_code: code, ..self }, request }
            },
        }
    }

    /// The user was stored: it is linked to the default role.
    pub fn on_user_created(self, created: Result<UserRecord, RepositoryError>) -> (s: RegisterStep)
        ensures
            created_step(self, created, s),
    {
        match created {
            Err(e) => RegisterStep::Finish { cache_write: None, reply: Err(ServiceError::Repo(e)) },
            Ok(user) => {
                let request = CreateUserRoleRequest { user_id: user.user_id, role_id: self.role_id };
                RegisterStep::AssignRole { linking: RegisterLinking { flow: self, user }, request }
            },
        }
    }

}

impl RegisterLinking {
    /// The role link was stored: the welcome e-mail is sent to the new
    /// user, keyed by its id, with a link carrying the verification code.
    pub fn on_role_assigned(self, assigned: Result<(), RepositoryError>) -> (s: RegisterStep)
        ensures
            assigned_step(self, assigned, s),
    {
        match assigned {
            Err(e) => RegisterStep::Finish { cache_write: None, reply: Err(ServiceError::Repo(e)) },
            Ok(()) => {
                let data = EmailTemplateData {
                    title: copy_str("Welcome to SanEdge"),
                    message: copy_str("Your account has been successfully created."),
                    button: copy_str("Login Now"),
                    link: join2(
                        "https://sanedge.example.com/login?verify_code=",
                        self.flow.verification_code.as_str(),
                    ),
                };
                let email = EmailRequest {
                    to: copy_str(self.user.email.as_str()),
                    subject: copy_str("Welcome to SanEdge"),
                    data,
                };
                let key = i64_text(self.user.user_id as i64);
                RegisterStep::SendWelcome {
                    linking: self,
                    topic: copy_str("email-service-topic-auth-register"),
                    key,
                    email,
                }
            },
        }
    }

    /// The welcome e-mail was handed over, or not: on success the new user
    /// is answered and the answer cached for a day.
    pub fn on_welcome_sent(self, sent: Result<(), WelcomeFailure>) -> (s: RegisterStep)
        ensures
            welcome_step(self, sent, s),
    {
        match sent {
            Err(WelcomeFailure::Serialize(m)) => {
                let text = join2("Failed to serialize email: ", m.as_str());
                RegisterStep::Finish { cache_write: None, reply: Err(ServiceError::Custom(text)) }
            },
            Err(WelcomeFailure::Publish) => RegisterStep::Finish {
                cache_write: None,
                reply: Err(ServiceError::Custom(copy_str("Failed to send welcome email"))),
            },
            Ok(()) => {
                let cached = UserResponse::from_record(&self.user);
                let answered = UserResponse::from_record(&self.user);
                let w = CacheWrite { key: self.flow.cache_key, value: cached, ttl_hours: REGISTRATION_CACHE_HOURS };
                RegisterStep::Finish {
                    cache_write: Some(w),
                    reply: Ok(success_reply("User registered successfully", answered)),
                }
            },
        }
    }
}

/// The verification code in the welcome link is the code stored with the
/// new user, and the new user is stored unverified: across the role lookup,
/// the user creation and the role link, the code drawn once flows unchanged
/// into both.
pub proof fn lemma_welcome_link_carries_stored_code(
    flow0: RegisterFlow,
    role: RoleRecord,
    s1: RegisterStep,
    user: UserRecord,
    s2: RegisterStep,
    s3: RegisterStep,
)
    requires
        role_step(flow0, Ok(Some(role)), s1),
        s1 matches RegisterStep::CreateUser { .. },
        created_step(s1->CreateUser_flow, Ok(user), s2),
        s2 matches RegisterStep::AssignRole { .. },
        assigned_step(s2->AssignRole_linking, Ok(()), s3),
    ensures
        s1->CreateUser_request.verification_code@.len() == VERIFICATION_CODE_LENGTH,
        !s1->CreateUser_request.is_verified,
        s3 matches RegisterStep::SendWelcome { email, .. } && email.data.link@
            == verify_link_prefix() + s1->CreateUser_request.verification_code@ && email.to@ == user.email@,
        s1->CreateUser_request.firstname@ == flow0.request.firstname@,
        s1->CreateUser_request.lastname@ == flow0.request.lastname@,
        s1->CreateUser_request.email@ == flow0.request.email@,
        s1->CreateUser_request.password@ == flow0.request.password@,
{
}

/// The user a sign-up stores is the one that signed up: with a drawn code,
/// the request stored holds the sign-up's first name, last name, e-mail,
/// password and confirmation, the drawn code, and is not verified; the flow
/// goes on with the given role and the same code, for the same sign-up.
pub proof fn lemma_signup_stores_requested_user(
    flow: RegisterFlow,
    role_id: i32,
    code: String,
    s: RegisterStep,
)
    requires
        code_step(flow, role_id, Ok(code), s),
    ensures
        s is CreateUser,
        s->CreateUser_request.firstname@ == flow.request.firstname@,
        s->CreateUser_request.lastname@ == flow.request.lastname@,
        s->CreateUser_request.email@ == flow.request.email@,
        s->CreateUser_request.password@ == flow.request.password@,
        s->CreateUser_request.confirm_password@ == flow.request.confirm_password@,
        s->CreateUser_request.verification_code@ == code@,
        !s->CreateUser_request.is_verified,
        s->CreateUser_flow.role_id == role_id,
        s->CreateUser_flow.verification_code@ == code@,
        s->CreateUser_flow.request.email@ == flow.request.email@,
        s->CreateUser_flow.cache_key@ == flow.cache_key@,
{
}

impl CreateUserRequest {
    /// The user an administrator creates from a sign-up request: verified
    /// at once, with no verification code.
    pub fn verified_from(req: &RegisterRequest) -> (r: CreateUserRequest)
        ensures
            r.firstname@ == req.firstname@,
            r.lastname@ == req.lastname@,
            r.email@ == req.email@,
            r.password@ == req.password@,
            r.confirm_password@ == req.confirm_password@,
            r.verification_code@ == Seq::<char>::empty(),
            r.is_verified,
    {
        CreateUserRequest {
            firstname: req.firstname.clone(),
            lastname: req.lastname.clone(),
            email: req.email.clone(),
            password: req.password.clone(),
            confirm_password: req.confirm_password.clone(),
            verification_code: String::new(),
            is_verified: true,
        }
    }
}

} // verus!
