//! Signing in: the decisions of the login operation, step by step.
//!
//! The caller runs the steps: it reads the failed-attempt counter from the
//! cache, looks the user up, compares the password hash, asks the token
//! service for tokens, and writes the counter back when a step says so.

use vstd::prelude::*;
use crate::errors::{RepositoryError, ServiceError, ServiceErrorView};
use crate::model::{ApiResponse, UserRecord, success_reply};
use crate::text::{copy_str, join2};

verus! {

/// Failed attempts after which sign-in is refused.
pub const MAX_FAILED_ATTEMPTS: i32 = 5;

/// Minutes a failed-attempt count is kept.
pub const FAILED_ATTEMPTS_TTL_MINUTES: i64 = 15;

/// The credentials of a sign-in.
#[derive(Debug, Clone)]
pub struct LoginRequest {
    pub email: String,
    pub password: String,
}

/// The tokens handed out on sign-in.
#[derive(Debug, Clone)]
pub struct TokenResponse {
    pub access_token: String,
    pub refresh_token: String,
}

/// The cache key of the failed-attempt counter of an e-mail address.
pub open spec fn attempts_key(email: Seq<char>) -> Seq<char> {
    "auth:login_attempts:"@ + email
}

/// A sign-in in progress.
#[derive(Debug, Clone)]
pub struct LoginFlow {
    pub email: String,
    pub password: String,
    pub attempts_key: String,
    pub attempts: i32,
    pub user_id: i32,
    pub access_token: String,
}

/// The failed-attempt count to store, for how long.
#[derive(Debug, Clone)]
pub struct AttemptsWrite {
    pub key: String,
    pub attempts: i32,
    pub ttl_minutes: i64,
}

/// What the caller does next.
#[derive(Debug)]
pub enum LoginStep {
    /// Look up the verified user with this e-mail, then call `on_user`.
    FindVerifiedUser { flow: LoginFlow, email: String },
    /// Compare the password with the stored hash, then call
    /// `on_password_checked`.
    ComparePassword { flow: LoginFlow, hashed: String, password: String },
    /// Remove the failed-attempt counter, ask for an access token for the
    /// user, then call `on_access_token`.
    CreateAccessToken { flow: LoginFlow, clear_attempts_key: String, user_id: i32 },
    /// Ask for a refresh token for the user, then call `on_refresh_token`.
    CreateRefreshToken { flow: LoginFlow, user_id: i32 },
    /// Store the failed-attempt count when there is one, and answer.
    Finish {
        record_attempts: Option<AttemptsWrite>,
        reply: Result<ApiResponse<TokenResponse>, ServiceError>,
    },
}

/// Whether a step finishes with this error and stores no count.
pub open spec fn finishes_with(s: LoginStep, e: ServiceError) -> bool {
    s matches LoginStep::Finish { record_attempts: None, reply: Err(x) } && x@ == e@
}

/// Whether a step finishes with this error after storing one more failed
/// attempt than the flow had seen.
pub open spec fn fails_and_counts(flow: LoginFlow, s: LoginStep, e: ServiceErrorView) -> bool {
    &&& s matches LoginStep::Finish { record_attempts: Some(w), reply: Err(x) }
    &&& x@ == e
    &&& w.key@ == flow.attempts_key@
    &&& w.attempts == flow.attempts + 1
    &&& w.ttl_minutes == FAILED_ATTEMPTS_TTL_MINUTES
}

/// The counter step of a sign-in: five failed attempts or more refuse it
/// without looking at the user; else the verified user is looked up.
pub open spec fn attempts_step(flow: LoginFlow, cached: Option<i32>, s: LoginStep) -> bool {
    let n = match cached {
        Some(n) => n,
        None => 0,
    };
    if n >= MAX_FAILED_ATTEMPTS {
        s matches LoginStep::Finish { record_attempts: None, reply: Err(ServiceError::Custom(m)) }
            && m@ == "Too many failed attempts. Try again later."@
    } else {
        s matches LoginStep::FindVerifiedUser { flow: next, email } && email@ == flow.email@ && next.attempts == n
            && next.email@ == flow.email@ && next.password@ == flow.password@ && next.attempts_key@
            == flow.attempts_key@
    }
}

/// The user step of a sign-in: an unknown or unverified user counts as a
/// failed attempt; a lookup error is passed on; a found user's stored hash
/// is compared with the password.
pub open spec fn user_step(flow: LoginFlow, found: Result<Option<UserRecord>, RepositoryError>, s: LoginStep) -> bool {
    match found {
        Err(e) => finishes_with(s, ServiceError::Repo(e)),
        Ok(None) => fails_and_counts(flow, s, ServiceErrorView::Custom("user not verified"@)),
        Ok(Some(u)) => s matches LoginStep::ComparePassword { flow: next, hashed, password } && hashed@ == u.password@
            && password@ == flow.password@ && next.user_id == u.user_id && next.attempts == flow.attempts
            && next.attempts_key@ == flow.attempts_key@,
    }
}

/// The password step of a sign-in: a mismatch counts as a failed attempt;
/// a match clears the counter and asks for an access token.
pub open spec fn password_checked_step(flow: LoginFlow, matches: bool, s: LoginStep) -> bool {
    if matches {
        s matches LoginStep::CreateAccessToken { flow: next, clear_attempts_key, user_id }
            && clear_attempts_key@ == flow.attempts_key@ && user_id == flow.user_id && next.user_id == flow.user_id
    } else {
        fails_and_counts(flow, s, ServiceErrorView::InvalidCredentials)
    }
}

impl LoginFlow {
    /// A sign-in begins: the caller reads the failed-attempt counter under
    /// `attempts_key` and calls `on_attempts`.
    pub fn start(request: &LoginRequest) -> (f: LoginFlow)
        ensures
            f.email@ == request.email@,
            f.password@ == request.password@,
            f.attempts_key@ == attempts_key(request.email@),
    {
        LoginFlow {
            email: copy_str(request.email.as_str()),
            password: copy_str(request.password.as_str()),
            attempts_key: join2("auth:login_attempts:", request.email.as_str()),
            attempts: 0,
            user_id: 0,
            access_token: String::new(),
        }
    }

    /// The counter was read (none counts as zero). Five failed attempts or
    /// more refuse the sign-in without looking at the user.
    pub fn on_attempts(self, cached: Option<i32>) -> (s: LoginStep)
        ensures
            attempts_step(self, cached, s),
    {
        let n = match cached {
            Some(n) => n,
            None => 0,
        };
        if n >= MAX_FAILED_ATTEMPTS {
            LoginStep::Finish {
                record_attempts: None,
                reply: Err(ServiceError::Custom(copy_str("Too many failed attempts. Try again later."))),
            }
        } else {
            let email = copy_str(self.email.as_str());
            LoginStep::FindVerifiedUser { flow: LoginFlow { attempts: n, ..self }, email }
        }
    }

    /// The user lookup answered. An unknown or unverified user counts as a
    /// failed attempt; a lookup error is passed on; a found user's stored
    /// hash is compared with the password.
    pub fn on_user(self, found: Result<Option<UserRecord>, RepositoryError>) -> (s: LoginStep)
        requires
            self.attempts < MAX_FAILED_ATTEMPTS,
        ensures
            user_step(self, found, s),
    {
        match found {
            Err(e) => LoginStep::Finish { record_attempts: None, reply: Err(ServiceError::Repo(e)) },
            Ok(None) => {
                let w = AttemptsWrite {
                    key: copy_str(self.attempts_key.as_str()),
                    attempts: self.attempts + 1,
                    ttl_minutes: FAILED_ATTEMPTS_TTL_MINUTES,
                };
                LoginStep::Finish {
                    record_attempts: Some(w),
                    reply: Err(ServiceError::Custom(copy_str("user not verified"))),
                }
            },
            Ok(Some(u)) => {
                let password = copy_str(self.password.as_str());
                LoginStep::ComparePassword {
                    flow: LoginFlow { user_id: u.user_id, ..self },
                    hashed: u.password,
                    password,
                }
            },
        }
    }

    /// The password comparison answered. A mismatch counts as a failed
    /// attempt; a match clears the counter and asks for an access token.
    pub fn on_password_checked(self, matches: bool) -> (s: LoginStep)
        requires
            self.attempts < MAX_FAILED_ATTEMPTS,
        ensures
            password_checked_step(self, matches, s),
    {
        if !matches {
            let w = AttemptsWrite {
                key: copy_str(self.attempts_key.as_str()),
                attempts: self.attempts + 1,
                ttl_minutes: FAILED_ATTEMPTS_TTL_MINUTES,
            };
            LoginStep::Finish { record_attempts: Some(w), reply: Err(ServiceError::InvalidCredentials) }
        } else {
            let key = copy_str(self.attempts_key.as_str());
            let user_id = self.user_id;
            LoginStep::CreateAccessToken { flow: self, clear_attempts_key: key, user_id }
        }
    }

    /// The access token came back, or the token service failed.
    pub fn on_access_token(self, token: Result<String, ServiceError>) -> (s: LoginStep)
        ensures
            match token {
                Err(e) => finishes_with(s, e),
                Ok(t) => s matches LoginStep::CreateRefreshToken { flow, user_id }
                    && user_id == self.user_id && flow.access_token@ == t@,
            },
    {
        match token {
            Err(e) => LoginStep::Finish { record_attempts: None, reply: Err(e) },
            Ok(t) => {
                let user_id = self.user_id;
                LoginStep::CreateRefreshToken { flow: LoginFlow { access_token: t, ..self }, user_id }
            },
        }
    }

    /// The refresh token came back, or the token service failed. With both
    /// tokens the sign-in succeeds.
    pub fn on_refresh_token(self, token: Result<String, ServiceError>) -> (s: LoginStep)
        ensures
            match token {
                Err(e) => finishes_with(s, e),
                Ok(t) => s matches LoginStep::Finish { record_attempts: None, reply: Ok(r) }
                    && r.status@ == "success"@ && r.message@ == "Login successful"@
                    && r.data.access_token@ == self.access_token@ && r.data.refresh_token@ == t@,
            },
    {
        match token {
            Err(e) => LoginStep::Finish { record_attempts: None, reply: Err(e) },
            Ok(t) => {
                let data = TokenResponse { access_token: self.access_token, refresh_token: t };
                LoginStep::Finish { record_attempts: None, reply: Ok(success_reply("Login successful", data)) }
            },
        }
    }
}

/// Five failed sign-ins lock an account out: when the counter reads one
/// below the limit and the password is wrong, the count stored is the
/// limit, and a sign-in that reads that count back is refused without
/// looking at the user.
pub proof fn lemma_failures_lock_out(
    f0: LoginFlow,
    s1: LoginStep,
    user: UserRecord,
    s2: LoginStep,
    s3: LoginStep,
    f_next: LoginFlow,
    s_next: LoginStep,
)
    requires
        attempts_step(f0, Some((MAX_FAILED_ATTEMPTS - 1) as i32), s1),
        user_step(s1->FindVerifiedUser_flow, Ok(Some(user)), s2),
        password_checked_step(s2->ComparePassword_flow, false, s3),
        s3 matches LoginStep::Finish { record_attempts: Some(w), .. } ==> attempts_step(
            f_next,
            Some(w.attempts),
            s_next,
        ),
    ensures
        s3 matches LoginStep::Finish { record_attempts: Some(w), .. } && w.attempts == MAX_FAILED_ATTEMPTS,
        s_next matches LoginStep::Finish { record_attempts: None, reply: Err(ServiceError::Custom(m)) }
            && m@ == "Too many failed attempts. Try again later."@,
{
}

/// A sign-in compares the password it was given with the stored hash of
/// the user found for its e-mail, and a match asks for tokens for that
/// user and clears that e-mail's counter.
pub proof fn lemma_login_checks_found_user(
    flow: LoginFlow,
    user: UserRecord,
    s1: LoginStep,
    s2: LoginStep,
)
    requires
        user_step(flow, Ok(Some(user)), s1),
        s1 is ComparePassword ==> password_checked_step(s1->ComparePassword_flow, true, s2),
    ensures
        s1 is ComparePassword,
        s1->ComparePassword_hashed@ == user.password@,
        s1->ComparePassword_password@ == flow.password@,
        s2 is CreateAccessToken,
        s2->CreateAccessToken_user_id == user.user_id,
        s2->CreateAccessToken_clear_attempts_key@ == flow.attempts_key@,
{
}

} // verus!
