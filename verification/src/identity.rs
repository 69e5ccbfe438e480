//! Identity: renewing a session from its refresh token, and answering a
//! signed-in user with its profile.
//!
//! The caller runs the steps: it checks tokens, asks the token service for
//! new ones, reads and writes the stored refresh tokens and the cache, and
//! looks users up.

use vstd::prelude::*;
use crate::errors::{RepositoryError, ServiceError};
use crate::login::TokenResponse;
use crate::model::{ApiResponse, UserRecord, UserResponse, is_success_reply, repo_failure, shows_user, success_reply};
use crate::text::{copy_str, i64_text, int_decimal, join2};

verus! {

/// Hours a refresh token stays valid, in the store and in the cache.
pub const REFRESH_TOKEN_HOURS: i64 = 24;

/// Minutes a profile stays in the cache.
pub const PROFILE_CACHE_MINUTES: i64 = 30;

/// The cache key of a refresh token.
pub open spec fn refresh_key(token: Seq<char>) -> Seq<char> {
    "auth:refresh:"@ + token
}

/// The cache key of a user's profile.
pub open spec fn profile_key(id: int) -> Seq<char> {
    "auth:getme:"@ + int_decimal(id)
}

/// A refresh token to store for a user, valid for some hours from now.
#[derive(Debug, Clone)]
pub struct StoreRefreshToken {
    pub user_id: i32,
    pub token: String,
    pub valid_hours: i64,
}

/// The user a refresh token stands for, to keep in the cache.
#[derive(Debug, Clone)]
pub struct RefreshCacheWrite {
    pub key: String,
    pub user_id: i64,
    pub ttl_hours: i64,
}

/// An expired refresh token to remove from the store and, under its key,
/// from the cache.
#[derive(Debug, Clone)]
pub struct ForgetToken {
    pub token: String,
    pub cache_key: String,
}

/// A session being renewed.
#[derive(Debug, Clone)]
pub struct RefreshFlow {
    pub token: String,
}

/// A session being renewed whose token names a user.
#[derive(Debug, Clone)]
pub struct RefreshForUser {
    pub user_id: i64,
}

/// A session being renewed whose new access token is known.
#[derive(Debug, Clone)]
pub struct RefreshWithAccess {
    pub user_id: i64,
    pub access_token: String,
}

/// A session being renewed whose new tokens are known.
#[derive(Debug, Clone)]
pub struct RefreshWithTokens {
    pub user_id: i64,
    pub access_token: String,
    pub refresh_token: String,
}

/// What the caller does next when renewing a session.
#[derive(Debug)]
pub enum RefreshStep {
    /// Check the token as a refresh token, then call `on_verified`.
    VerifyToken { flow: RefreshFlow, token: String, kind: String },
    /// Remove the old token from the store, then call `on_old_removed`.
    RemoveOldToken { flow: RefreshForUser, token: String },
    /// Ask for an access token for the user, then call `on_access_token`.
    CreateAccessToken { flow: RefreshForUser, user_id: i32 },
    /// Ask for a refresh token for the user, then call `on_refresh_token`.
    CreateRefreshToken { flow: RefreshWithAccess, user_id: i32 },
    /// Store the new refresh token, then call `on_token_stored`.
    StoreToken { flow: RefreshWithTokens, request: StoreRefreshToken },
    /// Remove the expired token from the store and the cache (whatever that
    /// gives), write the cache when asked to, and answer.
    Finish {
        forget_expired: Option<ForgetToken>,
        cache_write: Option<RefreshCacheWrite>,
        reply: Result<ApiResponse<TokenResponse>, ServiceError>,
    },
}

/// Whether a step answers with this error and does nothing else.
pub open spec fn refresh_fails_with(s: RefreshStep, e: ServiceError) -> bool {
    s matches RefreshStep::Finish { forget_expired: None, cache_write: None, reply: Err(x) } && x@ == e@
}

/// The first step of a renewal: an expired token is forgotten and refused
/// as expired; any other failure is answered as an invalid token; a valid
/// token's user is renewed once the old token is removed.
pub open spec fn verified_step(flow: RefreshFlow, checked: Result<i64, ServiceError>, s: RefreshStep) -> bool {
    match checked {
        Err(ServiceError::TokenExpired) => s matches RefreshStep::Finish {
            forget_expired: Some(t),
            cache_write: None,
            reply: Err(ServiceError::TokenExpired),
        } && t.token@ == flow.token@ && t.cache_key@ == refresh_key(flow.token@),
        Err(_) => s matches RefreshStep::Finish {
            forget_expired: None,
            cache_write: None,
            reply: Err(ServiceError::Internal(m)),
        } && m@ == "invalid token"@,
        Ok(uid) => s matches RefreshStep::RemoveOldToken { flow: next, token } && next.user_id == uid
            && token@ == flow.token@,
    }
}

/// The removal step of a renewal: once the old token is removed, an
/// access token is asked for the token's user.
pub open spec fn removed_step(flow: RefreshForUser, removed: Result<(), RepositoryError>, s: RefreshStep) -> bool {
    match removed {
        Err(e) => refresh_fails_with(s, ServiceError::Repo(e)),
        Ok(()) => s matches RefreshStep::CreateAccessToken { flow: next, user_id } && next == flow
            && user_id == flow.user_id as i32,
    }
}

/// The access-token step of a renewal: then a refresh token is asked for.
pub open spec fn access_step(flow: RefreshForUser, token: Result<String, ServiceError>, s: RefreshStep) -> bool {
    match token {
        Err(e) => refresh_fails_with(s, e),
        Ok(t) => s matches RefreshStep::CreateRefreshToken { flow: next, user_id } && next.user_id == flow.user_id
            && next.access_token@ == t@ && user_id == flow.user_id as i32,
    }
}

/// The refresh-token step of a renewal: the new token is stored for the
/// user for a day.
pub open spec fn new_refresh_step(flow: RefreshWithAccess, token: Result<String, ServiceError>, s: RefreshStep) -> bool {
    match token {
        Err(e) => refresh_fails_with(s, e),
        Ok(t) => s matches RefreshStep::StoreToken { flow: next, request } && next.user_id == flow.user_id
            && next.access_token@ == flow.access_token@ && next.refresh_token@ == t@ && request.user_id
            == flow.user_id as i32 && request.token@ == t@ && request.valid_hours == REFRESH_TOKEN_HOURS,
    }
}

/// The store step of a renewal: once stored, the new refresh token is
/// cached for a day as standing for the user, and both tokens are
/// answered.
pub open spec fn token_stored_step(flow: RefreshWithTokens, stored: Result<(), RepositoryError>, s: RefreshStep) -> bool {
    match stored {
        Err(_) => s matches RefreshStep::Finish {
            forget_expired: None,
            cache_write: None,
            reply: Err(ServiceError::Internal(m)),
        } && m@ == "Failed to update refresh token"@,
        Ok(()) => s matches RefreshStep::Finish { forget_expired: None, cache_write: Some(w), reply: Ok(r) }
            && w.key@ == refresh_key(flow.refresh_token@) && w.user_id == flow.user_id && w.ttl_hours
            == REFRESH_TOKEN_HOURS && r.status@ == "success"@ && r.message@ == "token refreshed"@
            && r.data.access_token@ == flow.access_token@ && r.data.refresh_token@ == flow.refresh_token@,
    }
}

impl RefreshFlow {
    /// Renewing a session begins by checking the token as a refresh token.
    pub fn start(token: &str) -> (s: RefreshStep)
        ensures
            s matches RefreshStep::VerifyToken { flow, token: t, kind } && flow.token@ == token@ && t@
                == token@ && kind@ == "refresh"@,
    {
        RefreshStep::VerifyToken { flow: RefreshFlow { token: copy_str(token) }, token: copy_str(token), kind: copy_str("refresh") }
    }

    /// The token check answered with the token's user, or an error.
    pub fn on_verified(self, checked: Result<i64, ServiceError>) -> (s: RefreshStep)
        ensures
            verified_step(self, checked, s),
    {
        match checked {
            Err(ServiceError::TokenExpired) => RefreshStep::Finish {
                forget_expired: Some(
                    ForgetToken { cache_key: join2("auth:refresh:", self.token.as_str()), token: self.token },
                ),
                cache_write: None,
                reply: Err(ServiceError::TokenExpired),
            },
            Err(_) => RefreshStep::Finish {
                forget_expired: None,
                cache_write: None,
                reply: Err(ServiceError::Internal(copy_str("invalid token"))),
            },
            Ok(uid) => RefreshStep::RemoveOldToken { flow: RefreshForUser { user_id: uid }, token: self.token },
        }
    }
}

impl RefreshForUser {
    /// The old token was removed, or not: once removed, an access token is
    /// asked for the user.
    pub fn on_old_removed(self, removed: Result<(), RepositoryError>) -> (s: RefreshStep)
        ensures
            removed_step(self, removed, s),
    {
        match removed {
            Err(e) => RefreshStep::Finish { forget_expired: None, cache_write: None, reply: Err(ServiceError::Repo(e)) },
            Ok(()) => {
                let user_id = self.user_id as i32;
                RefreshStep::CreateAccessToken { flow: self, user_id }
            },
        }
    }

    /// The access token came back, or the token service failed.
    pub fn on_access_token(self, token: Result<String, ServiceError>) -> (s: RefreshStep)
        ensures
            access_step(self, token, s),
    {
        match token {
            Err(e) => RefreshStep::Finish { forget_expired: None, cache_write: None, reply: Err(e) },
            Ok(t) => {
                let user_id = self.user_id as i32;
                RefreshStep::CreateRefreshToken {
                    flow: RefreshWithAccess { user_id: self.user_id, access_token: t },
                    user_id,
                }
            },
        }
    }
}

impl RefreshWithAccess {
    /// The refresh token came back, or the token service failed: a new one
    /// is stored for the user for a day.
    pub fn on_refresh_token(self, token: Result<String, ServiceError>) -> (s: RefreshStep)
        ensures
            new_refresh_step(self, token, s),
    {
        match token {
            Err(e) => RefreshStep::Finish { forget_expired: None, cache_write: None, reply: Err(e) },
            Ok(t) => {
                let request = StoreRefreshToken {
                    user_id: self.user_id as i32,
                    token: t.clone(),
                    valid_hours: REFRESH_TOKEN_HOURS,
                };
                RefreshStep::StoreToken {
                    flow: RefreshWithTokens { user_id: self.user_id, access_token: self.access_token, refresh_token: t },
                    request,
                }
            },
        }
    }
}

impl RefreshWithTokens {
    /// The new refresh token was stored, or not: once stored, it is cached
    /// for a day as standing for the user, and both tokens are answered.
    pub fn on_token_stored(self, stored: Result<(), RepositoryError>) -> (s: RefreshStep)
        ensures
            token_stored_step(self, stored, s),
    {
        match stored {
            Err(_) => RefreshStep::Finish {
                forget_expired: None,
                cache_write: None,
                reply: Err(ServiceError::Internal(copy_str("Failed to update refresh token"))),
            },
            Ok(()) => {
                let w = RefreshCacheWrite {
                    key: join2("auth:refresh:", self.refresh_token.as_str()),
                    user_id: self.user_id,
                    ttl_hours: REFRESH_TOKEN_HOURS,
                };
                let data = TokenResponse { access_token: self.access_token, refresh_token: self.refresh_token };
                RefreshStep::Finish {
                    forget_expired: None,
                    cache_write: Some(w),
                    reply: Ok(success_reply("token refreshed", data)),
                }
            },
        }
    }
}

// --------------------------------------------------------------- profile

/// A profile lookup in progress.
#[derive(Debug, Clone)]
pub struct ProfileLookup {
    pub cache_key: String,
    pub user_id: i32,
}

/// A profile to keep in the cache.
#[derive(Debug, Clone)]
pub struct ProfileCacheWrite {
    pub key: String,
    pub value: UserResponse,
    pub ttl_minutes: i64,
}

/// What the caller does next when answering a profile.
#[derive(Debug)]
pub enum ProfileStep {
    /// Look the user up by id, then call `on_user`.
    FindUser { lookup: ProfileLookup, user_id: i32 },
    /// Write the cache when asked to, and answer.
    Finish {
        cache_write: Option<ProfileCacheWrite>,
        reply: Result<ApiResponse<Option<UserResponse>>, ServiceError>,
    },
}

impl ProfileLookup {
    /// A profile lookup begins with the cache, under the user's key.
    pub fn start(user_id: i32) -> (l: ProfileLookup)
        ensures
            l.cache_key@ == profile_key(user_id as int),
            l.user_id == user_id,
    {
        let n = i64_text(user_id as i64);
        ProfileLookup { cache_key: join2("auth:getme:", n.as_str()), user_id }
    }

    /// The cache answered: a cached profile is answered; else the user is
    /// looked up.
    pub fn on_cached(self, cached: Option<UserResponse>) -> (s: ProfileStep)
        ensures
            match cached {
                Some(u) => s matches ProfileStep::Finish { cache_write: None, reply: Ok(r) }
                    && is_success_reply(r, "user fetched successfully (from cache)"@, Some(u)),
                None => s matches ProfileStep::FindUser { lookup, user_id } && lookup == self && user_id
                    == self.user_id,
            },
    {
        match cached {
            Some(u) => ProfileStep::Finish {
                cache_write: None,
                reply: Ok(success_reply("user fetched successfully (from cache)", Some(u))),
            },
            None => {
                let user_id = self.user_id;
                ProfileStep::FindUser { lookup: self, user_id }
            },
        }
    }

    /// The user lookup answered: a found user is answered and cached for
    /// half an hour; a missing one is answered as none, and not cached.
    pub fn on_user(self, found: Result<Option<UserRecord>, RepositoryError>) -> (s: ProfileStep)
        ensures
            match found {
                Err(e) => s matches ProfileStep::Finish { cache_write: None, reply } && repo_failure(reply, e),
                Ok(None) => s matches ProfileStep::Finish { cache_write: None, reply: Ok(r) }
                    && is_success_reply(r, "user fetched successfully"@, None),
                Ok(Some(u)) => s matches ProfileStep::Finish { cache_write: Some(w), reply: Ok(r) }
                    && r.status@ == "success"@ && r.message@ == "user fetched successfully"@
                    && r.data is Some && shows_user(r.data->0, u) && w.key@ == self.cache_key@
                    && shows_user(w.value, u) && w.ttl_minutes == PROFILE_CACHE_MINUTES,
            },
    {
        match found {
            Err(e) => ProfileStep::Finish { cache_write: None, reply: Err(ServiceError::Repo(e)) },
            Ok(None) => ProfileStep::Finish { cache_write: None, reply: Ok(success_reply("user fetched successfully", None)) },
            Ok(Some(u)) => {
                let w = ProfileCacheWrite {
                    key: self.cache_key,
                    value: UserResponse::from_record(&u),
                    ttl_minutes: PROFILE_CACHE_MINUTES,
                };
                let data = UserResponse::from_record(&u);
                ProfileStep::Finish {
                    cache_write: Some(w),
                    reply: Ok(success_reply("user fetched successfully", Some(data))),
                }
            },
        }
    }
}

/// A refresh token is good for one renewal: the token that was checked is
/// removed from the store before any new token is asked for, and a
/// successful renewal caches the new refresh token, the one it answers, as
/// standing for the user the old token named, and stores it for that user.
pub proof fn lemma_refresh_rotates_token(
    flow: RefreshFlow,
    uid: i64,
    s1: RefreshStep,
    s2: RefreshStep,
    access: String,
    s3: RefreshStep,
    refresh: String,
    s4: RefreshStep,
    s5: RefreshStep,
)
    requires
        verified_step(flow, Ok(uid), s1),
        removed_step(s1->RemoveOldToken_flow, Ok(()), s2),
        access_step(s2->CreateAccessToken_flow, Ok(access), s3),
        new_refresh_step(s3->CreateRefreshToken_flow, Ok(refresh), s4),
        token_stored_step(s4->StoreToken_flow, Ok(()), s5),
    ensures
        s1 matches RefreshStep::RemoveOldToken { token, .. } && token@ == flow.token@,
        s4 matches RefreshStep::StoreToken { request, .. } && request.user_id == uid as i32 && request.token@
            == refresh@,
        s5 matches RefreshStep::Finish { cache_write: Some(w), reply: Ok(r), .. } && w.user_id == uid && w.key@
            == refresh_key(refresh@) && r.data.refresh_token@ == refresh@ && r.data.access_token@ == access@,
{
}

} // verus!
