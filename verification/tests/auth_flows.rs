use ecommerce::errors::{RepositoryError, ServiceError};
use ecommerce::identity::{ProfileLookup, ProfileStep, RefreshFlow, RefreshStep};
use ecommerce::login::{LoginFlow, LoginRequest, LoginStep};
use ecommerce::model::{RoleRecord, UserRecord};
use ecommerce::random::RandomStringError;
use ecommerce::register::{RegisterFlow, RegisterRequest, RegisterStep, WelcomeFailure};

fn user(id: i32, email: &str) -> UserRecord {
    UserRecord {
        user_id: id,
        firstname: "Ada".to_string(),
        lastname: "Lovelace".to_string(),
        email: email.to_string(),
        password: "$2b$hash".to_string(),
        verification_code: "CODE".to_string(),
        is_verified: true,
        created_at: Some("2024-01-01T00:00:00+00:00".to_string()),
        updated_at: None,
        deleted_at: None,
    }
}

fn login_flow() -> LoginFlow {
    LoginFlow::start(&LoginRequest { email: "a@x.io".to_string(), password: "secret".to_string() })
}

#[test]
fn login_key_and_lockout() {
    let f = login_flow();
    assert_eq!(f.attempts_key, "auth:login_attempts:a@x.io");
    match login_flow().on_attempts(Some(5)) {
        LoginStep::Finish { record_attempts: None, reply: Err(ServiceError::Custom(m)) } => {
            assert_eq!(m, "Too many failed attempts. Try again later.")
        }
        other => panic!("{:?}", other),
    }
    match login_flow().on_attempts(Some(4)) {
        LoginStep::FindVerifiedUser { flow, email } => {
            assert_eq!(flow.attempts, 4);
            assert_eq!(email, "a@x.io");
        }
        other => panic!("{:?}", other),
    }
    match login_flow().on_attempts(None) {
        LoginStep::FindVerifiedUser { flow, .. } => assert_eq!(flow.attempts, 0),
        other => panic!("{:?}", other),
    }
}

fn found_flow(attempts: i32) -> LoginFlow {
    match login_flow().on_attempts(Some(attempts)) {
        LoginStep::FindVerifiedUser { flow, .. } => flow,
        other => panic!("{:?}", other),
    }
}

#[test]
fn login_counts_failures() {
    match found_flow(2).on_user(Ok(None)) {
        LoginStep::Finish { record_attempts: Some(w), reply: Err(ServiceError::Custom(m)) } => {
            assert_eq!(m, "user not verified");
            assert_eq!((w.key.as_str(), w.attempts, w.ttl_minutes), ("auth:login_attempts:a@x.io", 3, 15));
        }
        other => panic!("{:?}", other),
    }
    let flow = match found_flow(4).on_user(Ok(Some(user(7, "a@x.io")))) {
        LoginStep::ComparePassword { flow, hashed, password } => {
            assert_eq!(hashed, "$2b$hash");
            assert_eq!(password, "secret");
            flow
        }
        other => panic!("{:?}", other),
    };
    match flow.on_password_checked(false) {
        LoginStep::Finish { record_attempts: Some(w), reply: Err(ServiceError::InvalidCredentials) } => {
            assert_eq!(w.attempts, 5)
        }
        other => panic!("{:?}", other),
    }
    match found_flow(0).on_user(Err(RepositoryError::Sqlx("down".into()))) {
        LoginStep::Finish { record_attempts: None, reply: Err(ServiceError::Repo(RepositoryError::Sqlx(m))) } => {
            assert_eq!(m, "down")
        }
        other => panic!("{:?}", other),
    }
}

#[test]
fn login_success_hands_out_both_tokens() {
    let flow = match found_flow(1).on_user(Ok(Some(user(7, "a@x.io")))) {
        LoginStep::ComparePassword { flow, .. } => flow,
        other => panic!("{:?}", other),
    };
    let flow = match flow.on_password_checked(true) {
        LoginStep::CreateAccessToken { flow, clear_attempts_key, user_id } => {
            assert_eq!(clear_attempts_key, "auth:login_attempts:a@x.io");
            assert_eq!(user_id, 7);
            flow
        }
        other => panic!("{:?}", other),
    };
    let flow = match flow.on_access_token(Ok("acc".to_string())) {
        LoginStep::CreateRefreshToken { flow, user_id } => {
            assert_eq!(user_id, 7);
            flow
        }
        other => panic!("{:?}", other),
    };
    match flow.on_refresh_token(Ok("ref".to_string())) {
        LoginStep::Finish { record_attempts: None, reply: Ok(r) } => {
            assert_eq!((r.status.as_str(), r.message.as_str()), ("success", "Login successful"));
            assert_eq!((r.data.access_token.as_str(), r.data.refresh_token.as_str()), ("acc", "ref"));
        }
        other => panic!("{:?}", other),
    }
}

fn register_request() -> RegisterRequest {
    RegisterRequest {
        firstname: "Ada".to_string(),
        lastname: "Lovelace".to_string(),
        email: "ada@x.io".to_string(),
        password: "secret1".to_string(),
        confirm_password: "secret1".to_string(),
    }
}

fn role() -> RoleRecord {
    RoleRecord { role_id: 3, role_name: "ROLE_ADMIN".to_string(), created_at: None, updated_at: None, deleted_at: None }
}

#[test]
fn register_refusals() {
    let f = RegisterFlow::start(register_request());
    assert_eq!(f.cache_key, "auth:register:ada@x.io");
    match RegisterFlow::start(register_request()).on_email_lookup(Ok(Some(user(1, "ada@x.io")))) {
        RegisterStep::Finish { cache_write: None, reply: Err(ServiceError::Custom(m)) } => {
            assert_eq!(m, "Email already registered")
        }
        other => panic!("{:?}", other),
    }
    match RegisterFlow::start(register_request()).on_role(Ok(None)) {
        RegisterStep::Finish { cache_write: None, reply: Err(ServiceError::Custom(m)) } => {
            assert_eq!(m, "Default role not found")
        }
        other => panic!("{:?}", other),
    }
    match RegisterFlow::start(register_request()).on_email_lookup(Ok(None)) {
        RegisterStep::FindRoleByName { name, .. } => assert_eq!(name, "ROLE_ADMIN"),
        other => panic!("{:?}", other),
    }
}

#[test]
fn register_cached_answer() {
    let cached = ecommerce::model::UserResponse::from_record(&user(4, "ada@x.io"));
    match RegisterFlow::start(register_request()).on_cached(Some(cached)) {
        RegisterStep::Finish { cache_write: None, reply: Ok(r) } => {
            assert_eq!(r.message, "User already registered (from cache)");
            assert_eq!(r.data.id, 4);
        }
        other => panic!("{:?}", other),
    }
}

#[test]
fn register_welcome_link_carries_stored_code() {
    let (flow, request) = match RegisterFlow::start(register_request()).on_role(Ok(Some(role()))) {
        RegisterStep::CreateUser { flow, request } => (flow, request),
        other => panic!("{:?}", other),
    };
    assert_eq!(request.verification_code.len(), 10);
    assert!(request.verification_code.chars().all(|c| c.is_ascii_alphanumeric()));
    assert!(!request.is_verified);
    assert_eq!(flow.role_id, 3);
    let code = request.verification_code.clone();
    let linking = match flow.on_user_created(Ok(user(42, "ada@x.io"))) {
        RegisterStep::AssignRole { linking, request } => {
            assert_eq!((request.user_id, request.role_id), (42, 3));
            linking
        }
        other => panic!("{:?}", other),
    };
    let linking = match linking.on_role_assigned(Ok(())) {
        RegisterStep::SendWelcome { linking, topic, key, email } => {
            assert_eq!(topic, "email-service-topic-auth-register");
            assert_eq!(key, "42");
            assert_eq!(email.to, "ada@x.io");
            assert_eq!(email.data.link, format!("https://sanedge.example.com/login?verify_code={code}"));
            linking
        }
        other => panic!("{:?}", other),
    };
    match linking.clone().on_welcome_sent(Err(WelcomeFailure::Serialize("eof".into()))) {
        RegisterStep::Finish { cache_write: None, reply: Err(ServiceError::Custom(m)) } => {
            assert_eq!(m, "Failed to serialize email: eof")
        }
        other => panic!("{:?}", other),
    }
    match linking.clone().on_welcome_sent(Err(WelcomeFailure::Publish)) {
        RegisterStep::Finish { cache_write: None, reply: Err(ServiceError::Custom(m)) } => {
            assert_eq!(m, "Failed to send welcome email")
        }
        other => panic!("{:?}", other),
    }
    match linking.on_welcome_sent(Ok(())) {
        RegisterStep::Finish { cache_write: Some(w), reply: Ok(r) } => {
            assert_eq!((w.key.as_str(), w.ttl_hours), ("auth:register:ada@x.io", 24));
            assert_eq!(r.message, "User registered successfully");
            assert_eq!((r.data.id, w.value.id), (42, 42));
        }
        other => panic!("{:?}", other),
    }
}

#[test]
fn admin_created_user_is_verified_without_code() {
    let r = ecommerce::register::CreateUserRequest::verified_from(&register_request());
    assert!(r.is_verified);
    assert_eq!(r.verification_code, "");
    assert_eq!(r.email, "ada@x.io");
}

#[test]
fn refresh_expired_token_is_forgotten() {
    let flow = match RefreshFlow::start("tok") {
        RefreshStep::VerifyToken { flow, token, kind } => {
            assert_eq!((token.as_str(), kind.as_str()), ("tok", "refresh"));
            flow
        }
        other => panic!("{:?}", other),
    };
    match flow.clone().on_verified(Err(ServiceError::TokenExpired)) {
        RefreshStep::Finish { forget_expired: Some(t), cache_write: None, reply: Err(ServiceError::TokenExpired) } => {
            assert_eq!((t.token.as_str(), t.cache_key.as_str()), ("tok", "auth:refresh:tok"))
        }
        other => panic!("{:?}", other),
    }
    match flow.on_verified(Err(ServiceError::Jwt("sig".into()))) {
        RefreshStep::Finish { forget_expired: None, reply: Err(ServiceError::Internal(m)), .. } => {
            assert_eq!(m, "invalid token")
        }
        other => panic!("{:?}", other),
    }
}

#[test]
fn refresh_rotates_token() {
    let flow = match RefreshFlow::start("old") {
        RefreshStep::VerifyToken { flow, .. } => flow,
        other => panic!("{:?}", other),
    };
    let f = match flow.on_verified(Ok(9)) {
        RefreshStep::RemoveOldToken { flow, token } => {
            assert_eq!(token, "old");
            flow
        }
        other => panic!("{:?}", other),
    };
    let f = match f.on_old_removed(Ok(())) {
        RefreshStep::CreateAccessToken { flow, user_id } => {
            assert_eq!(user_id, 9);
            flow
        }
        other => panic!("{:?}", other),
    };
    let f = match f.on_access_token(Ok("acc".into())) {
        RefreshStep::CreateRefreshToken { flow, .. } => flow,
        other => panic!("{:?}", other),
    };
    let f = match f.on_refresh_token(Ok("new".into())) {
        RefreshStep::StoreToken { flow, request } => {
            assert_eq!((request.user_id, request.token.as_str(), request.valid_hours), (9, "new", 24));
            flow
        }
        other => panic!("{:?}", other),
    };
    match f.clone().on_token_stored(Err(RepositoryError::NotFound)) {
        RefreshStep::Finish { reply: Err(ServiceError::Internal(m)), cache_write: None, .. } => {
            assert_eq!(m, "Failed to update refresh token")
        }
        other => panic!("{:?}", other),
    }
    match f.on_token_stored(Ok(())) {
        RefreshStep::Finish { cache_write: Some(w), reply: Ok(r), .. } => {
            assert_eq!((w.key.as_str(), w.user_id, w.ttl_hours), ("auth:refresh:new", 9, 24));
            assert_eq!((r.data.access_token.as_str(), r.data.refresh_token.as_str()), ("acc", "new"));
            assert_eq!(r.message, "token refreshed");
        }
        other => panic!("{:?}", other),
    }
}

#[test]
fn profile_lookup() {
    let l = ProfileLookup::start(12);
    assert_eq!(l.cache_key, "auth:getme:12");
    assert_eq!(ProfileLookup::start(-3).cache_key, "auth:getme:-3");
    match l.clone().on_user(Ok(None)) {
        ProfileStep::Finish { cache_write: None, reply: Ok(r) } => {
            assert!(r.data.is_none());
            assert_eq!(r.message, "user fetched successfully");
        }
        other => panic!("{:?}", other),
    }
    match l.on_user(Ok(Some(user(12, "z@x.io")))) {
        ProfileStep::Finish { cache_write: Some(w), reply: Ok(r) } => {
            assert_eq!((w.key.as_str(), w.ttl_minutes), ("auth:getme:12", 30));
            assert_eq!(r.data.unwrap().email, "z@x.io");
        }
        other => panic!("{:?}", other),
    }
}

#[test]
fn five_failures_lock_out() {
    let flow = match found_flow(4).on_user(Ok(Some(user(7, "a@x.io")))) {
        LoginStep::ComparePassword { flow, .. } => flow,
        other => panic!("{:?}", other),
    };
    let stored = match flow.on_password_checked(false) {
        LoginStep::Finish { record_attempts: Some(w), .. } => w.attempts,
        other => panic!("{:?}", other),
    };
    assert_eq!(stored, 5);
    match login_flow().on_attempts(Some(stored)) {
        LoginStep::Finish { record_attempts: None, reply: Err(ServiceError::Custom(m)) } => {
            assert_eq!(m, "Too many failed attempts. Try again later.")
        }
        other => panic!("{:?}", other),
    }
}

#[test]
fn drawn_code_goes_into_stored_user() {
    match RegisterFlow::start(register_request()).with_code(3, Err(RandomStringError::EntropyUnavailable)) {
        RegisterStep::Finish { cache_write: None, reply: Err(ServiceError::Internal(m)) } => {
            assert_eq!(m, "Failed to generate verification code")
        }
        other => panic!("{:?}", other),
    }
    match RegisterFlow::start(register_request()).with_code(3, Ok("AbCdE12345".to_string())) {
        RegisterStep::CreateUser { flow, request } => {
            assert_eq!((flow.role_id, flow.verification_code.as_str()), (3, "AbCdE12345"));
            assert_eq!(request.verification_code, "AbCdE12345");
            assert_eq!(request.email, "ada@x.io");
            assert!(!request.is_verified);
        }
        other => panic!("{:?}", other),
    }
}
