use ecommerce::errors::{AppErrorGrpc, RepositoryError, ServiceError};
use ecommerce::lookup::{ItemLookup, ItemRequest, ItemStep, PageLookup, PageStep, user_roles_reply};
use ecommerce::model::{ApiResponse, RoleRecord, UserRecord};
use ecommerce::requests::{CreateUserRequest, UpdateUserRequest};
use ecommerce::responses::RoleResponse;
use ecommerce::user_service::{
    CreateUserFlow, CreateUserStep, UpdateUserFlow, UpdateUserStep, admin_created_user_reply, all_users_deleted_reply,
    all_users_restored_reply, password_updated_reply, user_deleted_reply, user_restored_reply,
    user_restored_with_dates_reply, user_trashed_reply, user_updated_reply, verification_updated_reply,
};

fn role(id: i32, name: &str) -> RoleRecord {
    RoleRecord { role_id: id, role_name: name.to_string(), created_at: None, updated_at: None, deleted_at: None }
}

fn user(id: i32) -> UserRecord {
    UserRecord {
        user_id: id,
        firstname: "Grace".to_string(),
        lastname: "Hopper".to_string(),
        email: "grace@x.io".to_string(),
        password: "stored-hash".to_string(),
        verification_code: String::new(),
        is_verified: true,
        created_at: None,
        updated_at: None,
        deleted_at: Some("2024-02-02T00:00:00+00:00".to_string()),
    }
}

#[test]
fn role_page_normalizes_page_and_size() {
    let l = PageLookup::roles_all(0, -4, "adm");
    assert_eq!(l.cache_key, "role:find_all:page:1:size:10:search:adm");
    assert_eq!((l.page, l.page_size), (1, 10));
    match l.on_roles(Ok((vec![role(1, "ROLE_ADMIN"), role(2, "ROLE_USER")], 21))) {
        PageStep::Finish { cache: Some(c), reply: Ok(r) } => {
            assert_eq!((c.key.as_str(), c.ttl_minutes), ("role:find_all:page:1:size:10:search:adm", 5));
            assert_eq!(r.message, "Roles retrieved successfully");
            assert_eq!(r.data.len(), 2);
            assert_eq!((r.data[1].id, r.data[1].name.as_str()), (2, "ROLE_USER"));
            assert_eq!(
                (r.pagination.page, r.pagination.page_size, r.pagination.total_items, r.pagination.total_pages),
                (1, 10, 21, 3)
            );
        }
        other => panic!("{:?}", other),
    }
}

#[test]
fn empty_role_page_is_one_page() {
    let l = PageLookup::roles_trashed(2, 5, "");
    assert_eq!(l.cache_key, "role:find_trashed:page:2:size:5:search:");
    match l.on_trashed_roles(Ok((vec![], 0))) {
        PageStep::Finish { reply: Ok(r), .. } => assert_eq!((r.pagination.total_items, r.pagination.total_pages), (0, 1)),
        other => panic!("{:?}", other),
    }
}

#[test]
fn user_page_keeps_requested_page_and_narrows_total() {
    let l = PageLookup::users_all(3, 2, "g");
    assert_eq!(l.cache_key, "user:find_all:page:3:size:2:search:g");
    assert_eq!((l.page, l.page_size), (3, 2));
    match l.clone().on_users(Ok((vec![user(1)], 5))) {
        PageStep::Finish { reply: Ok(r), .. } => {
            assert_eq!((r.pagination.total_items, r.pagination.total_pages), (5, 3));
            assert_eq!(r.data[0].email, "grace@x.io");
        }
        other => panic!("{:?}", other),
    }
    match l.on_trashed_users(Ok((vec![user(1)], (1i64 << 32) + 7))) {
        PageStep::Finish { reply: Ok(r), .. } => {
            assert_eq!(r.pagination.total_items, 7);
            assert_eq!(r.data[0].deleted_at.as_deref(), Some("2024-02-02T00:00:00+00:00"));
        }
        other => panic!("{:?}", other),
    }
    let l = PageLookup::users_active(0, 0, "");
    assert_eq!(l.cache_key, "user:find_active:page:1:size:10:search:");
    assert_eq!((l.page, l.page_size), (0, 0));
}

#[test]
fn page_from_cache_and_errors() {
    let l = PageLookup::roles_active(1, 10, "");
    match l.clone().on_cached::<Vec<RoleResponse>>(None) {
        PageStep::Query { lookup, request } => {
            assert_eq!(lookup.cache_key, l.cache_key);
            assert_eq!((request.page, request.page_size, request.search.as_str()), (1, 10, ""));
        }
        other => panic!("{:?}", other),
    }
    match l.on_roles(Err(RepositoryError::Sqlx("gone".into()))) {
        PageStep::Finish { cache: None, reply: Err(ServiceError::Repo(RepositoryError::Sqlx(m))) } => assert_eq!(m, "gone"),
        other => panic!("{:?}", other),
    }
}

#[test]
fn item_lookups() {
    let l = ItemLookup::role_by_id(4);
    assert_eq!(l.cache_key, "role:find_by_id:id:4");
    match l.clone().on_role(Ok(None)) {
        ItemStep::Finish { cache: None, reply: Err(ServiceError::Custom(m)) } => assert_eq!(m, "Role not found"),
        other => panic!("{:?}", other),
    }
    match l.on_role(Ok(Some(role(4, "ROLE_ADMIN")))) {
        ItemStep::Finish { cache: Some(c), reply: Ok(r) } => {
            assert_eq!((c.key.as_str(), c.ttl_minutes), ("role:find_by_id:id:4", 5));
            assert_eq!((r.message.as_str(), r.data.name.as_str()), ("Role retrieved successfully", "ROLE_ADMIN"));
        }
        other => panic!("{:?}", other),
    }
    let l = ItemLookup::user_by_email_and_verify("grace@x.io");
    assert_eq!(l.cache_key, "user:find_by_email_and_verify:grace@x.io");
    match l.clone().on_user_with_password(Ok(None)) {
        ItemStep::Finish { reply: Err(ServiceError::Custom(m)), .. } => assert_eq!(m, "User not found or invalid"),
        other => panic!("{:?}", other),
    }
    match l.on_user_with_password(Ok(Some(user(9)))) {
        ItemStep::Finish { reply: Ok(r), .. } => {
            assert_eq!(r.data.password, "stored-hash");
            assert_eq!(r.message, "User verified & retrieved successfully");
        }
        other => panic!("{:?}", other),
    }
    let cached = ApiResponse { status: "success".into(), message: "m".into(), data: 1u8 };
    match ItemLookup::user_by_email("k").on_cached(Some(cached)) {
        ItemStep::Finish { cache: None, reply: Ok(r) } => assert_eq!(r.data, 1),
        other => panic!("{:?}", other),
    }
    match ItemLookup::user_by_id(1).on_user(Err(RepositoryError::NotFound)) {
        ItemStep::Finish { reply: Err(ServiceError::Repo(RepositoryError::NotFound)), .. } => {}
        other => panic!("{:?}", other),
    }
    match ItemLookup::user_by_id(1).on_user(Ok(None)) {
        ItemStep::Finish { reply: Err(ServiceError::Custom(m)), .. } => assert_eq!(m, "Failed to find user by ID"),
        other => panic!("{:?}", other),
    }
    let l = ItemLookup::user_by_verification_code("ABC");
    assert_eq!((l.cache_key.as_str(), l.not_found.as_str()), ("user:find_by_verification_code:ABC", "Invalid verification code"));
}

#[test]
fn roles_of_a_user_in_order() {
    let r = user_roles_reply(Ok(vec![role(2, "B"), role(1, "A")])).unwrap();
    assert_eq!(r.message, "User roles retrieved successfully");
    assert_eq!((r.data[0].name.as_str(), r.data[1].name.as_str()), ("B", "A"));
}

fn create_request(password: &str, confirm: &str) -> CreateUserRequest {
    CreateUserRequest {
        first_name: "Grace".into(),
        last_name: "Hopper".into(),
        email: "grace@x.io".into(),
        password: password.into(),
        confirm_password: confirm.into(),
        verified_code: "VC".into(),
        is_verified: false,
    }
}

#[test]
fn create_user_checks_confirmation_first() {
    match CreateUserFlow::start(create_request("abcdef", "abcdeg")) {
        CreateUserStep::Finish { reply: Err(ServiceError::Custom(m)) } => {
            assert_eq!(m, "Password and confirm password do not match")
        }
        other => panic!("{:?}", other),
    }
}

#[test]
fn create_user_stores_hash_and_links_role() {
    let flow = match CreateUserFlow::start(create_request("abcdef", "abcdef")) {
        CreateUserStep::HashPassword { flow, password } => {
            assert_eq!(password, "abcdef");
            flow
        }
        other => panic!("{:?}", other),
    };
    match flow.clone().on_hashed(Err(ServiceError::Bcrypt("cost".into()))) {
        CreateUserStep::Finish { reply: Err(ServiceError::Internal(m)) } => assert_eq!(m, "Failed to hash password"),
        other => panic!("{:?}", other),
    }
    let hashed = match flow.on_hashed(Ok("$2b$h".into())) {
        CreateUserStep::FindRole { flow, name } => {
            assert_eq!(name, "ROLE_ADMIN");
            flow
        }
        other => panic!("{:?}", other),
    };
    match hashed.clone().on_role(Err(AppErrorGrpc::Unhandled("down".into()))) {
        CreateUserStep::Finish { reply: Err(ServiceError::Internal(m)) } => assert_eq!(m, "Role service unavailable"),
        other => panic!("{:?}", other),
    }
    let role = RoleResponse { id: 3, name: "ROLE_ADMIN".into(), created_at: None, updated_at: None };
    let with_role = match hashed.on_role(Ok(ApiResponse { status: "success".into(), message: "ok".into(), data: role })) {
        CreateUserStep::StoreUser { flow, request } => {
            assert_eq!(request.password, "$2b$h");
            assert_eq!(request.confirm_password, "abcdef");
            assert_eq!(request.verified_code, "VC");
            flow
        }
        other => panic!("{:?}", other),
    };
    let linking = match with_role.on_created(Ok(user(30))) {
        CreateUserStep::AssignRole { flow, request } => {
            assert_eq!((request.user_id, request.role_id), (30, 3));
            flow
        }
        other => panic!("{:?}", other),
    };
    match linking.clone().on_assigned(Err(AppErrorGrpc::Unhandled("x".into()))) {
        CreateUserStep::Finish { reply: Err(ServiceError::Internal(m)) } => assert_eq!(m, "Role service unavailable"),
        other => panic!("{:?}", other),
    }
    match linking.on_assigned(Ok(())) {
        CreateUserStep::Finish { reply: Ok(r) } => {
            assert_eq!((r.message.as_str(), r.data.id), ("User created successfully", 30))
        }
        other => panic!("{:?}", other),
    }
}

fn update_request(id: Option<i32>, first: &str, email: &str, password: &str, confirm: &str) -> UpdateUserRequest {
    UpdateUserRequest {
        user_id: id,
        first_name: first.into(),
        last_name: String::new(),
        email: email.into(),
        password: password.into(),
        confirm_password: confirm.into(),
    }
}

fn found(req: UpdateUserRequest) -> UpdateUserStep {
    match UpdateUserFlow::start(req) {
        UpdateUserStep::FindUser { flow, user_id } => {
            assert_eq!(user_id, 30);
            flow.on_user(Ok(Some(user(30))))
        }
        other => panic!("{:?}", other),
    }
}

#[test]
fn update_user_needs_an_id_and_a_user() {
    match UpdateUserFlow::start(update_request(None, "", "", "", "")) {
        UpdateUserStep::Finish { reply: Err(ServiceError::Custom(m)) } => assert_eq!(m, "User ID is required for update"),
        other => panic!("{:?}", other),
    }
    match UpdateUserFlow::start(update_request(Some(30), "", "", "", "")) {
        UpdateUserStep::FindUser { flow, .. } => match flow.on_user(Ok(None)) {
            UpdateUserStep::Finish { reply: Err(ServiceError::Custom(m)) } => assert_eq!(m, "User not found"),
            other => panic!("{:?}", other),
        },
        other => panic!("{:?}", other),
    }
}

#[test]
fn empty_update_keeps_user() {
    match found(update_request(Some(30), "", "", "", "")) {
        UpdateUserStep::StoreUser { request, .. } => {
            assert_eq!(request.first_name, "Grace");
            assert_eq!(request.last_name, "Hopper");
            assert_eq!(request.email, "grace@x.io");
            assert_eq!(request.password, "stored-hash");
        }
        other => panic!("{:?}", other),
    }
    // The same e-mail is no change and is not checked.
    match found(update_request(Some(30), "Amazing", "grace@x.io", "", "")) {
        UpdateUserStep::StoreUser { request, .. } => assert_eq!(request.first_name, "Amazing"),
        other => panic!("{:?}", other),
    }
}

#[test]
fn update_user_email_and_password() {
    let f = match found(update_request(Some(30), "", "new@x.io", "pw1234", "pw9999")) {
        UpdateUserStep::CheckEmail { flow, email } => {
            assert_eq!(email, "new@x.io");
            flow
        }
        other => panic!("{:?}", other),
    };
    match f.clone().on_email_checked(Ok(Some(user(31)))) {
        UpdateUserStep::Finish { reply: Err(ServiceError::Custom(m)) } => assert_eq!(m, "Email already registered"),
        other => panic!("{:?}", other),
    }
    match f.on_email_checked(Ok(None)) {
        UpdateUserStep::Finish { reply: Err(ServiceError::Custom(m)) } => {
            assert_eq!(m, "Password and confirmation do not match")
        }
        other => panic!("{:?}", other),
    }
    let settled = match found(update_request(Some(30), "", "", "pw1234", "pw1234")) {
        UpdateUserStep::HashPassword { flow, password } => {
            assert_eq!(password, "pw1234");
            flow
        }
        other => panic!("{:?}", other),
    };
    match settled.on_hashed(Ok("$2b$new".into())) {
        UpdateUserStep::StoreUser { flow, request } => {
            assert_eq!(request.password, "$2b$new");
            assert_eq!(request.email, "grace@x.io");
            match flow.on_stored(Ok(user(30))) {
                UpdateUserStep::Finish { reply: Ok(r) } => assert_eq!(r.message, "User updated successfully"),
                other => panic!("{:?}", other),
            }
        }
        other => panic!("{:?}", other),
    }
}

#[test]
fn user_single_call_replies() {
    let r = verification_updated_reply(Ok(user(1))).unwrap();
    assert_eq!((r.status.as_str(), r.message.as_str(), r.data.id), ("success", "User verification updated successfully", 1));
    let r = user_trashed_reply(Ok(user(1))).unwrap();
    assert_eq!(r.message, "User moved to trash successfully");
    assert!(r.data.deleted_at.is_some());
    assert!(matches!(password_updated_reply(Err(RepositoryError::NotFound)), Err(ServiceError::Repo(RepositoryError::NotFound))));
    assert_eq!(password_updated_reply(Ok(user(1))).unwrap().message, "Password updated successfully");
    assert_eq!(admin_created_user_reply(Ok(user(1))).unwrap().message, "User created successfully");
    assert_eq!(user_updated_reply(Ok(user(1))).unwrap().message, "User updated successfully");
    assert_eq!(user_restored_reply(Ok(user(1))).unwrap().message, "User restored successfully");
    assert!(user_restored_with_dates_reply(Ok(user(1))).unwrap().data.deleted_at.is_some());
    assert_eq!(user_deleted_reply(Ok(())).unwrap().message, "User deleted permanently");
    assert_eq!(all_users_restored_reply(Ok(())).unwrap().message, "All users restored successfully");
    assert_eq!(all_users_deleted_reply(Ok(())).unwrap().message, "All users deleted permanently");
}

#[test]
fn lookups_carry_the_repository_request() {
    // Roles: the key and answer read the defaulted page, the repository gets the request as made.
    let l = PageLookup::roles_all(0, -4, "adm");
    match l.on_cached::<Vec<RoleResponse>>(None) {
        PageStep::Query { lookup, request } => {
            assert_eq!((lookup.page, lookup.page_size), (1, 10));
            assert_eq!((request.page, request.page_size, request.search.as_str()), (0, -4, "adm"));
        }
        other => panic!("{:?}", other),
    }
    match ItemLookup::user_by_email_and_verify("g@x.io").on_cached::<u8>(None) {
        ItemStep::Query { request: ItemRequest::Email(e), .. } => assert_eq!(e, "g@x.io"),
        other => panic!("{:?}", other),
    }
    match ItemLookup::role_by_id(9).on_cached::<u8>(None) {
        ItemStep::Query { request: ItemRequest::Id(n), .. } => assert_eq!(n, 9),
        other => panic!("{:?}", other),
    }
    match ItemLookup::user_by_verification_code("C0DE").on_cached::<u8>(None) {
        ItemStep::Query { request: ItemRequest::Code(c), .. } => assert_eq!(c, "C0DE"),
        other => panic!("{:?}", other),
    }
}
