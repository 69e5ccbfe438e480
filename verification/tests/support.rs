use ecommerce::config::{ConfigError, GrpcClientConfig};
use ecommerce::datetime::{parse_datetime, parse_expiration_datetime};
use ecommerce::events::{EventBus, UserEvent, event_publish_failure, event_serialize_failure, subscribe_failure};
use ecommerce::errors::{RepositoryError, ServiceError};
use ecommerce::metrics::{Method, Status, completion_word};
use ecommerce::pagination::{effective_page, effective_page_size, query_window, search_filter, total_from_first_row, total_pages};
use ecommerce::random::{generate_random_string, random_string_from_seed};
use ecommerce::repository::{OrderRepository, RoleQueryRepository, UserCommandRepository, deletion_outcome};
use ecommerce::responses::{RoleResponse, RoleResponseProto, UserRoleResponse, UserRoleResponseProto};
use ecommerce::template::{EmailTemplate, EmailTemplateData};
use ecommerce::lookup::ItemLookup;
use ecommerce::text::join3;

#[test]
fn pages_cover_items() {
    assert_eq!(total_pages(21, 10), 3);
    assert_eq!(total_pages(20, 10), 2);
    assert_eq!(total_pages(1, 10), 1);
    // An empty result is one page with pages of two or more items, none with pages of one.
    assert_eq!(total_pages(0, 10), 1);
    assert_eq!(total_pages(0, 1), 0);
    // Division rounds toward zero, as Rust divides.
    assert_eq!(total_pages(7, -2), -2);
}

#[test]
fn windows_and_defaults() {
    let w = query_window(3, 10, "  lamp ");
    assert_eq!((w.limit, w.offset, w.search.as_deref()), (10, 20, Some("  lamp ")));
    let w = query_window(0, 10, "   ");
    assert_eq!((w.offset, w.search), (0, None));
    assert_eq!(query_window(4, 10, "").offset, query_window(3, 10, "").offset + 10);
    assert_eq!(search_filter("\t"), None);
    assert_eq!(effective_page(-1), 1);
    assert_eq!(effective_page(4), 4);
    assert_eq!(effective_page_size(0), 10);
    assert_eq!(effective_page_size(25), 25);
    assert_eq!(total_from_first_row(Some(Some(42))), 42);
    assert_eq!(total_from_first_row(Some(None)), 0);
    assert_eq!(total_from_first_row(None), 0);
}

#[test]
fn dates_from_other_services() {
    assert_eq!(parse_datetime(""), None);
    assert_eq!(parse_datetime("yesterday"), None);
    assert_eq!(parse_datetime("2024-03-01T10:00:00+02:00").as_deref(), Some("2024-03-01T08:00:00+00:00"));
    let d = parse_expiration_datetime("2024-03-01 10:20:30").unwrap();
    assert_eq!(
        (d.year, d.month, d.day, d.hour, d.minute, d.second, d.nanosecond),
        (2024, 3, 1, 10, 20, 30, 0)
    );
    assert!(parse_expiration_datetime("2024-03-01T10:00:00").is_err());
    assert!(parse_expiration_datetime("2024-02-30 10:00:00").is_err());
}

#[test]
fn role_from_other_service_reads_dates() {
    let r = RoleResponse::from_proto(RoleResponseProto {
        id: 2,
        name: "ROLE_USER".into(),
        created_at: "2024-03-01T10:00:00Z".into(),
        updated_at: String::new(),
    });
    assert_eq!((r.id, r.name.as_str()), (2, "ROLE_USER"));
    assert_eq!(r.created_at.as_deref(), Some("2024-03-01T10:00:00+00:00"));
    assert_eq!(r.updated_at, None);
    let p = r.into_proto();
    assert_eq!((p.created_at.as_str(), p.updated_at.as_str()), ("2024-03-01T10:00:00+00:00", ""));
    let back = RoleResponse::from_proto(p);
    assert_eq!((back.id, back.updated_at), (2, None));
    let link = UserRoleResponse::from_proto(UserRoleResponseProto { userid: 7, roleid: 3 });
    assert_eq!((link.user_id, link.role_id), (7, 3));
}

#[test]
fn verification_codes() {
    let code = generate_random_string(10).unwrap();
    assert_eq!(code.len(), 10);
    assert!(code.chars().all(|c| c.is_ascii_alphanumeric()));
    assert_eq!(generate_random_string(0).unwrap(), "");
}

#[test]
fn role_address_is_required() {
    match GrpcClientConfig::from_role_address(None) {
        Err(ConfigError::MissingVariable(m)) => assert_eq!(m, "Missing environment variable: GRPC_ROLE_ADDR"),
        other => panic!("{:?}", other),
    }
    assert_eq!(GrpcClientConfig::from_role_address(Some("http://role:50051".into())).unwrap().role, "http://role:50051");
}

#[test]
fn repositories_share_one_pool() {
    let repos = OrderRepository::new(String::from("pool"));
    assert_eq!(repos.query.db(), "pool");
    assert_eq!(repos.command.db(), "pool");
    assert_eq!(*RoleQueryRepository::new(7u8).db(), 7);
    assert_eq!(*UserCommandRepository::new(1i32).db(), 1);
    assert!(matches!(deletion_outcome(0), Err(RepositoryError::NotFound)));
    assert!(deletion_outcome(2).is_ok());
}

#[test]
fn bus_failures() {
    let bus = EventBus::new(5u32);
    assert_eq!(*bus.kafka(), 5);
    assert!(matches!(event_serialize_failure("eof"), ServiceError::Internal(m) if m == "eof"));
    assert!(matches!(event_publish_failure("down"), ServiceError::Internal(m) if m == "Event publishing failed: down"));
    assert!(matches!(subscribe_failure("group"), ServiceError::Internal(m) if m == "Subscription failed: group"));
    let e = UserEvent::UserDeleted { user_id: "1".into() };
    assert!(matches!(e, UserEvent::UserDeleted { .. }));
}

#[test]
fn metric_labels() {
    assert_eq!(Method::Get.label(), "GET");
    assert_eq!(Method::Delete.label(), "DELETE");
    assert_eq!(Status::of_completion(true).label(), "success");
    assert_eq!(Status::of_completion(false).label(), "error");
    assert_eq!(completion_word(true), "SUCCESS");
    assert_eq!(completion_word(false), "ERROR");
}

#[test]
fn text_helpers() {
    assert_eq!(ItemLookup::user_by_id(-120).cache_key, "user:find_by_id:id:-120");
    assert_eq!(ItemLookup::role_by_id(0).cache_key, "role:find_by_id:id:0");
    assert_eq!(join3("a", "", "c"), "ac");
}

#[test]
fn template_borrows_each_field() {
    let data = EmailTemplateData { title: "T".into(), message: "M".into(), button: "B".into(), link: "L".into() };
    let t = EmailTemplate::from_data(&data);
    assert_eq!((t.title, t.message, t.button, t.link), ("T", "M", "B", "L"));
}

#[test]
fn codes_from_a_seed() {
    let a = random_string_from_seed([7u8; 32], 12);
    assert_eq!(a.len(), 12);
    assert!(a.chars().all(|c| c.is_ascii_alphanumeric()));
    assert_eq!(random_string_from_seed([7u8; 32], 12), a);
    assert_eq!(random_string_from_seed([1u8; 32], 0), "");
}

#[test]
fn utc_form_is_not_always_read_back() {
    // A UTC form is read back unchanged when its year has four digits...
    let t = parse_datetime("2024-03-01T10:00:00.5+02:00").unwrap();
    assert_eq!(t, "2024-03-01T08:00:00.500+00:00");
    assert_eq!(parse_datetime(&t).as_deref(), Some(t.as_str()));
    // ...but a date moved before year 0 is written with a sign the parser refuses.
    let early = parse_datetime("0000-01-01T00:30:00+01:00").unwrap();
    assert_eq!(early, "-0001-12-31T23:30:00+00:00");
    assert_eq!(parse_datetime(&early), None);
}

#[test]
fn unicode_white_space_is_blank() {
    assert_eq!(search_filter("\u{3000}\u{a0} \n"), None);
    assert_eq!(search_filter("\u{200b}").as_deref(), Some("\u{200b}"));
}
