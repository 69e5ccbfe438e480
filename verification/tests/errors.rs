use ecommerce::errors::{
    AppErrorGrpc, GrpcCode, GrpcStatus, HttpError, LogLevel, RepositoryError, ServiceError,
    grpc_status_to_service_error,
};

fn status_of(e: ServiceError) -> GrpcStatus {
    AppErrorGrpc::Service(e).into_status()
}

#[test]
fn code_numbers_round_trip() {
    for n in 0..17 {
        assert_eq!(GrpcCode::from_number(n).number(), n);
    }
    assert_eq!(GrpcCode::from_number(99), GrpcCode::Unknown);
    assert_eq!(GrpcCode::from_number(-1), GrpcCode::Unknown);
    assert_eq!(GrpcCode::NotFound.number(), 5);
    assert_eq!(GrpcCode::Unauthenticated.number(), 16);
}

#[test]
fn code_description_comes_from_grpc_library() {
    assert_eq!(GrpcCode::NotFound.description(), "Some requested entity was not found");
    assert_eq!(GrpcCode::DataLoss.description(), "Unrecoverable data loss or corruption");
}

#[test]
fn repository_errors_as_grpc_status() {
    let s = status_of(ServiceError::Repo(RepositoryError::NotFound));
    assert_eq!((s.code, s.message.as_str()), (GrpcCode::NotFound, "Not found"));
    let s = status_of(ServiceError::Repo(RepositoryError::Conflict("dup".to_string())));
    assert_eq!((s.code, s.message.as_str()), (GrpcCode::AlreadyExists, "dup"));
    let s = status_of(ServiceError::Repo(RepositoryError::AlreadyExists("x".to_string())));
    assert_eq!((s.code, s.message.as_str()), (GrpcCode::AlreadyExists, "x"));
    let s = status_of(ServiceError::Repo(RepositoryError::ForeignKey("fk".to_string())));
    assert_eq!((s.code, s.message.as_str()), (GrpcCode::FailedPrecondition, "Foreign key constraint: fk"));
    let s = status_of(ServiceError::Repo(RepositoryError::Sqlx("pool timed out".to_string())));
    assert_eq!((s.code, s.message.as_str()), (GrpcCode::Internal, "Database error"));
    let s = status_of(ServiceError::Repo(RepositoryError::Custom("c".to_string())));
    assert_eq!((s.code, s.message.as_str()), (GrpcCode::Internal, "c"));
}

#[test]
fn service_errors_as_grpc_status() {
    let s = status_of(ServiceError::Kafka("down".to_string()));
    assert_eq!((s.code, s.message.as_str()), (GrpcCode::Unavailable, "Kafka error: down"));
    let s = status_of(ServiceError::InvalidCredentials);
    assert_eq!((s.code, s.message.as_str()), (GrpcCode::Unauthenticated, "Invalid credentials"));
    let s = status_of(ServiceError::Validation(vec!["a".to_string()]));
    assert_eq!(s.code, GrpcCode::InvalidArgument);
    assert_eq!(s.message, format!("Validation failed: {:#?}", vec!["a".to_string()]));
    let s = status_of(ServiceError::Forbidden("no".to_string()));
    assert_eq!((s.code, s.message.as_str()), (GrpcCode::PermissionDenied, "no"));
    let s = status_of(ServiceError::Bcrypt("cost".to_string()));
    assert_eq!((s.code, s.message.as_str()), (GrpcCode::Internal, "Bcrypt error: cost"));
    let s = status_of(ServiceError::Jwt("sig".to_string()));
    assert_eq!((s.code, s.message.as_str()), (GrpcCode::Unauthenticated, "JWT error: sig"));
    let s = status_of(ServiceError::TokenExpired);
    assert_eq!((s.code, s.message.as_str()), (GrpcCode::Unauthenticated, "Token has expired"));
    let s = status_of(ServiceError::InvalidTokenType);
    assert_eq!((s.code, s.message.as_str()), (GrpcCode::Unauthenticated, "Invalid token type"));
    let s = status_of(ServiceError::Internal("boom".to_string()));
    assert_eq!((s.code, s.message.as_str()), (GrpcCode::Internal, "boom"));
    let s = status_of(ServiceError::Custom("mine".to_string()));
    assert_eq!((s.code, s.message.as_str()), (GrpcCode::Internal, "mine"));
    let s = AppErrorGrpc::Unhandled("x".to_string()).into_status();
    assert_eq!((s.code, s.message.as_str()), (GrpcCode::Internal, "Unhandled error: x"));
}

#[test]
fn statuses_from_other_services() {
    let st = |code, m: &str| GrpcStatus { code, message: m.to_string() };
    assert!(matches!(grpc_status_to_service_error(st(GrpcCode::Unauthenticated, "m")), ServiceError::InvalidCredentials));
    match grpc_status_to_service_error(st(GrpcCode::InvalidArgument, "bad")) {
        ServiceError::Validation(v) => assert_eq!(v, vec!["bad".to_string()]),
        other => panic!("{:?}", other),
    }
    assert!(matches!(
        grpc_status_to_service_error(st(GrpcCode::NotFound, "m")),
        ServiceError::Repo(RepositoryError::NotFound)
    ));
    match grpc_status_to_service_error(st(GrpcCode::PermissionDenied, "p")) {
        ServiceError::Forbidden(m) => assert_eq!(m, "p"),
        other => panic!("{:?}", other),
    }
    match grpc_status_to_service_error(st(GrpcCode::AlreadyExists, "e")) {
        ServiceError::Repo(RepositoryError::AlreadyExists(m)) => assert_eq!(m, "e"),
        other => panic!("{:?}", other),
    }
    match grpc_status_to_service_error(st(GrpcCode::Aborted, "a")) {
        ServiceError::Repo(RepositoryError::ForeignKey(m)) => assert_eq!(m, "a"),
        other => panic!("{:?}", other),
    }
    match grpc_status_to_service_error(st(GrpcCode::Unavailable, "u")) {
        ServiceError::Kafka(m) => assert_eq!(m, "u"),
        other => panic!("{:?}", other),
    }
    match grpc_status_to_service_error(st(GrpcCode::Internal, "i")) {
        ServiceError::Internal(m) => assert_eq!(m, "i"),
        other => panic!("{:?}", other),
    }
    match grpc_status_to_service_error(st(GrpcCode::DeadlineExceeded, "slow")) {
        ServiceError::Internal(m) => {
            assert_eq!(m, "gRPC error: Deadline expired before operation could complete - slow")
        }
        other => panic!("{:?}", other),
    }
}

#[test]
fn status_code_survives_a_round_trip() {
    // A not-found status passed on keeps its code and message.
    let e = AppErrorGrpc::from_status(GrpcStatus { code: GrpcCode::NotFound, message: "Not found".to_string() });
    let back = e.into_status();
    assert_eq!((back.code, back.message.as_str()), (GrpcCode::NotFound, "Not found"));
    let e = AppErrorGrpc::from_status(GrpcStatus { code: GrpcCode::PermissionDenied, message: "nope".to_string() });
    let back = e.into_status();
    assert_eq!((back.code, back.message.as_str()), (GrpcCode::PermissionDenied, "nope"));
    let e = AppErrorGrpc::from_status(GrpcStatus { code: GrpcCode::Internal, message: "oops".to_string() });
    let back = e.into_status();
    assert_eq!((back.code, back.message.as_str()), (GrpcCode::Internal, "oops"));
}

fn http_of(e: ServiceError) -> (u16, String, LogLevel) {
    let a = HttpError::from_app_error(AppErrorGrpc::Service(e)).into_answer();
    assert_eq!(a.body.status, "error");
    (a.status_code, a.body.message, a.log_level)
}

#[test]
fn http_answers() {
    assert_eq!(http_of(ServiceError::InvalidCredentials), (401, "Invalid credentials".to_string(), LogLevel::Warn));
    assert_eq!(http_of(ServiceError::Forbidden("f".into())), (403, "f".to_string(), LogLevel::Warn));
    assert_eq!(http_of(ServiceError::Repo(RepositoryError::NotFound)), (404, "Not found".to_string(), LogLevel::Info));
    assert_eq!(http_of(ServiceError::Repo(RepositoryError::Conflict("c".into()))), (409, "c".to_string(), LogLevel::Warn));
    assert_eq!(
        http_of(ServiceError::Repo(RepositoryError::ForeignKey("k".into()))),
        (400, "Foreign key violation: k".to_string(), LogLevel::Warn)
    );
    assert_eq!(
        http_of(ServiceError::Repo(RepositoryError::Sqlx("s".into()))),
        (500, "Repository error".to_string(), LogLevel::Error)
    );
    assert_eq!(http_of(ServiceError::Jwt("j".into())), (401, "JWT error: j".to_string(), LogLevel::Warn));
    assert_eq!(http_of(ServiceError::Kafka("k".into())), (503, "Kafka error: k".to_string(), LogLevel::Error));
    assert_eq!(
        http_of(ServiceError::Bcrypt("b".into())),
        (500, "Internal authentication error".to_string(), LogLevel::Error)
    );
    assert_eq!(http_of(ServiceError::TokenExpired), (401, "Token expired".to_string(), LogLevel::Warn));
    assert_eq!(http_of(ServiceError::InvalidTokenType), (401, "Invalid token type".to_string(), LogLevel::Warn));
    assert_eq!(http_of(ServiceError::Custom("c".into())), (500, "c".to_string(), LogLevel::Error));
    let (code, msg, _) = http_of(ServiceError::Validation(vec!["x".into(), "y".into()]));
    assert_eq!(code, 400);
    assert_eq!(msg, "Validation failed: [\"x\", \"y\"]");
    let a = HttpError::from_app_error(AppErrorGrpc::Unhandled("u".into())).into_answer();
    assert_eq!((a.status_code, a.body.message.as_str()), (500, "u"));
}

#[test]
fn http_and_grpc_answers_agree() {
    let http_for = |c: GrpcCode| -> u16 {
        match c {
            GrpcCode::Unauthenticated => 401,
            GrpcCode::PermissionDenied => 403,
            GrpcCode::NotFound => 404,
            GrpcCode::AlreadyExists => 409,
            GrpcCode::InvalidArgument | GrpcCode::FailedPrecondition => 400,
            GrpcCode::Unavailable => 503,
            _ => 500,
        }
    };
    let errors = vec![
        ServiceError::InvalidCredentials,
        ServiceError::Forbidden("f".into()),
        ServiceError::Repo(RepositoryError::NotFound),
        ServiceError::Repo(RepositoryError::Conflict("c".into())),
        ServiceError::Repo(RepositoryError::ForeignKey("k".into())),
        ServiceError::Repo(RepositoryError::Sqlx("s".into())),
        ServiceError::Validation(vec!["v".into()]),
        ServiceError::Kafka("k".into()),
        ServiceError::Jwt("j".into()),
        ServiceError::Bcrypt("b".into()),
        ServiceError::TokenExpired,
        ServiceError::InvalidTokenType,
        ServiceError::Internal("i".into()),
        ServiceError::Custom("c".into()),
    ];
    for e in errors {
        let grpc = AppErrorGrpc::Service(e.clone()).into_status().code;
        let http = HttpError::from_app_error(AppErrorGrpc::Service(e)).into_answer().status_code;
        assert_eq!(http, http_for(grpc));
    }
}
