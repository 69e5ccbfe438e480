//! Errors of the storage layer and of the services, and how they are
//! answered over gRPC and over HTTP.

use vstd::prelude::*;
use vstd::string::*;
use crate::text::{copy_str, debug_list, debug_list_text, join2, join3, pretty_debug_list, pretty_debug_list_text};

verus! {

/// Failures of a repository. The database driver's own error is kept as
/// its message.
#[derive(Debug, Clone)]
pub enum RepositoryError {
    Sqlx(String),
    NotFound,
    Conflict(String),
    AlreadyExists(String),
    ForeignKey(String),
    Custom(String),
}

/// Failures of a service operation. Errors of the hashing, token and
/// message-bus libraries are kept as their messages.
#[derive(Debug, Clone)]
pub enum ServiceError {
    Repo(RepositoryError),
    Forbidden(String),
    InvalidCredentials,
    Validation(Vec<String>),
    Bcrypt(String),
    Jwt(String),
    Kafka(String),
    TokenExpired,
    InvalidTokenType,
    Internal(String),
    Custom(String),
}

/// An error on its way out of a gRPC handler.
#[derive(Debug, Clone)]
pub enum AppErrorGrpc {
    Service(ServiceError),
    Unhandled(String),
}

/// The gRPC status codes, numbered as the gRPC protocol numbers them.
#[derive(Debug, Clone, Copy, PartialEq, Eq)]
pub enum GrpcCode {
    Success,
    Cancelled,
    Unknown,
    InvalidArgument,
    DeadlineExceeded,
    NotFound,
    AlreadyExists,
    PermissionDenied,
    ResourceExhausted,
    FailedPrecondition,
    Aborted,
    OutOfRange,
    Unimplemented,
    Internal,
    Unavailable,
    DataLoss,
    Unauthenticated,
}

/// A gRPC status: a code and a message.
#[derive(Debug, Clone)]
pub struct GrpcStatus {
    pub code: GrpcCode,
    pub message: String,
}

/// An error answered by the HTTP gateway.
#[derive(Debug, Clone)]
pub enum HttpError {
    BadRequest(String),
    Unauthorized(String),
    NotFound(String),
    Conflict(String),
    ServiceUnavailable(String),
    Internal(String),
    Forbidden(String),
}

/// The level at which an HTTP error is logged.
#[derive(Debug, Clone, Copy, PartialEq, Eq)]
pub enum LogLevel {
    Error,
    Warn,
    Info,
}

/// The JSON body of an HTTP error answer.
#[derive(Debug, Clone)]
pub struct ErrorResponse {
    pub status: String,
    pub message: String,
}

/// Everything an HTTP error answer is made of: its status code, its body
/// and the level at which it is logged.
#[derive(Debug, Clone)]
pub struct HttpErrorAnswer {
    pub status_code: u16,
    pub body: ErrorResponse,
    pub log_level: LogLevel,
}

/// The protocol number of a gRPC code.
pub open spec fn code_number(c: GrpcCode) -> int {
    match c {
        GrpcCode::Success => 0,
        GrpcCode::Cancelled => 1,
        GrpcCode::Unknown => 2,
        GrpcCode::InvalidArgument => 3,
        GrpcCode::DeadlineExceeded => 4,
        GrpcCode::NotFound => 5,
        GrpcCode::AlreadyExists => 6,
        GrpcCode::PermissionDenied => 7,
        GrpcCode::ResourceExhausted => 8,
        GrpcCode::FailedPrecondition => 9,
        GrpcCode::Aborted => 10,
        GrpcCode::OutOfRange => 11,
        GrpcCode::Unimplemented => 12,
        GrpcCode::Internal => 13,
        GrpcCode::Unavailable => 14,
        GrpcCode::DataLoss => 15,
        GrpcCode::Unauthenticated => 16,
    }
}

/// The code with a protocol number; numbers out of range read as `Unknown`.
pub open spec fn code_of_number(n: int) -> GrpcCode {
    if n == 0 { GrpcCode::Success }
    else if n == 1 { GrpcCode::Cancelled }
    else if n == 3 { GrpcCode::InvalidArgument }
    else if n == 4 { GrpcCode::DeadlineExceeded }
    else if n == 5 { GrpcCode::NotFound }
    else if n == 6 { GrpcCode::AlreadyExists }
    else if n == 7 { GrpcCode::PermissionDenied }
    else if n == 8 { GrpcCode::ResourceExhausted }
    else if n == 9 { GrpcCode::FailedPrecondition }
    else if n == 10 { GrpcCode::Aborted }
    else if n == 11 { GrpcCode::OutOfRange }
    else if n == 12 { GrpcCode::Unimplemented }
    else if n == 13 { GrpcCode::Internal }
    else if n == 14 { GrpcCode::Unavailable }
    else if n == 15 { GrpcCode::DataLoss }
    else if n == 16 { GrpcCode::Unauthenticated }
    else { GrpcCode::Unknown }
}

/// The description that the gRPC library gives of a code (its `Display`
/// text).
pub open spec fn grpc_code_description(c: GrpcCode) -> Seq<char> {
    match c {
        GrpcCode::Success => "The operation completed successfully"@,
        GrpcCode::Cancelled => "The operation was cancelled"@,
        GrpcCode::Unknown => "Unknown error"@,
        GrpcCode::InvalidArgument => "Client specified an invalid argument"@,
        GrpcCode::DeadlineExceeded => "Deadline expired before operation could complete"@,
        GrpcCode::NotFound => "Some requested entity was not found"@,
        GrpcCode::AlreadyExists => "Some entity that we attempted to create already exists"@,
        GrpcCode::PermissionDenied => "The caller does not have permission to execute the specified operation"@,
        GrpcCode::ResourceExhausted => "Some resource has been exhausted"@,
        GrpcCode::FailedPrecondition => "The system is not in a state required for the operation's execution"@,
        GrpcCode::Aborted => "The operation was aborted"@,
        GrpcCode::OutOfRange => "Operation was attempted past the valid range"@,
        GrpcCode::Unimplemented => "Operation is not implemented or not supported"@,
        GrpcCode::Internal => "Internal error"@,
        GrpcCode::Unavailable => "The service is currently unavailable"@,
        GrpcCode::DataLoss => "Unrecoverable data loss or corruption"@,
        GrpcCode::Unauthenticated => "The request does not have valid authentication credentials"@,
    }
}

/// The description of the gRPC code with a protocol number, taken from
/// `tonic::Code::from_i32` (numbers out of range read as `Unknown`)
/// followed by its `Display` implementation, which writes the code's
/// `description()`.
#[verifier::external_body]
fn code_description_text(number: i32) -> (r: String)
    ensures
        r@ == grpc_code_description(code_of_number(number as int)),
{
    tonic::Code::from_i32(number).to_string()
}

impl GrpcCode {
    /// The protocol number of this code.
    pub fn number(self) -> (n: i32)
        ensures
            n == code_number(self),
    {
        match self {
            GrpcCode::Success => 0,
            GrpcCode::Cancelled => 1,
            GrpcCode::Unknown => 2,
            GrpcCode::InvalidArgument => 3,
            GrpcCode::DeadlineExceeded => 4,
            GrpcCode::NotFound => 5,
            GrpcCode::AlreadyExists => 6,
            GrpcCode::PermissionDenied => 7,
            GrpcCode::ResourceExhausted => 8,
            GrpcCode::FailedPrecondition => 9,
            GrpcCode::Aborted => 10,
            GrpcCode::OutOfRange => 11,
            GrpcCode::Unimplemented => 12,
            GrpcCode::Internal => 13,
            GrpcCode::Unavailable => 14,
            GrpcCode::DataLoss => 15,
            GrpcCode::Unauthenticated => 16,
        }
    }

    /// The code with protocol number `n`; `Unknown` when no code has it.
    pub fn from_number(n: i32) -> (c: GrpcCode)
        ensures
            c == code_of_number(n as int),
    {
        if n == 0 { GrpcCode::Success }
        else if n == 1 { GrpcCode::Cancelled }
        else if n == 3 { GrpcCode::InvalidArgument }
        else if n == 4 { GrpcCode::DeadlineExceeded }
        else if n == 5 { GrpcCode::NotFound }
        else if n == 6 { GrpcCode::AlreadyExists }
        else if n == 7 { GrpcCode::PermissionDenied }
        else if n == 8 { GrpcCode::ResourceExhausted }
        else if n == 9 { GrpcCode::FailedPrecondition }
        else if n == 10 { GrpcCode::Aborted }
        else if n == 11 { GrpcCode::OutOfRange }
        else if n == 12 { GrpcCode::Unimplemented }
        else if n == 13 { GrpcCode::Internal }
        else if n == 14 { GrpcCode::Unavailable }
        else if n == 15 { GrpcCode::DataLoss }
        else if n == 16 { GrpcCode::Unauthenticated }
        else { GrpcCode::Unknown }
    }

    /// The description of this code, as the gRPC library words it.
    pub fn description(self) -> (r: String)
        ensures
            r@ == grpc_code_description(self),
    {
        code_description_text(self.number())
    }
}

/// A status in spec form: its code and the characters of its message.
pub open spec fn status_view(s: GrpcStatus) -> (GrpcCode, Seq<char>) {
    (s.code, s.message@)
}

/// The gRPC status that answers a repository error inside a service error.
pub open spec fn repo_status_spec(e: RepositoryErrorView) -> (GrpcCode, Seq<char>) {
    match e {
        RepositoryErrorView::NotFound => (GrpcCode::NotFound, "Not found"@),
        RepositoryErrorView::Conflict(msg) => (GrpcCode::AlreadyExists, msg),
        RepositoryErrorView::AlreadyExists(msg) => (GrpcCode::AlreadyExists, msg),
        RepositoryErrorView::ForeignKey(msg) => (
            GrpcCode::FailedPrecondition,
            "Foreign key constraint: "@ + msg,
        ),
        RepositoryErrorView::Sqlx(_) => (GrpcCode::Internal, "Database error"@),
        RepositoryErrorView::Custom(msg) => (GrpcCode::Internal, msg),
    }
}

/// The gRPC status that answers an application error.
pub open spec fn grpc_status_spec(e: AppErrorView) -> (GrpcCode, Seq<char>) {
    match e {
        AppErrorView::Service(s) => match s {
            ServiceErrorView::Kafka(err) => (GrpcCode::Unavailable, "Kafka error: "@ + err),
            ServiceErrorView::InvalidCredentials => (GrpcCode::Unauthenticated, "Invalid credentials"@),
            ServiceErrorView::Validation(errors) => (
                GrpcCode::InvalidArgument,
                "Validation failed: "@ + pretty_debug_list_text(errors),
            ),
            ServiceErrorView::Forbidden(msg) => (GrpcCode::PermissionDenied, msg),
            ServiceErrorView::Repo(r) => repo_status_spec(r),
            ServiceErrorView::Bcrypt(err) => (GrpcCode::Internal, "Bcrypt error: "@ + err),
            ServiceErrorView::Jwt(err) => (GrpcCode::Unauthenticated, "JWT error: "@ + err),
            ServiceErrorView::TokenExpired => (GrpcCode::Unauthenticated, "Token has expired"@),
            ServiceErrorView::InvalidTokenType => (GrpcCode::Unauthenticated, "Invalid token type"@),
            ServiceErrorView::Internal(msg) => (GrpcCode::Internal, msg),
            ServiceErrorView::Custom(msg) => (GrpcCode::Internal, msg),
        },
        AppErrorView::Unhandled(msg) => (GrpcCode::Internal, "Unhandled error: "@ + msg),
    }
}

/// A service error in spec form: the variant with the characters of its
/// messages.
pub enum ServiceErrorView {
    Repo(RepositoryErrorView),
    Forbidden(Seq<char>),
    InvalidCredentials,
    Validation(Seq<Seq<char>>),
    Bcrypt(Seq<char>),
    Jwt(Seq<char>),
    Kafka(Seq<char>),
    TokenExpired,
    InvalidTokenType,
    Internal(Seq<char>),
    Custom(Seq<char>),
}

/// A repository error in spec form.
pub enum RepositoryErrorView {
    Sqlx(Seq<char>),
    NotFound,
    Conflict(Seq<char>),
    AlreadyExists(Seq<char>),
    ForeignKey(Seq<char>),
    Custom(Seq<char>),
}

/// An application error in spec form.
pub enum AppErrorView {
    Service(ServiceErrorView),
    Unhandled(Seq<char>),
}

impl View for RepositoryError {
    type V = RepositoryErrorView;

    open spec fn view(&self) -> RepositoryErrorView {
        match self {
            RepositoryError::Sqlx(m) => RepositoryErrorView::Sqlx(m@),
            RepositoryError::NotFound => RepositoryErrorView::NotFound,
            RepositoryError::Conflict(m) => RepositoryErrorView::Conflict(m@),
            RepositoryError::AlreadyExists(m) => RepositoryErrorView::AlreadyExists(m@),
            RepositoryError::ForeignKey(m) => RepositoryErrorView::ForeignKey(m@),
            RepositoryError::Custom(m) => RepositoryErrorView::Custom(m@),
        }
    }
}

impl View for ServiceError {
    type V = ServiceErrorView;

    open spec fn view(&self) -> ServiceErrorView {
        match self {
            ServiceError::Repo(r) => ServiceErrorView::Repo(r@),
            ServiceError::Forbidden(m) => ServiceErrorView::Forbidden(m@),
            ServiceError::InvalidCredentials => ServiceErrorView::InvalidCredentials,
            ServiceError::Validation(v) => ServiceErrorView::Validation(v.deep_view()),
            ServiceError::Bcrypt(m) => ServiceErrorView::Bcrypt(m@),
            ServiceError::Jwt(m) => ServiceErrorView::Jwt(m@),
            ServiceError::Kafka(m) => ServiceErrorView::Kafka(m@),
            ServiceError::TokenExpired => ServiceErrorView::TokenExpired,
            ServiceError::InvalidTokenType => ServiceErrorView::InvalidTokenType,
            ServiceError::Internal(m) => ServiceErrorView::Internal(m@),
            ServiceError::Custom(m) => ServiceErrorView::Custom(m@),
        }
    }
}

impl View for AppErrorGrpc {
    type V = AppErrorView;

    open spec fn view(&self) -> AppErrorView {
        match self {
            AppErrorGrpc::Service(s) => AppErrorView::Service(s@),
            AppErrorGrpc::Unhandled(m) => AppErrorView::Unhandled(m@),
        }
    }
}

/// The application error that a gRPC status received from another
/// service turns into.
pub open spec fn from_status_spec(code: GrpcCode, msg: Seq<char>) -> AppErrorView {
    match code {
        GrpcCode::Unauthenticated => AppErrorView::Service(ServiceErrorView::InvalidCredentials),
        GrpcCode::InvalidArgument => AppErrorView::Service(
            ServiceErrorView::Validation(seq![msg]),
        ),
        GrpcCode::NotFound => AppErrorView::Service(
            ServiceErrorView::Repo(RepositoryErrorView::NotFound),
        ),
        GrpcCode::PermissionDenied => AppErrorView::Service(ServiceErrorView::Forbidden(msg)),
        GrpcCode::AlreadyExists => AppErrorView::Service(
            ServiceErrorView::Repo(RepositoryErrorView::AlreadyExists(msg)),
        ),
        GrpcCode::FailedPrecondition => AppErrorView::Service(
            ServiceErrorView::Repo(RepositoryErrorView::ForeignKey(msg)),
        ),
        GrpcCode::Aborted => AppErrorView::Service(
            ServiceErrorView::Repo(RepositoryErrorView::ForeignKey(msg)),
        ),
        GrpcCode::Unavailable => AppErrorView::Service(ServiceErrorView::Kafka(msg)),
        GrpcCode::Internal => AppErrorView::Service(ServiceErrorView::Internal(msg)),
        _ => AppErrorView::Unhandled(
            "gRPC error: "@ + grpc_code_description(code) + " - "@ + msg,
        ),
    }
}

/// The service error that a gRPC status received from another service
/// turns into: the service error of `from_status_spec`, or an internal
/// error carrying the unhandled message.
pub open spec fn status_to_service_error_spec(code: GrpcCode, msg: Seq<char>) -> ServiceErrorView {
    match from_status_spec(code, msg) {
        AppErrorView::Service(s) => s,
        AppErrorView::Unhandled(m) => ServiceErrorView::Internal(m),
    }
}

fn repo_status(e: RepositoryError) -> (s: GrpcStatus)
    ensures
        status_view(s) == repo_status_spec(e@),
{
    match e {
        RepositoryError::NotFound => GrpcStatus { code: GrpcCode::NotFound, message: copy_str("Not found") },
        RepositoryError::Conflict(msg) => GrpcStatus { code: GrpcCode::AlreadyExists, message: msg },
        RepositoryError::AlreadyExists(msg) => GrpcStatus { code: GrpcCode::AlreadyExists, message: msg },
        RepositoryError::ForeignKey(msg) => GrpcStatus {
            code: GrpcCode::FailedPrecondition,
            message: join2("Foreign key constraint: ", msg.as_str()),
        },
        RepositoryError::Sqlx(_) => GrpcStatus { code: GrpcCode::Internal, message: copy_str("Database error") },
        RepositoryError::Custom(msg) => GrpcStatus { code: GrpcCode::Internal, message: msg },
    }
}

impl AppErrorGrpc {
    /// The gRPC status that answers this error.
    pub fn into_status(self) -> (s: GrpcStatus)
        ensures
            status_view(s) == grpc_status_spec(self@),
    {
        match self {
            AppErrorGrpc::Service(service_err) => match service_err {
                ServiceError::Kafka(err) => GrpcStatus {
                    code: GrpcCode::Unavailable,
                    message: join2("Kafka error: ", err.as_str()),
                },
                ServiceError::InvalidCredentials => GrpcStatus {
                    code: GrpcCode::Unauthenticated,
                    message: copy_str("Invalid credentials"),
                },
                ServiceError::Validation(errors) => {
                    let listed = pretty_debug_list(&errors);
                    GrpcStatus {
                        code: GrpcCode::InvalidArgument,
                        message: join2("Validation failed: ", listed.as_str()),
                    }
                },
                ServiceError::Forbidden(msg) => GrpcStatus { code: GrpcCode::PermissionDenied, message: msg },
                ServiceError::Repo(repo_err) => repo_status(repo_err),
                ServiceError::Bcrypt(err) => GrpcStatus {
                    code: GrpcCode::Internal,
                    message: join2("Bcrypt error: ", err.as_str()),
                },
                ServiceError::Jwt(err) => GrpcStatus {
                    code: GrpcCode::Unauthenticated,
                    message: join2("JWT error: ", err.as_str()),
                },
                ServiceError::TokenExpired => GrpcStatus {
                    code: GrpcCode::Unauthenticated,
                    message: copy_str("Token has expired"),
                },
                ServiceError::InvalidTokenType => GrpcStatus {
                    code: GrpcCode::Unauthenticated,
                    message: copy_str("Invalid token type"),
                },
                ServiceError::Internal(msg) => GrpcStatus { code: GrpcCode::Internal, message: msg },
                ServiceError::Custom(msg) => GrpcStatus { code: GrpcCode::Internal, message: msg },
            },
            AppErrorGrpc::Unhandled(msg) => GrpcStatus {
                code: GrpcCode::Internal,
                message: join2("Unhandled error: ", msg.as_str()),
            },
        }
    }

    /// The application error that a gRPC status received from another
    /// service turns into.
    pub fn from_status(status: GrpcStatus) -> (e: AppErrorGrpc)
        ensures
            e@ == from_status_spec(status.code, status.message@),
    {
        let code = status.code;
        match code {
            GrpcCode::Unauthenticated => AppErrorGrpc::Service(ServiceError::InvalidCredentials),
            GrpcCode::InvalidArgument => {
                let mut errors: Vec<String> = Vec::new();
                errors.push(status.message);
                proof {
                    assert(errors.deep_view() =~= seq![status.message@]);
                }
                AppErrorGrpc::Service(ServiceError::Validation(errors))
            },
            GrpcCode::NotFound => AppErrorGrpc::Service(ServiceError::Repo(RepositoryError::NotFound)),
            GrpcCode::PermissionDenied => AppErrorGrpc::Service(ServiceError::Forbidden(status.message)),
            GrpcCode::AlreadyExists => AppErrorGrpc::Service(
                ServiceError::Repo(RepositoryError::AlreadyExists(status.message)),
            ),
            GrpcCode::FailedPrecondition | GrpcCode::Aborted => AppErrorGrpc::Service(
                ServiceError::Repo(RepositoryError::ForeignKey(status.message)),
            ),
            GrpcCode::Unavailable => AppErrorGrpc::Service(ServiceError::Kafka(status.message)),
            GrpcCode::Internal => AppErrorGrpc::Service(ServiceError::Internal(status.message)),
            _ => {
                let description = code.description();
                let mut text = join3("gRPC error: ", description.as_str(), " - ");
                text.append(status.message.as_str());
                AppErrorGrpc::Unhandled(text)
            },
        }
    }
}

/// The service error that a gRPC status received from another service
/// turns into; statuses that no service error stands for become internal
/// errors carrying the unhandled message.
pub fn grpc_status_to_service_error(status: GrpcStatus) -> (e: ServiceError)
    ensures
        e@ == status_to_service_error_spec(status.code, status.message@),
{
    let app_error = AppErrorGrpc::from_status(status);
    match app_error {
        AppErrorGrpc::Service(service_err) => service_err,
        AppErrorGrpc::Unhandled(msg) => ServiceError::Internal(msg),
    }
}

/// An HTTP error in spec form: its kind (by the HTTP status it answers
/// with) and its message.
pub open spec fn http_view(e: HttpError) -> (u16, Seq<char>) {
    match e {
        HttpError::BadRequest(m) => (400, m@),
        HttpError::Unauthorized(m) => (401, m@),
        HttpError::Forbidden(m) => (403, m@),
        HttpError::NotFound(m) => (404, m@),
        HttpError::Conflict(m) => (409, m@),
        HttpError::ServiceUnavailable(m) => (503, m@),
        HttpError::Internal(m) => (500, m@),
    }
}

/// The HTTP error that answers an application error.
pub open spec fn http_error_spec(e: AppErrorView) -> (u16, Seq<char>) {
    match e {
        AppErrorView::Service(s) => match s {
            ServiceErrorView::InvalidCredentials => (401, "Invalid credentials"@),
            ServiceErrorView::Validation(errors) => (
                400,
                "Validation failed: "@ + debug_list_text(errors),
            ),
            ServiceErrorView::Forbidden(msg) => (403, msg),
            ServiceErrorView::Repo(r) => match r {
                RepositoryErrorView::NotFound => (404, "Not found"@),
                RepositoryErrorView::Conflict(msg) => (409, msg),
                RepositoryErrorView::AlreadyExists(msg) => (409, msg),
                RepositoryErrorView::ForeignKey(msg) => (400, "Foreign key violation: "@ + msg),
                _ => (500, "Repository error"@),
            },
            ServiceErrorView::Jwt(err) => (401, "JWT error: "@ + err),
            ServiceErrorView::Kafka(err) => (503, "Kafka error: "@ + err),
            ServiceErrorView::Internal(msg) => (500, msg),
            ServiceErrorView::Custom(msg) => (500, msg),
            ServiceErrorView::Bcrypt(_) => (500, "Internal authentication error"@),
            ServiceErrorView::TokenExpired => (401, "Token expired"@),
            ServiceErrorView::InvalidTokenType => (401, "Invalid token type"@),
        },
        AppErrorView::Unhandled(msg) => (500, msg),
    }
}

/// The level at which an HTTP error with this status is logged.
pub open spec fn log_level_spec(status: u16) -> LogLevel {
    if status == 404 {
        LogLevel::Info
    } else if status == 503 || status == 500 {
        LogLevel::Error
    } else {
        LogLevel::Warn
    }
}

impl HttpError {
    /// The HTTP error that answers an application error.
    pub fn from_app_error(err: AppErrorGrpc) -> (h: HttpError)
        ensures
            http_view(h) == http_error_spec(err@),
    {
        match err {
            AppErrorGrpc::Service(service_err) => match service_err {
                ServiceError::InvalidCredentials => HttpError::Unauthorized(copy_str("Invalid credentials")),
                ServiceError::Validation(errors) => {
                    let listed = debug_list(&errors);
                    HttpError::BadRequest(join2("Validation failed: ", listed.as_str()))
                },
                ServiceError::Forbidden(msg) => HttpError::Forbidden(msg),
                ServiceError::Repo(repo_err) => match repo_err {
                    RepositoryError::NotFound => HttpError::NotFound(copy_str("Not found")),
                    RepositoryError::Conflict(msg) => HttpError::Conflict(msg),
                    RepositoryError::AlreadyExists(msg) => HttpError::Conflict(msg),
                    RepositoryError::ForeignKey(msg) => HttpError::BadRequest(
                        join2("Foreign key violation: ", msg.as_str()),
                    ),
                    _ => HttpError::Internal(copy_str("Repository error")),
                },
                ServiceError::Jwt(err) => HttpError::Unauthorized(join2("JWT error: ", err.as_str())),
                ServiceError::Kafka(err) => HttpError::ServiceUnavailable(join2("Kafka error: ", err.as_str())),
                ServiceError::Internal(msg) => HttpError::Internal(msg),
                ServiceError::Custom(msg) => HttpError::Internal(msg),
                ServiceError::Bcrypt(_) => HttpError::Internal(copy_str("Internal authentication error")),
                ServiceError::TokenExpired => HttpError::Unauthorized(copy_str("Token expired")),
                ServiceError::InvalidTokenType => HttpError::Unauthorized(copy_str("Invalid token type")),
            },
            AppErrorGrpc::Unhandled(msg) => HttpError::Internal(msg),
        }
    }

    /// The answer given for this error: its HTTP status, an error body
    /// carrying the message, and the level at which it is logged.
    pub fn into_answer(self) -> (a: HttpErrorAnswer)
        ensures
            a.status_code == http_view(self).0,
            a.body.status@ == "error"@,
            a.body.message@ == http_view(self).1,
            a.log_level == log_level_spec(a.status_code),
    {
        let (status_code, message, log_level) = match self {
            HttpError::BadRequest(msg) => (400u16, msg, LogLevel::Warn),
            HttpError::Unauthorized(msg) => (401u16, msg, LogLevel::Warn),
            HttpError::Forbidden(msg) => (403u16, msg, LogLevel::Warn),
            HttpError::NotFound(msg) => (404u16, msg, LogLevel::Info),
            HttpError::Conflict(msg) => (409u16, msg, LogLevel::Warn),
            HttpError::ServiceUnavailable(msg) => (503u16, msg, LogLevel::Error),
            HttpError::Internal(msg) => (500u16, msg, LogLevel::Error),
        };
        HttpErrorAnswer {
            status_code,
            body: ErrorResponse { status: copy_str("error"), message },
            log_level,
        }
    }
}


/// The HTTP status that answers errors travelling with this gRPC code.
pub open spec fn http_status_for_code(c: GrpcCode) -> u16 {
    match c {
        GrpcCode::Unauthenticated => 401,
        GrpcCode::PermissionDenied => 403,
        GrpcCode::NotFound => 404,
        GrpcCode::AlreadyExists => 409,
        GrpcCode::InvalidArgument => 400,
        GrpcCode::FailedPrecondition => 400,
        GrpcCode::Unavailable => 503,
        _ => 500,
    }
}

/// The codes that another service can answer with and that this service
/// answers with again when it passes the error on.
pub open spec fn is_relayed_code(c: GrpcCode) -> bool {
    ||| c == GrpcCode::Unauthenticated
    ||| c == GrpcCode::InvalidArgument
    ||| c == GrpcCode::NotFound
    ||| c == GrpcCode::PermissionDenied
    ||| c == GrpcCode::AlreadyExists
    ||| c == GrpcCode::FailedPrecondition
    ||| c == GrpcCode::Unavailable
    ||| c == GrpcCode::Internal
}

/// An error received from another service with a relayed code is answered
/// with the same code; `Aborted` is answered as `FailedPrecondition`; every
/// other code is answered as `Internal`.
pub proof fn lemma_status_code_round_trip(code: GrpcCode, msg: Seq<char>)
    ensures
        is_relayed_code(code) ==> grpc_status_spec(from_status_spec(code, msg)).0 == code,
        code == GrpcCode::Aborted ==> grpc_status_spec(from_status_spec(code, msg)).0
            == GrpcCode::FailedPrecondition,
        !is_relayed_code(code) && code != GrpcCode::Aborted ==> grpc_status_spec(
            from_status_spec(code, msg),
        ).0 == GrpcCode::Internal,
{
}

/// A permission, conflict or internal error received from another service
/// is passed on with its message unchanged.
pub proof fn lemma_status_message_round_trip(code: GrpcCode, msg: Seq<char>)
    requires
        code == GrpcCode::PermissionDenied || code == GrpcCode::AlreadyExists || code
            == GrpcCode::Internal,
    ensures
        grpc_status_spec(from_status_spec(code, msg)) == (code, msg),
{
}

/// The gateway and the gRPC handlers agree: the HTTP status that answers an
/// error is the one that belongs to the gRPC code that answers it.
pub proof fn lemma_http_agrees_with_grpc(e: AppErrorView)
    ensures
        http_error_spec(e).0 == http_status_for_code(grpc_status_spec(e).0),
{
}

/// Not-found, permission and validation errors are answered as client
/// errors (4xx); message-bus errors as unavailable (503).
pub proof fn lemma_http_client_errors(e: ServiceErrorView)
    ensures
        e matches ServiceErrorView::Repo(RepositoryErrorView::NotFound) ==> http_error_spec(
            AppErrorView::Service(e),
        ).0 == 404,
        e matches ServiceErrorView::Forbidden(_) ==> http_error_spec(AppErrorView::Service(e)).0
            == 403,
        e matches ServiceErrorView::Validation(_) ==> http_error_spec(AppErrorView::Service(e)).0
            == 400,
        e matches ServiceErrorView::Kafka(_) ==> http_error_spec(AppErrorView::Service(e)).0
            == 503,
{
}

/// A status received from another service always becomes a service error
/// (never a failure to convert), and its gRPC answer follows the round trip
/// of `lemma_status_code_round_trip`.
pub proof fn lemma_status_to_service_error(code: GrpcCode, msg: Seq<char>)
    ensures
        grpc_status_spec(AppErrorView::Service(status_to_service_error_spec(code, msg))).0 == (
        if is_relayed_code(code) {
            code
        } else if code == GrpcCode::Aborted {
            GrpcCode::FailedPrecondition
        } else {
            GrpcCode::Internal
        }),
{
}

/// Every gRPC code carries the number the gRPC protocol gives it (`OK` 0
/// through `UNAUTHENTICATED` 16); reading a code's number back gives the
/// code, every number from 0 to 16 names the code it is the number of, and
/// every other number reads as `Unknown`.
pub proof fn lemma_code_numbers()
    ensures
        code_number(GrpcCode::Success) == 0,
        code_number(GrpcCode::Cancelled) == 1,
        code_number(GrpcCode::Unknown) == 2,
        code_number(GrpcCode::InvalidArgument) == 3,
        code_number(GrpcCode::DeadlineExceeded) == 4,
        code_number(GrpcCode::NotFound) == 5,
        code_number(GrpcCode::AlreadyExists) == 6,
        code_number(GrpcCode::PermissionDenied) == 7,
        code_number(GrpcCode::ResourceExhausted) == 8,
        code_number(GrpcCode::FailedPrecondition) == 9,
        code_number(GrpcCode::Aborted) == 10,
        code_number(GrpcCode::OutOfRange) == 11,
        code_number(GrpcCode::Unimplemented) == 12,
        code_number(GrpcCode::Internal) == 13,
        code_number(GrpcCode::Unavailable) == 14,
        code_number(GrpcCode::DataLoss) == 15,
        code_number(GrpcCode::Unauthenticated) == 16,
        forall|c: GrpcCode| #[trigger] code_of_number(code_number(c)) == c,
        forall|n: int| 0 <= n <= 16 ==> #[trigger] code_number(code_of_number(n)) == n,
        forall|n: int| !(0 <= n <= 16) ==> #[trigger] code_of_number(n) == GrpcCode::Unknown,
{
}

/// On the wire, internal and custom errors go out with status number 13
/// (`INTERNAL`) and message-bus errors with 14 (`UNAVAILABLE`); a status
/// numbered 13 received from another service is read as an internal error
/// and one numbered 14 as a message-bus error, each with its message.
pub proof fn lemma_internal_and_unavailable_on_the_wire(msg: Seq<char>)
    ensures
        code_number(grpc_status_spec(AppErrorView::Service(ServiceErrorView::Internal(msg))).0) == 13,
        code_number(grpc_status_spec(AppErrorView::Service(ServiceErrorView::Custom(msg))).0) == 13,
        code_number(grpc_status_spec(AppErrorView::Service(ServiceErrorView::Kafka(msg))).0) == 14,
        from_status_spec(code_of_number(13), msg) == AppErrorView::Service(ServiceErrorView::Internal(msg)),
        from_status_spec(code_of_number(14), msg) == AppErrorView::Service(ServiceErrorView::Kafka(msg)),
{
}

} // verus!
