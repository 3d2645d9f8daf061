//! Errors of each layer, how they convert, and what the client is answered.

use vstd::prelude::*;
use vstd::std_specs::convert::FromSpecImpl;
use vstd::string::*;

verus! {

/// Errors of the storage layer.
#[derive(Debug)]
pub enum RepoError {
    NotFound,
    Conflict,
    /// A storage failure, with its description.
    Database(String),
}

/// Errors of the service layer.
#[derive(Debug)]
pub enum ServiceError {
    Validation(String),
    Forbidden,
    SessionEnded,
    SessionAlreadyEnded,
    SessionPrivate,
    SessionReadOnly,
    EventCapReached,
    Repo(RepoError),
}

/// Errors answered to HTTP clients.
#[derive(Debug)]
pub enum AppError {
    MissingUserId,
    InvalidUserId,
    UserNotFound,
    Forbidden,
    Validation(String),
    SessionNotFound,
    SessionEnded,
    SessionAlreadyEnded,
    SessionEventCapReached,
    SessionPrivate,
    SessionReadOnly,
    InvalidWsMessage,
    WsSessionEnded,
    ExecutionServiceUnavailable,
    ExecutionResponseInvalid,
    Conflict,
    /// A storage failure, with its description.
    Database(String),
    /// An unexpected failure, with its description.
    Internal(String),
}

pub open spec fn app_error_of_repo(e: RepoError) -> AppError {
    match e {
        RepoError::NotFound => AppError::SessionNotFound,
        RepoError::Conflict => AppError::Conflict,
        RepoError::Database(d) => AppError::Database(d),
    }
}

pub open spec fn app_error_of_service(e: ServiceError) -> AppError {
    match e {
        ServiceError::Validation(m) => AppError::Validation(m),
        ServiceError::Forbidden => AppError::Forbidden,
        ServiceError::SessionEnded => AppError::SessionEnded,
        ServiceError::SessionAlreadyEnded => AppError::SessionAlreadyEnded,
        ServiceError::SessionPrivate => AppError::SessionPrivate,
        ServiceError::SessionReadOnly => AppError::SessionReadOnly,
        ServiceError::EventCapReached => AppError::SessionEventCapReached,
        ServiceError::Repo(r) => app_error_of_repo(r),
    }
}

impl From<RepoError> for AppError {
    fn from(e: RepoError) -> (r: AppError) {
        match e {
            RepoError::NotFound => AppError::SessionNotFound,
            RepoError::Conflict => AppError::Conflict,
            RepoError::Database(d) => AppError::Database(d),
        }
    }
}

impl FromSpecImpl<RepoError> for AppError {
    open spec fn obeys_from_spec() -> bool {
        true
    }

    open spec fn from_spec(e: RepoError) -> AppError {
        app_error_of_repo(e)
    }
}

impl From<ServiceError> for AppError {
    fn from(e: ServiceError) -> (r: AppError) {
        match e {
            ServiceError::Validation(m) => AppError::Validation(m),
            ServiceError::Forbidden => AppError::Forbidden,
            ServiceError::SessionEnded => AppError::SessionEnded,
            ServiceError::SessionAlreadyEnded => AppError::SessionAlreadyEnded,
            ServiceError::SessionPrivate => AppError::SessionPrivate,
            ServiceError::SessionReadOnly => AppError::SessionReadOnly,
            ServiceError::EventCapReached => AppError::SessionEventCapReached,
            ServiceError::Repo(r) => AppError::from(r),
        }
    }
}

impl FromSpecImpl<ServiceError> for AppError {
    open spec fn obeys_from_spec() -> bool {
        true
    }

    open spec fn from_spec(e: ServiceError) -> AppError {
        app_error_of_service(e)
    }
}

/// The HTTP status answered for `e`.
pub open spec fn error_status(e: AppError) -> u16 {
    match e {
        AppError::Validation(_) => 400,
        AppError::InvalidWsMessage => 400,
        AppError::MissingUserId => 401,
        AppError::InvalidUserId => 401,
        AppError::UserNotFound => 401,
        AppError::Forbidden => 403,
        AppError::SessionPrivate => 403,
        AppError::SessionReadOnly => 403,
        AppError::SessionNotFound => 404,
        AppError::Conflict => 409,
        AppError::SessionAlreadyEnded => 409,
        AppError::SessionEnded => 410,
        AppError::WsSessionEnded => 410,
        AppError::SessionEventCapReached => 422,
        AppError::ExecutionServiceUnavailable => 503,
        AppError::ExecutionResponseInvalid => 503,
        AppError::Database(_) => 500,
        AppError::Internal(_) => 500,
    }
}

/// The machine-readable code answered for `e`.
pub open spec fn error_code(e: AppError) -> Seq<char> {
    match e {
        AppError::Validation(_) => "VALIDATION_ERROR"@,
        AppError::InvalidWsMessage => "INVALID_WS_MESSAGE"@,
        AppError::MissingUserId => "MISSING_USER_ID"@,
        AppError::InvalidUserId => "INVALID_USER_ID"@,
        AppError::UserNotFound => "USER_NOT_FOUND"@,
        AppError::Forbidden => "FORBIDDEN"@,
        AppError::SessionPrivate => "SESSION_PRIVATE"@,
        AppError::SessionReadOnly => "SESSION_READ_ONLY"@,
        AppError::SessionNotFound => "SESSION_NOT_FOUND"@,
        AppError::Conflict => "CONFLICT"@,
        AppError::SessionAlreadyEnded => "SESSION_ALREADY_ENDED"@,
        AppError::SessionEnded => "SESSION_ENDED"@,
        AppError::WsSessionEnded => "SESSION_ENDED"@,
        AppError::SessionEventCapReached => "EVENT_CAP_REACHED"@,
        AppError::ExecutionServiceUnavailable => "EXECUTION_UNAVAILABLE"@,
        AppError::ExecutionResponseInvalid => "EXECUTION_INVALID_RESPONSE"@,
        AppError::Database(_) => "DATABASE_ERROR"@,
        AppError::Internal(_) => "INTERNAL_ERROR"@,
    }
}

/// The human-readable message answered for `e`.
pub open spec fn error_message(e: AppError) -> Seq<char> {
    match e {
        AppError::Validation(m) => m@,
        AppError::InvalidWsMessage => "Invalid websocket message format"@,
        AppError::MissingUserId => "X-User-Id header is required"@,
        AppError::InvalidUserId => "X-User-Id must be a valid UUID"@,
        AppError::UserNotFound => "No user found for the provided ID"@,
        AppError::Forbidden => "You do not have permission to perform this action"@,
        AppError::SessionPrivate => "This session is private"@,
        AppError::SessionReadOnly => "This session is read-only"@,
        AppError::SessionNotFound => "Session not found"@,
        AppError::Conflict => "A conflicting record already exists"@,
        AppError::SessionAlreadyEnded => "This session has already ended"@,
        AppError::SessionEnded => "This session has ended"@,
        AppError::WsSessionEnded => "Cannot connect to an ended session"@,
        AppError::SessionEventCapReached => "This session has reached the maximum event limit"@,
        AppError::ExecutionServiceUnavailable => "Code execution service is currently unavailable"@,
        AppError::ExecutionResponseInvalid => "Code execution returned an unexpected response"@,
        AppError::Database(_) => "An internal error occurred"@,
        AppError::Internal(_) => "An internal error occurred"@,
    }
}

/// What an error is answered with: status, code and message.
#[derive(Debug)]
pub struct ErrorBody {
    pub status: u16,
    pub code: String,
    pub message: String,
}

/// A client-facing error of the given status, code and message.
fn body(status: u16, code: &str, message: &str) -> (r: ErrorBody)
    ensures
        r.status == status,
        r.code@ == code@,
        r.message@ == message@,
{
    ErrorBody { status, code: String::from_str(code), message: String::from_str(message) }
}

impl AppError {
    /// The status, code and message that answer this error.
    pub fn error_body(&self) -> (r: ErrorBody)
        ensures
            r.status == error_status(*self),
            r.code@ == error_code(*self),
            r.message@ == error_message(*self),
    {
        match self {
            AppError::Validation(msg) => ErrorBody {
                status: 400,
                code: String::from_str("VALIDATION_ERROR"),
                message: msg.clone(),
            },
            AppError::InvalidWsMessage => body(
                400,
                "INVALID_WS_MESSAGE",
                "Invalid websocket message format",
            ),
            AppError::MissingUserId => body(401, "MISSING_USER_ID", "X-User-Id header is required"),
            AppError::InvalidUserId => body(
                401,
                "INVALID_USER_ID",
                "X-User-Id must be a valid UUID",
            ),
            AppError::UserNotFound => body(
                401,
                "USER_NOT_FOUND",
                "No user found for the provided ID",
            ),
            AppError::Forbidden => body(
                403,
                "FORBIDDEN",
                "You do not have permission to perform this action",
            ),
            AppError::SessionPrivate => body(403, "SESSION_PRIVATE", "This session is private"),
            AppError::SessionReadOnly => body(403, "SESSION_READ_ONLY", "This session is read-only"),
            AppError::SessionNotFound => body(404, "SESSION_NOT_FOUND", "Session not found"),
            AppError::Conflict => body(409, "CONFLICT", "A conflicting record already exists"),
            AppError::SessionAlreadyEnded => body(
                409,
                "SESSION_ALREADY_ENDED",
                "This session has already ended",
            ),
            AppError::SessionEnded => body(410, "SESSION_ENDED", "This session has ended"),
            AppError::WsSessionEnded => body(
                410,
                "SESSION_ENDED",
                "Cannot connect to an ended session",
            ),
            AppError::SessionEventCapReached => body(
                422,
                "EVENT_CAP_REACHED",
                "This session has reached the maximum event limit",
            ),
            AppError::ExecutionServiceUnavailable => body(
                503,
                "EXECUTION_UNAVAILABLE",
                "Code execution service is currently unavailable",
            ),
            AppError::ExecutionResponseInvalid => body(
                503,
                "EXECUTION_INVALID_RESPONSE",
                "Code execution returned an unexpected response",
            ),
            AppError::Database(_) => body(500, "DATABASE_ERROR", "An internal error occurred"),
            AppError::Internal(_) => body(500, "INTERNAL_ERROR", "An internal error occurred"),
        }
    }
}

/// Every error is answered with a client-error or server-error status, and a
/// server-error status exactly for storage and unexpected failures.
pub proof fn lemma_error_status_class(e: AppError)
    ensures
        400 <= error_status(e) < 600,
        error_status(e) >= 500 <==> (e is Database || e is Internal
            || e is ExecutionServiceUnavailable || e is ExecutionResponseInvalid),
{
}

/// A storage failure never leaks its description to the client.
pub proof fn lemma_database_detail_hidden(d1: String, d2: String)
    ensures
        error_message(AppError::Database(d1)) == error_message(AppError::Database(d2)),
        error_code(AppError::Database(d1)) == error_code(AppError::Database(d2)),
{
}

} // verus!
