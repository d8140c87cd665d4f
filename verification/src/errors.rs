use vstd::prelude::*;
use vstd::string::StringExecFns;

verus! {

/// The errors of the service's domain.
#[derive(Debug, Clone)]
pub enum DomainError {
    InternalError(String),
    ValidationError(String),
    InvalidConfig(String),
    Unauthorized,
    ContentNotFound { content_type: String, content_id: String },
    UnknownContentType { content_type: String },
    InvalidContentId(String),
    BatchTooLarge(usize),
    InvalidCursor(String),
    InvalidWindow(String),
    RateLimited { retry_after: u64 },
    DependencyUnavailable { service: String },
    DependencyDeserializeError { service: String },
    DependencyNotFound { service: String },
    DependencyHealtError(String),
    DatabaseError(String),
    DatabaseHealthError(String),
    DatabaseNotFound(String),
    CacheError(String),
    CacheMiss,
    CacheHealthError(String),
    SseKeyError,
}

/// The text that describes an error to a client.
pub open spec fn domain_message(e: DomainError) -> Seq<char> {
    match e {
        DomainError::InternalError(_) => "Unexpected error"@,
        DomainError::ValidationError(m) => "Validation failed: "@ + m@,
        DomainError::InvalidConfig(m) => "Invalid configuration: "@ + m@,
        DomainError::Unauthorized => "Missing, malformed, or invalid token"@,
        DomainError::ContentNotFound { .. } => "Content item does not exist or has been removed"@,
        DomainError::UnknownContentType { .. } => "content_type not in configured registry"@,
        DomainError::InvalidContentId(_) => "content_id is not a valid UUID v4"@,
        DomainError::BatchTooLarge(_) => "Batch exceeds 100 items"@,
        DomainError::InvalidCursor(_) => "Pagination cursor is malformed or expired"@,
        DomainError::InvalidWindow(_) => "Time window not in [24h, 7d, 30d, all]"@,
        DomainError::RateLimited { .. } => "Rate limit exceeded"@,
        DomainError::DependencyUnavailable { .. } =>
            "External service unreachable (after circuit breaker opens)"@,
        DomainError::DependencyDeserializeError { service } =>
            "External service deserialize error: "@ + service@,
        DomainError::DependencyNotFound { service } =>
            "External service respond not found: "@ + service@ + " (Circuit Breaker close)"@,
        DomainError::DependencyHealtError(m) => "External service healt error: "@ + m@,
        DomainError::DatabaseError(m) => "Database error: "@ + m@,
        DomainError::DatabaseHealthError(m) => "Database healt error: "@ + m@,
        DomainError::DatabaseNotFound(m) => "Database error: not found: "@ + m@,
        DomainError::CacheError(m) => "Cache error: "@ + m@,
        DomainError::CacheMiss => "Cache miss"@,
        DomainError::CacheHealthError(m) => "Cache healt error : "@ + m@,
        DomainError::SseKeyError => "Event without content key"@,
    }
}

/// The HTTP status with which an error is answered.
pub open spec fn error_status(e: DomainError) -> u16 {
    match e {
        DomainError::Unauthorized => 401,
        DomainError::ContentNotFound { .. } => 404,
        DomainError::UnknownContentType { .. } => 400,
        DomainError::InvalidContentId(_) => 400,
        DomainError::BatchTooLarge(_) => 400,
        DomainError::InvalidCursor(_) => 400,
        DomainError::InvalidWindow(_) => 400,
        DomainError::RateLimited { .. } => 429,
        DomainError::DependencyUnavailable { .. } => 503,
        _ => 500,
    }
}

/// The machine-readable code with which an error is answered.
pub open spec fn error_code(e: DomainError) -> Seq<char> {
    match e {
        DomainError::Unauthorized => "UNAUTHORIZED"@,
        DomainError::ContentNotFound { .. } => "CONTENT_NOT_FOUND"@,
        DomainError::UnknownContentType { .. } => "CONTENT_TYPE_UNKNOWN"@,
        DomainError::InvalidContentId(_) => "INVALID_CONTENT_ID"@,
        DomainError::BatchTooLarge(_) => "BATCH_TOO_LARGE"@,
        DomainError::InvalidCursor(_) => "INVALID_CURSOR"@,
        DomainError::InvalidWindow(_) => "INVALID_WINDOW"@,
        DomainError::RateLimited { .. } => "RATE_LIMITED"@,
        DomainError::DependencyUnavailable { .. } => "DEPENDENCY_UNAVAILABLE"@,
        _ => "INTERNAL_ERROR"@,
    }
}

/// The structured details that some errors carry in their answer.
#[derive(Debug, Clone)]
pub enum ErrorDetails {
    Content { content_type: String, content_id: String },
    ContentType { content_type: String },
    RetryAfter { retry_after: u64 },
}

/// The details with which an error is answered, if any.
pub open spec fn error_details(e: DomainError) -> Option<ErrorDetails> {
    match e {
        DomainError::ContentNotFound { content_type, content_id } =>
            Some(ErrorDetails::Content { content_type, content_id }),
        DomainError::UnknownContentType { content_type } =>
            Some(ErrorDetails::ContentType { content_type }),
        DomainError::RateLimited { retry_after } => Some(ErrorDetails::RetryAfter { retry_after }),
        _ => None,
    }
}

fn text(s: &str) -> (r: String)
    ensures
        r@ == s@,
{
    String::from_str(s)
}

fn joined(a: &str, b: &str) -> (r: String)
    ensures
        r@ == a@ + b@,
{
    let mut r = String::from_str(a);
    r.append(b);
    r
}

impl DomainError {
    /// The text that describes the error (its `Display`).
    pub fn message(&self) -> (s: String)
        ensures
            s@ == domain_message(*self),
    {
        match self {
            DomainError::InternalError(_) => text("Unexpected error"),
            DomainError::ValidationError(m) => joined("Validation failed: ", m.as_str()),
            DomainError::InvalidConfig(m) => joined("Invalid configuration: ", m.as_str()),
            DomainError::Unauthorized => text("Missing, malformed, or invalid token"),
            DomainError::ContentNotFound { .. } => text(
                "Content item does not exist or has been removed",
            ),
            DomainError::UnknownContentType { .. } => text(
                "content_type not in configured registry",
            ),
            DomainError::InvalidContentId(_) => text("content_id is not a valid UUID v4"),
            DomainError::BatchTooLarge(_) => text("Batch exceeds 100 items"),
            DomainError::InvalidCursor(_) => text("Pagination cursor is malformed or expired"),
            DomainError::InvalidWindow(_) => text("Time window not in [24h, 7d, 30d, all]"),
            DomainError::RateLimited { .. } => text("Rate limit exceeded"),
            DomainError::DependencyUnavailable { .. } => text(
                "External service unreachable (after circuit breaker opens)",
            ),
            DomainError::DependencyDeserializeError { service } => joined(
                "External service deserialize error: ",
                service.as_str(),
            ),
            DomainError::DependencyNotFound { service } => {
                let mut s = joined("External service respond not found: ", service.as_str());
                s.append(" (Circuit Breaker close)");
                s
            },
            DomainError::DependencyHealtError(m) => joined(
                "External service healt error: ",
                m.as_str(),
            ),
            DomainError::DatabaseError(m) => joined("Database error: ", m.as_str()),
            DomainError::DatabaseHealthError(m) => joined("Database healt error: ", m.as_str()),
            DomainError::DatabaseNotFound(m) => joined("Database error: not found: ", m.as_str()),
            DomainError::CacheError(m) => joined("Cache error: ", m.as_str()),
            DomainError::CacheMiss => text("Cache miss"),
            DomainError::CacheHealthError(m) => joined("Cache healt error : ", m.as_str()),
            DomainError::SseKeyError => text("Event without content key"),
        }
    }
}

/// The body of an error answer.
#[derive(Debug, Clone)]
pub struct ErrorDetail {
    pub code: String,
    pub message: String,
    pub request_id: String,
    pub details: Option<ErrorDetails>,
}

/// The envelope of an error answer.
#[derive(Debug, Clone)]
pub struct ErrorResponse {
    pub error: ErrorDetail,
}

/// A domain error together with the identifier of the request it answers.
#[derive(Debug, Clone)]
pub struct ApiError(pub DomainError, pub String);

impl ApiError {
    /// The HTTP status of the answer.
    pub fn status(&self) -> (s: u16)
        ensures
            s == error_status(self.0),
    {
        match &self.0 {
            DomainError::Unauthorized => 401,
            DomainError::ContentNotFound { .. } => 404,
            DomainError::UnknownContentType { .. } => 400,
            DomainError::InvalidContentId(_) => 400,
            DomainError::BatchTooLarge(_) => 400,
            DomainError::InvalidCursor(_) => 400,
            DomainError::InvalidWindow(_) => 400,
            DomainError::RateLimited { .. } => 429,
            DomainError::DependencyUnavailable { .. } => 503,
            _ => 500,
        }
    }

    /// The machine-readable code of the answer.
    pub fn code(&self) -> (c: String)
        ensures
            c@ == error_code(self.0),
    {
        match &self.0 {
            DomainError::Unauthorized => text("UNAUTHORIZED"),
            DomainError::ContentNotFound { .. } => text("CONTENT_NOT_FOUND"),
            DomainError::UnknownContentType { .. } => text("CONTENT_TYPE_UNKNOWN"),
            DomainError::InvalidContentId(_) => text("INVALID_CONTENT_ID"),
            DomainError::BatchTooLarge(_) => text("BATCH_TOO_LARGE"),
            DomainError::InvalidCursor(_) => text("INVALID_CURSOR"),
            DomainError::InvalidWindow(_) => text("INVALID_WINDOW"),
            DomainError::RateLimited { .. } => text("RATE_LIMITED"),
            DomainError::DependencyUnavailable { .. } => text("DEPENDENCY_UNAVAILABLE"),
            _ => text("INTERNAL_ERROR"),
        }
    }

    /// The structured details of the answer.
    pub fn details(&self) -> (d: Option<ErrorDetails>)
        ensures
            d == error_details(self.0),
    {
        match &self.0 {
            DomainError::ContentNotFound { content_type, content_id } => Some(
                ErrorDetails::Content {
                    content_type: content_type.clone(),
                    content_id: content_id.clone(),
                },
            ),
            DomainError::UnknownContentType { content_type } => Some(
                ErrorDetails::ContentType { content_type: content_type.clone() },
            ),
            DomainError::RateLimited { retry_after } => Some(
                ErrorDetails::RetryAfter { retry_after: *retry_after },
            ),
            _ => None,
        }
    }

    /// The body of the answer: code, message, request identifier and details.
    pub fn body(&self) -> (r: ErrorResponse)
        ensures
            r.error.code@ == error_code(self.0),
            r.error.message@ == domain_message(self.0),
            r.error.request_id@ == self.1@,
            r.error.details == error_details(self.0),
    {
        ErrorResponse {
            error: ErrorDetail {
                code: self.code(),
                message: self.0.message(),
                request_id: self.1.clone(),
                details: self.details(),
            },
        }
    }
}

} // verus!
