//! Errors raised by storage, services and the HTTP layer, and how they map onto each other.

use vstd::prelude::*;
use vstd::std_specs::convert::FromSpecImpl;
use vstd::string::*;

verus! {

/// Error raised by a storage backend.
#[derive(Debug)]
pub enum StorageError {
    /// The backend could not be reached or refused the operation.
    Unavailable {
        /// What failed.
        message: String,
        /// Text of the backend's own error that caused it.
        source: String,
    },
}

impl StorageError {
    /// Build an unavailable error from the description of a backend failure and the text of
    /// the backend's error that caused it.
    pub fn unavailable(message: String, source: String) -> (e: StorageError)
        ensures
            e == (StorageError::Unavailable { message, source }),
    {
        StorageError::Unavailable { message, source }
    }

    /// Text of the backend's error that caused this one.
    pub fn source_text(&self) -> (s: &String)
        ensures
            self matches StorageError::Unavailable { source, .. } && *s == source,
    {
        match self {
            StorageError::Unavailable { source, .. } => source,
        }
    }

    /// Rendered text of the error.
    pub open spec fn spec_text(&self) -> Seq<char> {
        match self {
            StorageError::Unavailable { message, .. } => "storage unavailable: "@ + message@,
        }
    }

    /// Human-readable text of the error.
    pub fn describe(&self) -> (s: String)
        ensures
            s@ == self.spec_text(),
    {
        match self {
            StorageError::Unavailable { message, .. } => joined("storage unavailable: ", message.as_str()),
        }
    }
}

/// Errors of the service layer.
#[derive(Debug)]
pub enum ServiceError {
    /// Storage backend is unavailable.
    Unavailable(StorageError),
    /// The application runs without storage.
    Degraded,
    /// Unauthorized access attempt.
    Unauthorized(String),
    /// Invalid input provided by the client.
    InvalidInput(String),
    /// Operation cannot be performed in the current state.
    InvalidState(String),
    /// Requested resource was not found.
    NotFound(String),
    /// Operation exceeded its time limit.
    Timeout,
}

/// Kind and message of a refusal, as the contracts state them.
pub enum Refusal {
    InvalidInput(Seq<char>),
    InvalidState(Seq<char>),
    NotFound(Seq<char>),
    Unauthorized(Seq<char>),
}

/// `e` is the refusal `f`: same kind, same message.
pub open spec fn refused(e: ServiceError, f: Refusal) -> bool {
    match f {
        Refusal::InvalidInput(m) => e matches ServiceError::InvalidInput(x) && x@ == m,
        Refusal::InvalidState(m) => e matches ServiceError::InvalidState(x) && x@ == m,
        Refusal::NotFound(m) => e matches ServiceError::NotFound(x) && x@ == m,
        Refusal::Unauthorized(m) => e matches ServiceError::Unauthorized(x) && x@ == m,
    }
}

/// `ServiceError::InvalidInput` carrying exactly the text `msg`.
pub open spec fn is_invalid_input(e: ServiceError, msg: Seq<char>) -> bool {
    e matches ServiceError::InvalidInput(m) && m@ == msg
}

/// `ServiceError::InvalidState` carrying exactly the text `msg`.
pub open spec fn is_invalid_state(e: ServiceError, msg: Seq<char>) -> bool {
    e matches ServiceError::InvalidState(m) && m@ == msg
}

/// `ServiceError::NotFound` carrying exactly the text `msg`.
pub open spec fn is_not_found(e: ServiceError, msg: Seq<char>) -> bool {
    e matches ServiceError::NotFound(m) && m@ == msg
}

impl ServiceError {
    /// Rendered text of the error.
    pub open spec fn spec_text(&self) -> Seq<char> {
        match self {
            ServiceError::Unavailable(_) => "storage unavailable"@,
            ServiceError::Degraded => "storage unavailable (degraded mode)"@,
            ServiceError::Unauthorized(m) => "unauthorized: "@ + m@,
            ServiceError::InvalidInput(m) => "invalid input: "@ + m@,
            ServiceError::InvalidState(m) => "invalid state: "@ + m@,
            ServiceError::NotFound(m) => "not found: "@ + m@,
            ServiceError::Timeout => "operation timed out"@,
        }
    }

    /// Human-readable text of the error.
    pub fn describe(&self) -> (s: String)
        ensures
            s@ == self.spec_text(),
    {
        match self {
            ServiceError::Unavailable(_) => String::from_str("storage unavailable"),
            ServiceError::Degraded => String::from_str("storage unavailable (degraded mode)"),
            ServiceError::Unauthorized(m) => joined("unauthorized: ", m.as_str()),
            ServiceError::InvalidInput(m) => joined("invalid input: ", m.as_str()),
            ServiceError::InvalidState(m) => joined("invalid state: ", m.as_str()),
            ServiceError::NotFound(m) => joined("not found: ", m.as_str()),
            ServiceError::Timeout => String::from_str("operation timed out"),
        }
    }
}

impl FromSpecImpl<StorageError> for ServiceError {
    open spec fn obeys_from_spec() -> bool {
        true
    }

    open spec fn from_spec(v: StorageError) -> ServiceError {
        ServiceError::Unavailable(v)
    }
}

impl From<StorageError> for ServiceError {
    fn from(err: StorageError) -> (e: ServiceError)
        ensures
            e == ServiceError::Unavailable(err),
    {
        ServiceError::Unavailable(err)
    }
}

/// Application-level errors answered to HTTP clients.
#[derive(Debug)]
pub enum AppError {
    /// Bad request with invalid input.
    BadRequest(String),
    /// Unauthorized access attempt.
    Unauthorized(String),
    /// Requested resource not found.
    NotFound(String),
    /// Conflict with the current state.
    Conflict(String),
    /// Service unavailable or degraded.
    ServiceUnavailable(String),
    /// Internal server error.
    Internal(String),
}

/// The application error that a service error is answered with.
pub open spec fn app_error_of(err: ServiceError) -> AppErrorView {
    match err {
        ServiceError::Unavailable(source) => AppErrorView::ServiceUnavailable(source.spec_text()),
        ServiceError::Degraded => AppErrorView::ServiceUnavailable("degraded mode"@),
        ServiceError::Unauthorized(m) => AppErrorView::Unauthorized(m@),
        ServiceError::InvalidInput(m) => AppErrorView::BadRequest(m@),
        ServiceError::InvalidState(m) => AppErrorView::Conflict(m@),
        ServiceError::NotFound(m) => AppErrorView::NotFound(m@),
        ServiceError::Timeout => AppErrorView::ServiceUnavailable("operation timed out"@),
    }
}

/// Mathematical view of an [`AppError`]: its kind and its message text.
pub enum AppErrorView {
    BadRequest(Seq<char>),
    Unauthorized(Seq<char>),
    NotFound(Seq<char>),
    Conflict(Seq<char>),
    ServiceUnavailable(Seq<char>),
    Internal(Seq<char>),
}

impl View for AppError {
    type V = AppErrorView;

    open spec fn view(&self) -> AppErrorView {
        match self {
            AppError::BadRequest(m) => AppErrorView::BadRequest(m@),
            AppError::Unauthorized(m) => AppErrorView::Unauthorized(m@),
            AppError::NotFound(m) => AppErrorView::NotFound(m@),
            AppError::Conflict(m) => AppErrorView::Conflict(m@),
            AppError::ServiceUnavailable(m) => AppErrorView::ServiceUnavailable(m@),
            AppError::Internal(m) => AppErrorView::Internal(m@),
        }
    }
}

/// The answer to a service error carries a message built at run time, which no spec value can
/// construct; the conversion is specified through the view instead (`app_error_of`).
impl FromSpecImpl<ServiceError> for AppError {
    open spec fn obeys_from_spec() -> bool {
        false
    }

    open spec fn from_spec(v: ServiceError) -> AppError {
        arbitrary()
    }
}

impl From<ServiceError> for AppError {
    fn from(err: ServiceError) -> (e: AppError)
        ensures
            e@ == app_error_of(err),
    {
        match err {
            ServiceError::Unavailable(source) => AppError::ServiceUnavailable(source.describe()),
            ServiceError::Degraded => AppError::ServiceUnavailable(String::from_str("degraded mode")),
            ServiceError::Unauthorized(message) => AppError::Unauthorized(message),
            ServiceError::InvalidInput(message) => AppError::BadRequest(message),
            ServiceError::InvalidState(message) => AppError::Conflict(message),
            ServiceError::NotFound(message) => AppError::NotFound(message),
            ServiceError::Timeout => AppError::ServiceUnavailable(
                String::from_str("operation timed out"),
            ),
        }
    }
}

impl AppError {
    /// HTTP status code the error is answered with.
    pub open spec fn spec_status_code(&self) -> u16 {
        match self {
            AppError::BadRequest(_) => 400,
            AppError::Unauthorized(_) => 401,
            AppError::NotFound(_) => 404,
            AppError::Conflict(_) => 409,
            AppError::ServiceUnavailable(_) => 503,
            AppError::Internal(_) => 500,
        }
    }

    /// HTTP status code the error is answered with.
    pub fn status_code(&self) -> (code: u16)
        ensures
            code == self.spec_status_code(),
    {
        match self {
            AppError::BadRequest(_) => 400,
            AppError::Unauthorized(_) => 401,
            AppError::NotFound(_) => 404,
            AppError::Conflict(_) => 409,
            AppError::ServiceUnavailable(_) => 503,
            AppError::Internal(_) => 500,
        }
    }

    /// Rendered text of the error, as sent in the response body.
    pub open spec fn spec_text(&self) -> Seq<char> {
        match self {
            AppError::BadRequest(m) => "bad request: "@ + m@,
            AppError::Unauthorized(m) => "unauthorized: "@ + m@,
            AppError::NotFound(m) => "not found: "@ + m@,
            AppError::Conflict(m) => "conflict: "@ + m@,
            AppError::ServiceUnavailable(m) => "service unavailable: "@ + m@,
            AppError::Internal(m) => "internal error: "@ + m@,
        }
    }

    /// Human-readable text of the error, as sent in the response body.
    pub fn describe(&self) -> (s: String)
        ensures
            s@ == self.spec_text(),
    {
        match self {
            AppError::BadRequest(m) => joined("bad request: ", m.as_str()),
            AppError::Unauthorized(m) => joined("unauthorized: ", m.as_str()),
            AppError::NotFound(m) => joined("not found: ", m.as_str()),
            AppError::Conflict(m) => joined("conflict: ", m.as_str()),
            AppError::ServiceUnavailable(m) => joined("service unavailable: ", m.as_str()),
            AppError::Internal(m) => joined("internal error: ", m.as_str()),
        }
    }
}

/// `a` followed by `b`, as a new string.
pub fn joined(a: &str, b: &str) -> (s: String)
    ensures
        s@ == a@ + b@,
{
    let mut s = String::from_str(a);
    s.append(b);
    s
}

/// `a`, `b` and `c` one after the other, as a new string.
pub fn joined3(a: &str, b: &str, c: &str) -> (s: String)
    ensures
        s@ == a@ + b@ + c@,
{
    let mut s = String::from_str(a);
    s.append(b);
    s.append(c);
    s
}

} // verus!
