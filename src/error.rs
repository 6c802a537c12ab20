use vstd::prelude::*;

verus! {

/// The kinds of failure an operation can report.
#[derive(Clone, Copy, Debug, PartialEq, Eq, Structural)]
pub enum ErrorKind {
    /// Caller-supplied data failed local validation; nothing was sent to the gateway.
    InvalidInput,
    /// Required local configuration is missing.
    Configuration,
    /// The gateway answered, but the requested target is absent.
    NotFound,
    /// The gateway call itself failed or returned a domain error.
    Gateway,
}

pub const STATUS_OK: u16 = 200;

pub const STATUS_BAD_REQUEST: u16 = 400;

pub const STATUS_NOT_FOUND: u16 = 404;

pub const STATUS_INTERNAL_ERROR: u16 = 500;

pub open spec fn kind_status(kind: ErrorKind) -> u16 {
    match kind {
        ErrorKind::InvalidInput => STATUS_BAD_REQUEST,
        ErrorKind::NotFound => STATUS_NOT_FOUND,
        ErrorKind::Configuration => STATUS_INTERNAL_ERROR,
        ErrorKind::Gateway => STATUS_INTERNAL_ERROR,
    }
}

impl ErrorKind {
    /// The HTTP status that reports a failure of this kind.
    pub fn status_code(&self) -> (r: u16)
        ensures
            r == kind_status(*self),
    {
        match self {
            ErrorKind::InvalidInput => STATUS_BAD_REQUEST,
            ErrorKind::NotFound => STATUS_NOT_FOUND,
            ErrorKind::Configuration => STATUS_INTERNAL_ERROR,
            ErrorKind::Gateway => STATUS_INTERNAL_ERROR,
        }
    }
}

/// A failed operation: its kind and a human-readable message.
#[derive(Clone, Debug, PartialEq, Eq)]
pub struct ServiceError {
    pub kind: ErrorKind,
    pub message: String,
}

/// `r` is a failure of kind `kind` whose message reads `message`.
pub open spec fn fails_with<T>(r: Result<T, ServiceError>, kind: ErrorKind, message: Seq<char>) -> bool {
    r matches Err(e) && e.kind == kind && e.message@ == message
}

impl ServiceError {
    pub fn new(kind: ErrorKind, message: String) -> (r: ServiceError)
        ensures
            r.kind == kind,
            r.message == message,
    {
        ServiceError { kind, message }
    }

    /// A failure whose message is `prefix` followed by `detail`.
    pub fn with_detail(kind: ErrorKind, prefix: &str, detail: &str) -> (r: ServiceError)
        ensures
            r.kind == kind,
            r.message@ == prefix@ + detail@,
    {
        let mut message = String::from_str(prefix);
        message.append(detail);
        ServiceError { kind, message }
    }

    pub fn status_code(&self) -> (r: u16)
        ensures
            r == kind_status(self.kind),
    {
        self.kind.status_code()
    }
}

} // verus!
