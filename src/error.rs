use vstd::prelude::*;
use vstd::string::*;

verus! {

/// What went wrong, as a symbolic category.
#[derive(Clone, Copy, Debug, PartialEq, Eq, Structural)]
pub enum ErrorKind {
    SystemTime,
    Serialization,
    Hash,
    Token,
    Store,
    Conflict,
    Unauthorized,
    InvalidInput,
    NotFound,
}

/// Text handed to clients in place of the detail of an internal failure.
pub const INTERNAL_MESSAGE: &'static str = "internal server error";

/// Failures whose detail must not reach a client.
pub open spec fn is_internal(kind: ErrorKind) -> bool {
    match kind {
        ErrorKind::SystemTime | ErrorKind::Serialization | ErrorKind::Hash | ErrorKind::Store => true,
        _ => false,
    }
}

/// The transport status of each kind. An unknown identity is reported as an
/// authorization failure, so that clients cannot tell which emails exist.
pub open spec fn status_of(kind: ErrorKind) -> u16 {
    match kind {
        ErrorKind::SystemTime => 500,
        ErrorKind::Serialization => 500,
        ErrorKind::Hash => 500,
        ErrorKind::Store => 500,
        ErrorKind::Token => 401,
        ErrorKind::Conflict => 409,
        ErrorKind::Unauthorized => 401,
        ErrorKind::NotFound => 401,
        ErrorKind::InvalidInput => 400,
    }
}

/// The symbolic name of each kind.
pub open spec fn kind_name(kind: ErrorKind) -> Seq<char> {
    match kind {
        ErrorKind::SystemTime => "system_time"@,
        ErrorKind::Serialization => "serialization"@,
        ErrorKind::Hash => "hash"@,
        ErrorKind::Token => "token"@,
        ErrorKind::Store => "store"@,
        ErrorKind::Conflict => "conflict"@,
        ErrorKind::Unauthorized => "unauthorized"@,
        ErrorKind::InvalidInput => "invalid_input"@,
        ErrorKind::NotFound => "not_found"@,
    }
}

/// The message a client sees for a failure of `kind` described by `detail`.
pub open spec fn public_message(kind: ErrorKind, detail: Seq<char>) -> Seq<char> {
    if is_internal(kind) {
        INTERNAL_MESSAGE@
    } else {
        detail
    }
}

impl ErrorKind {
    /// The status a client receives for this kind.
    pub fn status(&self) -> (r: u16)
        ensures
            r == status_of(*self),
    {
        match self {
            ErrorKind::SystemTime => 500,
            ErrorKind::Serialization => 500,
            ErrorKind::Hash => 500,
            ErrorKind::Store => 500,
            ErrorKind::Token => 401,
            ErrorKind::Conflict => 409,
            ErrorKind::Unauthorized => 401,
            ErrorKind::NotFound => 401,
            ErrorKind::InvalidInput => 400,
        }
    }

    /// The symbolic name of this kind.
    pub fn name(&self) -> (r: &'static str)
        ensures
            r@ == kind_name(*self),
    {
        match self {
            ErrorKind::SystemTime => "system_time",
            ErrorKind::Serialization => "serialization",
            ErrorKind::Hash => "hash",
            ErrorKind::Token => "token",
            ErrorKind::Store => "store",
            ErrorKind::Conflict => "conflict",
            ErrorKind::Unauthorized => "unauthorized",
            ErrorKind::InvalidInput => "invalid_input",
            ErrorKind::NotFound => "not_found",
        }
    }

    /// Whether failures of this kind have their detail withheld.
    pub fn internal(&self) -> (r: bool)
        ensures
            r == is_internal(*self),
    {
        match self {
            ErrorKind::SystemTime | ErrorKind::Serialization | ErrorKind::Hash | ErrorKind::Store => true,
            _ => false,
        }
    }
}

/// One failure: its kind, a caller-safe message and the transport status.
#[derive(Debug)]
pub struct Error {
    pub kind: ErrorKind,
    pub message: String,
    pub http_code: u16,
}

impl Error {
    /// Builds the error that clients see for a failure of `kind`.
    pub fn new(kind: ErrorKind, detail: &str) -> (r: Error)
        ensures
            r.kind == kind,
            r.http_code == status_of(kind),
            r.message@ == public_message(kind, detail@),
    {
        let message = if kind.internal() {
            String::from_str(INTERNAL_MESSAGE)
        } else {
            String::from_str(detail)
        };
        Error { kind, message, http_code: kind.status() }
    }
}

} // verus!
