use vstd::prelude::*;

verus! {

/// Status sent back for malformed caller input.
pub const STATUS_BAD_REQUEST: u16 = 400;

/// Status sent back for every authentication or authorization failure.
pub const STATUS_UNAUTHORIZED: u16 = 401;

/// Status sent back when a requested record does not exist.
pub const STATUS_NOT_FOUND: u16 = 404;

/// Status sent back for configuration or infrastructure failures.
pub const STATUS_INTERNAL_ERROR: u16 = 500;

/// The closed set of failure kinds. Each failure is classified once, where it
/// arises, and travels unchanged up to `map_error`.
#[derive(Debug, Clone, PartialEq, Eq)]
pub enum DomainError {
    /// Malformed input; the message is safe to show to the caller.
    Validation(String),
    NotFound,
    /// Any authentication or authorization failure, whatever its cause.
    Unauthorized,
    /// A configuration or infrastructure failure; its message stays internal.
    Unexpected(String),
}

/// The status that each kind of failure is rendered as.
pub open spec fn status_of(e: DomainError) -> u16 {
    match e {
        DomainError::Validation(_) => STATUS_BAD_REQUEST,
        DomainError::NotFound => STATUS_NOT_FOUND,
        DomainError::Unauthorized => STATUS_UNAUTHORIZED,
        DomainError::Unexpected(_) => STATUS_INTERNAL_ERROR,
    }
}

/// The body that each kind of failure is rendered with. Only a validation
/// message reaches the caller; an unexpected failure gets a generic text.
pub open spec fn body_of(e: DomainError) -> Seq<char> {
    match e {
        DomainError::Validation(msg) => msg@,
        DomainError::NotFound => "not found"@,
        DomainError::Unauthorized => "unauthorized"@,
        DomainError::Unexpected(_) => "internal error"@,
    }
}

/// `r` is the outcome of a check that refuses with a validation message
/// exactly when `problem` names one.
pub open spec fn check_outcome(r: Result<(), DomainError>, problem: Option<Seq<char>>) -> bool {
    match problem {
        None => r is Ok,
        Some(m) => r matches Err(DomainError::Validation(msg)) && msg@ == m,
    }
}

/// Renders a failure as the status and body of a rejection.
pub fn map_error(e: DomainError) -> (r: (u16, String))
    ensures
        r.0 == status_of(e),
        r.1@ == body_of(e),
{
    match e {
        DomainError::Validation(msg) => (STATUS_BAD_REQUEST, msg),
        DomainError::NotFound => (STATUS_NOT_FOUND, String::from_str("not found")),
        DomainError::Unauthorized => (STATUS_UNAUTHORIZED, String::from_str("unauthorized")),
        DomainError::Unexpected(_) => (STATUS_INTERNAL_ERROR, String::from_str("internal error")),
    }
}

} // verus!
