//! Error values with stable codes.
//!
//! Domain errors describe business-rule failures; API errors carry a stable
//! code, a message, an optional structured detail map and, for internal
//! errors, an underlying cause. The mapping onto transport status codes is
//! recorded here as plain numbers; the surrounding application turns them
//! into its transport's own representation.

#![verifier::loop_isolation(false)]

use vstd::prelude::*;
use vstd::string::StringExecFns;
use crate::value::{obj_model, Val, Value};

verus! {

broadcast use vstd::std_specs::vec::group_vec_axioms, vstd::seq::group_seq_axioms;

/// Domain-specific errors for business logic and validation rules.
pub enum DomainError {
    CorridorNotFound(String),
    AnchorNotFound(String),
    InvalidAsset(String),
    InvalidTimeRange { start: String, end: String },
    InvalidConfiguration(String),
    UnsupportedCurrency(String),
    CalculationError(String),
}

/// The human-readable message of a domain error.
pub open spec fn spec_domain_message(e: DomainError) -> Seq<char> {
    match e {
        DomainError::CorridorNotFound(id) => "Corridor not found: "@ + id@,
        DomainError::AnchorNotFound(id) => "Anchor not found: "@ + id@,
        DomainError::InvalidAsset(msg) => "Invalid asset format: "@ + msg@,
        DomainError::InvalidTimeRange { start, end } => "Invalid time range: "@ + start@ + " to "@
            + end@,
        DomainError::InvalidConfiguration(msg) => "Invalid configuration: "@ + msg@,
        DomainError::UnsupportedCurrency(msg) => "Unsupported currency or asset: "@ + msg@,
        DomainError::CalculationError(msg) => "Calculation error: "@ + msg@,
    }
}

impl DomainError {
    /// The human-readable message of this error.
    pub fn message(&self) -> (r: String)
        ensures
            r@ == spec_domain_message(*self),
    {
        match self {
            DomainError::CorridorNotFound(id) => String::from_str("Corridor not found: ").concat(
                id.as_str(),
            ),
            DomainError::AnchorNotFound(id) => String::from_str("Anchor not found: ").concat(
                id.as_str(),
            ),
            DomainError::InvalidAsset(msg) => String::from_str("Invalid asset format: ").concat(
                msg.as_str(),
            ),
            DomainError::InvalidTimeRange { start, end } => String::from_str(
                "Invalid time range: ",
            ).concat(start.as_str()).concat(" to ").concat(end.as_str()),
            DomainError::InvalidConfiguration(msg) => String::from_str(
                "Invalid configuration: ",
            ).concat(msg.as_str()),
            DomainError::UnsupportedCurrency(msg) => String::from_str(
                "Unsupported currency or asset: ",
            ).concat(msg.as_str()),
            DomainError::CalculationError(msg) => String::from_str("Calculation error: ").concat(
                msg.as_str(),
            ),
        }
    }
}

/// A structured detail map attached to an error: key/value entries.
pub type ErrorDetails = Vec<(String, Value)>;

/// Structured error response format.
pub struct ErrorResponse {
    pub error: ErrorDetail,
}

/// The body of a structured error response.
pub struct ErrorDetail {
    pub code: String,
    pub message: String,
    pub details: Option<ErrorDetails>,
    pub request_id: Option<String>,
    pub stack_trace: Option<String>,
}

/// Main API error type with structured error codes.
pub enum ApiError {
    NotFound { code: String, message: String, details: Option<ErrorDetails> },
    BadRequest { code: String, message: String, details: Option<ErrorDetails> },
    InternalError {
        code: String,
        message: String,
        details: Option<ErrorDetails>,
        source: Option<String>,
    },
    Unauthorized { code: String, message: String, details: Option<ErrorDetails> },
}

/// The stable code of an API error.
pub open spec fn spec_code(e: ApiError) -> Seq<char> {
    match e {
        ApiError::NotFound { code, .. } => code@,
        ApiError::BadRequest { code, .. } => code@,
        ApiError::InternalError { code, .. } => code@,
        ApiError::Unauthorized { code, .. } => code@,
    }
}

/// The message of an API error.
pub open spec fn spec_api_message(e: ApiError) -> Seq<char> {
    match e {
        ApiError::NotFound { message, .. } => message@,
        ApiError::BadRequest { message, .. } => message@,
        ApiError::InternalError { message, .. } => message@,
        ApiError::Unauthorized { message, .. } => message@,
    }
}

/// The model of an optional detail map.
pub open spec fn details_model(d: Option<ErrorDetails>) -> Option<Seq<(Seq<char>, Val)>> {
    match d {
        Some(entries) => Some(obj_model(entries@)),
        None => None,
    }
}

/// The detail map of an API error.
pub open spec fn spec_details(e: ApiError) -> Option<Seq<(Seq<char>, Val)>> {
    match e {
        ApiError::NotFound { details, .. } => details_model(details),
        ApiError::BadRequest { details, .. } => details_model(details),
        ApiError::InternalError { details, .. } => details_model(details),
        ApiError::Unauthorized { details, .. } => details_model(details),
    }
}

/// The HTTP-style status class of an API error.
pub open spec fn spec_status_code(e: ApiError) -> u16 {
    match e {
        ApiError::NotFound { .. } => 404,
        ApiError::BadRequest { .. } => 400,
        ApiError::InternalError { .. } => 500,
        ApiError::Unauthorized { .. } => 401,
    }
}

/// What the subscription store's failure was, as the application classified
/// it; the dispatch core maps each class to a stable code.
pub enum StoreErrorClass {
    /// The requested row does not exist.
    RowNotFound,
    /// The database reported an error with this message.
    Database(String),
    /// Any other storage failure.
    Other,
}

impl ApiError {
    /// A NotFound error with a specific code.
    pub fn not_found(code: &str, message: &str) -> (r: ApiError)
        ensures
            r matches ApiError::NotFound { code: c, message: m, details: d } && c@ == code@ && m@
                == message@ && d is None,
    {
        ApiError::NotFound {
            code: String::from_str(code),
            message: String::from_str(message),
            details: None,
        }
    }

    /// A NotFound error with a detail map.
    pub fn not_found_with_details(code: &str, message: &str, details: ErrorDetails) -> (r: ApiError)
        ensures
            r matches ApiError::NotFound { code: c, message: m, details: d } && c@ == code@ && m@
                == message@ && d == Some(details),
    {
        ApiError::NotFound {
            code: String::from_str(code),
            message: String::from_str(message),
            details: Some(details),
        }
    }

    /// A BadRequest error.
    pub fn bad_request(code: &str, message: &str) -> (r: ApiError)
        ensures
            r matches ApiError::BadRequest { code: c, message: m, details: d } && c@ == code@ && m@
                == message@ && d is None,
    {
        ApiError::BadRequest {
            code: String::from_str(code),
            message: String::from_str(message),
            details: None,
        }
    }

    /// A BadRequest error with a detail map.
    pub fn bad_request_with_details(code: &str, message: &str, details: ErrorDetails) -> (r:
        ApiError)
        ensures
            r matches ApiError::BadRequest { code: c, message: m, details: d } && c@ == code@ && m@
                == message@ && d == Some(details),
    {
        ApiError::BadRequest {
            code: String::from_str(code),
            message: String::from_str(message),
            details: Some(details),
        }
    }

    /// An InternalError without a recorded cause.
    pub fn internal(code: &str, message: &str) -> (r: ApiError)
        ensures
            r matches ApiError::InternalError { code: c, message: m, details: d, source: s } && c@
                == code@ && m@ == message@ && d is None && s is None,
    {
        ApiError::InternalError {
            code: String::from_str(code),
            message: String::from_str(message),
            details: None,
            source: None,
        }
    }

    /// An Unauthorized error.
    pub fn unauthorized(code: &str, message: &str) -> (r: ApiError)
        ensures
            r matches ApiError::Unauthorized { code: c, message: m, details: d } && c@ == code@
                && m@ == message@ && d is None,
    {
        ApiError::Unauthorized {
            code: String::from_str(code),
            message: String::from_str(message),
            details: None,
        }
    }

    /// The same error with `details` as its detail map, whatever its variant.
    pub fn with_details(self, details: ErrorDetails) -> (r: ApiError)
        ensures
            spec_code(r) == spec_code(self),
            spec_api_message(r) == spec_api_message(self),
            spec_status_code(r) == spec_status_code(self),
            spec_details(r) == Some(obj_model(details@)),
            r matches ApiError::InternalError { source, .. } ==> (
            self matches ApiError::InternalError { source: s0, .. } && source == s0),
    {
        match self {
            ApiError::NotFound { code, message, .. } => ApiError::NotFound {
                code,
                message,
                details: Some(details),
            },
            ApiError::BadRequest { code, message, .. } => ApiError::BadRequest {
                code,
                message,
                details: Some(details),
            },
            ApiError::InternalError { code, message, source, .. } => ApiError::InternalError {
                code,
                message,
                details: Some(details),
                source,
            },
            ApiError::Unauthorized { code, message, .. } => ApiError::Unauthorized {
                code,
                message,
                details: Some(details),
            },
        }
    }

    /// The HTTP-style status class of this error: 404 for NotFound, 400 for
    /// BadRequest, 500 for InternalError, 401 for Unauthorized.
    pub fn status_code(&self) -> (r: u16)
        ensures
            r == spec_status_code(*self),
    {
        match self {
            ApiError::NotFound { .. } => 404,
            ApiError::BadRequest { .. } => 400,
            ApiError::InternalError { .. } => 500,
            ApiError::Unauthorized { .. } => 401,
        }
    }

    /// The structured response for this error, carrying its code, message and
    /// detail map, with the given request correlation id. Stack traces are
    /// never included here; an embedding that wants them in debug builds adds
    /// them itself.
    pub fn to_error_response(&self, request_id: Option<String>) -> (r: ErrorResponse)
        ensures
            r.error.code@ == spec_code(*self),
            r.error.message@ == spec_api_message(*self),
            details_model(r.error.details) == spec_details(*self),
            r.error.request_id == request_id,
            r.error.stack_trace is None,
    {
        let (code, message, details) = match self {
            ApiError::NotFound { code, message, details } => (
                code.clone(),
                message.clone(),
                duplicate_details(details),
            ),
            ApiError::BadRequest { code, message, details } => (
                code.clone(),
                message.clone(),
                duplicate_details(details),
            ),
            ApiError::InternalError { code, message, details, .. } => (
                code.clone(),
                message.clone(),
                duplicate_details(details),
            ),
            ApiError::Unauthorized { code, message, details } => (
                code.clone(),
                message.clone(),
                duplicate_details(details),
            ),
        };
        ErrorResponse {
            error: ErrorDetail { code, message, details, request_id, stack_trace: None },
        }
    }

    /// The API error for a domain error, with its stable code.
    pub fn from_domain(err: DomainError) -> (r: ApiError)
        ensures
            match err {
                DomainError::CorridorNotFound(_) => spec_status_code(r) == 404 && spec_code(r)
                    == "CORRIDOR_NOT_FOUND"@,
                DomainError::AnchorNotFound(_) => spec_status_code(r) == 404 && spec_code(r)
                    == "ANCHOR_NOT_FOUND"@,
                DomainError::InvalidTimeRange { .. } => spec_status_code(r) == 400 && spec_code(r)
                    == "INVALID_TIME_RANGE"@,
                _ => spec_status_code(r) == 400 && spec_code(r) == "DOMAIN_VALIDATION_ERROR"@,
            },
            spec_api_message(r) == match err {
                DomainError::InvalidAsset(msg) => msg@,
                DomainError::InvalidConfiguration(msg) => msg@,
                DomainError::UnsupportedCurrency(msg) => msg@,
                DomainError::CalculationError(msg) => msg@,
                _ => spec_domain_message(err),
            },
            spec_details(r) is None,
    {
        match err {
            DomainError::CorridorNotFound(_) => ApiError::NotFound {
                code: String::from_str("CORRIDOR_NOT_FOUND"),
                message: err.message(),
                details: None,
            },
            DomainError::AnchorNotFound(_) => ApiError::NotFound {
                code: String::from_str("ANCHOR_NOT_FOUND"),
                message: err.message(),
                details: None,
            },
            DomainError::InvalidTimeRange { .. } => ApiError::BadRequest {
                code: String::from_str("INVALID_TIME_RANGE"),
                message: err.message(),
                details: None,
            },
            DomainError::InvalidAsset(msg) => ApiError::BadRequest {
                code: String::from_str("DOMAIN_VALIDATION_ERROR"),
                message: msg,
                details: None,
            },
            DomainError::InvalidConfiguration(msg) => ApiError::BadRequest {
                code: String::from_str("DOMAIN_VALIDATION_ERROR"),
                message: msg,
                details: None,
            },
            DomainError::UnsupportedCurrency(msg) => ApiError::BadRequest {
                code: String::from_str("DOMAIN_VALIDATION_ERROR"),
                message: msg,
                details: None,
            },
            DomainError::CalculationError(msg) => ApiError::BadRequest {
                code: String::from_str("DOMAIN_VALIDATION_ERROR"),
                message: msg,
                details: None,
            },
        }
    }

    /// The API error for a storage failure, classified by the application:
    /// a stable code per class and the store's own description as the cause.
    pub fn from_store_error(class: StoreErrorClass, description: String) -> (r: ApiError)
        ensures
            r matches ApiError::InternalError { code, message, details, source } && ({
                &&& match class {
                    StoreErrorClass::RowNotFound => code@ == "NOT_FOUND"@ && message@
                        == "The requested resource was not found"@,
                    StoreErrorClass::Database(db_message) => code@ == "DATABASE_ERROR"@ && message@
                        == "Database error: "@ + db_message@,
                    StoreErrorClass::Other => code@ == "INTERNAL_ERROR"@ && message@
                        == "An internal error occurred"@,
                }
                &&& details is None
                &&& source == Some(description)
            }),
    {
        let (code, message) = match &class {
            StoreErrorClass::RowNotFound => (
                String::from_str("NOT_FOUND"),
                String::from_str("The requested resource was not found"),
            ),
            StoreErrorClass::Database(db_message) => (
                String::from_str("DATABASE_ERROR"),
                String::from_str("Database error: ").concat(db_message.as_str()),
            ),
            StoreErrorClass::Other => (
                String::from_str("INTERNAL_ERROR"),
                String::from_str("An internal error occurred"),
            ),
        };
        ApiError::InternalError { code, message, details: None, source: Some(description) }
    }

    /// The API error for an otherwise unclassified internal failure, keeping
    /// its description as the cause.
    pub fn from_internal_cause(cause: String) -> (r: ApiError)
        ensures
            r matches ApiError::InternalError { code, message, details, source } && code@
                == "INTERNAL_ERROR"@ && message@ == "An internal error occurred"@ && details is None
                && source == Some(cause),
    {
        ApiError::InternalError {
            code: String::from_str("INTERNAL_ERROR"),
            message: String::from_str("An internal error occurred"),
            details: None,
            source: Some(cause),
        }
    }
}

/// A fresh detail map with the same model.
fn duplicate_details(details: &Option<ErrorDetails>) -> (r: Option<ErrorDetails>)
    ensures
        details_model(r) == details_model(*details),
{
    match details {
        None => None,
        Some(entries) => {
            let ghost target = obj_model(entries@);
            let mut out: ErrorDetails = Vec::new();
            let mut i: usize = 0;
            while i < entries.len()
                invariant
                    i <= entries@.len(),
                    out@.len() == i,
                    forall|j: int| 0 <= j < i ==> (out@[j].0@, out@[j].1@) == (
                        entries@[j].0@,
                        entries@[j].1@,
                    ),
                decreases entries@.len() - i,
            {
                let key = entries[i].0.clone();
                let val = entries[i].1.duplicate();
                out.push((key, val));
                i = i + 1;
            }
            proof {
                crate::value::lemma_obj_model(entries@);
                crate::value::lemma_obj_model(out@);
                assert(obj_model(out@) =~= obj_model(entries@));
            }
            Some(out)
        },
    }
}

/// The result type used by handlers that can fail with an API error.
pub type ApiResult<T> = Result<T, ApiError>;

} // verus!
