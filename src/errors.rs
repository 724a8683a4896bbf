//! The failure taxonomy of the check-in endpoint and its one conversion point
//! into a status code and a generic client-facing message. Detail (the
//! violation list, store error text) is for internal logs only.

use vstd::prelude::*;
use crate::validation::Violation;

verus! {

/// Why a check-in request was not accepted.
#[derive(Debug)]
pub enum CheckInError {
    /// The body is not syntactically JSON.
    MalformedBody,
    /// The body is JSON but a required field is missing or has the wrong type.
    MissingOrMistypedField,
    /// The report parsed but broke the validation rules.
    ValidationFailed(Vec<Violation>),
    /// The store could not be opened or the write did not commit.
    DatabaseError(String),
    /// The drive snapshot could not be serialized.
    SerializationError(String),
}

pub const STATUS_BAD_REQUEST: u16 = 400;
pub const STATUS_NOT_FOUND: u16 = 404;
pub const STATUS_PAYLOAD_TOO_LARGE: u16 = 413;
pub const STATUS_UNPROCESSABLE: u16 = 422;
pub const STATUS_TOO_MANY_REQUESTS: u16 = 429;
pub const STATUS_INTERNAL_ERROR: u16 = 500;

pub open spec fn invalid_input_text() -> Seq<char> {
    seq!['I', 'n', 'v', 'a', 'l', 'i', 'd', ' ', 'i', 'n', 'p', 'u', 't', ' ', 'd', 'a', 't', 'a']
}

pub open spec fn internal_error_text() -> Seq<char> {
    seq![
        'I', 'n', 't', 'e', 'r', 'n', 'a', 'l', ' ', 's', 'e', 'r', 'v', 'e', 'r', ' ', 'e', 'r',
        'r', 'o', 'r',
    ]
}

impl CheckInError {
    /// Whether the fault lies with the server rather than the request.
    pub open spec fn is_internal(&self) -> bool {
        self is DatabaseError || self is SerializationError
    }

    pub open spec fn spec_status_code(&self) -> u16 {
        match self {
            CheckInError::MalformedBody => STATUS_BAD_REQUEST,
            CheckInError::MissingOrMistypedField => STATUS_UNPROCESSABLE,
            CheckInError::ValidationFailed(_) => STATUS_BAD_REQUEST,
            CheckInError::DatabaseError(_) => STATUS_INTERNAL_ERROR,
            CheckInError::SerializationError(_) => STATUS_INTERNAL_ERROR,
        }
    }

    /// The HTTP status of the response.
    pub fn status_code(&self) -> (r: u16)
        ensures
            r == self.spec_status_code(),
    {
        match self {
            CheckInError::MalformedBody => STATUS_BAD_REQUEST,
            CheckInError::MissingOrMistypedField => STATUS_UNPROCESSABLE,
            CheckInError::ValidationFailed(_) => STATUS_BAD_REQUEST,
            CheckInError::DatabaseError(_) => STATUS_INTERNAL_ERROR,
            CheckInError::SerializationError(_) => STATUS_INTERNAL_ERROR,
        }
    }

    /// The generic message sent to the client: it never carries the detail.
    pub fn client_message(&self) -> (r: String)
        ensures
            self is ValidationFailed ==> r@ == invalid_input_text(),
            self.is_internal() ==> r@ == internal_error_text(),
            self is MalformedBody || self is MissingOrMistypedField ==> r@ == invalid_input_text(),
    {
        proof {
            reveal_strlit("Invalid input data");
            reveal_strlit("Internal server error");
        }
        match self {
            CheckInError::DatabaseError(_) => String::from_str("Internal server error"),
            CheckInError::SerializationError(_) => String::from_str("Internal server error"),
            _ => String::from_str("Invalid input data"),
        }
    }
}

} // verus!
