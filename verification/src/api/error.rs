//! The error model: a closed set of numbered kinds, each with one canonical
//! message, and the two ways in which a handler can fail.

use crate::text::i64_to_decimal;
use vstd::prelude::*;
use vstd::string::*;

verus! {

/// Number of an error kind.
pub type ErrorCode = i32;

pub const PARSE_ERROR: ErrorCode = 1;

pub const CONTROLLER_NOT_FOUND: ErrorCode = 2;

pub const METHOD_NOT_FOUND: ErrorCode = 3;

pub const PARAMETER_NOT_FOUND: ErrorCode = 4;

pub const INTERNAL_SERVER_ERROR: ErrorCode = 5;

pub const INVALID_PARAMETER: ErrorCode = 6;

pub const RECORD_NOT_FOUND: ErrorCode = 7;

pub const WRONG_USER_PASSWORD: ErrorCode = 100;

pub const NEXT_ID_EXPIRED: ErrorCode = 101;

pub const ACCOUNT_BLOCKED: ErrorCode = 102;

pub const ACCESS_DENIED: ErrorCode = 103;

/// Whether a number names an error kind.
pub open spec fn is_error_code(code: int) -> bool {
    1 <= code <= 7 || 100 <= code <= 103
}

/// The canonical message of an error kind; the empty text for any other number.
pub open spec fn canonical_message(code: int) -> Seq<char> {
    if code == PARSE_ERROR {
        "Parse error"@
    } else if code == CONTROLLER_NOT_FOUND {
        "Controller not found"@
    } else if code == METHOD_NOT_FOUND {
        "Method not found"@
    } else if code == PARAMETER_NOT_FOUND {
        "Parameter not found"@
    } else if code == INTERNAL_SERVER_ERROR {
        "Internal server error"@
    } else if code == INVALID_PARAMETER {
        "Invalid parameter"@
    } else if code == RECORD_NOT_FOUND {
        "Record not found"@
    } else if code == WRONG_USER_PASSWORD {
        "Wrong user password"@
    } else if code == NEXT_ID_EXPIRED {
        "Next id expired"@
    } else if code == ACCOUNT_BLOCKED {
        "Account blocked"@
    } else if code == ACCESS_DENIED {
        "Access denied"@
    } else {
        Seq::empty()
    }
}

/// Tells whether a number names an error kind.
pub fn known_code(code: ErrorCode) -> (known: bool)
    ensures
        known == is_error_code(code as int),
{
    (1 <= code && code <= 7) || (100 <= code && code <= 103)
}

/// The canonical message of an error kind, `None` for any other number.
pub fn message_of(code: ErrorCode) -> (message: Option<&'static str>)
    ensures
        message is Some <==> is_error_code(code as int),
        message matches Some(m) ==> m@ == canonical_message(code as int),
{
    if code == PARSE_ERROR {
        Some("Parse error")
    } else if code == CONTROLLER_NOT_FOUND {
        Some("Controller not found")
    } else if code == METHOD_NOT_FOUND {
        Some("Method not found")
    } else if code == PARAMETER_NOT_FOUND {
        Some("Parameter not found")
    } else if code == INTERNAL_SERVER_ERROR {
        Some("Internal server error")
    } else if code == INVALID_PARAMETER {
        Some("Invalid parameter")
    } else if code == RECORD_NOT_FOUND {
        Some("Record not found")
    } else if code == WRONG_USER_PASSWORD {
        Some("Wrong user password")
    } else if code == NEXT_ID_EXPIRED {
        Some("Next id expired")
    } else if code == ACCOUNT_BLOCKED {
        Some("Account blocked")
    } else if code == ACCESS_DENIED {
        Some("Access denied")
    } else {
        None
    }
}

/// An error of the endpoint: its kind, the canonical message of that kind, and
/// an optional free-form detail.
#[derive(Debug)]
pub struct Error {
    code: ErrorCode,
    message: String,
    data: Option<String>,
}

/// What an [`Error`] holds, with its texts as sequences of characters.
pub struct ErrorView {
    pub code: ErrorCode,
    pub message: Seq<char>,
    pub data: Option<Seq<char>>,
}

/// The view of an optional string.
pub open spec fn text_of(text: Option<String>) -> Option<Seq<char>> {
    match text {
        Some(s) => Some(s@),
        None => None,
    }
}

impl View for Error {
    type V = ErrorView;

    closed spec fn view(&self) -> ErrorView {
        ErrorView { code: self.code, message: self.message@, data: text_of(self.data) }
    }
}

impl ErrorView {
    /// The error of a kind with a detail: the message is the canonical one.
    pub open spec fn of(code: ErrorCode, data: Option<Seq<char>>) -> ErrorView {
        ErrorView { code, message: canonical_message(code as int), data }
    }

    /// Every error carries the canonical message of a known kind.
    pub open spec fn well_formed(self) -> bool {
        is_error_code(self.code as int) && self.message == canonical_message(self.code as int)
    }

    /// The one-line description used in logs.
    pub open spec fn description(self) -> Seq<char> {
        "API error: code: "@ + crate::text::decimal(self.code as int) + ", message: "@
            + self.message
    }
}

fn copy_text(text: &Option<String>) -> (copy: Option<String>)
    ensures
        text_of(copy) == text_of(*text),
{
    match text {
        Some(s) => Some(s.clone()),
        None => None,
    }
}

impl Error {
    /// Every value of the type is well formed.
    #[verifier::type_invariant]
    closed spec fn holds_canonical_message(self) -> bool {
        self@.well_formed()
    }

    /// An error of a known kind.
    pub fn new(code: ErrorCode, data: Option<String>) -> (error: Self)
        requires
            is_error_code(code as int),
        ensures
            error@ == ErrorView::of(code, text_of(data)),
    {
        let message = match message_of(code) {
            Some(m) => String::from_str(m),
            None => String::new(),
        };
        Error { code, message, data }
    }

    /// An error of the given kind, `None` where the number names no kind.
    pub fn checked(code: ErrorCode, data: Option<String>) -> (error: Option<Self>)
        ensures
            error is Some <==> is_error_code(code as int),
            error matches Some(e) ==> e@ == ErrorView::of(code, text_of(data)),
    {
        if known_code(code) {
            Some(Error::new(code, data))
        } else {
            None
        }
    }

    pub fn code(&self) -> (code: ErrorCode)
        ensures
            code == self@.code,
            is_error_code(code as int),
    {
        proof {
            use_type_invariant(self);
        }
        self.code
    }

    pub fn message(&self) -> (message: String)
        ensures
            message@ == self@.message,
            message@ == canonical_message(self@.code as int),
    {
        proof {
            use_type_invariant(self);
        }
        self.message.clone()
    }

    pub fn data(&self) -> (data: Option<String>)
        ensures
            text_of(data) == self@.data,
    {
        copy_text(&self.data)
    }

    /// The one-line description used in logs.
    pub fn to_text(&self) -> (line: String)
        ensures
            line@ == self@.description(),
    {
        let mut line = String::from_str("API error: code: ");
        let code = i64_to_decimal(self.code as i64);
        line.append(code.as_str());
        line.append(", message: ");
        line.append(self.message.as_str());
        line
    }
}

impl Clone for Error {
    fn clone(&self) -> (copy: Self)
        ensures
            copy@ == self@,
    {
        proof {
            use_type_invariant(self);
        }
        Error { code: self.code, message: self.message.clone(), data: copy_text(&self.data) }
    }
}

/// The two ways in which a handler fails: with an error of the endpoint, which
/// the caller is shown as it is, or with anything else, of which only the
/// diagnostic is kept for the log.
#[derive(Debug)]
pub enum Failure {
    Domain(Error),
    Other(String),
}

/// A failure with an error of the given kind and no detail.
pub fn make_error(code: ErrorCode) -> (failure: Failure)
    requires
        is_error_code(code as int),
    ensures
        failure matches Failure::Domain(e) && e@ == ErrorView::of(code, None),
{
    Failure::Domain(Error::new(code, None))
}

/// A failure with an error of the given kind and a detail.
pub fn make_error_data(code: ErrorCode, data: String) -> (failure: Failure)
    requires
        is_error_code(code as int),
    ensures
        failure matches Failure::Domain(e) && e@ == ErrorView::of(code, Some(data@)),
{
    Failure::Domain(Error::new(code, Some(data)))
}

} // verus!
