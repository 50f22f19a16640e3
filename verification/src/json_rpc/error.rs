//! The error object of a response envelope.

use crate::api;
use crate::api::error::{text_of, ErrorCode, ErrorView};
use crate::json_rpc::value::{json_text, quote, Json};
use crate::text::{decimal, i64_to_decimal};
use vstd::prelude::*;
use vstd::string::*;

verus! {

/// The error object as it goes on the wire: `code`, `message` and, where there
/// is one, `data`.
#[derive(Debug)]
pub struct Error {
    pub code: ErrorCode,
    pub message: String,
    pub data: Option<String>,
}

impl View for Error {
    type V = ErrorView;

    open spec fn view(&self) -> ErrorView {
        ErrorView { code: self.code, message: self.message@, data: text_of(self.data) }
    }
}

/// The JSON text of an error object: `data` is left out where there is none.
pub open spec fn error_text(error: ErrorView) -> Seq<char> {
    "{\"code\":"@ + decimal(error.code as int) + ",\"message\":"@ + json_text(
        Json::Text(error.message),
    ) + match error.data {
        Some(data) => ",\"data\":"@ + json_text(Json::Text(data)),
        None => Seq::empty(),
    } + "}"@
}

impl Error {
    pub fn new(code: ErrorCode, message: String, data: Option<String>) -> (error: Error)
        ensures
            error.code == code,
            error.message == message,
            error.data == data,
    {
        Error { code, message, data }
    }

    /// The wire form of an error of the endpoint: same kind, message and detail.
    pub fn from_api_error(err: &api::error::Error) -> (error: Error)
        ensures
            error@ == err@,
            error@.well_formed(),
    {
        Self::new(err.code(), err.message(), err.data())
    }

    /// The JSON text of the error object.
    pub fn to_json(&self) -> (json: String)
        ensures
            json@ == error_text(self@),
    {
        let mut json = String::from_str("{\"code\":");
        let code = i64_to_decimal(self.code as i64);
        json.append(code.as_str());
        json.append(",\"message\":");
        let message = quote(self.message.as_str());
        json.append(message.as_str());
        match &self.data {
            Some(data) => {
                json.append(",\"data\":");
                let quoted = quote(data.as_str());
                json.append(quoted.as_str());
            },
            None => {
                assert(json@ + Seq::<char>::empty() == json@);
            },
        }
        json.append("}");
        json
    }
}

} // verus!
