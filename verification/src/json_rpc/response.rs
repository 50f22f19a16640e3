//! The response envelope: the echo of the call and exactly one of a result
//! and an error.

use crate::api::error::ErrorView;
use crate::json_rpc::error::{error_text, Error};
use crate::json_rpc::request::payload_of;
use crate::json_rpc::value::{json_of, json_text, null, quote, render, Json};
use serde_json::Value;
use vstd::prelude::*;
use vstd::string::*;

verus! {

/// How a call ended.
#[derive(Debug)]
enum Outcome {
    Result(Value),
    Error(Error),
}

/// The answer to one call. It holds either a result or an error, never both
/// and never neither.
#[derive(Debug)]
pub struct Response {
    id: String,
    method: String,
    outcome: Outcome,
}

/// What a [`Response`] holds.
pub struct ResponseView {
    pub id: Seq<char>,
    pub method: Seq<char>,
    pub result: Option<Json>,
    pub error: Option<ErrorView>,
}

impl ResponseView {
    /// Exactly one of `result` and `error` is present.
    pub open spec fn well_formed(self) -> bool {
        (self.result is Some) != (self.error is Some)
    }

    /// The envelope of a call that succeeded. A handler that returns no
    /// payload still fills the `result` slot, with null.
    pub open spec fn success(id: Seq<char>, method: Seq<char>, payload: Option<Json>) -> Self {
        ResponseView {
            id,
            method,
            result: Some(
                match payload {
                    Some(doc) => doc,
                    None => Json::Null,
                },
            ),
            error: None,
        }
    }

    /// The envelope of a call that failed.
    pub open spec fn failure(id: Seq<char>, method: Seq<char>, error: ErrorView) -> Self {
        ResponseView { id, method, result: None, error: Some(error) }
    }

    /// The JSON text of the envelope: `id`, `method`, then `result` or `error`,
    /// whichever is present.
    pub open spec fn text(self) -> Seq<char> {
        "{\"id\":"@ + json_text(Json::Text(self.id)) + ",\"method\":"@ + json_text(
            Json::Text(self.method),
        ) + match self.error {
            Some(error) => ",\"error\":"@ + error_text(error),
            None => ",\"result\":"@ + json_text(
                match self.result {
                    Some(doc) => doc,
                    None => Json::Null,
                },
            ),
        } + "}"@
    }
}

impl View for Response {
    type V = ResponseView;

    closed spec fn view(&self) -> ResponseView {
        match self.outcome {
            Outcome::Result(value) => ResponseView {
                id: self.id@,
                method: self.method@,
                result: Some(json_of(value)),
                error: None,
            },
            Outcome::Error(error) => ResponseView {
                id: self.id@,
                method: self.method@,
                result: None,
                error: Some(error@),
            },
        }
    }
}

/// Every response envelope holds exactly one of a result and an error.
pub proof fn lemma_exactly_one_outcome(response: Response)
    ensures
        response@.well_formed(),
        response@.result is Some <==> response@.error is None,
{
}

impl Response {
    /// The envelope of a call that succeeded.
    pub fn success(id: String, method: String, payload: Option<Value>) -> (response: Response)
        ensures
            response@ == ResponseView::success(id@, method@, payload_of(payload)),
            response@.well_formed(),
    {
        let result = match payload {
            Some(value) => value,
            None => null(),
        };
        Response { id, method, outcome: Outcome::Result(result) }
    }

    /// The envelope of a call that failed.
    pub fn failure(id: String, method: String, error: Error) -> (response: Response)
        ensures
            response@ == ResponseView::failure(id@, method@, error@),
            response@.well_formed(),
    {
        Response { id, method, outcome: Outcome::Error(error) }
    }

    pub fn id(&self) -> (id: &String)
        ensures
            id@ == self@.id,
    {
        &self.id
    }

    pub fn method(&self) -> (method: &String)
        ensures
            method@ == self@.method,
    {
        &self.method
    }

    /// The result, present exactly when there is no error.
    pub fn result(&self) -> (result: Option<&Value>)
        ensures
            self@.well_formed(),
            result is Some <==> self@.error is None,
            match result {
                Some(value) => self@.result == Some(json_of(*value)),
                None => self@.result is None,
            },
    {
        match &self.outcome {
            Outcome::Result(value) => Some(value),
            Outcome::Error(_) => None,
        }
    }

    /// The error, present exactly when there is no result.
    pub fn error(&self) -> (error: Option<&Error>)
        ensures
            self@.well_formed(),
            error is Some <==> self@.result is None,
            match error {
                Some(e) => self@.error == Some(e@),
                None => self@.error is None,
            },
    {
        match &self.outcome {
            Outcome::Result(_) => None,
            Outcome::Error(error) => Some(error),
        }
    }

    /// The JSON text of the envelope.
    pub fn to_json(&self) -> (json: String)
        ensures
            self@.well_formed(),
            json@ == self@.text(),
    {
        let mut json = String::from_str("{\"id\":");
        let id = quote(self.id.as_str());
        json.append(id.as_str());
        json.append(",\"method\":");
        let method = quote(self.method.as_str());
        json.append(method.as_str());
        match &self.outcome {
            Outcome::Error(error) => {
                json.append(",\"error\":");
                let text = error.to_json();
                json.append(text.as_str());
            },
            Outcome::Result(value) => {
                json.append(",\"result\":");
                let text = render(value);
                json.append(text.as_str());
            },
        }
        json.append("}");
        json
    }
}

} // verus!
