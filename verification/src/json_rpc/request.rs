//! The request envelope and its decoding from a request body.

use crate::api::error::text_of;
use crate::json_rpc::value::{
    json_member, json_of, json_parsed, json_text, member, parse, quote, render, Json,
};
use serde_json::Value;
use vstd::prelude::*;
use vstd::string::*;

verus! {

/// One call: an optional correlation id, the dotted method name, and the
/// parameters, if any.
#[derive(Debug)]
pub struct Request {
    pub id: Option<String>,
    pub method: String,
    pub params: Option<Value>,
}

/// What a [`Request`] holds: texts as sequences of characters, the parameters
/// as the document they are.
pub struct RequestView {
    pub id: Option<Seq<char>>,
    pub method: Seq<char>,
    pub params: Option<Json>,
}

/// The document of an optional value.
pub open spec fn payload_of(value: Option<Value>) -> Option<Json> {
    match value {
        Some(v) => Some(json_of(v)),
        None => None,
    }
}

impl View for Request {
    type V = RequestView;

    open spec fn view(&self) -> RequestView {
        RequestView {
            id: text_of(self.id),
            method: self.method@,
            params: payload_of(self.params),
        }
    }
}

impl RequestView {
    /// The JSON text of the request: `id`, `method` and `params`, a missing id
    /// and missing parameters as null.
    pub open spec fn text(self) -> Seq<char> {
        "{\"id\":"@ + match self.id {
            Some(id) => json_text(Json::Text(id)),
            None => "null"@,
        } + ",\"method\":"@ + json_text(Json::Text(self.method)) + ",\"params\":"@
            + match self.params {
            Some(params) => json_text(params),
            None => "null"@,
        } + "}"@
    }
}

/// Why a document is no request envelope; `None` for a document that is one.
/// An envelope is an object whose `method` is a string that is not empty and
/// whose `id`, where it is there and not null, is a string too.
pub open spec fn envelope_problem(doc: Json) -> Option<Seq<char>> {
    if !(doc is Object) {
        Some("invalid type: expected a JSON object"@)
    } else {
        match json_member(doc, "id"@) {
            None | Some(Json::Null) | Some(Json::Text(_)) => match json_member(doc, "method"@) {
                None => Some("missing field `method`"@),
                Some(Json::Text(method)) => if method.len() == 0 {
                    Some("invalid value: field `method` is empty"@)
                } else {
                    None
                },
                Some(_) => Some("invalid type: field `method` is not a string"@),
            },
            Some(_) => Some("invalid type: field `id` is not a string"@),
        }
    }
}

/// The request that an envelope holds. A null `id` counts as none, and so do
/// null `params`.
pub open spec fn envelope_request(doc: Json) -> RequestView {
    RequestView {
        id: match json_member(doc, "id"@) {
            Some(Json::Text(id)) => Some(id),
            _ => None,
        },
        method: match json_member(doc, "method"@) {
            Some(Json::Text(method)) => method,
            _ => Seq::empty(),
        },
        params: match json_member(doc, "params"@) {
            None | Some(Json::Null) => None,
            Some(params) => Some(params),
        },
    }
}

/// Whether a body decodes to a request: it is well-formed JSON and the
/// document is an envelope.
pub open spec fn decodes(body: Seq<u8>) -> bool {
    json_parsed(body) matches Some(doc) && envelope_problem(doc) is None
}

impl Request {
    /// Reads the envelope out of a parsed document.
    ///
    /// Fails, with the reason as text, exactly when the document is no
    /// envelope.
    pub fn from_value(value: &Value) -> (res: Result<Request, String>)
        ensures
            match envelope_problem(json_of(*value)) {
                None => res matches Ok(request) && request@ == envelope_request(json_of(*value)),
                Some(problem) => res matches Err(reason) && reason@ == problem,
            },
    {
        if !value.is_object() {
            return Err(String::from_str("invalid type: expected a JSON object"));
        }
        let id = match member(value, "id") {
            None => None,
            Some(found) => if found.is_null() {
                None
            } else {
                match found.as_str() {
                    Some(id) => Some(String::from_str(id)),
                    None => {
                        return Err(String::from_str("invalid type: field `id` is not a string"));
                    },
                }
            },
        };
        let method = match member(value, "method") {
            None => {
                return Err(String::from_str("missing field `method`"));
            },
            Some(found) => match found.as_str() {
                Some(method) => {
                    if method.is_empty() {
                        return Err(String::from_str("invalid value: field `method` is empty"));
                    }
                    String::from_str(method)
                },
                None => {
                    return Err(String::from_str("invalid type: field `method` is not a string"));
                },
            },
        };
        let params = match member(value, "params") {
            None => None,
            Some(found) => if found.is_null() {
                None
            } else {
                Some(found.clone())
            },
        };
        Ok(Request { id, method, params })
    }

    /// The JSON text of the request.
    pub fn to_json(&self) -> (json: String)
        ensures
            json@ == self@.text(),
    {
        let mut json = String::from_str("{\"id\":");
        match &self.id {
            Some(id) => {
                let quoted = quote(id.as_str());
                json.append(quoted.as_str());
            },
            None => {
                json.append("null");
            },
        }
        json.append(",\"method\":");
        let method = quote(self.method.as_str());
        json.append(method.as_str());
        json.append(",\"params\":");
        match &self.params {
            Some(params) => {
                let text = render(params);
                json.append(text.as_str());
            },
            None => {
                json.append("null");
            },
        }
        json.append("}");
        json
    }

    /// Decodes a request body.
    ///
    /// A body that is well-formed JSON is read as [`Request::from_value`]
    /// reads its document. Any other body fails, with the parser's diagnostic
    /// as the reason.
    pub fn decode(body: &[u8]) -> (res: Result<Request, String>)
        ensures
            res is Ok <==> decodes(body@),
            match json_parsed(body@) {
                Some(doc) => match envelope_problem(doc) {
                    None => res matches Ok(request) && request@ == envelope_request(doc),
                    Some(problem) => res matches Err(reason) && reason@ == problem,
                },
                None => res is Err,
            },
    {
        match parse(body) {
            Ok(value) => Request::from_value(&value),
            Err(reason) => Err(reason),
        }
    }
}

} // verus!
