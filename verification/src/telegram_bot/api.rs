//! The messages exchanged with the chat API.

use crate::json_rpc::value::{json_text, quote, Json};
use crate::types::Id;
use serde_json::Value;
use vstd::prelude::*;
use vstd::string::*;

verus! {

/// What the chat API answers.
#[derive(Debug)]
pub struct Response {
    pub ok: bool,
    pub result: Option<Value>,
    pub description: Option<String>,
}

#[derive(Debug)]
pub struct Update {
    pub update_id: Id,
    pub message: Message,
}

#[derive(Debug)]
pub struct Message {
    pub chat: Chat,
    pub text: String,
}

#[derive(Debug)]
pub struct Chat {
    pub id: Id,
}

#[derive(Debug)]
pub struct GetUpdatesParams {
    pub offset: i32,
}

/// The parameters of `sendMessage`.
#[derive(Debug)]
pub struct SendMessageParams {
    pub chat_id: String,
    pub text: String,
    pub parse_mode: Option<String>,
}

impl SendMessageParams {
    /// The JSON text of the parameters, the keys in alphabetical order. A
    /// missing parse mode goes out as null.
    pub open spec fn spec_json(&self) -> Seq<char> {
        "{\"chat_id\":"@ + json_text(Json::Text(self.chat_id@)) + ",\"parse_mode\":"@
            + match self.parse_mode {
            Some(mode) => json_text(Json::Text(mode@)),
            None => "null"@,
        } + ",\"text\":"@ + json_text(Json::Text(self.text@)) + "}"@
    }

    /// The JSON text of the parameters: the body of the request.
    pub fn to_json(&self) -> (json: String)
        ensures
            json@ == self.spec_json(),
    {
        let mut json = String::from_str("{\"chat_id\":");
        let chat_id = quote(self.chat_id.as_str());
        json.append(chat_id.as_str());
        json.append(",\"parse_mode\":");
        match &self.parse_mode {
            Some(mode) => {
                let quoted = quote(mode.as_str());
                json.append(quoted.as_str());
            },
            None => {
                json.append("null");
            },
        }
        json.append(",\"text\":");
        let text = quote(self.text.as_str());
        json.append(text.as_str());
        json.append("}");
        json
    }
}

} // verus!
