//! What every handler shares: the context it is called with and the shape of
//! what it returns.

use crate::api::error::{
    ErrorView, Failure, INVALID_PARAMETER, PARAMETER_NOT_FOUND,
};
use crate::json_rpc::request::payload_of;
use crate::json_rpc::value::{json_of, Json};
use crate::config::Frontend;
use crate::text::{decimal, i64_to_decimal};
use crate::types::{Id, User, UserView};
use serde_json::Value;
use vstd::prelude::*;
use vstd::string::*;

pub mod comment;
pub mod forum;
pub mod like;
pub mod mandela;
pub mod search;
pub mod user;

verus! {

/// What a handler returns: a payload, or none, on success; a failure otherwise.
pub type RequestResult = Result<Option<Value>, Failure>;

/// The parameters of the many methods that take one id.
#[derive(Debug)]
pub struct RequestId {
    pub id: Id,
}

/// A failure of a handler that is no error of the endpoint.
#[derive(Debug)]
pub struct Error {
    message: String,
}

impl View for Error {
    type V = Seq<char>;

    closed spec fn view(&self) -> Seq<char> {
        self.message@
    }
}

impl Error {
    pub fn new(message: String) -> (error: Self)
        ensures
            error@ == message@,
    {
        Error { message }
    }

    /// The one-line description used in logs.
    pub fn to_text(&self) -> (line: String)
        ensures
            line@ == "Controller error: "@ + self@,
    {
        let mut line = String::from_str("Controller error: ");
        line.append(self.message.as_str());
        line
    }

    /// The failure that this error is: one of which the caller learns nothing.
    pub fn into_failure(self) -> (failure: Failure)
        ensures
            failure matches Failure::Other(diagnostic) && diagnostic@ == "Controller error: "@
                + self@,
    {
        Failure::Other(self.to_text())
    }
}

/// The context of one call: the caller and the raw parameters. The database
/// scope of the call is opened by whoever runs the handler.
#[derive(Debug)]
pub struct RequestData {
    user: User,
    params: Option<Value>,
}

/// What a [`RequestData`] holds.
pub struct RequestDataView {
    pub user: UserView,
    pub params: Option<Json>,
}

impl View for RequestData {
    type V = RequestDataView;

    closed spec fn view(&self) -> RequestDataView {
        RequestDataView { user: self.user@, params: payload_of(self.params) }
    }
}

impl RequestData {
    pub fn new(user: User, params: Option<Value>) -> (data: Self)
        ensures
            data@ == (RequestDataView { user: user@, params: payload_of(params) }),
    {
        Self { user, params }
    }

    /// The caller.
    pub fn user(&self) -> (user: &User)
        ensures
            user@ == self@.user,
    {
        &self.user
    }

    /// The raw parameters of the call. Where the call has none, the failure is
    /// `PARAMETER_NOT_FOUND`.
    pub fn params(&self) -> (res: Result<&Value, Failure>)
        ensures
            match self@.params {
                Some(doc) => res matches Ok(value) && json_of(*value) == doc,
                None => res matches Err(Failure::Domain(e)) && e@ == ErrorView::of(
                    PARAMETER_NOT_FOUND,
                    None,
                ),
            },
    {
        match &self.params {
            Some(value) => Ok(value),
            None => Err(crate::api::error::make_error(PARAMETER_NOT_FOUND)),
        }
    }
}

/// The failure of a call whose parameters do not have the shape that the
/// method asks for: `INVALID_PARAMETER`, with the reason as detail.
pub fn invalid_parameter(reason: String) -> (failure: Failure)
    ensures
        failure matches Failure::Domain(e) && e@ == ErrorView::of(INVALID_PARAMETER, Some(reason@)),
{
    crate::api::error::make_error_data(INVALID_PARAMETER, reason)
}

/// The title of an entry as it is shown: the plain title in mode 0, the
/// composed one in mode 1, and a stand-in in any other mode.
pub open spec fn mandela_title_text(title: mandela::MandelaTitle) -> Seq<char> {
    if title.title_mode == 0 {
        title.title@
    } else if title.title_mode == 1 {
        title.what@ + ": "@ + title.before@ + " / "@ + title.after@
    } else {
        "Неизвестная мандела"@
    }
}

/// The link to an entry on the site, with its title as text.
pub open spec fn mandela_link(domen: Seq<char>, title: mandela::MandelaTitle) -> Seq<char> {
    "<a href='"@ + domen + "/mandela/"@ + decimal(title.id as int) + "'>"@ + mandela_title_text(
        title,
    ) + "</a>"@
}

/// Formats the link to an entry on the site:
/// `<a href='<domen>/mandela/<id>'><title></a>`.
pub fn format_mandela_title(frontend: &Frontend, mandela_title: mandela::MandelaTitle) -> (link:
    String)
    ensures
        link@ == mandela_link(frontend.domen@, mandela_title),
{
    let mut link = String::from_str("<a href='");
    link.append(frontend.domen.as_str());
    link.append("/mandela/");
    let id = i64_to_decimal(mandela_title.id as i64);
    link.append(id.as_str());
    link.append("'>");
    if mandela_title.title_mode == 0 {
        link.append(mandela_title.title.as_str());
    } else if mandela_title.title_mode == 1 {
        let ghost before = link@;
        link.append(mandela_title.what.as_str());
        link.append(": ");
        link.append(mandela_title.before.as_str());
        link.append(" / ");
        link.append(mandela_title.after.as_str());
        assert(link@ =~= before + (mandela_title.what@ + ": "@ + mandela_title.before@ + " / "@
            + mandela_title.after@));
    } else {
        link.append("Неизвестная мандела");
    }
    link.append("</a>");
    link
}

} // verus!
