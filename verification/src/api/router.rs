//! The router: the decisions that take one request to its response.
//!
//! A request passes three stages. [`route`] checks verb, path and token and
//! resolves the caller, before any body is read. [`dispatch`] decodes the body
//! and either answers at once or names the handler to run. [`conclude`] turns
//! what the handler returned into the envelope. Reading the body and running
//! the handler lie between the stages and are the caller's part.

use crate::api::authorizer::{allowed, authorize};
use crate::api::error::{
    Error, ErrorView, Failure, ACCESS_DENIED, ACCOUNT_BLOCKED, INTERNAL_SERVER_ERROR,
    METHOD_NOT_FOUND, PARSE_ERROR,
};
use crate::api::registry::{is_registered, registered, Method};
use crate::api::user_cache::{get, UserCache};
use crate::controller::{RequestData, RequestDataView, RequestResult};
use crate::json_rpc;
use crate::json_rpc::request::{envelope_problem, envelope_request, payload_of, RequestView};
use crate::json_rpc::response::ResponseView;
use crate::json_rpc::value::json_parsed;
use crate::json_rpc::{Request, Response};
use crate::text::{decimal, i64_to_decimal, str_eq};
use crate::types::{Id, User, UserView};
use vstd::prelude::*;
use vstd::string::*;

verus! {

/// The (name, value) pairs that a query string holds, names and values
/// percent-decoded, in the order in which they stand.
pub uninterp spec fn query_pairs(query: Seq<char>) -> Seq<(Seq<char>, Seq<char>)>;

/// `url::form_urlencoded::parse` on the bytes of a query string, its pairs
/// collected in order.
#[verifier::external_body]
fn parse_query(query: &str) -> (pairs: Vec<(String, String)>)
    ensures
        pairs.deep_view() == query_pairs(query@),
{
    url::form_urlencoded::parse(query.as_bytes()).into_owned().collect()
}

/// The value of the last pair named `token`, if there is one.
pub open spec fn token_in(pairs: Seq<(Seq<char>, Seq<char>)>) -> Option<Seq<char>>
    decreases pairs.len(),
{
    if pairs.len() == 0 {
        None
    } else if pairs.last().0 == "token"@ {
        Some(pairs.last().1)
    } else {
        token_in(pairs.drop_last())
    }
}

/// The value of the last pair named `token`, if there is one.
pub fn find_token(pairs: &Vec<(String, String)>) -> (token: Option<&String>)
    ensures
        text_of_ref(token) == token_in(pairs.deep_view()),
{
    let mut i = pairs.len();
    assert(pairs.deep_view().take(i as int) =~= pairs.deep_view());
    while i > 0
        invariant
            i <= pairs.len(),
            token_in(pairs.deep_view()) == token_in(pairs.deep_view().take(i as int)),
        decreases i,
    {
        i -= 1;
        proof {
            let taken = pairs.deep_view().take(i + 1);
            assert(taken.last() == pairs.deep_view()[i as int]);
            assert(taken.drop_last() =~= pairs.deep_view().take(i as int));
        }
        if str_eq(pairs[i].0.as_str(), "token") {
            return Some(&pairs[i].1);
        }
    }
    None
}

/// The view of an optional borrowed string.
pub open spec fn text_of_ref(text: Option<&String>) -> Option<Seq<char>> {
    match text {
        Some(s) => Some(s@),
        None => None,
    }
}

/// An HTTP response of the endpoint. There are three shapes and no other.
#[derive(Debug)]
pub enum Reply {
    /// Status 400 with the body `Bad request`.
    BadRequest,
    /// Status 401 with the body `Unauthorized`.
    Unauthorized,
    /// Status 200 with the envelope as body.
    Envelope(Response),
}

impl Reply {
    pub open spec fn spec_status(&self) -> u16 {
        match self {
            Reply::BadRequest => 400,
            Reply::Unauthorized => 401,
            Reply::Envelope(_) => 200,
        }
    }

    /// The text of the body.
    pub open spec fn spec_body(&self) -> Seq<char> {
        match self {
            Reply::BadRequest => "Bad request"@,
            Reply::Unauthorized => "Unauthorized"@,
            Reply::Envelope(response) => response@.text(),
        }
    }

    /// The value of the header `Access-Control-Allow-Origin`, which goes out
    /// with every envelope.
    pub open spec fn spec_allow_origin(&self) -> Option<Seq<char>> {
        match self {
            Reply::Envelope(_) => Some("*"@),
            _ => None,
        }
    }

    /// The status code.
    #[verifier::when_used_as_spec(spec_status)]
    pub fn status(&self) -> (status: u16)
        ensures
            status == self.spec_status(),
    {
        match self {
            Reply::BadRequest => 400,
            Reply::Unauthorized => 401,
            Reply::Envelope(_) => 200,
        }
    }

    /// The body.
    pub fn body(&self) -> (body: String)
        ensures
            body@ == self.spec_body(),
    {
        match self {
            Reply::BadRequest => String::from_str("Bad request"),
            Reply::Unauthorized => String::from_str("Unauthorized"),
            Reply::Envelope(response) => response.to_json(),
        }
    }

    /// The value of the header `Access-Control-Allow-Origin`, if it is set.
    pub fn allow_origin(&self) -> (origin: Option<&'static str>)
        ensures
            match origin {
                Some(value) => self.spec_allow_origin() == Some(value@),
                None => self.spec_allow_origin() is None,
            },
    {
        match self {
            Reply::Envelope(_) => Some("*"),
            _ => None,
        }
    }
}

/// The response to a request that is no call of the endpoint.
pub fn bad_request() -> (reply: Reply)
    ensures
        reply == Reply::BadRequest,
{
    Reply::BadRequest
}

/// The response to a token that the cache does not hold.
pub fn unauthorized() -> (reply: Reply)
    ensures
        reply == Reply::Unauthorized,
{
    Reply::Unauthorized
}

/// Where a request stands once verb, path and token are checked.
#[derive(Debug)]
pub enum Admission {
    /// The request is refused with this response; its body is never read.
    Rejected(Reply),
    /// The token stands for this user; the body is read next.
    Admitted(User),
}

/// The three ways in which the first stage ends.
pub enum Gate {
    BadRequest,
    Unauthorized,
    Admitted(UserView),
}

/// The outcome of the first stage. A request is a call of the endpoint when
/// its verb is `POST`, its path `/api` and its query names a token; the call
/// is admitted when the cache holds that token.
pub open spec fn admission(
    verb: Seq<char>,
    path: Seq<char>,
    query: Option<Seq<char>>,
    users: Map<Seq<char>, UserView>,
) -> Gate {
    if verb != "POST"@ || path != "/api"@ {
        Gate::BadRequest
    } else {
        match query {
            None => Gate::BadRequest,
            Some(q) => match token_in(query_pairs(q)) {
                None => Gate::BadRequest,
                Some(token) => if users.contains_key(token) {
                    Gate::Admitted(users[token])
                } else {
                    Gate::Unauthorized
                },
            },
        }
    }
}

/// The view of an optional borrowed string slice.
pub open spec fn query_of(query: Option<&str>) -> Option<Seq<char>> {
    match query {
        Some(q) => Some(q@),
        None => None,
    }
}

/// First stage: checks verb and path, takes the token out of the query and
/// resolves the caller in the cache. No body is needed for it, so none is read
/// for a request that is refused here.
pub fn route(verb: &str, path: &str, query: Option<&str>, cache: &UserCache) -> (res: Admission)
    ensures
        match admission(verb@, path@, query_of(query), cache@) {
            Gate::BadRequest => res == Admission::Rejected(Reply::BadRequest),
            Gate::Unauthorized => res == Admission::Rejected(Reply::Unauthorized),
            Gate::Admitted(user) => res matches Admission::Admitted(u) && u@ == user,
        },
{
    if !str_eq(verb, "POST") || !str_eq(path, "/api") {
        return Admission::Rejected(bad_request());
    }
    let query = match query {
        Some(q) => q,
        None => {
            return Admission::Rejected(bad_request());
        },
    };
    let pairs = parse_query(query);
    let token = match find_token(&pairs) {
        Some(t) => t,
        None => {
            return Admission::Rejected(bad_request());
        },
    };
    match get(cache, token.as_str()) {
        Some(user) => Admission::Admitted(user),
        None => Admission::Rejected(unauthorized()),
    }
}

/// The correlation id of a response: that of the request, the empty text
/// where the request has none.
pub open spec fn echo_id(id: Option<Seq<char>>) -> Seq<char> {
    match id {
        Some(id) => id,
        None => Seq::empty(),
    }
}

/// The error with which a call is answered before any handler runs, if any.
/// The checks come in this order: the access policy, the blocked flag, the
/// registry.
pub open spec fn gate_error(user: UserView, method: Seq<char>, anonym_allowed: bool) -> Option<
    ErrorView,
> {
    if !allowed(method, user.code, anonym_allowed) {
        Some(ErrorView::of(ACCESS_DENIED, None))
    } else if user.blocked && method != "user.logout"@ {
        Some(ErrorView::of(ACCOUNT_BLOCKED, None))
    } else if !is_registered(method) {
        Some(ErrorView::of(METHOD_NOT_FOUND, Some(method)))
    } else {
        None
    }
}

/// Whether the access policy refuses the call.
pub open spec fn denies(user: UserView, method: Seq<char>, anonym_allowed: bool) -> bool {
    gate_error(user, method, anonym_allowed) == Some(ErrorView::of(ACCESS_DENIED, None))
}

/// The envelope that answers a body which does not decode.
pub open spec fn parse_failure_view(reason: Seq<char>) -> ResponseView {
    ResponseView::failure(Seq::empty(), Seq::empty(), ErrorView::of(PARSE_ERROR, Some(reason)))
}

/// A handler to run, with what it is to be run on.
#[derive(Debug)]
pub struct Call {
    /// The correlation id that the response will carry.
    pub id: String,
    pub method: Method,
    pub data: RequestData,
}

/// Where a call stands once its body is decoded.
#[derive(Debug)]
pub enum Dispatch {
    /// The call is answered with this envelope; no handler runs.
    Answer(Response),
    /// The handler of the method is to run.
    Run(Call),
}

impl Dispatch {
    /// Whether this is what the second stage owes a decoded request: the error
    /// that [`gate_error`] names, under the id and the method of the request,
    /// or else the run of the handler registered under the method's name, on
    /// the caller and the parameters of the request.
    pub open spec fn settles(self, user: UserView, req: RequestView, anonym_allowed: bool) -> bool {
        match gate_error(user, req.method, anonym_allowed) {
            Some(error) => self matches Dispatch::Answer(response) && response@
                == ResponseView::failure(echo_id(req.id), req.method, error),
            None => self matches Dispatch::Run(call) && call.id@ == echo_id(req.id) && Some(
                call.method,
            ) == registered(req.method) && call.method.spec_name() == req.method && call.data@
                == (RequestDataView { user, params: req.params }),
        }
    }

    /// Whether this is the answer to a body that does not decode for the
    /// given reason.
    pub open spec fn reports(self, reason: Seq<char>) -> bool {
        self matches Dispatch::Answer(response) && response@ == parse_failure_view(reason)
    }
}

/// The envelope that answers a body which does not decode: `PARSE_ERROR` with
/// the reason as detail, under an empty id and an empty method.
pub fn parse_failure(reason: String) -> (response: Response)
    ensures
        response@ == parse_failure_view(reason@),
{
    let error = Error::new(PARSE_ERROR, Some(reason));
    Response::failure(String::new(), String::new(), json_rpc::Error::from_api_error(&error))
}

fn refusal(id: String, method: String, error: Error) -> (res: Dispatch)
    ensures
        res matches Dispatch::Answer(response) && response@ == ResponseView::failure(
            id@,
            method@,
            error@,
        ),
{
    Dispatch::Answer(Response::failure(id, method, json_rpc::Error::from_api_error(&error)))
}

/// Second stage, for a decoded request: applies the access policy and the
/// blocked flag and looks the method up.
///
/// The call is answered with an error exactly when [`gate_error`] names one.
/// Otherwise the method's handler is to run, on the caller and the parameters
/// of the request.
pub fn exec(user: User, req: Request, anonym_allowed: bool) -> (res: Dispatch)
    ensures
        res.settles(user@, req@, anonym_allowed),
{
    let id = match req.id {
        Some(id) => id,
        None => String::new(),
    };
    let method = req.method;
    if !authorize(method.as_str(), &user.code, anonym_allowed) {
        return refusal(id, method, Error::new(ACCESS_DENIED, None));
    }
    if user.blocked && !str_eq(method.as_str(), "user.logout") {
        return refusal(id, method, Error::new(ACCOUNT_BLOCKED, None));
    }
    match Method::lookup(method.as_str()) {
        Some(handler) => Dispatch::Run(
            Call { id, method: handler, data: RequestData::new(user, req.params) },
        ),
        None => {
            let name = method.clone();
            refusal(id, method, Error::new(METHOD_NOT_FOUND, Some(name)))
        },
    }
}

/// Second stage, for the outcome of decoding: a body that did not decode is
/// answered with [`parse_failure`], a request goes through [`exec`].
pub fn answer_decoded(user: User, decoded: Result<Request, String>, anonym_allowed: bool) -> (res:
    Dispatch)
    ensures
        match decoded {
            Ok(req) => res.settles(user@, req@, anonym_allowed),
            Err(reason) => res.reports(reason@),
        },
{
    match decoded {
        Ok(req) => exec(user, req, anonym_allowed),
        Err(reason) => Dispatch::Answer(parse_failure(reason)),
    }
}

/// Second stage: decodes the body and decides what follows.
///
/// A body that decodes is treated as [`exec`] treats its request. Any other
/// body is answered with `PARSE_ERROR`; the detail is the reason why the
/// document is no envelope or, for a body that is no JSON, the parser's
/// diagnostic.
pub fn dispatch(user: User, body: &[u8], anonym_allowed: bool) -> (res: Dispatch)
    ensures
        match json_parsed(body@) {
            Some(doc) => match envelope_problem(doc) {
                None => res.settles(user@, envelope_request(doc), anonym_allowed),
                Some(problem) => res.reports(problem),
            },
            None => exists|reason: Seq<char>| #[trigger] res.reports(reason),
        },
{
    let decoded = Request::decode(body);
    let ghost reason = match &decoded {
        Err(reason) => reason@,
        Ok(_) => Seq::empty(),
    };
    let res = answer_decoded(user, decoded, anonym_allowed);
    assert(json_parsed(body@) is None ==> res.reports(reason));
    res
}

/// The envelope that ends a call whose handler returned `outcome`. A payload
/// becomes the result, and so does the absence of one, as null. An error of
/// the endpoint is passed on as it is. Of any other failure the caller is
/// told `INTERNAL_SERVER_ERROR` and nothing else.
pub open spec fn concluded(id: Seq<char>, method: Method, outcome: RequestResult) -> ResponseView {
    match outcome {
        Ok(payload) => ResponseView::success(id, method.spec_name(), payload_of(payload)),
        Err(Failure::Domain(error)) => ResponseView::failure(id, method.spec_name(), error@),
        Err(Failure::Other(_)) => ResponseView::failure(
            id,
            method.spec_name(),
            ErrorView::of(INTERNAL_SERVER_ERROR, None),
        ),
    }
}

/// Third stage: the envelope for what the handler returned, and, for a
/// failure that is no error of the endpoint, the diagnostic to log.
pub fn conclude(id: String, method: Method, outcome: RequestResult) -> (res: (
    Response,
    Option<String>,
))
    ensures
        res.0@ == concluded(id@, method, outcome),
        match outcome {
            Err(Failure::Other(diagnostic)) => res.1 == Some(diagnostic),
            _ => res.1 is None,
        },
{
    let name = String::from_str(method.name());
    match outcome {
        Ok(payload) => (Response::success(id, name, payload), None),
        Err(Failure::Domain(error)) => (
            Response::failure(id, name, json_rpc::Error::from_api_error(&error)),
            None,
        ),
        Err(Failure::Other(diagnostic)) => {
            let error = Error::new(INTERNAL_SERVER_ERROR, None);
            (
                Response::failure(id, name, json_rpc::Error::from_api_error(&error)),
                Some(diagnostic),
            )
        },
    }
}

/// Last stage: the HTTP response that carries an envelope.
pub fn emit(response: Response) -> (reply: Reply)
    ensures
        reply == Reply::Envelope(response),
        reply.spec_status() == 200,
        reply.spec_body() == response@.text(),
        reply.spec_allow_origin() == Some("*"@),
{
    Reply::Envelope(response)
}

/// A line of the log for a request or a response: the tag, the address of
/// the peer, the caller and the raw body.
pub open spec fn log_text(
    tag: Seq<char>,
    ip: Seq<char>,
    user_id: Id,
    user_name: Seq<char>,
    body: Seq<char>,
) -> Seq<char> {
    "["@ + tag + "] "@ + ip + " ("@ + decimal(user_id as int) + ": "@ + user_name + ") "@ + body
}

fn log_line(tag: &str, ip: &str, user_id: Id, user_name: &str, body: &str) -> (line: String)
    ensures
        line@ == log_text(tag@, ip@, user_id, user_name@, body@),
{
    let mut line = String::from_str("[");
    line.append(tag);
    line.append("] ");
    line.append(ip);
    line.append(" (");
    let id = i64_to_decimal(user_id as i64);
    line.append(id.as_str());
    line.append(": ");
    line.append(user_name);
    line.append(") ");
    line.append(body);
    line
}

/// The line that records a request: `[REQUEST] <ip> (<user id>: <user name>) <body>`.
pub fn request_line(ip: &str, user_id: Id, user_name: &str, body: &str) -> (line: String)
    ensures
        line@ == log_text("REQUEST"@, ip@, user_id, user_name@, body@),
{
    log_line("REQUEST", ip, user_id, user_name, body)
}

/// The line that records a response: `[RESPONSE] <ip> (<user id>: <user name>) <body>`.
pub fn response_line(ip: &str, user_id: Id, user_name: &str, body: &str) -> (line: String)
    ensures
        line@ == log_text("RESPONSE"@, ip@, user_id, user_name@, body@),
{
    log_line("RESPONSE", ip, user_id, user_name, body)
}

/// The envelope with which a decoded call ends: the error of the second
/// stage, if it names one, or else what the handler's outcome comes to.
pub open spec fn answer(
    user: UserView,
    req: RequestView,
    anonym_allowed: bool,
    method: Method,
    outcome: RequestResult,
) -> ResponseView {
    match gate_error(user, req.method, anonym_allowed) {
        Some(error) => ResponseView::failure(echo_id(req.id), req.method, error),
        None => concluded(echo_id(req.id), method, outcome),
    }
}

/// Every HTTP response of the router is 400 with the body `Bad request`, 401
/// with the body `Unauthorized`, or 200 with an envelope as body.
pub proof fn lemma_three_shapes(reply: Reply)
    ensures
        ({
            ||| reply.spec_status() == 400 && reply.spec_body() == "Bad request"@
            ||| reply.spec_status() == 401 && reply.spec_body() == "Unauthorized"@
            ||| reply.spec_status() == 200 && exists|response: Response|
                #![trigger response@]
                response@.well_formed() && reply.spec_body() == response@.text()
        }),
{
    match reply {
        Reply::Envelope(response) => {
            crate::json_rpc::response::lemma_exactly_one_outcome(response);
            assert(response@.well_formed() && reply.spec_body() == response@.text());
        },
        _ => {},
    }
}

/// The response carries the id of the request, and the empty id where the
/// request has none; it carries the method of the request too. This holds
/// whatever the handler returns.
pub proof fn lemma_id_is_echoed(
    user: UserView,
    req: RequestView,
    anonym_allowed: bool,
    method: Method,
    outcome: RequestResult,
)
    requires
        method.spec_name() == req.method,
    ensures
        req.id matches Some(id) ==> answer(user, req, anonym_allowed, method, outcome).id == id,
        req.id is None ==> answer(user, req, anonym_allowed, method, outcome).id
            == Seq::<char>::empty(),
        answer(user, req, anonym_allowed, method, outcome).method == req.method,
        answer(user, req, anonym_allowed, method, outcome).well_formed(),
{
}

/// The router refuses a call for want of rights exactly when the caller's
/// rank is below that of the role which the method asks for.
pub proof fn lemma_denies_iff_rank_too_low(user: UserView, method: Seq<char>, anonym_allowed: bool)
    ensures
        denies(user, method, anonym_allowed) <==> crate::api::authorizer::rank(user.code)
            < crate::api::authorizer::rank(
            crate::api::authorizer::required_role(method, anonym_allowed),
        ),
{
}

/// A blocked caller who has the rights for a method other than `user.logout`
/// is answered with `ACCOUNT_BLOCKED`, and no handler runs.
pub proof fn lemma_blocked_caller_is_refused(
    user: UserView,
    req: RequestView,
    anonym_allowed: bool,
    method: Method,
    outcome: RequestResult,
)
    requires
        user.blocked,
        req.method != "user.logout"@,
        allowed(req.method, user.code, anonym_allowed),
    ensures
        gate_error(user, req.method, anonym_allowed) == Some(
            ErrorView::of(ACCOUNT_BLOCKED, None),
        ),
        answer(user, req, anonym_allowed, method, outcome) == ResponseView::failure(
            echo_id(req.id),
            req.method,
            ErrorView::of(ACCOUNT_BLOCKED, None),
        ),
{
}

/// A call whose token the cache does not hold is answered with 401, before
/// any body is read: the first stage decides on verb, path, query and cache
/// alone.
pub proof fn lemma_unknown_token_is_unauthorized(
    query: Seq<char>,
    token: Seq<char>,
    users: Map<Seq<char>, UserView>,
)
    requires
        token_in(query_pairs(query)) == Some(token),
        !users.contains_key(token),
    ensures
        admission("POST"@, "/api"@, Some(query), users) == Gate::Unauthorized,
{
}

/// A method that the registry does not hold is answered in the envelope, with
/// `METHOD_NOT_FOUND` and the name as detail, provided that the caller passes
/// the access policy and the blocked flag.
pub proof fn lemma_unknown_method_is_reported(
    user: UserView,
    method: Seq<char>,
    anonym_allowed: bool,
)
    requires
        !is_registered(method),
        allowed(method, user.code, anonym_allowed),
        !user.blocked,
    ensures
        gate_error(user, method, anonym_allowed) == Some(
            ErrorView::of(METHOD_NOT_FOUND, Some(method)),
        ),
{
}

} // verus!
