use ocean::api::error::{make_error, make_error_data, Failure, RECORD_NOT_FOUND};
use ocean::api::registry::Method;
use ocean::api::router::{
    bad_request, conclude, dispatch, emit, exec, find_token, request_line, response_line, route,
    unauthorized, Admission, Dispatch, Reply,
};
use ocean::api::user_cache;
use ocean::api::user_cache::UserCache;
use ocean::json_rpc::Request;
use ocean::types::{User, UserCode};

fn user(code: UserCode, blocked: bool) -> User {
    User { id: 7, code, name: "Alice".to_string(), blocked }
}

fn cache_with(token: &str, user: User) -> UserCache {
    let mut cache = UserCache::new();
    user_cache::set(&mut cache, token, user);
    cache
}

fn answer(dispatch: Dispatch) -> String {
    match dispatch {
        Dispatch::Answer(response) => response.to_json(),
        Dispatch::Run(call) => panic!("handler {:?} would run", call.method),
    }
}

#[test]
fn path_wrong_is_bad_request() {
    let cache = cache_with("T", user(UserCode::User, false));
    match route("GET", "/other", Some("token=T"), &cache) {
        Admission::Rejected(reply) => {
            assert_eq!(reply.status(), 400);
            assert_eq!(reply.body(), "Bad request");
            assert_eq!(reply.allow_origin(), None);
        }
        Admission::Admitted(_) => panic!("admitted"),
    }
}

#[test]
fn verb_wrong_is_bad_request() {
    let cache = cache_with("T", user(UserCode::User, false));
    assert!(matches!(
        route("GET", "/api", Some("token=T"), &cache),
        Admission::Rejected(Reply::BadRequest)
    ));
    assert!(matches!(
        route("POST", "/api/", Some("token=T"), &cache),
        Admission::Rejected(Reply::BadRequest)
    ));
}

#[test]
fn missing_token_is_bad_request() {
    let cache = cache_with("T", user(UserCode::User, false));
    assert!(matches!(route("POST", "/api", None, &cache), Admission::Rejected(Reply::BadRequest)));
    assert!(matches!(
        route("POST", "/api", Some("tok=T&x=1"), &cache),
        Admission::Rejected(Reply::BadRequest)
    ));
    assert!(matches!(
        route("POST", "/api", Some(""), &cache),
        Admission::Rejected(Reply::BadRequest)
    ));
}

#[test]
fn unknown_token_is_unauthorized() {
    let cache = UserCache::new();
    match route("POST", "/api", Some("token=zzz"), &cache) {
        Admission::Rejected(reply) => {
            assert_eq!(reply.status(), 401);
            assert_eq!(reply.body(), "Unauthorized");
        }
        Admission::Admitted(_) => panic!("admitted"),
    }
}

#[test]
fn known_token_is_admitted() {
    let cache = cache_with("T", user(UserCode::Admin, true));
    match route("POST", "/api", Some("a=b&token=T"), &cache) {
        Admission::Admitted(u) => {
            assert_eq!(u.id, 7);
            assert_eq!(u.code, UserCode::Admin);
            assert_eq!(u.name, "Alice");
            assert!(u.blocked);
        }
        Admission::Rejected(_) => panic!("rejected"),
    }
}

#[test]
fn token_is_percent_decoded() {
    let cache = cache_with("a b/c", user(UserCode::User, false));
    assert!(matches!(
        route("POST", "/api", Some("token=a+b%2Fc"), &cache),
        Admission::Admitted(_)
    ));
    assert!(matches!(
        route("POST", "/api", Some("token=a+b%2fc"), &cache),
        Admission::Admitted(_)
    ));
    assert!(matches!(
        route("POST", "/api", Some("token=a%20b/c"), &cache),
        Admission::Admitted(_)
    ));
}

#[test]
fn last_token_wins() {
    let pairs = vec![
        ("token".to_string(), "first".to_string()),
        ("x".to_string(), "y".to_string()),
        ("token".to_string(), "second".to_string()),
        ("z".to_string(), "token".to_string()),
    ];
    assert_eq!(find_token(&pairs), Some(&"second".to_string()));
    assert_eq!(find_token(&Vec::new()), None);
    let cache = cache_with("second", user(UserCode::User, false));
    assert!(matches!(
        route("POST", "/api", Some("token=first&token=second"), &cache),
        Admission::Admitted(_)
    ));
    assert!(matches!(
        route("POST", "/api", Some("token=second&token=first"), &cache),
        Admission::Rejected(Reply::Unauthorized)
    ));
}

#[test]
fn parse_failure_is_reported_in_envelope() {
    let text = answer(dispatch(user(UserCode::User, false), b"{notjson", false));
    let head = "{\"id\":\"\",\"method\":\"\",\"error\":{\"code\":1,\"message\":\"Parse error\",\"data\":\"";
    assert!(text.starts_with(head), "{}", text);
    assert!(text.ends_with("\"}}"));
    assert!(text.len() > head.len() + 3);
    assert_eq!(
        text,
        "{\"id\":\"\",\"method\":\"\",\"error\":{\"code\":1,\"message\":\"Parse error\",\"data\":\"key must be a string at line 1 column 2\"}}"
    );
}

#[test]
fn envelope_without_method_is_parse_failure() {
    let text = answer(dispatch(user(UserCode::User, false), b"{\"id\":\"1\"}", false));
    assert_eq!(
        text,
        "{\"id\":\"\",\"method\":\"\",\"error\":{\"code\":1,\"message\":\"Parse error\",\"data\":\"missing field `method`\"}}"
    );
    let text = answer(dispatch(user(UserCode::User, false), b"[1,2]", false));
    assert_eq!(
        text,
        "{\"id\":\"\",\"method\":\"\",\"error\":{\"code\":1,\"message\":\"Parse error\",\"data\":\"invalid type: expected a JSON object\"}}"
    );
    let text = answer(dispatch(user(UserCode::User, false), b"{\"id\":1,\"method\":\"ping\"}", false));
    assert_eq!(
        text,
        "{\"id\":\"\",\"method\":\"\",\"error\":{\"code\":1,\"message\":\"Parse error\",\"data\":\"invalid type: field `id` is not a string\"}}"
    );
    let text = answer(dispatch(user(UserCode::User, false), b"{\"method\":5}", false));
    assert_eq!(
        text,
        "{\"id\":\"\",\"method\":\"\",\"error\":{\"code\":1,\"message\":\"Parse error\",\"data\":\"invalid type: field `method` is not a string\"}}"
    );
}

#[test]
fn empty_method_is_parse_failure() {
    let text = answer(dispatch(user(UserCode::User, false), b"{\"id\":\"1\",\"method\":\"\"}", false));
    assert_eq!(
        text,
        "{\"id\":\"\",\"method\":\"\",\"error\":{\"code\":1,\"message\":\"Parse error\",\"data\":\"invalid value: field `method` is empty\"}}"
    );
}

#[test]
fn method_not_found_is_reported_in_envelope() {
    let body = b"{\"id\":\"7\",\"method\":\"nope.none\"}";
    let text = answer(dispatch(user(UserCode::User, false), body, false));
    assert_eq!(
        text,
        "{\"id\":\"7\",\"method\":\"nope.none\",\"error\":{\"code\":3,\"message\":\"Method not found\",\"data\":\"nope.none\"}}"
    );
}

#[test]
fn access_denied_is_reported_in_envelope() {
    let body = b"{\"id\":\"1\",\"method\":\"mandela.delete\",\"params\":{\"id\":[5]}}";
    let text = answer(dispatch(user(UserCode::Anonym, false), body, false));
    assert_eq!(
        text,
        "{\"id\":\"1\",\"method\":\"mandela.delete\",\"error\":{\"code\":103,\"message\":\"Access denied\"}}"
    );
}

#[test]
fn blocked_user_is_refused() {
    let body =
        b"{\"id\":\"1\",\"method\":\"comment.create\",\"params\":{\"mandela_id\":1,\"message\":\"hi\"}}";
    match dispatch(user(UserCode::User, true), body, false) {
        Dispatch::Answer(response) => {
            let error = response.error().expect("an error");
            assert_eq!(error.code, 102);
            assert_eq!(error.message, "Account blocked");
            assert_eq!(error.data, None);
            assert!(response.result().is_none());
            assert_eq!(
                response.to_json(),
                "{\"id\":\"1\",\"method\":\"comment.create\",\"error\":{\"code\":102,\"message\":\"Account blocked\"}}"
            );
        }
        Dispatch::Run(_) => panic!("a handler would run"),
    }
}

#[test]
fn blocked_user_may_log_out() {
    let body = b"{\"id\":\"1\",\"method\":\"user.logout\"}";
    match dispatch(user(UserCode::User, true), body, false) {
        Dispatch::Run(call) => assert_eq!(call.method, Method::UserLogout),
        Dispatch::Answer(response) => panic!("{}", response.to_json()),
    }
}

#[test]
fn blocked_user_without_rights_is_denied_first() {
    let body = b"{\"id\":\"1\",\"method\":\"mandela.delete\"}";
    let text = answer(dispatch(user(UserCode::Anonym, true), body, false));
    assert_eq!(
        text,
        "{\"id\":\"1\",\"method\":\"mandela.delete\",\"error\":{\"code\":103,\"message\":\"Access denied\"}}"
    );
}

#[test]
fn happy_path_ping() {
    let body = b"{\"id\":\"9\",\"method\":\"ping\"}";
    match dispatch(user(UserCode::User, false), body, false) {
        Dispatch::Run(call) => {
            assert_eq!(call.method, Method::Ping);
            assert_eq!(call.id, "9");
            assert_eq!(call.data.user().id, 7);
            assert!(call.data.params().is_err());
            let (response, diagnostic) = conclude(call.id, call.method, Ok(None));
            assert!(diagnostic.is_none());
            let reply = emit(response);
            assert_eq!(reply.status(), 200);
            assert_eq!(reply.allow_origin(), Some("*"));
            assert_eq!(reply.body(), "{\"id\":\"9\",\"method\":\"ping\",\"result\":null}");
        }
        Dispatch::Answer(response) => panic!("{}", response.to_json()),
    }
}

#[test]
fn missing_id_is_echoed_as_empty() {
    let body = b"{\"method\":\"ping\"}";
    match dispatch(user(UserCode::User, false), body, false) {
        Dispatch::Run(call) => {
            assert_eq!(call.id, "");
            let (response, _) = conclude(call.id, call.method, Ok(None));
            assert_eq!(response.id(), "");
            assert_eq!(response.to_json(), "{\"id\":\"\",\"method\":\"ping\",\"result\":null}");
        }
        Dispatch::Answer(response) => panic!("{}", response.to_json()),
    }
    let body = b"{\"id\":null,\"method\":\"nope\"}";
    let text = answer(dispatch(user(UserCode::User, false), body, false));
    assert!(text.starts_with("{\"id\":\"\",\"method\":\"nope\","));
}

#[test]
fn params_reach_the_handler() {
    let body = b"{\"id\":\"2\",\"method\":\"mandela.getOne\",\"params\":{\"id\":5}}";
    match dispatch(user(UserCode::Anonym, false), body, false) {
        Dispatch::Run(call) => {
            assert_eq!(call.method, Method::MandelaGetOne);
            let params = call.data.params().expect("params");
            assert_eq!(params.get("id").and_then(|v| v.as_i64()), Some(5));
        }
        Dispatch::Answer(response) => panic!("{}", response.to_json()),
    }
    let body = b"{\"id\":\"2\",\"method\":\"mandela.getOne\",\"params\":null}";
    match dispatch(user(UserCode::Anonym, false), body, false) {
        Dispatch::Run(call) => match call.data.params() {
            Err(Failure::Domain(e)) => {
                assert_eq!(e.code(), 4);
                assert_eq!(e.message(), "Parameter not found");
            }
            _ => panic!("params"),
        },
        Dispatch::Answer(response) => panic!("{}", response.to_json()),
    }
}

#[test]
fn handler_payload_becomes_result() {
    let payload: serde_json::Value = serde_json::from_str("{\"b\":[1,\"x\"],\"a\":null}").unwrap();
    let (response, diagnostic) =
        conclude("5".to_string(), Method::MandelaGetAll, Ok(Some(payload)));
    assert!(diagnostic.is_none());
    assert!(response.error().is_none());
    assert!(response.result().is_some());
    assert_eq!(
        response.to_json(),
        "{\"id\":\"5\",\"method\":\"mandela.getAll\",\"result\":{\"a\":null,\"b\":[1,\"x\"]}}"
    );
}

#[test]
fn domain_error_is_passed_on() {
    let (response, diagnostic) =
        conclude("5".to_string(), Method::UserGetOne, Err(make_error(RECORD_NOT_FOUND)));
    assert!(diagnostic.is_none());
    assert_eq!(
        response.to_json(),
        "{\"id\":\"5\",\"method\":\"user.getOne\",\"error\":{\"code\":7,\"message\":\"Record not found\"}}"
    );
    let (response, _) = conclude(
        "5".to_string(),
        Method::UserGetOne,
        Err(make_error_data(RECORD_NOT_FOUND, "user \"9\"".to_string())),
    );
    assert_eq!(
        response.to_json(),
        "{\"id\":\"5\",\"method\":\"user.getOne\",\"error\":{\"code\":7,\"message\":\"Record not found\",\"data\":\"user \\\"9\\\"\"}}"
    );
}

#[test]
fn other_failure_does_not_leak() {
    let secret = "connection to 10.0.0.3 refused".to_string();
    let (response, diagnostic) =
        conclude("5".to_string(), Method::FeedGetAll, Err(Failure::Other(secret.clone())));
    assert_eq!(diagnostic, Some(secret));
    assert_eq!(
        response.to_json(),
        "{\"id\":\"5\",\"method\":\"feed.getAll\",\"error\":{\"code\":5,\"message\":\"Internal server error\"}}"
    );
}

#[test]
fn anonym_may_create_when_allowed() {
    let req = || Request {
        id: Some("1".to_string()),
        method: "forum.post.create".to_string(),
        params: None,
    };
    assert!(matches!(exec(user(UserCode::Anonym, false), req(), true), Dispatch::Run(_)));
    match exec(user(UserCode::Anonym, false), req(), false) {
        Dispatch::Answer(response) => assert_eq!(response.error().unwrap().code, 103),
        Dispatch::Run(_) => panic!("a handler would run"),
    }
    assert!(matches!(exec(user(UserCode::User, false), req(), false), Dispatch::Run(_)));
}

#[test]
fn replies_have_three_shapes() {
    let bad = bad_request();
    assert_eq!((bad.status(), bad.body().as_str()), (400, "Bad request"));
    let unauthorized = unauthorized();
    assert_eq!((unauthorized.status(), unauthorized.body().as_str()), (401, "Unauthorized"));
    let (response, _) = conclude("1".to_string(), Method::Ping, Ok(None));
    let ok = emit(response);
    assert_eq!(ok.status(), 200);
    let parsed: serde_json::Value = serde_json::from_str(&ok.body()).unwrap();
    assert!(parsed.is_object());
}

#[test]
fn every_method_is_found_under_its_name() {
    let names = [
        "ping", "mandela.create", "mandela.update", "mandela.getOne", "mandela.getAll",
        "mandela.delete", "mandela.mark", "mandela.vote", "mandela.getVoteUsers",
        "mandela.updateTrash", "user.getNextId", "user.create", "user.delete", "user.auth",
        "user.logout", "user.getOne", "user.update", "user.updateToken", "user.updateProfile",
        "comment.create", "comment.getAll", "comment.update", "comment.delete", "like.create",
        "like.delete", "like.getUsers", "search.getAll", "rating.getMandels", "rating.getUsers",
        "forum.getAll", "forum.getNew", "forum.category.create", "forum.category.getOne",
        "forum.category.update", "forum.category.delete", "forum.section.create",
        "forum.section.getAll", "forum.section.getOne", "forum.section.update",
        "forum.section.delete", "forum.topic.getAll", "forum.topic.getOne", "forum.topic.create",
        "forum.topic.update", "forum.topic.delete", "forum.topic.vote",
        "forum.topic.getVoteUsers", "forum.post.getAll", "forum.post.getOne",
        "forum.post.create", "forum.post.update", "forum.post.delete", "activity.getAll",
        "feed.getAll",
    ];
    assert_eq!(names.len(), 54);
    let mut seen = Vec::new();
    for name in names {
        let method = Method::lookup(name).expect(name);
        assert_eq!(method.name(), name);
        assert!(!seen.contains(&method));
        seen.push(method);
    }
    assert_eq!(Method::lookup("search.getByContent"), None);
    assert_eq!(Method::lookup(""), None);
    assert_eq!(Method::lookup("Ping"), None);
    assert_eq!(Method::lookup("ping "), None);
}

#[test]
fn log_lines() {
    assert_eq!(
        request_line("10.0.0.7", 42, "Ann", "{\"method\":\"ping\"}"),
        "[REQUEST] 10.0.0.7 (42: Ann) {\"method\":\"ping\"}"
    );
    assert_eq!(
        response_line("::1", -1, "", "{}"),
        "[RESPONSE] ::1 (-1: ) {}"
    );
}
