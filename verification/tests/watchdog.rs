use ocean::api::router::{conclude, dispatch, Dispatch};
use ocean::api::registry::Method;
use ocean::types::{User, UserCode};
use ocean::watchdog::{judge, probe_request, probe_url, Verdict, PERIOD_SECS};

#[test]
fn probe_goes_to_the_loopback_endpoint() {
    assert_eq!(PERIOD_SECS, 60);
    assert_eq!(probe_url(8443, "anon"), "https://localhost:8443/api?token=anon");
    assert_eq!(probe_url(443, "t-1"), "https://localhost:443/api?token=t-1");
    assert_eq!(probe_url(0, ""), "https://localhost:0/api?token=");
    assert_eq!(probe_url(65535, "x"), "https://localhost:65535/api?token=x");
}

#[test]
fn probe_is_a_ping() {
    let request = probe_request();
    assert_eq!(request.id, Some("1".to_string()));
    assert_eq!(request.method, "ping");
    assert!(request.params.is_none());
    assert_eq!(request.to_json(), "{\"id\":\"1\",\"method\":\"ping\",\"params\":null}");
}

#[test]
fn probe_is_answered_by_the_router() {
    let anonym = User { id: 0, code: UserCode::Anonym, name: "anonym".to_string(), blocked: false };
    let body = probe_request().to_json();
    match dispatch(anonym, body.as_bytes(), false) {
        Dispatch::Run(call) => {
            assert_eq!(call.method, Method::Ping);
            let (response, _) = conclude(call.id, call.method, Ok(None));
            assert_eq!(response.to_json(), "{\"id\":\"1\",\"method\":\"ping\",\"result\":null}");
        }
        Dispatch::Answer(response) => panic!("{}", response.to_json()),
    }
}

#[test]
fn undelivered_probe_ends_the_process() {
    assert_eq!(judge(true), Verdict::Alive);
    assert_eq!(judge(false), Verdict::Terminate);
}
