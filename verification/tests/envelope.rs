use ocean::json_rpc::value::quote;
use ocean::json_rpc::{Error, Request, Response};

#[test]
fn request_decodes_with_all_fields() {
    let request =
        Request::decode(b" {\"id\":\"a\",\"method\":\"forum.topic.create\",\"params\":[1,{\"x\":null}],\"extra\":true} ")
            .unwrap();
    assert_eq!(request.id, Some("a".to_string()));
    assert_eq!(request.method, "forum.topic.create");
    assert_eq!(request.params, Some(serde_json::from_str("[1,{\"x\":null}]").unwrap()));
}

#[test]
fn null_id_and_null_params_count_as_absent() {
    let request = Request::decode(b"{\"id\":null,\"method\":\"ping\",\"params\":null}").unwrap();
    assert_eq!(request.id, None);
    assert_eq!(request.method, "ping");
    assert_eq!(request.params, None);
    let bare = Request::decode(b"{\"method\":\"m\"}").unwrap();
    assert_eq!((bare.id, bare.method.as_str(), bare.params), (None, "m", None));
}

#[test]
fn params_may_be_any_value() {
    for text in ["0", "false", "\"s\"", "[]", "{}", "1.5e3"] {
        let body = format!("{{\"method\":\"m\",\"params\":{}}}", text);
        let request = Request::decode(body.as_bytes()).unwrap();
        assert_eq!(request.params, Some(serde_json::from_str(text).unwrap()));
    }
}

#[test]
fn last_duplicate_key_wins() {
    let request = Request::decode(b"{\"method\":\"a\",\"method\":\"b\"}").unwrap();
    assert_eq!(request.method, "b");
}

#[test]
fn bodies_that_do_not_decode() {
    let cases: [(&[u8], &str); 10] = [
        (b"{\"id\":\"1\",\"method\":\"\"}", "invalid value: field `method` is empty"),
        (b"", "EOF while parsing a value at line 1 column 0"),
        (b"{", "EOF while parsing an object at line 1 column 1"),
        (b"{\"method\":\"ping\"} x", "trailing characters at line 1 column 19"),
        (b"nil", "expected ident at line 1 column 2"),
        (b"\"ping\"", "invalid type: expected a JSON object"),
        (b"null", "invalid type: expected a JSON object"),
        (b"{}", "missing field `method`"),
        (b"{\"method\":null}", "invalid type: field `method` is not a string"),
        (b"{\"id\":[],\"method\":\"ping\"}", "invalid type: field `id` is not a string"),
    ];
    for (body, reason) in cases {
        assert_eq!(Request::decode(body).err(), Some(reason.to_string()));
    }
    assert!(Request::decode(&[0xff, 0xfe]).is_err());
}

#[test]
fn from_value_reads_a_parsed_document() {
    let doc: serde_json::Value = serde_json::from_str("{\"id\":\"1\",\"method\":\"ping\"}").unwrap();
    let request = Request::from_value(&doc).unwrap();
    assert_eq!((request.id, request.method.as_str()), (Some("1".to_string()), "ping"));
    let list: serde_json::Value = serde_json::from_str("[\"1\",\"ping\",null]").unwrap();
    assert_eq!(
        Request::from_value(&list).err(),
        Some("invalid type: expected a JSON object".to_string())
    );
    let id_wins: serde_json::Value = serde_json::from_str("{\"id\":1}").unwrap();
    assert_eq!(
        Request::from_value(&id_wins).err(),
        Some("invalid type: field `id` is not a string".to_string())
    );
}

#[test]
fn request_text() {
    let request = Request {
        id: None,
        method: "a\"b".to_string(),
        params: Some(serde_json::from_str("{\"k\":[1,2]}").unwrap()),
    };
    assert_eq!(request.to_json(), "{\"id\":null,\"method\":\"a\\\"b\",\"params\":{\"k\":[1,2]}}");
    let back = Request::decode(request.to_json().as_bytes()).unwrap();
    assert_eq!((back.id, back.method, back.params), (request.id, request.method, request.params));
}

#[test]
fn response_has_exactly_one_outcome() {
    let ok = Response::success("1".to_string(), "ping".to_string(), None);
    assert!(ok.result().is_some());
    assert!(ok.error().is_none());
    assert!(ok.result().unwrap().is_null());
    let payload = Response::success("1".to_string(), "m".to_string(), Some(serde_json::Value::from(3)));
    assert_eq!(payload.result(), Some(&serde_json::Value::from(3)));
    assert!(payload.error().is_none());
    let failed = Response::failure(
        "1".to_string(),
        "m".to_string(),
        Error::new(7, "Record not found".to_string(), None),
    );
    assert!(failed.result().is_none());
    assert_eq!(failed.error().unwrap().code, 7);
}

#[test]
fn response_text_has_one_of_result_and_error() {
    let ok = Response::success("i".to_string(), "m".to_string(), Some(serde_json::Value::from("v")));
    assert_eq!(ok.id(), "i");
    assert_eq!(ok.method(), "m");
    assert_eq!(ok.to_json(), "{\"id\":\"i\",\"method\":\"m\",\"result\":\"v\"}");
    let parsed: serde_json::Value = serde_json::from_str(&ok.to_json()).unwrap();
    assert!(parsed.get("result").is_some() && parsed.get("error").is_none());
    let failed = Response::failure(
        "i".to_string(),
        "m".to_string(),
        Error::new(5, "Internal server error".to_string(), None),
    );
    assert_eq!(
        failed.to_json(),
        "{\"id\":\"i\",\"method\":\"m\",\"error\":{\"code\":5,\"message\":\"Internal server error\"}}"
    );
    let parsed: serde_json::Value = serde_json::from_str(&failed.to_json()).unwrap();
    assert!(parsed.get("result").is_none() && parsed.get("error").is_some());
    assert!(parsed["error"].get("data").is_none());
}

#[test]
fn texts_are_quoted_and_escaped() {
    assert_eq!(quote(""), "\"\"");
    assert_eq!(quote("ping"), "\"ping\"");
    assert_eq!(quote("a\"b\\c"), "\"a\\\"b\\\\c\"");
    assert_eq!(quote("line\nbreak\ttab"), "\"line\\nbreak\\ttab\"");
    assert_eq!(quote("\u{1}"), "\"\\u0001\"");
    assert_eq!(quote("мандела"), "\"мандела\"");
    let weird = Response::success("\"".to_string(), "\\".to_string(), None);
    let parsed: serde_json::Value = serde_json::from_str(&weird.to_json()).unwrap();
    assert_eq!(parsed["id"], "\"");
    assert_eq!(parsed["method"], "\\");
}
