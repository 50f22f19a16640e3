use ocean::api::error::{
    known_code, message_of, Error, Failure, ACCESS_DENIED, ACCOUNT_BLOCKED, CONTROLLER_NOT_FOUND,
    INTERNAL_SERVER_ERROR, INVALID_PARAMETER, METHOD_NOT_FOUND, NEXT_ID_EXPIRED,
    PARAMETER_NOT_FOUND, PARSE_ERROR, RECORD_NOT_FOUND, WRONG_USER_PASSWORD,
};
use ocean::api::{make_error, make_error_data};
use ocean::controller;
use ocean::json_rpc;

#[test]
fn every_kind_has_its_code_and_message() {
    let table = [
        (PARSE_ERROR, 1, "Parse error"),
        (CONTROLLER_NOT_FOUND, 2, "Controller not found"),
        (METHOD_NOT_FOUND, 3, "Method not found"),
        (PARAMETER_NOT_FOUND, 4, "Parameter not found"),
        (INTERNAL_SERVER_ERROR, 5, "Internal server error"),
        (INVALID_PARAMETER, 6, "Invalid parameter"),
        (RECORD_NOT_FOUND, 7, "Record not found"),
        (WRONG_USER_PASSWORD, 100, "Wrong user password"),
        (NEXT_ID_EXPIRED, 101, "Next id expired"),
        (ACCOUNT_BLOCKED, 102, "Account blocked"),
        (ACCESS_DENIED, 103, "Access denied"),
    ];
    for (code, number, message) in table {
        assert_eq!(code, number);
        assert!(known_code(code));
        assert_eq!(message_of(code), Some(message));
        let error = Error::new(code, None);
        assert_eq!(error.code(), number);
        assert_eq!(error.message(), message);
        assert_eq!(error.data(), None);
    }
}

#[test]
fn other_numbers_name_no_kind() {
    for code in [0, -1, 8, 9, 99, 104, 1000, i32::MIN, i32::MAX] {
        assert!(!known_code(code));
        assert_eq!(message_of(code), None);
        assert!(Error::checked(code, None).is_none());
    }
    assert!(Error::checked(7, None).is_some());
    assert!(Error::checked(100, Some("x".to_string())).is_some());
}

#[test]
fn error_keeps_its_data() {
    let error = Error::new(METHOD_NOT_FOUND, Some("nope.none".to_string()));
    assert_eq!(error.data(), Some("nope.none".to_string()));
    let copy = error.clone();
    assert_eq!(copy.code(), 3);
    assert_eq!(copy.message(), "Method not found");
    assert_eq!(copy.data(), Some("nope.none".to_string()));
}

#[test]
fn error_describes_itself() {
    assert_eq!(
        Error::new(ACCESS_DENIED, None).to_text(),
        "API error: code: 103, message: Access denied"
    );
    assert_eq!(
        Error::new(PARSE_ERROR, Some("x".to_string())).to_text(),
        "API error: code: 1, message: Parse error"
    );
}

#[test]
fn make_error_gives_a_domain_failure() {
    match make_error(RECORD_NOT_FOUND) {
        Failure::Domain(e) => {
            assert_eq!(e.code(), 7);
            assert_eq!(e.message(), "Record not found");
            assert_eq!(e.data(), None);
        }
        Failure::Other(_) => panic!("other"),
    }
    match make_error_data(INVALID_PARAMETER, "id".to_string()) {
        Failure::Domain(e) => {
            assert_eq!(e.code(), 6);
            assert_eq!(e.data(), Some("id".to_string()));
        }
        Failure::Other(_) => panic!("other"),
    }
}

#[test]
fn wire_error_copies_the_api_error() {
    let error = Error::new(NEXT_ID_EXPIRED, Some("12".to_string()));
    let wire = json_rpc::Error::from_api_error(&error);
    assert_eq!(wire.code, 101);
    assert_eq!(wire.message, "Next id expired");
    assert_eq!(wire.data, Some("12".to_string()));
    assert_eq!(
        wire.to_json(),
        "{\"code\":101,\"message\":\"Next id expired\",\"data\":\"12\"}"
    );
    let plain = json_rpc::Error::new(-5, "a \"b\"\n".to_string(), None);
    assert_eq!(plain.to_json(), "{\"code\":-5,\"message\":\"a \\\"b\\\"\\n\"}");
}

#[test]
fn controller_error_is_an_other_failure() {
    let error = controller::Error::new("Parameters is absent".to_string());
    assert_eq!(error.to_text(), "Controller error: Parameters is absent");
    match error.into_failure() {
        Failure::Other(text) => assert_eq!(text, "Controller error: Parameters is absent"),
        Failure::Domain(_) => panic!("domain"),
    }
    match controller::invalid_parameter("missing field `id`".to_string()) {
        Failure::Domain(e) => {
            assert_eq!(e.code(), 6);
            assert_eq!(e.message(), "Invalid parameter");
            assert_eq!(e.data(), Some("missing field `id`".to_string()));
        }
        Failure::Other(_) => panic!("other"),
    }
}
