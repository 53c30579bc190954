use clash_forge::api::errors::{
    default_message, default_reason, unspecified_reason, ApiError, ApiErrorResponse, JsonMember,
};

fn body(reason: Option<&str>, message: Option<&str>) -> Option<ApiErrorResponse> {
    Some(ApiErrorResponse {
        reason: reason.map(|r| r.to_string()),
        message: message.map(|m| m.to_string()),
    })
}

#[test]
fn body_fields_override_the_defaults_for_every_status() {
    for status_code in 400u16..600 {
        let error = ApiError::from_decoded(status_code, body(Some("x"), Some("y")));
        assert_eq!(error.status_code, status_code);
        assert_eq!(error.reason, "x");
        assert_eq!(error.message, "y");
    }
}

#[test]
fn not_found_without_a_body() {
    let error = ApiError::from_decoded(404, None);
    assert_eq!(error.status_code, 404);
    assert_eq!(error.reason, "notFound");
    assert_eq!(error.message, "Resource was not found.");
    assert!(!error.message.is_empty());
}

#[test]
fn not_found_with_a_body_that_gives_nothing() {
    let error = ApiError::from_decoded(404, body(None, None));
    assert_eq!(error.reason, "notFound");
    assert_eq!(error.message, "Resource was not found.");
}

#[test]
fn throttled_without_a_body() {
    let error = ApiError::from_decoded(429, None);
    assert_eq!(error.reason, "requestThrottled");
    assert_eq!(
        error.message,
        "Request was throttled, because amount of requests was above the threshold defined for the used API token."
    );
}

#[test]
fn access_denied_without_a_body() {
    let error = ApiError::from_decoded(403, None);
    assert_eq!(error.status_code, 403);
    assert_eq!(error.reason, "accessDenied");
    assert_eq!(
        error.message,
        "Access denied, either because of missing/incorrect credentials or used API token does not grant access to the requested resource."
    );
}

#[test]
fn each_field_is_resolved_on_its_own() {
    let error = ApiError::from_decoded(400, body(Some("custom"), None));
    assert_eq!(error.reason, "custom");
    assert_eq!(error.message, "Client provided incorrect parameters for the request.");
    let error = ApiError::from_decoded(400, body(None, Some("custom")));
    assert_eq!(error.reason, "badRequest");
    assert_eq!(error.message, "custom");
}

#[test]
fn an_empty_field_of_the_body_is_kept() {
    let error = ApiError::from_decoded(500, body(Some(""), Some("")));
    assert_eq!(error.reason, "");
    assert_eq!(error.message, "");
}

#[test]
fn default_reasons_by_status() {
    assert_eq!(default_reason(400), "badRequest");
    assert_eq!(default_reason(403), "accessDenied");
    assert_eq!(default_reason(404), "notFound");
    assert_eq!(default_reason(429), "requestThrottled");
    assert_eq!(default_reason(500), "unknownException");
    assert_eq!(default_reason(503), "inMaintenance");
    assert_eq!(default_reason(504), "requestAborted");
}

#[test]
fn default_messages_by_status() {
    assert_eq!(default_message(400), "Client provided incorrect parameters for the request.");
    assert_eq!(
        default_message(403),
        "Access denied, either because of missing/incorrect credentials or used API token does not grant access to the requested resource."
    );
    assert_eq!(default_message(404), "Resource was not found.");
    assert_eq!(
        default_message(429),
        "Request was throttled, because amount of requests was above the threshold defined for the used API token."
    );
    assert_eq!(default_message(500), "Unknown error happened when handling the request.");
    assert_eq!(default_message(503), "Service is temprorarily unavailable because of maintenance.");
    assert_eq!(default_message(504), "The user aborted this request.");
    assert_eq!(default_message(418), "Unspecified error occurred.");
    assert_eq!(default_message(0), "Unspecified error occurred.");
}

#[test]
fn other_statuses_quote_the_canonical_reason() {
    assert_eq!(default_reason(418), "Unspecified reason occured. Canonical reason: I'm a teapot");
    assert_eq!(default_reason(401), "Unspecified reason occured. Canonical reason: Unauthorized");
    assert_eq!(default_reason(502), "Unspecified reason occured. Canonical reason: Bad Gateway");
    assert_eq!(default_reason(301), "Unspecified reason occured. Canonical reason: Moved Permanently");
}

#[test]
fn statuses_without_a_canonical_reason() {
    assert_eq!(default_reason(599), "Unspecified reason occured. Canonical reason: ");
    assert_eq!(default_reason(999), "Unspecified reason occured. Canonical reason: ");
}

#[test]
fn numbers_that_are_no_status_code() {
    assert_eq!(default_reason(0), "Unspecified reason occured. Canonical reason: ");
    assert_eq!(default_reason(99), "Unspecified reason occured. Canonical reason: ");
    assert_eq!(default_reason(1000), "Unspecified reason occured. Canonical reason: ");
    assert_eq!(default_reason(u16::MAX), "Unspecified reason occured. Canonical reason: ");
}

#[test]
fn unspecified_reason_from_a_phrase() {
    assert_eq!(
        unspecified_reason(Some("Gone".to_string())),
        "Unspecified reason occured. Canonical reason: Gone"
    );
    assert_eq!(unspecified_reason(None), "Unspecified reason occured. Canonical reason: ");
}

#[test]
fn defaults_are_never_empty() {
    for status_code in 0u16..1100 {
        assert!(!default_reason(status_code).is_empty());
        assert!(!default_message(status_code).is_empty());
    }
}

#[test]
fn new_keeps_its_arguments() {
    let error = ApiError::new(503, "r".to_string(), "m".to_string());
    assert_eq!(error.status_code, 503);
    assert_eq!(error.reason, "r");
    assert_eq!(error.message, "m");
}

#[test]
fn api_error_in_one_line() {
    let error = ApiError::new(404, "notFound".to_string(), "Resource was not found.".to_string());
    assert_eq!(error.to_string(), "Error 404: notFound - Resource was not found.");
    let error = ApiError::new(0, String::new(), String::new());
    assert_eq!(error.to_string(), "Error 0:  - ");
}

fn text(value: &str) -> Option<JsonMember> {
    Some(JsonMember::Text(value.to_string()))
}

fn fields(decoded: Option<ApiErrorResponse>) -> Option<(Option<String>, Option<String>)> {
    decoded.map(|body| (body.reason, body.message))
}

#[test]
fn response_body_fields_override_the_defaults_for_every_status() {
    let body = br#"{ "reason": "x", "message": "y" }"#;
    for status_code in 400u16..600 {
        let error = ApiError::from_response(status_code, body);
        assert_eq!(error.status_code, status_code);
        assert_eq!(error.reason, "x");
        assert_eq!(error.message, "y");
    }
}

#[test]
fn response_not_found_with_an_empty_body() {
    let error = ApiError::from_response(404, b"");
    assert_eq!(error.status_code, 404);
    assert_eq!(error.reason, "notFound");
    assert_eq!(error.message, "Resource was not found.");
}

#[test]
fn response_not_found_with_an_unparsable_body() {
    let bodies: Vec<&[u8]> = vec![
        b"<html>Not Found</html>",
        b"{",
        b"{\"reason\": \"x\"",
        b"{\"reason\": \"x\"} trailing",
        b"\xff\xfe",
        b"nul",
        b"   ",
    ];
    for body in bodies {
        let error = ApiError::from_response(404, body);
        assert_eq!(error.reason, "notFound", "{:?}", body);
        assert_eq!(error.message, "Resource was not found.", "{:?}", body);
        assert!(!error.message.is_empty());
    }
}

#[test]
fn response_throttled_with_an_empty_body() {
    let error = ApiError::from_response(429, b"");
    assert_eq!(error.status_code, 429);
    assert_eq!(error.reason, "requestThrottled");
}

#[test]
fn response_body_of_the_wrong_shape_counts_as_absent() {
    let bodies: Vec<&[u8]> = vec![
        b"[\"x\", \"y\"]",
        b"\"x\"",
        b"null",
        b"42",
        b"true",
        b"{\"reason\": 5, \"message\": \"y\"}",
        b"{\"reason\": \"x\", \"message\": [\"y\"]}",
        b"{\"reason\": {\"code\": \"x\"}}",
        b"{\"message\": false}",
    ];
    for body in bodies {
        let error = ApiError::from_response(403, body);
        assert_eq!(error.reason, "accessDenied", "{:?}", body);
        assert!(error.message.starts_with("Access denied"), "{:?}", body);
    }
}

#[test]
fn response_body_with_one_field() {
    let error = ApiError::from_response(400, br#"{"reason": "custom"}"#);
    assert_eq!(error.reason, "custom");
    assert_eq!(error.message, "Client provided incorrect parameters for the request.");
    let error = ApiError::from_response(400, br#"{"message": "custom"}"#);
    assert_eq!(error.reason, "badRequest");
    assert_eq!(error.message, "custom");
    let error = ApiError::from_response(400, br#"{"reason": null, "message": "custom"}"#);
    assert_eq!(error.reason, "badRequest");
    assert_eq!(error.message, "custom");
}

#[test]
fn response_body_with_other_members() {
    let body = br#"{"reason": "accessDenied.invalidIp", "message": "Invalid authorization", "type": "client", "detail": {"ip": [1, 2]}}"#;
    let error = ApiError::from_response(403, body);
    assert_eq!(error.reason, "accessDenied.invalidIp");
    assert_eq!(error.message, "Invalid authorization");
}

#[test]
fn response_body_strings_are_unescaped() {
    let body = br#"{"reason": "a\"b", "message": "line\nbreak \u00e9"}"#;
    let error = ApiError::from_response(500, body);
    assert_eq!(error.reason, "a\"b");
    assert_eq!(error.message, "line\nbreak \u{e9}");
}

#[test]
fn response_empty_object_gives_the_defaults() {
    let error = ApiError::from_response(503, b"{}");
    assert_eq!(error.reason, "inMaintenance");
    assert_eq!(error.message, "Service is temprorarily unavailable because of maintenance.");
}

#[test]
fn member_names_are_case_sensitive() {
    let error = ApiError::from_response(504, br#"{"Reason": "x", "MESSAGE": "y"}"#);
    assert_eq!(error.reason, "requestAborted");
    assert_eq!(error.message, "The user aborted this request.");
}

#[test]
fn from_body_decodes_an_error_object() {
    assert_eq!(
        fields(ApiErrorResponse::from_body(br#"{"reason": "x", "message": "y"}"#)),
        Some((Some("x".to_string()), Some("y".to_string())))
    );
    assert_eq!(fields(ApiErrorResponse::from_body(b"{}")), Some((None, None)));
    assert_eq!(
        fields(ApiErrorResponse::from_body(br#"{"message": null, "reason": ""}"#)),
        Some((Some(String::new()), None))
    );
    assert_eq!(fields(ApiErrorResponse::from_body(b"")), None);
    assert_eq!(fields(ApiErrorResponse::from_body(b"[]")), None);
    assert_eq!(fields(ApiErrorResponse::from_body(br#"{"reason": 1}"#)), None);
}

#[test]
fn from_members_by_kind() {
    assert_eq!(
        fields(ApiErrorResponse::from_members(text("x"), text("y"))),
        Some((Some("x".to_string()), Some("y".to_string())))
    );
    assert_eq!(
        fields(ApiErrorResponse::from_members(Some(JsonMember::Missing), Some(JsonMember::Null))),
        Some((None, None))
    );
    assert_eq!(
        fields(ApiErrorResponse::from_members(Some(JsonMember::Null), text("y"))),
        Some((None, Some("y".to_string())))
    );
    assert_eq!(fields(ApiErrorResponse::from_members(Some(JsonMember::Other), text("y"))), None);
    assert_eq!(fields(ApiErrorResponse::from_members(text("x"), Some(JsonMember::Other))), None);
    assert_eq!(fields(ApiErrorResponse::from_members(None, None)), None);
    assert_eq!(fields(ApiErrorResponse::from_members(None, text("y"))), None);
    assert_eq!(fields(ApiErrorResponse::from_members(text("x"), None)), None);
}
