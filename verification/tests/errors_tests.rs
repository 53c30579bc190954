use clash_forge::api::errors::ApiError;
use clash_forge::errors::TransportError;

fn json_error() -> serde_json::Error {
    serde_json::from_str::<serde_json::Value>("{\"tag\": ").unwrap_err()
}

fn http_error() -> reqwest::Error {
    reqwest::Client::new().get("not a url").build().unwrap_err()
}

#[test]
fn invalid_token_in_one_line() {
    assert_eq!(TransportError::InvalidToken.to_string(), "Invalid API token");
}

#[test]
fn invalid_tag_in_one_line() {
    let error = TransportError::InvalidTag("Tag cannot be empty".to_string());
    assert_eq!(error.to_string(), "Invalid tag: Tag cannot be empty");
}

#[test]
fn api_error_is_wrapped_in_one_line() {
    let error = TransportError::Api(ApiError::new(403, "accessDenied".to_string(), "No.".to_string()));
    assert_eq!(error.to_string(), "API error: Error 403: accessDenied - No.");
}

#[test]
fn json_error_in_one_line() {
    let words = json_error().to_string();
    let error = TransportError::Json(json_error());
    assert_eq!(error.to_string(), format!("JSON error: {}", words));
}

#[test]
fn http_error_in_one_line() {
    let words = http_error().to_string();
    let error = TransportError::Http(http_error());
    assert_eq!(error.to_string(), format!("HTTP error: {}", words));
}

#[test]
fn json_error_converts_into_the_json_variant() {
    let error = TransportError::from(json_error());
    assert!(matches!(error, TransportError::Json(_)));
}

#[test]
fn http_error_converts_into_the_http_variant() {
    let error = TransportError::from(http_error());
    assert!(matches!(error, TransportError::Http(_)));
}

#[test]
fn question_mark_converts_a_json_error() {
    fn decode(text: &str) -> Result<serde_json::Value, TransportError> {
        let value = serde_json::from_str::<serde_json::Value>(text)?;
        Ok(value)
    }
    assert!(matches!(decode("nonsense"), Err(TransportError::Json(_))));
    assert!(decode("{}").is_ok());
}
