use clash_forge::api::common::query::QueryParameters;
use clash_forge::api::goldpass::models::APIGoldPassSeason;
use clash_forge::api::rest_manager::{path_of, GetRequest, PostRequest, RestManager, RestManagerConfig};
use clash_forge::errors::TransportError;

fn manager(base_url: &str) -> RestManager {
    RestManager::with_config("test_token", RestManagerConfig::new(30, base_url, "clash-forge-tests/0.1.0"))
        .expect("Test object should be created")
}

fn json_error() -> serde_json::Error {
    serde_json::from_str::<serde_json::Value>("").unwrap_err()
}

fn season() -> APIGoldPassSeason {
    APIGoldPassSeason { start_time: "20250101T080000.000Z".to_string(), end_time: "20250201T080000.000Z".to_string() }
}

#[test]
fn config_new_keeps_its_arguments() {
    let config = RestManagerConfig::new(5, "http://localhost:1234", "agent/1");
    assert_eq!(config.timeout, 5);
    assert_eq!(config.base_url, "http://localhost:1234");
    assert_eq!(config.user_agent, "agent/1");
}

#[test]
fn config_defaults() {
    let config = RestManagerConfig::default();
    assert_eq!(config.timeout, 30);
    assert_eq!(config.base_url, "https://api.clashofclans.com/v1");
    assert_eq!(config.user_agent, "clash-forge/0.1.0");
}

#[test]
fn new_uses_the_default_config() {
    let manager = RestManager::new("token").unwrap();
    assert_eq!(manager.config().timeout, 30);
    assert_eq!(manager.config().base_url, "https://api.clashofclans.com/v1");
    assert_eq!(manager.config().user_agent, "clash-forge/0.1.0");
}

#[test]
fn with_config_keeps_the_config() {
    let manager = manager("http://mock");
    assert_eq!(manager.config().timeout, 30);
    assert_eq!(manager.config().base_url, "http://mock");
    assert_eq!(manager.config().user_agent, "clash-forge-tests/0.1.0");
}

#[test]
fn default_headers_carry_token_and_accept() {
    let headers = manager("http://mock").default_headers();
    assert_eq!(
        headers,
        vec![
            ("Authorization".to_string(), "Bearer test_token".to_string()),
            ("Accept".to_string(), "application/json".to_string()),
        ]
    );
}

#[test]
fn token_with_a_control_character_is_refused() {
    for token in ["bad\ntoken", "bad\rtoken", "\u{0}", "a\u{7f}b", "\u{1f}"] {
        let result = RestManager::new(token);
        assert!(matches!(result, Err(TransportError::InvalidToken)), "{:?}", token);
        let result = RestManager::with_config(token, RestManagerConfig::default());
        assert!(matches!(result, Err(TransportError::InvalidToken)), "{:?}", token);
    }
}

#[test]
fn token_with_tab_space_or_other_scripts_is_accepted() {
    for token in ["", "a b", "a\tb", "eyJ0eXAiOiJKV1QiLCJhbGciOiJIUzUxMiJ9.x-y_z", "clé", "鍵", "~!@#$%^&*()"] {
        let manager = RestManager::new(token).expect(token);
        assert_eq!(manager.default_headers()[0].1, format!("Bearer {}", token));
    }
}

#[test]
fn get_joins_base_url_and_path() {
    let request: GetRequest<APIGoldPassSeason> = manager("http://mock").get("goldpass/seasons/current", None);
    assert_eq!(request.url, "http://mock/goldpass/seasons/current");
    assert!(request.parameters.is_empty());
}

#[test]
fn get_does_not_tidy_the_url() {
    let request: GetRequest<APIGoldPassSeason> = manager("http://mock/").get("/x", None);
    assert_eq!(request.url, "http://mock///x");
    let request: GetRequest<APIGoldPassSeason> = manager("").get("", None);
    assert_eq!(request.url, "/");
}

#[test]
fn get_carries_the_parameters() {
    let mut parameters = QueryParameters::new();
    parameters.insert("limit".to_string(), "3".to_string());
    let request: GetRequest<APIGoldPassSeason> = manager("http://mock").get("x", Some(parameters));
    assert_eq!(request.parameters.len(), 1);
    assert_eq!(request.parameters.get("limit"), Some(&"3".to_string()));
}

#[test]
fn post_joins_base_url_and_path_and_keeps_the_body() {
    let request: PostRequest<Vec<u8>, APIGoldPassSeason> = manager("http://mock").post("a/b", vec![1u8, 2, 3]);
    assert_eq!(request.url, "http://mock/a/b");
    assert_eq!(request.json, vec![1u8, 2, 3]);
}

#[test]
fn get_tagged_normalizes_the_tag() {
    let manager = manager("http://mock");
    let request: GetRequest<APIGoldPassSeason> = manager.get_tagged(" #abc ", "pre/", "/post", None).unwrap();
    assert_eq!(request.url, "http://mock/pre/%23ABC/post");
    let result: Result<GetRequest<APIGoldPassSeason>, TransportError> = manager.get_tagged("a b", "pre/", "/post", None);
    assert!(matches!(result, Err(TransportError::InvalidTag(message)) if message == "Invalid tag format: a b"));
}

#[test]
fn post_tagged_normalizes_the_tag() {
    let manager = manager("http://mock");
    let request: PostRequest<u8, APIGoldPassSeason> = manager.post_tagged("abc", "pre/", "/post", 7u8).unwrap();
    assert_eq!(request.url, "http://mock/pre/%23ABC/post");
    assert_eq!(request.json, 7);
    let result: Result<PostRequest<u8, APIGoldPassSeason>, TransportError> = manager.post_tagged("", "pre/", "/post", 7u8);
    assert!(matches!(result, Err(TransportError::InvalidTag(message)) if message == "Tag cannot be empty"));
}

#[test]
fn path_of_concatenates() {
    assert_eq!(path_of("a/", "b", "/c"), "a/b/c");
    assert_eq!(path_of("", "", ""), "");
}

#[test]
fn success_range() {
    assert!(!RestManager::is_success(199));
    assert!(RestManager::is_success(200));
    assert!(RestManager::is_success(204));
    assert!(RestManager::is_success(299));
    assert!(!RestManager::is_success(300));
    assert!(!RestManager::is_success(404));
    assert!(!RestManager::is_success(0));
    assert!(!RestManager::is_success(u16::MAX));
}

#[test]
fn success_with_a_record_returns_the_record() {
    let manager = manager("http://mock");
    for status_code in 200u16..300 {
        let data = manager.get_data(status_code, b"", Ok(season()));
        assert_eq!(data.unwrap(), season());
    }
}

#[test]
fn success_ignores_what_the_body_holds_as_an_error() {
    let body = br#"{"reason": "x", "message": "y"}"#;
    let data = manager("http://mock").get_data(200, body, Ok(season()));
    assert_eq!(data.unwrap(), season());
}

#[test]
fn success_with_an_undecodable_body_is_a_json_error() {
    let words = json_error().to_string();
    let data: Result<APIGoldPassSeason, TransportError> = manager("http://mock").get_data(200, b"", Err(json_error()));
    match data {
        Err(TransportError::Json(error)) => assert_eq!(error.to_string(), words),
        other => panic!("expected a JSON error, found {:?}", other),
    }
}

#[test]
fn failure_status_is_an_api_error_whatever_was_decoded() {
    let manager = manager("http://mock");
    let data = manager.get_data(404, b"", Ok(season()));
    match data {
        Err(TransportError::Api(error)) => {
            assert_eq!(error.status_code, 404);
            assert_eq!(error.reason, "notFound");
            assert_eq!(error.message, "Resource was not found.");
        }
        other => panic!("expected an API error, found {:?}", other),
    }
    let data: Result<APIGoldPassSeason, TransportError> = manager.get_data(429, b"{}", Err(json_error()));
    match data {
        Err(TransportError::Api(error)) => assert_eq!(error.reason, "requestThrottled"),
        other => panic!("expected an API error, found {:?}", other),
    }
}

#[test]
fn failure_status_with_an_error_object() {
    let manager = manager("http://mock");
    for status_code in 400u16..600 {
        let body = br#"{ "reason": "x", "message": "y" }"#;
        let data: Result<APIGoldPassSeason, TransportError> = manager.get_data(status_code, body, Err(json_error()));
        match data {
            Err(TransportError::Api(error)) => {
                assert_eq!(error.status_code, status_code);
                assert_eq!(error.reason, "x");
                assert_eq!(error.message, "y");
            }
            other => panic!("expected an API error, found {:?}", other),
        }
    }
}

#[test]
fn redirects_and_informational_statuses_are_failures() {
    let manager = manager("http://mock");
    for status_code in [100u16, 199, 300, 304, 399] {
        let data = manager.get_data(status_code, b"", Ok(season()));
        assert!(matches!(data, Err(TransportError::Api(error)) if error.status_code == status_code));
    }
}

#[test]
fn token_is_accepted_unless_it_holds_a_control_character() {
    for code in 0u32..=0x2FFFF {
        let Some(c) = char::from_u32(code) else { continue };
        let token = format!("a{c}b");
        let expected = (code >= 32 && code != 127) || c == '\t';
        match RestManager::new(&token) {
            Ok(manager) => {
                assert!(expected, "{:?}", c);
                assert_eq!(manager.default_headers()[0].1, format!("Bearer {token}"));
            }
            Err(TransportError::InvalidToken) => assert!(!expected, "{:?}", c),
            Err(other) => panic!("expected InvalidToken, found {:?}", other),
        }
    }
}
