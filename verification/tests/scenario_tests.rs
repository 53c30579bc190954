use clash_forge::api::clans::models::{APIClan, APIClanType, APIWarFrequency};
use clash_forge::api::common::models::APIBadge;
use clash_forge::api::leagues::models::{APICapitalLeague, APIWarLeague};
use clash_forge::api::rest_manager::{RestManager, RestManagerConfig};
use clash_forge::errors::TransportError;

fn manager() -> RestManager {
    RestManager::with_config("test_token", RestManagerConfig::new(30, "http://mock", "clash-forge-tests/0.1.0"))
        .expect("Test object should be created")
}

fn clan(tag: &str, name: &str) -> APIClan {
    APIClan {
        tag: tag.to_string(),
        name: name.to_string(),
        kind: APIClanType::Open,
        description: None,
        location: None,
        is_family_friendly: true,
        badge_urls: APIBadge { small: "s".to_string(), medium: "m".to_string(), large: "l".to_string() },
        clan_level: 1,
        clan_points: 2,
        clan_builder_base_points: 3,
        clan_capital_points: 4,
        capital_league: APICapitalLeague { id: 85000000, name: "Unranked".to_string() },
        required_trophies: 0,
        war_frequency: APIWarFrequency::Unknown,
        war_win_streak: 0,
        war_wins: 0,
        war_ties: None,
        war_losses: None,
        is_war_log_public: false,
        war_league: APIWarLeague { id: 48000000, name: "Unranked".to_string() },
        members: 1,
        member_list: None,
        labels: vec![],
        required_builder_base_trophies: 0,
        required_townhall_level: 1,
        clan_capital: None,
        chat_language: None,
    }
}

fn json_error() -> serde_json::Error {
    serde_json::from_slice::<serde_json::Value>(b"").unwrap_err()
}

#[test]
fn clan_info_end_to_end_success() {
    let manager = manager();
    assert_eq!(
        manager.default_headers()[0],
        ("Authorization".to_string(), "Bearer test_token".to_string())
    );
    let request = manager.clan_info("#ABC123").unwrap();
    assert_eq!(request.url, "http://mock/clans/%23ABC123");
    assert!(request.parameters.is_empty());
    let body = br##"{"tag":"#ABC123","name":"X"}"##;
    let data = manager.get_data(200, body, Ok(clan("#ABC123", "X"))).unwrap();
    assert_eq!(data.tag, "#ABC123");
    assert_eq!(data, clan("#ABC123", "X"));
}

#[test]
fn clan_info_end_to_end_access_denied() {
    let manager = manager();
    let request = manager.clan_info("#ABC123").unwrap();
    assert_eq!(request.url, "http://mock/clans/%23ABC123");
    let data: Result<APIClan, TransportError> = manager.get_data(403, b"", Err(json_error()));
    match data {
        Err(TransportError::Api(error)) => {
            assert_eq!(error.status_code, 403);
            assert_eq!(error.reason, "accessDenied");
            assert!(error.message.starts_with("Access denied"));
            assert_eq!(
                error.to_string(),
                "Error 403: accessDenied - Access denied, either because of missing/incorrect credentials or used API token does not grant access to the requested resource."
            );
        }
        other => panic!("expected an API error, found {:?}", other),
    }
}

#[test]
fn clan_search_end_to_end_bad_request_with_a_body() {
    let manager = manager();
    let body = br#"{"reason":"badRequest","message":"At least one filtering parameter must exist"}"#;
    let data: Result<APIClan, TransportError> = manager.get_data(400, body, Err(json_error()));
    match data {
        Err(error) => assert_eq!(
            error.to_string(),
            "API error: Error 400: badRequest - At least one filtering parameter must exist"
        ),
        other => panic!("expected an API error, found {:?}", other),
    }
}
