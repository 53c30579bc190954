use clash_forge::api::common::query::QueryParameters;

fn pair(name: &str, value: &str) -> (String, String) {
    (name.to_string(), value.to_string())
}

#[test]
fn query_starts_empty() {
    let parameters = QueryParameters::new();
    assert!(parameters.is_empty());
    assert_eq!(parameters.len(), 0);
    assert_eq!(parameters.get("limit"), None);
    assert!(parameters.to_pairs().is_empty());
    assert!(QueryParameters::default().is_empty());
}

#[test]
fn query_insert_adds_a_parameter() {
    let mut parameters = QueryParameters::new();
    parameters.insert("limit".to_string(), "10".to_string());
    assert!(!parameters.is_empty());
    assert_eq!(parameters.len(), 1);
    assert_eq!(parameters.get("limit"), Some(&"10".to_string()));
    assert!(parameters.contains_key("limit"));
    assert!(!parameters.contains_key("Limit"));
}

#[test]
fn query_last_write_wins() {
    let mut parameters = QueryParameters::new();
    parameters.insert("limit".to_string(), "10".to_string());
    parameters.insert("after".to_string(), "x".to_string());
    parameters.insert("limit".to_string(), "20".to_string());
    assert_eq!(parameters.len(), 2);
    assert_eq!(parameters.get("limit"), Some(&"20".to_string()));
    assert_eq!(parameters.get("after"), Some(&"x".to_string()));
    assert_eq!(parameters.to_pairs(), vec![pair("limit", "20"), pair("after", "x")]);
}

#[test]
fn query_insert_some_skips_what_is_absent() {
    let mut parameters = QueryParameters::new();
    parameters.insert_some("name", None);
    assert!(parameters.is_empty());
    parameters.insert_some("name", Some("Rust".to_string()));
    assert_eq!(parameters.get("name"), Some(&"Rust".to_string()));
    parameters.insert_some("name", None);
    assert_eq!(parameters.get("name"), Some(&"Rust".to_string()));
    assert_eq!(parameters.len(), 1);
}

#[test]
fn query_extend_prefers_the_right_side() {
    let mut left = QueryParameters::new();
    left.insert("name".to_string(), "a".to_string());
    left.insert("limit".to_string(), "1".to_string());
    let mut right = QueryParameters::new();
    right.insert("limit".to_string(), "2".to_string());
    right.insert("after".to_string(), "c".to_string());
    left.extend(right);
    assert_eq!(left.len(), 3);
    assert_eq!(left.get("name"), Some(&"a".to_string()));
    assert_eq!(left.get("limit"), Some(&"2".to_string()));
    assert_eq!(left.get("after"), Some(&"c".to_string()));
}

#[test]
fn query_extend_with_nothing_changes_nothing() {
    let mut parameters = QueryParameters::new();
    parameters.insert("name".to_string(), "a".to_string());
    parameters.extend(QueryParameters::new());
    assert_eq!(parameters.to_pairs(), vec![pair("name", "a")]);
}

#[test]
fn query_clone_holds_the_same_parameters() {
    let mut parameters = QueryParameters::new();
    parameters.insert("name".to_string(), "a".to_string());
    parameters.insert("limit".to_string(), "1".to_string());
    let copy = parameters.clone();
    parameters.insert("name".to_string(), "b".to_string());
    assert_eq!(copy.to_pairs(), vec![pair("name", "a"), pair("limit", "1")]);
    assert_eq!(parameters.get("name"), Some(&"b".to_string()));
}

#[test]
fn query_names_are_compared_exactly() {
    let mut parameters = QueryParameters::new();
    parameters.insert("a".to_string(), "1".to_string());
    parameters.insert("A".to_string(), "2".to_string());
    parameters.insert("a ".to_string(), "3".to_string());
    parameters.insert(String::new(), "4".to_string());
    assert_eq!(parameters.len(), 4);
    assert_eq!(parameters.get(""), Some(&"4".to_string()));
}
