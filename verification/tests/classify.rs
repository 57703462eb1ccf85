use deeplink_dispatch::diagnostic::Diagnostic;
use deeplink_dispatch::intent::classify;

#[test]
fn classifier_splits_scheme_route_and_parameters() {
    let intent = classify("oauth2://callback/tidal?code=abc123&state=xyz").expect("should parse");
    assert_eq!(intent.provider, "oauth2");
    assert_eq!(intent.action, "/callback/tidal");
    assert_eq!(intent.parameter("code"), Some("abc123".to_string()));
    assert_eq!(intent.parameter("state"), Some("xyz".to_string()));
    assert_eq!(intent.parameter("missing"), None);
}

#[test]
fn classifier_is_deterministic() {
    let raw = "oauth2://callback/tidal?code=abc123&state=xyz";
    let first = classify(raw).expect("should parse");
    let second = classify(raw).expect("should parse");
    assert!(first == second);
}

#[test]
fn classifier_rejects_a_malformed_link_with_the_original_string() {
    match classify("::::") {
        Err(Diagnostic::MalformedDeepLink(original)) => assert_eq!(original, "::::"),
        _ => panic!("expected a malformed-link rejection"),
    }
}

#[test]
fn classifier_keeps_the_last_value_of_a_repeated_key() {
    let intent = classify("oauth2://callback/tidal?k=1&k=2&k=3").expect("should parse");
    assert_eq!(intent.parameter("k"), Some("3".to_string()));
}

#[test]
fn classifier_handles_a_link_without_an_authority() {
    let intent = classify("mailto:user").expect("should parse");
    assert_eq!(intent.provider, "mailto");
    assert_eq!(intent.action, "user");
    assert_eq!(intent.parameter("code"), None);
}
