use deeplink_dispatch::diagnostic::Diagnostic;
use deeplink_dispatch::dispatch::{
    auth_response_channel, dispatch_deep_link, route_intent, DispatchDecision,
};
use deeplink_dispatch::intent::classify;

#[test]
fn emits_auth_event_for_tidal_callback() {
    match dispatch_deep_link("oauth2://callback/tidal?code=abc123") {
        DispatchDecision::Emit(event) => {
            assert_eq!(event.code, "abc123");
            assert_eq!(auth_response_channel(), "tidal-auth-response");
            let mut payload = serde_json::Map::new();
            payload.insert(
                "code".to_string(),
                serde_json::Value::String(event.code),
            );
            let payload = serde_json::Value::Object(payload);
            assert_eq!(payload.to_string(), "{\"code\":\"abc123\"}");
        }
        DispatchDecision::Diagnose(_) => panic!("expected an event"),
    }
}

#[test]
fn missing_code_is_diagnosed_without_event() {
    match dispatch_deep_link("oauth2://callback/tidal") {
        DispatchDecision::Diagnose(Diagnostic::MissingRequiredParameter(name)) => {
            assert_eq!(name, "code");
        }
        _ => panic!("expected a missing-parameter diagnostic"),
    }
}

#[test]
fn unsupported_action_is_diagnosed_without_event() {
    let decision = dispatch_deep_link("oauth2://callback/spotify?code=xyz");
    assert!(matches!(
        decision,
        DispatchDecision::Diagnose(Diagnostic::UnrecognizedAction)
    ));
}

#[test]
fn unsupported_provider_is_diagnosed_without_event() {
    let decision = dispatch_deep_link("myapp://settings");
    assert!(matches!(
        decision,
        DispatchDecision::Diagnose(Diagnostic::UnrecognizedDeepLink)
    ));
}

#[test]
fn malformed_input_is_diagnosed_and_dispatch_goes_on() {
    match dispatch_deep_link("not a url") {
        DispatchDecision::Diagnose(Diagnostic::MalformedDeepLink(original)) => {
            assert_eq!(original, "not a url");
        }
        _ => panic!("expected a malformed-link diagnostic"),
    }
    // The failure is not fatal: the next link still dispatches normally.
    let decision = dispatch_deep_link("oauth2://callback/tidal?code=later");
    match decision {
        DispatchDecision::Emit(event) => assert_eq!(event.code, "later"),
        DispatchDecision::Diagnose(_) => panic!("expected an event"),
    }
}

#[test]
fn repeated_key_keeps_the_last_value() {
    match dispatch_deep_link("oauth2://callback/tidal?code=first&code=second") {
        DispatchDecision::Emit(event) => assert_eq!(event.code, "second"),
        DispatchDecision::Diagnose(_) => panic!("expected an event"),
    }
}

#[test]
fn query_values_are_decoded() {
    match dispatch_deep_link("oauth2://callback/tidal?code=a%20b%2Fc") {
        DispatchDecision::Emit(event) => assert_eq!(event.code, "a b/c"),
        DispatchDecision::Diagnose(_) => panic!("expected an event"),
    }
}

#[test]
fn empty_code_value_still_emits() {
    match dispatch_deep_link("oauth2://callback/tidal?code=") {
        DispatchDecision::Emit(event) => assert_eq!(event.code, ""),
        DispatchDecision::Diagnose(_) => panic!("expected an event"),
    }
}

#[test]
fn oauth2_link_without_authority_is_an_unrecognized_action() {
    let decision = dispatch_deep_link("oauth2:settings");
    assert!(matches!(
        decision,
        DispatchDecision::Diagnose(Diagnostic::UnrecognizedAction)
    ));
}

#[test]
fn routing_a_rebuilt_intent_matches_dispatch() {
    let intent = classify("oauth2://callback/tidal?code=abc123").expect("should classify");
    match route_intent(&intent) {
        DispatchDecision::Emit(event) => assert_eq!(event.code, "abc123"),
        DispatchDecision::Diagnose(_) => panic!("expected an event"),
    }
}
