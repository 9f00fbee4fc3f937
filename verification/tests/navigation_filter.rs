use sidecar_lifecycle::navigation::{navigation_decision, NavDecision};

#[test]
fn loopback_request_is_allowed_in_window() {
    // http://127.0.0.1:<port>/x stays in the window.
    assert_eq!(navigation_decision(Some("127.0.0.1")), NavDecision::AllowInWindow);
    assert_eq!(navigation_decision(Some("localhost")), NavDecision::AllowInWindow);
}

#[test]
fn external_request_is_redirected_to_the_system_browser() {
    // https://example.com is vetoed in-window and opened externally.
    assert_eq!(navigation_decision(Some("example.com")), NavDecision::OpenExternally);
    assert_eq!(navigation_decision(Some("evil.localhost")), NavDecision::OpenExternally);
    assert_eq!(navigation_decision(Some("127.0.0.2")), NavDecision::OpenExternally);
    assert_eq!(navigation_decision(Some("")), NavDecision::OpenExternally);
}

#[test]
fn url_without_a_host_is_not_loaded() {
    assert_eq!(navigation_decision(None), NavDecision::OpenExternally);
}
