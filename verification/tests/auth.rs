use boson_coordinator::axum_api::{parse_open_lab_mode, require_admin_auth_default, OPEN_LAB_MODE_ENV};

#[test]
fn parse_open_lab_mode_truthy_and_falsy() {
    for v in ["1", "true", "YES", " True "] {
        assert!(parse_open_lab_mode(v), "expected truthy: {v}");
    }
    for v in ["0", "false", "no", ""] {
        assert!(!parse_open_lab_mode(v), "expected falsy: {v}");
    }
}

#[test]
fn require_admin_auth_default_is_fail_closed_without_open_lab() {
    assert!(
        require_admin_auth_default(None),
        "default mount must require admin auth"
    );
}

#[test]
fn require_admin_auth_default_allows_open_lab_env() {
    assert!(
        !require_admin_auth_default(Some("1")),
        "open lab env must disable require-admin default"
    );
}

#[test]
fn open_lab_env_name() {
    assert_eq!(OPEN_LAB_MODE_ENV, "BOSON_OPEN_LAB_MODE");
}

#[test]
fn parse_open_lab_mode_mixed_case_and_tabs() {
    for v in ["TrUe", "\ttrue\n", "yEs", "  1  ", "\u{3000}yes\u{a0}", "\u{2003}TRUE\u{2028}"] {
        assert!(parse_open_lab_mode(v), "expected truthy: {v:?}");
    }
}

#[test]
fn parse_open_lab_mode_rejects_near_misses() {
    for v in ["tru", "truee", "y", "ye s", "1 1", "01", "on", " ", "\u{200b}true", "t\u{0301}rue", "\u{0130}"] {
        assert!(!parse_open_lab_mode(v), "expected falsy: {v:?}");
    }
}

#[test]
fn require_admin_auth_default_with_falsy_open_lab_value() {
    for v in ["0", "false", "", "nope"] {
        assert!(require_admin_auth_default(Some(v)));
    }
    assert!(!require_admin_auth_default(Some(" YES ")));
}
