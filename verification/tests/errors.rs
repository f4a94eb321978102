use cdp_target::error::{classify_close, classify_handshake_status, CdpError, ResolveError};

#[test]
fn a_relay_close_says_what_the_caller_should_do_about_it() {
    // These codes are the relay's entire vocabulary. Collapsing them into one
    // transport failure is how "your session is still provisioning" and "you
    // are signed out" both become "something went wrong".
    assert!(matches!(
        classify_close(1008, "x".into()),
        CdpError::Unauthorized(_)
    ));
    assert!(matches!(
        classify_close(1013, "x".into()),
        CdpError::NotDrivable(_)
    ));
    assert!(matches!(
        classify_close(1011, "x".into()),
        CdpError::Unreachable(_)
    ));
    assert!(matches!(
        classify_close(1009, "x".into()),
        CdpError::Transport(_)
    ));
    assert!(matches!(
        classify_close(1000, "x".into()),
        CdpError::Transport(_)
    ));
}

#[test]
fn only_the_failures_a_retry_could_fix_are_retried() {
    assert!(CdpError::Unreachable("x".into()).is_retryable());
    assert!(CdpError::Transport("x".into()).is_retryable());
    assert!(!CdpError::Unauthorized("x".into()).is_retryable());
    assert!(!CdpError::NotDrivable("x".into()).is_retryable());
    assert!(!CdpError::Protocol("x".into()).is_retryable());
}

#[test]
fn a_refused_upgrade_is_not_reported_as_an_unreachable_browser() {
    assert!(matches!(
        classify_handshake_status(401),
        CdpError::Unauthorized(_)
    ));
    assert!(matches!(
        classify_handshake_status(404),
        CdpError::NotDrivable(_)
    ));
    assert!(matches!(
        classify_handshake_status(409),
        CdpError::NotDrivable(_)
    ));
    assert!(matches!(
        classify_handshake_status(429),
        CdpError::NotDrivable(_)
    ));
    assert!(matches!(
        classify_handshake_status(502),
        CdpError::Unreachable(_)
    ));
}

#[test]
fn each_error_is_told_in_its_own_words() {
    assert_eq!(
        CdpError::Unreachable("m".into()).message(),
        "browser unreachable: m"
    );
    assert_eq!(
        CdpError::Unauthorized("m".into()).message(),
        "not authorised to drive this browser: m"
    );
    assert_eq!(
        CdpError::NotDrivable("m".into()).message(),
        "browser is not drivable yet: m"
    );
    assert_eq!(
        CdpError::Transport("m".into()).message(),
        "CDP transport failed: m"
    );
    assert_eq!(CdpError::Protocol("m".into()).message(), "CDP error: m");
    assert_eq!(ResolveError::Unsupported("m".into()).message(), "m");
    assert_eq!(ResolveError::NotRunning("m".into()).message(), "m");
    assert_eq!(ResolveError::Endpoint("m".into()).message(), "m");
}

#[test]
fn a_close_keeps_its_detail() {
    assert_eq!(
        classify_close(1009, "x".into()).message(),
        "CDP transport failed: x — message too large"
    );
    assert_eq!(
        classify_close(1008, "x".into()).message(),
        "not authorised to drive this browser: x"
    );
    assert_eq!(
        classify_close(0, "x".into()).message(),
        "CDP transport failed: x"
    );
}

#[test]
fn a_refused_upgrade_names_its_status() {
    assert_eq!(
        classify_handshake_status(403).message(),
        "not authorised to drive this browser: the relay refused the credential (HTTP 403)"
    );
    assert_eq!(
        classify_handshake_status(404).message(),
        "browser is not drivable yet: no such remote session, or it does not belong to this account"
    );
    assert_eq!(
        classify_handshake_status(409).message(),
        "browser is not drivable yet: the remote session is not drivable yet"
    );
    assert_eq!(
        classify_handshake_status(429).message(),
        "browser is not drivable yet: too many attachments to this remote session"
    );
    assert_eq!(
        classify_handshake_status(65535).message(),
        "browser unreachable: the relay answered HTTP 65535"
    );
    assert_eq!(
        classify_handshake_status(0).message(),
        "browser unreachable: the relay answered HTTP 0"
    );
}
