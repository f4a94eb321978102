use cdp_target::error::CdpError;
use cdp_target::target::{dial, endpoint_error, CdpTarget, ConnectStep, Handshake};

fn local(ws_url: &str) -> CdpTarget {
    CdpTarget::Local {
        ws_url: ws_url.to_string(),
    }
}

#[test]
fn a_local_target_names_no_endpoint_in_its_label() {
    let target = local("ws://user:secret@127.0.0.1:1/devtools/page/A");
    assert!(!target.is_remote());
    assert_eq!(target.describe(), "local browser");
    let CdpTarget::Local { ws_url } = target.clone();
    assert_eq!(ws_url, "ws://user:secret@127.0.0.1:1/devtools/page/A");
}

#[test]
fn a_connect_is_tried_three_times_with_a_doubling_delay() {
    let target = local("ws://127.0.0.1:1");
    let broken = || Err(CdpError::Transport("x".to_string()));
    assert!(matches!(
        target.connect().after(Ok(())),
        ConnectStep::Connected
    ));

    let mut run = target.connect();
    let mut attempts = 1;
    let mut delays = vec![];
    let error = loop {
        match run.after(broken()) {
            ConnectStep::Retry {
                delay_millis,
                run: next,
            } => {
                delays.push(delay_millis);
                run = next;
                attempts += 1;
            }
            ConnectStep::GiveUp(error) => break error,
            ConnectStep::Connected => panic!("a failed attempt never connects"),
        }
    };
    assert_eq!(attempts, 3);
    assert_eq!(delays, vec![400, 800]);
    assert!(matches!(error, CdpError::Transport(_)));

    match target.connect().after(broken()) {
        ConnectStep::Retry { run, .. } => {
            assert!(matches!(run.after(Ok(())), ConnectStep::Connected))
        }
        other => panic!("{other:?}"),
    }
}

#[test]
fn a_no_ends_the_attempts_at_once() {
    let target = local("ws://127.0.0.1:1");
    for error in [
        CdpError::Unauthorized("x".to_string()),
        CdpError::NotDrivable("x".to_string()),
        CdpError::Protocol("x".to_string()),
    ] {
        let words = error.message();
        match target.connect().after(Err(error)) {
            ConnectStep::GiveUp(error) => assert_eq!(error.message(), words),
            other => panic!("{other:?}"),
        }
    }
}

#[test]
fn a_handshake_ends_in_the_error_it_means() {
    assert!(dial(Handshake::Done).is_ok());
    assert_eq!(
        dial(Handshake::TimedOut).unwrap_err().message(),
        "browser unreachable: the CDP endpoint did not answer within 20s"
    );
    assert_eq!(
        dial(Handshake::Refused(401)).unwrap_err().message(),
        "not authorised to drive this browser: the relay refused the credential (HTTP 401)"
    );
    assert_eq!(
        dial(Handshake::Failed("connection refused".to_string()))
            .unwrap_err()
            .message(),
        "browser unreachable: connection refused"
    );
}

#[test]
fn a_request_is_made_for_the_page_socket() {
    let request = local("ws://127.0.0.1:1/devtools/page/A#top")
        .connect_once()
        .unwrap();
    assert_eq!(
        request.uri().to_string(),
        "ws://127.0.0.1:1/devtools/page/A"
    );
    assert_eq!(request.method().as_str(), "GET");
}

#[test]
fn an_endpoint_that_cannot_be_used_is_unreachable() {
    for (url, words) in [
        ("", "browser unreachable: invalid CDP endpoint: "),
        ("/devtools/page/A", "browser unreachable: invalid CDP endpoint: "),
        ("ws://a b", "browser unreachable: invalid CDP endpoint: "),
    ] {
        let error = local(url).connect_once().unwrap_err();
        assert!(matches!(error, CdpError::Unreachable(_)));
        assert!(error.message().starts_with(words));
        assert!(error.message().len() > words.len());
    }
    assert_eq!(
        endpoint_error("no host".to_string()).message(),
        "browser unreachable: invalid CDP endpoint: no host"
    );
}
