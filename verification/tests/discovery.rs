use cdp_target::discovery::{
    begin_probe, listing_url, local_cdp_port, local_page_ws_url, pick_local_page_socket, resolve,
    BrowserProfile, Patience, Probe, ProbeStep, ResolveStep,
};
use cdp_target::error::ResolveError;
use cdp_target::target::CdpTarget;
use serde_json::Value;

fn entry(kind: &str, url: &str) -> Value {
    let mut entry = Value::Object(serde_json::Map::new());
    entry["type"] = Value::from(kind);
    entry["webSocketDebuggerUrl"] = Value::from(url);
    entry
}

fn profile(browser: &str, process_id: Option<u32>) -> BrowserProfile {
    BrowserProfile {
        name: "Work".to_string(),
        browser: browser.to_string(),
        process_id,
    }
}

/// What a probe did: the pauses before it asked for the port, the pauses and
/// addresses of its requests, and how it ended.
struct Probing {
    port_pauses: Vec<u64>,
    requests: Vec<(u64, String)>,
    end: Probe,
}

/// A probe of a browser that tells `port` on the attempt of that number, and
/// lists `listing` whenever it is asked.
fn probe_with(
    patience: Patience,
    port: Option<(usize, u16)>,
    listing: impl Fn(usize) -> Option<Vec<Value>>,
) -> Probing {
    let mut port_pauses = vec![];
    let mut requests = vec![];
    let mut step = begin_probe(patience);
    loop {
        step = match step {
            ProbeStep::AskPort { pause_secs, search } => {
                port_pauses.push(pause_secs);
                let answer = match port {
                    Some((attempt, port)) if attempt == port_pauses.len() => Some(port),
                    _ => None,
                };
                local_cdp_port(search, answer)
            }
            ProbeStep::Fetch {
                pause_secs,
                url,
                search,
            } => {
                assert_eq!(Some(search.port()), port.map(|(_, port)| port));
                requests.push((pause_secs, url));
                local_page_ws_url(search, listing(requests.len()))
            }
            ProbeStep::Done(end) => {
                return Probing {
                    port_pauses,
                    requests,
                    end,
                }
            }
        };
    }
}

fn probe(patience: Patience, found: Option<&str>) -> Option<Probe> {
    let probing = match found {
        Some(url) => probe_with(patience, Some((1, 1)), |_| Some(vec![entry("page", url)])),
        None => probe_with(patience, None, |_| None),
    };
    assert_eq!(probing.end.is_miss(), found.is_none());
    Some(probing.end)
}

#[test]
fn the_local_page_socket_is_read_from_the_json_listing() {
    let targets = vec![
        entry("background_page", "ws://x/bg"),
        entry("page", "ws://127.0.0.1:1/devtools/page/A"),
    ];
    assert_eq!(
        pick_local_page_socket(&targets).as_deref(),
        Some("ws://127.0.0.1:1/devtools/page/A")
    );
    assert!(pick_local_page_socket(&[]).is_none());
}

#[test]
fn a_hasty_probe_tries_once_and_a_patient_one_waits() {
    // A quick probe tries once; a patient one waits out a browser that is
    // still starting.
    assert_eq!(Patience::Immediate.attempts(10), 1);
    assert_eq!(Patience::WaitForLaunch.attempts(10), 10);
}

#[test]
fn the_first_page_is_the_one_that_counts() {
    let targets = vec![entry("page", "ws://a"), entry("page", "ws://b")];
    assert_eq!(pick_local_page_socket(&targets).as_deref(), Some("ws://a"));

    let mut without_socket = Value::Object(serde_json::Map::new());
    without_socket["type"] = Value::from("page");
    assert!(pick_local_page_socket(&[without_socket, entry("page", "ws://b")]).is_none());

    let mut odd = entry("page", "ws://a");
    odd["webSocketDebuggerUrl"] = Value::from(7u64);
    assert!(pick_local_page_socket(&[odd]).is_none());

    let mut untyped = entry("page", "ws://a");
    untyped["type"] = Value::Null;
    assert!(pick_local_page_socket(&[untyped, Value::from("page"), Value::Array(vec![])]).is_none());
}

#[test]
fn the_listing_stands_on_the_debugging_port() {
    assert_eq!(listing_url(9222), "http://127.0.0.1:9222/json");
    assert_eq!(listing_url(0), "http://127.0.0.1:0/json");
    assert_eq!(listing_url(65535), "http://127.0.0.1:65535/json");
}

#[test]
fn a_browser_that_cannot_be_driven_is_refused() {
    match resolve(&profile("firefox", Some(1)), None) {
        ResolveStep::Done(Err(ResolveError::Unsupported(m))) => assert_eq!(
            m,
            "Profile 'Work' runs firefox, which cannot be driven over CDP"
        ),
        other => panic!("{other:?}"),
    }
}

#[test]
fn a_profile_without_a_process_is_not_running() {
    match resolve(&profile("wayfern", None), None) {
        ResolveStep::Done(Err(ResolveError::NotRunning(m))) => {
            assert_eq!(m, "Profile 'Work' is not running")
        }
        other => panic!("{other:?}"),
    }
}

#[test]
fn a_profile_is_probed_cheaply_and_then_patiently() {
    let profile = profile("wayfern", Some(4711));
    assert!(matches!(
        resolve(&profile, None),
        ResolveStep::Probe(Patience::Immediate)
    ));
    assert!(matches!(
        resolve(&profile, probe(Patience::Immediate, None)),
        ResolveStep::Probe(Patience::WaitForLaunch)
    ));
    match resolve(&profile, probe(Patience::Immediate, Some("ws://a"))) {
        ResolveStep::Done(Ok(CdpTarget::Local { ws_url })) => assert_eq!(ws_url, "ws://a"),
        other => panic!("{other:?}"),
    }
    match resolve(&profile, probe(Patience::WaitForLaunch, Some("ws://b"))) {
        ResolveStep::Done(Ok(CdpTarget::Local { ws_url })) => assert_eq!(ws_url, "ws://b"),
        other => panic!("{other:?}"),
    }
    match resolve(&profile, probe(Patience::WaitForLaunch, None)) {
        ResolveStep::Done(Err(ResolveError::NotRunning(m))) => assert_eq!(
            m,
            "No CDP connection available for profile 'Work'. Make sure the browser is running."
        ),
        other => panic!("{other:?}"),
    }
}

#[test]
fn without_a_port_no_request_is_made() {
    let hasty = probe_with(Patience::Immediate, None, |_| {
        Some(vec![entry("page", "ws://a")])
    });
    assert_eq!(hasty.port_pauses, vec![0]);
    assert!(hasty.requests.is_empty());
    assert!(hasty.end.is_miss());

    let patient = probe_with(Patience::WaitForLaunch, None, |_| {
        Some(vec![entry("page", "ws://a")])
    });
    assert_eq!(patient.port_pauses, vec![0, 1, 1, 1, 1, 1, 1, 1, 1, 1]);
    assert!(patient.requests.is_empty());
    assert!(patient.end.is_miss());
}

#[test]
fn a_hasty_probe_fetches_the_listing_once() {
    let probing = probe_with(Patience::Immediate, Some((1, 9222)), |_| Some(vec![]));
    assert_eq!(
        probing.requests,
        vec![(0, "http://127.0.0.1:9222/json".to_string())]
    );
    assert!(probing.end.is_miss());
}

#[test]
fn a_patient_probe_fetches_the_listing_fifteen_times_at_most() {
    let probing = probe_with(Patience::WaitForLaunch, Some((10, 9222)), |n| {
        if n % 2 == 0 {
            None
        } else {
            Some(vec![entry("background_page", "ws://bg")])
        }
    });
    assert_eq!(probing.port_pauses.len(), 10);
    assert_eq!(probing.requests.len(), 15);
    assert_eq!(
        probing.requests[0],
        (0, "http://127.0.0.1:9222/json".to_string())
    );
    assert_eq!(
        probing.requests[14],
        (1, "http://127.0.0.1:9222/json".to_string())
    );
    assert!(probing.end.is_miss());
}

#[test]
fn a_probe_ends_with_the_first_socket_it_finds() {
    let probing = probe_with(Patience::WaitForLaunch, Some((2, 9222)), |n| {
        if n < 15 {
            None
        } else {
            Some(vec![entry("page", "ws://late")])
        }
    });
    assert_eq!(probing.port_pauses, vec![0, 1]);
    assert_eq!(probing.requests.len(), 15);
    match resolve(&profile("wayfern", Some(1)), Some(probing.end)) {
        ResolveStep::Done(Ok(CdpTarget::Local { ws_url })) => assert_eq!(ws_url, "ws://late"),
        other => panic!("{other:?}"),
    }
}
