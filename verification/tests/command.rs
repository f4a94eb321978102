use cdp_target::command::{
    navigate, navigated, run_command, run_command_awaiting_load, watch_message, Action,
    CommandRun, Event, LoadRun, MessageNote,
};
use cdp_target::connection::{Arrival, CdpConnection, CloseInfo, StreamItem};
use cdp_target::error::CdpError;
use cdp_target::target::CdpTarget;
use serde_json::Value;
use std::collections::VecDeque;

fn json(text: &str) -> Value {
    serde_json::from_str(text).unwrap()
}

fn local() -> CdpTarget {
    CdpTarget::Local {
        ws_url: "ws://127.0.0.1:1/devtools/page/A".to_string(),
    }
}

fn text(text: &str) -> StreamItem {
    StreamItem::Text(text.to_string())
}

const SECOND: u128 = 1_000_000_000;

/// What the fake endpoint observed, and what it will say.
#[derive(Default)]
struct Relay {
    /// Every message the client sent, in order.
    received: Vec<Value>,
    /// What the client reads next; once it is empty, the wait expires.
    queue: VecDeque<StreamItem>,
    /// Whether each command is echoed back.
    echo: bool,
    /// How many messages can be sent before sending fails.
    sends: Option<usize>,
    /// The time that each read was given, in nanoseconds.
    reads: Vec<u128>,
    /// What the clock reads; it goes on by a second with each thing that is read.
    now_nanos: u64,
    opened: usize,
    closed: usize,
}

impl Relay {
    fn perform(&mut self, action: &Action) -> Option<Event> {
        match action {
            Action::Connect(CdpTarget::Local { ws_url }) => {
                assert_eq!(ws_url, "ws://127.0.0.1:1/devtools/page/A");
                self.opened += 1;
                Some(Event::Opened(Ok(())))
            }
            Action::Send(message) => {
                if self.sends == Some(self.received.len()) {
                    return Some(Event::Sent(Err("broken pipe".to_string())));
                }
                let request = json(message);
                if self.echo {
                    let mut reply = Value::Object(serde_json::Map::new());
                    reply["id"] = request["id"].clone();
                    reply["result"] = Value::Object(serde_json::Map::new());
                    reply["result"]["echo"] = request.clone();
                    self.queue.push_back(StreamItem::Text(reply.to_string()));
                }
                self.received.push(request);
                Some(Event::Sent(Ok(self.now_nanos)))
            }
            Action::Read(nanos) => {
                self.reads.push(*nanos);
                Some(self.read())
            }
            Action::Close => {
                self.closed += 1;
                Some(Event::Closed)
            }
            Action::Finish(_) => None,
        }
    }

    fn read(&mut self) -> Event {
        Event::Arrived(match self.queue.pop_front() {
            Some(item) => {
                self.now_nanos += SECOND as u64;
                Arrival::Item {
                    now_nanos: self.now_nanos,
                    item,
                }
            }
            None => Arrival::Expired,
        })
    }

    fn methods(&self) -> Vec<&str> {
        self.received
            .iter()
            .filter_map(|m| m.get("method").and_then(Value::as_str))
            .collect()
    }
}

fn drive(relay: &mut Relay, begun: (CommandRun, Action)) -> Result<Value, CdpError> {
    let (mut run, mut action) = begun;
    while let Some(event) = relay.perform(&action) {
        assert!(run.expects(&event));
        (run, action) = run.after(event);
    }
    assert!(!run.expects(&Event::Closed));
    match action {
        Action::Finish(result) => result,
        other => panic!("{other:?}"),
    }
}

fn drive_load(relay: &mut Relay, begun: (LoadRun, Action)) -> Result<Value, CdpError> {
    let (mut run, mut action) = begun;
    while let Some(event) = relay.perform(&action) {
        assert!(run.expects(&event));
        (run, action) = run.after(event);
    }
    assert!(!run.expects(&Event::Closed));
    match action {
        Action::Finish(result) => result,
        other => panic!("{other:?}"),
    }
}

fn load(relay: &mut Relay) -> Result<Value, CdpError> {
    drive_load(
        relay,
        run_command_awaiting_load(&local(), "Input.click", json(r#"{"x":1}"#), 30),
    )
}

/// An endpoint that has answered the command that switches page events on.
fn enabled(items: Vec<StreamItem>) -> Relay {
    let mut queue = VecDeque::from(vec![text(r#"{"id":1,"result":{}}"#)]);
    queue.extend(items);
    Relay {
        queue,
        ..Relay::default()
    }
}

#[test]
fn a_local_command_skips_the_attach_and_carries_no_session() {
    // The local arm talks to a PAGE socket. Sending it a sessionId, or making
    // it pay for an attach handshake it does not need, would be a regression
    // in the path that already worked.
    let mut relay = Relay {
        echo: true,
        ..Relay::default()
    };
    let result = drive(
        &mut relay,
        run_command(
            &local(),
            "Runtime.evaluate",
            json(r#"{ "expression": "1" }"#),
        ),
    )
    .expect("a local command must succeed");
    assert_eq!(result["echo"]["method"], "Runtime.evaluate");

    assert_eq!(relay.methods(), vec!["Runtime.evaluate"]);
    assert!(relay.received[0].get("sessionId").is_none());
    assert_eq!(relay.received[0]["id"], 2);
    assert_eq!(relay.received[0]["params"]["expression"], "1");
    assert_eq!((relay.opened, relay.closed), (1, 1));
    assert_eq!(relay.reads, vec![60 * SECOND]);
}

#[test]
fn a_command_run_passes_over_what_is_not_its_reply() {
    let mut relay = Relay {
        queue: VecDeque::from(vec![
            StreamItem::Other,
            text(r#"{"method":"Page.loadEventFired"}"#),
            text(r#"{"id":3,"result":{}}"#),
            text(r#"{"id":2,"result":{"n":5}}"#),
        ]),
        ..Relay::default()
    };
    let result = drive(&mut relay, run_command(&local(), "M", Value::Null)).unwrap();
    assert_eq!(result, json(r#"{"n":5}"#));
}

#[test]
fn a_command_run_hangs_up_however_the_command_went() {
    let mut silent = Relay::default();
    let error = drive(&mut silent, run_command(&local(), "M", Value::Null)).unwrap_err();
    assert_eq!(
        error.message(),
        "CDP transport failed: timed out waiting for a CDP response"
    );
    assert_eq!(silent.closed, 1);

    let mut broken = Relay {
        sends: Some(0),
        ..Relay::default()
    };
    let error = drive(&mut broken, run_command(&local(), "M", Value::Null)).unwrap_err();
    assert_eq!(
        error.message(),
        "CDP transport failed: failed to send CDP command: broken pipe"
    );
    assert_eq!(broken.closed, 1);
}

#[test]
fn a_command_run_without_a_connection_is_over() {
    let (run, _) = run_command(&local(), "M", Value::Null);
    let event = Event::Opened(Err(CdpError::Unreachable("x".to_string())));
    assert!(run.expects(&event));
    assert!(!run.expects(&Event::Sent(Ok(0))));
    let (run, action) = run.after(event);
    assert!(matches!(
        action,
        Action::Finish(Err(CdpError::Unreachable(_)))
    ));
    assert!(!run.expects(&Event::Closed));
}

#[test]
fn page_events_are_on_around_the_command() {
    let mut relay = enabled(vec![
        text(r#"{"id":2,"result":{"n":1}}"#),
        text(r#"{"method":"Page.loadEventFired"}"#),
        text("never read"),
    ]);
    assert_eq!(load(&mut relay).unwrap(), json(r#"{"n":1}"#));
    assert_eq!(
        relay.methods(),
        vec!["Page.enable", "Input.click", "Page.disable"]
    );
    assert_eq!(relay.received[0], json(r#"{"id":1,"method":"Page.enable","params":{}}"#));
    assert_eq!(
        relay.received[1],
        json(r#"{"id":2,"method":"Input.click","params":{"x":1}}"#)
    );
    assert_eq!(relay.received[2], json(r#"{"id":3,"method":"Page.disable","params":{}}"#));
    assert_eq!(relay.reads, vec![60 * SECOND, 30 * SECOND, 29 * SECOND]);
    assert_eq!(relay.closed, 1);
    assert_eq!(relay.queue.len(), 1);
}

#[test]
fn a_wait_for_a_load_that_never_comes_keeps_the_answer() {
    let mut relay = enabled(vec![
        text(r#"{"id":2,"result":{"n":1}}"#),
        StreamItem::Other,
        text("not json"),
        text(r#"{"method":"Page.frameNavigated"}"#),
    ]);
    assert_eq!(load(&mut relay).unwrap(), json(r#"{"n":1}"#));
    assert_eq!(relay.closed, 1);
}

#[test]
fn a_wait_for_a_load_ends_with_its_time() {
    // The clock goes on by a second with each message: the second one comes when
    // the time is up, is still heard, and is the last one.
    let mut relay = enabled(vec![
        text(r#"{"method":"Page.frameNavigated"}"#),
        text(r#"{"id":2,"result":{"n":1}}"#),
        text(r#"{"id":2,"result":{"n":2}}"#),
    ]);
    let begun = run_command_awaiting_load(&local(), "Input.click", Value::Null, 2);
    assert_eq!(
        drive_load(&mut relay, begun).unwrap(),
        json(r#"{"n":1}"#)
    );
    assert_eq!(relay.queue.len(), 1);
    assert_eq!(relay.reads, vec![60 * SECOND, 2 * SECOND, SECOND]);
    assert_eq!(relay.closed, 1);
}

#[test]
fn a_run_without_time_to_wait_reads_nothing_after_its_command() {
    let mut relay = enabled(vec![text(r#"{"id":2,"result":{"n":1}}"#)]);
    let begun = run_command_awaiting_load(&local(), "Input.click", Value::Null, 0);
    assert_eq!(
        drive_load(&mut relay, begun).unwrap_err().message(),
        "CDP transport failed: no response received from CDP (connection closed)"
    );
    assert_eq!(relay.queue.len(), 1);
    assert_eq!(
        relay.methods(),
        vec!["Page.enable", "Input.click", "Page.disable"]
    );
    assert_eq!(relay.closed, 1);
}

#[test]
fn the_newest_answer_counts() {
    let mut relay = enabled(vec![
        text(r#"{"id":2,"result":{"n":1}}"#),
        text(r#"{"id":2,"result":{"n":2}}"#),
    ]);
    assert_eq!(load(&mut relay).unwrap(), json(r#"{"n":2}"#));
}

#[test]
fn a_hang_up_after_the_answer_keeps_it() {
    let close = StreamItem::Close(Some(CloseInfo {
        code: 1008,
        reason: "bye".to_string(),
    }));
    let mut relay = enabled(vec![text(r#"{"id":2}"#), close]);
    assert_eq!(load(&mut relay).unwrap(), json("{}"));

    let close = StreamItem::Close(Some(CloseInfo {
        code: 1008,
        reason: "bye".to_string(),
    }));
    let mut relay = enabled(vec![close]);
    assert_eq!(
        load(&mut relay).unwrap_err().message(),
        "not authorised to drive this browser: no response received from CDP (1008: bye)"
    );
    assert_eq!(
        relay.methods(),
        vec!["Page.enable", "Input.click", "Page.disable"]
    );
}

#[test]
fn a_wait_without_an_answer_is_a_failure() {
    let mut relay = enabled(vec![]);
    assert_eq!(
        load(&mut relay).unwrap_err().message(),
        "CDP transport failed: no response received from CDP (connection closed)"
    );
    let mut relay = enabled(vec![text(r#"{"method":"Page.loadEventFired"}"#)]);
    assert_eq!(
        load(&mut relay).unwrap_err().message(),
        "CDP transport failed: no response received from CDP (connection closed)"
    );
}

#[test]
fn an_error_reply_or_a_broken_socket_is_a_failure() {
    let mut relay = enabled(vec![text(r#"{"id":2,"error":{"message":"no"}}"#)]);
    assert_eq!(
        load(&mut relay).unwrap_err().message(),
        r#"CDP error: {"message":"no"}"#
    );
    assert_eq!(
        relay.methods(),
        vec!["Page.enable", "Input.click", "Page.disable"]
    );
    assert_eq!(relay.closed, 1);

    let mut relay = enabled(vec![
        text(r#"{"id":2,"result":{}}"#),
        StreamItem::Failed("reset".to_string()),
    ]);
    assert_eq!(
        load(&mut relay).unwrap_err().message(),
        "CDP transport failed: CDP WebSocket error: reset"
    );
    assert_eq!(
        relay.methods(),
        vec!["Page.enable", "Input.click", "Page.disable"]
    );
    assert_eq!(relay.closed, 1);
}

#[test]
fn a_load_run_that_cannot_begin_stops_where_it_is() {
    let mut relay = Relay {
        queue: VecDeque::from(vec![text(r#"{"id":1,"error":"no"}"#)]),
        ..Relay::default()
    };
    assert_eq!(load(&mut relay).unwrap_err().message(), r#"CDP error: "no""#);
    assert_eq!(relay.methods(), vec!["Page.enable"]);
    assert_eq!(relay.closed, 0);

    let mut relay = Relay {
        sends: Some(0),
        ..Relay::default()
    };
    assert!(matches!(load(&mut relay), Err(CdpError::Transport(_))));
    assert!(relay.received.is_empty());

    let mut relay = Relay {
        sends: Some(1),
        ..enabled(vec![])
    };
    assert_eq!(
        load(&mut relay).unwrap_err().message(),
        "CDP transport failed: failed to send CDP command: broken pipe"
    );
    assert_eq!(relay.closed, 0);

    // Page events that cannot be switched off again do not spoil the result.
    let mut relay = Relay {
        sends: Some(2),
        ..enabled(vec![text(r#"{"id":2,"result":7}"#)])
    };
    assert_eq!(load(&mut relay).unwrap(), 7);
    assert_eq!(relay.closed, 1);
}

#[test]
fn a_load_run_without_a_connection_is_over() {
    let (run, _) = run_command_awaiting_load(&local(), "M", Value::Null, 1);
    let (run, action) = run.after(Event::Opened(Err(CdpError::NotDrivable("x".to_string()))));
    assert!(matches!(
        action,
        Action::Finish(Err(CdpError::NotDrivable(_)))
    ));
    assert!(!run.expects(&Event::Opened(Ok(()))));
}

#[test]
fn a_navigation_names_its_url() {
    let mut relay = enabled(vec![
        text(r#"{"id":2,"result":{"frameId":"F"}}"#),
        text(r#"{"method":"Page.loadEventFired","params":{}}"#),
    ]);
    let result = drive_load(&mut relay, navigate(&local(), "https://example.com", 5));
    assert!(navigated(result).is_ok());
    assert_eq!(relay.received[1]["method"], "Page.navigate");
    assert_eq!(
        relay.received[1]["params"],
        json(r#"{"url":"https://example.com"}"#)
    );
    assert_eq!(relay.reads, vec![60 * SECOND, 5 * SECOND, 4 * SECOND]);
    assert_eq!(
        navigated(Err(CdpError::Protocol("no".to_string())))
            .unwrap_err()
            .message(),
        "CDP error: no"
    );
}

#[test]
fn a_message_that_is_not_json_changes_nothing() {
    let connection = CdpConnection::new();
    match watch_message(&connection, Some(Value::from(1u64)), Err("odd".to_string())) {
        MessageNote::On(Some(answer)) => assert_eq!(answer, 1),
        other => panic!("{other:?}"),
    }
    // One message may be both the reply and the load event.
    match watch_message(
        &connection,
        None,
        Ok(json(r#"{"id":2,"result":4,"method":"Page.loadEventFired"}"#)),
    ) {
        MessageNote::Over(Ok(answer)) => assert_eq!(answer, 4),
        other => panic!("{other:?}"),
    }
}
