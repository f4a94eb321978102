use cdp_target::clock::{deadline, time_left};
use cdp_target::connection::{
    cdp_frame, read_message, read_reply, Arrival, CdpConnection, CloseInfo, NextText, ReplyStep,
    ReplyWait, StreamItem,
};
use cdp_target::error::CdpError;
use serde_json::Value;

fn json(text: &str) -> Value {
    serde_json::from_str(text).unwrap()
}

fn at(now_nanos: u64, item: StreamItem) -> Arrival {
    Arrival::Item { now_nanos, item }
}

fn text(now_nanos: u64, text: &str) -> Arrival {
    at(now_nanos, StreamItem::Text(text.to_string()))
}

/// A wait of ten seconds for the reply to command 7, begun when the clock read
/// 1000.
fn wait(connection: &CdpConnection) -> ReplyWait {
    reading(connection.await_reply(7, 10, 0, 1000), 10_000_000_000)
}

/// The wait that goes on with a read of so many nanoseconds.
fn reading(step: ReplyStep, nanos: u128) -> ReplyWait {
    match step {
        ReplyStep::Read { left_nanos, wait } => {
            assert_eq!(left_nanos, nanos);
            wait
        }
        other => panic!("{other:?}"),
    }
}

fn done(step: ReplyStep) -> Result<Value, CdpError> {
    match step {
        ReplyStep::Done(result) => result,
        other => panic!("{other:?}"),
    }
}

fn close(code: u16, reason: &str) -> StreamItem {
    StreamItem::Close(Some(CloseInfo {
        code,
        reason: reason.to_string(),
    }))
}

#[test]
fn a_remote_frame_addresses_the_page_and_a_local_one_does_not() {
    // A page-level CDP command must carry `sessionId` only when a session is
    // in play; a missing or spurious id silently misroutes a single tool.
    let mut params = Value::Object(serde_json::Map::new());
    params["url"] = Value::from("https://example.com");
    let remote = cdp_frame(Some("SESSION-42"), 7, "Page.navigate", params);
    assert_eq!(remote["sessionId"], "SESSION-42");
    assert_eq!(remote["id"], 7);
    assert_eq!(remote["method"], "Page.navigate");
    assert_eq!(remote["params"]["url"], "https://example.com");

    let local = cdp_frame(
        None,
        7,
        "Page.navigate",
        Value::Object(serde_json::Map::new()),
    );
    assert!(local.get("sessionId").is_none());
    assert_eq!(local["id"], 7);
}

#[test]
fn a_frame_holds_nothing_but_its_parts() {
    assert_eq!(
        cdp_frame(None, u64::MAX, "M", Value::Null),
        json(r#"{"id":18446744073709551615,"method":"M","params":null}"#)
    );
    assert_eq!(
        cdp_frame(Some(""), 0, "", json("[1.5]")),
        json(r#"{"id":0,"method":"","params":[1.5],"sessionId":""}"#)
    );
}

#[test]
fn a_command_is_sent_as_compact_json_that_reads_back() {
    let connection = CdpConnection::new();
    let sent = connection.send_command(
        2,
        "Runtime.evaluate",
        json(r#"{ "expression": "\"a\" + 1\n" }"#),
    );
    assert_eq!(
        sent,
        r#"{"id":2,"method":"Runtime.evaluate","params":{"expression":"\"a\" + 1\n"}}"#
    );
    assert_eq!(
        json(&sent),
        cdp_frame(
            None,
            2,
            "Runtime.evaluate",
            json(r#"{ "expression": "\"a\" + 1\n" }"#)
        )
    );
}

#[test]
fn parameters_read_back_as_deep_as_the_parser_goes() {
    let nested = |depth: usize| {
        let mut value = Value::Null;
        for _ in 0..depth {
            value = Value::Array(vec![value]);
        }
        value
    };
    let connection = CdpConnection::new();
    let sent = connection.send_command(1, "M", nested(126));
    assert_eq!(json(&sent), cdp_frame(None, 1, "M", nested(126)));
    let sent = connection.send_command(1, "M", nested(127));
    assert!(serde_json::from_str::<Value>(&sent).is_err());
}

#[test]
fn a_failure_to_send_is_a_transport_failure() {
    let connection = CdpConnection::new();
    assert!(connection.command_sent(Ok(5)).is_ok());
    assert_eq!(
        connection
            .command_sent(Err("gone".to_string()))
            .unwrap_err()
            .message(),
        "CDP transport failed: failed to send CDP command: gone"
    );
}

#[test]
fn noise_on_the_socket_is_skipped() {
    let mut connection = CdpConnection::new();
    assert!(matches!(
        connection.next_text(StreamItem::Other),
        NextText::Skip
    ));
    match connection.next_text(StreamItem::Text("hello".to_string())) {
        NextText::Text(text) => assert_eq!(text, "hello"),
        other => panic!("{other:?}"),
    }
    match connection.next_text(StreamItem::Failed("reset".to_string())) {
        NextText::Failed(error) => assert_eq!(
            error.message(),
            "CDP transport failed: CDP WebSocket error: reset"
        ),
        other => panic!("{other:?}"),
    }
    assert!(matches!(
        connection.next_text(StreamItem::Ended),
        NextText::Gone
    ));
    assert_eq!(
        connection.closed_error("ctx").message(),
        "CDP transport failed: ctx (connection closed)"
    );
}

#[test]
fn the_reason_of_a_close_survives_into_the_error() {
    let mut connection = CdpConnection::new();
    assert!(matches!(
        connection.next_text(close(1008, "bad token")),
        NextText::Gone
    ));
    assert_eq!(
        connection.closed_error("ctx").message(),
        "not authorised to drive this browser: ctx (1008: bad token)"
    );
    // The stream ends after the close; what was recorded stays.
    connection.next_text(StreamItem::Ended);
    assert!(matches!(
        connection.closed_error("ctx"),
        CdpError::Unauthorized(_)
    ));

    let mut connection = CdpConnection::new();
    connection.next_text(close(1013, ""));
    assert_eq!(
        connection.closed_error("ctx").message(),
        "browser is not drivable yet: ctx (close 1013)"
    );

    let mut connection = CdpConnection::new();
    connection.next_text(StreamItem::Close(None));
    assert_eq!(
        connection.closed_error("ctx").message(),
        "CDP transport failed: ctx (connection closed)"
    );
}

#[test]
fn a_reply_is_told_by_its_id() {
    let reply = |text: &str| read_reply(7, &json(text));
    assert!(reply(r#"{"method":"Page.loadEventFired"}"#).is_none());
    assert!(reply(r#"{"id":8,"result":{}}"#).is_none());
    assert!(reply(r#"{"id":"7","result":{}}"#).is_none());
    assert!(reply(r#"{"id":7.0,"result":{}}"#).is_none());
    assert!(reply("[7]").is_none());
    assert!(reply("null").is_none());
    assert_eq!(
        reply(r#"{"id":7,"result":{"a":[1]}}"#).unwrap().unwrap(),
        json(r#"{"a":[1]}"#)
    );
    assert_eq!(reply(r#"{"id":7,"result":null}"#).unwrap().unwrap(), Value::Null);
    assert_eq!(reply(r#"{"id":7}"#).unwrap().unwrap(), json("{}"));
    assert_eq!(
        reply(r#"{"id":7,"result":1,"error":{"message":"no","code":-1}}"#)
            .unwrap()
            .unwrap_err()
            .message(),
        r#"CDP error: {"code":-1,"message":"no"}"#
    );
}

#[test]
fn a_message_that_is_not_json_ends_the_wait() {
    assert_eq!(
        read_message(7, Err("odd".to_string()))
            .unwrap()
            .unwrap_err()
            .message(),
        "CDP error: failed to parse CDP response: odd"
    );
    assert!(read_message(7, Ok(json("{}"))).is_none());
    assert!(read_message(7, Ok(json(r#"{"id":7}"#))).unwrap().is_ok());
    let mut connection = CdpConnection::new();
    match done(wait(&connection).after(&mut connection, text(2000, "{"))) {
        Err(CdpError::Protocol(m)) => {
            assert!(m.starts_with("failed to parse CDP response: "));
            assert!(m.len() > "failed to parse CDP response: ".len());
        }
        other => panic!("{other:?}"),
    }
}

#[test]
fn events_are_discarded_on_the_way_to_the_reply() {
    let mut connection = CdpConnection::new();
    let wait = wait(&connection);
    let step = wait.after(&mut connection, at(2000, StreamItem::Other));
    let wait = reading(step, 9_999_999_000);
    let step = wait.after(
        &mut connection,
        text(5_000_001_000, r#"{"method":"Page.frameNavigated"}"#),
    );
    let wait = reading(step, 5_000_000_000);
    let step = wait.after(
        &mut connection,
        text(10_000_000_999, r#"{"id":6,"error":{}}"#),
    );
    let wait = reading(step, 1);
    // A reply that comes when the time is up is still the reply.
    let step = wait.after(
        &mut connection,
        text(20_000_000_000, r#"{"id":7,"result":{"ok":true}}"#),
    );
    assert_eq!(done(step).unwrap()["ok"], true);
}

#[test]
fn no_event_pushes_the_deadline_back() {
    let mut connection = CdpConnection::new();
    // A ping leaves the read that was begun to its end, even at the deadline.
    let step = wait(&connection).after(&mut connection, at(10_000_001_000, StreamItem::Other));
    let wait = reading(step, 0);
    // One more message that is not the reply, and the wait is over.
    let step = wait.after(
        &mut connection,
        text(10_000_001_000, r#"{"method":"Page.frameNavigated"}"#),
    );
    assert_eq!(
        done(step).unwrap_err().message(),
        "CDP transport failed: timed out waiting for a CDP response"
    );
}

#[test]
fn a_wait_of_nothing_reads_nothing() {
    let connection = CdpConnection::new();
    assert_eq!(
        done(connection.await_reply(7, 0, 0, 1000))
            .unwrap_err()
            .message(),
        "CDP transport failed: timed out waiting for a CDP response"
    );
    reading(connection.await_reply(7, 0, 1, 1000), 1);
    reading(
        connection.await_reply(7, u64::MAX, u32::MAX, u64::MAX),
        u64::MAX as u128 * 1_000_000_000 + u32::MAX as u128,
    );
}

#[test]
fn the_time_left_runs_out_at_the_deadline() {
    assert_eq!(deadline(5, 2, 7), 2_000_000_012);
    assert_eq!(time_left(10, 3), Some(7));
    assert_eq!(time_left(10, 9), Some(1));
    assert_eq!(time_left(10, 10), None);
    assert_eq!(time_left(10, 11), None);
    assert_eq!(time_left(0, 0), None);
}

#[test]
fn a_wait_ends_without_a_reply_in_the_error_it_means() {
    let mut connection = CdpConnection::new();
    let step = wait(&connection).after(&mut connection, Arrival::Expired);
    assert_eq!(
        done(step).unwrap_err().message(),
        "CDP transport failed: timed out waiting for a CDP response"
    );
    let step = wait(&connection).after(&mut connection, at(2000, close(1011, "lost")));
    assert_eq!(
        done(step).unwrap_err().message(),
        "browser unreachable: no response received from CDP (1011: lost)"
    );
    let mut connection = CdpConnection::new();
    let failed = StreamItem::Failed("reset".to_string());
    let step = wait(&connection).after(&mut connection, at(2000, failed));
    assert_eq!(
        done(step).unwrap_err().message(),
        "CDP transport failed: CDP WebSocket error: reset"
    );
}

#[test]
fn a_call_sends_its_frame_and_awaits_that_reply_for_a_minute() {
    let mut connection = CdpConnection::new();
    let (call, sent) = connection.call(7, "M", json("[]"));
    assert_eq!(sent, r#"{"id":7,"method":"M","params":[]}"#);
    let wait = reading(call.sent(&connection, Ok(40)), 60_000_000_000);
    let step = wait.after(&mut connection, text(50, r#"{"id":8,"result":1}"#));
    let wait = reading(step, 59_999_999_990);
    let step = wait.after(&mut connection, text(60, r#"{"id":7,"result":2}"#));
    assert_eq!(done(step).unwrap(), 2);

    let (call, _) = connection.call(7, "M", Value::Null);
    assert_eq!(
        done(call.sent(&connection, Err("gone".to_string())))
            .unwrap_err()
            .message(),
        "CDP transport failed: failed to send CDP command: gone"
    );
}
