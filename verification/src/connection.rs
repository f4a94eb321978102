//! An open CDP conversation: the frames that go out, and what is made of the
//! frames that come in.

use crate::clock::{deadline, time_left};
use crate::error::{classify_close, CdpError, Failure};
use crate::json;
use crate::json::Json;
use crate::text::decimal_text;
use serde_json::Value;
use vstd::prelude::*;
use vstd::string::*;

verus! {

/// How long one CDP command may wait for its reply, in seconds.
///
/// Without a cap, a browser that never answers holds the caller until the
/// socket dies. An automation client that hangs is worse than one that fails.
pub const COMMAND_TIMEOUT_SECS: u64 = 60;

/// One outgoing CDP message: `id`, `method` and `params`, and `sessionId` only
/// where a session is in play.
pub open spec fn frame(
    session: Option<Seq<char>>,
    id: u64,
    method: Seq<char>,
    params: Json,
) -> Json {
    let members = Map::<Seq<char>, Json>::empty().insert("id"@, Json::Unsigned(id)).insert(
        "method"@,
        Json::Text(method),
    ).insert("params"@, params);
    match session {
        Some(session) => Json::Object(members.insert("sessionId"@, Json::Text(session))),
        None => Json::Object(members),
    }
}

/// The text of an optional string slice.
pub open spec fn session_text(session: Option<&str>) -> Option<Seq<char>> {
    match session {
        Some(session) => Some(session@),
        None => None,
    }
}

/// One outgoing CDP message, addressed to a page when a session id is in play.
pub fn cdp_frame(session: Option<&str>, id: u64, method: &str, params: Value) -> (message: Value)
    ensures
        json::json_of(message) == frame(
            session_text(session),
            id,
            method@,
            json::json_of(params),
        ),
{
    let mut message = json::object();
    json::set(&mut message, "id", json::number(id));
    json::set(&mut message, "method", json::string(method));
    json::set(&mut message, "params", params);
    if let Some(session) = session {
        json::set(&mut message, "sessionId", json::string(session));
    }
    message
}

/// What is made of a CDP message while the reply to command `id` is awaited:
/// nothing, where it is not that reply; else the error it carries, or else its
/// result, which is an empty object where it names none.
pub open spec fn reply_to(id: u64, response: Json) -> Option<Result<Json, Failure>> {
    if json::member(response, "id"@) != Some(Json::Unsigned(id)) {
        None
    } else {
        match json::member(response, "error"@) {
            Some(error) => Some(Err(Failure::Protocol(json::json_text(error)))),
            None => match json::member(response, "result"@) {
                Some(result) => Some(Ok(result)),
                None => Some(Ok(json::empty_object())),
            },
        }
    }
}

/// What a command came to.
pub open spec fn outcome(result: Result<Value, CdpError>) -> Result<Json, Failure> {
    match result {
        Ok(value) => Ok(json::json_of(value)),
        Err(error) => Err(error@),
    }
}

/// What an awaited command came to, once it is known.
pub open spec fn optional_outcome(result: Option<Result<Value, CdpError>>) -> Option<
    Result<Json, Failure>,
> {
    match result {
        Some(result) => Some(outcome(result)),
        None => None,
    }
}

/// Read the reply to command `id` out of one CDP message.
pub fn read_reply(id: u64, response: &Value) -> (reply: Option<Result<Value, CdpError>>)
    ensures
        optional_outcome(reply) == reply_to(id, json::json_of(*response)),
        match reply {
            None => !(json::json_of(*response) matches Json::Object(members)
                && members.dom().contains("id"@) && members["id"@] == Json::Unsigned(id)),
            Some(Ok(value)) => json::json_of(*response) matches Json::Object(members)
                && members.dom().contains("id"@) && members["id"@] == Json::Unsigned(id)
                && !members.dom().contains("error"@) && (if members.dom().contains("result"@) {
                json::json_of(value) == members["result"@]
            } else {
                json::json_of(value) == Json::Object(Map::empty())
            }),
            Some(Err(error)) => json::json_of(*response) matches Json::Object(members)
                && members.dom().contains("id"@) && members["id"@] == Json::Unsigned(id)
                && members.dom().contains("error"@) && error@ == Failure::Protocol(
                json::json_text(members["error"@]),
            ),
        },
{
    let ours = match json::get(response, "id") {
        Some(found) => json::equals(found, &json::number(id)),
        None => false,
    };
    if !ours {
        return None;
    }
    if let Some(error) = json::get(response, "error") {
        return Some(Err(CdpError::Protocol(json::write(error))));
    }
    match json::get(response, "result") {
        Some(result) => Some(Ok(json::duplicate(result))),
        None => Some(Ok(json::object())),
    }
}

/// Why the peer hung up.
#[derive(Debug, Clone)]
pub struct CloseInfo {
    pub code: u16,
    pub reason: String,
}

/// The model of a [`CloseInfo`].
pub struct HangUp {
    pub code: u16,
    pub reason: Seq<char>,
}

impl View for CloseInfo {
    type V = HangUp;

    open spec fn view(&self) -> HangUp {
        HangUp { code: self.code, reason: self.reason@ }
    }
}

/// The model of the reason in a close frame, if the frame gave one.
pub open spec fn hang_up(info: Option<CloseInfo>) -> Option<HangUp> {
    match info {
        Some(info) => Some(info@),
        None => None,
    }
}

/// What one read of the socket gave.
#[derive(Debug)]
pub enum StreamItem {
    /// A text message.
    Text(String),
    /// A close frame, with its code and reason if it gave them.
    Close(Option<CloseInfo>),
    /// A binary message, a ping, a pong or a raw frame.
    Other,
    /// The read failed, for the reason given.
    Failed(String),
    /// The stream is over.
    Ended,
}

/// The model of a [`StreamItem`].
pub enum Item {
    Text(Seq<char>),
    Close(Option<HangUp>),
    Other,
    Failed(Seq<char>),
    Ended,
}

impl View for StreamItem {
    type V = Item;

    open spec fn view(&self) -> Item {
        match self {
            StreamItem::Text(text) => Item::Text(text@),
            StreamItem::Close(info) => Item::Close(hang_up(*info)),
            StreamItem::Other => Item::Other,
            StreamItem::Failed(reason) => Item::Failed(reason@),
            StreamItem::Ended => Item::Ended,
        }
    }
}

/// What a read means to someone who wants the next text message.
#[derive(Debug)]
pub enum NextText {
    /// Nothing: read on.
    Skip,
    /// The peer has gone.
    Gone,
    /// The message.
    Text(String),
    /// The socket broke.
    Failed(CdpError),
}

/// The model of a [`NextText`].
pub enum Heard {
    Skip,
    Gone,
    Text(Seq<char>),
    Failed(Failure),
}

impl View for NextText {
    type V = Heard;

    open spec fn view(&self) -> Heard {
        match self {
            NextText::Skip => Heard::Skip,
            NextText::Gone => Heard::Gone,
            NextText::Text(text) => Heard::Text(text@),
            NextText::Failed(error) => Heard::Failed(error@),
        }
    }
}

/// What a read means to someone who wants the next text message.
pub open spec fn heard(item: Item) -> Heard {
    match item {
        Item::Text(text) => Heard::Text(text),
        Item::Close(_) => Heard::Gone,
        Item::Other => Heard::Skip,
        Item::Failed(reason) => Heard::Failed(
            Failure::Transport("CDP WebSocket error: "@ + reason),
        ),
        Item::Ended => Heard::Gone,
    }
}

/// What is known of a hang-up after a read, given what was known before it.
pub open spec fn closed_after(closed: Option<HangUp>, item: Item) -> Option<HangUp> {
    match item {
        Item::Close(info) => info,
        _ => closed,
    }
}

/// What a hang-up means, told in a context.
pub open spec fn closed_failure(closed: Option<HangUp>, context: Seq<char>) -> Failure {
    match closed {
        Some(info) => crate::error::close_failure(
            info.code,
            if info.reason.len() == 0 {
                context + " (close "@ + crate::text::decimal(info.code as nat) + ")"@
            } else {
                context + " ("@ + crate::text::decimal(info.code as nat) + ": "@ + info.reason
                    + ")"@
            },
        ),
        None => Failure::Transport(context + " (connection closed)"@),
    }
}

/// What came of waiting for the next read of the socket.
#[derive(Debug)]
pub enum Arrival {
    /// The read gave nothing in the time that it was given.
    Expired,
    /// The read gave this, and then the clock read so much.
    Item { now_nanos: u64, item: StreamItem },
}

/// The model of an [`Arrival`].
pub enum Arrived {
    Expired,
    Item(u64, Item),
}

impl View for Arrival {
    type V = Arrived;

    open spec fn view(&self) -> Arrived {
        match self {
            Arrival::Expired => Arrived::Expired,
            Arrival::Item { now_nanos, item } => Arrived::Item(*now_nanos, item@),
        }
    }
}

/// The wait for the reply to one command, which ends at a set time.
#[derive(Debug)]
pub struct ReplyWait {
    id: u64,
    deadline_nanos: u128,
}

/// The model of a [`ReplyWait`].
pub struct Wait {
    /// The id of the command.
    pub id: u64,
    /// The clock reading at which the wait is over.
    pub deadline: u128,
}

impl View for ReplyWait {
    type V = Wait;

    closed spec fn view(&self) -> Wait {
        Wait { id: self.id, deadline: self.deadline_nanos }
    }
}

/// What someone who awaits a reply does next.
#[derive(Debug)]
pub enum ReplyStep {
    /// Read the socket, for so long at most. Where no time is left, only what is
    /// there already counts.
    Read { left_nanos: u128, wait: ReplyWait },
    /// The wait is over.
    Done(Result<Value, CdpError>),
}

/// The model of a [`ReplyStep`].
pub enum Awaited {
    Read { left: u128, wait: Wait },
    Done(Result<Json, Failure>),
}

impl View for ReplyStep {
    type V = Awaited;

    open spec fn view(&self) -> Awaited {
        match self {
            ReplyStep::Read { left_nanos, wait } => Awaited::Read {
                left: *left_nanos,
                wait: wait@,
            },
            ReplyStep::Done(result) => Awaited::Done(outcome(*result)),
        }
    }
}

/// The hang-up that is known after an arrival.
pub open spec fn closed_on(closed: Option<HangUp>, arrival: Arrived) -> Option<HangUp> {
    match arrival {
        Arrived::Expired => closed,
        Arrived::Item(_, item) => closed_after(closed, item),
    }
}

/// What a message, once parsed, says of command `id`, whose reply is awaited:
/// nothing, where it is not that reply; and a message that is not JSON ends the
/// wait.
pub open spec fn message_read(id: u64, parsed: Result<Json, Seq<char>>) -> Option<
    Result<Json, Failure>,
> {
    match parsed {
        Err(reason) => Some(
            Err(Failure::Protocol("failed to parse CDP response: "@ + reason)),
        ),
        Ok(response) => reply_to(id, response),
    }
}

/// What an attempt to parse a message gave.
pub open spec fn parse_outcome(parsed: Result<Value, String>) -> Result<Json, Seq<char>> {
    match parsed {
        Ok(value) => Ok(json::json_of(value)),
        Err(reason) => Err(reason@),
    }
}

/// What a message, once parsed, says of command `id`, whose reply is awaited.
pub fn read_message(id: u64, parsed: Result<Value, String>) -> (reply: Option<
    Result<Value, CdpError>,
>)
    ensures
        optional_outcome(reply) == message_read(id, parse_outcome(parsed)),
{
    match parsed {
        Err(reason) => Some(
            Err(
                CdpError::Protocol(
                    "failed to parse CDP response: ".to_owned().concat(reason.as_str()),
                ),
            ),
        ),
        Ok(response) => read_reply(id, &response),
    }
}

/// No reply came in time.
pub open spec fn timed_out() -> Failure {
    Failure::Transport("timed out waiting for a CDP response"@)
}

/// A wait at the clock reading `now`: it goes on for the time that is left, and
/// is over where none is.
pub open spec fn waiting(wait: Wait, now: u64) -> Awaited {
    match crate::clock::left_until(wait.deadline, now) {
        Some(left) => Awaited::Read { left, wait },
        None => Awaited::Done(Err(timed_out())),
    }
}

/// A wait for the reply to command `id`, begun at the clock reading `now`.
pub open spec fn begun_wait(id: u64, secs: u64, subsec_nanos: u32, now: u64) -> Awaited {
    waiting(Wait { id, deadline: crate::clock::deadline_of(now, secs, subsec_nanos) }, now)
}

/// The time that a read is given after one that gave no message: what is left of
/// the wait, which may be nothing.
pub open spec fn rest_of_read(deadline: u128, now: u64) -> u128 {
    match crate::clock::left_until(deadline, now) {
        Some(left) => left,
        None => 0,
    }
}

/// What is made of an arrival while a reply is awaited.
pub open spec fn awaited(closed: Option<HangUp>, wait: Wait, arrival: Arrived) -> Awaited {
    match arrival {
        Arrived::Expired => Awaited::Done(Err(timed_out())),
        Arrived::Item(now, item) => match heard(item) {
            Heard::Skip => Awaited::Read { left: rest_of_read(wait.deadline, now), wait },
            Heard::Gone => Awaited::Done(
                Err(closed_failure(closed_after(closed, item), "no response received from CDP"@)),
            ),
            Heard::Failed(failure) => Awaited::Done(Err(failure)),
            Heard::Text(text) => match message_read(wait.id, json::parsed_json(text)) {
                Some(result) => Awaited::Done(result),
                None => waiting(wait, now),
            },
        },
    }
}

/// How the sending of a command went: when it was done, by the clock, or the
/// socket's reason if it failed.
pub open spec fn sending(sent: Result<u64, String>) -> Result<u64, Seq<char>> {
    match sent {
        Ok(now) => Ok(now),
        Err(reason) => Err(reason@),
    }
}

/// What a failure to send means.
pub open spec fn send_failure(reason: Seq<char>) -> Failure {
    Failure::Transport("failed to send CDP command: "@ + reason)
}

/// The error for a command that could not be sent, for the reason given.
pub(crate) fn send_error(reason: String) -> (error: CdpError)
    ensures
        error@ == send_failure(reason@),
{
    CdpError::Transport("failed to send CDP command: ".to_owned().concat(reason.as_str()))
}

/// How the call of command `id` goes on once its frame was sent, or could not be.
pub open spec fn call_sent(id: u64, sent: Result<u64, Seq<char>>) -> Awaited {
    match sent {
        Ok(now) => begun_wait(id, COMMAND_TIMEOUT_SECS, 0, now),
        Err(reason) => Awaited::Done(Err(send_failure(reason))),
    }
}

/// What a conversation with one browser has come to know of its end.
#[derive(Debug)]
pub struct CdpConnection {
    closed: Option<CloseInfo>,
}

impl View for CdpConnection {
    type V = Option<HangUp>;

    closed spec fn view(&self) -> Option<HangUp> {
        hang_up(self.closed)
    }
}

impl CdpConnection {
    /// A conversation that was just opened.
    pub fn new() -> (connection: CdpConnection)
        ensures
            connection@ is None,
    {
        CdpConnection { closed: None }
    }

    /// The text to send for `method` as command `id`.
    ///
    /// The target is a page, so the frame carries no session id. Whoever parses
    /// the text reads the frame that was meant, where the parameters are not
    /// nested too deep for the parser and hold no numbers but integers that fit
    /// `u64`.
    pub fn send_command(&self, id: u64, method: &str, params: Value) -> (text: String)
        ensures
            text@ == json::json_text(frame(None, id, method@, json::json_of(params))),
            json::is_shallow(json::json_of(params), 126) ==> json::reads_as(
                text@,
                frame(None, id, method@, json::json_of(params)),
            ),
    {
        let message = cdp_frame(None, id, method, params);
        proof {
            let members = json::json_of(message)->Object_0;
            assert forall|key: Seq<char>|
                members.dom().contains(key) && json::is_shallow(
                    json::json_of(params),
                    126,
                ) implies json::is_shallow(#[trigger] members[key], 126) by {}
        }
        json::write(&message)
    }

    /// What the attempt to send a command came to.
    pub fn command_sent(&self, sent: Result<u64, String>) -> (result: Result<(), CdpError>)
        ensures
            crate::error::attempt(result) == match sending(sent) {
                Ok(_) => Ok(()),
                Err(reason) => Err(send_failure(reason)),
            },
    {
        match sent {
            Ok(_) => Ok(()),
            Err(reason) => Err(send_error(reason)),
        }
    }

    /// What a read of the socket means to someone who wants the next text message.
    ///
    /// Binary frames, pings and pongs are consumed silently; a close is recorded
    /// so its reason survives into whatever error the caller builds.
    pub fn next_text(&mut self, item: StreamItem) -> (next: NextText)
        ensures
            next@ == heard(item@),
            final(self)@ == closed_after(old(self)@, item@),
    {
        match item {
            StreamItem::Text(text) => NextText::Text(text),
            StreamItem::Close(info) => {
                self.closed = info;
                NextText::Gone
            },
            StreamItem::Other => NextText::Skip,
            StreamItem::Failed(reason) => NextText::Failed(
                CdpError::Transport("CDP WebSocket error: ".to_owned().concat(reason.as_str())),
            ),
            StreamItem::Ended => NextText::Gone,
        }
    }

    /// Turn a hang-up into the error it means.
    ///
    /// The relay's close codes are its whole vocabulary: 1008 is "that credential
    /// is no good", 1013 is "come back when the session is up". Reporting either
    /// as a generic transport failure throws away the only actionable thing the
    /// server said.
    pub fn closed_error(&self, context: &str) -> (error: CdpError)
        ensures
            error@ == closed_failure(self@, context@),
    {
        match &self.closed {
            Some(info) => {
                let code = decimal_text(info.code as u64);
                let detail = if info.reason.as_str().is_empty() {
                    context.to_owned().concat(" (close ").concat(code.as_str()).concat(")")
                } else {
                    context.to_owned().concat(" (").concat(code.as_str()).concat(": ").concat(
                        info.reason.as_str(),
                    ).concat(")")
                };
                classify_close(info.code, detail)
            },
            None => CdpError::Transport(context.to_owned().concat(" (connection closed)")),
        }
    }

    /// Begin to wait for the reply to command `id`, for so many seconds and
    /// nanoseconds.
    pub fn await_reply(
        &self,
        id: u64,
        timeout_secs: u64,
        timeout_subsec_nanos: u32,
        now_nanos: u64,
    ) -> (step: ReplyStep)
        ensures
            step@ == begun_wait(id, timeout_secs, timeout_subsec_nanos, now_nanos),
    {
        let wait = ReplyWait {
            id,
            deadline_nanos: deadline(now_nanos, timeout_secs, timeout_subsec_nanos),
        };
        wait.at(now_nanos)
    }

    /// Begin to call `method` as command `id`: the call, and the text to send
    /// first, which is that of [`CdpConnection::send_command`].
    pub fn call(&self, id: u64, method: &str, params: Value) -> (begun: (Call, String))
        ensures
            begun.0@ == id,
            begun.1@ == json::json_text(frame(None, id, method@, json::json_of(params))),
            json::is_shallow(json::json_of(params), 126) ==> json::reads_as(
                begun.1@,
                frame(None, id, method@, json::json_of(params)),
            ),
    {
        let text = self.send_command(id, method, params);
        (Call { id }, text)
    }
}

impl ReplyWait {
    fn at(self, now_nanos: u64) -> (step: ReplyStep)
        ensures
            step@ == waiting(self@, now_nanos),
    {
        match time_left(self.deadline_nanos, now_nanos) {
            Some(left_nanos) => ReplyStep::Read { left_nanos, wait: self },
            None => ReplyStep::Done(
                Err(CdpError::Transport("timed out waiting for a CDP response".to_owned())),
            ),
        }
    }

    /// What is made of an arrival while the reply is awaited.
    ///
    /// Events and replies to other commands are discarded on the way, and do not
    /// push the deadline back.
    pub fn after(self, connection: &mut CdpConnection, arrival: Arrival) -> (step: ReplyStep)
        ensures
            step@ == awaited(old(connection)@, self@, arrival@),
            final(connection)@ == closed_on(old(connection)@, arrival@),
    {
        let (now_nanos, item) = match arrival {
            Arrival::Expired => {
                return ReplyStep::Done(
                    Err(CdpError::Transport("timed out waiting for a CDP response".to_owned())),
                );
            },
            Arrival::Item { now_nanos, item } => (now_nanos, item),
        };
        match connection.next_text(item) {
            NextText::Skip => ReplyStep::Read {
                left_nanos: time_left(self.deadline_nanos, now_nanos).unwrap_or(0),
                wait: self,
            },
            NextText::Gone => ReplyStep::Done(
                Err(connection.closed_error("no response received from CDP")),
            ),
            NextText::Failed(error) => ReplyStep::Done(Err(error)),
            NextText::Text(text) => match read_message(self.id, json::parse(text.as_str())) {
                Some(result) => ReplyStep::Done(result),
                None => self.at(now_nanos),
            },
        }
    }
}

/// A call of one command, whose frame is being sent.
#[derive(Debug)]
pub struct Call {
    id: u64,
}

impl View for Call {
    type V = u64;

    /// The id of the command.
    closed spec fn view(&self) -> u64 {
        self.id
    }
}

impl Call {
    /// How the call goes on once its frame was sent, or could not be: its reply is
    /// awaited, bounded by [`COMMAND_TIMEOUT_SECS`].
    pub fn sent(self, connection: &CdpConnection, sent: Result<u64, String>) -> (step: ReplyStep)
        ensures
            step@ == call_sent(self@, sending(sent)),
    {
        match sent {
            Ok(now_nanos) => connection.await_reply(self.id, COMMAND_TIMEOUT_SECS, 0, now_nanos),
            Err(reason) => ReplyStep::Done(Err(send_error(reason))),
        }
    }
}

} // verus!
