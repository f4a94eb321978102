//! Whole commands, from opening the connection to hanging up.
//!
//! A run is a state machine: it says what to do next, is told what came of it,
//! and ends by handing back the result of its command.

use crate::clock::{deadline, time_left};
use crate::connection::{
    read_reply, send_error, Arrival, Arrived, Awaited, Call, CdpConnection, HangUp, NextText, ReplyStep,
    ReplyWait, Wait,
};
use crate::error::{CdpError, Failure};
use crate::json;
use crate::json::Json;
use crate::target::CdpTarget;
use serde_json::Value;
use vstd::prelude::*;
use vstd::string::*;

verus! {

/// Id of the command that switches page events on.
///
/// A caller never picks the ids of a run, so they are stated once here rather
/// than being re-derived at each call site.
pub const RUN_PAGE_ENABLE_ID: u64 = 1;

/// Id of the command that a run is for.
pub const RUN_COMMAND_ID: u64 = 2;

/// Id of the command that switches page events off again.
pub const RUN_PAGE_DISABLE_ID: u64 = 3;

/// What came of the last action of a run.
#[derive(Debug)]
pub enum Event {
    /// The connection was opened, or could not be.
    Opened(Result<(), CdpError>),
    /// The text was handed to the socket, and then the clock read so many
    /// nanoseconds; or it could not be, for the reason given.
    Sent(Result<u64, String>),
    /// Something came of the read.
    Arrived(Arrival),
    /// The connection was hung up.
    Closed,
}

/// What a run wants done next.
#[derive(Debug)]
pub enum Action {
    /// Open a connection to this target.
    Connect(CdpTarget),
    /// Send this text message.
    Send(String),
    /// Read the socket, for so many nanoseconds at most. Where that is none, only
    /// what is there already counts.
    Read(u128),
    /// Hang up.
    Close,
    /// Nothing more: the run is over, with this result.
    Finish(Result<Value, CdpError>),
}

/// The model of an [`Event`].
pub enum Happened {
    Opened(Result<(), Failure>),
    Sent(Result<u64, Seq<char>>),
    Arrived(Arrived),
    Closed,
}

/// The model of an [`Action`].
pub enum Act {
    Connect(Seq<char>),
    Send(Seq<char>),
    Read(u128),
    Close,
    Finish(Result<Json, Failure>),
}

impl View for Event {
    type V = Happened;

    open spec fn view(&self) -> Happened {
        match self {
            Event::Opened(opened) => Happened::Opened(crate::error::attempt(*opened)),
            Event::Sent(sent) => Happened::Sent(crate::connection::sending(*sent)),
            Event::Arrived(arrival) => Happened::Arrived(arrival@),
            Event::Closed => Happened::Closed,
        }
    }
}

impl View for Action {
    type V = Act;

    open spec fn view(&self) -> Act {
        match self {
            Action::Connect(target) => Act::Connect(target@),
            Action::Send(text) => Act::Send(text@),
            Action::Read(nanos) => Act::Read(*nanos),
            Action::Close => Act::Close,
            Action::Finish(result) => Act::Finish(crate::connection::outcome(*result)),
        }
    }
}

/// The text that is sent for `method` as command `id` of a run.
pub open spec fn command_text(id: u64, method: Seq<char>, params: Json) -> Seq<char> {
    json::json_text(crate::connection::frame(None, id, method, params))
}

// One command and its reply
// -------------------------

/// How far the run of a single command has come.
pub enum CommandStage {
    /// The connection is being opened; the call has this id.
    Connecting(u64),
    /// The command is being sent, with this id.
    Sending(u64),
    /// Its reply is awaited.
    Awaiting(Wait),
    /// The connection is being hung up, and this is the result.
    Closing(Result<Json, Failure>),
    /// The run is over.
    Finished,
}

/// The model of a [`CommandRun`].
pub struct CommandState {
    /// The text of the command.
    pub command: Seq<char>,
    /// What is known of a hang-up by the peer.
    pub closed: Option<HangUp>,
    /// How far the run has come.
    pub stage: CommandStage,
}

impl CommandState {
    /// The run of a command at its beginning.
    pub open spec fn initial(method: Seq<char>, params: Json) -> CommandState {
        CommandState {
            command: command_text(RUN_COMMAND_ID, method, params),
            closed: None,
            stage: CommandStage::Connecting(RUN_COMMAND_ID),
        }
    }

    /// `event` is one that may follow the last action of the run.
    pub open spec fn expects(self, event: Happened) -> bool {
        match self.stage {
            CommandStage::Connecting(_) => event is Opened,
            CommandStage::Sending(_) => event is Sent,
            CommandStage::Awaiting(_) => event is Arrived,
            CommandStage::Closing(_) => event is Closed,
            CommandStage::Finished => false,
        }
    }

    /// The run at another stage.
    pub open spec fn at(self, stage: CommandStage) -> CommandState {
        CommandState { stage, ..self }
    }

    /// How the run goes on, given how the call that it makes does.
    pub open spec fn called(self, step: Awaited) -> (CommandState, Act) {
        match step {
            Awaited::Read { left, wait } => (
                self.at(CommandStage::Awaiting(wait)),
                Act::Read(left),
            ),
            Awaited::Done(result) => (self.at(CommandStage::Closing(result)), Act::Close),
        }
    }

    /// How the run goes on after `event`: it connects, sends its command, awaits
    /// the reply and hangs up, however the call went.
    pub open spec fn after(self, event: Happened) -> (CommandState, Act) {
        match (self.stage, event) {
            (CommandStage::Connecting(id), Happened::Opened(Ok(()))) => (
                self.at(CommandStage::Sending(id)),
                Act::Send(self.command),
            ),
            (CommandStage::Connecting(_), Happened::Opened(Err(failure))) => (
                self.at(CommandStage::Finished),
                Act::Finish(Err(failure)),
            ),
            (CommandStage::Sending(id), Happened::Sent(sent)) => self.called(
                crate::connection::call_sent(id, sent),
            ),
            (CommandStage::Awaiting(wait), Happened::Arrived(arrival)) => CommandState {
                closed: crate::connection::closed_on(self.closed, arrival),
                ..self
            }.called(crate::connection::awaited(self.closed, wait, arrival)),
            (CommandStage::Closing(result), _) => (
                self.at(CommandStage::Finished),
                Act::Finish(result),
            ),
            _ => (self, Act::Close),
        }
    }
}

#[derive(Debug)]
enum CommandPhase {
    Connecting(Call),
    Sending(Call),
    Awaiting(ReplyWait),
    Closing(Result<Value, CdpError>),
    Finished,
}

/// The run of one command on a fresh connection.
#[derive(Debug)]
pub struct CommandRun {
    command: String,
    connection: CdpConnection,
    phase: CommandPhase,
}

impl View for CommandRun {
    type V = CommandState;

    closed spec fn view(&self) -> CommandState {
        CommandState {
            command: self.command@,
            closed: self.connection@,
            stage: match self.phase {
                CommandPhase::Connecting(call) => CommandStage::Connecting(call@),
                CommandPhase::Sending(call) => CommandStage::Sending(call@),
                CommandPhase::Awaiting(wait) => CommandStage::Awaiting(wait@),
                CommandPhase::Closing(result) => CommandStage::Closing(
                    crate::connection::outcome(result),
                ),
                CommandPhase::Finished => CommandStage::Finished,
            },
        }
    }
}

/// Run one command on a fresh connection and hand back its result.
pub fn run_command(target: &CdpTarget, method: &str, params: Value) -> (begun: (
    CommandRun,
    Action,
))
    ensures
        begun.0@ == CommandState::initial(method@, json::json_of(params)),
        begun.0@.command == json::json_text(
            Json::Object(
                map![
                    "id"@ => Json::Unsigned(2),
                    "method"@ => Json::Text(method@),
                    "params"@ => json::json_of(params),
                ],
            ),
        ),
        json::is_shallow(json::json_of(params), 126) ==> json::reads_as(
            begun.0@.command,
            Json::Object(
                map![
                    "id"@ => Json::Unsigned(2),
                    "method"@ => Json::Text(method@),
                    "params"@ => json::json_of(params),
                ],
            ),
        ),
        begun.1@ == Act::Connect(target@),
{
    let connection = CdpConnection::new();
    let (call, command) = connection.call(RUN_COMMAND_ID, method, params);
    let run = CommandRun { command, connection, phase: CommandPhase::Connecting(call) };
    (run, Action::Connect(target.clone()))
}

impl CommandRun {
    /// Whether `event` is one that may follow the last action of the run.
    pub fn expects(&self, event: &Event) -> (expected: bool)
        ensures
            expected == self@.expects(event@),
    {
        match (&self.phase, event) {
            (CommandPhase::Connecting(_), Event::Opened(_)) => true,
            (CommandPhase::Sending(_), Event::Sent(_)) => true,
            (CommandPhase::Awaiting(_), Event::Arrived(_)) => true,
            (CommandPhase::Closing(_), Event::Closed) => true,
            _ => false,
        }
    }

    /// Tell the run what came of its last action, and learn the next one.
    pub fn after(self, event: Event) -> (next: (CommandRun, Action))
        requires
            self@.expects(event@),
        ensures
            (next.0@, next.1@) == self@.after(event@),
    {
        let CommandRun { command, mut connection, phase } = self;
        let (phase, action) = match (phase, event) {
            (CommandPhase::Connecting(call), Event::Opened(opened)) => match opened {
                Ok(()) => (CommandPhase::Sending(call), Action::Send(command.clone())),
                Err(error) => (CommandPhase::Finished, Action::Finish(Err(error))),
            },
            (CommandPhase::Sending(call), Event::Sent(sent)) => called(
                call.sent(&connection, sent),
            ),
            (CommandPhase::Awaiting(wait), Event::Arrived(arrival)) => called(
                wait.after(&mut connection, arrival),
            ),
            (CommandPhase::Closing(result), _) => (CommandPhase::Finished, Action::Finish(result)),
            (phase, _) => (phase, Action::Close),
        };
        (CommandRun { command, connection, phase }, action)
    }
}

fn called(step: ReplyStep) -> (next: (CommandPhase, Action))
    ensures
        match step@ {
            Awaited::Read { left, wait } => next.0 matches CommandPhase::Awaiting(on) && on@ == wait
                && next.1@ == Act::Read(left),
            Awaited::Done(result) => next.0 matches CommandPhase::Closing(end)
                && crate::connection::outcome(end) == result && next.1@ == Act::Close,
        },
{
    match step {
        ReplyStep::Read { left_nanos, wait } => (
            CommandPhase::Awaiting(wait),
            Action::Read(left_nanos),
        ),
        ReplyStep::Done(result) => (CommandPhase::Closing(result), Action::Close),
    }
}

// A command, and the page load it may set off
// -------------------------------------------

/// The message says that the page has finished loading.
pub open spec fn is_load_event(response: Json) -> bool {
    json::member(response, "method"@) == Some(Json::Text("Page.loadEventFired"@))
}

/// What a message does to the wait for the page to load.
pub enum Noted {
    /// The wait goes on; this is what the command answered so far.
    On(Option<Json>),
    /// The wait is over, with this result.
    Over(Result<Json, Failure>),
}

/// How a wait for the page to load stands.
pub enum Watch {
    /// The socket is read, for so long at most; this is what the command answered
    /// so far.
    Read { left: u128, answer: Option<Json> },
    /// The wait is over, with this result.
    Over(Result<Json, Failure>),
}

/// The result of a command whose wait is over without a failure: what it
/// answered, and else what is known of the hang-up.
pub open spec fn settled(closed: Option<HangUp>, answer: Option<Json>) -> Result<Json, Failure> {
    match answer {
        Some(result) => Ok(result),
        None => Err(
            crate::connection::closed_failure(closed, "no response received from CDP"@),
        ),
    }
}

/// What a message does to the wait for the page to load.
///
/// The reply to the command ends the wait only if it is an error; the load
/// event always does. A message that is not JSON counts as null.
pub open spec fn watched_message(
    closed: Option<HangUp>,
    answer: Option<Json>,
    parsed: Result<Json, Seq<char>>,
) -> Noted {
    let response = match parsed {
        Ok(response) => response,
        Err(_) => Json::Null,
    };
    match crate::connection::reply_to(RUN_COMMAND_ID, response) {
        Some(Err(failure)) => Noted::Over(Err(failure)),
        reply => {
            let answer = match reply {
                Some(Ok(result)) => Some(result),
                _ => answer,
            };
            if is_load_event(response) {
                Noted::Over(settled(closed, answer))
            } else {
                Noted::On(answer)
            }
        },
    }
}

/// The wait for the page to load at the clock reading `now`: it goes on for the
/// time that is left, and is over where none is.
pub open spec fn watching(
    closed: Option<HangUp>,
    answer: Option<Json>,
    deadline: u128,
    now: u64,
) -> Watch {
    match crate::clock::left_until(deadline, now) {
        Some(left) => Watch::Read { left, answer },
        None => Watch::Over(settled(closed, answer)),
    }
}

/// What an arrival does to the wait for the page to load.
///
/// Where the peer hung up, or the wait expired, whatever the command already
/// answered is the best result available.
pub open spec fn watched(
    closed: Option<HangUp>,
    answer: Option<Json>,
    deadline: u128,
    arrival: Arrived,
) -> Watch {
    match arrival {
        Arrived::Expired => Watch::Over(settled(closed, answer)),
        Arrived::Item(now, item) => match crate::connection::heard(item) {
            crate::connection::Heard::Skip => Watch::Read {
                left: crate::connection::rest_of_read(deadline, now),
                answer,
            },
            crate::connection::Heard::Gone => Watch::Over(
                settled(crate::connection::closed_after(closed, item), answer),
            ),
            crate::connection::Heard::Failed(failure) => Watch::Over(Err(failure)),
            crate::connection::Heard::Text(text) => match watched_message(
                closed,
                answer,
                json::parsed_json(text),
            ) {
                Noted::On(answer) => watching(closed, answer, deadline, now),
                Noted::Over(result) => Watch::Over(result),
            },
        },
    }
}

/// How far the run of a command that may load a page has come.
pub enum LoadStage {
    /// The connection is being opened.
    Connecting,
    /// Page events are being switched on: the command for it is being sent, with
    /// this id.
    SendingEnable(u64),
    /// Page events are being switched on: the reply is awaited.
    AwaitingEnable(Wait),
    /// The command is being sent.
    SendingCommand,
    /// Its reply and the load event are awaited, until the clock reads `deadline`;
    /// this is what it answered so far.
    Watching { answer: Option<Json>, deadline: u128 },
    /// Page events are being switched off, and this is the result.
    SendingDisable(Result<Json, Failure>),
    /// The connection is being hung up, and this is the result.
    Closing(Result<Json, Failure>),
    /// The run is over.
    Finished,
}

/// The model of a [`LoadRun`].
pub struct LoadState {
    /// The text of the command.
    pub command: Seq<char>,
    /// How long to wait for the page to load, in seconds.
    pub timeout_secs: u64,
    /// What is known of a hang-up by the peer.
    pub closed: Option<HangUp>,
    /// How far the run has come.
    pub stage: LoadStage,
}

/// The text that switches page events on.
pub open spec fn enable_text() -> Seq<char> {
    command_text(RUN_PAGE_ENABLE_ID, "Page.enable"@, json::empty_object())
}

/// The text that switches page events off again.
pub open spec fn disable_text() -> Seq<char> {
    command_text(RUN_PAGE_DISABLE_ID, "Page.disable"@, json::empty_object())
}

impl LoadState {
    /// The run of a command that may load a page, at its beginning.
    pub open spec fn initial(method: Seq<char>, params: Json, timeout_secs: u64) -> LoadState {
        LoadState {
            command: command_text(RUN_COMMAND_ID, method, params),
            timeout_secs,
            closed: None,
            stage: LoadStage::Connecting,
        }
    }

    /// `event` is one that may follow the last action of the run.
    pub open spec fn expects(self, event: Happened) -> bool {
        match self.stage {
            LoadStage::Connecting => event is Opened,
            LoadStage::SendingEnable(_) => event is Sent,
            LoadStage::AwaitingEnable(_) => event is Arrived,
            LoadStage::SendingCommand => event is Sent,
            LoadStage::Watching { .. } => event is Arrived,
            LoadStage::SendingDisable(_) => event is Sent,
            LoadStage::Closing(_) => event is Closed,
            LoadStage::Finished => false,
        }
    }

    /// The run at another stage.
    pub open spec fn at(self, stage: LoadStage) -> LoadState {
        LoadState { stage, ..self }
    }

    /// The run after something arrived.
    pub open spec fn hearing(self, arrival: Arrived) -> LoadState {
        LoadState { closed: crate::connection::closed_on(self.closed, arrival), ..self }
    }

    /// The run is over with a failure, and leaves the connection as it is.
    pub open spec fn failed(self, failure: Failure) -> (LoadState, Act) {
        (self.at(LoadStage::Finished), Act::Finish(Err(failure)))
    }

    /// How the run goes on, given how the call does that switches page events on.
    pub open spec fn enabling(self, step: Awaited) -> (LoadState, Act) {
        match step {
            Awaited::Read { left, wait } => (
                self.at(LoadStage::AwaitingEnable(wait)),
                Act::Read(left),
            ),
            Awaited::Done(Ok(_)) => (
                self.at(LoadStage::SendingCommand),
                Act::Send(self.command),
            ),
            Awaited::Done(Err(failure)) => self.failed(failure),
        }
    }

    /// How the run goes on, given how the wait for the page does that ends at
    /// `deadline`.
    pub open spec fn watched(self, deadline: u128, watch: Watch) -> (LoadState, Act) {
        match watch {
            Watch::Read { left, answer } => (
                self.at(LoadStage::Watching { answer, deadline }),
                Act::Read(left),
            ),
            Watch::Over(result) => (
                self.at(LoadStage::SendingDisable(result)),
                Act::Send(disable_text()),
            ),
        }
    }

    /// The clock reading at which the wait for the page is over, if it is begun at
    /// `now`.
    pub open spec fn deadline(self, now: u64) -> u128 {
        crate::clock::deadline_of(now, self.timeout_secs, 0)
    }

    /// How the run goes on after `event`: it connects, switches page events on,
    /// sends its command, waits, switches page events off and hangs up.
    pub open spec fn after(self, event: Happened) -> (LoadState, Act) {
        match (self.stage, event) {
            (LoadStage::Connecting, Happened::Opened(Ok(()))) => (
                self.at(LoadStage::SendingEnable(RUN_PAGE_ENABLE_ID)),
                Act::Send(enable_text()),
            ),
            (LoadStage::Connecting, Happened::Opened(Err(failure))) => self.failed(failure),
            (LoadStage::SendingEnable(id), Happened::Sent(sent)) => self.enabling(
                crate::connection::call_sent(id, sent),
            ),
            (LoadStage::AwaitingEnable(wait), Happened::Arrived(arrival)) => self.hearing(
                arrival,
            ).enabling(crate::connection::awaited(self.closed, wait, arrival)),
            (LoadStage::SendingCommand, Happened::Sent(Ok(now))) => self.watched(
                self.deadline(now),
                watching(self.closed, None, self.deadline(now), now),
            ),
            (LoadStage::SendingCommand, Happened::Sent(Err(reason))) => self.failed(
                crate::connection::send_failure(reason),
            ),
            (LoadStage::Watching { answer, deadline }, Happened::Arrived(arrival)) => self.hearing(
                arrival,
            ).watched(deadline, watched(self.closed, answer, deadline, arrival)),
            (LoadStage::SendingDisable(result), _) => (
                self.at(LoadStage::Closing(result)),
                Act::Close,
            ),
            (LoadStage::Closing(result), _) => (
                self.at(LoadStage::Finished),
                Act::Finish(result),
            ),
            _ => (self, Act::Close),
        }
    }
}

#[derive(Debug)]
enum LoadPhase {
    Connecting,
    SendingEnable(Call),
    AwaitingEnable(ReplyWait),
    SendingCommand,
    Watching(Option<Value>, u128),
    SendingDisable(Result<Value, CdpError>),
    Closing(Result<Value, CdpError>),
    Finished,
}

/// What the command answered so far.
pub open spec fn answered(answer: Option<Value>) -> Option<Json> {
    match answer {
        Some(value) => Some(json::json_of(value)),
        None => None,
    }
}

/// The run of one command on a fresh connection, with the page load it may set
/// off.
#[derive(Debug)]
pub struct LoadRun {
    command: String,
    timeout_secs: u64,
    connection: CdpConnection,
    phase: LoadPhase,
}

impl View for LoadRun {
    type V = LoadState;

    closed spec fn view(&self) -> LoadState {
        LoadState {
            command: self.command@,
            timeout_secs: self.timeout_secs,
            closed: self.connection@,
            stage: match self.phase {
                LoadPhase::Connecting => LoadStage::Connecting,
                LoadPhase::SendingEnable(call) => LoadStage::SendingEnable(call@),
                LoadPhase::AwaitingEnable(wait) => LoadStage::AwaitingEnable(wait@),
                LoadPhase::SendingCommand => LoadStage::SendingCommand,
                LoadPhase::Watching(answer, deadline) => LoadStage::Watching {
                    answer: answered(answer),
                    deadline,
                },
                LoadPhase::SendingDisable(result) => LoadStage::SendingDisable(
                    crate::connection::outcome(result),
                ),
                LoadPhase::Closing(result) => LoadStage::Closing(
                    crate::connection::outcome(result),
                ),
                LoadPhase::Finished => LoadStage::Finished,
            },
        }
    }
}

/// Run one command, then wait for the page to finish loading.
///
/// Used for anything that might navigate: `Page.navigate` obviously, but also a
/// click or a script that turns out to follow a link. When nothing navigates,
/// the wait simply expires and the command's own result is returned: that is
/// the intended path, not a failure.
pub fn run_command_awaiting_load(
    target: &CdpTarget,
    method: &str,
    params: Value,
    timeout_secs: u64,
) -> (begun: (LoadRun, Action))
    ensures
        begun.0@ == LoadState::initial(method@, json::json_of(params), timeout_secs),
        begun.0@.command == json::json_text(
            Json::Object(
                map![
                    "id"@ => Json::Unsigned(2),
                    "method"@ => Json::Text(method@),
                    "params"@ => json::json_of(params),
                ],
            ),
        ),
        json::is_shallow(json::json_of(params), 126) ==> json::reads_as(
            begun.0@.command,
            Json::Object(
                map![
                    "id"@ => Json::Unsigned(2),
                    "method"@ => Json::Text(method@),
                    "params"@ => json::json_of(params),
                ],
            ),
        ),
        begun.1@ == Act::Connect(target@),
{
    let connection = CdpConnection::new();
    let command = connection.send_command(RUN_COMMAND_ID, method, params);
    let run = LoadRun { command, timeout_secs, connection, phase: LoadPhase::Connecting };
    (run, Action::Connect(target.clone()))
}

/// Point a browser at a URL and wait for it to settle.
///
/// This is what "open a URL in that profile" means once the browser is already
/// up: it navigates the existing page rather than opening a new tab.
pub fn navigate(target: &CdpTarget, url: &str, timeout_secs: u64) -> (begun: (LoadRun, Action))
    ensures
        begun.0@ == LoadState::initial(
            "Page.navigate"@,
            Json::Object(Map::empty().insert("url"@, Json::Text(url@))),
            timeout_secs,
        ),
        json::reads_as(
            begun.0@.command,
            Json::Object(
                map![
                    "id"@ => Json::Unsigned(2),
                    "method"@ => Json::Text("Page.navigate"@),
                    "params"@ => Json::Object(map!["url"@ => Json::Text(url@)]),
                ],
            ),
        ),
        begun.1@ == Act::Connect(target@),
{
    let mut params = json::object();
    json::set(&mut params, "url", json::string(url));
    proof {
        let members = json::json_of(params)->Object_0;
        assert forall|key: Seq<char>| members.dom().contains(key) implies json::is_shallow(
            #[trigger] members[key],
            125,
        ) by {}
    }
    run_command_awaiting_load(target, "Page.navigate", params, timeout_secs)
}

/// What a navigation came to, given the result of its command.
pub fn navigated(result: Result<Value, CdpError>) -> (done: Result<(), CdpError>)
    ensures
        crate::error::attempt(done) == match crate::connection::outcome(result) {
            Ok(_) => Ok(()),
            Err(failure) => Err(failure),
        },
{
    match result {
        Ok(_) => Ok(()),
        Err(error) => Err(error),
    }
}

/// What a message does to the wait for the page to load.
#[derive(Debug)]
pub enum MessageNote {
    /// The wait goes on; this is what the command answered so far.
    On(Option<Value>),
    /// The wait is over, with this result.
    Over(Result<Value, CdpError>),
}

impl View for MessageNote {
    type V = Noted;

    open spec fn view(&self) -> Noted {
        match self {
            MessageNote::On(answer) => Noted::On(answered(*answer)),
            MessageNote::Over(result) => Noted::Over(crate::connection::outcome(*result)),
        }
    }
}

/// How a wait for the page to load stands.
#[derive(Debug)]
pub enum WatchStep {
    /// Read the socket, for so long at most; this is what the command answered so
    /// far.
    Read { left_nanos: u128, answer: Option<Value> },
    /// The wait is over, with this result.
    Over(Result<Value, CdpError>),
}

impl View for WatchStep {
    type V = Watch;

    open spec fn view(&self) -> Watch {
        match self {
            WatchStep::Read { left_nanos, answer } => Watch::Read {
                left: *left_nanos,
                answer: answered(*answer),
            },
            WatchStep::Over(result) => Watch::Over(crate::connection::outcome(*result)),
        }
    }
}

/// The result of a command whose wait is over without a failure.
pub fn settle(connection: &CdpConnection, answer: Option<Value>) -> (result: Result<
    Value,
    CdpError,
>)
    ensures
        crate::connection::outcome(result) == settled(connection@, answered(answer)),
{
    match answer {
        Some(value) => Ok(value),
        None => Err(connection.closed_error("no response received from CDP")),
    }
}

/// What a message, once parsed, does to the wait for the page to load.
pub fn watch_message(
    connection: &CdpConnection,
    answer: Option<Value>,
    parsed: Result<Value, String>,
) -> (note: MessageNote)
    ensures
        note@ == watched_message(
            connection@,
            answered(answer),
            crate::connection::parse_outcome(parsed),
        ),
{
    let response = match parsed {
        Ok(response) => response,
        Err(_) => json::null(),
    };
    let answer = match read_reply(RUN_COMMAND_ID, &response) {
        Some(Err(error)) => return MessageNote::Over(Err(error)),
        Some(Ok(result)) => Some(result),
        None => answer,
    };
    // The load event carries `method` at the top level.
    let loaded = match json::get(&response, "method") {
        Some(method) => json::equals(method, &json::string("Page.loadEventFired")),
        None => false,
    };
    if loaded {
        MessageNote::Over(settle(connection, answer))
    } else {
        MessageNote::On(answer)
    }
}

/// The wait for the page to load, when the clock reads `now_nanos`.
pub fn watch_at(
    connection: &CdpConnection,
    answer: Option<Value>,
    deadline_nanos: u128,
    now_nanos: u64,
) -> (step: WatchStep)
    ensures
        step@ == watching(connection@, answered(answer), deadline_nanos, now_nanos),
{
    match time_left(deadline_nanos, now_nanos) {
        Some(left_nanos) => WatchStep::Read { left_nanos, answer },
        None => WatchStep::Over(settle(connection, answer)),
    }
}

/// What an arrival does to the wait for the page to load.
pub fn watch(
    connection: &mut CdpConnection,
    answer: Option<Value>,
    deadline_nanos: u128,
    arrival: Arrival,
) -> (step: WatchStep)
    ensures
        step@ == watched(old(connection)@, answered(answer), deadline_nanos, arrival@),
        final(connection)@ == crate::connection::closed_on(old(connection)@, arrival@),
{
    let (now_nanos, item) = match arrival {
        Arrival::Expired => return WatchStep::Over(settle(connection, answer)),
        Arrival::Item { now_nanos, item } => (now_nanos, item),
    };
    match connection.next_text(item) {
        NextText::Skip => WatchStep::Read {
            left_nanos: time_left(deadline_nanos, now_nanos).unwrap_or(0),
            answer,
        },
        NextText::Gone => WatchStep::Over(settle(connection, answer)),
        NextText::Failed(error) => WatchStep::Over(Err(error)),
        NextText::Text(text) => match watch_message(
            connection,
            answer,
            json::parse(text.as_str()),
        ) {
            MessageNote::On(answer) => watch_at(connection, answer, deadline_nanos, now_nanos),
            MessageNote::Over(result) => WatchStep::Over(result),
        },
    }
}

fn enabling(step: ReplyStep, command: &String) -> (next: (LoadPhase, Action))
    ensures
        match step@ {
            Awaited::Read { left, wait } => next.0 matches LoadPhase::AwaitingEnable(on) && on@
                == wait && next.1@ == Act::Read(left),
            Awaited::Done(Ok(_)) => next.0 is SendingCommand && next.1@ == Act::Send(command@),
            Awaited::Done(Err(failure)) => next.0 is Finished && next.1@ == Act::Finish(
                Err(failure),
            ),
        },
{
    match step {
        ReplyStep::Read { left_nanos, wait } => (
            LoadPhase::AwaitingEnable(wait),
            Action::Read(left_nanos),
        ),
        ReplyStep::Done(Ok(_)) => (LoadPhase::SendingCommand, Action::Send(command.clone())),
        ReplyStep::Done(Err(error)) => (LoadPhase::Finished, Action::Finish(Err(error))),
    }
}

fn watching_on(step: WatchStep, deadline_nanos: u128, connection: &CdpConnection) -> (next: (
    LoadPhase,
    Action,
))
    ensures
        match step@ {
            Watch::Read { left, answer } => next.0 matches LoadPhase::Watching(so_far, until)
                && answered(so_far) == answer && until == deadline_nanos && next.1@ == Act::Read(
                left,
            ),
            Watch::Over(result) => next.0 matches LoadPhase::SendingDisable(end)
                && crate::connection::outcome(end) == result && next.1@ == Act::Send(
                disable_text(),
            ),
        },
{
    match step {
        WatchStep::Read { left_nanos, answer } => (
            LoadPhase::Watching(answer, deadline_nanos),
            Action::Read(left_nanos),
        ),
        WatchStep::Over(result) => (
            LoadPhase::SendingDisable(result),
            Action::Send(
                connection.send_command(RUN_PAGE_DISABLE_ID, "Page.disable", json::object()),
            ),
        ),
    }
}

impl LoadRun {
    /// Whether `event` is one that may follow the last action of the run.
    pub fn expects(&self, event: &Event) -> (expected: bool)
        ensures
            expected == self@.expects(event@),
    {
        match (&self.phase, event) {
            (LoadPhase::Connecting, Event::Opened(_)) => true,
            (LoadPhase::SendingEnable(_), Event::Sent(_)) => true,
            (LoadPhase::AwaitingEnable(_), Event::Arrived(_)) => true,
            (LoadPhase::SendingCommand, Event::Sent(_)) => true,
            (LoadPhase::Watching(_, _), Event::Arrived(_)) => true,
            (LoadPhase::SendingDisable(_), Event::Sent(_)) => true,
            (LoadPhase::Closing(_), Event::Closed) => true,
            _ => false,
        }
    }

    /// Tell the run what came of its last action, and learn the next one.
    pub fn after(self, event: Event) -> (next: (LoadRun, Action))
        requires
            self@.expects(event@),
        ensures
            (next.0@, next.1@) == self@.after(event@),
    {
        let LoadRun { command, timeout_secs, mut connection, phase } = self;
        let (phase, action) = match (phase, event) {
            (LoadPhase::Connecting, Event::Opened(opened)) => match opened {
                // Page events have to be on before the command runs, or the load
                // event of a fast navigation is missed and the wait runs to its
                // full timeout.
                Ok(()) => {
                    let (call, text) = connection.call(
                        RUN_PAGE_ENABLE_ID,
                        "Page.enable",
                        json::object(),
                    );
                    (LoadPhase::SendingEnable(call), Action::Send(text))
                },
                Err(error) => (LoadPhase::Finished, Action::Finish(Err(error))),
            },
            (LoadPhase::SendingEnable(call), Event::Sent(sent)) => enabling(
                call.sent(&connection, sent),
                &command,
            ),
            (LoadPhase::AwaitingEnable(wait), Event::Arrived(arrival)) => enabling(
                wait.after(&mut connection, arrival),
                &command,
            ),
            (LoadPhase::SendingCommand, Event::Sent(sent)) => match sent {
                Ok(now_nanos) => {
                    let deadline_nanos = deadline(now_nanos, timeout_secs, 0);
                    let step = watch_at(&connection, None, deadline_nanos, now_nanos);
                    watching_on(step, deadline_nanos, &connection)
                },
                Err(reason) => (LoadPhase::Finished, Action::Finish(Err(send_error(reason)))),
            },
            (LoadPhase::Watching(answer, deadline_nanos), Event::Arrived(arrival)) => {
                let step = watch(&mut connection, answer, deadline_nanos, arrival);
                watching_on(step, deadline_nanos, &connection)
            },
            (LoadPhase::SendingDisable(result), _) => (LoadPhase::Closing(result), Action::Close),
            (LoadPhase::Closing(result), _) => (LoadPhase::Finished, Action::Finish(result)),
            (phase, _) => (phase, Action::Close),
        };
        (LoadRun { command, timeout_secs, connection, phase }, action)
    }
}

} // verus!
