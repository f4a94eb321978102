//! What a run does next, at each of its stages, and what whole runs come to,
//! told by the members of the messages that go out and come in.

use crate::command::{Act, CommandStage, CommandState, Happened, LoadStage, LoadState, Watch};
use crate::connection::{Arrived, Awaited, HangUp, Item, Wait};
use crate::error::Failure;
use crate::json::Json;
use crate::run_laws::{
    command_acts, command_acts_unrolled, command_admits, load_acts, load_acts_unrolled,
    load_admits,
};
use vstd::prelude::*;

verus! {

// One command and its reply
// -------------------------

/// What is sent once the connection is open is the text of the object that has
/// these three members and no others: the id, the method and the very parameters
/// that were given.
pub proof fn a_command_goes_out_with_all_of_its_parameters(
    method: Seq<char>,
    params: Json,
    members: Map<Seq<char>, Json>,
)
    requires
        members.dom() == set!["id"@, "method"@, "params"@],
        members["id"@] == Json::Unsigned(2),
        members["method"@] == Json::Text(method),
        members["params"@] == params,
    ensures
        CommandState::initial(method, params).after(Happened::Opened(Ok(()))).1 == Act::Send(
            crate::json::json_text(Json::Object(members)),
        ),
        CommandState::initial(method, params).command == crate::json::json_text(
            Json::Object(members),
        ),
{
    crate::message_laws::a_command_is_written_from_its_members(members, 2, method, params);
}

/// At its beginning a run has heard of no hang-up, and waits for its connection.
/// Without one it is over, with the very failure that there was.
pub proof fn a_command_run_begins_with_its_connection(
    method: Seq<char>,
    params: Json,
    failure: Failure,
)
    ensures
        CommandState::initial(method, params).closed is None,
        CommandState::initial(method, params).stage == CommandStage::Connecting(2),
        CommandState::initial(method, params).after(Happened::Opened(Ok(()))).0 == (CommandState {
            command: CommandState::initial(method, params).command,
            closed: None,
            stage: CommandStage::Sending(2),
        }),
        CommandState::initial(method, params).after(Happened::Opened(Err(failure))) == (
            CommandState {
                command: CommandState::initial(method, params).command,
                closed: None,
                stage: CommandStage::Finished,
            },
            Act::Finish(Err(failure)),
        ),
{
}

/// Once its command is sent, a run reads for a minute at most. If the command
/// could not be sent, it hangs up, with that as its failure.
pub proof fn a_command_run_waits_a_minute(
    command: Seq<char>,
    closed: Option<HangUp>,
    id: u64,
    now: u64,
    reason: Seq<char>,
)
    ensures
        (CommandState { command, closed, stage: CommandStage::Sending(id) }).after(
            Happened::Sent(Ok(now)),
        ) == (
            (CommandState {
                command,
                closed,
                stage: CommandStage::Awaiting(
                    Wait { id, deadline: (now + 60_000_000_000) as u128 },
                ),
            }),
            Act::Read(60_000_000_000),
        ),
        (CommandState { command, closed, stage: CommandStage::Sending(id) }).after(
            Happened::Sent(Err(reason)),
        ) == (
            (CommandState {
                command,
                closed,
                stage: CommandStage::Closing(
                    Err(Failure::Transport("failed to send CDP command: "@ + reason)),
                ),
            }),
            Act::Close,
        ),
{
}

/// The reply to the command of a run makes it hang up, with the very result that
/// the reply carries, or the text of the very error.
pub proof fn a_command_run_takes_its_reply_as_it_is(
    command: Seq<char>,
    closed: Option<HangUp>,
    wait: Wait,
    now: u64,
    text: Seq<char>,
    members: Map<Seq<char>, Json>,
)
    requires
        crate::json::parsed_json(text) == Ok::<Json, Seq<char>>(Json::Object(members)),
        members.dom().contains("id"@),
        members["id"@] == Json::Unsigned(wait.id),
    ensures
        (CommandState { command, closed, stage: CommandStage::Awaiting(wait) }).after(
            Happened::Arrived(Arrived::Item(now, Item::Text(text))),
        ) == (
            (CommandState {
                command,
                closed,
                stage: CommandStage::Closing(
                    if members.dom().contains("error"@) {
                        Err(Failure::Protocol(crate::json::json_text(members["error"@])))
                    } else if members.dom().contains("result"@) {
                        Ok(members["result"@])
                    } else {
                        Ok(Json::Object(Map::empty()))
                    },
                ),
            }),
            Act::Close,
        ),
{
}

/// Whatever arrives while a run awaits the reply to its command, the run reads
/// on or hangs up as the wait for the reply does, and keeps its result and what
/// it hears of a hang-up.
pub proof fn a_command_run_goes_on_as_its_wait_does(
    command: Seq<char>,
    closed: Option<HangUp>,
    wait: Wait,
    arrival: Arrived,
)
    ensures
        ({
            let (next, act) = (CommandState {
                command,
                closed,
                stage: CommandStage::Awaiting(wait),
            }).after(Happened::Arrived(arrival));
            &&& next.command == command
            &&& next.closed == crate::connection::closed_on(closed, arrival)
            &&& match crate::connection::awaited(closed, wait, arrival) {
                Awaited::Read { left, wait: on } => next.stage == CommandStage::Awaiting(on)
                    && act == Act::Read(left),
                Awaited::Done(result) => next.stage == CommandStage::Closing(result) && act
                    == Act::Close,
            }
        }),
{
}

/// When the connection is hung up, a run is over, with the very result that it
/// had.
pub proof fn a_command_run_hands_back_the_result_it_had(
    command: Seq<char>,
    closed: Option<HangUp>,
    result: Result<Json, Failure>,
)
    ensures
        (CommandState { command, closed, stage: CommandStage::Closing(result) }).after(
            Happened::Closed,
        ) == (
            (CommandState { command, closed, stage: CommandStage::Finished }),
            Act::Finish(result),
        ),
{
}

/// `event` is one that may come of `act`.
pub open spec fn comes_of(act: Act, event: Happened) -> bool {
    match act {
        Act::Connect(_) => event is Opened,
        Act::Send(_) => event is Sent,
        Act::Read(_) => event is Arrived,
        Act::Close => event is Closed,
        Act::Finish(_) => false,
    }
}

/// A run expects whatever may come of its last action, and nothing else. Its
/// first action is to connect.
pub proof fn a_command_run_expects_what_comes_of_its_action(
    method: Seq<char>,
    params: Json,
    state: CommandState,
    event: Happened,
    following: Happened,
)
    requires
        state.expects(event),
    ensures
        CommandState::initial(method, params).expects(following) <==> following is Opened,
        state.after(event).0.expects(following) <==> comes_of(state.after(event).1, following),
{
}

/// A run that gets its connection, sends its command, and hears the reply: it
/// does just this, and comes to the very result that the reply carries.
pub proof fn a_command_run_from_beginning_to_end(
    method: Seq<char>,
    params: Json,
    sent_at: u64,
    heard_at: u64,
    text: Seq<char>,
    members: Map<Seq<char>, Json>,
)
    requires
        crate::json::parsed_json(text) == Ok::<Json, Seq<char>>(Json::Object(members)),
        members.dom().contains("id"@),
        members["id"@] == Json::Unsigned(2),
        !members.dom().contains("error"@),
        members.dom().contains("result"@),
    ensures
        ({
            let events = seq![
                Happened::Opened(Ok(())),
                Happened::Sent(Ok(sent_at)),
                Happened::Arrived(Arrived::Item(heard_at, Item::Text(text))),
                Happened::Closed,
            ];
            &&& command_admits(CommandState::initial(method, params), events)
            &&& command_acts(CommandState::initial(method, params), events) == seq![
                Act::Send(
                    crate::json::json_text(
                        Json::Object(
                            map![
                                "id"@ => Json::Unsigned(2),
                                "method"@ => Json::Text(method),
                                "params"@ => params,
                            ],
                        ),
                    ),
                ),
                Act::Read(60_000_000_000),
                Act::Close,
                Act::Finish(Ok(members["result"@])),
            ]
        }),
{
    let first = CommandState::initial(method, params);
    let events = seq![
        Happened::Opened(Ok(())),
        Happened::Sent(Ok(sent_at)),
        Happened::Arrived(Arrived::Item(heard_at, Item::Text(text))),
        Happened::Closed,
    ];
    let second = first.after(events[0]).0;
    let third = second.after(events[1]).0;
    let fourth = third.after(events[2]).0;
    let last = fourth.after(events[3]).0;
    let rest = events.drop_first();
    let rest2 = rest.drop_first();
    let rest3 = rest2.drop_first();
    let rest4 = rest3.drop_first();
    assert(rest[0] == events[1] && rest2[0] == events[2] && rest3[0] == events[3]);
    command_acts_unrolled(first, events);
    command_acts_unrolled(second, rest);
    command_acts_unrolled(third, rest2);
    command_acts_unrolled(fourth, rest3);
    assert(rest4.len() == 0);
    assert(command_acts(last, rest4) =~= Seq::empty());
    assert(command_admits(last, rest4));
    assert(command_admits(fourth, rest3));
    assert(command_admits(third, rest2));
    assert(command_admits(second, rest));
    let acts = command_acts(first, events);
    assert(acts[1] == acts.drop_first()[0]);
    assert(acts[2] == acts.drop_first().drop_first()[0]);
    assert(acts[3] == acts.drop_first().drop_first().drop_first()[0]);
    assert(acts =~= seq![
        first.after(events[0]).1,
        second.after(events[1]).1,
        third.after(events[2]).1,
        fourth.after(events[3]).1,
    ]);
}

// A command, and the page load it may set off
// -------------------------------------------

/// A run that may load a page keeps the text of the object that has these three
/// members and no others, to send it when page events are on: the id, the method
/// and the very parameters that were given. It has the time that was given, has
/// heard of no hang-up, and waits for its connection.
pub proof fn a_load_run_begins_with_all_it_was_given(
    method: Seq<char>,
    params: Json,
    timeout_secs: u64,
    members: Map<Seq<char>, Json>,
)
    requires
        members.dom() == set!["id"@, "method"@, "params"@],
        members["id"@] == Json::Unsigned(2),
        members["method"@] == Json::Text(method),
        members["params"@] == params,
    ensures
        LoadState::initial(method, params, timeout_secs) == (LoadState {
            command: crate::json::json_text(Json::Object(members)),
            timeout_secs,
            closed: None,
            stage: LoadStage::Connecting,
        }),
{
    crate::message_laws::a_command_is_written_from_its_members(members, 2, method, params);
}

/// Once its connection is open, a run that may load a page switches page events
/// on. Without one it is over, with the very failure that there was.
pub proof fn a_load_run_switches_page_events_on(
    command: Seq<char>,
    timeout_secs: u64,
    closed: Option<HangUp>,
    failure: Failure,
)
    ensures
        (LoadState { command, timeout_secs, closed, stage: LoadStage::Connecting }).after(
            Happened::Opened(Ok(())),
        ) == (
            (LoadState { command, timeout_secs, closed, stage: LoadStage::SendingEnable(1) }),
            Act::Send(
                crate::json::json_text(
                    Json::Object(
                        map![
                            "id"@ => Json::Unsigned(1),
                            "method"@ => Json::Text("Page.enable"@),
                            "params"@ => Json::Object(Map::empty()),
                        ],
                    ),
                ),
            ),
        ),
        (LoadState { command, timeout_secs, closed, stage: LoadStage::Connecting }).after(
            Happened::Opened(Err(failure)),
        ) == (
            (LoadState { command, timeout_secs, closed, stage: LoadStage::Finished }),
            Act::Finish(Err(failure)),
        ),
{
}

/// The command that switches page events on is awaited for a minute. If it could
/// not be sent, that is the failure of the run.
pub proof fn a_load_run_waits_a_minute_for_page_events(
    command: Seq<char>,
    timeout_secs: u64,
    closed: Option<HangUp>,
    id: u64,
    now: u64,
    reason: Seq<char>,
)
    ensures
        (LoadState { command, timeout_secs, closed, stage: LoadStage::SendingEnable(id) }).after(
            Happened::Sent(Ok(now)),
        ) == (
            (LoadState {
                command,
                timeout_secs,
                closed,
                stage: LoadStage::AwaitingEnable(
                    Wait { id, deadline: (now + 60_000_000_000) as u128 },
                ),
            }),
            Act::Read(60_000_000_000),
        ),
        (LoadState { command, timeout_secs, closed, stage: LoadStage::SendingEnable(id) }).after(
            Happened::Sent(Err(reason)),
        ) == (
            (LoadState { command, timeout_secs, closed, stage: LoadStage::Finished }),
            Act::Finish(Err(Failure::Transport("failed to send CDP command: "@ + reason))),
        ),
{
}

/// The reply that page events are on lets the command out, as it was kept. A
/// reply that carries an error is the end, in the text of that very error.
pub proof fn a_load_run_sends_its_command_when_page_events_are_on(
    command: Seq<char>,
    timeout_secs: u64,
    closed: Option<HangUp>,
    wait: Wait,
    now: u64,
    text: Seq<char>,
    members: Map<Seq<char>, Json>,
)
    requires
        crate::json::parsed_json(text) == Ok::<Json, Seq<char>>(Json::Object(members)),
        members.dom().contains("id"@),
        members["id"@] == Json::Unsigned(wait.id),
    ensures
        (LoadState { command, timeout_secs, closed, stage: LoadStage::AwaitingEnable(wait) }).after(
            Happened::Arrived(Arrived::Item(now, Item::Text(text))),
        ) == if members.dom().contains("error"@) {
            (
                (LoadState { command, timeout_secs, closed, stage: LoadStage::Finished }),
                Act::Finish(
                    Err(Failure::Protocol(crate::json::json_text(members["error"@]))),
                ),
            )
        } else {
            (
                (LoadState { command, timeout_secs, closed, stage: LoadStage::SendingCommand }),
                Act::Send(command),
            )
        },
{
}

/// Whatever arrives while the reply about page events is awaited, the run reads
/// on, sends its command, or is over with the failure, as the wait for the reply
/// does; and it keeps what it hears of a hang-up.
pub proof fn a_load_run_goes_on_as_its_wait_does(
    command: Seq<char>,
    timeout_secs: u64,
    closed: Option<HangUp>,
    wait: Wait,
    arrival: Arrived,
)
    ensures
        ({
            let (next, act) = (LoadState {
                command,
                timeout_secs,
                closed,
                stage: LoadStage::AwaitingEnable(wait),
            }).after(Happened::Arrived(arrival));
            &&& next.command == command
            &&& next.timeout_secs == timeout_secs
            &&& next.closed == crate::connection::closed_on(closed, arrival)
            &&& match crate::connection::awaited(closed, wait, arrival) {
                Awaited::Read { left, wait: on } => next.stage == LoadStage::AwaitingEnable(on)
                    && act == Act::Read(left),
                Awaited::Done(Ok(_)) => next.stage is SendingCommand && act == Act::Send(command),
                Awaited::Done(Err(failure)) => next.stage is Finished && act == Act::Finish(
                    Err(failure),
                ),
            }
        }),
{
}

/// Once its command is sent, a run waits for the page for all of the time that
/// it was given, to the second, and reads for as long. Given no time it switches
/// page events off at once, as if the peer had gone. If the command could not be
/// sent, that is the failure of the run.
pub proof fn a_load_run_waits_for_the_time_it_was_given(
    command: Seq<char>,
    timeout_secs: u64,
    closed: Option<HangUp>,
    now: u64,
    reason: Seq<char>,
)
    ensures
        timeout_secs > 0 ==> (LoadState {
            command,
            timeout_secs,
            closed,
            stage: LoadStage::SendingCommand,
        }).after(Happened::Sent(Ok(now))) == (
            (LoadState {
                command,
                timeout_secs,
                closed,
                stage: LoadStage::Watching {
                    answer: None,
                    deadline: (now + timeout_secs * 1_000_000_000) as u128,
                },
            }),
            Act::Read((timeout_secs * 1_000_000_000) as u128),
        ),
        (LoadState { command, timeout_secs: 0, closed, stage: LoadStage::SendingCommand }).after(
            Happened::Sent(Ok(now)),
        ) == (
            (LoadState {
                command,
                timeout_secs: 0,
                closed,
                stage: LoadStage::SendingDisable(
                    Err(
                        crate::connection::closed_failure(
                            closed,
                            "no response received from CDP"@,
                        ),
                    ),
                ),
            }),
            Act::Send(crate::command::disable_text()),
        ),
        (LoadState { command, timeout_secs, closed, stage: LoadStage::SendingCommand }).after(
            Happened::Sent(Err(reason)),
        ) == (
            (LoadState { command, timeout_secs, closed, stage: LoadStage::Finished }),
            Act::Finish(Err(Failure::Transport("failed to send CDP command: "@ + reason))),
        ),
{
}

/// Whatever arrives while a run waits for the page, it reads on with the answer
/// so far, or switches page events off with the result, as the wait for the page
/// does. The deadline stays where it was, and what is heard of a hang-up is kept.
pub proof fn a_load_run_goes_on_as_its_wait_for_the_page_does(
    command: Seq<char>,
    timeout_secs: u64,
    closed: Option<HangUp>,
    answer: Option<Json>,
    deadline: u128,
    arrival: Arrived,
)
    ensures
        ({
            let (next, act) = (LoadState {
                command,
                timeout_secs,
                closed,
                stage: LoadStage::Watching { answer, deadline },
            }).after(Happened::Arrived(arrival));
            &&& next.command == command
            &&& next.timeout_secs == timeout_secs
            &&& next.closed == crate::connection::closed_on(closed, arrival)
            &&& match crate::command::watched(closed, answer, deadline, arrival) {
                Watch::Read { left, answer: so_far } => next.stage == (LoadStage::Watching {
                    answer: so_far,
                    deadline,
                }) && act == Act::Read(left),
                Watch::Over(result) => next.stage == LoadStage::SendingDisable(result) && act
                    == Act::Send(
                    crate::json::json_text(
                        Json::Object(
                            map![
                                "id"@ => Json::Unsigned(3),
                                "method"@ => Json::Text("Page.disable"@),
                                "params"@ => Json::Object(Map::empty()),
                            ],
                        ),
                    ),
                ),
            }
        }),
{
}

/// Whether or not page events could be switched off, a run then hangs up, and is
/// over with the very result that it had.
pub proof fn a_load_run_hands_back_the_result_it_had(
    command: Seq<char>,
    timeout_secs: u64,
    closed: Option<HangUp>,
    result: Result<Json, Failure>,
    disabled: Result<u64, Seq<char>>,
)
    ensures
        (LoadState {
            command,
            timeout_secs,
            closed,
            stage: LoadStage::SendingDisable(result),
        }).after(Happened::Sent(disabled)) == (
            (LoadState { command, timeout_secs, closed, stage: LoadStage::Closing(result) }),
            Act::Close,
        ),
        (LoadState { command, timeout_secs, closed, stage: LoadStage::Closing(result) }).after(
            Happened::Closed,
        ) == (
            (LoadState { command, timeout_secs, closed, stage: LoadStage::Finished }),
            Act::Finish(result),
        ),
{
}

/// A run that may load a page expects whatever may come of its last action, and
/// nothing else. Its first action is to connect.
pub proof fn a_load_run_expects_what_comes_of_its_action(
    method: Seq<char>,
    params: Json,
    timeout_secs: u64,
    state: LoadState,
    event: Happened,
    following: Happened,
)
    requires
        state.expects(event),
    ensures
        LoadState::initial(method, params, timeout_secs).expects(following) <==> following
            is Opened,
        state.after(event).0.expects(following) <==> comes_of(state.after(event).1, following),
{
}

/// What happens to a run that may load a page, in the order in which it does:
/// the reply about page events, the reply to the command, and the load event.
pub open spec fn good_load(
    enable_at: u64,
    enabled_at: u64,
    enabled: Seq<char>,
    command_at: u64,
    replied_at: u64,
    replied: Seq<char>,
    loaded_at: u64,
    loaded: Seq<char>,
    disabled: Result<u64, Seq<char>>,
) -> Seq<Happened> {
    seq![
        Happened::Opened(Ok(())),
        Happened::Sent(Ok(enable_at)),
        Happened::Arrived(Arrived::Item(enabled_at, Item::Text(enabled))),
        Happened::Sent(Ok(command_at)),
        Happened::Arrived(Arrived::Item(replied_at, Item::Text(replied))),
        Happened::Arrived(Arrived::Item(loaded_at, Item::Text(loaded))),
        Happened::Sent(disabled),
        Happened::Closed,
    ]
}

/// A run that hears the reply to its command in time, and then the load event:
/// it does just this, and comes to the very result that the reply carries,
/// whatever the load event holds.
pub proof fn a_load_run_from_beginning_to_end(
    method: Seq<char>,
    params: Json,
    timeout_secs: u64,
    enable_at: u64,
    enabled_at: u64,
    enabled: Seq<char>,
    enable_members: Map<Seq<char>, Json>,
    command_at: u64,
    replied_at: u64,
    replied: Seq<char>,
    reply_members: Map<Seq<char>, Json>,
    loaded_at: u64,
    loaded: Seq<char>,
    load_members: Map<Seq<char>, Json>,
    disabled: Result<u64, Seq<char>>,
)
    requires
        crate::json::parsed_json(enabled) == Ok::<Json, Seq<char>>(Json::Object(enable_members)),
        enable_members.dom().contains("id"@),
        enable_members["id"@] == Json::Unsigned(1),
        !enable_members.dom().contains("error"@),
        crate::json::parsed_json(replied) == Ok::<Json, Seq<char>>(Json::Object(reply_members)),
        reply_members.dom().contains("id"@),
        reply_members["id"@] == Json::Unsigned(2),
        !reply_members.dom().contains("error"@),
        reply_members.dom().contains("result"@),
        !reply_members.dom().contains("method"@),
        replied_at < command_at + timeout_secs * 1_000_000_000,
        timeout_secs > 0,
        crate::json::parsed_json(loaded) == Ok::<Json, Seq<char>>(Json::Object(load_members)),
        load_members.dom().contains("method"@),
        load_members["method"@] == Json::Text("Page.loadEventFired"@),
        !load_members.dom().contains("id"@),
    ensures
        ({
            let events = good_load(
                enable_at,
                enabled_at,
                enabled,
                command_at,
                replied_at,
                replied,
                loaded_at,
                loaded,
                disabled,
            );
            &&& load_admits(LoadState::initial(method, params, timeout_secs), events)
            &&& load_acts(LoadState::initial(method, params, timeout_secs), events) == seq![
                Act::Send(
                    crate::json::json_text(
                        Json::Object(
                            map![
                                "id"@ => Json::Unsigned(1),
                                "method"@ => Json::Text("Page.enable"@),
                                "params"@ => Json::Object(Map::empty()),
                            ],
                        ),
                    ),
                ),
                Act::Read(60_000_000_000),
                Act::Send(
                    crate::json::json_text(
                        Json::Object(
                            map![
                                "id"@ => Json::Unsigned(2),
                                "method"@ => Json::Text(method),
                                "params"@ => params,
                            ],
                        ),
                    ),
                ),
                Act::Read((timeout_secs * 1_000_000_000) as u128),
                Act::Read((command_at + timeout_secs * 1_000_000_000 - replied_at) as u128),
                Act::Send(
                    crate::json::json_text(
                        Json::Object(
                            map![
                                "id"@ => Json::Unsigned(3),
                                "method"@ => Json::Text("Page.disable"@),
                                "params"@ => Json::Object(Map::empty()),
                            ],
                        ),
                    ),
                ),
                Act::Close,
                Act::Finish(Ok(reply_members["result"@])),
            ]
        }),
{
    let events = good_load(
        enable_at,
        enabled_at,
        enabled,
        command_at,
        replied_at,
        replied,
        loaded_at,
        loaded,
        disabled,
    );
    let s0 = LoadState::initial(method, params, timeout_secs);
    let s1 = s0.after(events[0]).0;
    let s2 = s1.after(events[1]).0;
    let s3 = s2.after(events[2]).0;
    let s4 = s3.after(events[3]).0;
    let s5 = s4.after(events[4]).0;
    let s6 = s5.after(events[5]).0;
    let s7 = s6.after(events[6]).0;
    let s8 = s7.after(events[7]).0;
    assert(s5.stage == LoadStage::Watching {
        answer: Some(reply_members["result"@]),
        deadline: (command_at + timeout_secs * 1_000_000_000) as u128,
    });
    assert(s6.stage == LoadStage::SendingDisable(Ok(reply_members["result"@])));
    let e1 = events.drop_first();
    let e2 = e1.drop_first();
    let e3 = e2.drop_first();
    let e4 = e3.drop_first();
    let e5 = e4.drop_first();
    let e6 = e5.drop_first();
    let e7 = e6.drop_first();
    let e8 = e7.drop_first();
    assert(e8.len() == 0);
    assert(load_acts(s8, e8) =~= Seq::empty());
    load_acts_unrolled(s7, e7);
    load_acts_unrolled(s6, e6);
    load_acts_unrolled(s5, e5);
    load_acts_unrolled(s4, e4);
    load_acts_unrolled(s3, e3);
    load_acts_unrolled(s2, e2);
    load_acts_unrolled(s1, e1);
    load_acts_unrolled(s0, events);
    assert(load_admits(s8, e8));
    assert(load_admits(s7, e7));
    assert(load_admits(s6, e6));
    assert(load_admits(s5, e5));
    assert(load_admits(s4, e4));
    assert(load_admits(s3, e3));
    assert(load_admits(s2, e2));
    assert(load_admits(s1, e1));
    let a7 = seq![s7.after(events[7]).1];
    let a6 = seq![s6.after(events[6]).1] + a7;
    let a5 = seq![s5.after(events[5]).1] + a6;
    let a4 = seq![s4.after(events[4]).1] + a5;
    let a3 = seq![s3.after(events[3]).1] + a4;
    let a2 = seq![s2.after(events[2]).1] + a3;
    let a1 = seq![s1.after(events[1]).1] + a2;
    assert(load_acts(s7, e7) =~= a7);
    assert(load_acts(s6, e6) =~= a6);
    assert(load_acts(s5, e5) =~= a5);
    assert(load_acts(s4, e4) =~= a4);
    assert(load_acts(s3, e3) =~= a3);
    assert(load_acts(s2, e2) =~= a2);
    assert(load_acts(s1, e1) =~= a1);
    assert(load_acts(s0, events) =~= seq![s0.after(events[0]).1] + a1);
}

} // verus!
