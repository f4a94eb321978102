//! What holds of a whole run, whatever happens to it on the way.

use crate::command::{Act, CommandState, Happened, LoadStage, LoadState, Watch};
use crate::connection::{Arrived, Awaited, HangUp, Item, Wait};
use crate::error::Failure;
use crate::json::Json;
use vstd::prelude::*;

verus! {

/// The texts that were sent, in order.
pub open spec fn sent(acts: Seq<Act>) -> Seq<Seq<char>>
    decreases acts.len(),
{
    if acts.len() == 0 {
        Seq::empty()
    } else {
        let rest = sent(acts.drop_first());
        match acts[0] {
            Act::Send(text) => seq![text] + rest,
            _ => rest,
        }
    }
}

/// Arrivals, one after the other, as events of a run.
pub open spec fn arriving(arrivals: Seq<Arrived>) -> Seq<Happened> {
    arrivals.map_values(|arrival: Arrived| Happened::Arrived(arrival))
}

/// The connection was opened.
pub open spec fn is_opened(event: Happened) -> bool {
    event matches Happened::Opened(opened) && opened is Ok
}

// One command and its reply
// -------------------------

/// The events may happen to the run, in this order.
pub open spec fn command_admits(state: CommandState, events: Seq<Happened>) -> bool
    decreases events.len(),
{
    events.len() > 0 ==> state.expects(events[0]) && command_admits(
        state.after(events[0]).0,
        events.drop_first(),
    )
}

/// What the run does in answer to the events.
pub open spec fn command_acts(state: CommandState, events: Seq<Happened>) -> Seq<Act>
    decreases events.len(),
{
    if events.len() == 0 {
        Seq::empty()
    } else {
        seq![state.after(events[0]).1] + command_acts(
            state.after(events[0]).0,
            events.drop_first(),
        )
    }
}

pub(crate) proof fn command_acts_unrolled(state: CommandState, events: Seq<Happened>)
    requires
        events.len() > 0,
    ensures
        ({
            let acts = command_acts(state, events);
            let rest = command_acts(state.after(events[0]).0, events.drop_first());
            &&& acts.len() == rest.len() + 1
            &&& acts[0] == state.after(events[0]).1
            &&& acts.drop_first() == rest
            &&& rest.len() > 0 ==> acts.last() == rest.last()
        }),
{
    let rest = command_acts(state.after(events[0]).0, events.drop_first());
    assert(command_acts(state, events) == seq![state.after(events[0]).1] + rest);
    assert(command_acts(state, events).drop_first() =~= rest);
}

proof fn nothing_more_is_sent(state: CommandState, events: Seq<Happened>)
    requires
        command_admits(state, events),
        !(state.stage is Connecting),
    ensures
        sent(command_acts(state, events)) == Seq::<Seq<char>>::empty(),
    decreases events.len(),
{
    if events.len() > 0 {
        nothing_more_is_sent(state.after(events[0]).0, events.drop_first());
        command_acts_unrolled(state, events);
    }
}

/// Running a command puts that command on the wire and nothing else, once the
/// connection is open: no attach comes before it.
pub proof fn a_command_run_sends_its_command_alone(
    method: Seq<char>,
    params: Json,
    events: Seq<Happened>,
)
    requires
        command_admits(CommandState::initial(method, params), events),
    ensures
        sent(command_acts(CommandState::initial(method, params), events)) == if events.len() > 0
            && is_opened(events[0]) {
            seq![crate::command::command_text(crate::command::RUN_COMMAND_ID, method, params)]
        } else {
            Seq::empty()
        },
{
    let state = CommandState::initial(method, params);
    if events.len() > 0 {
        nothing_more_is_sent(state.after(events[0]).0, events.drop_first());
        command_acts_unrolled(state, events);
        assert(events[0] is Opened);
        assert(seq![state.command] + Seq::<Seq<char>>::empty() =~= seq![state.command]);
    }
}

proof fn finish_follows_close(state: CommandState, events: Seq<Happened>, i: int)
    requires
        command_admits(state, events),
        !(state.stage is Connecting),
        0 <= i < command_acts(state, events).len(),
        command_acts(state, events)[i] is Finish,
    ensures
        i == command_acts(state, events).len() - 1,
        i == 0 ==> state.stage is Closing,
        i > 0 ==> command_acts(state, events)[i - 1] is Close,
    decreases events.len(),
{
    if events.len() > 0 {
        let (next, act) = state.after(events[0]);
        let rest = command_acts(next, events.drop_first());
        assert(command_acts(state, events) == seq![act] + rest);
        if i > 0 {
            assert(rest[i - 1] == command_acts(state, events)[i]);
            finish_follows_close(next, events.drop_first(), i - 1);
        }
    }
}

/// A run of a command that got its connection hands back a result only after
/// hanging up, however the command went; and after that it does nothing more.
pub proof fn a_command_run_hangs_up_before_it_finishes(
    method: Seq<char>,
    params: Json,
    events: Seq<Happened>,
    i: int,
)
    requires
        command_admits(CommandState::initial(method, params), events),
        events.len() > 0,
        is_opened(events[0]),
        0 <= i < command_acts(CommandState::initial(method, params), events).len(),
        command_acts(CommandState::initial(method, params), events)[i] is Finish,
    ensures
        i == command_acts(CommandState::initial(method, params), events).len() - 1,
        i > 0,
        command_acts(CommandState::initial(method, params), events)[i - 1] is Close,
{
    let state = CommandState::initial(method, params);
    let (next, act) = state.after(events[0]);
    let rest = command_acts(next, events.drop_first());
    assert(command_acts(state, events) == seq![act] + rest);
    assert(i > 0);
    assert(rest[i - 1] == command_acts(state, events)[i]);
    finish_follows_close(next, events.drop_first(), i - 1);
}

/// A connection that cannot be opened is the whole story of a run of a command.
pub proof fn a_command_run_needs_a_connection(
    method: Seq<char>,
    params: Json,
    failure: Failure,
)
    ensures
        CommandState::initial(method, params).after(Happened::Opened(Err(failure))).1
            == Act::Finish(Err(failure)),
        CommandState::initial(method, params).after(
            Happened::Opened(Err(failure)),
        ).0.stage is Finished,
{
}

proof fn awaiting_run_finishes_with_the_reply(
    state: CommandState,
    before: Seq<Arrived>,
    last: Arrived,
    result: Result<Json, Failure>,
)
    requires
        state.stage is Awaiting,
        forall|i: int|
            0 <= i < before.len() ==> crate::laws::is_passed_over(
                state.closed,
                state.stage->Awaiting_0,
                #[trigger] before[i],
            ),
        crate::connection::awaited(state.closed, state.stage->Awaiting_0, last) == Awaited::Done(
            result,
        ),
    ensures
        ({
            let events = arriving(before).push(Happened::Arrived(last)).push(Happened::Closed);
            &&& command_admits(state, events)
            &&& command_acts(state, events).len() == before.len() + 2
            &&& command_acts(state, events).last() == Act::Finish(result)
        }),
    decreases before.len(),
{
    let events = arriving(before).push(Happened::Arrived(last)).push(Happened::Closed);
    let wait = state.stage->Awaiting_0;
    let next = state.after(events[0]).0;
    let rest = events.drop_first();
    command_acts_unrolled(state, events);
    if before.len() == 0 {
        assert(events[0] == Happened::Arrived(last));
        assert(rest =~= seq![Happened::Closed]);
        assert(rest.drop_first() =~= Seq::empty());
        let end = next.after(rest[0]).0;
        assert(command_admits(end, rest.drop_first()));
        assert(command_admits(next, rest));
        command_acts_unrolled(next, rest);
    } else {
        assert(events[0] == Happened::Arrived(before[0]));
        assert(crate::laws::is_passed_over(state.closed, wait, before[0]));
        assert(rest =~= arriving(before.drop_first()).push(Happened::Arrived(last)).push(
            Happened::Closed,
        ));
        assert forall|i: int| 0 <= i < before.drop_first().len() implies crate::laws::is_passed_over(
            state.closed,
            wait,
            #[trigger] before.drop_first()[i],
        ) by {
            assert(before.drop_first()[i] == before[i + 1]);
        }
        assert(next == state);
        awaiting_run_finishes_with_the_reply(next, before.drop_first(), last, result);
    }
}

/// The wait for the reply to command `id`, which was sent when the clock read
/// `now`.
pub open spec fn call_wait(id: u64, now: u64) -> Wait {
    Wait {
        id,
        deadline: crate::clock::deadline_of(now, crate::connection::COMMAND_TIMEOUT_SECS, 0),
    }
}

/// The result of a run of a command is what its own reply says, whatever else
/// arrives before that reply; and the failure where the wait ends without one.
pub proof fn a_command_run_finishes_with_its_reply(
    method: Seq<char>,
    params: Json,
    sent_at: u64,
    before: Seq<Arrived>,
    last: Arrived,
    result: Result<Json, Failure>,
)
    requires
        forall|i: int|
            0 <= i < before.len() ==> crate::laws::is_passed_over(
                None,
                call_wait(crate::command::RUN_COMMAND_ID, sent_at),
                #[trigger] before[i],
            ),
        crate::connection::awaited(
            None,
            call_wait(crate::command::RUN_COMMAND_ID, sent_at),
            last,
        ) == Awaited::Done(result),
    ensures
        ({
            let state = CommandState::initial(method, params);
            let events = seq![Happened::Opened(Ok(())), Happened::Sent(Ok(sent_at))] + arriving(
                before,
            ).push(Happened::Arrived(last)).push(Happened::Closed);
            &&& command_admits(state, events)
            &&& command_acts(state, events).last() == Act::Finish(result)
        }),
{
    let state = CommandState::initial(method, params);
    let arrivals = arriving(before).push(Happened::Arrived(last)).push(Happened::Closed);
    let events = seq![Happened::Opened(Ok(())), Happened::Sent(Ok(sent_at))] + arrivals;
    let sending = state.after(events[0]).0;
    let awaiting = sending.after(events[1]).0;
    awaiting_run_finishes_with_the_reply(awaiting, before, last, result);
    assert(events.drop_first().drop_first() =~= arrivals);
    assert(events.drop_first()[0] == events[1]);
    assert(command_admits(sending, events.drop_first()));
    command_acts_unrolled(sending, events.drop_first());
    command_acts_unrolled(state, events);
}

// A command, and the page load it may set off
// -------------------------------------------

/// The events may happen to the run, in this order.
pub open spec fn load_admits(state: LoadState, events: Seq<Happened>) -> bool
    decreases events.len(),
{
    events.len() > 0 ==> state.expects(events[0]) && load_admits(
        state.after(events[0]).0,
        events.drop_first(),
    )
}

/// What the run does in answer to the events.
pub open spec fn load_acts(state: LoadState, events: Seq<Happened>) -> Seq<Act>
    decreases events.len(),
{
    if events.len() == 0 {
        Seq::empty()
    } else {
        seq![state.after(events[0]).1] + load_acts(state.after(events[0]).0, events.drop_first())
    }
}

/// The texts that a run may still send, in order.
pub open spec fn still_to_send(state: LoadState) -> Seq<Seq<char>> {
    match state.stage {
        LoadStage::Connecting => seq![
            crate::command::enable_text(),
            state.command,
            crate::command::disable_text(),
        ],
        LoadStage::SendingEnable(_) | LoadStage::AwaitingEnable(_) => seq![
            state.command,
            crate::command::disable_text(),
        ],
        LoadStage::SendingCommand | LoadStage::Watching { .. } => seq![
            crate::command::disable_text(),
        ],
        _ => Seq::empty(),
    }
}

proof fn a_load_run_sends_what_is_left(state: LoadState, events: Seq<Happened>)
    requires
        load_admits(state, events),
    ensures
        sent(load_acts(state, events)).is_prefix_of(still_to_send(state)),
    decreases events.len(),
{
    if events.len() > 0 {
        let (next, act) = state.after(events[0]);
        let rest = load_acts(next, events.drop_first());
        a_load_run_sends_what_is_left(next, events.drop_first());
        assert((seq![act] + rest).drop_first() =~= rest);
        assert(load_acts(state, events)[0] == act);
        if act is Send {
            assert(still_to_send(state) =~= seq![act->Send_0] + still_to_send(next));
        } else if next.stage is Finished {
            assert(load_admits(next, events.drop_first()));
            assert(rest.len() == 0);
        }
    }
}

/// A run that may load a page sends nothing but these, in this order, and may
/// stop at any of them: page events on, its command, page events off.
pub proof fn a_load_run_sends_in_order(
    method: Seq<char>,
    params: Json,
    timeout_secs: u64,
    events: Seq<Happened>,
)
    requires
        load_admits(LoadState::initial(method, params, timeout_secs), events),
    ensures
        sent(load_acts(LoadState::initial(method, params, timeout_secs), events)).is_prefix_of(
            seq![
                crate::command::enable_text(),
                crate::command::command_text(crate::command::RUN_COMMAND_ID, method, params),
                crate::command::disable_text(),
            ],
        ),
{
    a_load_run_sends_what_is_left(LoadState::initial(method, params, timeout_secs), events);
}

/// The command of a run that may load a page is sent only on a good reply to the
/// command that switches page events on, so no load event can be missed.
pub proof fn a_load_run_switches_events_on_first(state: LoadState, event: Happened)
    requires
        state.expects(event),
        state.after(event).0.stage is SendingCommand,
    ensures
        state.stage is AwaitingEnable,
        event matches Happened::Arrived(arrival) && (crate::connection::awaited(
            state.closed,
            state.stage->AwaitingEnable_0,
            arrival,
        ) matches Awaited::Done(reply) && reply is Ok),
        state.after(event).1 == Act::Send(state.command),
{
}

pub(crate) proof fn load_acts_unrolled(state: LoadState, events: Seq<Happened>)
    requires
        events.len() > 0,
    ensures
        ({
            let acts = load_acts(state, events);
            let rest = load_acts(state.after(events[0]).0, events.drop_first());
            &&& acts.len() == rest.len() + 1
            &&& acts[0] == state.after(events[0]).1
            &&& acts.drop_first() == rest
            &&& rest.len() > 0 ==> acts.last() == rest.last()
        }),
{
    let rest = load_acts(state.after(events[0]).0, events.drop_first());
    assert(load_acts(state, events) == seq![state.after(events[0]).1] + rest);
    assert(load_acts(state, events).drop_first() =~= rest);
}

/// The run is over with a good result.
pub open spec fn is_good_result(act: Act) -> bool {
    act matches Act::Finish(result) && result is Ok
}

proof fn good_result_follows_close(state: LoadState, events: Seq<Happened>, i: int)
    requires
        load_admits(state, events),
        0 <= i < load_acts(state, events).len(),
    ensures
        load_acts(state, events)[i] is Finish ==> i == load_acts(state, events).len() - 1,
        is_good_result(load_acts(state, events)[i]) ==> if i == 0 {
            state.stage is Closing
        } else {
            load_acts(state, events)[i - 1] is Close
        },
        load_acts(state, events)[i] is Close ==> if i == 0 {
            state.stage is SendingDisable
        } else {
            load_acts(state, events)[i - 1] == Act::Send(crate::command::disable_text())
        },
    decreases events.len(),
{
    if events.len() > 0 {
        let next = state.after(events[0]).0;
        load_acts_unrolled(state, events);
        assert(load_admits(next, events.drop_first()));
        if i > 0 {
            assert(load_acts(next, events.drop_first())[i - 1] == load_acts(state, events)[i]);
            good_result_follows_close(next, events.drop_first(), i - 1);
        }
    }
}

/// A run that may load a page hands back a good result only after hanging up,
/// and it hangs up only after switching page events off; once it has handed
/// back a result, it does nothing more.
pub proof fn a_load_run_cleans_up_before_a_good_result(
    method: Seq<char>,
    params: Json,
    timeout_secs: u64,
    events: Seq<Happened>,
    i: int,
)
    requires
        load_admits(LoadState::initial(method, params, timeout_secs), events),
        0 <= i < load_acts(LoadState::initial(method, params, timeout_secs), events).len(),
    ensures
        ({
            let acts = load_acts(LoadState::initial(method, params, timeout_secs), events);
            &&& acts[i] is Finish ==> i == acts.len() - 1
            &&& is_good_result(acts[i]) ==> i > 0 && acts[i - 1] is Close
            &&& acts[i] is Close ==> i > 0 && acts[i - 1] == Act::Send(
                crate::command::disable_text(),
            )
        }),
{
    good_result_follows_close(LoadState::initial(method, params, timeout_secs), events, i);
}

/// Among the events, the command of the run was handed to the socket.
pub open spec fn command_goes_out(state: LoadState, events: Seq<Happened>) -> bool
    decreases events.len(),
{
    events.len() > 0 && (is_command_sent(state, events[0]) || command_goes_out(
        state.after(events[0]).0,
        events.drop_first(),
    ))
}

/// The run was sending its command, and the socket took it.
pub open spec fn is_command_sent(state: LoadState, event: Happened) -> bool {
    state.stage is SendingCommand && (event matches Happened::Sent(sent) && sent is Ok)
}

proof fn sent_unrolled(state: LoadState, events: Seq<Happened>)
    requires
        events.len() > 0,
    ensures
        ({
            let (next, act) = state.after(events[0]);
            let rest = sent(load_acts(next, events.drop_first()));
            sent(load_acts(state, events)) == match act {
                Act::Send(text) => seq![text] + rest,
                _ => rest,
            }
        }),
{
    load_acts_unrolled(state, events);
}

proof fn late_run_cleans_up(state: LoadState, events: Seq<Happened>, i: int)
    requires
        load_admits(state, events),
        state.stage is Watching || state.stage is SendingDisable || state.stage is Closing,
        0 <= i < load_acts(state, events).len(),
        load_acts(state, events)[i] is Finish,
    ensures
        i == 0 ==> state.stage is Closing,
        i > 0 ==> load_acts(state, events)[i - 1] is Close,
        sent(load_acts(state, events)) == still_to_send(state),
    decreases events.len(),
{
    if events.len() > 0 {
        let (next, act) = state.after(events[0]);
        load_acts_unrolled(state, events);
        sent_unrolled(state, events);
        assert(load_admits(next, events.drop_first()));
        if i > 0 {
            assert(load_acts(next, events.drop_first())[i - 1] == load_acts(state, events)[i]);
            late_run_cleans_up(next, events.drop_first(), i - 1);
            if act is Send {
                assert(still_to_send(state) =~= seq![act->Send_0] + still_to_send(next));
            }
        }
    }
}

proof fn run_cleans_up(state: LoadState, events: Seq<Happened>, i: int)
    requires
        load_admits(state, events),
        command_goes_out(state, events),
        0 <= i < load_acts(state, events).len(),
        load_acts(state, events)[i] is Finish,
    ensures
        i > 0,
        load_acts(state, events)[i - 1] is Close,
        sent(load_acts(state, events)) == still_to_send(state),
    decreases events.len(),
{
    let (next, act) = state.after(events[0]);
    let rest = events.drop_first();
    load_acts_unrolled(state, events);
    sent_unrolled(state, events);
    assert(load_admits(next, rest));
    if is_command_sent(state, events[0]) {
        assert(load_acts(next, rest)[i - 1] == load_acts(state, events)[i]);
        late_run_cleans_up(next, rest, i - 1);
    } else {
        assert(command_goes_out(next, rest));
        assert(i > 0);
        assert(load_acts(next, rest)[i - 1] == load_acts(state, events)[i]);
        run_cleans_up(next, rest, i - 1);
        if act is Send {
            assert(still_to_send(state) =~= seq![act->Send_0] + still_to_send(next));
        }
    }
}

/// Once its command was sent, a run that may load a page hands back its result,
/// good or bad, only after switching page events off and then hanging up. By
/// then it has sent exactly these: page events on, its command, page events off.
pub proof fn a_load_run_cleans_up_once_its_command_is_sent(
    method: Seq<char>,
    params: Json,
    timeout_secs: u64,
    events: Seq<Happened>,
    i: int,
)
    requires
        load_admits(LoadState::initial(method, params, timeout_secs), events),
        command_goes_out(LoadState::initial(method, params, timeout_secs), events),
        0 <= i < load_acts(LoadState::initial(method, params, timeout_secs), events).len(),
        load_acts(LoadState::initial(method, params, timeout_secs), events)[i] is Finish,
    ensures
        ({
            let acts = load_acts(LoadState::initial(method, params, timeout_secs), events);
            &&& i == acts.len() - 1
            &&& i > 1
            &&& acts[i - 1] is Close
            &&& acts[i - 2] == Act::Send(crate::command::disable_text())
            &&& sent(acts) == seq![
                crate::command::enable_text(),
                crate::command::command_text(crate::command::RUN_COMMAND_ID, method, params),
                crate::command::disable_text(),
            ]
        }),
{
    let state = LoadState::initial(method, params, timeout_secs);
    run_cleans_up(state, events, i);
    good_result_follows_close(state, events, i);
    good_result_follows_close(state, events, i - 1);
}

/// What the command answers in an arrival, if it answers a result there.
pub open spec fn answer_in(arrival: Arrived) -> Option<Json> {
    match arrival {
        Arrived::Item(_, Item::Text(text)) => match crate::json::parsed_json(text) {
            Ok(response) => match crate::connection::reply_to(
                crate::command::RUN_COMMAND_ID,
                response,
            ) {
                Some(Ok(result)) => Some(result),
                _ => None,
            },
            Err(_) => None,
        },
        _ => None,
    }
}

/// The newest answer of the command among arrivals, and else what it answered
/// before them.
pub open spec fn newest_answer(answer: Option<Json>, arrivals: Seq<Arrived>) -> Option<Json>
    decreases arrivals.len(),
{
    if arrivals.len() == 0 {
        answer
    } else {
        match answer_in(arrivals.last()) {
            Some(result) => Some(result),
            None => newest_answer(answer, arrivals.drop_last()),
        }
    }
}

/// The arrival does not end the wait for the page to load, which ends when the
/// clock reads `deadline`.
pub open spec fn is_quiet(deadline: u128, arrival: Arrived) -> bool {
    match arrival {
        Arrived::Item(_, Item::Other) => true,
        Arrived::Item(now, Item::Text(text)) => now < deadline && match crate::json::parsed_json(
            text,
        ) {
            Ok(response) => !crate::command::is_load_event(response) && !(
            crate::connection::reply_to(
                crate::command::RUN_COMMAND_ID,
                response,
            ) matches Some(reply) && reply is Err),
            Err(_) => true,
        },
        _ => false,
    }
}

/// An arrival ends the wait for the page to load unless it is quiet, and a quiet
/// one leaves nothing behind but what the command answered in it. No read is
/// given time beyond the deadline.
pub proof fn a_wait_goes_on_over_quiet_arrivals(
    closed: Option<HangUp>,
    answer: Option<Json>,
    deadline: u128,
    arrival: Arrived,
)
    ensures
        match crate::command::watched(closed, answer, deadline, arrival) {
            Watch::Read { left, answer: so_far } => {
                &&& is_quiet(deadline, arrival)
                &&& crate::connection::closed_on(closed, arrival) == closed
                &&& so_far == newest_answer(answer, seq![arrival])
                &&& arrival matches Arrived::Item(now, _) && (left > 0 ==> now + left == deadline)
            },
            Watch::Over(_) => !is_quiet(deadline, arrival),
        },
{
    assert(seq![arrival].last() == arrival);
    assert(seq![arrival].drop_last() =~= Seq::empty());
    assert(newest_answer(answer, seq![arrival].drop_last()) == answer);
}

/// A message that comes when the time is up is still heard, and is the last one.
pub proof fn a_wait_is_over_when_its_time_has_passed(
    closed: Option<HangUp>,
    answer: Option<Json>,
    deadline: u128,
    now: u64,
    text: Seq<char>,
    so_far: Option<Json>,
)
    requires
        now >= deadline,
        crate::command::watched_message(closed, answer, crate::json::parsed_json(text))
            == crate::command::Noted::On(so_far),
    ensures
        crate::command::watched(closed, answer, deadline, Arrived::Item(now, Item::Text(text)))
            == Watch::Over(crate::command::settled(closed, so_far)),
{
}

/// A run that is given no time to wait for the page reads nothing after sending
/// its command, and switches page events off at once.
pub proof fn a_load_run_without_time_reads_nothing(state: LoadState, now: u64)
    requires
        state.stage is SendingCommand,
        state.timeout_secs == 0,
    ensures
        state.after(Happened::Sent(Ok(now))).1 == Act::Send(crate::command::disable_text()),
        state.after(Happened::Sent(Ok(now))).0.stage == LoadStage::SendingDisable(
            crate::command::settled(state.closed, None),
        ),
{
}

proof fn newest_answer_starts_over(
    answer: Option<Json>,
    first: Arrived,
    arrivals: Seq<Arrived>,
)
    ensures
        newest_answer(newest_answer(answer, seq![first]), arrivals) == newest_answer(
            answer,
            seq![first] + arrivals,
        ),
    decreases arrivals.len(),
{
    let all = seq![first] + arrivals;
    if arrivals.len() == 0 {
        assert(all =~= seq![first]);
    } else {
        assert(all.last() == arrivals.last());
        assert(all.drop_last() =~= seq![first] + arrivals.drop_last());
        newest_answer_starts_over(answer, first, arrivals.drop_last());
    }
}

proof fn watching_run_finishes_with_the_newest_answer(
    state: LoadState,
    before: Seq<Arrived>,
    last: Arrived,
    result: Result<Json, Failure>,
    disabled: Result<u64, Seq<char>>,
)
    requires
        state.stage is Watching,
        forall|i: int|
            0 <= i < before.len() ==> is_quiet(
                state.stage->Watching_deadline,
                #[trigger] before[i],
            ),
        crate::command::watched(
            state.closed,
            newest_answer(state.stage->Watching_answer, before),
            state.stage->Watching_deadline,
            last,
        ) == Watch::Over(result),
    ensures
        ({
            let events = arriving(before).push(Happened::Arrived(last)).push(
                Happened::Sent(disabled),
            ).push(Happened::Closed);
            &&& load_admits(state, events)
            &&& load_acts(state, events).len() == before.len() + 3
            &&& load_acts(state, events).last() == Act::Finish(result)
        }),
    decreases before.len(),
{
    let events = arriving(before).push(Happened::Arrived(last)).push(
        Happened::Sent(disabled),
    ).push(Happened::Closed);
    let next = state.after(events[0]).0;
    let rest = events.drop_first();
    load_acts_unrolled(state, events);
    if before.len() == 0 {
        assert(events[0] == Happened::Arrived(last));
        assert(rest =~= seq![Happened::Sent(disabled), Happened::Closed]);
        let closing = next.after(rest[0]).0;
        let tail = rest.drop_first();
        assert(tail =~= seq![Happened::Closed]);
        let end = closing.after(tail[0]).0;
        assert(tail.drop_first() =~= Seq::empty());
        load_acts_unrolled(next, rest);
        load_acts_unrolled(closing, tail);
        assert(load_admits(end, tail.drop_first()));
        assert(load_admits(closing, tail));
        assert(load_admits(next, rest));
    } else {
        let answer = state.stage->Watching_answer;
        let deadline = state.stage->Watching_deadline;
        let first = before[0];
        assert(events[0] == Happened::Arrived(first));
        assert(is_quiet(deadline, first));
        a_wait_goes_on_over_quiet_arrivals(state.closed, answer, deadline, first);
        assert(rest =~= arriving(before.drop_first()).push(Happened::Arrived(last)).push(
            Happened::Sent(disabled),
        ).push(Happened::Closed));
        assert forall|i: int| 0 <= i < before.drop_first().len() implies is_quiet(
            deadline,
            #[trigger] before.drop_first()[i],
        ) by {
            assert(before.drop_first()[i] == before[i + 1]);
        }
        assert(before =~= seq![first] + before.drop_first());
        newest_answer_starts_over(answer, first, before.drop_first());
        assert(next.stage == LoadStage::Watching {
            answer: newest_answer(answer, seq![first]),
            deadline,
        });
        watching_run_finishes_with_the_newest_answer(
            next,
            before.drop_first(),
            last,
            result,
            disabled,
        );
    }
}

proof fn enabling_run_passes_over(state: LoadState, early: Seq<Arrived>, tail: Seq<Happened>)
    requires
        state.stage is AwaitingEnable,
        forall|i: int|
            0 <= i < early.len() ==> crate::laws::is_passed_over(
                state.closed,
                state.stage->AwaitingEnable_0,
                #[trigger] early[i],
            ),
        tail.len() > 0,
        load_admits(state, tail),
        load_acts(state, tail).len() > 0,
    ensures
        load_admits(state, arriving(early) + tail),
        load_acts(state, arriving(early) + tail).len() > 0,
        load_acts(state, arriving(early) + tail).last() == load_acts(state, tail).last(),
    decreases early.len(),
{
    let events = arriving(early) + tail;
    if early.len() == 0 {
        assert(events =~= tail);
    } else {
        assert(events[0] == Happened::Arrived(early[0]));
        assert(crate::laws::is_passed_over(
            state.closed,
            state.stage->AwaitingEnable_0,
            early[0],
        ));
        assert(state.after(events[0]).0 == state);
        assert(events.drop_first() =~= arriving(early.drop_first()) + tail);
        assert forall|i: int|
            0 <= i < early.drop_first().len() implies crate::laws::is_passed_over(
            state.closed,
            state.stage->AwaitingEnable_0,
            #[trigger] early.drop_first()[i],
        ) by {
            assert(early.drop_first()[i] == early[i + 1]);
        }
        enabling_run_passes_over(state, early.drop_first(), tail);
        load_acts_unrolled(state, events);
    }
}

/// Once page events are on, whatever arrived before the reply that says so, and
/// the command is sent, the result of the run is decided by the first arrival
/// that is not quiet, together with the newest answer that the command gave
/// before it. Whether page events could be switched off again makes no
/// difference. (A run that is given no time to wait is over at the sending.)
pub proof fn a_load_run_finishes_with_the_newest_answer(
    method: Seq<char>,
    params: Json,
    timeout_secs: u64,
    enable_at: u64,
    early: Seq<Arrived>,
    enabled: Arrived,
    reply: Json,
    command_at: u64,
    before: Seq<Arrived>,
    last: Arrived,
    result: Result<Json, Failure>,
    disabled: Result<u64, Seq<char>>,
)
    requires
        forall|i: int|
            0 <= i < early.len() ==> crate::laws::is_passed_over(
                None,
                call_wait(crate::command::RUN_PAGE_ENABLE_ID, enable_at),
                #[trigger] early[i],
            ),
        crate::connection::awaited(
            None,
            call_wait(crate::command::RUN_PAGE_ENABLE_ID, enable_at),
            enabled,
        ) == Awaited::Done(Ok(reply)),
        timeout_secs > 0,
        forall|i: int|
            0 <= i < before.len() ==> is_quiet(
                crate::clock::deadline_of(command_at, timeout_secs, 0),
                #[trigger] before[i],
            ),
        crate::command::watched(
            None,
            newest_answer(None, before),
            crate::clock::deadline_of(command_at, timeout_secs, 0),
            last,
        ) == Watch::Over(result),
    ensures
        ({
            let state = LoadState::initial(method, params, timeout_secs);
            let events = seq![Happened::Opened(Ok(())), Happened::Sent(Ok(enable_at))] + (arriving(early)
                + (seq![Happened::Arrived(enabled), Happened::Sent(Ok(command_at))] + arriving(before).push(
                Happened::Arrived(last),
            ).push(Happened::Sent(disabled)).push(Happened::Closed)));
            &&& load_admits(state, events)
            &&& load_acts(state, events).last() == Act::Finish(result)
        }),
{
    let state = LoadState::initial(method, params, timeout_secs);
    let watched_part = arriving(before).push(Happened::Arrived(last)).push(
        Happened::Sent(disabled),
    ).push(Happened::Closed);
    let tail = seq![Happened::Arrived(enabled), Happened::Sent(Ok(command_at))] + watched_part;
    let enabling_part = arriving(early) + tail;
    let events = seq![Happened::Opened(Ok(())), Happened::Sent(Ok(enable_at))] + enabling_part;
    let enabling = state.after(events[0]).0;
    let awaiting = enabling.after(events[1]).0;
    let sending = awaiting.after(tail[0]).0;
    let watching = sending.after(tail[1]).0;
    watching_run_finishes_with_the_newest_answer(watching, before, last, result, disabled);
    assert(tail.drop_first().drop_first() =~= watched_part);
    assert(tail.drop_first()[0] == tail[1]);
    load_acts_unrolled(sending, tail.drop_first());
    assert(load_admits(sending, tail.drop_first()));
    load_acts_unrolled(awaiting, tail);
    assert(load_admits(awaiting, tail));
    enabling_run_passes_over(awaiting, early, tail);
    assert(events.drop_first().drop_first() =~= enabling_part);
    assert(events.drop_first()[0] == events[1]);
    load_acts_unrolled(enabling, events.drop_first());
    assert(load_admits(enabling, events.drop_first()));
    load_acts_unrolled(state, events);
}

/// When nothing navigates, the wait expires, and what the command answered is
/// the result: that is the intended path, not a failure.
pub proof fn an_expired_wait_keeps_the_answer(
    closed: Option<HangUp>,
    answer: Json,
    deadline: u128,
)
    ensures
        crate::command::watched(closed, Some(answer), deadline, Arrived::Expired) == Watch::Over(
            Ok(answer),
        ),
{
}

/// A peer that hangs up after the answer, in whatever words, does not take the
/// answer back.
pub proof fn a_hang_up_keeps_the_answer(
    closed: Option<HangUp>,
    answer: Json,
    deadline: u128,
    now: u64,
    info: Option<HangUp>,
)
    ensures
        crate::command::watched(
            closed,
            Some(answer),
            deadline,
            Arrived::Item(now, Item::Close(info)),
        ) == Watch::Over(Ok(answer)),
        crate::command::watched(closed, Some(answer), deadline, Arrived::Item(now, Item::Ended))
            == Watch::Over(Ok(answer)),
{
}

/// A socket that breaks is a failure even after the answer.
pub proof fn a_broken_socket_is_a_failure(
    closed: Option<HangUp>,
    answer: Option<Json>,
    deadline: u128,
    now: u64,
    reason: Seq<char>,
)
    ensures
        crate::command::watched(
            closed,
            answer,
            deadline,
            Arrived::Item(now, Item::Failed(reason)),
        ) == Watch::Over(Err(Failure::Transport("CDP WebSocket error: "@ + reason))),
{
}

} // verus!
