//! What a message says, told by its members alone, and what each thing that
//! arrives does to a wait.

use crate::command::{Noted, Watch};
use crate::connection::{Arrived, Awaited, HangUp, Heard, Item, Wait};
use crate::error::Failure;
use crate::json::Json;
use vstd::prelude::*;

verus! {

// Frames
// ------

/// A frame for a page has exactly three members: the id, the method and the very
/// parameters that were given. One for a session has the session's id besides.
pub proof fn a_frame_has_these_members_and_no_others(
    session: Seq<char>,
    id: u64,
    method: Seq<char>,
    params: Json,
    key: Seq<char>,
)
    ensures
        crate::connection::frame(None, id, method, params) matches Json::Object(members) && {
            &&& members.dom().contains("id"@) && members["id"@] == Json::Unsigned(id)
            &&& members.dom().contains("method"@) && members["method"@] == Json::Text(method)
            &&& members.dom().contains("params"@) && members["params"@] == params
            &&& members.dom().contains(key) ==> key == "id"@ || key == "method"@ || key
                == "params"@
        },
        crate::connection::frame(Some(session), id, method, params) matches Json::Object(members)
            && {
            &&& members.dom().contains("id"@) && members["id"@] == Json::Unsigned(id)
            &&& members.dom().contains("method"@) && members["method"@] == Json::Text(method)
            &&& members.dom().contains("params"@) && members["params"@] == params
            &&& members.dom().contains("sessionId"@) && members["sessionId"@] == Json::Text(
                session,
            )
            &&& members.dom().contains(key) ==> key == "id"@ || key == "method"@ || key
                == "params"@ || key == "sessionId"@
        },
{
    reveal_strlit("id");
    reveal_strlit("method");
    reveal_strlit("params");
    reveal_strlit("sessionId");
    assert("id"@.len() == 2 && "method"@.len() == 6 && "params"@.len() == 6 && "sessionId"@.len()
        == 9);
    assert("method"@[0] != "params"@[0]);
}

/// A command of a run is the text of the object that has these three members and
/// no others: its id, its method and the very parameters that were given.
pub proof fn a_command_is_written_from_its_members(
    members: Map<Seq<char>, Json>,
    id: u64,
    method: Seq<char>,
    params: Json,
)
    requires
        members.dom() == set!["id"@, "method"@, "params"@],
        members["id"@] == Json::Unsigned(id),
        members["method"@] == Json::Text(method),
        members["params"@] == params,
    ensures
        crate::command::command_text(id, method, params) == crate::json::json_text(
            Json::Object(members),
        ),
{
    reveal_strlit("id");
    reveal_strlit("method");
    reveal_strlit("params");
    assert("id"@.len() == 2 && "method"@.len() == 6 && "params"@.len() == 6);
    assert("method"@[0] != "params"@[0]);
    assert(crate::connection::frame(None, id, method, params)->Object_0 =~= members);
}

/// Page events are switched on and off by commands without parameters, under
/// ids of their own.
pub proof fn page_events_are_switched_by_commands_of_their_own()
    ensures
        crate::command::enable_text() == crate::json::json_text(
            Json::Object(
                map![
                    "id"@ => Json::Unsigned(1),
                    "method"@ => Json::Text("Page.enable"@),
                    "params"@ => Json::Object(Map::empty()),
                ],
            ),
        ),
        crate::command::disable_text() == crate::json::json_text(
            Json::Object(
                map![
                    "id"@ => Json::Unsigned(3),
                    "method"@ => Json::Text("Page.disable"@),
                    "params"@ => Json::Object(Map::empty()),
                ],
            ),
        ),
{
}

// Replies
// -------

/// The reply to a command is the message whose member `id` is that command's.
/// If it has a member `error`, the text of that very error is the answer; else
/// its very member `result`, whatever that holds; else an empty object. No other
/// member makes a difference.
pub proof fn a_reply_is_read_by_its_members(id: u64, members: Map<Seq<char>, Json>)
    requires
        members.dom().contains("id"@),
        members["id"@] == Json::Unsigned(id),
    ensures
        members.dom().contains("error"@) ==> {
            &&& crate::connection::message_read(id, Ok(Json::Object(members))) == Some(
                Err::<Json, Failure>(Failure::Protocol(crate::json::json_text(members["error"@]))),
            )
            &&& crate::connection::reply_to(id, Json::Object(members)) == Some(
                Err::<Json, Failure>(Failure::Protocol(crate::json::json_text(members["error"@]))),
            )
        },
        !members.dom().contains("error"@) && members.dom().contains("result"@) ==> {
            &&& crate::connection::message_read(id, Ok(Json::Object(members))) == Some(
                Ok::<Json, Failure>(members["result"@]),
            )
            &&& crate::connection::reply_to(id, Json::Object(members)) == Some(
                Ok::<Json, Failure>(members["result"@]),
            )
        },
        !members.dom().contains("error"@) && !members.dom().contains("result"@) ==> {
            &&& crate::connection::message_read(id, Ok(Json::Object(members))) == Some(
                Ok::<Json, Failure>(Json::Object(Map::empty())),
            )
            &&& crate::connection::reply_to(id, Json::Object(members)) == Some(
                Ok::<Json, Failure>(Json::Object(Map::empty())),
            )
        },
{
}

/// Every other message says nothing of the command: an object with another id or
/// none, and what is no object. A text that is not JSON is a failure, told in
/// the parser's words.
pub proof fn only_an_object_with_the_id_is_a_reply(id: u64, response: Json, reason: Seq<char>)
    ensures
        !(response matches Json::Object(members) && members.dom().contains("id"@) && members["id"@]
            == Json::Unsigned(id)) ==> crate::connection::message_read(id, Ok(response)) is None
            && crate::connection::reply_to(id, response) is None,
        crate::connection::message_read(id, Err(reason)) == Some(
            Err::<Json, Failure>(Failure::Protocol("failed to parse CDP response: "@ + reason)),
        ),
{
}

// Reads
// -----

/// A text is handed on as it came, a break of the socket in its own words, and
/// a hang-up is a hang-up however it was told. What is neither is skipped.
pub proof fn a_text_is_heard_as_it_came(
    text: Seq<char>,
    reason: Seq<char>,
    info: Option<HangUp>,
)
    ensures
        crate::connection::heard(Item::Text(text)) == Heard::Text(text),
        crate::connection::heard(Item::Failed(reason)) == Heard::Failed(
            Failure::Transport("CDP WebSocket error: "@ + reason),
        ),
        crate::connection::heard(Item::Close(info)) == Heard::Gone,
        crate::connection::heard(Item::Ended) == Heard::Gone,
        crate::connection::heard(Item::Other) == Heard::Skip,
{
}

/// A close frame is what is known of a hang-up from then on, as it was told.
/// Nothing else that arrives changes what is known.
pub proof fn a_close_is_recorded_as_it_was_told(
    closed: Option<HangUp>,
    info: Option<HangUp>,
    now: u64,
    item: Item,
)
    ensures
        crate::connection::closed_after(closed, Item::Close(info)) == info,
        crate::connection::closed_on(closed, Arrived::Item(now, Item::Close(info))) == info,
        crate::connection::closed_on(closed, Arrived::Expired) == closed,
        !(item is Close) ==> crate::connection::closed_after(closed, item) == closed,
        !(item is Close) ==> crate::connection::closed_on(closed, Arrived::Item(now, item))
            == closed,
{
}

/// What a hang-up means goes by its code, and its words tell the context, the
/// code and the reason, if there is one. Where nothing is known of it, it is a
/// broken socket.
pub proof fn a_hang_up_is_told_by_its_code_and_reason(
    code: u16,
    reason: Seq<char>,
    context: Seq<char>,
    words: Seq<char>,
)
    requires
        words == if reason.len() == 0 {
            context + " (close "@ + crate::text::decimal(code as nat) + ")"@
        } else {
            context + " ("@ + crate::text::decimal(code as nat) + ": "@ + reason + ")"@
        },
    ensures
        crate::connection::closed_failure(Some(HangUp { code, reason }), context) == match code {
            1008 => Failure::Unauthorized(words),
            1013 => Failure::NotDrivable(words),
            1009 => Failure::Transport(words + " — message too large"@),
            1011 => Failure::Unreachable(words),
            _ => Failure::Transport(words),
        },
        crate::connection::closed_failure(None, context) == Failure::Transport(
            context + " (connection closed)"@,
        ),
{
}

// The wait for a reply
// --------------------

/// The time of a wait is counted from its beginning, in nanoseconds, to the last
/// one; and what is left of it is what has not passed yet.
pub proof fn time_is_counted_from_the_beginning(
    now: u64,
    secs: u64,
    subsec_nanos: u32,
    deadline: u128,
)
    ensures
        crate::clock::deadline_of(now, secs, subsec_nanos) == now + secs * 1_000_000_000
            + subsec_nanos,
        now < deadline ==> crate::clock::left_until(deadline, now) == Some(
            (deadline - now) as u128,
        ),
        now >= deadline ==> crate::clock::left_until(deadline, now) is None,
        now < deadline ==> crate::connection::rest_of_read(deadline, now) == deadline - now,
        now >= deadline ==> crate::connection::rest_of_read(deadline, now) == 0,
{
}

/// A wait for a reply begins with a read that may take all of its time, and is
/// over at once where it is given none. Its deadline is its time from its
/// beginning on, and its id is the one that was given.
pub proof fn a_wait_begins_with_all_of_its_time(
    id: u64,
    secs: u64,
    subsec_nanos: u32,
    now: u64,
)
    ensures
        match crate::connection::begun_wait(id, secs, subsec_nanos, now) {
            Awaited::Read { left, wait } => {
                &&& secs > 0 || subsec_nanos > 0
                &&& left == secs * 1_000_000_000 + subsec_nanos
                &&& wait.id == id
                &&& wait.deadline == now + secs * 1_000_000_000 + subsec_nanos
            },
            Awaited::Done(result) => {
                &&& secs == 0 && subsec_nanos == 0
                &&& result == Err::<Json, Failure>(
                    Failure::Transport("timed out waiting for a CDP response"@),
                )
            },
        },
{
}

/// A command that was sent is awaited for a minute from then on. One that could
/// not be sent is a broken socket, told in the socket's words.
pub proof fn a_call_waits_a_minute_from_its_sending(id: u64, now: u64, reason: Seq<char>)
    ensures
        crate::connection::call_sent(id, Ok(now)) == (Awaited::Read {
            left: 60_000_000_000,
            wait: Wait { id, deadline: (now + 60_000_000_000) as u128 },
        }),
        crate::connection::call_sent(id, Err(reason)) == Awaited::Done(
            Err(Failure::Transport("failed to send CDP command: "@ + reason)),
        ),
        crate::connection::send_failure(reason) == Failure::Transport(
            "failed to send CDP command: "@ + reason,
        ),
{
}

/// A reply that arrives ends the wait with the very result that it carries, no
/// matter when it arrives and what else it holds; and an error that it carries
/// ends it with the text of that very error.
pub proof fn a_reply_ends_the_wait_with_its_own_result(
    closed: Option<HangUp>,
    wait: Wait,
    now: u64,
    text: Seq<char>,
    members: Map<Seq<char>, Json>,
)
    requires
        crate::json::parsed_json(text) == Ok::<Json, Seq<char>>(Json::Object(members)),
        members.dom().contains("id"@),
        members["id"@] == Json::Unsigned(wait.id),
    ensures
        crate::connection::awaited(closed, wait, Arrived::Item(now, Item::Text(text)))
            == Awaited::Done(
            if members.dom().contains("error"@) {
                Err(Failure::Protocol(crate::json::json_text(members["error"@])))
            } else if members.dom().contains("result"@) {
                Ok(members["result"@])
            } else {
                Ok(Json::Object(Map::empty()))
            },
        ),
{
}

/// A message that is not the reply leaves the wait as it is, for the time that
/// is left, and ends it where none is.
pub proof fn another_message_leaves_the_wait_as_it_is(
    closed: Option<HangUp>,
    wait: Wait,
    now: u64,
    text: Seq<char>,
    response: Json,
)
    requires
        crate::json::parsed_json(text) == Ok::<Json, Seq<char>>(response),
        !(response matches Json::Object(members) && members.dom().contains("id"@) && members["id"@]
            == Json::Unsigned(wait.id)),
    ensures
        now < wait.deadline ==> crate::connection::awaited(
            closed,
            wait,
            Arrived::Item(now, Item::Text(text)),
        ) == (Awaited::Read { left: (wait.deadline - now) as u128, wait }),
        now >= wait.deadline ==> crate::connection::awaited(
            closed,
            wait,
            Arrived::Item(now, Item::Text(text)),
        ) == Awaited::Done(Err(Failure::Transport("timed out waiting for a CDP response"@))),
{
}

/// Whatever else arrives, or does not, ends the wait in words of its own, but
/// for noise, over which it goes on for the time that is left.
pub proof fn a_wait_ends_in_the_words_of_what_ended_it(
    closed: Option<HangUp>,
    wait: Wait,
    now: u64,
    text: Seq<char>,
    reason: Seq<char>,
    info: Option<HangUp>,
)
    ensures
        crate::connection::awaited(closed, wait, Arrived::Expired) == Awaited::Done(
            Err(Failure::Transport("timed out waiting for a CDP response"@)),
        ),
        crate::connection::awaited(closed, wait, Arrived::Item(now, Item::Failed(reason)))
            == Awaited::Done(Err(Failure::Transport("CDP WebSocket error: "@ + reason))),
        crate::connection::awaited(closed, wait, Arrived::Item(now, Item::Close(info)))
            == Awaited::Done(
            Err(crate::connection::closed_failure(info, "no response received from CDP"@)),
        ),
        crate::connection::awaited(closed, wait, Arrived::Item(now, Item::Ended))
            == Awaited::Done(
            Err(crate::connection::closed_failure(closed, "no response received from CDP"@)),
        ),
        crate::json::parsed_json(text) == Err::<Json, Seq<char>>(reason)
            ==> crate::connection::awaited(closed, wait, Arrived::Item(now, Item::Text(text)))
            == Awaited::Done(
            Err(Failure::Protocol("failed to parse CDP response: "@ + reason)),
        ),
        crate::connection::awaited(closed, wait, Arrived::Item(now, Item::Other)) == (
        Awaited::Read {
            left: if now < wait.deadline {
                (wait.deadline - now) as u128
            } else {
                0
            },
            wait,
        }),
        crate::connection::timed_out() == Failure::Transport(
            "timed out waiting for a CDP response"@,
        ),
{
}

/// At any reading of the clock a wait has the time left that has not passed yet,
/// and is over where that is none.
pub proof fn a_wait_has_the_time_left_that_has_not_passed(wait: Wait, now: u64)
    ensures
        now < wait.deadline ==> crate::connection::waiting(wait, now) == (Awaited::Read {
            left: (wait.deadline - now) as u128,
            wait,
        }),
        now >= wait.deadline ==> crate::connection::waiting(wait, now) == Awaited::Done(
            Err(Failure::Transport("timed out waiting for a CDP response"@)),
        ),
{
}

// The wait for the page to load
// -----------------------------

/// A load event ends the wait for the page. Where it is not the command's own
/// reply, the very answer that the command gave before is the result, whatever
/// the event holds; and without one it is as if the peer had gone.
pub proof fn a_load_event_hands_back_the_answer_so_far(
    closed: Option<HangUp>,
    answer: Json,
    members: Map<Seq<char>, Json>,
)
    requires
        members.dom().contains("method"@),
        members["method"@] == Json::Text("Page.loadEventFired"@),
        !(members.dom().contains("id"@) && members["id"@] == Json::Unsigned(2)),
    ensures
        crate::command::watched_message(closed, Some(answer), Ok(Json::Object(members)))
            == Noted::Over(Ok(answer)),
        crate::command::watched_message(closed, None, Ok(Json::Object(members))) == Noted::Over(
            Err(crate::connection::closed_failure(closed, "no response received from CDP"@)),
        ),
{
}

/// The reply to the command is the answer from then on, in place of any before
/// it: its very result, or an empty object where it names none. It ends the wait
/// only if it is a load event as well.
pub proof fn a_reply_is_the_answer_from_then_on(
    closed: Option<HangUp>,
    answer: Option<Json>,
    members: Map<Seq<char>, Json>,
    result: Json,
)
    requires
        members.dom().contains("id"@),
        members["id"@] == Json::Unsigned(2),
        !members.dom().contains("error"@),
        result == if members.dom().contains("result"@) {
            members["result"@]
        } else {
            Json::Object(Map::empty())
        },
    ensures
        crate::command::watched_message(closed, answer, Ok(Json::Object(members))) == if
        members.dom().contains("method"@) && members["method"@] == Json::Text(
            "Page.loadEventFired"@,
        ) {
            Noted::Over(Ok(result))
        } else {
            Noted::On(Some(result))
        },
{
}

/// A reply that carries an error ends the wait with the text of that very error,
/// whatever came before and whatever else it holds.
pub proof fn an_error_reply_ends_the_wait_for_the_page(
    closed: Option<HangUp>,
    answer: Option<Json>,
    members: Map<Seq<char>, Json>,
)
    requires
        members.dom().contains("id"@),
        members["id"@] == Json::Unsigned(2),
        members.dom().contains("error"@),
    ensures
        crate::command::watched_message(closed, answer, Ok(Json::Object(members))) == Noted::Over(
            Err(Failure::Protocol(crate::json::json_text(members["error"@]))),
        ),
{
}

/// Everything else that is said leaves the wait and the answer as they are: an
/// object that is neither the reply nor a load event, what is no object, and
/// what is not JSON.
pub proof fn other_words_leave_the_answer_as_it_is(
    closed: Option<HangUp>,
    answer: Option<Json>,
    response: Json,
    reason: Seq<char>,
)
    ensures
        !(response matches Json::Object(members) && members.dom().contains("id"@) && members["id"@]
            == Json::Unsigned(2)) && !(response matches Json::Object(members)
            && members.dom().contains("method"@) && members["method"@] == Json::Text(
            "Page.loadEventFired"@,
        )) ==> crate::command::watched_message(closed, answer, Ok(response)) == Noted::On(answer),
        crate::command::watched_message(closed, answer, Err(reason)) == Noted::On(answer),
        crate::command::is_load_event(response) <==> (response matches Json::Object(members)
            && members.dom().contains("method"@) && members["method"@] == Json::Text(
            "Page.loadEventFired"@,
        )),
{
}

/// What the command answered is its result, as it is; and where it answered
/// nothing, it is as if the peer had gone.
pub proof fn the_answer_is_the_result(closed: Option<HangUp>, answer: Json)
    ensures
        crate::command::settled(closed, Some(answer)) == Ok::<Json, Failure>(answer),
        crate::command::settled(closed, None) == Err::<Json, Failure>(
            crate::connection::closed_failure(closed, "no response received from CDP"@),
        ),
{
}

/// Where the time is up or the peer has gone, the very answer that the command
/// gave is the result; and where it gave none, what is known of the hang-up is,
/// the latest that was told. A socket that breaks is a failure even so, in its
/// own words. Noise changes nothing.
pub proof fn a_wait_for_the_page_ends_with_the_answer(
    closed: Option<HangUp>,
    answer: Json,
    so_far: Option<Json>,
    deadline: u128,
    now: u64,
    info: Option<HangUp>,
    reason: Seq<char>,
)
    ensures
        crate::command::watched(closed, Some(answer), deadline, Arrived::Expired) == Watch::Over(
            Ok(answer),
        ),
        crate::command::watched(closed, None, deadline, Arrived::Expired) == Watch::Over(
            Err(crate::connection::closed_failure(closed, "no response received from CDP"@)),
        ),
        crate::command::watched(
            closed,
            Some(answer),
            deadline,
            Arrived::Item(now, Item::Close(info)),
        ) == Watch::Over(Ok(answer)),
        crate::command::watched(closed, None, deadline, Arrived::Item(now, Item::Close(info)))
            == Watch::Over(
            Err(crate::connection::closed_failure(info, "no response received from CDP"@)),
        ),
        crate::command::watched(closed, Some(answer), deadline, Arrived::Item(now, Item::Ended))
            == Watch::Over(Ok(answer)),
        crate::command::watched(closed, None, deadline, Arrived::Item(now, Item::Ended))
            == Watch::Over(
            Err(crate::connection::closed_failure(closed, "no response received from CDP"@)),
        ),
        crate::command::watched(
            closed,
            so_far,
            deadline,
            Arrived::Item(now, Item::Failed(reason)),
        ) == Watch::Over(Err(Failure::Transport("CDP WebSocket error: "@ + reason))),
        crate::command::watched(closed, so_far, deadline, Arrived::Item(now, Item::Other)) == (
        Watch::Read {
            left: if now < deadline {
                (deadline - now) as u128
            } else {
                0
            },
            answer: so_far,
        }),
{
}

/// What a message says, by [`crate::command::watched_message`], is all that it
/// does. The wait that goes on after it has the time left that has not passed
/// yet; where that is none, it is over with the very answer that there is.
pub proof fn a_message_does_what_it_says(
    closed: Option<HangUp>,
    answer: Option<Json>,
    deadline: u128,
    now: u64,
    text: Seq<char>,
)
    ensures
        match crate::command::watched_message(closed, answer, crate::json::parsed_json(text)) {
            Noted::Over(result) => crate::command::watched(
                closed,
                answer,
                deadline,
                Arrived::Item(now, Item::Text(text)),
            ) == Watch::Over(result),
            Noted::On(next) => {
                &&& now < deadline ==> crate::command::watched(
                    closed,
                    answer,
                    deadline,
                    Arrived::Item(now, Item::Text(text)),
                ) == (Watch::Read { left: (deadline - now) as u128, answer: next })
                &&& now >= deadline ==> crate::command::watched(
                    closed,
                    answer,
                    deadline,
                    Arrived::Item(now, Item::Text(text)),
                ) == Watch::Over(
                    match next {
                        Some(result) => Ok(result),
                        None => Err(
                            crate::connection::closed_failure(
                                closed,
                                "no response received from CDP"@,
                            ),
                        ),
                    },
                )
            },
        },
        now < deadline ==> crate::command::watching(closed, answer, deadline, now) == (
        Watch::Read { left: (deadline - now) as u128, answer }),
        now >= deadline ==> crate::command::watching(closed, answer, deadline, now)
            == Watch::Over(
            match answer {
                Some(result) => Ok(result),
                None => Err(
                    crate::connection::closed_failure(closed, "no response received from CDP"@),
                ),
            },
        ),
{
}

} // verus!
