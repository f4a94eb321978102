//! What holds across calls: of errors, of attempts to connect, of frames, and of
//! the wait for a reply and its deadline.

use crate::connection::{Arrived, Awaited, HangUp, Item, Wait};
use crate::error::Failure;
use crate::json::Json;
use crate::target::Connecting;
use vstd::prelude::*;

verus! {

// Errors
// ------

/// A hang-up is worth a retry unless its code says that the credential is no
/// good or that the session is not up.
pub proof fn a_close_is_final_only_where_the_relay_said_no(code: u16, detail: Seq<char>)
    ensures
        crate::error::close_failure(code, detail).is_retryable() <==> code != 1008 && code != 1013,
{
}

/// A refused upgrade is never reported as an unreachable browser where the
/// status is an answer, and is never retried then.
pub proof fn a_refused_upgrade_is_an_answer(status: u16)
    ensures
        crate::error::handshake_failure(status) is Unreachable <==> !(status == 401 || status
            == 403 || status == 404 || status == 409 || status == 429),
        crate::error::handshake_failure(status).is_retryable() <==> crate::error::handshake_failure(
            status,
        ) is Unreachable,
{
}

/// `part` stands somewhere in `whole`.
pub open spec fn stands_in(part: Seq<char>, whole: Seq<char>) -> bool {
    exists|before: Seq<char>, after: Seq<char>| whole == #[trigger] (before + part + after)
}

/// The reason that the peer gave for hanging up survives into the words of the
/// error that is built from it, and so does the context.
pub proof fn the_reason_of_a_close_survives(
    closed: Option<HangUp>,
    info: HangUp,
    context: Seq<char>,
)
    ensures
        stands_in(
            info.reason,
            crate::connection::closed_failure(
                crate::connection::closed_after(closed, Item::Close(Some(info))),
                context,
            ).message(),
        ),
        stands_in(
            context,
            crate::connection::closed_failure(
                crate::connection::closed_after(closed, Item::Close(Some(info))),
                context,
            ).message(),
        ),
{
    let failure = crate::connection::closed_failure(Some(info), context);
    let code = crate::text::decimal(info.code as nat);
    let words = failure.message();
    let head = match failure {
        Failure::Unreachable(_) => "browser unreachable: "@,
        Failure::Unauthorized(_) => "not authorised to drive this browser: "@,
        Failure::NotDrivable(_) => "browser is not drivable yet: "@,
        Failure::Transport(_) => "CDP transport failed: "@,
        Failure::Protocol(_) => "CDP error: "@,
    };
    let tail = if info.code == 1009 {
        " — message too large"@
    } else {
        Seq::empty()
    };
    if info.reason.len() == 0 {
        assert(words =~= (words + info.reason) + Seq::<char>::empty());
        assert(words =~= (head + context) + (" (close "@ + code + ")"@ + tail));
    } else {
        assert(words =~= ((head + context + " ("@ + code + ": "@) + info.reason) + (")"@ + tail));
        assert(words =~= (head + context) + (" ("@ + code + ": "@ + info.reason + ")"@ + tail));
    }
}

// Connecting
// ----------

/// An attempt to connect failed for a reason that a retry could fix.
pub open spec fn is_worth_a_retry(attempt: Result<(), Failure>) -> bool {
    attempt matches Err(failure) && failure.is_retryable()
}

/// The attempts may follow each other in a run that so many failed ones came
/// before: each but the last is followed by a retry, with the count that it
/// hands on.
pub open spec fn connect_admits(failures: u32, attempts: Seq<Result<(), Failure>>) -> bool
    decreases attempts.len(),
{
    attempts.len() > 1 ==> match crate::target::connecting(failures, attempts[0]) {
        Connecting::Retry { failures: next, .. } => connect_admits(next, attempts.drop_first()),
        _ => false,
    }
}

proof fn connect_run_counts(failures: u32, attempts: Seq<Result<(), Failure>>)
    requires
        failures < crate::target::CONNECT_ATTEMPTS,
        connect_admits(failures, attempts),
    ensures
        failures + attempts.len() <= crate::target::CONNECT_ATTEMPTS,
        forall|i: int|
            0 <= i < attempts.len() - 1 ==> is_worth_a_retry(#[trigger] attempts[i])
                && crate::target::connecting((failures + i) as u32, attempts[i]) == (
            Connecting::Retry {
                delay_millis: crate::target::retry_delay((failures + i) as nat) as u64,
                failures: (failures + i + 1) as u32,
            }),
    decreases attempts.len(),
{
    if attempts.len() > 1 {
        let rest = attempts.drop_first();
        connect_run_counts((failures + 1) as u32, rest);
        assert forall|i: int| 0 <= i < attempts.len() - 1 implies is_worth_a_retry(
            #[trigger] attempts[i],
        ) && crate::target::connecting((failures + i) as u32, attempts[i]) == (Connecting::Retry {
            delay_millis: crate::target::retry_delay((failures + i) as nat) as u64,
            failures: (failures + i + 1) as u32,
        }) by {
            if i > 0 {
                assert(rest[i - 1] == attempts[i]);
                assert(failures + 1 + (i - 1) == failures + i);
            }
        }
    }
}

/// However the attempts of a run go, from its beginning on, no more than three
/// are made, and all three while a retry could fix the failure; each but the
/// last failed for such a reason; and the wait before the next one starts at the
/// base and doubles.
pub proof fn connect_attempts_are_bounded(attempts: Seq<Result<(), Failure>>)
    requires
        connect_admits(0, attempts),
    ensures
        attempts.len() <= crate::target::CONNECT_ATTEMPTS,
        forall|i: int|
            0 <= i < attempts.len() - 1 ==> is_worth_a_retry(#[trigger] attempts[i]),
        attempts.len() > 1 ==> crate::target::connecting(0, attempts[0]) == (Connecting::Retry {
            delay_millis: crate::target::CONNECT_RETRY_BASE_MILLIS,
            failures: 1,
        }),
        attempts.len() > 2 ==> crate::target::connecting(1, attempts[1]) == (Connecting::Retry {
            delay_millis: (2 * crate::target::CONNECT_RETRY_BASE_MILLIS) as u64,
            failures: 2,
        }),
        attempts.len() > 0 && is_worth_a_retry(attempts.last()) ==> (crate::target::connecting(
            (attempts.len() - 1) as u32,
            attempts.last(),
        ) is GiveUp <==> attempts.len() == crate::target::CONNECT_ATTEMPTS),
{
    reveal_with_fuel(crate::target::retry_delay, 2);
    connect_run_counts(0, attempts);
    if attempts.len() > 1 {
        assert(is_worth_a_retry(attempts[0]));
    }
    if attempts.len() > 2 {
        assert(is_worth_a_retry(attempts[1]));
    }
}

/// A failure that a retry could not fix is the answer at once.
pub proof fn a_no_is_never_retried(failures: u32, failure: Failure)
    requires
        !failure.is_retryable(),
    ensures
        crate::target::connecting(failures, Err(failure)) == Connecting::GiveUp(failure),
{
}

// Frames
// ------

/// A frame carries a session id exactly where a session is in play, and always
/// the id, the method and the parameters that it was built from.
pub proof fn a_frame_carries_what_it_was_built_from(
    session: Option<Seq<char>>,
    id: u64,
    method: Seq<char>,
    params: Json,
)
    ensures
        ({
            let message = crate::connection::frame(session, id, method, params);
            &&& crate::json::member(message, "sessionId"@) == match session {
                Some(text) => Some(Json::Text(text)),
                None => None,
            }
            &&& crate::json::member(message, "id"@) == Some(Json::Unsigned(id))
            &&& crate::json::member(message, "method"@) == Some(Json::Text(method))
            &&& crate::json::member(message, "params"@) == Some(params)
        }),
{
    reveal_strlit("id");
    reveal_strlit("method");
    reveal_strlit("params");
    reveal_strlit("sessionId");
    assert("id"@.len() == 2 && "method"@.len() == 6 && "params"@.len() == 6 && "sessionId"@.len()
        == 9);
    assert("method"@[0] != "params"@[0]);
}

/// Different commands give different frames.
pub proof fn a_frame_is_built_in_one_way(
    session: Option<Seq<char>>,
    id: u64,
    method: Seq<char>,
    params: Json,
    other_session: Option<Seq<char>>,
    other_id: u64,
    other_method: Seq<char>,
    other_params: Json,
)
    requires
        crate::connection::frame(session, id, method, params) == crate::connection::frame(
            other_session,
            other_id,
            other_method,
            other_params,
        ),
    ensures
        session == other_session,
        id == other_id,
        method == other_method,
        params == other_params,
{
    a_frame_carries_what_it_was_built_from(session, id, method, params);
    a_frame_carries_what_it_was_built_from(other_session, other_id, other_method, other_params);
}

// Replies
// -------

/// A message without an id, as every event is, and a reply to another command
/// are never taken for the reply.
pub proof fn only_the_reply_with_our_id_is_read(id: u64, response: Json)
    requires
        crate::json::member(response, "id"@) != Some(Json::Unsigned(id)),
    ensures
        crate::connection::message_read(id, Ok(response)) is None,
{
}

/// What arrived does not end the wait for a reply.
pub open spec fn is_passed_over(closed: Option<HangUp>, wait: Wait, arrival: Arrived) -> bool {
    crate::connection::awaited(closed, wait, arrival) is Read
}

/// What the wait for a reply comes to over a series of arrivals: nothing, while
/// none of them ends it.
pub open spec fn reply_among(closed: Option<HangUp>, wait: Wait, arrivals: Seq<Arrived>) -> Option<
    Result<Json, Failure>,
>
    decreases arrivals.len(),
{
    if arrivals.len() == 0 {
        None
    } else {
        match crate::connection::awaited(closed, wait, arrivals[0]) {
            Awaited::Done(result) => Some(result),
            Awaited::Read { wait: on, .. } => reply_among(
                crate::connection::closed_on(closed, arrivals[0]),
                on,
                arrivals.drop_first(),
            ),
        }
    }
}

/// Whatever is passed over on the way, the first arrival that ends the wait
/// decides what it comes to, as if nothing had come before it.
pub proof fn what_comes_before_the_reply_is_discarded(
    closed: Option<HangUp>,
    wait: Wait,
    before: Seq<Arrived>,
    last: Arrived,
    result: Result<Json, Failure>,
)
    requires
        forall|i: int| 0 <= i < before.len() ==> is_passed_over(closed, wait, #[trigger] before[i]),
        crate::connection::awaited(closed, wait, last) == Awaited::Done(result),
    ensures
        reply_among(closed, wait, before.push(last)) == Some(result),
    decreases before.len(),
{
    let all = before.push(last);
    if before.len() > 0 {
        assert(all[0] == before[0]);
        assert(is_passed_over(closed, wait, before[0]));
        assert(all.drop_first() =~= before.drop_first().push(last));
        assert forall|i: int| 0 <= i < before.drop_first().len() implies is_passed_over(
            closed,
            wait,
            #[trigger] before.drop_first()[i],
        ) by {
            assert(before.drop_first()[i] == before[i + 1]);
        }
        what_comes_before_the_reply_is_discarded(closed, wait, before.drop_first(), last, result);
    }
}

// Deadlines
// ---------

/// A wait of no time is over before the socket is read at all, even if the reply
/// is there already; and any longer wait begins with a read that may take all of
/// its time.
pub proof fn a_wait_of_nothing_reads_nothing(id: u64, secs: u64, subsec_nanos: u32, now: u64)
    ensures
        crate::connection::begun_wait(id, 0, 0, now) == Awaited::Done(
            Err(crate::connection::timed_out()),
        ),
        secs > 0 || subsec_nanos > 0 ==> crate::connection::begun_wait(id, secs, subsec_nanos, now)
            == (Awaited::Read {
            left: (secs * crate::clock::NANOS_PER_SEC + subsec_nanos) as u128,
            wait: Wait { id, deadline: crate::clock::deadline_of(now, secs, subsec_nanos) },
        }),
{
}

/// No arrival pushes the deadline of a wait back, and no read is given time
/// beyond it. Once it is reached, the wait goes on over no message.
pub proof fn an_arrival_does_not_push_the_deadline_back(
    closed: Option<HangUp>,
    wait: Wait,
    now: u64,
    item: Item,
)
    ensures
        match crate::connection::awaited(closed, wait, Arrived::Item(now, item)) {
            Awaited::Read { left, wait: on } => {
                &&& on == wait
                &&& left > 0 ==> now + left == wait.deadline
                &&& left == 0 ==> now >= wait.deadline && item is Other
            },
            Awaited::Done(_) => true,
        },
{
}

/// The item is a JSON message, and not the reply to command `id`.
pub open spec fn is_other_message(id: u64, item: Item) -> bool {
    item matches Item::Text(text) && crate::connection::message_read(
        id,
        crate::json::parsed_json(text),
    ) is None
}

/// A wait that is begun at one reading of the clock, and passes over whatever
/// arrives, times out as soon as its timeout has passed since: when a read then
/// gives nothing, or gives one more message that is not the reply.
pub proof fn a_wait_times_out_when_its_time_has_passed(
    closed: Option<HangUp>,
    id: u64,
    secs: u64,
    subsec_nanos: u32,
    begun: u64,
    before: Seq<Arrived>,
    last: Arrived,
)
    requires
        forall|i: int|
            0 <= i < before.len() ==> is_passed_over(
                closed,
                Wait { id, deadline: crate::clock::deadline_of(begun, secs, subsec_nanos) },
                #[trigger] before[i],
            ),
        match last {
            Arrived::Expired => true,
            Arrived::Item(now, item) => {
                &&& is_other_message(id, item)
                &&& now >= begun + secs * crate::clock::NANOS_PER_SEC + subsec_nanos
            },
        },
    ensures
        reply_among(
            closed,
            Wait { id, deadline: crate::clock::deadline_of(begun, secs, subsec_nanos) },
            before.push(last),
        ) == Some(Err::<Json, Failure>(crate::connection::timed_out())),
{
    let wait = Wait { id, deadline: crate::clock::deadline_of(begun, secs, subsec_nanos) };
    what_comes_before_the_reply_is_discarded(
        closed,
        wait,
        before,
        last,
        Err(crate::connection::timed_out()),
    );
}

/// Until its timeout has passed, a wait goes on over every message that is not
/// the reply.
pub proof fn a_wait_lasts_until_its_time_has_passed(
    closed: Option<HangUp>,
    id: u64,
    secs: u64,
    subsec_nanos: u32,
    begun: u64,
    now: u64,
    item: Item,
)
    requires
        is_other_message(id, item) || item is Other,
        now < begun + secs * crate::clock::NANOS_PER_SEC + subsec_nanos,
    ensures
        is_passed_over(
            closed,
            Wait { id, deadline: crate::clock::deadline_of(begun, secs, subsec_nanos) },
            Arrived::Item(now, item),
        ),
{
}

} // verus!
