//! What each failure means and says, what follows an attempt to connect, and
//! how numbers are written.

use crate::error::{Failure, Unresolved};
use crate::target::{Connecting, HandshakeEnd};
use vstd::prelude::*;

verus! {

// Numbers
// -------

/// The number that decimal digits stand for, the most significant first.
pub open spec fn number_of(digits: Seq<char>) -> int
    decreases digits.len(),
{
    if digits.len() == 0 {
        0
    } else {
        10 * number_of(digits.drop_last()) + (digits.last() as int - '0' as int)
    }
}

/// A number is written in decimal digits alone, which stand for that number, and
/// without a zero before them.
pub proof fn a_number_is_written_in_its_digits(n: nat)
    ensures
        number_of(crate::text::decimal(n)) == n,
        crate::text::decimal(n).len() > 0,
        forall|i: int|
            0 <= i < crate::text::decimal(n).len() ==> '0' <= #[trigger] crate::text::decimal(
                n,
            )[i] <= '9',
        n > 0 ==> crate::text::decimal(n)[0] != '0',
        n == 0 ==> crate::text::decimal(n).len() == 1,
    decreases n,
{
    let written = crate::text::decimal(n);
    if n < 10 {
        assert(written.drop_last() =~= Seq::empty());
        assert(number_of(written.drop_last()) == 0);
    } else {
        a_number_is_written_in_its_digits(n / 10);
        assert(written.drop_last() =~= crate::text::decimal(n / 10));
        assert(written[0] == crate::text::decimal(n / 10)[0]);
        assert forall|i: int| 0 <= i < written.len() implies '0' <= #[trigger] written[i]
            <= '9' by {
            if i < written.len() - 1 {
                assert(written[i] == crate::text::decimal(n / 10)[i]);
            }
        }
    }
}

/// Different numbers are written differently.
pub proof fn a_number_is_written_in_one_way(n: nat, other: nat)
    requires
        crate::text::decimal(n) == crate::text::decimal(other),
    ensures
        n == other,
{
    a_number_is_written_in_its_digits(n);
    a_number_is_written_in_its_digits(other);
}

// Failures
// --------

/// Each failure is told in words that say what kind it is, followed by its own
/// words, as they are.
pub proof fn a_failure_is_told_in_its_own_words(words: Seq<char>)
    ensures
        Failure::Unreachable(words).message() == "browser unreachable: "@ + words,
        Failure::Unauthorized(words).message() == "not authorised to drive this browser: "@
            + words,
        Failure::NotDrivable(words).message() == "browser is not drivable yet: "@ + words,
        Failure::Transport(words).message() == "CDP transport failed: "@ + words,
        Failure::Protocol(words).message() == "CDP error: "@ + words,
        Unresolved::Unsupported(words).message() == words,
        Unresolved::NotRunning(words).message() == words,
        Unresolved::Endpoint(words).message() == words,
{
}

/// A retry could fix that nothing is listening, or that the socket broke. It
/// could not fix an answer, whatever its words.
pub proof fn only_a_broken_line_is_worth_a_retry(words: Seq<char>)
    ensures
        Failure::Unreachable(words).is_retryable(),
        Failure::Transport(words).is_retryable(),
        !Failure::Unauthorized(words).is_retryable(),
        !Failure::NotDrivable(words).is_retryable(),
        !Failure::Protocol(words).is_retryable(),
{
}

/// What a close code means: a refused credential, a session that is not up, a
/// browser that could not be reached, or else a broken socket. The detail is
/// kept as it is, but that a message which was too large is named as such.
pub proof fn a_close_code_means_one_thing(code: u16, detail: Seq<char>)
    ensures
        crate::error::close_failure(1008, detail) == Failure::Unauthorized(detail),
        crate::error::close_failure(1013, detail) == Failure::NotDrivable(detail),
        crate::error::close_failure(1009, detail) == Failure::Transport(
            detail + " — message too large"@,
        ),
        crate::error::close_failure(1011, detail) == Failure::Unreachable(detail),
        code != 1008 && code != 1013 && code != 1009 && code != 1011
            ==> crate::error::close_failure(code, detail) == Failure::Transport(detail),
{
}

/// What a refused upgrade means, and in which words, for every HTTP status.
pub proof fn a_status_means_one_thing(status: u16)
    ensures
        status == 401 || status == 403 ==> crate::error::handshake_failure(status)
            == Failure::Unauthorized(
            "the relay refused the credential (HTTP "@ + crate::text::decimal(status as nat)
                + ")"@,
        ),
        crate::error::handshake_failure(404) == Failure::NotDrivable(
            "no such remote session, or it does not belong to this account"@,
        ),
        crate::error::handshake_failure(409) == Failure::NotDrivable(
            "the remote session is not drivable yet"@,
        ),
        crate::error::handshake_failure(429) == Failure::NotDrivable(
            "too many attachments to this remote session"@,
        ),
        status != 401 && status != 403 && status != 404 && status != 409 && status != 429
            ==> crate::error::handshake_failure(status) == Failure::Unreachable(
            "the relay answered HTTP "@ + crate::text::decimal(status as nat),
        ),
{
}

// Connecting
// ----------

/// A handshake that was done is a connection, and nothing else is. One that took
/// too long, or failed, is an unreachable browser; one that was refused means
/// what its status does.
pub proof fn a_handshake_comes_to_what_ended_it(status: u16, reason: Seq<char>)
    ensures
        crate::target::dialled(HandshakeEnd::Done) is Ok,
        crate::target::dialled(HandshakeEnd::TimedOut) == Err::<(), Failure>(
            Failure::Unreachable("the CDP endpoint did not answer within 20s"@),
        ),
        crate::target::dialled(HandshakeEnd::Refused(status)) == Err::<(), Failure>(
            crate::error::handshake_failure(status),
        ),
        crate::target::dialled(HandshakeEnd::Failed(reason)) == Err::<(), Failure>(
            Failure::Unreachable(reason),
        ),
        crate::target::endpoint_failure(reason) == Failure::Unreachable(
            "invalid CDP endpoint: "@ + reason,
        ),
{
    reveal_strlit("the CDP endpoint did not answer within 20s");
    reveal_strlit("the CDP endpoint did not answer within ");
    reveal_strlit("s");
    reveal_with_fuel(crate::text::decimal, 2);
    assert(crate::text::decimal(20) =~= seq!['2', '0']);
    assert("the CDP endpoint did not answer within "@ + crate::text::decimal(20) + "s"@
        =~= "the CDP endpoint did not answer within 20s"@);
}

/// An attempt that succeeds is a connection, however many failed before it; and
/// only an attempt that succeeds is one.
pub proof fn a_connection_is_never_thrown_away(failures: u32, failure: Failure)
    ensures
        crate::target::connecting(failures, Ok(())) == Connecting::Connected,
        !(crate::target::connecting(failures, Err(failure)) is Connected),
{
}

/// An attempt that fails is made again after 400 milliseconds, and once more
/// after 800, where a retry could fix the failure. The third failure, and any
/// that a retry could not fix, is the answer, as it is.
pub proof fn a_failed_attempt_is_made_again_twice(failures: u32, words: Seq<char>)
    ensures
        crate::target::connecting(0, Err(Failure::Unreachable(words))) == (Connecting::Retry {
            delay_millis: 400,
            failures: 1,
        }),
        crate::target::connecting(0, Err(Failure::Transport(words))) == (Connecting::Retry {
            delay_millis: 400,
            failures: 1,
        }),
        crate::target::connecting(1, Err(Failure::Unreachable(words))) == (Connecting::Retry {
            delay_millis: 800,
            failures: 2,
        }),
        crate::target::connecting(1, Err(Failure::Transport(words))) == (Connecting::Retry {
            delay_millis: 800,
            failures: 2,
        }),
        failures >= 2 ==> crate::target::connecting(failures, Err(Failure::Unreachable(words)))
            == Connecting::GiveUp(Failure::Unreachable(words)),
        failures >= 2 ==> crate::target::connecting(failures, Err(Failure::Transport(words)))
            == Connecting::GiveUp(Failure::Transport(words)),
        crate::target::connecting(failures, Err(Failure::Unauthorized(words)))
            == Connecting::GiveUp(Failure::Unauthorized(words)),
        crate::target::connecting(failures, Err(Failure::NotDrivable(words)))
            == Connecting::GiveUp(Failure::NotDrivable(words)),
        crate::target::connecting(failures, Err(Failure::Protocol(words)))
            == Connecting::GiveUp(Failure::Protocol(words)),
{
    reveal_with_fuel(crate::target::retry_delay, 2);
}

/// The wait before another attempt starts at 400 milliseconds and doubles.
pub proof fn the_wait_before_a_retry_doubles(failures: nat)
    ensures
        crate::target::retry_delay(0) == 400,
        crate::target::retry_delay(failures + 1) == 2 * crate::target::retry_delay(failures),
{
}

/// What came of the attempts of a run, if they are enough to tell: the first
/// that is not made again decides.
pub open spec fn connect_result(failures: u32, attempts: Seq<Result<(), Failure>>) -> Option<
    Result<(), Failure>,
>
    decreases attempts.len(),
{
    if attempts.len() == 0 {
        None
    } else {
        match crate::target::connecting(failures, attempts[0]) {
            Connecting::Connected => Some(Ok(())),
            Connecting::GiveUp(failure) => Some(Err(failure)),
            Connecting::Retry { failures: next, .. } => connect_result(
                next,
                attempts.drop_first(),
            ),
        }
    }
}

/// The first, the second or the third attempt may be the one that succeeds: the
/// connection is open exactly if it does, after failures that a retry could
/// fix. After three of those the last one is the answer.
pub proof fn one_good_attempt_of_three_is_enough(
    first: Failure,
    second: Failure,
    third: Result<(), Failure>,
)
    requires
        first is Unreachable || first is Transport,
        second is Unreachable || second is Transport,
    ensures
        connect_result(0, seq![Ok(())]) matches Some(result) && result is Ok,
        connect_result(0, seq![Err(first), Ok(())]) matches Some(result) && result is Ok,
        connect_result(0, seq![Err(first), Err(second), third]) matches Some(result) && (result
            is Ok <==> third is Ok) && (third matches Err(failure) ==> result == Err::<
            (),
            Failure,
        >(failure)),
{
    reveal_with_fuel(crate::target::retry_delay, 2);
    let two = seq![Err::<(), Failure>(first), Ok(())];
    let three = seq![Err::<(), Failure>(first), Err(second), third];
    assert(two.drop_first() =~= seq![Ok(())]);
    assert(three.drop_first() =~= seq![Err::<(), Failure>(second), third]);
    assert(three.drop_first().drop_first() =~= seq![third]);
    reveal_with_fuel(connect_result, 4);
}

/// How long each kind of wait may last, and how often each thing may be tried.
pub proof fn the_limits_are_these()
    ensures
        crate::target::CONNECT_TIMEOUT_SECS == 20,
        crate::target::CONNECT_ATTEMPTS == 3,
        crate::target::CONNECT_RETRY_BASE_MILLIS == 400,
        crate::connection::COMMAND_TIMEOUT_SECS == 60,
        crate::clock::NANOS_PER_SEC == 1_000_000_000,
        crate::discovery::PORT_ATTEMPTS == 10,
        crate::discovery::LISTING_ATTEMPTS == 15,
        crate::discovery::PROBE_PAUSE_SECS == 1,
        crate::discovery::LISTING_TIMEOUT_SECS == 3,
        crate::command::RUN_PAGE_ENABLE_ID == 1,
        crate::command::RUN_COMMAND_ID == 2,
        crate::command::RUN_PAGE_DISABLE_ID == 3,
{
}

} // verus!
