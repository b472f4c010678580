//! How a stream is relayed, and how it is known to have ended.

use bytes::Bytes;
use std::time::Duration;
use vstd::prelude::*;

use crate::completion::StreamCompletion;
use crate::message::bytes_content;
use crate::stream::{
    arrival, chunks_until, display_seconds, duration_nanos, next_chunk_with_timeout, relay_all,
    stream_is_relayed_to_its_end, with_stream_timeouts, Arrival, ChunkWait, StreamAction,
    StreamError, StreamTimeoutPhase, StreamTimeouts,
};
use crate::text::{decimal, digit};

verus! {

/// The number that a row of decimal digits stands for.
pub open spec fn number_of(digits: Seq<char>) -> int
    decreases digits.len(),
{
    if digits.len() == 0 {
        0
    } else {
        number_of(digits.drop_last()) * 10 + (digits.last() as int - 48)
    }
}

/// The number is written in decimal, without leading zeros.
pub open spec fn is_numeral(digits: Seq<char>, number: int) -> bool {
    &&& digits.len() > 0
    &&& forall|i: int| 0 <= i < digits.len() ==> '0' <= #[trigger] digits[i] && digits[i] <= '9'
    &&& digits.len() > 1 ==> digits[0] != '0'
    &&& number_of(digits) == number
}

proof fn lemma_decimal(n: nat)
    ensures
        is_numeral(decimal(n), n as int),
        n > 0 ==> decimal(n)[0] != '0',
    decreases n,
{
    if n >= 10 {
        lemma_decimal(n / 10);
        let shorter = decimal(n / 10);
        let all = decimal(n);
        assert(all.drop_last() =~= shorter);
        assert(all.last() == digit(n % 10));
        assert(all[0] == shorter[0]);
    } else {
        assert(decimal(n).drop_last() =~= Seq::<char>::empty());
        assert(number_of(Seq::<char>::empty()) == 0);
        assert(decimal(n).last() == digit(n));
    }
}

/// The message about a time limit names its phase, and the whole seconds of the limit in decimal;
/// a limit of less than a second that is not zero counts as one second.
pub proof fn message_names_phase_and_seconds(
    phase: StreamTimeoutPhase,
    limit: Duration,
    message: String,
)
    requires
        StreamTimeoutPhase::error_message.ensures((phase, limit), message),
    ensures
        exists|digits: Seq<char>, seconds: int| #[trigger]
            is_numeral(digits, seconds) && message@ == (match phase {
                StreamTimeoutPhase::FirstByte => "stream timeout after "@,
                StreamTimeoutPhase::Idle => "stream idle timeout after "@,
            }) + digits + "s"@ && ((0 < duration_nanos(limit) < 1_000_000_000 && seconds == 1) || (
            !(0 < duration_nanos(limit) < 1_000_000_000) && seconds * 1_000_000_000
                <= duration_nanos(limit) < (seconds + 1) * 1_000_000_000)),
{
    let seconds = display_seconds(duration_nanos(limit));
    lemma_decimal(seconds);
    assert(is_numeral(decimal(seconds), seconds as int));
}

/// What arrived before the time limit is taken unchanged, whatever the wait was for: a chunk is
/// that chunk, a failure of upstream is a failure with its text, and the end is the end. A time
/// limit that passed is a failure that says so.
pub proof fn what_arrived_is_taken_unchanged(
    phase: StreamTimeoutPhase,
    wait: ChunkWait,
    next: Option<Result<Bytes, StreamError>>,
    limit: Duration,
    message: String,
)
    requires
        next_chunk_with_timeout.ensures((phase, wait), next),
        wait is TimedOut ==> duration_nanos(limit) == duration_nanos(wait->TimedOut_0),
        StreamTimeoutPhase::error_message.ensures((phase, limit), message),
    ensures
        match wait {
            ChunkWait::Arrived(Some(Ok(chunk))) => next == Some(Ok::<Bytes, StreamError>(chunk)),
            ChunkWait::Arrived(Some(Err(text))) => {
                &&& next matches Some(Err(error))
                &&& !error.timed_out
                &&& error.message@ == text@
            },
            ChunkWait::Arrived(None) => next is None,
            ChunkWait::TimedOut(_) => {
                &&& next matches Some(Err(error))
                &&& error.timed_out
                &&& error.message@ == message@
            },
        },
{
}

/// A relay that was just started waits for the first byte, within the limit for it.
pub proof fn fresh_relay_waits_for_the_first_byte(
    first_byte_timeout: Option<Duration>,
    idle_timeout: Option<Duration>,
    relay: StreamTimeouts,
    wait: (Option<Duration>, StreamTimeoutPhase),
)
    requires
        with_stream_timeouts.ensures((first_byte_timeout, idle_timeout), relay),
        StreamTimeouts::next_wait.ensures((&relay,), wait),
    ensures
        wait.0 == first_byte_timeout,
        wait.1 is FirstByte,
        !relay.relay().over,
        relay.limits() == (first_byte_timeout, idle_timeout),
{
}

/// While a stream is relayed, every chunk is delivered as it is, every failure is handed over as it
/// is and ends the stream, and the end ends it. After a chunk the relay goes on and waits within
/// the idle limit.
pub proof fn live_relay_hands_everything_over(
    relay: &mut StreamTimeouts,
    next: Option<Result<Bytes, StreamError>>,
    completion: Option<&mut StreamCompletion>,
    action: StreamAction,
    wait: (Option<Duration>, StreamTimeoutPhase),
)
    requires
        StreamTimeouts::step.ensures((relay, next, completion), action),
        StreamTimeouts::next_wait.ensures((&*final(relay),), wait),
        !old(relay).relay().over,
    ensures
        final(relay).limits() == old(relay).limits(),
        match next {
            Some(Ok(chunk)) => {
                &&& action == StreamAction::Deliver(chunk)
                &&& !final(relay).relay().over
                &&& wait.0 == old(relay).limits().1
                &&& wait.1 is Idle
            },
            Some(Err(error)) => action == StreamAction::Fail(error) && final(relay).relay().over,
            None => action is Finish && final(relay).relay().over,
        },
{
}

/// A relay that is over takes nothing more, stays over, and records nothing.
pub proof fn relay_that_is_over_stays_over(
    relay: &mut StreamTimeouts,
    next: Option<Result<Bytes, StreamError>>,
    completion: &mut StreamCompletion,
    action: StreamAction,
)
    requires
        StreamTimeouts::step.ensures((relay, next, Some(completion)), action),
        old(relay).relay().over,
    ensures
        action is Finish,
        final(relay).relay().over,
        final(completion)@ == old(completion)@,
{
}

/// How a stream ended is recorded when it ends and not before: a failure with its message, the end
/// as a success, and nothing where an outcome is recorded already.
pub proof fn end_of_a_stream_is_recorded(
    relay: &mut StreamTimeouts,
    next: Option<Result<Bytes, StreamError>>,
    completion: &mut StreamCompletion,
    action: StreamAction,
    before: Option<Result<(), String>>,
    after: Option<Result<(), String>>,
)
    requires
        StreamTimeouts::step.ensures((relay, next, Some(completion)), action),
        !old(relay).relay().over,
        StreamCompletion::outcome.ensures((&*old(completion),), before),
        StreamCompletion::outcome.ensures((&*final(completion),), after),
    ensures
        before is Some ==> same_outcome(before, after),
        next is Some && next->Some_0 is Ok ==> same_outcome(before, after),
        before is None && next is None ==> after is Some && after->Some_0 is Ok,
        before is None ==> (next matches Some(Err(error)) ==> after is Some
            && after->Some_0 is Err && after->Some_0->Err_0@ == error.message@),
{
}

/// The same outcome, or none, is told twice.
pub open spec fn same_outcome(
    a: Option<Result<(), String>>,
    b: Option<Result<(), String>>,
) -> bool {
    match (a, b) {
        (None, None) => true,
        (Some(Ok(_)), Some(Ok(_))) => true,
        (Some(Err(x)), Some(Err(y))) => x@ == y@,
        _ => false,
    }
}

/// A success that is recorded is the outcome, unless there was one before, which stays.
pub proof fn recorded_success_is_the_outcome(
    completion: &mut StreamCompletion,
    before: Option<Result<(), String>>,
    after: Option<Result<(), String>>,
)
    requires
        StreamCompletion::record_success.ensures((completion,), ()),
        StreamCompletion::outcome.ensures((&*old(completion),), before),
        StreamCompletion::outcome.ensures((&*final(completion),), after),
    ensures
        before is None ==> after is Some && after->Some_0 is Ok,
        before is Some ==> same_outcome(before, after),
{
}

/// A failure that is recorded is the outcome, with its message, unless there was one before, which
/// stays.
pub proof fn recorded_failure_is_the_outcome(
    completion: &mut StreamCompletion,
    message: String,
    before: Option<Result<(), String>>,
    after: Option<Result<(), String>>,
)
    requires
        StreamCompletion::record_error.ensures((completion, message), ()),
        StreamCompletion::outcome.ensures((&*old(completion),), before),
        StreamCompletion::outcome.ensures((&*final(completion),), after),
    ensures
        before is None ==> after is Some && after->Some_0 is Err && after->Some_0->Err_0@
            == message@,
        before is Some ==> same_outcome(before, after),
{
}

/// At first no outcome is recorded.
pub proof fn nothing_is_recorded_at_first(
    completion: StreamCompletion,
    outcome: Option<Result<(), String>>,
)
    requires
        StreamCompletion::default.ensures((), completion),
        StreamCompletion::outcome.ensures((&completion,), outcome),
    ensures
        outcome is None,
{
}

/// From the waits to the client: as long as each wait brings a chunk, in whatever phases, the
/// client is handed exactly these chunks, in order. The wait that brings anything else ends the
/// stream: a time limit or a failure is handed over last and is the outcome, and the end is a
/// success.
pub proof fn waits_that_bring_chunks_reach_the_client(
    phases: Seq<StreamTimeoutPhase>,
    waits: Seq<ChunkWait>,
    nexts: Seq<Option<Result<Bytes, StreamError>>>,
    items: Seq<Arrival>,
    end: int,
)
    requires
        phases.len() == waits.len(),
        nexts.len() == waits.len(),
        items.len() == waits.len(),
        forall|i: int|
            0 <= i < waits.len() ==> next_chunk_with_timeout.ensures(
                (phases[i], #[trigger] waits[i]),
                nexts[i],
            ),
        forall|i: int| 0 <= i < waits.len() ==> #[trigger] items[i] == arrival(nexts[i]),
        0 <= end <= waits.len(),
        forall|i: int|
            0 <= i < end ==> (#[trigger] waits[i] matches ChunkWait::Arrived(Some(Ok(_)))),
        end < waits.len() ==> !(waits[end] matches ChunkWait::Arrived(Some(Ok(_)))),
    ensures
        forall|i: int|
            0 <= i < end ==> #[trigger] relay_all(items).handed[i] == Arrival::Chunk(
                bytes_content((waits[i]->Arrived_0->Some_0)->Ok_0),
            ),
        relay_all(items).handed.len() == (if end < waits.len() && waits[end]
            != ChunkWait::Arrived(None) {
            end + 1
        } else {
            end
        }),
        end == waits.len() ==> relay_all(items).outcome is None,
        end < waits.len() && waits[end] == ChunkWait::Arrived(None) ==> relay_all(items).outcome
            == Some(Ok::<(), Seq<char>>(())),
        end < waits.len() ==> (waits[end] matches ChunkWait::Arrived(Some(Err(text)))
            ==> relay_all(items).outcome == Some(Err::<(), Seq<char>>(text@))),
        end < waits.len() && waits[end] is TimedOut ==> relay_all(items).outcome is Some
            && relay_all(items).outcome->Some_0 is Err,
{
    assert forall|i: int| 0 <= i < end implies #[trigger] items[i] == Arrival::Chunk(
        bytes_content((waits[i]->Arrived_0->Some_0)->Ok_0),
    ) by {
        let wait = waits[i];
        assert(next_chunk_with_timeout.ensures((phases[i], wait), nexts[i]));
    }
    if end < waits.len() {
        let wait = waits[end];
        assert(next_chunk_with_timeout.ensures((phases[end], wait), nexts[end]));
        assert(items[end] == arrival(nexts[end]));
    }
    assert(chunks_until(items, end));
    stream_is_relayed_to_its_end(items, end);
}

} // verus!
