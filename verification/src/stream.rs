//! Waiting for upstream: time limits, and how a stream is relayed chunk by chunk.

use bytes::Bytes;
use std::time::Duration;
use vstd::prelude::*;
use vstd::string::StringExecFns;

use crate::completion::{settled, StreamCompletion};
use crate::message::bytes_content;
use crate::text::{decimal, decimal_text};

verus! {

/// The length of a `Duration` in nanoseconds.
pub uninterp spec fn duration_nanos(duration: Duration) -> nat;

/// `Duration::as_secs`: the whole seconds.
pub assume_specification[ Duration::as_secs ](duration: &Duration) -> (seconds: u64)
    ensures
        seconds == duration_nanos(*duration) / 1_000_000_000,
;

/// `Duration::is_zero`: not even a nanosecond.
pub assume_specification[ Duration::is_zero ](duration: &Duration) -> (zero: bool)
    ensures
        zero == (duration_nanos(*duration) == 0),
;

/// What a time limit was set for.
#[derive(Clone, Copy, Debug)]
pub enum StreamTimeoutPhase {
    /// The first byte of the body.
    FirstByte,
    /// The next chunk of a body that has begun.
    Idle,
}

/// The seconds that a message about a time limit names: the whole seconds, but one second for any
/// shorter limit that is not zero.
pub open spec fn display_seconds(nanos: nat) -> nat {
    if 0 < nanos < 1_000_000_000 {
        1
    } else {
        nanos / 1_000_000_000
    }
}

/// The message about a time limit that has passed.
pub open spec fn timeout_text(phase: StreamTimeoutPhase, nanos: nat) -> Seq<char> {
    (match phase {
        StreamTimeoutPhase::FirstByte => "stream timeout after "@,
        StreamTimeoutPhase::Idle => "stream idle timeout after "@,
    }) + decimal(display_seconds(nanos)) + "s"@
}

impl StreamTimeoutPhase {
    /// The message that the time limit `timeout` has passed.
    pub fn error_message(self, timeout: Duration) -> (message: String)
        ensures
            message@ == timeout_text(self, duration_nanos(timeout)),
    {
        let seconds: u64 = timeout.as_secs();
        let shown: u64 = if seconds == 0 && !timeout.is_zero() {
            1
        } else {
            seconds
        };
        let mut message = match self {
            StreamTimeoutPhase::FirstByte => "stream timeout after ".to_owned(),
            StreamTimeoutPhase::Idle => "stream idle timeout after ".to_owned(),
        };
        message.append(decimal_text(shown).as_str());
        message.append("s");
        message
    }
}

/// Why a stream broke off.
#[derive(Debug)]
pub struct StreamError {
    /// A time limit passed; otherwise upstream failed.
    pub timed_out: bool,
    pub message: String,
}

/// What waiting for the next chunk came to.
pub enum ChunkWait {
    /// The time limit passed first.
    TimedOut(Duration),
    /// A chunk came, or the text of an upstream failure, or the end of the stream.
    Arrived(Option<Result<Bytes, String>>),
}

/// The next item of a stream, in the abstract.
pub enum Arrival {
    Chunk(Seq<u8>),
    Failure { timed_out: bool, message: Seq<char> },
    End,
}

/// The next item of a stream.
pub open spec fn arrival(next: Option<Result<Bytes, StreamError>>) -> Arrival {
    match next {
        Some(Ok(chunk)) => Arrival::Chunk(bytes_content(chunk)),
        Some(Err(error)) => Arrival::Failure {
            timed_out: error.timed_out,
            message: error.message@,
        },
        None => Arrival::End,
    }
}

/// The item that a wait in that phase comes to: a time limit that passed is a failure.
pub open spec fn waited(phase: StreamTimeoutPhase, wait: ChunkWait) -> Arrival {
    match wait {
        ChunkWait::TimedOut(timeout) => Arrival::Failure {
            timed_out: true,
            message: timeout_text(phase, duration_nanos(timeout)),
        },
        ChunkWait::Arrived(Some(Ok(chunk))) => Arrival::Chunk(bytes_content(chunk)),
        ChunkWait::Arrived(Some(Err(message))) => Arrival::Failure {
            timed_out: false,
            message: message@,
        },
        ChunkWait::Arrived(None) => Arrival::End,
    }
}

/// Takes what waiting for a chunk came to.
pub fn next_chunk_with_timeout(phase: StreamTimeoutPhase, wait: ChunkWait) -> (next: Option<
    Result<Bytes, StreamError>,
>)
    ensures
        arrival(next) == waited(phase, wait),
        wait matches ChunkWait::Arrived(Some(Ok(chunk))) ==> next == Some(
            Ok::<Bytes, StreamError>(chunk),
        ),
        wait matches ChunkWait::Arrived(Some(Err(message))) ==> next == Some(
            Err::<Bytes, StreamError>(StreamError { timed_out: false, message }),
        ),
        wait == ChunkWait::Arrived(None) <==> next is None,
{
    match wait {
        ChunkWait::TimedOut(timeout) => Some(
            Err(StreamError { timed_out: true, message: phase.error_message(timeout) }),
        ),
        ChunkWait::Arrived(Some(Ok(chunk))) => Some(Ok(chunk)),
        ChunkWait::Arrived(Some(Err(message))) => Some(
            Err(StreamError { timed_out: false, message }),
        ),
        ChunkWait::Arrived(None) => None,
    }
}

/// What the relay of a stream does next.
pub enum StreamAction {
    /// Hand the chunk to the client and wait for the next.
    Deliver(Bytes),
    /// Hand the failure to the client; the stream is over.
    Fail(StreamError),
    /// The stream is over.
    Finish,
}

/// The relay of one stream, with a time limit for its first chunk and one for each further chunk.
pub struct StreamTimeouts {
    first_byte_timeout: Option<Duration>,
    idle_timeout: Option<Duration>,
    is_first_chunk: bool,
    is_over: bool,
}

/// Where the relay of a stream stands.
pub struct Relay {
    /// No chunk has come yet.
    pub waiting_for_first: bool,
    /// The stream has ended or failed.
    pub over: bool,
}

/// Where the relay stands after the next item: a chunk keeps it going, anything else ends it.
pub open spec fn relayed(relay: Relay, next: Arrival) -> Relay {
    match next {
        Arrival::Chunk(_) => Relay { waiting_for_first: false, over: false },
        _ => Relay { waiting_for_first: relay.waiting_for_first, over: true },
    }
}

/// The outcome that is recorded after the next item: a failure with its message, success at the
/// end, and nothing for a chunk.
pub open spec fn reported(
    outcome: Option<Result<(), Seq<char>>>,
    next: Arrival,
) -> Option<Result<(), Seq<char>>> {
    match next {
        Arrival::Chunk(_) => outcome,
        Arrival::Failure { timed_out, message } => settled(outcome, Err(message)),
        Arrival::End => settled(outcome, Ok(())),
    }
}

/// The item that an action hands to the client; `End` where it hands over nothing more.
pub open spec fn handed_over(action: StreamAction) -> Arrival {
    match action {
        StreamAction::Deliver(chunk) => Arrival::Chunk(bytes_content(chunk)),
        StreamAction::Fail(error) => Arrival::Failure {
            timed_out: error.timed_out,
            message: error.message@,
        },
        StreamAction::Finish => Arrival::End,
    }
}

impl StreamTimeouts {
    /// Where the relay stands.
    pub closed spec fn relay(self) -> Relay {
        Relay { waiting_for_first: self.is_first_chunk, over: self.is_over }
    }

    /// The time limits, for the first chunk and for each further chunk.
    pub closed spec fn limits(self) -> (Option<Duration>, Option<Duration>) {
        (self.first_byte_timeout, self.idle_timeout)
    }

    /// The time limit for the next chunk, if there is one, and what it is for.
    pub fn next_wait(&self) -> (wait: (Option<Duration>, StreamTimeoutPhase))
        ensures
            wait == (if self.relay().waiting_for_first {
                (self.limits().0, StreamTimeoutPhase::FirstByte)
            } else {
                (self.limits().1, StreamTimeoutPhase::Idle)
            }),
    {
        if self.is_first_chunk {
            (self.first_byte_timeout, StreamTimeoutPhase::FirstByte)
        } else {
            (self.idle_timeout, StreamTimeoutPhase::Idle)
        }
    }

    /// Takes the next item of the stream, and records how the stream ended where someone keeps
    /// track of that. Nothing is taken after the stream is over.
    pub fn step(
        &mut self,
        next: Option<Result<Bytes, StreamError>>,
        stream_completion: Option<&mut StreamCompletion>,
    ) -> (action: StreamAction)
        ensures
            final(self).limits() == old(self).limits(),
            if old(self).relay().over {
                action is Finish && final(self).relay() == old(self).relay()
            } else {
                handed_over(action) == arrival(next) && final(self).relay() == relayed(
                    old(self).relay(),
                    arrival(next),
                )
            },
            !old(self).relay().over ==> match next {
                Some(Ok(chunk)) => action == StreamAction::Deliver(chunk),
                Some(Err(error)) => action == StreamAction::Fail(error),
                None => action is Finish,
            },
            match stream_completion {
                Some(completion) => final(completion)@ == (if old(self).relay().over {
                    completion@
                } else {
                    reported(completion@, arrival(next))
                }),
                None => true,
            },
    {
        if self.is_over {
            return StreamAction::Finish;
        }
        match next {
            Some(Ok(chunk)) => {
                self.is_first_chunk = false;
                StreamAction::Deliver(chunk)
            },
            Some(Err(error)) => {
                if let Some(completion) = stream_completion {
                    completion.record_error(error.message.clone());
                }
                self.is_over = true;
                StreamAction::Fail(error)
            },
            None => {
                if let Some(completion) = stream_completion {
                    completion.record_success();
                }
                self.is_over = true;
                StreamAction::Finish
            },
        }
    }
}

/// Starts the relay of a stream.
pub fn with_stream_timeouts(
    first_byte_timeout: Option<Duration>,
    idle_timeout: Option<Duration>,
) -> (relay: StreamTimeouts)
    ensures
        relay.relay() == (Relay { waiting_for_first: true, over: false }),
        relay.limits() == (first_byte_timeout, idle_timeout),
{
    StreamTimeouts { first_byte_timeout, idle_timeout, is_first_chunk: true, is_over: false }
}

/// What has come of a stream so far: where its relay stands, the outcome that is recorded, and
/// what the client was handed.
pub struct Relayed {
    pub relay: Relay,
    pub outcome: Option<Result<(), Seq<char>>>,
    pub handed: Seq<Arrival>,
}

/// What comes of a stream with those items, where nothing was recorded before. Nothing is taken
/// after the stream is over.
pub open spec fn relay_all(items: Seq<Arrival>) -> Relayed
    decreases items.len(),
{
    if items.len() == 0 {
        Relayed {
            relay: Relay { waiting_for_first: true, over: false },
            outcome: None,
            handed: seq![],
        }
    } else {
        let before = relay_all(items.drop_last());
        if before.relay.over {
            before
        } else {
            Relayed {
                relay: relayed(before.relay, items.last()),
                outcome: reported(before.outcome, items.last()),
                handed: if items.last() is End {
                    before.handed
                } else {
                    before.handed.push(items.last())
                },
            }
        }
    }
}

/// The items before `end` are chunks, and the one at `end`, if there is one, is not.
pub open spec fn chunks_until(items: Seq<Arrival>, end: int) -> bool {
    &&& 0 <= end <= items.len()
    &&& forall|i: int| 0 <= i < end ==> #[trigger] items[i] is Chunk
    &&& end < items.len() ==> !(items[end] is Chunk)
}

/// The client is handed every chunk, in order and unchanged, up to the first failure or the end of
/// the stream, then the failure itself, and nothing after it. The outcome is a success exactly if
/// the stream ended before it failed, and otherwise names that failure; while chunks keep coming
/// there is none.
pub proof fn stream_is_relayed_to_its_end(items: Seq<Arrival>, end: int)
    requires
        chunks_until(items, end),
    ensures
        relay_all(items).relay.over == (end < items.len()),
        relay_all(items).relay.waiting_for_first == (end == 0),
        relay_all(items).handed == (if end < items.len() && items[end] is Failure {
            items.take(end + 1)
        } else {
            items.take(end)
        }),
        relay_all(items).outcome == (if end == items.len() {
            None
        } else {
            match items[end] {
                Arrival::Failure { timed_out, message } => Some(Err(message)),
                _ => Some(Ok(())),
            }
        }),
    decreases items.len(),
{
    if items.len() > 0 {
        let before = items.drop_last();
        let last = items.last();
        if end == items.len() {
            assert(items[items.len() - 1] is Chunk);
            stream_is_relayed_to_its_end(before, end - 1);
            assert(items.take(end) =~= before.take(end - 1).push(last));
        } else {
            stream_is_relayed_to_its_end(before, end);
            if end == items.len() - 1 {
                assert(items.take(end + 1) =~= before.take(end).push(last));
                assert(items.take(end) =~= before.take(end));
            } else {
                assert(items.take(end + 1) =~= before.take(end + 1));
                assert(items.take(end) =~= before.take(end));
            }
        }
    } else {
        assert(items.take(end) =~= seq![]);
    }
}

/// Once a stream is over, what else comes changes neither the outcome nor what the client has.
pub proof fn nothing_is_taken_after_the_end(items: Seq<Arrival>, more: Seq<Arrival>)
    requires
        relay_all(items).relay.over,
    ensures
        relay_all(items + more) == relay_all(items),
    decreases more.len(),
{
    if more.len() == 0 {
        assert(items + more =~= items);
    } else {
        nothing_is_taken_after_the_end(items, more.drop_last());
        assert((items + more).drop_last() =~= items + more.drop_last());
    }
}

/// A time limit that is not zero is never said to be zero seconds, and a limit of whole seconds is
/// named exactly.
pub proof fn limits_are_not_shown_as_zero(nanos: nat)
    ensures
        display_seconds(nanos) == 0 <==> nanos == 0,
        nanos % 1_000_000_000 == 0 ==> display_seconds(nanos) * 1_000_000_000 == nanos,
{
}

} // verus!
