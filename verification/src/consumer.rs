//! The stream consumer as an explicit state machine.
//!
//! The caller owns the session and performs every action the machine asks for:
//! it opens sessions, awaits messages and sleeps. It reports what happened as
//! an [`Event`], and [`Consumer::step`] answers with the next [`Action`].

use crate::backoff::{lemma_backoff_never_shrinks, next_attempt, Backoff, MAX_ATTEMPT};
use crate::error::StreamError;
use crate::model::{
    BlockResponse, BlockScopedData, BlockUndoSignal, Cursor, RawMessage, ResumePoint,
    SessionRequest,
};
use vstd::prelude::*;

verus! {

/// Where the consumer stands in the life of its connection.
#[derive(Clone, Copy, Debug, PartialEq, Eq, Structural)]
pub enum Phase {
    /// The first session is being opened.
    Connecting,
    /// A session is live and the next message is awaited.
    Streaming,
    /// A transient fault occurred: the consumer waits, then opens a session
    /// again.
    Reconnecting,
    /// The stream has ended, cleanly or not. Nothing more is produced.
    Terminated,
}

/// What the caller reports to the consumer.
#[derive(Clone, Debug, PartialEq, Eq)]
pub enum Event {
    /// The session requested last was opened.
    SessionOpened,
    /// The session requested last could not be opened.
    OpenFailed { error: StreamError, jitter: u64 },
    /// The session produced a message.
    Message(RawMessage),
    /// Waiting for a message failed.
    ReceiveFailed { error: StreamError, jitter: u64 },
    /// The server closed the session cleanly.
    EndOfStream,
    /// The wait asked for last is over.
    BackoffElapsed,
    /// The caller gives the stream up.
    Cancelled,
}

/// What the consumer asks of the caller.
#[derive(Clone, Debug, PartialEq, Eq)]
pub enum Action {
    /// Drop any session and open a new one with this request.
    OpenSession(SessionRequest),
    /// Await the next message of the live session.
    Receive,
    /// Hand this message to the application, persist its cursor, then await
    /// the next message.
    Deliver(BlockResponse),
    /// Drop the session and wait this many milliseconds.
    Sleep(u64),
    /// The stream is exhausted: stop without error.
    Finish,
    /// Stop and surface this error.
    Fail(StreamError),
    /// Drop the session at once; the stream was cancelled.
    Abort,
    /// The consumer has terminated; there is nothing left to do.
    Halt,
    /// The event does not belong to the current phase and changed nothing.
    Ignored,
}

/// The reading of a raw message: a block response, nothing (a notice), or the
/// decode failure of a message that lacks a mandatory part. The failure names
/// the cursor of the offending message.
pub open spec fn decoded(raw: RawMessage) -> Result<Option<BlockResponse>, StreamError> {
    match raw {
        RawMessage::Data { clock: Some(clock), cursor, output: Some(output) } => Ok(
            Some(BlockResponse::New(BlockScopedData { clock, cursor: Cursor { token: cursor }, output })),
        ),
        RawMessage::Data { cursor, .. } => Err(StreamError::Decode(cursor)),
        RawMessage::Undo { last_valid_cursor, last_valid_block: Some(block) } => Ok(
            Some(
                BlockResponse::Undo(
                    BlockUndoSignal {
                        last_valid_cursor: Cursor { token: last_valid_cursor },
                        last_valid_block: block,
                    },
                ),
            ),
        ),
        RawMessage::Undo { last_valid_cursor, .. } => Err(StreamError::Decode(last_valid_cursor)),
        RawMessage::Notice => Ok(None),
    }
}

/// Classifies a raw message.
pub fn classify(raw: RawMessage) -> (r: Result<Option<BlockResponse>, StreamError>)
    ensures
        r == decoded(raw),
{
    match raw {
        RawMessage::Data { clock, cursor, output } => match clock {
            Some(clock) => match output {
                Some(output) => Ok(
                    Some(BlockResponse::New(BlockScopedData { clock, cursor: Cursor::new(cursor), output })),
                ),
                None => Err(StreamError::Decode(cursor)),
            },
            None => Err(StreamError::Decode(cursor)),
        },
        RawMessage::Undo { last_valid_cursor, last_valid_block } => match last_valid_block {
            Some(block) => Ok(
                Some(
                    BlockResponse::Undo(
                        BlockUndoSignal {
                            last_valid_cursor: Cursor::new(last_valid_cursor),
                            last_valid_block: block,
                        },
                    ),
                ),
            ),
            None => Err(StreamError::Decode(last_valid_cursor)),
        },
        RawMessage::Notice => Ok(None),
    }
}

/// The state of one stream consumer.
#[derive(Clone, Debug, PartialEq, Eq)]
pub struct Consumer {
    pub phase: Phase,
    /// The module whose output is streamed.
    pub output_module: String,
    /// Where the stream stops; zero means unbounded.
    pub stop_block: u64,
    /// Where the next session starts: the cursor of the last message
    /// delivered, or the point the consumer was built with.
    pub resume: ResumePoint,
    /// Failures since the last delivered message.
    pub attempt: u32,
    /// While reconnecting: whether the wait is over and a session is being
    /// opened. False in every other phase.
    pub opening: bool,
    pub backoff: Backoff,
}

impl Consumer {
    /// Validity: the backoff policy is valid, the attempt counter is in range,
    /// and a session is said to be opening only while reconnecting.
    pub open spec fn wf(self) -> bool {
        &&& self.backoff.wf()
        &&& self.attempt <= MAX_ATTEMPT
        &&& self.opening ==> self.phase == Phase::Reconnecting
    }

    /// The request that opens a session from the current resume point.
    pub open spec fn request_of(self) -> SessionRequest {
        SessionRequest {
            output_module: self.output_module,
            start: self.resume,
            stop_block: self.stop_block,
        }
    }

    /// The state after a fault: a transient one schedules a reconnect, any
    /// other ends the stream.
    pub open spec fn after_fault(self, error: StreamError) -> Consumer {
        if error.transient() {
            Consumer {
                phase: Phase::Reconnecting,
                attempt: next_attempt(self.attempt),
                opening: false,
                ..self
            }
        } else {
            Consumer { phase: Phase::Terminated, opening: false, ..self }
        }
    }

    /// The action after a fault: wait, or surface the error unchanged.
    pub open spec fn fault_action(self, error: StreamError, jitter: u64) -> Action {
        if error.transient() {
            Action::Sleep(self.backoff.delay_of(self.attempt as nat, jitter) as u64)
        } else {
            Action::Fail(error)
        }
    }

    /// The state that follows `event`.
    pub open spec fn next_state(self, event: Event) -> Consumer {
        match (self.phase, event) {
            (Phase::Terminated, _) => self,
            (_, Event::Cancelled) => Consumer { phase: Phase::Terminated, opening: false, ..self },
            (Phase::Connecting, Event::SessionOpened) => Consumer { phase: Phase::Streaming, ..self },
            (Phase::Connecting, Event::OpenFailed { error, jitter }) => self.after_fault(error),
            (Phase::Streaming, Event::ReceiveFailed { error, jitter }) => self.after_fault(error),
            (Phase::Streaming, Event::Message(raw)) => match decoded(raw) {
                Ok(Some(response)) => Consumer {
                    resume: ResumePoint::Cursor(response.cursor_of()),
                    attempt: 0,
                    ..self
                },
                Ok(None) => self,
                Err(_) => Consumer { phase: Phase::Terminated, ..self },
            },
            (Phase::Streaming, Event::EndOfStream) => Consumer { phase: Phase::Terminated, ..self },
            (Phase::Reconnecting, Event::BackoffElapsed) => if self.opening {
                self
            } else {
                Consumer { opening: true, ..self }
            },
            (Phase::Reconnecting, Event::SessionOpened) => if self.opening {
                Consumer { phase: Phase::Streaming, opening: false, ..self }
            } else {
                self
            },
            (Phase::Reconnecting, Event::OpenFailed { error, jitter }) => if self.opening {
                self.after_fault(error)
            } else {
                self
            },
            _ => self,
        }
    }

    /// The action that answers `event`.
    pub open spec fn action_for(self, event: Event) -> Action {
        match (self.phase, event) {
            (Phase::Terminated, _) => Action::Halt,
            (_, Event::Cancelled) => Action::Abort,
            (Phase::Connecting, Event::SessionOpened) => Action::Receive,
            (Phase::Connecting, Event::OpenFailed { error, jitter }) => self.fault_action(error, jitter),
            (Phase::Streaming, Event::ReceiveFailed { error, jitter }) => self.fault_action(error, jitter),
            (Phase::Streaming, Event::Message(raw)) => match decoded(raw) {
                Ok(Some(response)) => Action::Deliver(response),
                Ok(None) => Action::Receive,
                Err(error) => Action::Fail(error),
            },
            (Phase::Streaming, Event::EndOfStream) => Action::Finish,
            (Phase::Reconnecting, Event::BackoffElapsed) => if self.opening {
                Action::Ignored
            } else {
                Action::OpenSession(self.request_of())
            },
            (Phase::Reconnecting, Event::SessionOpened) => if self.opening {
                Action::Receive
            } else {
                Action::Ignored
            },
            (Phase::Reconnecting, Event::OpenFailed { error, jitter }) => if self.opening {
                self.fault_action(error, jitter)
            } else {
                Action::Ignored
            },
            _ => Action::Ignored,
        }
    }

    /// A consumer about to open its first session. A cursor, where there is
    /// one, takes precedence over `start_block`. The standard backoff applies.
    pub fn new(
        cursor: Option<Cursor>,
        output_module: String,
        start_block: u64,
        stop_block: u64,
    ) -> (c: Consumer)
        ensures
            c.wf(),
            c.phase == Phase::Connecting,
            c.output_module == output_module,
            c.stop_block == stop_block,
            c.attempt == 0,
            !c.opening,
            c.backoff == (Backoff { base_ms: 500, cap_ms: 30_000 }),
            c.resume == match cursor {
                Some(cur) => ResumePoint::Cursor(cur),
                None => ResumePoint::StartBlock(start_block),
            },
    {
        let resume = match cursor {
            Some(cur) => ResumePoint::Cursor(cur),
            None => ResumePoint::StartBlock(start_block),
        };
        Consumer {
            phase: Phase::Connecting,
            output_module,
            stop_block,
            resume,
            attempt: 0,
            opening: false,
            backoff: Backoff::standard(),
        }
    }

    /// The same consumer under another backoff policy.
    pub fn with_backoff(self, backoff: Backoff) -> (c: Consumer)
        requires
            self.wf(),
            backoff.wf(),
        ensures
            c == (Consumer { backoff, ..self }),
            c.wf(),
    {
        Consumer { backoff, ..self }
    }

    /// Whether the consumer is valid, as `step` needs it.
    pub fn is_valid(&self) -> (b: bool)
        ensures
            b == self.wf(),
    {
        let phased = match self.phase {
            Phase::Reconnecting => true,
            _ => !self.opening,
        };
        self.backoff.is_valid() && self.attempt <= MAX_ATTEMPT && phased
    }

    /// The current phase.
    pub fn phase(&self) -> (p: Phase)
        ensures
            p == self.phase,
    {
        self.phase
    }

    /// True once the stream has ended.
    pub fn is_terminated(&self) -> (b: bool)
        ensures
            b == (self.phase == Phase::Terminated),
    {
        match self.phase {
            Phase::Terminated => true,
            _ => false,
        }
    }

    /// The request that opens a session from the current resume point. The
    /// caller sends it first, and again whenever `step` asks for a session.
    pub fn request(&self) -> (r: SessionRequest)
        ensures
            r == self.request_of(),
    {
        let start = match &self.resume {
            ResumePoint::Cursor(cur) => ResumePoint::Cursor(cur.duplicate()),
            ResumePoint::StartBlock(n) => ResumePoint::StartBlock(*n),
        };
        SessionRequest { output_module: self.output_module.clone(), start, stop_block: self.stop_block }
    }

    fn on_fault(&mut self, error: StreamError, jitter: u64) -> (action: Action)
        requires
            old(self).wf(),
        ensures
            final(self).wf(),
            *final(self) == old(self).after_fault(error),
            action == old(self).fault_action(error, jitter),
    {
        if error.is_transient() {
            let wait: u64 = self.backoff.delay(self.attempt, jitter);
            if self.attempt < MAX_ATTEMPT {
                self.attempt = self.attempt + 1;
            }
            self.phase = Phase::Reconnecting;
            self.opening = false;
            Action::Sleep(wait)
        } else {
            self.phase = Phase::Terminated;
            self.opening = false;
            Action::Fail(error)
        }
    }

    fn on_message(&mut self, raw: RawMessage) -> (action: Action)
        requires
            old(self).wf(),
            old(self).phase == Phase::Streaming,
        ensures
            final(self).wf(),
            *final(self) == old(self).next_state(Event::Message(raw)),
            action == old(self).action_for(Event::Message(raw)),
    {
        match classify(raw) {
            Ok(Some(response)) => {
                self.resume = ResumePoint::Cursor(response.cursor().duplicate());
                self.attempt = 0;
                Action::Deliver(response)
            },
            Ok(None) => Action::Receive,
            Err(error) => {
                self.phase = Phase::Terminated;
                Action::Fail(error)
            },
        }
    }

    /// Takes in one event and answers with the action to perform next.
    pub fn step(&mut self, event: Event) -> (action: Action)
        requires
            old(self).wf(),
        ensures
            final(self).wf(),
            *final(self) == old(self).next_state(event),
            action == old(self).action_for(event),
    {
        let phase = self.phase;
        match phase {
            Phase::Terminated => Action::Halt,
            Phase::Connecting => match event {
                Event::Cancelled => {
                    self.phase = Phase::Terminated;
                    Action::Abort
                },
                Event::SessionOpened => {
                    self.phase = Phase::Streaming;
                    Action::Receive
                },
                Event::OpenFailed { error, jitter } => self.on_fault(error, jitter),
                _ => Action::Ignored,
            },
            Phase::Streaming => match event {
                Event::Cancelled => {
                    self.phase = Phase::Terminated;
                    Action::Abort
                },
                Event::ReceiveFailed { error, jitter } => self.on_fault(error, jitter),
                Event::Message(raw) => self.on_message(raw),
                Event::EndOfStream => {
                    self.phase = Phase::Terminated;
                    Action::Finish
                },
                _ => Action::Ignored,
            },
            Phase::Reconnecting => match event {
                Event::Cancelled => {
                    self.phase = Phase::Terminated;
                    self.opening = false;
                    Action::Abort
                },
                Event::BackoffElapsed => {
                    if self.opening {
                        Action::Ignored
                    } else {
                        self.opening = true;
                        Action::OpenSession(self.request())
                    }
                },
                Event::SessionOpened => {
                    if self.opening {
                        self.phase = Phase::Streaming;
                        self.opening = false;
                        Action::Receive
                    } else {
                        Action::Ignored
                    }
                },
                Event::OpenFailed { error, jitter } => {
                    if self.opening {
                        self.on_fault(error, jitter)
                    } else {
                        Action::Ignored
                    }
                },
                _ => Action::Ignored,
            },
        }
    }
}

/// The state reached from `start` after `events`, taken in order.
pub open spec fn run(start: Consumer, events: Seq<Event>) -> Consumer
    decreases events.len(),
{
    if events.len() == 0 {
        start
    } else {
        run(start, events.drop_last()).next_state(events.last())
    }
}

/// The messages handed to the application along `events`, in order.
pub open spec fn delivered(start: Consumer, events: Seq<Event>) -> Seq<BlockResponse>
    decreases events.len(),
{
    if events.len() == 0 {
        Seq::empty()
    } else {
        let before = delivered(start, events.drop_last());
        match run(start, events.drop_last()).action_for(events.last()) {
            Action::Deliver(response) => before.push(response),
            _ => before,
        }
    }
}

/// Where a stream resumes once `delivered` has been handed over: after the
/// last of them, or at `initial` when there is none.
pub open spec fn resume_after(initial: ResumePoint, delivered: Seq<BlockResponse>) -> ResumePoint {
    if delivered.len() == 0 {
        initial
    } else {
        ResumePoint::Cursor(delivered.last().cursor_of())
    }
}

/// Validity is kept along every run.
pub proof fn lemma_run_keeps_validity(start: Consumer, events: Seq<Event>)
    requires
        start.wf(),
    ensures
        run(start, events).wf(),
        run(start, events).backoff == start.backoff,
        run(start, events).output_module == start.output_module,
        run(start, events).stop_block == start.stop_block,
    decreases events.len(),
{
    if events.len() > 0 {
        lemma_run_keeps_validity(start, events.drop_last());
    }
}

/// Monotonic resume. After any run of events the consumer resumes exactly
/// after the last message it delivered, or at its initial resume point when
/// it delivered none, and the session it would ask for starts there.
pub proof fn lemma_resume_follows_delivery(start: Consumer, events: Seq<Event>)
    ensures
        run(start, events).resume == resume_after(start.resume, delivered(start, events)),
        run(start, events).request_of().start == resume_after(
            start.resume,
            delivered(start, events),
        ),
    decreases events.len(),
{
    if events.len() > 0 {
        lemma_resume_follows_delivery(start, events.drop_last());
    }
}

/// A restart from a persisted cursor asks the server for exactly the position
/// after that cursor, whatever start block is configured.
pub proof fn lemma_restart_resumes_at_cursor(fresh: Consumer, persisted: Cursor)
    requires
        fresh.resume == ResumePoint::Cursor(persisted),
    ensures
        fresh.request_of().start == ResumePoint::Cursor(persisted),
        run(fresh, seq![Event::SessionOpened]).resume == ResumePoint::Cursor(persisted),
{
    let events = seq![Event::SessionOpened];
    assert(events.drop_last() =~= Seq::<Event>::empty());
    assert(run(fresh, events.drop_last()) == fresh);
}

/// A terminated consumer stays as it is and answers every event with `Halt`.
pub proof fn lemma_terminated_is_final(ended: Consumer, events: Seq<Event>, event: Event)
    requires
        ended.phase == Phase::Terminated,
    ensures
        run(ended, events) == ended,
        run(ended, events).action_for(event) == Action::Halt,
    decreases events.len(),
{
    if events.len() > 0 {
        lemma_terminated_is_final(ended, events.drop_last(), event);
    }
}

/// Fatal means no retry. When opening a session, the first or a later one,
/// fails with anything but a connection error, the consumer terminates at once, surfaces that very
/// error, and never again asks for a session, a wait or a message.
pub proof fn lemma_fatal_open_failure_ends_stream(
    c: Consumer,
    error: StreamError,
    jitter: u64,
    later: Seq<Event>,
    event: Event,
)
    requires
        c.phase == Phase::Connecting || (c.phase == Phase::Reconnecting && c.opening),
        !error.transient(),
    ensures
        c.action_for(Event::OpenFailed { error, jitter }) == Action::Fail(error),
        c.next_state(Event::OpenFailed { error, jitter }).phase == Phase::Terminated,
        c.next_state(Event::OpenFailed { error, jitter }).attempt == c.attempt,
        run(c.next_state(Event::OpenFailed { error, jitter }), later).action_for(event)
            == Action::Halt,
{
    lemma_terminated_is_final(c.next_state(Event::OpenFailed { error, jitter }), later, event);
}

/// Backoff bound. Of two failed connection attempts in a row, the second is
/// followed by a wait at least as long as the first, and no wait exceeds the cap.
pub proof fn lemma_repeated_failures_wait_longer(
    c: Consumer,
    first: StreamError,
    j1: u64,
    second: StreamError,
    j2: u64,
)
    requires
        c.wf(),
        c.phase == Phase::Connecting || (c.phase == Phase::Reconnecting && c.opening),
        first.transient(),
        second.transient(),
    ensures
        ({
            let waiting = c.next_state(Event::OpenFailed { error: first, jitter: j1 });
            let retrying = waiting.next_state(Event::BackoffElapsed);
            let d1 = c.backoff.delay_of(c.attempt as nat, j1);
            let d2 = c.backoff.delay_of(retrying.attempt as nat, j2);
            &&& waiting.phase == Phase::Reconnecting && !waiting.opening
            &&& retrying.phase == Phase::Reconnecting && retrying.opening
            &&& c.action_for(Event::OpenFailed { error: first, jitter: j1 }) == Action::Sleep(d1 as u64)
            &&& waiting.action_for(Event::BackoffElapsed) == Action::OpenSession(c.request_of())
            &&& retrying.action_for(Event::OpenFailed { error: second, jitter: j2 }) == Action::Sleep(
                d2 as u64,
            )
            &&& d1 <= d2 <= c.backoff.cap_ms
        }),
{
    lemma_backoff_never_shrinks(c.backoff, c.attempt, j1, j2);
}

/// The raw message that reads as `response`.
pub open spec fn as_raw(response: BlockResponse) -> RawMessage {
    match response {
        BlockResponse::New(data) => RawMessage::Data {
            clock: Some(data.clock),
            cursor: data.cursor.token,
            output: Some(data.output),
        },
        BlockResponse::Undo(undo) => RawMessage::Undo {
            last_valid_cursor: undo.last_valid_cursor.token,
            last_valid_block: Some(undo.last_valid_block),
        },
    }
}

/// The events of a session that produces `responses`, one message each.
pub open spec fn message_events(responses: Seq<BlockResponse>) -> Seq<Event> {
    Seq::new(responses.len(), |i: int| Event::Message(as_raw(responses[i])))
}

/// No omission, no reordering. A streaming consumer delivers every message
/// its session produces, once each and in the order received, stays streaming,
/// and resumes after the last of them.
pub proof fn lemma_streaming_delivers_in_order(start: Consumer, responses: Seq<BlockResponse>)
    requires
        start.phase == Phase::Streaming,
    ensures
        delivered(start, message_events(responses)) == responses,
        run(start, message_events(responses)).phase == Phase::Streaming,
        run(start, message_events(responses)).resume == resume_after(start.resume, responses),
    decreases responses.len(),
{
    let events = message_events(responses);
    if responses.len() == 0 {
        assert(delivered(start, events) =~= responses);
    } else {
        let shorter = responses.drop_last();
        lemma_streaming_delivers_in_order(start, shorter);
        assert(events.drop_last() =~= message_events(shorter));
        assert(events.last() == Event::Message(as_raw(responses.last())));
        assert(decoded(as_raw(responses.last())) == Ok::<Option<BlockResponse>, StreamError>(
            Some(responses.last()),
        ));
        assert(shorter.push(responses.last()) =~= responses);
    }
}

/// At-least-once across a reconnect. When a session breaks after it produced
/// `responses`, the consumer waits and then asks for a session that starts
/// exactly after the last message delivered, with the same module and stop
/// block as before.
pub proof fn lemma_reconnect_resumes_after_last_delivery(
    start: Consumer,
    responses: Seq<BlockResponse>,
    error: StreamError,
    jitter: u64,
)
    requires
        start.wf(),
        start.phase == Phase::Streaming,
        error.transient(),
    ensures
        ({
            let broken = run(start, message_events(responses)).next_state(
                Event::ReceiveFailed { error, jitter },
            );
            &&& broken.phase == Phase::Reconnecting
            &&& broken.action_for(Event::BackoffElapsed) == Action::OpenSession(
                SessionRequest {
                    output_module: start.output_module,
                    start: resume_after(start.resume, responses),
                    stop_block: start.stop_block,
                },
            )
            &&& broken.next_state(Event::BackoffElapsed).next_state(Event::SessionOpened).phase
                == Phase::Streaming
        }),
{
    lemma_streaming_delivers_in_order(start, responses);
    lemma_run_keeps_validity(start, message_events(responses));
}

/// A clean session from end to end. A consumer whose first session opens,
/// produces `responses` and then ends delivers exactly these, in order, and
/// then finishes without error. Where the session produces no rollback, none
/// is delivered.
pub proof fn lemma_clean_session_delivers_all(fresh: Consumer, responses: Seq<BlockResponse>)
    requires
        fresh.phase == Phase::Connecting,
    ensures
        ({
            let live = fresh.next_state(Event::SessionOpened);
            let events = message_events(responses).push(Event::EndOfStream);
            &&& fresh.action_for(Event::SessionOpened) == Action::Receive
            &&& delivered(live, events) == responses
            &&& run(live, message_events(responses)).action_for(Event::EndOfStream)
                == Action::Finish
            &&& run(live, events).phase == Phase::Terminated
            &&& run(live, events).resume == resume_after(fresh.resume, responses)
            &&& (forall|i: int| 0 <= i < responses.len() ==> responses[i] is New) ==> (forall|
                i: int,
            |
                0 <= i < delivered(live, events).len() ==> delivered(live, events)[i] is New)
        }),
{
    let live = fresh.next_state(Event::SessionOpened);
    let messages = message_events(responses);
    let events = messages.push(Event::EndOfStream);
    lemma_streaming_delivers_in_order(live, responses);
    assert(events.drop_last() =~= messages);
    assert(events.last() == Event::EndOfStream);
}

} // verus!
