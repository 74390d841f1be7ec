//! The decisions of a QUIC connection driven over a UDP socket: its errors, and
//! the steps of its receive and send loops. The caller performs each action
//! (polling the socket, feeding the connection) and hands back what happened.
use vstd::prelude::*;

verus! {

/// The errors of the QUIC state machine (`quiche::Error`).
#[derive(PartialEq, Eq, Structural, Clone, Copy, Debug)]
pub enum QuicheError {
    Done,
    BufferTooShort,
    UnknownVersion,
    InvalidFrame,
    InvalidPacket,
    InvalidState,
    InvalidStreamState(u64),
    InvalidTransportParam,
    CryptoFail,
    TlsFail,
    FlowControl,
    StreamLimit,
    StreamStopped(u64),
    StreamReset(u64),
    FinalSize,
    CongestionControl,
    IdLimit,
    OutOfIdentifiers,
    KeyUpdate,
    CryptoBufferExceeded,
    InvalidAckRange,
    OptimisticAckDetected,
    InvalidDcidInitialization,
}

/// The kinds of I/O error that a socket reports (`std::io::ErrorKind`).
#[derive(PartialEq, Eq, Structural, Clone, Copy, Debug)]
pub enum IoErrorKind {
    NotFound,
    PermissionDenied,
    ConnectionRefused,
    ConnectionReset,
    ConnectionAborted,
    NotConnected,
    AddrInUse,
    AddrNotAvailable,
    BrokenPipe,
    AlreadyExists,
    WouldBlock,
    InvalidInput,
    InvalidData,
    TimedOut,
    WriteZero,
    Interrupted,
    Unsupported,
    UnexpectedEof,
    OutOfMemory,
    Other,
}

/// An error of the QUIC transport: one of the connection, or one of the socket.
#[derive(PartialEq, Eq, Structural, Clone, Copy, Debug)]
pub enum QuicError {
    QuicError(QuicheError),
    IoError(IoErrorKind),
}

impl From<QuicheError> for QuicError {
    fn from(e: QuicheError) -> (r: Self) {
        QuicError::QuicError(e)
    }
}

impl vstd::std_specs::convert::FromSpecImpl<QuicheError> for QuicError {
    open spec fn obeys_from_spec() -> bool {
        true
    }

    open spec fn from_spec(e: QuicheError) -> Self {
        QuicError::QuicError(e)
    }
}

impl From<IoErrorKind> for QuicError {
    fn from(kind: IoErrorKind) -> (r: Self) {
        QuicError::IoError(kind)
    }
}

impl vstd::std_specs::convert::FromSpecImpl<IoErrorKind> for QuicError {
    open spec fn obeys_from_spec() -> bool {
        true
    }

    open spec fn from_spec(kind: IoErrorKind) -> Self {
        QuicError::IoError(kind)
    }
}

impl QuicError {
    /// The connection has nothing more to do for now.
    pub fn is_done(&self) -> (r: bool)
        ensures
            r == (*self == QuicError::QuicError(QuicheError::Done)),
    {
        match self {
            QuicError::QuicError(QuicheError::Done) => true,
            _ => false,
        }
    }

    /// The socket would have blocked.
    pub fn would_block(&self) -> (r: bool)
        ensures
            r == (*self == QuicError::IoError(IoErrorKind::WouldBlock)),
    {
        match self {
            QuicError::IoError(IoErrorKind::WouldBlock) => true,
            _ => false,
        }
    }
}

/// The outcome of polling something that may not be ready yet.
#[derive(PartialEq, Eq, Clone, Copy, Debug)]
pub enum Poll<T> {
    Ready(T),
    Pending,
}

/// The room reserved in the send buffer before each datagram is produced.
pub const RESERVE_SIZE: usize = 1024;

// ---------------------------------------------------------------------------
// Receiving: drain the datagram stream into the connection.
// ---------------------------------------------------------------------------

/// What the receive loop learns after each action it asked for.
#[derive(PartialEq, Eq, Clone, Copy, Debug)]
pub enum RecvEvent {
    /// The datagram stream was polled: a datagram (kept by the caller), an
    /// error of the socket, the end of the stream, or nothing yet.
    Polled(Poll<Option<Result<(), IoErrorKind>>>),
    /// The datagram was fed to the connection.
    Processed(Result<usize, QuicheError>),
}

/// What the receive loop asks of its caller.
#[derive(PartialEq, Eq, Clone, Copy, Debug)]
pub enum RecvAction {
    /// Poll the datagram stream.
    PollStream,
    /// Feed the datagram just received to the connection.
    Process,
    /// End the call with this answer: whether any datagram was received.
    Return(Result<bool, QuicError>),
}

/// The state of the receive loop after a step, with the action to perform.
#[derive(PartialEq, Eq, Clone, Copy, Debug)]
pub struct RecvStep {
    pub received_any: bool,
    pub action: RecvAction,
}

/// The receive loop starts by polling the stream, having received nothing.
pub open spec fn recv_start() -> RecvStep {
    RecvStep { received_any: false, action: RecvAction::PollStream }
}

/// One step of the receive loop. It answers `Ok(false)` when the first poll
/// finds nothing, and `Ok(true)` once the stream runs dry after at least one
/// datagram was processed; the first error of the socket or of the
/// connection ends it.
pub open spec fn recv_transition(received_any: bool, event: RecvEvent) -> RecvStep {
    match event {
        RecvEvent::Polled(Poll::Pending) => RecvStep {
            received_any,
            action: RecvAction::Return(Ok(received_any)),
        },
        RecvEvent::Polled(Poll::Ready(Some(Err(kind)))) => RecvStep {
            received_any,
            action: RecvAction::Return(Err(QuicError::IoError(kind))),
        },
        RecvEvent::Polled(Poll::Ready(_)) => RecvStep { received_any, action: RecvAction::Process },
        RecvEvent::Processed(Ok(_)) => RecvStep {
            received_any: true,
            action: RecvAction::PollStream,
        },
        RecvEvent::Processed(Err(e)) => RecvStep {
            received_any,
            action: RecvAction::Return(Err(QuicError::QuicError(e))),
        },
    }
}

/// The first step of the receive loop.
pub fn recv_begin() -> (r: RecvStep)
    ensures
        r == recv_start(),
{
    RecvStep { received_any: false, action: RecvAction::PollStream }
}

/// Decides the next step of the receive loop. The end of the datagram stream
/// is not handled: the caller stops there.
pub fn recv_step(received_any: bool, event: RecvEvent) -> (r: RecvStep)
    requires
        event != RecvEvent::Polled(Poll::Ready(None)),
    ensures
        r == recv_transition(received_any, event),
{
    match event {
        RecvEvent::Polled(Poll::Pending) => RecvStep {
            received_any,
            action: RecvAction::Return(Ok(received_any)),
        },
        RecvEvent::Polled(Poll::Ready(Some(Err(kind)))) => RecvStep {
            received_any,
            action: RecvAction::Return(Err(QuicError::IoError(kind))),
        },
        RecvEvent::Polled(Poll::Ready(_)) => RecvStep { received_any, action: RecvAction::Process },
        RecvEvent::Processed(Ok(_)) => RecvStep {
            received_any: true,
            action: RecvAction::PollStream,
        },
        RecvEvent::Processed(Err(e)) => RecvStep {
            received_any,
            action: RecvAction::Return(Err(QuicError::QuicError(e))),
        },
    }
}

// ---------------------------------------------------------------------------
// Sending: move datagrams from the connection into the sink, then flush.
// ---------------------------------------------------------------------------

/// Where the send loop resumes on its next call.
#[derive(PartialEq, Eq, Structural, Clone, Copy, Debug)]
pub enum SendState {
    Send,
    Flush,
}

/// The progress of one call of the send loop: where it stands, whether the
/// connection has reported that it has nothing more to send, and how many
/// bytes it has handed to the sink.
#[derive(PartialEq, Eq, Structural, Clone, Copy, Debug)]
pub struct SendProgress {
    pub state: SendState,
    pub drained: bool,
    pub queued: usize,
}

/// What the send loop learns after each action it asked for.
#[derive(PartialEq, Eq, Clone, Copy, Debug)]
pub enum SendEvent {
    /// The send loop was entered.
    Entered,
    /// The sink was polled for readiness.
    SinkReady(Poll<Result<(), IoErrorKind>>),
    /// The connection was asked for its next datagram: its size and target
    /// (kept by the caller).
    Produced(Result<usize, QuicheError>),
    /// The datagram was handed to the sink: its size.
    Queued(Result<usize, IoErrorKind>),
    /// The sink was polled to flush.
    Flushed(Poll<Result<(), IoErrorKind>>),
}

/// What the send loop asks of its caller.
#[derive(PartialEq, Eq, Clone, Copy, Debug)]
pub enum SendAction {
    /// Poll the sink for readiness.
    PollReady,
    /// Reserve `reserve` more bytes in the send buffer, then ask the
    /// connection to write its next datagram there.
    Produce { reserve: usize },
    /// Split the first `size` bytes off the send buffer and hand them to the
    /// sink, for the datagram's target.
    Queue { size: usize },
    /// Poll the sink to flush.
    PollFlush,
    /// End the call with this answer.
    Return(Poll<Result<usize, QuicError>>),
}

/// The progress of the send loop after a step, with the action to perform.
#[derive(PartialEq, Eq, Clone, Copy, Debug)]
pub struct SendStep {
    pub progress: SendProgress,
    pub action: SendAction,
}

/// `queued` increased by `n`, saturating at `usize::MAX`.
pub open spec fn add_queued(queued: usize, n: usize) -> usize {
    if queued + n <= usize::MAX {
        (queued + n) as usize
    } else {
        usize::MAX
    }
}

/// One step of the send loop. While the sink is ready and the connection has
/// datagrams, they are handed to the sink and counted; once the connection
/// has none left, or the sink is not ready, the loop flushes. A completed
/// flush after the connection ran dry ends the call with the number of bytes
/// handed over; a completed flush before that goes back to sending. A
/// pending flush ends the call as pending, and every error ends it with that
/// error.
pub open spec fn send_transition(p: SendProgress, event: SendEvent) -> SendStep {
    match event {
        SendEvent::Entered => {
            let fresh = SendProgress { state: p.state, drained: false, queued: 0 };
            match p.state {
                SendState::Send => SendStep { progress: fresh, action: SendAction::PollReady },
                SendState::Flush => SendStep { progress: fresh, action: SendAction::PollFlush },
            }
        },
        SendEvent::SinkReady(Poll::Ready(Err(kind))) => SendStep {
            progress: p,
            action: SendAction::Return(Poll::Ready(Err(QuicError::IoError(kind)))),
        },
        SendEvent::SinkReady(Poll::Pending) => SendStep {
            progress: SendProgress { state: SendState::Flush, ..p },
            action: SendAction::PollFlush,
        },
        SendEvent::SinkReady(Poll::Ready(Ok(()))) => SendStep {
            progress: p,
            action: SendAction::Produce { reserve: RESERVE_SIZE },
        },
        SendEvent::Produced(Ok(size)) => SendStep { progress: p, action: SendAction::Queue { size } },
        SendEvent::Produced(Err(QuicheError::Done)) => SendStep {
            progress: SendProgress { state: SendState::Flush, drained: true, queued: p.queued },
            action: SendAction::PollFlush,
        },
        SendEvent::Produced(Err(e)) => SendStep {
            progress: p,
            action: SendAction::Return(Poll::Ready(Err(QuicError::QuicError(e)))),
        },
        SendEvent::Queued(Ok(n)) => SendStep {
            progress: SendProgress { queued: add_queued(p.queued, n), ..p },
            action: SendAction::PollReady,
        },
        SendEvent::Queued(Err(kind)) => SendStep {
            progress: p,
            action: SendAction::Return(Poll::Ready(Err(QuicError::IoError(kind)))),
        },
        SendEvent::Flushed(Poll::Ready(Ok(()))) => if p.drained {
            SendStep {
                progress: SendProgress { state: SendState::Send, ..p },
                action: SendAction::Return(Poll::Ready(Ok(p.queued))),
            }
        } else {
            SendStep {
                progress: SendProgress { state: SendState::Send, ..p },
                action: SendAction::PollReady,
            }
        },
        SendEvent::Flushed(Poll::Ready(Err(kind))) => SendStep {
            progress: p,
            action: SendAction::Return(Poll::Ready(Err(QuicError::IoError(kind)))),
        },
        SendEvent::Flushed(Poll::Pending) => SendStep {
            progress: p,
            action: SendAction::Return(Poll::Pending),
        },
    }
}

/// Decides the next step of the send loop.
pub fn send_step(p: SendProgress, event: SendEvent) -> (r: SendStep)
    ensures
        r == send_transition(p, event),
{
    match event {
        SendEvent::Entered => {
            let fresh = SendProgress { state: p.state, drained: false, queued: 0 };
            match p.state {
                SendState::Send => SendStep { progress: fresh, action: SendAction::PollReady },
                SendState::Flush => SendStep { progress: fresh, action: SendAction::PollFlush },
            }
        },
        SendEvent::SinkReady(Poll::Ready(Err(kind))) => SendStep {
            progress: p,
            action: SendAction::Return(Poll::Ready(Err(QuicError::IoError(kind)))),
        },
        SendEvent::SinkReady(Poll::Pending) => SendStep {
            progress: SendProgress { state: SendState::Flush, drained: p.drained, queued: p.queued },
            action: SendAction::PollFlush,
        },
        SendEvent::SinkReady(Poll::Ready(Ok(()))) => SendStep {
            progress: p,
            action: SendAction::Produce { reserve: RESERVE_SIZE },
        },
        SendEvent::Produced(Ok(size)) => SendStep { progress: p, action: SendAction::Queue { size } },
        SendEvent::Produced(Err(QuicheError::Done)) => SendStep {
            progress: SendProgress { state: SendState::Flush, drained: true, queued: p.queued },
            action: SendAction::PollFlush,
        },
        SendEvent::Produced(Err(e)) => SendStep {
            progress: p,
            action: SendAction::Return(Poll::Ready(Err(QuicError::QuicError(e)))),
        },
        SendEvent::Queued(Ok(n)) => {
            let queued = if n <= usize::MAX - p.queued {
                p.queued + n
            } else {
                usize::MAX
            };
            SendStep {
                progress: SendProgress { state: p.state, drained: p.drained, queued },
                action: SendAction::PollReady,
            }
        },
        SendEvent::Queued(Err(kind)) => SendStep {
            progress: p,
            action: SendAction::Return(Poll::Ready(Err(QuicError::IoError(kind)))),
        },
        SendEvent::Flushed(Poll::Ready(Ok(()))) => {
            let progress = SendProgress { state: SendState::Send, drained: p.drained, queued: p.queued };
            if p.drained {
                SendStep { progress, action: SendAction::Return(Poll::Ready(Ok(p.queued))) }
            } else {
                SendStep { progress, action: SendAction::PollReady }
            }
        },
        SendEvent::Flushed(Poll::Ready(Err(kind))) => SendStep {
            progress: p,
            action: SendAction::Return(Poll::Ready(Err(QuicError::IoError(kind)))),
        },
        SendEvent::Flushed(Poll::Pending) => SendStep {
            progress: p,
            action: SendAction::Return(Poll::Pending),
        },
    }
}

// ---------------------------------------------------------------------------
// Laws of the two loops.
// ---------------------------------------------------------------------------

/// The receive loop run over a sequence of events from the step `s`, until it
/// returns or the events run out.
pub open spec fn recv_run(s: RecvStep, events: Seq<RecvEvent>) -> RecvStep
    decreases events.len(),
{
    if events.len() == 0 || s.action is Return {
        s
    } else {
        recv_run(recv_transition(s.received_any, events[0]), events.drop_first())
    }
}

/// No event reports the end of the datagram stream.
pub open spec fn no_stream_end(events: Seq<RecvEvent>) -> bool {
    forall|i: int| 0 <= i < events.len() ==> events[i] != RecvEvent::Polled(Poll::Ready(None))
}

/// A step of the receive loop answers `Ok(b)` only with `b` the flag of
/// datagrams received so far, and the flag becomes true exactly when a
/// datagram has been processed: once true it stays true.
pub proof fn lemma_recv_step_flag(received_any: bool, event: RecvEvent)
    ensures
        recv_transition(received_any, event).action matches RecvAction::Return(Ok(b)) ==> b
            == received_any,
        recv_transition(received_any, event).received_any == (received_any
            || event matches RecvEvent::Processed(Ok(_))),
{
}

/// A successful answer of the step is its flag of datagrams received.
pub open spec fn recv_answer_agrees(s: RecvStep) -> bool {
    s.action matches RecvAction::Return(Ok(b)) ==> b == s.received_any
}

/// Over any run of the receive loop, the answer `Ok(true)` comes only after a
/// datagram was processed, and `Ok(false)` only when none was.
pub proof fn lemma_recv_run_answer(events: Seq<RecvEvent>, s: RecvStep)
    requires
        no_stream_end(events),
    ensures
        recv_run(s, events).received_any ==> s.received_any || exists|i: int|
            0 <= i < events.len() && #[trigger] events[i] matches RecvEvent::Processed(Ok(_)),
        s.received_any ==> recv_run(s, events).received_any,
        s.action is Return ==> recv_run(s, events) == s,
        recv_answer_agrees(s) ==> recv_answer_agrees(recv_run(s, events)),
    decreases events.len(),
{
    if events.len() == 0 || s.action is Return {
    } else {
        let next = recv_transition(s.received_any, events[0]);
        let rest = events.drop_first();
        assert forall|i: int| 0 <= i < rest.len() implies rest[i] != RecvEvent::Polled(
            Poll::Ready(None),
        ) by {
            assert(rest[i] == events[i + 1]);
        }
        lemma_recv_run_answer(rest, next);
        if recv_run(next, rest).received_any && !s.received_any {
            if next.received_any {
                assert(events[0] matches RecvEvent::Processed(Ok(_)));
            } else {
                let i = choose|i: int|
                    0 <= i < rest.len() && #[trigger] rest[i] matches RecvEvent::Processed(Ok(_));
                assert(events[i + 1] == rest[i]);
            }
        }
    }
}

/// A call of the receive loop from its start answers `Ok(true)` only if some
/// datagram was processed, and `Ok(false)` only if none was.
pub proof fn lemma_recv_true_iff_received(events: Seq<RecvEvent>)
    requires
        no_stream_end(events),
    ensures
        recv_run(recv_start(), events).action == RecvAction::Return(Ok(true)) ==> exists|i: int|
            0 <= i < events.len() && #[trigger] events[i] matches RecvEvent::Processed(Ok(_)),
        recv_run(recv_start(), events).action == RecvAction::Return(Ok(false)) ==> !recv_run(
            recv_start(),
            events,
        ).received_any,
{
    lemma_recv_run_answer(events, recv_start());
}

/// The events that can answer an action of the send loop.
pub open spec fn send_answers(action: SendAction, event: SendEvent) -> bool {
    match action {
        SendAction::PollReady => event is SinkReady,
        SendAction::Produce { .. } => event is Produced,
        SendAction::Queue { .. } => event is Queued,
        SendAction::PollFlush => event is Flushed,
        SendAction::Return(_) => false,
    }
}

/// The events that can reach the send loop in a state: entering it, or
/// answering an action that the state asks for.
pub open spec fn send_event_expected(state: SendState, event: SendEvent) -> bool {
    match event {
        SendEvent::Entered => true,
        SendEvent::SinkReady(_) | SendEvent::Produced(_) | SendEvent::Queued(_) => state
            == SendState::Send,
        SendEvent::Flushed(_) => state == SendState::Flush,
    }
}

/// The send loop answers with a success only when a flush completes after the
/// connection reported that it had nothing more to send, and the answer is
/// then the number of bytes handed to the sink during the call.
pub proof fn lemma_send_succeeds_only_when_drained_and_flushed(p: SendProgress, event: SendEvent)
    ensures
        send_transition(p, event).action matches SendAction::Return(Poll::Ready(Ok(n))) ==> {
            &&& event == SendEvent::Flushed(Poll::Ready(Ok(())))
            &&& p.drained
            &&& n == p.queued
        },
{
    match event {
        SendEvent::Flushed(Poll::Ready(Ok(u))) => {
            assert(u == ());
        },
        _ => {},
    }
}

/// `Done` from the connection is no error of the send loop: it turns to
/// flushing, and the completed flush then ends the call with the count of
/// bytes handed over. Every other error of the connection, and every error of
/// the sink, ends the call with that error.
pub proof fn lemma_send_done_then_flush_returns(p: SendProgress, e: QuicheError, kind: IoErrorKind)
    ensures
        ({
            let s1 = send_transition(p, SendEvent::Produced(Err(QuicheError::Done)));
            &&& s1.progress == (SendProgress {
                state: SendState::Flush,
                drained: true,
                queued: p.queued,
            })
            &&& s1.action == SendAction::PollFlush
            &&& send_transition(s1.progress, SendEvent::Flushed(Poll::Ready(Ok(())))).action
                == SendAction::Return(Poll::Ready(Ok(p.queued)))
        }),
        e != QuicheError::Done ==> send_transition(p, SendEvent::Produced(Err(e))).action
            == SendAction::Return(Poll::Ready(Err(QuicError::QuicError(e)))),
        send_transition(p, SendEvent::SinkReady(Poll::Ready(Err(kind)))).action
            == SendAction::Return(Poll::Ready(Err(QuicError::IoError(kind)))),
        send_transition(p, SendEvent::Queued(Err(kind))).action == SendAction::Return(
            Poll::Ready(Err(QuicError::IoError(kind))),
        ),
        send_transition(p, SendEvent::Flushed(Poll::Ready(Err(kind)))).action
            == SendAction::Return(Poll::Ready(Err(QuicError::IoError(kind)))),
{
}

/// The send loop keeps its state in step with its actions: every event that
/// can answer the action it asks for is one its new state expects, and a
/// pending answer leaves it in the flushing state, so that the next call
/// resumes by flushing.
pub proof fn lemma_send_state_follows_actions(p: SendProgress, event: SendEvent)
    requires
        send_event_expected(p.state, event),
    ensures
        forall|e: SendEvent|
            send_answers(send_transition(p, event).action, e) ==> send_event_expected(
                #[trigger] send_transition(p, event).progress.state,
                e,
            ),
        send_transition(p, event).action == SendAction::Return(Poll::Pending) ==> {
            &&& send_transition(p, event).progress.state == SendState::Flush
            &&& send_transition(send_transition(p, event).progress, SendEvent::Entered).action
                == SendAction::PollFlush
        },
{
}

/// The send loop run over a sequence of events from the step `s`, until it
/// returns or the events run out.
pub open spec fn send_run(s: SendStep, events: Seq<SendEvent>) -> SendStep
    decreases events.len(),
{
    if events.len() == 0 || s.action is Return {
        s
    } else {
        send_run(send_transition(s.progress, events[0]), events.drop_first())
    }
}

/// The events of handing one datagram of each size to a ready sink.
pub open spec fn ready_rounds(sizes: Seq<usize>) -> Seq<SendEvent>
    decreases sizes.len(),
{
    if sizes.len() == 0 {
        Seq::empty()
    } else {
        seq![
            SendEvent::SinkReady(Poll::Ready(Ok(()))),
            SendEvent::Produced(Ok(sizes[0])),
            SendEvent::Queued(Ok(sizes[0])),
        ] + ready_rounds(sizes.drop_first())
    }
}

/// The sum of the sizes.
pub open spec fn total_size(sizes: Seq<usize>) -> int
    decreases sizes.len(),
{
    if sizes.len() == 0 {
        0
    } else {
        sizes[0] + total_size(sizes.drop_first())
    }
}

/// A call of the send loop on a ready sink whose connection produces
/// datagrams of the given sizes and then reports `Done`, and whose flush then
/// completes: it is entered, hands over every datagram, flushes, and ends.
pub open spec fn ready_call(sizes: Seq<usize>) -> Seq<SendEvent> {
    seq![SendEvent::Entered] + ready_rounds(sizes) + seq![
        SendEvent::SinkReady(Poll::Ready(Ok(()))),
        SendEvent::Produced(Err(QuicheError::Done)),
        SendEvent::Flushed(Poll::Ready(Ok(()))),
    ]
}

proof fn lemma_ready_rounds(sizes: Seq<usize>, queued: usize, tail: Seq<SendEvent>)
    requires
        queued + total_size(sizes) <= usize::MAX,
    ensures
        send_run(
            SendStep {
                progress: SendProgress { state: SendState::Send, drained: false, queued },
                action: SendAction::PollReady,
            },
            ready_rounds(sizes) + tail,
        ) == send_run(
            SendStep {
                progress: SendProgress {
                    state: SendState::Send,
                    drained: false,
                    queued: (queued + total_size(sizes)) as usize,
                },
                action: SendAction::PollReady,
            },
            tail,
        ),
    decreases sizes.len(),
{
    if sizes.len() == 0 {
        assert(ready_rounds(sizes) + tail =~= tail);
    } else {
        let rest = sizes.drop_first();
        let s0 = SendStep {
            progress: SendProgress { state: SendState::Send, drained: false, queued },
            action: SendAction::PollReady,
        };
        let events = ready_rounds(sizes) + tail;
        let e1 = events.drop_first();
        let e2 = e1.drop_first();
        let e3 = e2.drop_first();
        assert(e3 =~= ready_rounds(rest) + tail);
        assert(events[0] == SendEvent::SinkReady(Poll::Ready(Ok(()))));
        assert(e1[0] == SendEvent::Produced(Ok(sizes[0])));
        assert(e2[0] == SendEvent::Queued(Ok(sizes[0])));
        lemma_total_nonnegative(rest);
        let q1 = (queued + sizes[0]) as usize;
        assert(add_queued(queued, sizes[0]) == q1);
        let s3 = SendStep {
            progress: SendProgress { state: SendState::Send, drained: false, queued: q1 },
            action: SendAction::PollReady,
        };
        let s1 = send_transition(s0.progress, events[0]);
        let s2 = send_transition(s1.progress, e1[0]);
        assert(send_run(s0, events) == send_run(s1, e1));
        assert(send_run(s1, e1) == send_run(s2, e2));
        assert(send_transition(s2.progress, e2[0]) == s3);
        assert(send_run(s2, e2) == send_run(s3, e3));
        lemma_ready_rounds(rest, q1, tail);
    }
}

proof fn lemma_total_nonnegative(sizes: Seq<usize>)
    ensures
        total_size(sizes) >= 0,
    decreases sizes.len(),
{
    if sizes.len() > 0 {
        lemma_total_nonnegative(sizes.drop_first());
    }
}

/// "Send as much as we can": on a ready sink, a call of the send loop hands
/// every datagram the connection produces to the sink, and once the
/// connection reports `Done` and the flush completes, it ends with the total
/// number of bytes handed over.
pub proof fn lemma_send_ready_call_returns_total(sizes: Seq<usize>, before: SendStep)
    requires
        total_size(sizes) <= usize::MAX,
        before.progress.state == SendState::Send,
        !(before.action is Return),
    ensures
        send_run(before, ready_call(sizes)).action == SendAction::Return(
            Poll::Ready(Ok(total_size(sizes) as usize)),
        ),
{
    lemma_total_nonnegative(sizes);
    let tail = seq![
        SendEvent::SinkReady(Poll::Ready(Ok(()))),
        SendEvent::Produced(Err(QuicheError::Done)),
        SendEvent::Flushed(Poll::Ready(Ok(()))),
    ];
    let events = ready_call(sizes);
    let start = SendStep {
        progress: SendProgress { state: SendState::Send, drained: false, queued: 0 },
        action: SendAction::PollReady,
    };
    assert(events.drop_first() =~= ready_rounds(sizes) + tail);
    assert(send_transition(before.progress, events[0]) == start);
    assert(send_run(before, events) == send_run(start, ready_rounds(sizes) + tail));
    lemma_ready_rounds(sizes, 0, tail);
    let total = total_size(sizes) as usize;
    let s0 = SendStep {
        progress: SendProgress { state: SendState::Send, drained: false, queued: total },
        action: SendAction::PollReady,
    };
    let t1 = tail.drop_first();
    let t2 = t1.drop_first();
    let t3 = t2.drop_first();
    assert(t3.len() == 0);
    let s1 = send_transition(s0.progress, tail[0]);
    let s2 = send_transition(s1.progress, t1[0]);
    let s3 = send_transition(s2.progress, t2[0]);
    assert(s3.action == SendAction::Return(Poll::Ready(Ok(total))));
    assert(send_run(s0, tail) == send_run(s1, t1));
    assert(send_run(s1, t1) == send_run(s2, t2));
    assert(send_run(s2, t2) == send_run(s3, t3));
}

/// The events that can answer an action of the receive loop.
pub open spec fn recv_answers(action: RecvAction, event: RecvEvent) -> bool {
    match action {
        RecvAction::PollStream => event is Polled,
        RecvAction::Process => event is Processed,
        RecvAction::Return(_) => false,
    }
}

/// Every event of the run answers the action asked for before it.
pub open spec fn recv_run_expected(s: RecvStep, events: Seq<RecvEvent>) -> bool
    decreases events.len(),
{
    events.len() == 0 || s.action is Return || (recv_answers(s.action, events[0])
        && recv_run_expected(recv_transition(s.received_any, events[0]), events.drop_first()))
}

/// A call of the receive loop answers `Ok(false)` only when its very first
/// poll of the stream found nothing: once a datagram has been taken, the
/// call ends with `Ok(true)` or an error.
pub proof fn lemma_recv_false_only_when_first_poll_pending(events: Seq<RecvEvent>)
    requires
        no_stream_end(events),
        recv_run_expected(recv_start(), events),
    ensures
        recv_run(recv_start(), events).action == RecvAction::Return(Ok(false)) ==> events.len() > 0
            && events[0] == RecvEvent::Polled(Poll::Pending),
{
    if events.len() == 0 {
        return;
    }
    let s0 = recv_start();
    let s1 = recv_transition(s0.received_any, events[0]);
    let rest1 = events.drop_first();
    if s1.action is Return {
        assert(recv_run(s0, events) == recv_run(s1, rest1));
        assert(recv_run(s1, rest1) == s1);
        return;
    }
    // The first poll delivered a datagram: the loop asks to process it.
    assert(s1.action == RecvAction::Process && !s1.received_any);
    if rest1.len() == 0 {
        assert(recv_run(s0, events) == recv_run(s1, rest1));
        return;
    }
    assert(recv_run_expected(s1, rest1));
    assert(recv_answers(s1.action, rest1[0]));
    let s2 = recv_transition(s1.received_any, rest1[0]);
    let rest2 = rest1.drop_first();
    assert(recv_run(s0, events) == recv_run(s1, rest1));
    assert(recv_run(s1, rest1) == recv_run(s2, rest2));
    if s2.action is Return {
        assert(recv_run(s2, rest2) == s2);
    } else {
        assert(s2.received_any);
        assert forall|i: int| 0 <= i < rest2.len() implies rest2[i] != RecvEvent::Polled(
            Poll::Ready(None),
        ) by {
            assert(rest2[i] == events[i + 2]);
        }
        lemma_recv_run_answer(rest2, s2);
    }
}

/// A call of the receive loop starts having received nothing, by polling the
/// stream.
pub proof fn lemma_recv_starts_by_polling()
    ensures
        recv_start() == (RecvStep { received_any: false, action: RecvAction::PollStream }),
{
}

/// Each poll of the datagram stream is answered in the same way whatever was
/// received before it: a datagram is processed next, nothing ready ends the
/// call with whether a datagram was processed earlier in it, and an error of
/// the socket ends the call with that error. A datagram the connection
/// accepts is counted as received, and an error of the connection ends the
/// call with that error.
pub proof fn lemma_recv_each_event(
    received_any: bool,
    kind: IoErrorKind,
    n: usize,
    e: QuicheError,
)
    ensures
        recv_transition(received_any, RecvEvent::Polled(Poll::Ready(Some(Err(kind))))) == (RecvStep {
            received_any,
            action: RecvAction::Return(Err(QuicError::IoError(kind))),
        }),
        recv_transition(received_any, RecvEvent::Polled(Poll::Ready(Some(Ok(()))))) == (RecvStep {
            received_any,
            action: RecvAction::Process,
        }),
        recv_transition(received_any, RecvEvent::Polled(Poll::Pending)) == (RecvStep {
            received_any,
            action: RecvAction::Return(Ok(received_any)),
        }),
        recv_transition(received_any, RecvEvent::Processed(Ok(n))) == (RecvStep {
            received_any: true,
            action: RecvAction::PollStream,
        }),
        recv_transition(received_any, RecvEvent::Processed(Err(e))) == (RecvStep {
            received_any,
            action: RecvAction::Return(Err(QuicError::QuicError(e))),
        }),
{
}

/// The datagram that the send loop hands to the sink is exactly the one the
/// connection wrote: after the connection reports `size` bytes, the loop asks
/// to queue `size` bytes, and nothing else changes. Once the sink took those
/// bytes, the count grows by exactly that many (saturating at `usize::MAX`)
/// and the loop polls the sink again.
pub proof fn lemma_send_queues_what_was_produced(p: SendProgress, size: usize)
    ensures
        send_transition(p, SendEvent::Produced(Ok(size))) == (SendStep {
            progress: p,
            action: SendAction::Queue { size },
        }),
        send_transition(p, SendEvent::Queued(Ok(size))).action == SendAction::PollReady,
        send_transition(p, SendEvent::Queued(Ok(size))).progress.state == p.state,
        send_transition(p, SendEvent::Queued(Ok(size))).progress.drained == p.drained,
        p.queued + size <= usize::MAX ==> send_transition(p, SendEvent::Queued(Ok(size))).progress.queued
            == p.queued + size,
        p.queued + size > usize::MAX ==> send_transition(p, SendEvent::Queued(Ok(size))).progress.queued
            == usize::MAX,
{
}

/// A ready sink leads the send loop to ask the connection for a datagram, with
/// `RESERVE_SIZE` bytes reserved; a sink that is not ready leads it to flush;
/// entering the loop starts a fresh count and resumes where the last call
/// left off.
pub proof fn lemma_send_ready_and_entry(p: SendProgress)
    ensures
        send_transition(p, SendEvent::SinkReady(Poll::Ready(Ok(())))) == (SendStep {
            progress: p,
            action: SendAction::Produce { reserve: RESERVE_SIZE },
        }),
        send_transition(p, SendEvent::SinkReady(Poll::Pending)) == (SendStep {
            progress: SendProgress { state: SendState::Flush, drained: p.drained, queued: p.queued },
            action: SendAction::PollFlush,
        }),
        send_transition(p, SendEvent::Entered).progress == (SendProgress {
            state: p.state,
            drained: false,
            queued: 0,
        }),
        p.state == SendState::Send ==> send_transition(p, SendEvent::Entered).action
            == SendAction::PollReady,
        p.state == SendState::Flush ==> send_transition(p, SendEvent::Entered).action
            == SendAction::PollFlush,
        !p.drained ==> send_transition(p, SendEvent::Flushed(Poll::Ready(Ok(())))) == (SendStep {
            progress: SendProgress { state: SendState::Send, drained: false, queued: p.queued },
            action: SendAction::PollReady,
        }),
        send_transition(p, SendEvent::Flushed(Poll::Pending)) == (SendStep {
            progress: p,
            action: SendAction::Return(Poll::Pending),
        }),
{
}

} // verus!
