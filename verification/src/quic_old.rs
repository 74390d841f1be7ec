//! The earlier QUIC connection driver, which reads the socket directly and
//! sends one datagram at a time: the decisions of its loops.
use vstd::prelude::*;
pub use crate::quic::QuicError;
use crate::quic::{IoErrorKind, Poll, QuicheError};

verus! {

// ---------------------------------------------------------------------------
// poll_recv: one poll of the socket; a received datagram is fed to the
// connection once.
// ---------------------------------------------------------------------------

/// What `poll_recv` learns after each action it asked for.
#[derive(PartialEq, Eq, Clone, Copy, Debug)]
pub enum PollRecvEvent {
    /// The socket was polled for a datagram: the number of bytes received.
    Polled(Poll<Result<usize, IoErrorKind>>),
    /// The received bytes were fed to the connection.
    Processed(Result<usize, QuicheError>),
}

/// What `poll_recv` asks of its caller.
#[derive(PartialEq, Eq, Clone, Copy, Debug)]
pub enum PollRecvAction {
    /// Feed the first `amount` bytes of the receive buffer to the connection.
    Process { amount: usize },
    /// End the call with this answer.
    Return(Result<bool, QuicError>),
}

/// The state of `poll_recv` after a step: the number of bytes received, with
/// the action to perform.
#[derive(PartialEq, Eq, Clone, Copy, Debug)]
pub struct PollRecvStep {
    pub amount: usize,
    pub action: PollRecvAction,
}

/// One step of `poll_recv`: nothing ready answers `Ok(false)`; a received
/// datagram is fed to the connection once, and then the answer is `Ok(true)`;
/// an error of the socket or of the connection ends the call with it.
pub open spec fn poll_recv_transition(amount: usize, event: PollRecvEvent) -> PollRecvStep {
    match event {
        PollRecvEvent::Polled(Poll::Ready(Ok(n))) => PollRecvStep {
            amount: n,
            action: PollRecvAction::Process { amount: n },
        },
        PollRecvEvent::Polled(Poll::Ready(Err(kind))) => PollRecvStep {
            amount,
            action: PollRecvAction::Return(Err(QuicError::IoError(kind))),
        },
        PollRecvEvent::Polled(Poll::Pending) => PollRecvStep {
            amount,
            action: PollRecvAction::Return(Ok(false)),
        },
        PollRecvEvent::Processed(Ok(_)) => PollRecvStep {
            amount,
            action: PollRecvAction::Return(Ok(true)),
        },
        PollRecvEvent::Processed(Err(e)) => PollRecvStep {
            amount,
            action: PollRecvAction::Return(Err(QuicError::QuicError(e))),
        },
    }
}

/// Decides the next step of `poll_recv`.
pub fn poll_recv_step(amount: usize, event: PollRecvEvent) -> (r: PollRecvStep)
    ensures
        r == poll_recv_transition(amount, event),
{
    match event {
        PollRecvEvent::Polled(Poll::Ready(Ok(n))) => PollRecvStep {
            amount: n,
            action: PollRecvAction::Process { amount: n },
        },
        PollRecvEvent::Polled(Poll::Ready(Err(kind))) => PollRecvStep {
            amount,
            action: PollRecvAction::Return(Err(QuicError::IoError(kind))),
        },
        PollRecvEvent::Polled(Poll::Pending) => PollRecvStep {
            amount,
            action: PollRecvAction::Return(Ok(false)),
        },
        PollRecvEvent::Processed(Ok(_)) => PollRecvStep {
            amount,
            action: PollRecvAction::Return(Ok(true)),
        },
        PollRecvEvent::Processed(Err(e)) => PollRecvStep {
            amount,
            action: PollRecvAction::Return(Err(QuicError::QuicError(e))),
        },
    }
}

// ---------------------------------------------------------------------------
// recv_loop: read datagrams without waiting until the socket would block.
// ---------------------------------------------------------------------------

/// What `recv_loop` learns after each action it asked for.
#[derive(PartialEq, Eq, Clone, Copy, Debug)]
pub enum RecvLoopEvent {
    /// The socket was read without waiting: the number of bytes received.
    Received(Result<usize, IoErrorKind>),
    /// The received bytes were fed to the connection.
    Processed(Result<usize, QuicheError>),
}

/// What `recv_loop` asks of its caller.
#[derive(PartialEq, Eq, Clone, Copy, Debug)]
pub enum RecvLoopAction {
    /// Read the socket without waiting.
    TryRecv,
    /// Feed the first `amount` bytes of the receive buffer to the connection.
    Process { amount: usize },
    /// End the call with this answer.
    Return(Result<(), QuicError>),
}

/// One step of `recv_loop`.
pub open spec fn recv_loop_transition(event: RecvLoopEvent) -> RecvLoopAction {
    match event {
        RecvLoopEvent::Received(Ok(amount)) => RecvLoopAction::Process { amount },
        RecvLoopEvent::Received(Err(IoErrorKind::WouldBlock)) => RecvLoopAction::Return(Ok(())),
        RecvLoopEvent::Received(Err(kind)) => RecvLoopAction::Return(
            Err(QuicError::IoError(kind)),
        ),
        RecvLoopEvent::Processed(Ok(_)) => RecvLoopAction::TryRecv,
        RecvLoopEvent::Processed(Err(e)) => RecvLoopAction::Return(Err(QuicError::QuicError(e))),
    }
}

/// Decides the next step of `recv_loop`; the loop starts with `TryRecv`.
pub fn recv_loop_step(event: RecvLoopEvent) -> (r: RecvLoopAction)
    ensures
        r == recv_loop_transition(event),
{
    match event {
        RecvLoopEvent::Received(Ok(amount)) => RecvLoopAction::Process { amount },
        RecvLoopEvent::Received(Err(IoErrorKind::WouldBlock)) => RecvLoopAction::Return(Ok(())),
        RecvLoopEvent::Received(Err(kind)) => RecvLoopAction::Return(
            Err(QuicError::IoError(kind)),
        ),
        RecvLoopEvent::Processed(Ok(_)) => RecvLoopAction::TryRecv,
        RecvLoopEvent::Processed(Err(e)) => RecvLoopAction::Return(Err(QuicError::QuicError(e))),
    }
}

// ---------------------------------------------------------------------------
// send: produce one datagram and transmit it, possibly in several writes; a
// datagram whose transmission was interrupted is resumed on the next call.
// ---------------------------------------------------------------------------

/// The part of the send buffer, `start..end`, still to be transmitted.
#[derive(PartialEq, Eq, Structural, Clone, Copy, Debug)]
pub struct PendingDatagram {
    pub start: usize,
    pub end: usize,
}

/// What `send` learns after each action it asked for.
#[derive(PartialEq, Eq, Clone, Copy, Debug)]
pub enum PacketEvent {
    /// `send` was entered.
    Entered,
    /// The connection wrote its next datagram at the start of the send
    /// buffer: its size (its target is kept by the caller).
    Produced(Result<usize, QuicheError>),
    /// Bytes were written to the socket: how many.
    Transmitted(Result<usize, IoErrorKind>),
}

/// What `send` asks of its caller.
#[derive(PartialEq, Eq, Clone, Copy, Debug)]
pub enum PacketAction {
    /// Ask the connection for its next datagram.
    Produce,
    /// Write the bytes `start..end` of the send buffer to the datagram's target.
    Transmit { start: usize, end: usize },
    /// End the call with this answer.
    Return(Result<(), QuicError>),
}

/// The state of `send` after a step, with the action to perform.
#[derive(PartialEq, Eq, Clone, Copy, Debug)]
pub struct PacketStep {
    pub to_send: Option<PendingDatagram>,
    pub action: PacketAction,
}

/// Continue with the datagram `p`: transmit what is left of it, or release it
/// once nothing is.
pub open spec fn continue_datagram(p: PendingDatagram) -> PacketStep {
    if p.start < p.end {
        PacketStep {
            to_send: Some(p),
            action: PacketAction::Transmit { start: p.start, end: p.end },
        }
    } else {
        PacketStep { to_send: None, action: PacketAction::Return(Ok(())) }
    }
}

/// The events that `send` can receive in a state: a datagram is produced only
/// when none is pending, and a write reports at most the bytes it was given.
pub open spec fn packet_event_expected(to_send: Option<PendingDatagram>, event: PacketEvent) -> bool {
    &&& (to_send matches Some(p) ==> p.start <= p.end)
    &&& match event {
        PacketEvent::Entered => true,
        PacketEvent::Produced(_) => to_send is None,
        PacketEvent::Transmitted(Ok(n)) => to_send matches Some(p) && n <= p.end - p.start,
        PacketEvent::Transmitted(Err(_)) => to_send is Some,
    }
}

/// One step of `send`.
pub open spec fn packet_transition(to_send: Option<PendingDatagram>, event: PacketEvent) -> PacketStep {
    match event {
        PacketEvent::Entered => match to_send {
            None => PacketStep { to_send, action: PacketAction::Produce },
            Some(p) => continue_datagram(p),
        },
        PacketEvent::Produced(Ok(written)) => continue_datagram(
            PendingDatagram { start: 0, end: written },
        ),
        PacketEvent::Produced(Err(e)) => PacketStep {
            to_send,
            action: PacketAction::Return(Err(QuicError::QuicError(e))),
        },
        PacketEvent::Transmitted(Ok(sent)) => match to_send {
            Some(p) => continue_datagram(
                PendingDatagram { start: (p.start + sent) as usize, end: p.end },
            ),
            None => PacketStep { to_send, action: PacketAction::Return(Ok(())) },
        },
        PacketEvent::Transmitted(Err(kind)) => PacketStep {
            to_send,
            action: PacketAction::Return(Err(QuicError::IoError(kind))),
        },
    }
}

fn continue_with(p: PendingDatagram) -> (r: PacketStep)
    ensures
        r == continue_datagram(p),
{
    if p.start < p.end {
        PacketStep {
            to_send: Some(p),
            action: PacketAction::Transmit { start: p.start, end: p.end },
        }
    } else {
        PacketStep { to_send: None, action: PacketAction::Return(Ok(())) }
    }
}

/// Decides the next step of `send`.
pub fn packet_step(to_send: Option<PendingDatagram>, event: PacketEvent) -> (r: PacketStep)
    requires
        packet_event_expected(to_send, event),
    ensures
        r == packet_transition(to_send, event),
{
    match event {
        PacketEvent::Entered => match to_send {
            None => PacketStep { to_send, action: PacketAction::Produce },
            Some(p) => continue_with(p),
        },
        PacketEvent::Produced(Ok(written)) => continue_with(
            PendingDatagram { start: 0, end: written },
        ),
        PacketEvent::Produced(Err(e)) => PacketStep {
            to_send,
            action: PacketAction::Return(Err(QuicError::QuicError(e))),
        },
        PacketEvent::Transmitted(Ok(sent)) => match to_send {
            Some(p) => continue_with(PendingDatagram { start: p.start + sent, end: p.end }),
            None => PacketStep { to_send, action: PacketAction::Return(Ok(())) },
        },
        PacketEvent::Transmitted(Err(kind)) => PacketStep {
            to_send,
            action: PacketAction::Return(Err(QuicError::IoError(kind))),
        },
    }
}

// ---------------------------------------------------------------------------
// send_all: send datagrams until the connection has none left.
// ---------------------------------------------------------------------------

/// What `send_all` asks of its caller.
#[derive(PartialEq, Eq, Clone, Copy, Debug)]
pub enum SendAllAction {
    /// Send one more datagram.
    SendPacket,
    /// End the call with this answer.
    Return(Result<(), QuicError>),
}

/// One step of `send_all`, given the outcome of sending one datagram.
pub open spec fn send_all_transition(sent: Result<(), QuicError>) -> SendAllAction {
    match sent {
        Ok(()) => SendAllAction::SendPacket,
        Err(QuicError::QuicError(QuicheError::Done)) => SendAllAction::Return(Ok(())),
        Err(e) => SendAllAction::Return(Err(e)),
    }
}

/// Decides the next step of `send_all`; it starts by sending a datagram.
pub fn send_all_step(sent: Result<(), QuicError>) -> (r: SendAllAction)
    ensures
        r == send_all_transition(sent),
{
    match sent {
        Ok(()) => SendAllAction::SendPacket,
        Err(e) => {
            if e.is_done() {
                SendAllAction::Return(Ok(()))
            } else {
                SendAllAction::Return(Err(e))
            }
        },
    }
}

// ---------------------------------------------------------------------------
// Laws of the loops.
// ---------------------------------------------------------------------------

/// `poll_recv` answers `Ok(true)` exactly when a received datagram was
/// processed, and `Ok(false)` exactly when the socket had nothing; it feeds
/// the connection only the bytes just received, once.
pub proof fn lemma_poll_recv_answers(amount: usize, event: PollRecvEvent)
    ensures
        poll_recv_transition(amount, event).action == PollRecvAction::Return(Ok(true))
            <==> event matches PollRecvEvent::Processed(Ok(_)),
        poll_recv_transition(amount, event).action == PollRecvAction::Return(Ok(false))
            <==> event == PollRecvEvent::Polled(Poll::Pending),
        poll_recv_transition(amount, event).action matches PollRecvAction::Process { amount: n }
            ==> event == PollRecvEvent::Polled(Poll::Ready(Ok(n))) && poll_recv_transition(
            amount,
            event,
        ).amount == n,
{
}

/// `recv_loop` succeeds exactly when the socket would block, and every other
/// error of the socket or of the connection ends it with that error.
pub proof fn lemma_recv_loop_ok_iff_would_block(event: RecvLoopEvent)
    ensures
        recv_loop_transition(event) == RecvLoopAction::Return(Ok(()))
            <==> event == RecvLoopEvent::Received(Err(IoErrorKind::WouldBlock)),
        recv_loop_transition(event) matches RecvLoopAction::Return(Err(e)) ==> {
            ||| (event matches RecvLoopEvent::Received(Err(kind)) && e == QuicError::IoError(kind)
                && kind != IoErrorKind::WouldBlock)
            ||| (event matches RecvLoopEvent::Processed(Err(q)) && e == QuicError::QuicError(q))
        },
{
}

/// `send_all` succeeds exactly when sending a datagram reported `Done`, and
/// ends with any other error unchanged.
pub proof fn lemma_send_all_ok_iff_done(sent: Result<(), QuicError>)
    ensures
        send_all_transition(sent) == SendAllAction::Return(Ok(()))
            <==> sent == Err::<(), QuicError>(QuicError::QuicError(QuicheError::Done)),
        send_all_transition(sent) matches SendAllAction::Return(Err(e)) ==> sent == Err::<
            (),
            QuicError,
        >(e) && e != QuicError::QuicError(QuicheError::Done),
        send_all_transition(sent) == SendAllAction::SendPacket <==> sent is Ok,
{
}

/// The bytes reported written by an event.
pub open spec fn bytes_sent(event: PacketEvent) -> int {
    match event {
        PacketEvent::Transmitted(Ok(n)) => n as int,
        _ => 0,
    }
}

/// `send` run over a sequence of events from the step `s`, until it returns or
/// the events run out, with the number of bytes written meanwhile.
pub open spec fn packet_run(s: PacketStep, events: Seq<PacketEvent>) -> (PacketStep, int)
    decreases events.len(),
{
    if events.len() == 0 || s.action is Return {
        (s, 0)
    } else {
        let next = packet_transition(s.to_send, events[0]);
        let rest = packet_run(next, events.drop_first());
        (rest.0, rest.1 + bytes_sent(events[0]))
    }
}

/// Every event of the run is one that its state expects.
pub open spec fn packet_run_expected(s: PacketStep, events: Seq<PacketEvent>) -> bool
    decreases events.len(),
{
    events.len() == 0 || s.action is Return || (packet_event_expected(s.to_send, events[0])
        && packet_run_expected(packet_transition(s.to_send, events[0]), events.drop_first()))
}

/// The step of `send` keeps a pending datagram's range well formed.
pub open spec fn packet_step_wf(s: PacketStep) -> bool {
    &&& (s.to_send matches Some(p) ==> p.start <= p.end)
    &&& (s.action matches PacketAction::Transmit { start, end } ==> s.to_send == Some(
        PendingDatagram { start, end },
    ) && start < end)
}

/// While a datagram is being transmitted, `send` keeps count of its progress:
/// it answers `Ok(())` only once the bytes written cover the whole rest of the
/// datagram, and when a write fails the datagram stays pending with exactly
/// the bytes written so far accounted for, so that the next call resumes there.
pub proof fn lemma_packet_progress(s: PacketStep, events: Seq<PacketEvent>)
    requires
        packet_step_wf(s),
        s.action is Transmit,
        packet_run_expected(s, events),
    ensures
        ({
            let (fin, sent) = packet_run(s, events);
            let p = s.to_send->Some_0;
            &&& fin.action == PacketAction::Return(Ok(())) ==> fin.to_send is None && p.start
                + sent == p.end
            &&& fin.action matches PacketAction::Return(Err(_)) ==> fin.to_send == Some(
                PendingDatagram { start: (p.start + sent) as usize, end: p.end },
            )
            &&& fin.action is Transmit ==> fin.to_send == Some(
                PendingDatagram { start: (p.start + sent) as usize, end: p.end },
            )
            &&& p.start + sent <= p.end
        }),
    decreases events.len(),
{
    if events.len() == 0 || s.action is Return {
    } else {
        let p = s.to_send->Some_0;
        let e = events[0];
        let next = packet_transition(s.to_send, e);
        match e {
            PacketEvent::Transmitted(Ok(n)) => {
                if p.start + n < p.end {
                    lemma_packet_progress(next, events.drop_first());
                } else {
                    assert(packet_run(next, events.drop_first()) == (next, 0int));
                }
            },
            PacketEvent::Transmitted(Err(_)) => {
                assert(packet_run(next, events.drop_first()) == (next, 0int));
            },
            PacketEvent::Entered => {
                lemma_packet_progress(next, events.drop_first());
            },
            PacketEvent::Produced(_) => {},
        }
    }
}

/// A call of `send` with no datagram pending, whose connection produces a
/// datagram of `written` bytes, answers `Ok(())` only once exactly `written`
/// bytes were written to the socket.
pub proof fn lemma_packet_sends_whole_datagram(written: usize, events: Seq<PacketEvent>)
    requires
        packet_run_expected(
            packet_transition(None, PacketEvent::Produced(Ok(written))),
            events,
        ),
    ensures
        ({
            let (fin, sent) = packet_run(
                packet_transition(None, PacketEvent::Produced(Ok(written))),
                events,
            );
            fin.action == PacketAction::Return(Ok(())) ==> sent == written
        }),
{
    let s = packet_transition(None, PacketEvent::Produced(Ok(written)));
    if written > 0 {
        lemma_packet_progress(s, events);
    } else {
        assert(packet_run(s, events) == (s, 0int));
    }
}

/// `recv_loop` feeds the connection exactly the bytes the socket delivered,
/// reads again after the connection accepted them, and ends on any error.
pub proof fn lemma_recv_loop_each_event(
    amount: usize,
    n: usize,
    kind: IoErrorKind,
    e: QuicheError,
)
    ensures
        recv_loop_transition(RecvLoopEvent::Received(Ok(amount))) == (RecvLoopAction::Process {
            amount,
        }),
        recv_loop_transition(RecvLoopEvent::Processed(Ok(n))) == RecvLoopAction::TryRecv,
        kind != IoErrorKind::WouldBlock ==> recv_loop_transition(
            RecvLoopEvent::Received(Err(kind)),
        ) == RecvLoopAction::Return(Err(QuicError::IoError(kind))),
        recv_loop_transition(RecvLoopEvent::Processed(Err(e))) == RecvLoopAction::Return(
            Err(QuicError::QuicError(e)),
        ),
{
}

/// `poll_recv` feeds the connection exactly the bytes the socket delivered,
/// and ends on any error with that error.
pub proof fn lemma_poll_recv_each_event(
    amount: usize,
    n: usize,
    kind: IoErrorKind,
    e: QuicheError,
)
    ensures
        poll_recv_transition(amount, PollRecvEvent::Polled(Poll::Ready(Ok(n)))) == (PollRecvStep {
            amount: n,
            action: PollRecvAction::Process { amount: n },
        }),
        poll_recv_transition(amount, PollRecvEvent::Polled(Poll::Ready(Err(kind)))).action
            == PollRecvAction::Return(Err(QuicError::IoError(kind))),
        poll_recv_transition(amount, PollRecvEvent::Processed(Err(e))).action
            == PollRecvAction::Return(Err(QuicError::QuicError(e))),
{
}

/// `send` transmits a produced datagram from its first byte to its last, moves
/// past exactly the bytes each write reports, releases the datagram once
/// nothing is left, and keeps it pending when a write fails.
pub proof fn lemma_packet_each_event(
    p: PendingDatagram,
    written: usize,
    sent: usize,
    kind: IoErrorKind,
    e: QuicheError,
)
    requires
        p.start <= p.end,
        sent <= p.end - p.start,
    ensures
        written > 0 ==> packet_transition(None, PacketEvent::Produced(Ok(written))) == (PacketStep {
            to_send: Some(PendingDatagram { start: 0, end: written }),
            action: PacketAction::Transmit { start: 0, end: written },
        }),
        packet_transition(None, PacketEvent::Produced(Ok(0))) == (PacketStep {
            to_send: None,
            action: PacketAction::Return(Ok(())),
        }),
        packet_transition(None, PacketEvent::Produced(Err(e))) == (PacketStep {
            to_send: None,
            action: PacketAction::Return(Err(QuicError::QuicError(e))),
        }),
        p.start + sent < p.end ==> packet_transition(Some(p), PacketEvent::Transmitted(Ok(sent)))
            == (PacketStep {
            to_send: Some(PendingDatagram { start: (p.start + sent) as usize, end: p.end }),
            action: PacketAction::Transmit { start: (p.start + sent) as usize, end: p.end },
        }),
        p.start + sent == p.end ==> packet_transition(Some(p), PacketEvent::Transmitted(Ok(sent)))
            == (PacketStep { to_send: None, action: PacketAction::Return(Ok(())) }),
        packet_transition(Some(p), PacketEvent::Transmitted(Err(kind))) == (PacketStep {
            to_send: Some(p),
            action: PacketAction::Return(Err(QuicError::IoError(kind))),
        }),
        packet_transition(None, PacketEvent::Entered).action == PacketAction::Produce,
        p.start < p.end ==> packet_transition(Some(p), PacketEvent::Entered).action
            == (PacketAction::Transmit { start: p.start, end: p.end }),
{
}

} // verus!
