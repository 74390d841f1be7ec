use cloud_mirror::quic::{IoErrorKind, Poll, QuicError, QuicheError};
use cloud_mirror::quic_old::{
    packet_step, poll_recv_step, recv_loop_step, send_all_step, PacketAction, PacketEvent,
    PendingDatagram, PollRecvAction, PollRecvEvent, RecvLoopAction, RecvLoopEvent, SendAllAction,
};

#[test]
fn poll_recv_pending_is_false() {
    let s = poll_recv_step(0, PollRecvEvent::Polled(Poll::Pending));
    assert_eq!(s.action, PollRecvAction::Return(Ok(false)));
}

#[test]
fn poll_recv_processes_datagram_once_then_true() {
    let s = poll_recv_step(0, PollRecvEvent::Polled(Poll::Ready(Ok(300))));
    assert_eq!(s.action, PollRecvAction::Process { amount: 300 });
    assert_eq!(s.amount, 300);
    let s = poll_recv_step(s.amount, PollRecvEvent::Processed(Ok(300)));
    assert_eq!(s.action, PollRecvAction::Return(Ok(true)));
}

#[test]
fn poll_recv_errors_end_the_call() {
    let s = poll_recv_step(300, PollRecvEvent::Processed(Err(QuicheError::InvalidPacket)));
    assert_eq!(s.action, PollRecvAction::Return(Err(QuicError::QuicError(QuicheError::InvalidPacket))));
    let s = poll_recv_step(0, PollRecvEvent::Polled(Poll::Ready(Err(IoErrorKind::Interrupted))));
    assert_eq!(s.action, PollRecvAction::Return(Err(QuicError::IoError(IoErrorKind::Interrupted))));
}

#[test]
fn recv_loop_stops_at_would_block() {
    assert_eq!(recv_loop_step(RecvLoopEvent::Received(Ok(12))), RecvLoopAction::Process { amount: 12 });
    assert_eq!(recv_loop_step(RecvLoopEvent::Processed(Ok(12))), RecvLoopAction::TryRecv);
    assert_eq!(
        recv_loop_step(RecvLoopEvent::Received(Err(IoErrorKind::WouldBlock))),
        RecvLoopAction::Return(Ok(()))
    );
    assert_eq!(
        recv_loop_step(RecvLoopEvent::Received(Err(IoErrorKind::TimedOut))),
        RecvLoopAction::Return(Err(QuicError::IoError(IoErrorKind::TimedOut)))
    );
    assert_eq!(
        recv_loop_step(RecvLoopEvent::Processed(Err(QuicheError::InvalidState))),
        RecvLoopAction::Return(Err(QuicError::QuicError(QuicheError::InvalidState)))
    );
}

#[test]
fn packet_transmitted_in_pieces() {
    let s = packet_step(None, PacketEvent::Entered);
    assert_eq!(s.action, PacketAction::Produce);
    let s = packet_step(s.to_send, PacketEvent::Produced(Ok(100)));
    assert_eq!(s.action, PacketAction::Transmit { start: 0, end: 100 });
    let s = packet_step(s.to_send, PacketEvent::Transmitted(Ok(60)));
    assert_eq!(s.action, PacketAction::Transmit { start: 60, end: 100 });
    let s = packet_step(s.to_send, PacketEvent::Transmitted(Ok(40)));
    assert_eq!(s.action, PacketAction::Return(Ok(())));
    assert_eq!(s.to_send, None);
}

#[test]
fn packet_interrupted_then_resumed() {
    let s = packet_step(None, PacketEvent::Produced(Ok(10)));
    let s = packet_step(s.to_send, PacketEvent::Transmitted(Ok(4)));
    let s = packet_step(s.to_send, PacketEvent::Transmitted(Err(IoErrorKind::Interrupted)));
    assert_eq!(s.action, PacketAction::Return(Err(QuicError::IoError(IoErrorKind::Interrupted))));
    assert_eq!(s.to_send, Some(PendingDatagram { start: 4, end: 10 }));
    let s = packet_step(s.to_send, PacketEvent::Entered);
    assert_eq!(s.action, PacketAction::Transmit { start: 4, end: 10 });
}

#[test]
fn packet_production_errors() {
    let s = packet_step(None, PacketEvent::Produced(Err(QuicheError::Done)));
    assert_eq!(s.action, PacketAction::Return(Err(QuicError::QuicError(QuicheError::Done))));
    assert_eq!(s.to_send, None);
    let s = packet_step(None, PacketEvent::Produced(Ok(0)));
    assert_eq!(s.action, PacketAction::Return(Ok(())));
}

#[test]
fn send_all_until_done() {
    assert_eq!(send_all_step(Ok(())), SendAllAction::SendPacket);
    assert_eq!(
        send_all_step(Err(QuicError::QuicError(QuicheError::Done))),
        SendAllAction::Return(Ok(()))
    );
    assert_eq!(
        send_all_step(Err(QuicError::IoError(IoErrorKind::BrokenPipe))),
        SendAllAction::Return(Err(QuicError::IoError(IoErrorKind::BrokenPipe)))
    );
}
