use cloud_mirror::quic::{
    recv_begin, recv_step, send_step, IoErrorKind, Poll, QuicError, QuicheError, RecvAction,
    RecvEvent, SendAction, SendEvent, SendProgress, SendState, RESERVE_SIZE,
};

#[test]
fn error_predicates() {
    assert!(QuicError::QuicError(QuicheError::Done).is_done());
    assert!(!QuicError::QuicError(QuicheError::InvalidFrame).is_done());
    assert!(!QuicError::IoError(IoErrorKind::WouldBlock).is_done());
    assert!(QuicError::IoError(IoErrorKind::WouldBlock).would_block());
    assert!(!QuicError::IoError(IoErrorKind::TimedOut).would_block());
    assert!(!QuicError::QuicError(QuicheError::Done).would_block());
}

#[test]
fn recv_nothing_waiting_answers_false() {
    let s = recv_begin();
    assert_eq!(s.action, RecvAction::PollStream);
    let s = recv_step(s.received_any, RecvEvent::Polled(Poll::Pending));
    assert_eq!(s.action, RecvAction::Return(Ok(false)));
}

#[test]
fn recv_drains_stream_then_answers_true() {
    let s = recv_begin();
    let s = recv_step(s.received_any, RecvEvent::Polled(Poll::Ready(Some(Ok(())))));
    assert_eq!(s.action, RecvAction::Process);
    let s = recv_step(s.received_any, RecvEvent::Processed(Ok(1200)));
    assert_eq!(s.action, RecvAction::PollStream);
    let s = recv_step(s.received_any, RecvEvent::Polled(Poll::Ready(Some(Ok(())))));
    let s = recv_step(s.received_any, RecvEvent::Processed(Ok(50)));
    let s = recv_step(s.received_any, RecvEvent::Polled(Poll::Pending));
    assert_eq!(s.action, RecvAction::Return(Ok(true)));
}

#[test]
fn recv_errors_end_the_call() {
    let s = recv_step(false, RecvEvent::Polled(Poll::Ready(Some(Err(IoErrorKind::ConnectionReset)))));
    assert_eq!(s.action, RecvAction::Return(Err(QuicError::IoError(IoErrorKind::ConnectionReset))));
    let s = recv_step(true, RecvEvent::Processed(Err(QuicheError::InvalidPacket)));
    assert_eq!(s.action, RecvAction::Return(Err(QuicError::QuicError(QuicheError::InvalidPacket))));
}

fn progress(state: SendState) -> SendProgress {
    SendProgress { state, drained: false, queued: 0 }
}

#[test]
fn send_queues_until_done_then_flushes_and_returns_count() {
    let s = send_step(progress(SendState::Send), SendEvent::Entered);
    assert_eq!(s.action, SendAction::PollReady);
    let s = send_step(s.progress, SendEvent::SinkReady(Poll::Ready(Ok(()))));
    assert_eq!(s.action, SendAction::Produce { reserve: RESERVE_SIZE });
    assert_eq!(RESERVE_SIZE, 1024);
    let s = send_step(s.progress, SendEvent::Produced(Ok(1350)));
    assert_eq!(s.action, SendAction::Queue { size: 1350 });
    let s = send_step(s.progress, SendEvent::Queued(Ok(1350)));
    assert_eq!(s.action, SendAction::PollReady);
    let s = send_step(s.progress, SendEvent::SinkReady(Poll::Ready(Ok(()))));
    let s = send_step(s.progress, SendEvent::Produced(Ok(200)));
    let s = send_step(s.progress, SendEvent::Queued(Ok(200)));
    let s = send_step(s.progress, SendEvent::SinkReady(Poll::Ready(Ok(()))));
    let s = send_step(s.progress, SendEvent::Produced(Err(QuicheError::Done)));
    assert_eq!(s.progress.state, SendState::Flush);
    assert!(s.progress.drained);
    assert_eq!(s.action, SendAction::PollFlush);
    let s = send_step(s.progress, SendEvent::Flushed(Poll::Ready(Ok(()))));
    assert_eq!(s.action, SendAction::Return(Poll::Ready(Ok(1550))));
    assert_eq!(s.progress.state, SendState::Send);
}

#[test]
fn send_flush_before_done_goes_back_to_sending() {
    let s = send_step(progress(SendState::Send), SendEvent::Entered);
    let s = send_step(s.progress, SendEvent::SinkReady(Poll::Pending));
    assert_eq!(s.progress.state, SendState::Flush);
    assert_eq!(s.action, SendAction::PollFlush);
    let s = send_step(s.progress, SendEvent::Flushed(Poll::Ready(Ok(()))));
    assert_eq!(s.progress.state, SendState::Send);
    assert_eq!(s.action, SendAction::PollReady);
}

#[test]
fn send_pending_flush_resumes_by_flushing() {
    let s = send_step(progress(SendState::Send), SendEvent::Entered);
    let s = send_step(s.progress, SendEvent::SinkReady(Poll::Pending));
    let s = send_step(s.progress, SendEvent::Flushed(Poll::Pending));
    assert_eq!(s.action, SendAction::Return(Poll::Pending));
    assert_eq!(s.progress.state, SendState::Flush);
    let s = send_step(s.progress, SendEvent::Entered);
    assert_eq!(s.action, SendAction::PollFlush);
    assert_eq!(s.progress.queued, 0);
}

#[test]
fn send_count_saturates() {
    let p = SendProgress { state: SendState::Send, drained: false, queued: usize::MAX - 1 };
    let s = send_step(p, SendEvent::Queued(Ok(5)));
    assert_eq!(s.progress.queued, usize::MAX);
}

#[test]
fn send_errors_end_the_call() {
    let p = progress(SendState::Send);
    let s = send_step(p, SendEvent::Produced(Err(QuicheError::FlowControl)));
    assert_eq!(
        s.action,
        SendAction::Return(Poll::Ready(Err(QuicError::QuicError(QuicheError::FlowControl))))
    );
    let s = send_step(p, SendEvent::Queued(Err(IoErrorKind::BrokenPipe)));
    assert_eq!(
        s.action,
        SendAction::Return(Poll::Ready(Err(QuicError::IoError(IoErrorKind::BrokenPipe))))
    );
    let s = send_step(progress(SendState::Flush), SendEvent::Flushed(Poll::Ready(Err(IoErrorKind::Other))));
    assert_eq!(s.action, SendAction::Return(Poll::Ready(Err(QuicError::IoError(IoErrorKind::Other)))));
    let s = send_step(p, SendEvent::SinkReady(Poll::Ready(Err(IoErrorKind::NotConnected))));
    assert_eq!(
        s.action,
        SendAction::Return(Poll::Ready(Err(QuicError::IoError(IoErrorKind::NotConnected))))
    );
}

#[test]
fn errors_convert_into_quic_error() {
    assert_eq!(QuicError::from(QuicheError::StreamReset(4)), QuicError::QuicError(QuicheError::StreamReset(4)));
    assert_eq!(QuicError::from(IoErrorKind::WouldBlock), QuicError::IoError(IoErrorKind::WouldBlock));
}
