use ruby_flasher::channel::{
    negative_acknowledgment, wait_for_acknowledgment, Failure, Reply, Request, LONG_LIMIT_SECS,
    SHORT_LIMIT_SECS,
};

#[test]
fn time_limits_are_five_and_sixty_seconds() {
    assert_eq!(SHORT_LIMIT_SECS, 5);
    assert_eq!(LONG_LIMIT_SECS, 60);
}

#[test]
fn data_bearing_requests_get_the_long_limit() {
    assert_eq!(Request::Receive.time_limit(), Some(60));
    assert_eq!(Request::Send { payload: vec![1, 2, 3] }.time_limit(), Some(60));
}

#[test]
fn setup_and_teardown_requests_get_the_short_limit() {
    assert_eq!(Request::Start { command: "ls".to_string() }.time_limit(), Some(5));
    assert_eq!(Request::Eof.time_limit(), Some(5));
    assert_eq!(Request::Drain.time_limit(), Some(5));
    assert_eq!(Request::Close.time_limit(), Some(5));
    assert_eq!(Request::Finish.time_limit(), None);
}

#[test]
fn ack_zero_byte_is_success() {
    assert_eq!(wait_for_acknowledgment(&Reply::Data(vec![0])), Ok(()));
    assert_eq!(wait_for_acknowledgment(&Reply::Data(vec![0, 1, 2])), Ok(()));
}

#[test]
fn ack_one_carries_the_remote_detail() {
    assert_eq!(
        wait_for_acknowledgment(&Reply::Data(b"\x01scp: /tmp: not a regular file\n".to_vec())),
        Err(Failure::RemoteError("scp: /tmp: not a regular file\n".to_string()))
    );
}

#[test]
fn ack_one_without_detail_uses_the_fixed_text() {
    assert_eq!(
        wait_for_acknowledgment(&Reply::Data(vec![1])),
        Err(Failure::RemoteError("Unknown SCP error".to_string()))
    );
}

#[test]
fn ack_one_decodes_the_detail_leniently() {
    assert_eq!(
        wait_for_acknowledgment(&Reply::Data(vec![1, b'a', 0xff, b'b'])),
        Err(Failure::RemoteError("a\u{fffd}b".to_string()))
    );
}

#[test]
fn ack_two_is_fatal() {
    assert_eq!(wait_for_acknowledgment(&Reply::Data(vec![2])), Err(Failure::RemoteFatal));
    assert_eq!(
        wait_for_acknowledgment(&Reply::Data(vec![2, b'x'])),
        Err(Failure::RemoteFatal)
    );
}

#[test]
fn ack_unknown_byte_and_empty_data_fail() {
    assert_eq!(wait_for_acknowledgment(&Reply::Data(vec![7])), Err(Failure::UnknownAck(7)));
    assert_eq!(wait_for_acknowledgment(&Reply::Data(vec![255])), Err(Failure::UnknownAck(255)));
    assert_eq!(wait_for_acknowledgment(&Reply::Data(vec![])), Err(Failure::EmptyAck));
}

#[test]
fn ack_success_signal_and_other_messages_pass() {
    assert_eq!(wait_for_acknowledgment(&Reply::Success), Ok(()));
    assert_eq!(wait_for_acknowledgment(&Reply::Other), Ok(()));
    assert_eq!(wait_for_acknowledgment(&Reply::ExitStatus(3)), Ok(()));
    assert_eq!(
        wait_for_acknowledgment(&Reply::ExtendedData { ext: 1, data: vec![1] }),
        Ok(())
    );
}

#[test]
fn ack_closed_channel_and_timeout_fail() {
    assert_eq!(wait_for_acknowledgment(&Reply::Closed), Err(Failure::ClosedEarly));
    assert_eq!(wait_for_acknowledgment(&Reply::TimedOut), Err(Failure::AckTimedOut));
    assert_eq!(
        wait_for_acknowledgment(&Reply::Failed("broken pipe".to_string())),
        Err(Failure::Transport("broken pipe".to_string()))
    );
    assert_eq!(wait_for_acknowledgment(&Reply::Done), Err(Failure::Unexpected));
}

#[test]
fn negative_acknowledgment_by_status() {
    assert_eq!(
        negative_acknowledgment(1, Some("disk full".to_string())),
        Failure::RemoteError("disk full".to_string())
    );
    assert_eq!(
        negative_acknowledgment(1, None),
        Failure::RemoteError("Unknown SCP error".to_string())
    );
    assert_eq!(negative_acknowledgment(2, Some("x".to_string())), Failure::RemoteFatal);
    assert_eq!(negative_acknowledgment(9, None), Failure::UnknownAck(9));
}

#[test]
fn failure_texts() {
    assert_eq!(Failure::Transport("reset by peer".to_string()).to_text(), "reset by peer");
    assert_eq!(Failure::TimedOut.to_text(), "deadline has elapsed");
    assert_eq!(Failure::AckTimedOut.to_text(), "Timeout waiting for SCP acknowledgment");
    assert_eq!(Failure::RemoteError("no space".to_string()).to_text(), "SCP error: no space");
    assert_eq!(Failure::RemoteFatal.to_text(), "SCP fatal error");
    assert_eq!(Failure::UnknownAck(42).to_text(), "Unknown SCP response: 42");
    assert_eq!(Failure::EmptyAck.to_text(), "Empty SCP response");
    assert_eq!(Failure::ClosedEarly.to_text(), "Channel closed unexpectedly");
    assert_eq!(
        Failure::CommandFailed { command: "firstboot".to_string(), status: 127 }.to_text(),
        "command 'firstboot' failed with exit status: 127"
    );
    assert_eq!(Failure::Unexpected.to_text(), "Unexpected reply from the transport");
}
