use rustypwn::io::arg::{recv, recvuntil, shutdown, Half, Timeout};
use rustypwn::io::buffer::Buffer;
use rustypwn::io::span::Span;
use rustypwn::io::tube;
use rustypwn::io::tube::{Operation, Step};
use rustypwn::io::error::{Error, ErrorKind, ExitStatus, FaultClass, IoFault, IoKind};
use rustypwn::io::remote;
use rustypwn::io::tube::Polled;

fn timed_out() -> IoFault {
    IoFault { kind: IoKind::TimedOut, text: "deadline has elapsed".to_string() }
}

fn refused() -> IoFault {
    IoFault { kind: IoKind::Other, text: "no buffer space".to_string() }
}

#[test]
fn a_failed_connection_is_its_own_kind_of_failure() {
    let e = remote::connect_failed("connection refused".to_string());
    assert_eq!(e.kind, ErrorKind::Connect);
    assert_eq!(e.source, Some("connection refused".to_string()));
}

#[test]
fn a_write_past_its_deadline_is_a_timeout() {
    assert_eq!(remote::sent(Ok(())), Ok(()));
    assert_eq!(remote::sent(Err(timed_out())), Err(Error::timeout()));
    assert_eq!(
        remote::sent(Err(refused())),
        Err(Error::from_source("no buffer space".to_string()))
    );
}

#[test]
fn a_fault_is_a_timeout_or_a_failure_of_the_system() {
    assert_eq!(Error::from_fault(timed_out()), Error::timeout());
    assert_eq!(Error::from_fault(refused()), Error::from_source("no buffer space".to_string()));
}

#[test]
fn a_read_buffer_is_all_zero() {
    assert_eq!(remote::scratch(0), Vec::<u8>::new());
    assert_eq!(remote::scratch(3), vec![0u8, 0, 0]);
    assert_eq!(remote::scratch(4096), vec![0u8; 4096]);
}

#[test]
fn a_read_delivers_the_bytes_it_filled() {
    assert_eq!(remote::polled(b"yes\n\0\0".to_vec(), Ok(4)), Polled::Data(b"yes\n".to_vec()));
    assert_eq!(remote::polled(b"abc".to_vec(), Ok(3)), Polled::Data(b"abc".to_vec()));
    assert_eq!(remote::polled(b"abc".to_vec(), Ok(9)), Polled::Data(b"abc".to_vec()));
}

#[test]
fn a_read_of_nothing_is_a_peer_that_has_closed() {
    assert_eq!(
        remote::polled(b"abc".to_vec(), Ok(0)),
        Polled::Terminated(ExitStatus::Undetermined)
    );
    assert_eq!(
        remote::polled(remote::scratch(4096), Ok(0)),
        Polled::Terminated(ExitStatus::Undetermined)
    );
    assert_eq!(remote::polled(Vec::new(), Ok(0)), Polled::Data(vec![]));
}

#[test]
fn a_receive_from_a_peer_that_has_closed_fails_with_a_termination() {
    let gone = || Error::from_kind(ErrorKind::UnexpectedTerminate(ExitStatus::Undetermined));
    let mut buf = Buffer::default();
    buf.append(&mut b"ab".to_vec());
    let req = recv().size(20).must(true);
    assert_eq!(
        tube::recv_start(&mut buf, &req),
        Step::Poll { size: 20, timeout: Timeout::Infinite }
    );
    let closed = remote::polled(remote::scratch(20), Ok(0));
    assert_eq!(tube::recv_resume(&mut buf, &req, closed, Span::from_millis(3)), Step::Fail(gone()));
    assert_eq!(buf.as_slice(), b"ab");

    let bounded = recv().size(20).must(true).timeout(Timeout::Of(Span::from_secs(1)));
    let closed = remote::polled(remote::scratch(20), Ok(0));
    assert_eq!(
        tube::recv_resume(&mut buf, &bounded, closed, Span::from_secs(2)),
        Step::Fail(gone())
    );

    let until = recvuntil().pattern("\n".to_string());
    let closed = remote::polled(remote::scratch(4096), Ok(0));
    assert_eq!(
        tube::recvuntil_resume(&mut buf, &until, closed, Span::from_millis(3)),
        Step::Fail(gone())
    );
    assert_eq!(buf.as_slice(), b"ab");
}

#[test]
fn a_peer_that_is_gone_is_a_termination_and_not_a_failure_of_the_system() {
    let gone = || Error::from_kind(ErrorKind::UnexpectedTerminate(ExitStatus::Undetermined));
    for kind in [
        IoKind::BrokenPipe,
        IoKind::ConnectionReset,
        IoKind::ConnectionAborted,
        IoKind::NotConnected,
        IoKind::UnexpectedEof,
    ] {
        let fault = || IoFault { kind, text: "gone".to_string() };
        assert_eq!(kind.class(), FaultClass::PeerGone);
        assert_eq!(remote::sent(Err(fault())), Err(gone()));
        assert_eq!(Error::from_fault(fault()), gone());
        assert_eq!(
            remote::polled(vec![0; 4], Err(fault())),
            Polled::Terminated(ExitStatus::Undetermined)
        );
    }
    assert_eq!(IoKind::TimedOut.class(), FaultClass::Deadline);
    assert_eq!(IoKind::WouldBlock.class(), FaultClass::Deadline);
    assert_eq!(IoKind::Other.class(), FaultClass::System);
    let blocked = IoFault { kind: IoKind::WouldBlock, text: "would block".to_string() };
    assert_eq!(remote::sent(Err(blocked)), Err(Error::timeout()));
    let blocked = IoFault { kind: IoKind::WouldBlock, text: "would block".to_string() };
    assert_eq!(remote::polled(vec![0; 4], Err(blocked)), Polled::TimedOut);
}

#[test]
fn a_socket_gets_no_deadline_of_zero() {
    assert_eq!(remote::deadline(Timeout::Infinite), None);
    assert_eq!(remote::deadline(Timeout::Of(Span::from_secs(1))), Some(Span::from_secs(1)));
    assert_eq!(remote::deadline(Timeout::Of(Span::from_nanos(1))), Some(Span::from_nanos(1)));
    assert_eq!(remote::deadline(Timeout::Of(Span::zero())), Some(Span::from_nanos(1)));
}

#[test]
fn a_read_past_its_deadline_is_a_poll_that_timed_out() {
    assert_eq!(remote::polled(vec![0; 4], Err(timed_out())), Polled::TimedOut);
    assert_eq!(
        remote::polled(vec![0; 4], Err(refused())),
        Polled::Failed("no buffer space".to_string())
    );
}

#[test]
fn closing_the_outbound_half_leaves_the_inbound_half_open() {
    assert_eq!(shutdown().stdin(true).stdout(false).half(), Some(Half::Write));
    assert_eq!(shutdown().stdin(false).stdout(true).half(), Some(Half::Read));
    assert_eq!(shutdown().half(), Some(Half::Both));
}

#[test]
fn after_the_outbound_half_is_closed_receives_go_on_and_sends_fail() {
    let request = shutdown().stdin(true).stdout(false);
    assert_eq!(tube::plan(request.into()), Operation::Shutdown(request));
    assert_eq!(request.half(), Some(Half::Write));

    let mut buf = Buffer::default();
    let req = recv().size(20);
    assert!(matches!(tube::recv_start(&mut buf, &req), Step::Poll { .. }));
    let in_flight = remote::polled(b"yes\n\0\0\0\0".to_vec(), Ok(4));
    assert_eq!(
        tube::recv_resume(&mut buf, &req, in_flight, Span::from_millis(2)),
        Step::Done(b"yes\n".to_vec())
    );

    let refused = IoFault { kind: IoKind::BrokenPipe, text: "Broken pipe".to_string() };
    assert_eq!(
        remote::sent(Err(refused)),
        Err(Error::from_kind(ErrorKind::UnexpectedTerminate(ExitStatus::Undetermined)))
    );
}
