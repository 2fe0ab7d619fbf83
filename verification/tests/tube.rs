use rustypwn::io::arg::{
    recv, recvline, recvuntil, send, sendline, shutdown, Action, Recv, Recvuntil, Timeout,
};
use rustypwn::io::buffer::Buffer;
use rustypwn::io::error::{Error, ErrorKind, ExitStatus, IoFault, IoKind};
use rustypwn::io::span::Span;
use rustypwn::io::tube;
use rustypwn::io::tube::{Operation, Polled, Step};

fn buffer_of(bytes: &[u8]) -> Buffer {
    let mut buf = Buffer::default();
    buf.append(&mut bytes.to_vec());
    buf
}

fn data(bytes: &[u8]) -> Polled {
    Polled::Data(bytes.to_vec())
}

fn millis(n: u64) -> Span {
    Span::from_millis(n)
}

#[test]
fn recv_gives_what_is_buffered_without_a_poll() {
    let mut buf = buffer_of(b"hello");
    assert_eq!(tube::recv_start(&mut buf, &recv().size(3)), Step::Done(b"hel".to_vec()));
    assert_eq!(buf.as_slice(), b"lo");
    assert_eq!(tube::recv_start(&mut buf, &recv().size(20)), Step::Done(b"lo".to_vec()));
    assert_eq!(buf.len(), 0);
}

#[test]
fn recv_of_what_was_echoed_returns_exactly_that() {
    let req = recv().size(20);
    let mut buf = Buffer::default();
    assert_eq!(
        tube::recv_start(&mut buf, &req),
        Step::Poll { size: 20, timeout: Timeout::Infinite }
    );
    let step = tube::recv_resume(&mut buf, &req, data(b"123"), millis(3));
    assert_eq!(step, Step::Done(b"123".to_vec()));
    assert_eq!(buf.len(), 0);
}

#[test]
fn recv_polls_again_while_nothing_has_come() {
    let req = recv().size(20);
    let mut buf = Buffer::default();
    let step = tube::recv_resume(&mut buf, &req, data(b""), Span::from_secs(3600));
    assert_eq!(step, Step::Poll { size: 20, timeout: Timeout::Infinite });
    assert_eq!(buf.len(), 0);
}

#[test]
fn recv_against_a_silent_peer_times_out_after_its_budget() {
    let req = recv().size(20).timeout(Timeout::Of(Span::from_secs(1)));
    let mut buf = Buffer::default();
    assert_eq!(
        tube::recv_start(&mut buf, &req),
        Step::Poll { size: 20, timeout: Timeout::Of(Span::from_secs(1)) }
    );
    assert_eq!(
        tube::recv_resume(&mut buf, &req, data(b""), millis(400)),
        Step::Poll { size: 20, timeout: Timeout::Of(millis(600)) }
    );
    assert_eq!(
        tube::recv_resume(&mut buf, &req, data(b""), millis(999)),
        Step::Poll { size: 20, timeout: Timeout::Of(millis(1)) }
    );
    assert_eq!(
        tube::recv_resume(&mut buf, &req, data(b""), millis(1000)),
        Step::Fail(Error::timeout())
    );
    assert_eq!(
        tube::recv_resume(&mut buf, &req, Polled::TimedOut, millis(1000)),
        Step::Fail(Error::timeout())
    );
}

#[test]
fn recv_that_must_fill_waits_for_every_byte() {
    let req = recv().size(4).must(true);
    let mut buf = buffer_of(b"ab");
    assert_eq!(
        tube::recv_start(&mut buf, &req),
        Step::Poll { size: 4, timeout: Timeout::Infinite }
    );
    assert_eq!(buf.as_slice(), b"ab");
    assert_eq!(
        tube::recv_resume(&mut buf, &req, data(b"c"), millis(1)),
        Step::Poll { size: 4, timeout: Timeout::Infinite }
    );
    assert_eq!(buf.as_slice(), b"abc");
    assert_eq!(
        tube::recv_resume(&mut buf, &req, data(b"def"), millis(2)),
        Step::Done(b"abcd".to_vec())
    );
    assert_eq!(buf.as_slice(), b"ef");
}

#[test]
fn recv_out_of_time_keeps_what_arrived() {
    let req = recv().size(2).timeout(Timeout::Of(millis(10)));
    let mut buf = Buffer::default();
    assert_eq!(
        tube::recv_resume(&mut buf, &req, data(b"late"), millis(10)),
        Step::Fail(Error::timeout())
    );
    assert_eq!(buf.as_slice(), b"late");
    assert_eq!(tube::recv_start(&mut buf, &req), Step::Done(b"la".to_vec()));
}

#[test]
fn a_peer_that_ended_and_a_wait_that_ran_out_fail_differently() {
    let req = recv().size(20).timeout(Timeout::Of(Span::from_secs(1)));
    let mut buf = buffer_of(b"");
    let ended = tube::recv_resume(
        &mut buf,
        &req,
        Polled::Terminated(ExitStatus::Exited(3)),
        millis(5),
    );
    assert_eq!(
        ended,
        Step::Fail(Error::from_kind(ErrorKind::UnexpectedTerminate(ExitStatus::Exited(3))))
    );
    let timed_out = tube::recv_resume(&mut buf, &req, Polled::TimedOut, millis(5));
    assert_eq!(timed_out, Step::Fail(Error::from_kind(ErrorKind::Timeout)));
    assert_ne!(ended, timed_out);
    let broken = Polled::Failed("broken pipe".to_string());
    let failed = tube::recv_resume(&mut buf, &req, broken, millis(5));
    assert_eq!(failed, Step::Fail(Error::from_source("broken pipe".to_string())));
}

#[test]
fn a_failed_poll_leaves_the_buffer_alone() {
    let req = recv().size(4).must(true);
    let mut buf = buffer_of(b"ab");
    let killed = Polled::Terminated(ExitStatus::Signaled(9));
    let step = tube::recv_resume(&mut buf, &req, killed, millis(1));
    assert_eq!(
        step,
        Step::Fail(Error::from_kind(ErrorKind::UnexpectedTerminate(ExitStatus::Signaled(9))))
    );
    assert_eq!(buf.as_slice(), b"ab");
}

#[test]
fn absorb_buffers_data_and_names_failures() {
    let mut buf = buffer_of(b"ab");
    assert_eq!(tube::absorb(&mut buf, data(b"cd")), None);
    assert_eq!(buf.as_slice(), b"abcd");
    assert_eq!(tube::absorb(&mut buf, Polled::TimedOut), Some(Error::timeout()));
    assert_eq!(
        tube::absorb(&mut buf, Polled::Terminated(ExitStatus::Undetermined)),
        Some(Error::from_kind(ErrorKind::UnexpectedTerminate(ExitStatus::Undetermined)))
    );
    assert_eq!(
        tube::absorb(&mut buf, Polled::Failed("reset".to_string())),
        Some(Error::from_source("reset".to_string()))
    );
    assert_eq!(buf.as_slice(), b"abcd");
}

#[test]
fn sendline_appends_exactly_one_line_feed() {
    let plain = tube::sendline(sendline().content(b"abc".to_vec()));
    assert_eq!(plain, send().content(b"abc\n".to_vec()));
    let ended = tube::sendline(sendline().content(b"abc\n".to_vec()));
    assert_eq!(ended, send().content(b"abc\n\n".to_vec()));
    let empty = tube::sendline(sendline());
    assert_eq!(empty, send().content(b"\n".to_vec()));
    let timed = tube::sendline(sendline().timeout(Timeout::Of(millis(7))));
    assert_eq!(timed.timeout, Timeout::Of(millis(7)));
    assert_eq!(tube::LINE_FEED, b'\n');
}

#[test]
fn recvline_receives_through_a_line_feed() {
    let until = tube::recvline(recvline().timeout(Timeout::Of(millis(7))));
    assert_eq!(until, Recvuntil { timeout: Timeout::Of(millis(7)), pattern: "\n".to_string() });
}

#[test]
fn recvuntil_waits_for_the_whole_delimiter() {
    let req = recvuntil().pattern("\n".to_string());
    let mut buf = Buffer::default();
    assert_eq!(
        tube::recvuntil_start(&mut buf, &req),
        Step::Poll { size: 4096, timeout: Timeout::Infinite }
    );
    assert_eq!(
        tube::recvuntil_resume(&mut buf, &req, data(b"ab"), millis(1)),
        Step::Poll { size: 4096, timeout: Timeout::Infinite }
    );
    assert_eq!(buf.as_slice(), b"ab");
    assert_eq!(
        tube::recvuntil_resume(&mut buf, &req, data(b"c\n"), millis(2)),
        Step::Done(b"abc\n".to_vec())
    );
    assert_eq!(buf.len(), 0);
}

#[test]
fn recvuntil_keeps_what_follows_the_delimiter() {
    let req = recvuntil().pattern("> ".to_string());
    let mut buf = buffer_of(b"menu");
    let step = tube::recvuntil_resume(&mut buf, &req, data(b"\n> rest"), millis(1));
    assert_eq!(step, Step::Done(b"menu\n> ".to_vec()));
    assert_eq!(buf.as_slice(), b"rest");
}

#[test]
fn recvuntil_gives_a_buffered_match_at_once() {
    let req = recvuntil().pattern("\n".to_string()).timeout(Timeout::Of(Span::zero()));
    let mut buf = buffer_of(b"ready\nmore");
    assert_eq!(tube::recvuntil_start(&mut buf, &req), Step::Done(b"ready\n".to_vec()));
    assert_eq!(buf.as_slice(), b"more");
}

#[test]
fn recvuntil_times_out_within_its_own_budget() {
    let req = recvuntil().pattern("\n".to_string()).timeout(Timeout::Of(millis(100)));
    let mut buf = Buffer::default();
    assert_eq!(
        tube::recvuntil_start(&mut buf, &req),
        Step::Poll { size: 4096, timeout: Timeout::Of(millis(100)) }
    );
    assert_eq!(
        tube::recvuntil_resume(&mut buf, &req, data(b"ab"), millis(40)),
        Step::Poll { size: 4096, timeout: Timeout::Of(millis(60)) }
    );
    assert_eq!(
        tube::recvuntil_resume(&mut buf, &req, data(b"cd"), millis(100)),
        Step::Fail(Error::timeout())
    );
    assert_eq!(buf.as_slice(), b"abcd");
}

#[test]
fn recvuntil_reports_a_peer_that_ended() {
    let req = recvuntil().pattern("\n".to_string());
    let mut buf = buffer_of(b"partial");
    let ended = Polled::Terminated(ExitStatus::Exited(0));
    let step = tube::recvuntil_resume(&mut buf, &req, ended, millis(1));
    assert_eq!(
        step,
        Step::Fail(Error::from_kind(ErrorKind::UnexpectedTerminate(ExitStatus::Exited(0))))
    );
    assert_eq!(buf.as_slice(), b"partial");
}

#[test]
fn recvuntil_refuses_a_malformed_pattern() {
    let req = recvuntil().pattern("[".to_string());
    let mut buf = buffer_of(b"[[[");
    match tube::recvuntil_start(&mut buf, &req) {
        Step::Fail(e) => {
            assert_eq!(e.kind, ErrorKind::Pattern);
            assert!(e.source.is_some());
        }
        other => panic!("expected a failure, got {:?}", other),
    }
    assert_eq!(buf.as_slice(), b"[[[");
}

#[test]
fn the_step_after_a_search_follows_what_it_found() {
    let t = Timeout::Of(millis(100));
    assert_eq!(
        tube::until_step(Ok(Some(b"line\n".to_vec())), t, millis(30)),
        Step::Done(b"line\n".to_vec())
    );
    assert_eq!(
        tube::until_step(Ok(None), t, millis(30)),
        Step::Poll { size: 4096, timeout: Timeout::Of(millis(70)) }
    );
    assert_eq!(
        tube::until_step(Ok(None), Timeout::Infinite, millis(30)),
        Step::Poll { size: 4096, timeout: Timeout::Infinite }
    );
    let refused = || Error::caused(ErrorKind::Pattern, "unclosed group".to_string());
    assert_eq!(tube::until_step(Err(refused()), t, millis(30)), Step::Fail(refused()));
}

#[test]
fn plan_reduces_every_request_to_its_operation() {
    let t = Timeout::Of(millis(9));
    assert_eq!(
        tube::plan(send().content(b"x".to_vec()).into()),
        Operation::Send(send().content(b"x".to_vec()))
    );
    assert_eq!(
        tube::plan(sendline().content(b"x".to_vec()).timeout(t).into()),
        Operation::Send(send().content(b"x\n".to_vec()).timeout(t))
    );
    assert_eq!(
        tube::plan(recv().size(7).must(true).into()),
        Operation::Recv(Recv { timeout: Timeout::Infinite, size: 7, must: true })
    );
    assert_eq!(
        tube::plan(recvline().timeout(t).into()),
        Operation::Recvuntil(recvuntil().pattern("\n".to_string()).timeout(t))
    );
    assert_eq!(
        tube::plan(recvuntil().pattern("a+".to_string()).into()),
        Operation::Recvuntil(recvuntil().pattern("a+".to_string()))
    );
    assert_eq!(tube::plan(Action::Interactive), Operation::Interactive);
    assert_eq!(
        tube::plan(shutdown().stdout(false).into()),
        Operation::Shutdown(shutdown().stdout(false))
    );
}

#[test]
fn only_receives_return_bytes() {
    assert!(Operation::Recv(recv()).returns_bytes());
    assert!(Operation::Recvuntil(recvuntil()).returns_bytes());
    assert!(!Operation::Send(send()).returns_bytes());
    assert!(!Operation::Interactive.returns_bytes());
    assert!(!Operation::Shutdown(shutdown()).returns_bytes());
}

#[test]
fn a_requested_close_reports_its_failure_and_a_silent_one_does_not() {
    let fault = || IoFault { kind: IoKind::Other, text: "no such process".to_string() };
    assert_eq!(tube::closed(true, Ok(())), Ok(()));
    assert_eq!(tube::closed(false, Ok(())), Ok(()));
    assert_eq!(
        tube::closed(true, Err(fault())),
        Err(Error::from_source("no such process".to_string()))
    );
    assert_eq!(tube::closed(false, Err(fault())), Ok(()));
}
