//! The protocol of a tube, one step at a time.
//!
//! A receive is a conversation between this module and the driver that owns
//! the transport. The module looks at the buffer and either completes the
//! operation, fails it, or asks for one poll of the transport. The driver
//! polls, reads the clock, and reports both; the module takes the next step.
//! Time is always counted from the moment the operation began.

use crate::io::arg::{
    Action, ActionView, Recv, Recvline, Recvuntil, Send, Sendline, Shutdown, Timeout, CHUNK,
};
use crate::io::buffer::{
    get_left, get_taken, lemma_get_conserves, lemma_get_sized, lemma_until_conserves,
    lemma_until_whole_match, until_end, until_left, until_taken, Buffer,
};
use crate::io::error::{Error, ErrorKind, ErrorView, ExitStatus, IoFault};
use crate::io::pattern::{first_match_end, pattern_compiles, refusal};
use crate::io::span::Span;
use vstd::prelude::*;

verus! {

/// The byte that ends a line.
pub const LINE_FEED: u8 = 10;

/// What one poll of the transport produced.
#[derive(Debug, PartialEq, Eq)]
pub enum Polled {
    /// The bytes that were available, in the order of their arrival; none
    /// where nothing was.
    Data(Vec<u8>),
    /// The peer has ended.
    Terminated(ExitStatus),
    /// The poll's own deadline passed.
    TimedOut,
    /// The operating system refused, with this description.
    Failed(String),
}

/// A `Polled` as a mathematical value.
pub enum PolledView {
    Data(Seq<u8>),
    Terminated(ExitStatus),
    TimedOut,
    Failed(Seq<char>),
}

impl View for Polled {
    type V = PolledView;

    open spec fn view(&self) -> PolledView {
        match self {
            Polled::Data(bytes) => PolledView::Data(bytes@),
            Polled::Terminated(status) => PolledView::Terminated(*status),
            Polled::TimedOut => PolledView::TimedOut,
            Polled::Failed(text) => PolledView::Failed(text@),
        }
    }
}

/// What the driver of a receive does next.
#[derive(Debug, PartialEq, Eq)]
pub enum Step {
    /// The operation is complete: hand these bytes to the caller.
    Done(Vec<u8>),
    /// Poll the transport once, for at most `size` bytes and no longer than
    /// `timeout`, then resume with what came of it.
    Poll { size: usize, timeout: Timeout },
    /// The operation has failed.
    Fail(Error),
}

/// A `Step` as a mathematical value.
pub enum StepView {
    Done(Seq<u8>),
    Poll { size: usize, timeout: Timeout },
    Fail(ErrorView),
}

impl View for Step {
    type V = StepView;

    open spec fn view(&self) -> StepView {
        match self {
            Step::Done(bytes) => StepView::Done(bytes@),
            Step::Poll { size, timeout } => StepView::Poll { size: *size, timeout: *timeout },
            Step::Fail(e) => StepView::Fail(e@),
        }
    }
}

/// An operation of the transport itself, which every request comes down to.
#[derive(Debug, PartialEq, Eq)]
pub enum Operation {
    /// Transmit the content as it is.
    Send(Send),
    /// Receive by size.
    Recv(Recv),
    /// Receive through a pattern.
    Recvuntil(Recvuntil),
    /// Run an interactive session.
    Interactive,
    /// Close one half of the channel or both.
    Shutdown(Shutdown),
}

/// An `Operation` as a mathematical value.
pub enum OperationView {
    Send { timeout: Timeout, content: Seq<u8> },
    Recv(Recv),
    Recvuntil { timeout: Timeout, pattern: Seq<char> },
    Interactive,
    Shutdown(Shutdown),
}

impl View for Operation {
    type V = OperationView;

    open spec fn view(&self) -> OperationView {
        match self {
            Operation::Send(req) => OperationView::Send {
                timeout: req.timeout,
                content: req.content@,
            },
            Operation::Recv(req) => OperationView::Recv(*req),
            Operation::Recvuntil(req) => OperationView::Recvuntil {
                timeout: req.timeout,
                pattern: req.pattern@,
            },
            Operation::Interactive => OperationView::Interactive,
            Operation::Shutdown(req) => OperationView::Shutdown(*req),
        }
    }
}

/// One turn of the protocol: the step that is taken and the bytes that the
/// buffer holds afterwards.
pub struct Turn {
    pub step: StepView,
    pub left: Seq<u8>,
}

/// What the driver reports after a poll: what came of it, and the time
/// since the operation began.
pub struct Report {
    pub polled: PolledView,
    pub elapsed: Span,
}

/// The failure that the outcome of a poll amounts to, if it is one. A peer
/// that has ended, a poll that ran out of time and a refusal of the operating
/// system are three different failures.
pub open spec fn poll_failure(polled: PolledView) -> Option<ErrorView> {
    match polled {
        PolledView::Data(_) => None,
        PolledView::Terminated(status) => Some(
            ErrorView::of_kind(ErrorKind::UnexpectedTerminate(status)),
        ),
        PolledView::TimedOut => Some(ErrorView::of_kind(ErrorKind::Timeout)),
        PolledView::Failed(text) => Some(ErrorView::caused(ErrorKind::Source, text)),
    }
}

/// The buffer once the outcome of a poll is taken in: what arrived is added
/// at the tail.
pub open spec fn absorbed(buf: Seq<u8>, polled: PolledView) -> Seq<u8> {
    match polled {
        PolledView::Data(bytes) => buf + bytes,
        _ => buf,
    }
}

/// A sized receive looks at the buffer: it completes with what `get` gives,
/// or asks for a poll of the requested size within what is left of the time.
pub open spec fn recv_turn(buf: Seq<u8>, req: Recv, elapsed: Span) -> Turn {
    match get_taken(buf, req.size as nat, req.must) {
        Some(bytes) => Turn {
            step: StepView::Done(bytes),
            left: get_left(buf, req.size as nat, req.must),
        },
        None => Turn {
            step: StepView::Poll { size: req.size, timeout: req.timeout.spec_remaining(elapsed) },
            left: buf,
        },
    }
}

/// A sized receive resumes after a poll. A failed poll fails the receive and
/// leaves the buffer as it was. Otherwise what arrived is buffered; then a
/// bounded receive whose time is used up fails with `Timeout`, and any other
/// looks at the buffer again.
pub open spec fn recv_after_poll(
    buf: Seq<u8>,
    req: Recv,
    polled: PolledView,
    elapsed: Span,
) -> Turn {
    match poll_failure(polled) {
        Some(e) => Turn { step: StepView::Fail(e), left: buf },
        None => if req.timeout.spec_expired(elapsed) {
            Turn {
                step: StepView::Fail(ErrorView::of_kind(ErrorKind::Timeout)),
                left: absorbed(buf, polled),
            }
        } else {
            recv_turn(absorbed(buf, polled), req, elapsed)
        },
    }
}

/// A receive through a pattern looks at the buffer. It fails with `Timeout`
/// where more than its time has passed, and with `Pattern` where the pattern
/// does not compile. Otherwise it completes with what `get_until` gives, or
/// asks for a poll of one chunk within what is left of the time.
pub open spec fn until_turn(
    buf: Seq<u8>,
    timeout: Timeout,
    pattern: Seq<char>,
    elapsed: Span,
) -> Turn {
    if timeout.spec_exceeded(elapsed) {
        Turn { step: StepView::Fail(ErrorView::of_kind(ErrorKind::Timeout)), left: buf }
    } else {
        match refusal(pattern) {
            Some(message) => Turn {
                step: StepView::Fail(ErrorView::caused(ErrorKind::Pattern, message)),
                left: buf,
            },
            None => match until_taken(buf, pattern) {
                Some(bytes) => Turn { step: StepView::Done(bytes), left: until_left(buf, pattern) },
                None => Turn {
                    step: StepView::Poll { size: CHUNK, timeout: timeout.spec_remaining(elapsed) },
                    left: buf,
                },
            },
        }
    }
}

/// Whether a receive through a pattern searches the buffer when it looks at
/// it: it does unless more than its time has passed or the pattern does not
/// compile.
pub open spec fn searched(timeout: Timeout, pattern: Seq<char>, elapsed: Span) -> bool {
    !timeout.spec_exceeded(elapsed) && pattern_compiles(pattern)
}

/// Whether the first match of `pattern` in `buf`, where there is one, ends
/// within `buf`. Every search that was made found it so: a receive that
/// asks for a poll after a search has found no match at all.
pub open spec fn match_within(buf: Seq<u8>, pattern: Seq<char>) -> bool {
    first_match_end(pattern, buf) matches Some(end) ==> end <= buf.len()
}

/// A receive through a pattern resumes after a poll, as a sized receive
/// does: a failed poll fails it, what arrived is buffered, used-up time
/// fails it with `Timeout`, and otherwise it looks at the buffer again.
pub open spec fn until_after_poll(
    buf: Seq<u8>,
    timeout: Timeout,
    pattern: Seq<char>,
    polled: PolledView,
    elapsed: Span,
) -> Turn {
    match poll_failure(polled) {
        Some(e) => Turn { step: StepView::Fail(e), left: buf },
        None => if timeout.spec_expired(elapsed) {
            Turn {
                step: StepView::Fail(ErrorView::of_kind(ErrorKind::Timeout)),
                left: absorbed(buf, polled),
            }
        } else {
            until_turn(absorbed(buf, polled), timeout, pattern, elapsed)
        },
    }
}

/// The operation that carries out a request. A `Sendline` is the send of
/// its content followed by one line feed, a `Recvline` the receive through
/// the first line feed; every other request is its own operation.
pub open spec fn planned(action: ActionView) -> OperationView {
    match action {
        ActionView::Send { timeout, content } => OperationView::Send { timeout, content },
        ActionView::Recv { timeout, size, must } => OperationView::Recv(
            Recv { timeout, size, must },
        ),
        ActionView::Recvline { timeout } => OperationView::Recvuntil {
            timeout,
            pattern: seq!['\n'],
        },
        ActionView::Recvuntil { timeout, pattern } => OperationView::Recvuntil { timeout, pattern },
        ActionView::Sendline { timeout, content } => OperationView::Send {
            timeout,
            content: content.push(LINE_FEED),
        },
        ActionView::Interactive => OperationView::Interactive,
        ActionView::Shutdown { stdin, stdout } => OperationView::Shutdown(
            Shutdown { stdin, stdout },
        ),
    }
}

/// Whether an operation hands bytes to the caller when it succeeds: the
/// receives do, the others return nothing.
pub open spec fn yields_bytes(op: OperationView) -> bool {
    op is Recv || op is Recvuntil
}

/// The bytes that a step hands to the caller: those of a completed
/// operation, and none otherwise.
pub open spec fn given(step: StepView) -> Seq<u8> {
    match step {
        StepView::Done(bytes) => bytes,
        _ => Seq::empty(),
    }
}

/// The bytes that arrived with these reports, in order.
pub open spec fn arrived(reports: Seq<Report>) -> Seq<u8>
    decreases reports.len(),
{
    if reports.len() == 0 {
        Seq::empty()
    } else {
        absorbed(arrived(reports.drop_last()), reports.last().polled)
    }
}

/// Where a receive through a pattern stands after these reports: it began
/// on a buffer that held `buf`, and each report answered the poll that the
/// step before it asked for. Once the receive has completed or failed,
/// further reports change nothing.
pub open spec fn until_run(
    buf: Seq<u8>,
    timeout: Timeout,
    pattern: Seq<char>,
    reports: Seq<Report>,
) -> Turn
    decreases reports.len(),
{
    if reports.len() == 0 {
        until_turn(buf, timeout, pattern, Span { nanos: 0 })
    } else {
        let before = until_run(buf, timeout, pattern, reports.drop_last());
        match before.step {
            StepView::Poll { .. } => until_after_poll(
                before.left,
                timeout,
                pattern,
                reports.last().polled,
                reports.last().elapsed,
            ),
            _ => before,
        }
    }
}

/// Where a sized receive stands after these reports: it began on a buffer
/// that held `buf`, and each report answered the poll that the step before
/// it asked for. Once the receive has completed or failed, further reports
/// change nothing.
pub open spec fn recv_run(buf: Seq<u8>, req: Recv, reports: Seq<Report>) -> Turn
    decreases reports.len(),
{
    if reports.len() == 0 {
        recv_turn(buf, req, Span { nanos: 0 })
    } else {
        let before = recv_run(buf, req, reports.drop_last());
        match before.step {
            StepView::Poll { .. } => recv_after_poll(
                before.left,
                req,
                reports.last().polled,
                reports.last().elapsed,
            ),
            _ => before,
        }
    }
}

/// Whether every report brought bytes (possibly none) within the time of
/// the operation.
pub open spec fn all_in_time(timeout: Timeout, reports: Seq<Report>) -> bool {
    forall|i: int|
        0 <= i < reports.len() ==> (#[trigger] reports[i]).polled is Data && !timeout.spec_expired(
            reports[i].elapsed,
        )
}

impl Polled {
    /// The bytes that the poll brought, or the failure that it amounts to.
    pub fn into_result(self) -> (result: Result<Vec<u8>, Error>)
        ensures
            match result {
                Ok(bytes) => self@ == PolledView::Data(bytes@),
                Err(e) => poll_failure(self@) == Some(e@),
            },
    {
        match self {
            Polled::Data(bytes) => Ok(bytes),
            Polled::Terminated(status) => Err(
                Error::from_kind(ErrorKind::UnexpectedTerminate(status)),
            ),
            Polled::TimedOut => Err(Error::timeout()),
            Polled::Failed(text) => Err(Error::from_source(text)),
        }
    }
}

/// Takes in the outcome of a poll: bytes are added at the tail of the
/// buffer, and a failed poll is turned into its failure.
pub fn absorb(buf: &mut Buffer, polled: Polled) -> (failure: Option<Error>)
    ensures
        final(buf)@ == absorbed(old(buf)@, polled@),
        match poll_failure(polled@) {
            Some(e) => failure matches Some(f) && f@ == e && final(buf)@ == old(buf)@,
            None => failure is None,
        },
{
    match polled.into_result() {
        Ok(bytes) => {
            let mut bytes = bytes;
            buf.append(&mut bytes);
            None
        },
        Err(e) => Some(e),
    }
}

/// A sized receive looks at the buffer, `elapsed` after it began.
fn recv_look(buf: &mut Buffer, req: &Recv, elapsed: Span) -> (step: Step)
    ensures
        (Turn { step: step@, left: final(buf)@ }) == recv_turn(old(buf)@, *req, elapsed),
{
    match buf.get(req.size, req.must) {
        Some(bytes) => Step::Done(bytes),
        None => Step::Poll { size: req.size, timeout: req.timeout.remaining(elapsed) },
    }
}

/// Begins a sized receive.
///
/// What the buffer can give is given at once, without a poll of the
/// transport and without a look at the clock. Otherwise the step asks for
/// one poll.
pub fn recv_start(buf: &mut Buffer, req: &Recv) -> (step: Step)
    ensures
        (Turn { step: step@, left: final(buf)@ }) == recv_turn(
            old(buf)@,
            *req,
            (Span { nanos: 0 }),
        ),
{
    recv_look(buf, req, Span::zero())
}

/// Resumes a sized receive with the outcome of the poll it asked for;
/// `elapsed` is the time since the receive began.
pub fn recv_resume(buf: &mut Buffer, req: &Recv, polled: Polled, elapsed: Span) -> (step: Step)
    ensures
        (Turn { step: step@, left: final(buf)@ }) == recv_after_poll(
            old(buf)@,
            *req,
            polled@,
            elapsed,
        ),
{
    match absorb(buf, polled) {
        Some(e) => Step::Fail(e),
        None => if req.timeout.expired(elapsed) {
            Step::Fail(Error::timeout())
        } else {
            recv_look(buf, req, elapsed)
        },
    }
}

/// The step that follows a search of the buffer, `elapsed` after the receive
/// began: what the search took out completes the receive, a search that
/// found nothing asks for a poll of one chunk within what is left of the
/// time, and a pattern that was refused fails the receive.
pub fn until_step(taken: Result<Option<Vec<u8>>, Error>, timeout: Timeout, elapsed: Span) -> (step:
    Step)
    ensures
        step@ == match taken {
            Ok(Some(bytes)) => StepView::Done(bytes@),
            Ok(None) => StepView::Poll { size: CHUNK, timeout: timeout.spec_remaining(elapsed) },
            Err(e) => StepView::Fail(e@),
        },
{
    match taken {
        Ok(Some(bytes)) => Step::Done(bytes),
        Ok(None) => Step::Poll { size: CHUNK, timeout: timeout.remaining(elapsed) },
        Err(e) => Step::Fail(e),
    }
}

/// A receive through a pattern looks at the buffer, `elapsed` after it began.
fn recvuntil_look(buf: &mut Buffer, req: &Recvuntil, elapsed: Span) -> (step: Step)
    ensures
        (Turn { step: step@, left: final(buf)@ }) == until_turn(
            old(buf)@,
            req.timeout,
            req.pattern@,
            elapsed,
        ),
        searched(req.timeout, req.pattern@, elapsed) ==> match_within(old(buf)@, req.pattern@),
{
    if req.timeout.exceeded(elapsed) {
        return Step::Fail(Error::timeout());
    }
    let taken = buf.get_until(req.pattern.as_str());
    until_step(taken, req.timeout, elapsed)
}

/// Begins a receive through the first match of a pattern.
pub fn recvuntil_start(buf: &mut Buffer, req: &Recvuntil) -> (step: Step)
    ensures
        (Turn { step: step@, left: final(buf)@ }) == until_turn(
            old(buf)@,
            req.timeout,
            req.pattern@,
            (Span { nanos: 0 }),
        ),
        pattern_compiles(req.pattern@) ==> match_within(old(buf)@, req.pattern@),
{
    recvuntil_look(buf, req, Span::zero())
}

/// Resumes a receive through a pattern with the outcome of the poll it asked
/// for; `elapsed` is the time since the receive began.
pub fn recvuntil_resume(
    buf: &mut Buffer,
    req: &Recvuntil,
    polled: Polled,
    elapsed: Span,
) -> (step: Step)
    ensures
        (Turn { step: step@, left: final(buf)@ }) == until_after_poll(
            old(buf)@,
            req.timeout,
            req.pattern@,
            polled@,
            elapsed,
        ),
        poll_failure(polled@) is None && !req.timeout.spec_expired(elapsed) && pattern_compiles(
            req.pattern@,
        ) ==> match_within(absorbed(old(buf)@, polled@), req.pattern@),
{
    match absorb(buf, polled) {
        Some(e) => Step::Fail(e),
        None => if req.timeout.expired(elapsed) {
            Step::Fail(Error::timeout())
        } else {
            recvuntil_look(buf, req, elapsed)
        },
    }
}

/// The send that a `sendline` amounts to: the same content followed by one
/// line feed, whatever the content ends with.
pub fn sendline(req: Sendline) -> (send: Send)
    ensures
        send.timeout == req.timeout,
        send.content@ == req.content@.push(LINE_FEED),
{
    let mut content = req.content;
    content.push(LINE_FEED);
    Send { timeout: req.timeout, content }
}

/// The receive that a `recvline` amounts to: through the first line feed.
pub fn recvline(req: Recvline) -> (until: Recvuntil)
    ensures
        until.timeout == req.timeout,
        until.pattern@ == seq!['\n'],
{
    proof {
        reveal_strlit("\n");
    }
    Recvuntil { timeout: req.timeout, pattern: "\n".to_owned() }
}

impl Operation {
    /// Whether the operation hands bytes to the caller when it succeeds.
    pub fn returns_bytes(&self) -> (yes: bool)
        ensures
            yes == yields_bytes(self@),
    {
        match self {
            Operation::Recv(_) => true,
            Operation::Recvuntil(_) => true,
            _ => false,
        }
    }
}

/// Routes a request of any kind to the operation that carries it out.
pub fn plan(action: Action) -> (op: Operation)
    ensures
        op@ == planned(action@),
{
    match action {
        Action::Send { timeout, content } => Operation::Send(Send { timeout, content }),
        Action::Recv { timeout, size, must } => Operation::Recv(Recv { timeout, size, must }),
        Action::Recvline { timeout } => Operation::Recvuntil(recvline(Recvline { timeout })),
        Action::Recvuntil { timeout, pattern } => Operation::Recvuntil(
            Recvuntil { timeout, pattern },
        ),
        Action::Sendline { timeout, content } => Operation::Send(
            sendline(Sendline { timeout, content }),
        ),
        Action::Interactive => Operation::Interactive,
        Action::Shutdown { stdin, stdout } => Operation::Shutdown(Shutdown { stdin, stdout }),
    }
}

/// What closing a tube amounts to. A close that the caller asked for
/// reports the failure to end the peer; the close that comes with the end of
/// the tube's life does what it can and reports nothing.
pub fn closed(asked: bool, outcome: Result<(), IoFault>) -> (result: Result<(), Error>)
    ensures
        match outcome {
            Err(fault) if asked => result matches Err(e) && e@ == ErrorView::caused(
                ErrorKind::Source,
                fault.text@,
            ),
            _ => result is Ok,
        },
{
    match outcome {
        Ok(_) => Ok(()),
        Err(fault) => {
            if asked {
                Err(Error::from_source(fault.text))
            } else {
                Ok(())
            }
        },
    }
}

/// A `sendline` adds exactly one line feed, whatever the content ends with:
/// what is sent is one byte longer than the content, ends with a line feed,
/// and is the content before that.
pub proof fn lemma_sendline_adds_one_line_feed(timeout: Timeout, content: Seq<u8>)
    ensures
        planned(ActionView::Sendline { timeout, content }) matches OperationView::Send {
            timeout: t,
            content: sent,
        } && t == timeout && sent.len() == content.len() + 1 && sent.last() == LINE_FEED
            && sent.drop_last() == content,
{
    assert(content.push(LINE_FEED).drop_last() =~= content);
}

/// A sized receive loses nothing and reorders nothing: what a turn hands to
/// the caller, followed by what it leaves buffered, is what was buffered
/// followed by what arrived.
pub proof fn lemma_recv_conserves(buf: Seq<u8>, req: Recv, polled: PolledView, elapsed: Span)
    ensures
        given(recv_turn(buf, req, elapsed).step) + recv_turn(buf, req, elapsed).left == buf,
        given(recv_after_poll(buf, req, polled, elapsed).step) + recv_after_poll(
            buf,
            req,
            polled,
            elapsed,
        ).left == absorbed(buf, polled),
{
    lemma_get_conserves(buf, req.size as nat, req.must);
    lemma_get_conserves(absorbed(buf, polled), req.size as nat, req.must);
    assert(Seq::<u8>::empty() + buf =~= buf);
    assert(Seq::<u8>::empty() + absorbed(buf, polled) =~= absorbed(buf, polled));
}

/// A receive through a pattern loses nothing and reorders nothing.
pub proof fn lemma_until_conserves_turn(
    buf: Seq<u8>,
    timeout: Timeout,
    pattern: Seq<char>,
    polled: PolledView,
    elapsed: Span,
)
    ensures
        given(until_turn(buf, timeout, pattern, elapsed).step) + until_turn(
            buf,
            timeout,
            pattern,
            elapsed,
        ).left == buf,
        given(until_after_poll(buf, timeout, pattern, polled, elapsed).step) + until_after_poll(
            buf,
            timeout,
            pattern,
            polled,
            elapsed,
        ).left == absorbed(buf, polled),
{
    lemma_until_conserves(buf, pattern);
    lemma_until_conserves(absorbed(buf, polled), pattern);
    assert(Seq::<u8>::empty() + buf =~= buf);
    assert(Seq::<u8>::empty() + absorbed(buf, polled) =~= absorbed(buf, polled));
}

/// What the buffer can give, a sized receive gives whatever the clock says:
/// that path looks at neither the transport nor the time.
pub proof fn lemma_recv_ready_ignores_clock(buf: Seq<u8>, req: Recv, early: Span, late: Span)
    requires
        get_taken(buf, req.size as nat, req.must) is Some,
    ensures
        recv_turn(buf, req, early) == recv_turn(buf, req, late),
        recv_turn(buf, req, early).step is Done,
{
}

/// A bounded receive that is resumed when its time is used up fails with
/// `Timeout`, whatever has arrived, and what arrived stays buffered. A
/// receive without a bound fails with `Timeout` only if the poll did.
pub proof fn lemma_recv_deadline(buf: Seq<u8>, req: Recv, bytes: Seq<u8>, elapsed: Span)
    ensures
        req.timeout.spec_expired(elapsed) ==> recv_after_poll(
            buf,
            req,
            PolledView::Data(bytes),
            elapsed,
        ) == (Turn {
            step: StepView::Fail(ErrorView::of_kind(ErrorKind::Timeout)),
            left: buf + bytes,
        }),
        req.timeout == Timeout::Infinite ==> !(recv_after_poll(
            buf,
            req,
            PolledView::Data(bytes),
            elapsed,
        ).step is Fail),
{
}

/// A sized receive never hands out more than was asked for, and one that
/// must fill never less.
pub proof fn lemma_recv_sized(buf: Seq<u8>, req: Recv, polled: PolledView, elapsed: Span)
    ensures
        given(recv_turn(buf, req, elapsed).step).len() <= req.size,
        given(recv_after_poll(buf, req, polled, elapsed).step).len() <= req.size,
        req.must && recv_turn(buf, req, elapsed).step is Done ==> given(
            recv_turn(buf, req, elapsed).step,
        ).len() == req.size,
        req.must && recv_after_poll(buf, req, polled, elapsed).step is Done ==> given(
            recv_after_poll(buf, req, polled, elapsed).step,
        ).len() == req.size,
{
    lemma_get_sized(buf, req.size as nat, req.must);
    lemma_get_sized(absorbed(buf, polled), req.size as nat, req.must);
}

/// A receive that need not fill returns what the first poll brings: on an
/// empty buffer, the first bytes that arrive in time complete it, up to the
/// size asked for, and what is beyond that size stays buffered.
pub proof fn lemma_recv_run_first_bytes(req: Recv, bytes: Seq<u8>, elapsed: Span)
    requires
        !req.must,
        req.size > 0,
        bytes.len() > 0,
        !req.timeout.spec_expired(elapsed),
    ensures
        recv_run(
            Seq::empty(),
            req,
            seq![Report { polled: PolledView::Data(bytes), elapsed }],
        ) == if bytes.len() <= req.size {
            Turn { step: StepView::Done(bytes), left: Seq::empty() }
        } else {
            Turn {
                step: StepView::Done(bytes.take(req.size as int)),
                left: bytes.skip(req.size as int),
            }
        },
{
    let reports = seq![Report { polled: PolledView::Data(bytes), elapsed }];
    let start = recv_run(Seq::empty(), req, reports.drop_last());
    assert(reports.drop_last() =~= Seq::<Report>::empty());
    assert(start == recv_turn(Seq::empty(), req, Span { nanos: 0 }));
    assert(start.step is Poll && start.left == Seq::<u8>::empty());
    assert(reports.last() == Report { polled: PolledView::Data(bytes), elapsed });
    assert(Seq::<u8>::empty() + bytes =~= bytes);
    if bytes.len() == req.size {
        assert(bytes.take(req.size as int) =~= bytes);
        assert(bytes.skip(req.size as int) =~= Seq::<u8>::empty());
    }
}

/// A receive from a peer that stays silent polls for as long as time
/// remains, each time within what is left of its budget, and fails with
/// `Timeout` with the first report that comes once the budget is used up.
pub proof fn lemma_recv_run_silent(req: Recv, reports: Seq<Report>)
    requires
        req.size > 0,
        forall|i: int|
            0 <= i < reports.len() ==> (#[trigger] reports[i]).polled == PolledView::Data(
                Seq::empty(),
            ),
        forall|i: int|
            0 <= i < reports.len() - 1 ==> !req.timeout.spec_expired(
                (#[trigger] reports[i]).elapsed,
            ),
    ensures
        recv_run(Seq::empty(), req, reports) == if reports.len() == 0 {
            Turn {
                step: StepView::Poll { size: req.size, timeout: req.timeout },
                left: Seq::empty(),
            }
        } else if req.timeout.spec_expired(reports.last().elapsed) {
            Turn {
                step: StepView::Fail(ErrorView::of_kind(ErrorKind::Timeout)),
                left: Seq::empty(),
            }
        } else {
            Turn {
                step: StepView::Poll {
                    size: req.size,
                    timeout: req.timeout.spec_remaining(reports.last().elapsed),
                },
                left: Seq::empty(),
            }
        },
    decreases reports.len(),
{
    if reports.len() == 0 {
        assert(req.timeout.spec_remaining(Span { nanos: 0 }) == req.timeout);
    } else {
        let before = reports.drop_last();
        assert forall|i: int| 0 <= i < before.len() implies (#[trigger] before[i]).polled
            == PolledView::Data(Seq::empty()) by {
            assert(before[i] == reports[i]);
        }
        assert forall|i: int| 0 <= i < before.len() - 1 implies !req.timeout.spec_expired(
            (#[trigger] before[i]).elapsed,
        ) by {
            assert(before[i] == reports[i]);
        }
        lemma_recv_run_silent(req, before);
        if before.len() > 0 {
            assert(before.last() == reports[reports.len() - 2]);
        }
        assert(reports.last() == reports[reports.len() - 1]);
        assert(Seq::<u8>::empty() + Seq::<u8>::empty() =~= Seq::<u8>::empty());
    }
}

/// A receive that ran out of time and one whose peer ended fail differently,
/// so that the caller can tell the two apart.
pub proof fn lemma_timeout_differs_from_termination(status: ExitStatus)
    ensures
        poll_failure(PolledView::TimedOut) != poll_failure(PolledView::Terminated(status)),
        ErrorView::of_kind(ErrorKind::Timeout) != ErrorView::of_kind(
            ErrorKind::UnexpectedTerminate(status),
        ),
{
}

/// A receive through a pattern completes with whole matches only: what it
/// hands to the caller ends exactly where the first match in the buffered
/// bytes ends.
pub proof fn lemma_until_turn_whole_match(
    buf: Seq<u8>,
    timeout: Timeout,
    pattern: Seq<char>,
    elapsed: Span,
)
    ensures
        until_turn(buf, timeout, pattern, elapsed).step matches StepView::Done(bytes) ==> bytes
            == buf.take(bytes.len() as int) && bytes.len() <= buf.len() && first_match_end(
            pattern,
            buf,
        ) == Some(bytes.len() as usize),
{
    lemma_until_whole_match(buf, pattern);
}

/// A receive through a pattern waits for the delimiter: as long as nothing
/// that matches has arrived, it does not complete, however the bytes were
/// cut into polls. While it waits, the buffer holds all that was buffered
/// and all that arrived, in order.
pub proof fn lemma_until_run_waits(
    buf: Seq<u8>,
    timeout: Timeout,
    pattern: Seq<char>,
    reports: Seq<Report>,
)
    requires
        forall|k: int|
            0 <= k <= reports.len() ==> until_end(
                buf + #[trigger] arrived(reports.take(k)),
                pattern,
            ) is None,
    ensures
        !(until_run(buf, timeout, pattern, reports).step is Done),
        until_run(buf, timeout, pattern, reports).step is Poll ==> until_run(
            buf,
            timeout,
            pattern,
            reports,
        ).left == buf + arrived(reports),
    decreases reports.len(),
{
    assert(reports.take(reports.len() as int) =~= reports);
    if reports.len() == 0 {
        assert(buf + arrived(reports) =~= buf);
    } else {
        let before = reports.drop_last();
        assert forall|k: int| 0 <= k <= before.len() implies until_end(
            buf + #[trigger] arrived(before.take(k)),
            pattern,
        ) is None by {
            assert(before.take(k) =~= reports.take(k));
        }
        lemma_until_run_waits(buf, timeout, pattern, before);
        let polled = reports.last().polled;
        assert(absorbed(buf + arrived(before), polled) =~= buf + arrived(reports));
    }
}

/// While data keeps coming in time and nothing matches, a receive through a
/// pattern keeps polling.
proof fn lemma_until_run_polls(
    buf: Seq<u8>,
    timeout: Timeout,
    pattern: Seq<char>,
    reports: Seq<Report>,
)
    requires
        pattern_compiles(pattern),
        all_in_time(timeout, reports),
        forall|k: int|
            0 <= k <= reports.len() ==> until_end(
                buf + #[trigger] arrived(reports.take(k)),
                pattern,
            ) is None,
    ensures
        until_run(buf, timeout, pattern, reports).step is Poll,
        until_run(buf, timeout, pattern, reports).left == buf + arrived(reports),
    decreases reports.len(),
{
    assert(reports.take(reports.len() as int) =~= reports);
    if reports.len() == 0 {
        assert(buf + arrived(reports) =~= buf);
    } else {
        let before = reports.drop_last();
        assert forall|k: int| 0 <= k <= before.len() implies until_end(
            buf + #[trigger] arrived(before.take(k)),
            pattern,
        ) is None by {
            assert(before.take(k) =~= reports.take(k));
        }
        assert forall|i: int| 0 <= i < before.len() implies (#[trigger] before[i]).polled is Data
            && !timeout.spec_expired(before[i].elapsed) by {
            assert(before[i] == reports[i]);
        }
        lemma_until_run_polls(buf, timeout, pattern, before);
        let last = reports.last();
        assert(last == reports[reports.len() - 1]);
        assert(absorbed(buf + arrived(before), last.polled) =~= buf + arrived(reports));
    }
}

/// A receive through a pattern completes as soon as the delimiter has
/// arrived, and with all that came before it: if the bytes come in time, in
/// any number of polls, and the first match is complete only with the last
/// of them, the receive hands out everything through the end of that match
/// and keeps the rest buffered.
pub proof fn lemma_until_run_completes(
    buf: Seq<u8>,
    timeout: Timeout,
    pattern: Seq<char>,
    reports: Seq<Report>,
    end: int,
)
    requires
        all_in_time(timeout, reports),
        forall|k: int|
            0 <= k < reports.len() ==> until_end(
                buf + #[trigger] arrived(reports.take(k)),
                pattern,
            ) is None,
        until_end(buf + arrived(reports), pattern) == Some(end),
    ensures
        until_run(buf, timeout, pattern, reports) == (Turn {
            step: StepView::Done((buf + arrived(reports)).take(end)),
            left: (buf + arrived(reports)).skip(end),
        }),
{
    if reports.len() == 0 {
        assert(buf + arrived(reports) =~= buf);
    } else {
        let before = reports.drop_last();
        assert forall|k: int| 0 <= k <= before.len() implies until_end(
            buf + #[trigger] arrived(before.take(k)),
            pattern,
        ) is None by {
            assert(before.take(k) =~= reports.take(k));
        }
        assert forall|i: int| 0 <= i < before.len() implies (#[trigger] before[i]).polled is Data
            && !timeout.spec_expired(before[i].elapsed) by {
            assert(before[i] == reports[i]);
        }
        lemma_until_run_polls(buf, timeout, pattern, before);
        let last = reports.last();
        assert(last == reports[reports.len() - 1]);
        assert(absorbed(buf + arrived(before), last.polled) =~= buf + arrived(reports));
    }
}

} // verus!
