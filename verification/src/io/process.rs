//! The rules of a tube over a child process.
//!
//! The driver owns the child and its three pipes. Before it writes or polls
//! it asks the child for its exit status. What it reads from the pipes it
//! hands over as a `Captured`: the last words of a child that has exited, or
//! what a running child has written so far.

use crate::io::arg::Timeout;
use crate::io::buffer::Buffer;
use crate::io::error::{Error, ErrorKind, ErrorView, ExitStatus, FaultClass, IoFault};
use crate::io::span::Span;
use crate::io::tube::{absorb, poll_failure, Polled, PolledView};
use vstd::prelude::*;

verus! {

/// What to start: the program with its arguments, and the variables that
/// replace the environment of the child, if any do.
pub struct ProcessArg<'a> {
    pub argv: &'a [&'a str],
    pub env: Option<Vec<(&'a str, &'a str)>>,
}

/// The variables of the environment as owned strings, in the order given.
pub open spec fn owned_pairs(pairs: Seq<(&str, &str)>) -> Seq<(Seq<char>, Seq<char>)> {
    pairs.map_values(|pair: (&str, &str)| (pair.0@, pair.1@))
}

impl<'a> Default for ProcessArg<'a> {
    fn default() -> (arg: ProcessArg<'a>)
        ensures
            arg.argv@.len() == 1,
            arg.argv@[0]@ == Seq::<char>::empty(),
            arg.env is None,
    {
        proof {
            reveal_strlit("");
        }
        ProcessArg { argv: &[""], env: None }
    }
}

impl<'a> ProcessArg<'a> {
    /// The same request with `new_argv` as the program and its arguments.
    pub fn argv(self, new_argv: &'a [&'a str]) -> (arg: ProcessArg<'a>)
        ensures
            arg.argv == new_argv,
            arg.env == self.env,
    {
        let mut arg = self;
        arg.argv = new_argv;
        arg
    }

    /// The same request with `environ` as the environment of the child.
    pub fn env(self, environ: Vec<(&'a str, &'a str)>) -> (arg: ProcessArg<'a>)
        ensures
            arg.argv == self.argv,
            arg.env == Some(environ),
    {
        let mut arg = self;
        arg.env = Some(environ);
        arg
    }

    /// The environment for the child, as owned strings: each variable with
    /// its value, in the order given; `None` where the child inherits the
    /// environment of the caller.
    pub fn environment(&self) -> (owned: Option<Vec<(String, String)>>)
        ensures
            match self.env {
                Some(pairs) => owned matches Some(v) && v@.map_values(
                    |pair: (String, String)| (pair.0@, pair.1@),
                ) == owned_pairs(pairs@),
                None => owned is None,
            },
    {
        match &self.env {
            Some(pairs) => {
                let mut owned: Vec<(String, String)> = Vec::new();
                let mut i: usize = 0;
                while i < pairs.len()
                    invariant
                        i <= pairs.len(),
                        owned@.len() == i,
                        forall|k: int|
                            0 <= k < i ==> (#[trigger] owned@[k]).0@ == pairs@[k].0@ && owned@[k].1@
                                == pairs@[k].1@,
                    decreases pairs.len() - i,
                {
                    let pair = pairs[i];
                    owned.push((pair.0.to_owned(), pair.1.to_owned()));
                    i += 1;
                }
                assert(owned@.map_values(|pair: (String, String)| (pair.0@, pair.1@))
                    =~= owned_pairs(pairs@));
                Some(owned)
            },
            None => None,
        }
    }
}

/// What one read of the child's output pipes came to: what was captured
/// from its standard output and its standard error, and the fault that ended
/// the read, if one did.
#[derive(Debug, PartialEq, Eq)]
pub struct Captured {
    pub out: Option<Vec<u8>>,
    pub err: Option<Vec<u8>>,
    pub fault: Option<IoFault>,
}

/// The bytes captured from one stream; none where the stream gave nothing.
pub open spec fn bytes_of(stream: Option<Vec<u8>>) -> Seq<u8> {
    match stream {
        Some(bytes) => bytes@,
        None => Seq::empty(),
    }
}

/// What a capture amounts to as the outcome of a poll. A read that ended
/// without a fault, or because its time was up, delivers what it captured:
/// standard output first, then standard error. A read that found the other
/// end gone is a peer that has ended, and any other fault fails the poll.
pub open spec fn captured_polled(captured: Captured) -> PolledView {
    match captured.fault {
        None => PolledView::Data(bytes_of(captured.out) + bytes_of(captured.err)),
        Some(fault) => match fault.kind.spec_class() {
            FaultClass::Deadline => PolledView::Data(
                bytes_of(captured.out) + bytes_of(captured.err),
            ),
            FaultClass::PeerGone => PolledView::Terminated(ExitStatus::Undetermined),
            FaultClass::System => PolledView::Failed(fault.text@),
        },
    }
}

/// How long one read of the pipes lasts where the poll has no limit of its
/// own, in nanoseconds: a twentieth of a second.
pub const SLICE_NANOS: u128 = 50_000_000;

/// How long one read of the pipes may last for a poll that may wait as long
/// as `timeout`: the budget, or one slice where there is no limit, so that
/// the poll hands over what has come instead of waiting for the end of the
/// stream.
pub fn poll_limit(timeout: Timeout) -> (limit: Span)
    ensures
        limit == match timeout {
            Timeout::Infinite => Span { nanos: SLICE_NANOS },
            Timeout::Of(budget) => budget,
        },
{
    match timeout {
        Timeout::Infinite => Span::from_nanos(SLICE_NANOS),
        Timeout::Of(budget) => budget,
    }
}

/// The failure of a child that could not be started, with the description of
/// what went wrong.
pub fn launch_failed(text: String) -> (e: Error)
    ensures
        e@ == ErrorView::caused(ErrorKind::Popen, text@),
{
    Error::caused(ErrorKind::Popen, text)
}

/// What a write to the pipe of the child amounts to: a write that found the
/// other end closed fails the send with an unexpected termination, of which
/// no more is known; a pipe has no deadline, so that every other fault fails
/// the send with `Source`.
pub open spec fn written_error(fault: IoFault) -> ErrorView {
    if fault.kind.spec_class() == FaultClass::PeerGone {
        ErrorView::of_kind(ErrorKind::UnexpectedTerminate(ExitStatus::Undetermined))
    } else {
        ErrorView::caused(ErrorKind::Source, fault.text@)
    }
}

/// What a write to the pipe of the child amounts to.
pub fn written(outcome: Result<(), IoFault>) -> (sent: Result<(), Error>)
    ensures
        match outcome {
            Ok(_) => sent is Ok,
            Err(fault) => sent matches Err(e) && e@ == written_error(fault),
        },
{
    match outcome {
        Ok(_) => Ok(()),
        Err(fault) => match fault.kind.class() {
            FaultClass::PeerGone => Err(
                Error::from_kind(ErrorKind::UnexpectedTerminate(ExitStatus::Undetermined)),
            ),
            _ => Err(Error::from_source(fault.text)),
        },
    }
}

/// The bytes of both streams in one: all of standard output, then all of
/// standard error. How the two were interleaved in time is not known.
pub fn merge(out: Option<Vec<u8>>, err: Option<Vec<u8>>) -> (bytes: Vec<u8>)
    ensures
        bytes@ == bytes_of(out) + bytes_of(err),
{
    let mut bytes: Vec<u8> = Vec::new();
    if let Some(out) = out {
        let mut out = out;
        bytes.append(&mut out);
    }
    if let Some(err) = err {
        let mut err = err;
        bytes.append(&mut err);
    }
    bytes
}

/// Takes in the last words of a child that has exited, and names the
/// failure of the operation that found it so. What the child wrote before it
/// ended is buffered, standard output first, whatever became of the read;
/// the operation fails with the exit status of the child.
pub fn ended(buf: &mut Buffer, status: ExitStatus, captured: Captured) -> (e: Error)
    ensures
        final(buf)@ == old(buf)@ + bytes_of(captured.out) + bytes_of(captured.err),
        e@ == ErrorView::of_kind(ErrorKind::UnexpectedTerminate(status)),
{
    let mut last = merge(captured.out, captured.err);
    buf.append(&mut last);
    assert(buf@ =~= old(buf)@ + bytes_of(captured.out) + bytes_of(captured.err));
    Error::from_kind(ErrorKind::UnexpectedTerminate(status))
}

/// The outcome of a poll of a child that has exited: its last words are
/// buffered as `ended` buffers them, and the poll reports the termination.
pub fn exited(buf: &mut Buffer, status: ExitStatus, captured: Captured) -> (polled: Polled)
    ensures
        final(buf)@ == old(buf)@ + bytes_of(captured.out) + bytes_of(captured.err),
        polled@ == PolledView::Terminated(status),
{
    let _ = ended(buf, status, captured);
    Polled::Terminated(status)
}

/// The outcome of a poll of a running child, from what its pipes gave.
pub fn polled(captured: Captured) -> (polled: Polled)
    ensures
        polled@ == captured_polled(captured),
{
    match captured.fault {
        None => Polled::Data(merge(captured.out, captured.err)),
        Some(fault) => match fault.kind.class() {
            FaultClass::Deadline => Polled::Data(merge(captured.out, captured.err)),
            FaultClass::PeerGone => Polled::Terminated(ExitStatus::Undetermined),
            FaultClass::System => Polled::Failed(fault.text),
        },
    }
}

/// Whether a poll that gathers bytes over several reads of the pipes can
/// stop: it has as many bytes as were asked for, or its time is used up.
pub fn gathered_enough(gathered: usize, size: usize, timeout: Timeout, elapsed: Span) -> (yes: bool)
    ensures
        yes == (gathered >= size || timeout.spec_expired(elapsed)),
{
    gathered >= size || timeout.expired(elapsed)
}

/// Takes in what the pipes gave in the pass that follows a write: what was
/// captured is buffered, and a fault other than used-up time fails the send
/// as it would fail a poll.
pub fn drained(buf: &mut Buffer, captured: Captured) -> (sent: Result<(), Error>)
    ensures
        match captured_polled(captured) {
            PolledView::Data(bytes) => sent is Ok && final(buf)@ == old(buf)@ + bytes,
            failed => sent matches Err(e) && poll_failure(failed) == Some(e@) && final(buf)@
                == old(buf)@,
        },
{
    match absorb(buf, polled(captured)) {
        Some(e) => Err(e),
        None => Ok(()),
    }
}

} // verus!
