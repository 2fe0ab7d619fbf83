//! The rules of a tube over a TCP connection.
//!
//! The driver owns the socket. It sets the deadline of each read and write
//! to the time that the step allows, and hands over what the call returned.

use crate::io::arg::{Recv, Timeout};
use crate::io::error::{
    fault_error, Error, ErrorKind, ErrorView, ExitStatus, FaultClass, IoFault,
};
use crate::io::span::Span;
use crate::io::tube::{recv_after_poll, until_after_poll, Polled, PolledView, StepView, Turn};
use vstd::prelude::*;

verus! {

/// The failure of a connection that could not be made, with the description
/// of what went wrong.
pub fn connect_failed(text: String) -> (e: Error)
    ensures
        e@ == ErrorView::caused(ErrorKind::Connect, text@),
{
    Error::caused(ErrorKind::Connect, text)
}

/// What a write to the socket amounts to: a write whose deadline passed
/// fails the send with `Timeout`, a write to a peer that is gone with an
/// unexpected termination, any other fault with `Source`.
pub fn sent(written: Result<(), IoFault>) -> (sent: Result<(), Error>)
    ensures
        match written {
            Ok(_) => sent is Ok,
            Err(fault) => sent matches Err(e) && e@ == fault_error(fault),
        },
{
    match written {
        Ok(_) => Ok(()),
        Err(fault) => Err(Error::from_fault(fault)),
    }
}

/// The deadline to set on the socket for a read or a write that may wait
/// as long as `timeout`: none for an infinite one, else the budget. A socket
/// takes no deadline of zero, so that a budget of which nothing is left
/// becomes the shortest deadline there is.
pub fn deadline(timeout: Timeout) -> (limit: Option<Span>)
    ensures
        limit == match timeout {
            Timeout::Infinite => None,
            Timeout::Of(budget) => Some(
                if budget@ == 0 {
                    Span { nanos: 1 }
                } else {
                    budget
                },
            ),
        },
{
    match timeout {
        Timeout::Infinite => None,
        Timeout::Of(budget) => {
            if budget.as_nanos() == 0 {
                Some(Span::from_nanos(1))
            } else {
                Some(budget)
            }
        },
    }
}

/// A read buffer for one poll: `size` zero bytes.
pub fn scratch(size: usize) -> (bytes: Vec<u8>)
    ensures
        bytes@ == Seq::new(size as nat, |i: int| 0u8),
{
    let mut bytes: Vec<u8> = Vec::new();
    let mut i: usize = 0;
    while i < size
        invariant
            i <= size,
            bytes@ == Seq::new(i as nat, |k: int| 0u8),
        decreases size - i,
    {
        bytes.push(0u8);
        i += 1;
        assert(bytes@ =~= Seq::new(i as nat, |k: int| 0u8));
    }
    bytes
}

/// What one read of the socket amounts to as the outcome of a poll.
///
/// A read that returned no bytes, though it had room for some, found the
/// connection closed by the peer: the peer has ended, and nothing is known
/// of how. A read that returned `n` bytes delivers the first `n` bytes of
/// the read buffer (all of it, should `n` be larger). A read whose deadline
/// passed is a poll that timed out, a read that found the peer gone is a
/// peer that has ended, and any other fault fails the poll.
pub open spec fn read_polled(scratch: Seq<u8>, read: Result<usize, IoFault>) -> PolledView {
    match read {
        Ok(n) => if n == 0 && scratch.len() > 0 {
            PolledView::Terminated(ExitStatus::Undetermined)
        } else if n <= scratch.len() {
            PolledView::Data(scratch.take(n as int))
        } else {
            PolledView::Data(scratch)
        },
        Err(fault) => match fault.kind.spec_class() {
            FaultClass::Deadline => PolledView::TimedOut,
            FaultClass::PeerGone => PolledView::Terminated(ExitStatus::Undetermined),
            FaultClass::System => PolledView::Failed(fault.text@),
        },
    }
}

/// The outcome of a poll, from the read buffer and what the read returned.
pub fn polled(scratch: Vec<u8>, read: Result<usize, IoFault>) -> (polled: Polled)
    ensures
        polled@ == read_polled(scratch@, read),
{
    match read {
        Ok(n) => {
            if n == 0 && scratch.len() > 0 {
                Polled::Terminated(ExitStatus::Undetermined)
            } else {
                let mut bytes = scratch;
                bytes.truncate(n);
                Polled::Data(bytes)
            }
        },
        Err(fault) => match fault.kind.class() {
            FaultClass::Deadline => Polled::TimedOut,
            FaultClass::PeerGone => Polled::Terminated(ExitStatus::Undetermined),
            FaultClass::System => Polled::Failed(fault.text),
        },
    }
}

/// A receive from a peer that has closed the connection ends with an
/// unexpected termination, whatever its timeout and whether it goes by size
/// or by pattern: it neither waits nor polls again, and what is buffered
/// stays buffered.
pub proof fn lemma_closed_peer_ends_the_receive(
    buf: Seq<u8>,
    req: Recv,
    timeout: Timeout,
    pattern: Seq<char>,
    scratch: Seq<u8>,
    elapsed: Span,
)
    requires
        scratch.len() > 0,
    ensures
        read_polled(scratch, Ok(0)) == PolledView::Terminated(ExitStatus::Undetermined),
        recv_after_poll(buf, req, read_polled(scratch, Ok(0)), elapsed) == (Turn {
            step: StepView::Fail(
                ErrorView::of_kind(ErrorKind::UnexpectedTerminate(ExitStatus::Undetermined)),
            ),
            left: buf,
        }),
        until_after_poll(buf, timeout, pattern, read_polled(scratch, Ok(0)), elapsed) == (Turn {
            step: StepView::Fail(
                ErrorView::of_kind(ErrorKind::UnexpectedTerminate(ExitStatus::Undetermined)),
            ),
            left: buf,
        }),
{
}

} // verus!
