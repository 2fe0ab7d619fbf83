//! The interactive session: a console bridged to a tube.
//!
//! The session asks the driver for one thing at a time: to show text and
//! read a line from the console, to send a line over the tube, to receive
//! from the tube, to close it. Each time the driver reports what came of it,
//! and the session decides what is next.

use crate::io::arg::{Recv, Sendline, Shutdown, Timeout, CHUNK};
use crate::io::error::{Error, ErrorKind, ErrorView};
use crate::io::span::{Span, NANOS_PER_MILLI};
use crate::io::text::{show, shown};
use vstd::prelude::*;

verus! {

/// How long the session waits for more output before it shows what it has,
/// in milliseconds.
pub const QUIET_MILLIS: u64 = 50;

/// Where a session stands.
#[derive(Debug, PartialEq, Eq)]
pub enum Session {
    /// The console was asked for a line.
    Reading,
    /// A line is on its way to the peer.
    Sending,
    /// The answer of the peer is being collected; this much has come.
    Collecting { output: Vec<u8> },
    /// The tube is being closed.
    Closing,
    /// The session is over.
    Over,
}

/// What the driver reports.
#[derive(Debug, PartialEq, Eq)]
pub enum Event {
    /// The console gave this line, without the end of line; `None` at the
    /// end of the input.
    Line(Option<Vec<u8>>),
    /// What came of the send.
    Sent(Result<(), Error>),
    /// What came of the receive.
    Received(Result<Vec<u8>, Error>),
    /// What came of closing the tube.
    Closed(Result<(), Error>),
}

/// What the driver does next.
#[derive(Debug, PartialEq, Eq)]
pub enum Command {
    /// Show `text` on the console, then read one line from it.
    Ask { text: String },
    /// Send this line over the tube.
    Sendline(Sendline),
    /// Receive from the tube.
    Recv(Recv),
    /// Close the tube.
    Shutdown(Shutdown),
    /// Return from the session with this result.
    Finish(Result<(), Error>),
}

/// A `Session` as a mathematical value.
pub enum SessionView {
    Reading,
    Sending,
    Collecting { output: Seq<u8> },
    Closing,
    Over,
}

/// An `Event` as a mathematical value.
pub enum EventView {
    Line(Option<Seq<u8>>),
    Sent(Option<ErrorView>),
    Received(Result<Seq<u8>, ErrorView>),
    Closed(Option<ErrorView>),
}

/// A `Command` as a mathematical value.
pub enum CommandView {
    Ask { text: Seq<char> },
    Sendline { timeout: Timeout, content: Seq<u8> },
    Recv(Recv),
    Shutdown(Shutdown),
    Finish(Option<ErrorView>),
}

impl View for Session {
    type V = SessionView;

    open spec fn view(&self) -> SessionView {
        match self {
            Session::Reading => SessionView::Reading,
            Session::Sending => SessionView::Sending,
            Session::Collecting { output } => SessionView::Collecting { output: output@ },
            Session::Closing => SessionView::Closing,
            Session::Over => SessionView::Over,
        }
    }
}

/// The failure in a result without a value, if it is one.
pub open spec fn failure_of(outcome: Result<(), Error>) -> Option<ErrorView> {
    match outcome {
        Ok(_) => None,
        Err(e) => Some(e@),
    }
}

impl View for Event {
    type V = EventView;

    open spec fn view(&self) -> EventView {
        match self {
            Event::Line(Some(line)) => EventView::Line(Some(line@)),
            Event::Line(None) => EventView::Line(None),
            Event::Sent(outcome) => EventView::Sent(failure_of(*outcome)),
            Event::Received(Ok(bytes)) => EventView::Received(Ok(bytes@)),
            Event::Received(Err(e)) => EventView::Received(Err(e@)),
            Event::Closed(outcome) => EventView::Closed(failure_of(*outcome)),
        }
    }
}

impl View for Command {
    type V = CommandView;

    open spec fn view(&self) -> CommandView {
        match self {
            Command::Ask { text } => CommandView::Ask { text: text@ },
            Command::Sendline(req) => CommandView::Sendline {
                timeout: req.timeout,
                content: req.content@,
            },
            Command::Recv(req) => CommandView::Recv(*req),
            Command::Shutdown(req) => CommandView::Shutdown(*req),
            Command::Finish(outcome) => CommandView::Finish(failure_of(*outcome)),
        }
    }
}

/// The prompt: a dollar sign and a space.
pub open spec fn prompt() -> Seq<char> {
    seq!['$', ' ']
}

/// The receive with which the session collects output: one chunk at most,
/// whatever has come, within the quiet time.
pub open spec fn collect() -> Recv {
    Recv {
        timeout: Timeout::Of(Span { nanos: (QUIET_MILLIS * NANOS_PER_MILLI) as u128 }),
        size: CHUNK,
        must: false,
    }
}

/// The first move of a session: it shows the prompt and reads a line.
pub open spec fn session_start() -> (SessionView, CommandView) {
    (SessionView::Reading, CommandView::Ask { text: prompt() })
}

/// The move that answers `event` in `state`.
///
/// A line from the console is sent to the peer, ended by a line feed and
/// without a time limit; at the end of the input both halves of the tube are
/// closed. Once the line is sent, output is collected until a receive times
/// out, which only means that no more has come for now: what was collected
/// is shown, followed by the prompt, and the next line is read. Any other
/// failure ends the session with that failure, and so does a failed send or
/// close. A report that does not answer what was asked is a defect of the
/// driver and ends the session with `IncorrectAction`.
pub open spec fn session_next(state: SessionView, event: EventView) -> (SessionView, CommandView) {
    match (state, event) {
        (SessionView::Reading, EventView::Line(Some(line))) => (
            SessionView::Sending,
            CommandView::Sendline { timeout: Timeout::Infinite, content: line },
        ),
        (SessionView::Reading, EventView::Line(None)) => (
            SessionView::Closing,
            CommandView::Shutdown(Shutdown { stdin: true, stdout: true }),
        ),
        (SessionView::Sending, EventView::Sent(None)) => (
            SessionView::Collecting { output: Seq::empty() },
            CommandView::Recv(collect()),
        ),
        (SessionView::Sending, EventView::Sent(Some(e))) => (
            SessionView::Over,
            CommandView::Finish(Some(e)),
        ),
        (SessionView::Collecting { output }, EventView::Received(Ok(bytes))) => (
            SessionView::Collecting { output: output + bytes },
            CommandView::Recv(collect()),
        ),
        (SessionView::Collecting { output }, EventView::Received(Err(e))) => if e.kind
            == ErrorKind::Timeout {
            (SessionView::Reading, CommandView::Ask { text: shown(output) + prompt() })
        } else {
            (SessionView::Over, CommandView::Finish(Some(e)))
        },
        (SessionView::Closing, EventView::Closed(outcome)) => (
            SessionView::Over,
            CommandView::Finish(outcome),
        ),
        _ => (
            SessionView::Over,
            CommandView::Finish(Some(ErrorView::of_kind(ErrorKind::IncorrectAction))),
        ),
    }
}

/// A receive that times out while output is collected is no failure of the
/// session: it only means that no more has come for now. The session shows
/// what it has and the prompt, and reads the next line.
pub proof fn lemma_quiet_is_not_a_failure(output: Seq<u8>, source: Option<Seq<char>>)
    ensures
        session_next(
            SessionView::Collecting { output },
            EventView::Received(Err(ErrorView { kind: ErrorKind::Timeout, source })),
        ) == (SessionView::Reading, CommandView::Ask { text: shown(output) + prompt() }),
{
}

/// Any failure but a timeout ends the session, whatever it was doing, and
/// the session returns that failure.
pub proof fn lemma_failure_ends_the_session(output: Seq<u8>, e: ErrorView)
    requires
        e.kind != ErrorKind::Timeout,
    ensures
        session_next(SessionView::Sending, EventView::Sent(Some(e))) == (
            SessionView::Over,
            CommandView::Finish(Some(e)),
        ),
        session_next(SessionView::Collecting { output }, EventView::Received(Err(e))) == (
            SessionView::Over,
            CommandView::Finish(Some(e)),
        ),
        session_next(SessionView::Closing, EventView::Closed(Some(e))) == (
            SessionView::Over,
            CommandView::Finish(Some(e)),
        ),
{
}

/// A session returns without a failure in one way only: the console input
/// ended and the tube was closed without a failure.
pub proof fn lemma_session_ends_well_only_when_closed(state: SessionView, event: EventView)
    requires
        session_next(state, event).1 == CommandView::Finish(None),
    ensures
        state == SessionView::Closing,
        event == EventView::Closed(None),
{
}

/// The receive with which the session collects output.
fn collecting() -> (req: Recv)
    ensures
        req == collect(),
{
    Recv { timeout: Timeout::Of(Span::from_millis(QUIET_MILLIS)), size: CHUNK, must: false }
}

/// The text to show before a line is read: the output, then the prompt.
fn asking(output: &Vec<u8>) -> (text: String)
    ensures
        text@ == shown(output@) + prompt(),
{
    let mut text = show(output.as_slice());
    text.push('$');
    text.push(' ');
    assert(text@ =~= shown(output@) + prompt());
    text
}

/// The end of a session that was told what it did not ask for.
fn confused() -> (moved: (Session, Command))
    ensures
        moved.0@ == SessionView::Over,
        moved.1@ == CommandView::Finish(Some(ErrorView::of_kind(ErrorKind::IncorrectAction))),
{
    (Session::Over, Command::Finish(Err(Error::from_kind(ErrorKind::IncorrectAction))))
}

impl Session {
    /// Begins a session.
    pub fn start() -> (moved: (Session, Command))
        ensures
            (moved.0@, moved.1@) == session_start(),
    {
        let empty: Vec<u8> = Vec::new();
        let text = asking(&empty);
        assert(text@ =~= prompt());
        (Session::Reading, Command::Ask { text })
    }

    /// Answers what the driver reports with the next state and command.
    pub fn step(self, event: Event) -> (moved: (Session, Command))
        ensures
            (moved.0@, moved.1@) == session_next(self@, event@),
    {
        match self {
            Session::Reading => match event {
                Event::Line(Some(line)) => (
                    Session::Sending,
                    Command::Sendline(Sendline { timeout: Timeout::Infinite, content: line }),
                ),
                Event::Line(None) => (
                    Session::Closing,
                    Command::Shutdown(Shutdown { stdin: true, stdout: true }),
                ),
                _ => confused(),
            },
            Session::Sending => match event {
                Event::Sent(Ok(_)) => (
                    Session::Collecting { output: Vec::new() },
                    Command::Recv(collecting()),
                ),
                Event::Sent(Err(e)) => (Session::Over, Command::Finish(Err(e))),
                _ => confused(),
            },
            Session::Collecting { output } => match event {
                Event::Received(Ok(bytes)) => {
                    let mut output = output;
                    let mut bytes = bytes;
                    output.append(&mut bytes);
                    (Session::Collecting { output }, Command::Recv(collecting()))
                },
                Event::Received(Err(e)) => {
                    if e.is_timeout() {
                        (Session::Reading, Command::Ask { text: asking(&output) })
                    } else {
                        (Session::Over, Command::Finish(Err(e)))
                    }
                },
                _ => confused(),
            },
            Session::Closing => match event {
                Event::Closed(outcome) => (Session::Over, Command::Finish(outcome)),
                _ => confused(),
            },
            Session::Over => confused(),
        }
    }
}

} // verus!
