//! What a caller asks of a tube: one request type per operation, and the
//! tagged union of them all.

use crate::io::error::{Error, ErrorKind, ErrorView};
use crate::io::span::Span;
use vstd::prelude::*;
use vstd::std_specs::convert::FromSpecImpl;

verus! {

/// The size of one pull from the transport when none is asked for.
pub const CHUNK: usize = 0x1000;

/// How long an operation may wait, counted from the moment it begins.
#[derive(Clone, Copy, Debug, PartialEq, Eq, Structural)]
pub enum Timeout {
    /// As long as it takes.
    Infinite,
    /// No longer than this.
    Of(Span),
}

impl Timeout {
    /// Whether the budget is used up once `elapsed` has passed: a budget is
    /// used up as soon as that much time has passed. An infinite one never is.
    pub open spec fn spec_expired(self, elapsed: Span) -> bool {
        self matches Timeout::Of(budget) && elapsed@ >= budget@
    }

    /// Whether `elapsed` is strictly more than the budget.
    pub open spec fn spec_exceeded(self, elapsed: Span) -> bool {
        self matches Timeout::Of(budget) && elapsed@ > budget@
    }

    /// The budget that is left once `elapsed` has passed.
    pub open spec fn spec_remaining(self, elapsed: Span) -> Timeout {
        match self {
            Timeout::Infinite => Timeout::Infinite,
            Timeout::Of(budget) => Timeout::Of(budget.spec_minus(elapsed)),
        }
    }

    /// The timeout with this bound, or without one.
    pub fn from_budget(budget: Option<Span>) -> (timeout: Timeout)
        ensures
            timeout == match budget {
                Some(span) => Timeout::Of(span),
                None => Timeout::Infinite,
            },
    {
        match budget {
            Some(span) => Timeout::Of(span),
            None => Timeout::Infinite,
        }
    }

    /// The bound of the timeout; `None` where it has none.
    pub fn budget(&self) -> (budget: Option<Span>)
        ensures
            budget == match *self {
                Timeout::Of(span) => Some(span),
                Timeout::Infinite => None,
            },
    {
        match self {
            Timeout::Of(span) => Some(*span),
            Timeout::Infinite => None,
        }
    }

    /// Whether the budget is used up once `elapsed` has passed.
    pub fn expired(&self, elapsed: Span) -> (yes: bool)
        ensures
            yes == self.spec_expired(elapsed),
    {
        match self {
            Timeout::Infinite => false,
            Timeout::Of(budget) => elapsed.at_least(*budget),
        }
    }

    /// Whether `elapsed` is strictly more than the budget.
    pub fn exceeded(&self, elapsed: Span) -> (yes: bool)
        ensures
            yes == self.spec_exceeded(elapsed),
    {
        match self {
            Timeout::Infinite => false,
            Timeout::Of(budget) => elapsed.longer_than(*budget),
        }
    }

    /// The budget that is left once `elapsed` has passed: the difference, or
    /// nothing where more than the budget has passed. An infinite budget
    /// stays infinite.
    pub fn remaining(&self, elapsed: Span) -> (left: Timeout)
        ensures
            left == self.spec_remaining(elapsed),
    {
        match self {
            Timeout::Infinite => Timeout::Infinite,
            Timeout::Of(budget) => Timeout::Of(budget.minus(elapsed)),
        }
    }
}

/// What is left of a budget and what has passed add up to the budget, as
/// long as no more than the budget has passed; and while the budget is not
/// used up, something is left of it.
pub proof fn lemma_remaining_adds_up(budget: Span, elapsed: Span)
    requires
        elapsed@ <= budget@,
    ensures
        Timeout::Of(budget).spec_remaining(elapsed) matches Timeout::Of(left) && left@ + elapsed@
            == budget@ && (!Timeout::Of(budget).spec_expired(elapsed) ==> left@ > 0),
{
}

/// An infinite budget is never used up and stays infinite.
pub proof fn lemma_infinite_never_expires(elapsed: Span)
    ensures
        !Timeout::Infinite.spec_expired(elapsed),
        !Timeout::Infinite.spec_exceeded(elapsed),
        Timeout::Infinite.spec_remaining(elapsed) == Timeout::Infinite,
{
}

/// A request of any kind.
#[derive(Clone, Debug, PartialEq, Eq)]
pub enum Action {
    /// Transmit `content` as it is.
    Send { timeout: Timeout, content: Vec<u8> },
    /// Receive up to `size` bytes; exactly `size` if `must` is set.
    Recv { timeout: Timeout, size: usize, must: bool },
    /// Receive through the next line feed.
    Recvline { timeout: Timeout },
    /// Receive through the first match of `pattern`.
    Recvuntil { timeout: Timeout, pattern: String },
    /// Transmit `content` followed by one line feed.
    Sendline { timeout: Timeout, content: Vec<u8> },
    /// Bridge the local console to the tube.
    Interactive,
    /// Close the outbound half (`stdin`), the inbound half (`stdout`), or both.
    Shutdown { stdin: bool, stdout: bool },
}

/// The parameters of a send.
#[derive(Clone, Debug, PartialEq, Eq)]
pub struct Send {
    pub timeout: Timeout,
    pub content: Vec<u8>,
}

/// The parameters of a sized receive.
#[derive(Clone, Copy, Debug, PartialEq, Eq, Structural)]
pub struct Recv {
    pub timeout: Timeout,
    pub size: usize,
    pub must: bool,
}

/// The parameters of a receive through the next line feed.
#[derive(Clone, Copy, Debug, PartialEq, Eq, Structural)]
pub struct Recvline {
    pub timeout: Timeout,
}

/// The parameters of a receive through the first match of a pattern.
#[derive(Clone, Debug, PartialEq, Eq)]
pub struct Recvuntil {
    pub timeout: Timeout,
    pub pattern: String,
}

/// The parameters of a send that ends the content with a line feed.
#[derive(Clone, Debug, PartialEq, Eq)]
pub struct Sendline {
    pub timeout: Timeout,
    pub content: Vec<u8>,
}

/// The request for an interactive session, which has no parameters.
#[derive(Clone, Copy, Debug, PartialEq, Eq, Structural)]
pub struct Interactive {}

/// The parameters of a half-close.
#[derive(Clone, Copy, Debug, PartialEq, Eq, Structural)]
pub struct Shutdown {
    pub stdin: bool,
    pub stdout: bool,
}

/// Which part of a duplex channel a half-close closes.
#[derive(Clone, Copy, Debug, PartialEq, Eq, Structural)]
pub enum Half {
    /// Both directions.
    Both,
    /// The outbound direction: nothing more can be sent.
    Write,
    /// The inbound direction: nothing more is received.
    Read,
}

impl Shutdown {
    /// What the request closes: the outbound half for `stdin`, the inbound
    /// half for `stdout`, both for both. A request that names neither half
    /// closes nothing and is not a valid request.
    pub open spec fn spec_half(self) -> Option<Half> {
        if self.stdin && self.stdout {
            Some(Half::Both)
        } else if self.stdin {
            Some(Half::Write)
        } else if self.stdout {
            Some(Half::Read)
        } else {
            None
        }
    }

    /// What the request closes; `None` for a request that names neither half.
    pub fn half(&self) -> (half: Option<Half>)
        ensures
            half == self.spec_half(),
    {
        if self.stdin && self.stdout {
            Some(Half::Both)
        } else if self.stdin {
            Some(Half::Write)
        } else if self.stdout {
            Some(Half::Read)
        } else {
            None
        }
    }
}

impl Shutdown {
    /// What the request closes, for the transport that is to close it. A
    /// request has to name at least one half: one that names neither is
    /// refused with `IncorrectAction`.
    pub fn checked_half(&self) -> (half: Result<Half, Error>)
        ensures
            match self.spec_half() {
                Some(named) => half matches Ok(h) && h == named,
                None => half matches Err(e) && e@ == ErrorView::of_kind(
                    ErrorKind::IncorrectAction,
                ),
            },
    {
        match self.half() {
            Some(named) => Ok(named),
            None => Err(Error::from_kind(ErrorKind::IncorrectAction)),
        }
    }
}

impl Default for Send {
    fn default() -> (s: Send)
        ensures
            s.timeout == Timeout::Infinite,
            s.content@ == Seq::<u8>::empty(),
    {
        Send { timeout: Timeout::Infinite, content: Vec::new() }
    }
}

impl Default for Recv {
    fn default() -> (r: Recv)
        ensures
            r == (Recv { timeout: Timeout::Infinite, size: CHUNK, must: false }),
    {
        Recv { timeout: Timeout::Infinite, size: CHUNK, must: false }
    }
}

impl Default for Recvline {
    fn default() -> (r: Recvline)
        ensures
            r == (Recvline { timeout: Timeout::Infinite }),
    {
        Recvline { timeout: Timeout::Infinite }
    }
}

impl Default for Recvuntil {
    fn default() -> (r: Recvuntil)
        ensures
            r.timeout == Timeout::Infinite,
            r.pattern@ == Seq::<char>::empty(),
    {
        Recvuntil { timeout: Timeout::Infinite, pattern: String::new() }
    }
}

impl Default for Sendline {
    fn default() -> (s: Sendline)
        ensures
            s.timeout == Timeout::Infinite,
            s.content@ == Seq::<u8>::empty(),
    {
        Sendline { timeout: Timeout::Infinite, content: Vec::new() }
    }
}

impl Default for Interactive {
    fn default() -> (i: Interactive)
        ensures
            i == (Interactive {}),
    {
        Interactive {}
    }
}

impl Default for Shutdown {
    fn default() -> (s: Shutdown)
        ensures
            s == (Shutdown { stdin: true, stdout: true }),
    {
        Shutdown { stdin: true, stdout: true }
    }
}

/// An `Action` as a mathematical value.
pub enum ActionView {
    Send { timeout: Timeout, content: Seq<u8> },
    Recv { timeout: Timeout, size: usize, must: bool },
    Recvline { timeout: Timeout },
    Recvuntil { timeout: Timeout, pattern: Seq<char> },
    Sendline { timeout: Timeout, content: Seq<u8> },
    Interactive,
    Shutdown { stdin: bool, stdout: bool },
}

impl View for Action {
    type V = ActionView;

    open spec fn view(&self) -> ActionView {
        match self {
            Action::Send { timeout, content } => ActionView::Send {
                timeout: *timeout,
                content: content@,
            },
            Action::Recv { timeout, size, must } => ActionView::Recv {
                timeout: *timeout,
                size: *size,
                must: *must,
            },
            Action::Recvline { timeout } => ActionView::Recvline { timeout: *timeout },
            Action::Recvuntil { timeout, pattern } => ActionView::Recvuntil {
                timeout: *timeout,
                pattern: pattern@,
            },
            Action::Sendline { timeout, content } => ActionView::Sendline {
                timeout: *timeout,
                content: content@,
            },
            Action::Interactive => ActionView::Interactive,
            Action::Shutdown { stdin, stdout } => ActionView::Shutdown {
                stdin: *stdin,
                stdout: *stdout,
            },
        }
    }
}

impl Send {
    /// The parameters of a send, each at its default.
    pub fn new() -> (req: Send)
        ensures
            req.timeout == Timeout::Infinite,
            req.content@ == Seq::<u8>::empty(),
    {
        Send::default()
    }

    /// The same request with `timeout` set: how long the operation may wait.
    pub fn timeout(self, timeout: Timeout) -> (req: Send)
        ensures
            req.timeout == timeout,
            req.content@ == self.content@,
    {
        let mut req = self;
        req.timeout = timeout;
        req
    }

    /// The same request with `content` set: the bytes to transmit.
    pub fn content(self, content: Vec<u8>) -> (req: Send)
        ensures
            req.content@ == content@,
            req.timeout == self.timeout,
    {
        let mut req = self;
        req.content = content;
        req
    }

    /// The parameters that `action` carries, where it is a send; any
    /// other kind of request is refused with `IncorrectAction`.
    pub fn try_from_action(action: Action) -> (converted: Result<Send, Error>)
        ensures
            match action@ {
                ActionView::Send { timeout, content } => {
                    &&& converted matches Ok(req)
                    &&& req.timeout == timeout
                    &&& req.content@ == content
                },
                _ => converted matches Err(e) && e@ == ErrorView::of_kind(
                    ErrorKind::IncorrectAction,
                ),
            },
    {
        match action {
            Action::Send { timeout, content } => Ok(Send { timeout, content }),
            _ => Err(Error::from_kind(ErrorKind::IncorrectAction)),
        }
    }
}

impl From<Send> for Action {
    fn from(action: Send) -> (a: Action) {
        Action::Send { timeout: action.timeout, content: action.content }
    }
}

impl FromSpecImpl<Send> for Action {
    open spec fn obeys_from_spec() -> bool {
        true
    }

    open spec fn from_spec(v: Send) -> Action {
        Action::Send { timeout: v.timeout, content: v.content }
    }
}

impl Recv {
    /// The parameters of a sized receive, each at its default.
    pub fn new() -> (req: Recv)
        ensures
            req.timeout == Timeout::Infinite,
            req.size == CHUNK,
            req.must == false,
    {
        Recv::default()
    }

    /// The same request with `timeout` set: how long the operation may wait.
    pub fn timeout(self, timeout: Timeout) -> (req: Recv)
        ensures
            req.timeout == timeout,
            req.size == self.size,
            req.must == self.must,
    {
        let mut req = self;
        req.timeout = timeout;
        req
    }

    /// The same request with `size` set: the number of bytes asked for.
    pub fn size(self, size: usize) -> (req: Recv)
        ensures
            req.size == size,
            req.timeout == self.timeout,
            req.must == self.must,
    {
        let mut req = self;
        req.size = size;
        req
    }

    /// The same request with `must` set: whether exactly that many bytes must come.
    pub fn must(self, must: bool) -> (req: Recv)
        ensures
            req.must == must,
            req.timeout == self.timeout,
            req.size == self.size,
    {
        let mut req = self;
        req.must = must;
        req
    }

    /// The parameters that `action` carries, where it is a sized receive; any
    /// other kind of request is refused with `IncorrectAction`.
    pub fn try_from_action(action: Action) -> (converted: Result<Recv, Error>)
        ensures
            match action@ {
                ActionView::Recv { timeout, size, must } => {
                    &&& converted matches Ok(req)
                    &&& req.timeout == timeout
                    &&& req.size == size
                    &&& req.must == must
                },
                _ => converted matches Err(e) && e@ == ErrorView::of_kind(
                    ErrorKind::IncorrectAction,
                ),
            },
    {
        match action {
            Action::Recv { timeout, size, must } => Ok(Recv { timeout, size, must }),
            _ => Err(Error::from_kind(ErrorKind::IncorrectAction)),
        }
    }
}

impl From<Recv> for Action {
    fn from(action: Recv) -> (a: Action) {
        Action::Recv { timeout: action.timeout, size: action.size, must: action.must }
    }
}

impl FromSpecImpl<Recv> for Action {
    open spec fn obeys_from_spec() -> bool {
        true
    }

    open spec fn from_spec(v: Recv) -> Action {
        Action::Recv { timeout: v.timeout, size: v.size, must: v.must }
    }
}

impl Recvline {
    /// The parameters of a receive of one line, each at its default.
    pub fn new() -> (req: Recvline)
        ensures
            req.timeout == Timeout::Infinite,
    {
        Recvline::default()
    }

    /// The same request with `timeout` set: how long the operation may wait.
    pub fn timeout(self, timeout: Timeout) -> (req: Recvline)
        ensures
            req.timeout == timeout,
    {
        let mut req = self;
        req.timeout = timeout;
        req
    }

    /// The parameters that `action` carries, where it is a receive of one line; any
    /// other kind of request is refused with `IncorrectAction`.
    pub fn try_from_action(action: Action) -> (converted: Result<Recvline, Error>)
        ensures
            match action@ {
                ActionView::Recvline { timeout } => {
                    &&& converted matches Ok(req)
                    &&& req.timeout == timeout
                },
                _ => converted matches Err(e) && e@ == ErrorView::of_kind(
                    ErrorKind::IncorrectAction,
                ),
            },
    {
        match action {
            Action::Recvline { timeout } => Ok(Recvline { timeout }),
            _ => Err(Error::from_kind(ErrorKind::IncorrectAction)),
        }
    }
}

impl From<Recvline> for Action {
    fn from(action: Recvline) -> (a: Action) {
        Action::Recvline { timeout: action.timeout }
    }
}

impl FromSpecImpl<Recvline> for Action {
    open spec fn obeys_from_spec() -> bool {
        true
    }

    open spec fn from_spec(v: Recvline) -> Action {
        Action::Recvline { timeout: v.timeout }
    }
}

impl Recvuntil {
    /// The parameters of a receive through a pattern, each at its default.
    pub fn new() -> (req: Recvuntil)
        ensures
            req.timeout == Timeout::Infinite,
            req.pattern@ == Seq::<char>::empty(),
    {
        Recvuntil::default()
    }

    /// The same request with `timeout` set: how long the operation may wait.
    pub fn timeout(self, timeout: Timeout) -> (req: Recvuntil)
        ensures
            req.timeout == timeout,
            req.pattern@ == self.pattern@,
    {
        let mut req = self;
        req.timeout = timeout;
        req
    }

    /// The same request with `pattern` set: the regular expression to receive through.
    pub fn pattern(self, pattern: String) -> (req: Recvuntil)
        ensures
            req.pattern@ == pattern@,
            req.timeout == self.timeout,
    {
        let mut req = self;
        req.pattern = pattern;
        req
    }

    /// The parameters that `action` carries, where it is a receive through a pattern; any
    /// other kind of request is refused with `IncorrectAction`.
    pub fn try_from_action(action: Action) -> (converted: Result<Recvuntil, Error>)
        ensures
            match action@ {
                ActionView::Recvuntil { timeout, pattern } => {
                    &&& converted matches Ok(req)
                    &&& req.timeout == timeout
                    &&& req.pattern@ == pattern
                },
                _ => converted matches Err(e) && e@ == ErrorView::of_kind(
                    ErrorKind::IncorrectAction,
                ),
            },
    {
        match action {
            Action::Recvuntil { timeout, pattern } => Ok(Recvuntil { timeout, pattern }),
            _ => Err(Error::from_kind(ErrorKind::IncorrectAction)),
        }
    }
}

impl From<Recvuntil> for Action {
    fn from(action: Recvuntil) -> (a: Action) {
        Action::Recvuntil { timeout: action.timeout, pattern: action.pattern }
    }
}

impl FromSpecImpl<Recvuntil> for Action {
    open spec fn obeys_from_spec() -> bool {
        true
    }

    open spec fn from_spec(v: Recvuntil) -> Action {
        Action::Recvuntil { timeout: v.timeout, pattern: v.pattern }
    }
}

impl Sendline {
    /// The parameters of a send of one line, each at its default.
    pub fn new() -> (req: Sendline)
        ensures
            req.timeout == Timeout::Infinite,
            req.content@ == Seq::<u8>::empty(),
    {
        Sendline::default()
    }

    /// The same request with `timeout` set: how long the operation may wait.
    pub fn timeout(self, timeout: Timeout) -> (req: Sendline)
        ensures
            req.timeout == timeout,
            req.content@ == self.content@,
    {
        let mut req = self;
        req.timeout = timeout;
        req
    }

    /// The same request with `content` set: the bytes to transmit.
    pub fn content(self, content: Vec<u8>) -> (req: Sendline)
        ensures
            req.content@ == content@,
            req.timeout == self.timeout,
    {
        let mut req = self;
        req.content = content;
        req
    }

    /// The parameters that `action` carries, where it is a send of one line; any
    /// other kind of request is refused with `IncorrectAction`.
    pub fn try_from_action(action: Action) -> (converted: Result<Sendline, Error>)
        ensures
            match action@ {
                ActionView::Sendline { timeout, content } => {
                    &&& converted matches Ok(req)
                    &&& req.timeout == timeout
                    &&& req.content@ == content
                },
                _ => converted matches Err(e) && e@ == ErrorView::of_kind(
                    ErrorKind::IncorrectAction,
                ),
            },
    {
        match action {
            Action::Sendline { timeout, content } => Ok(Sendline { timeout, content }),
            _ => Err(Error::from_kind(ErrorKind::IncorrectAction)),
        }
    }
}

impl From<Sendline> for Action {
    fn from(action: Sendline) -> (a: Action) {
        Action::Sendline { timeout: action.timeout, content: action.content }
    }
}

impl FromSpecImpl<Sendline> for Action {
    open spec fn obeys_from_spec() -> bool {
        true
    }

    open spec fn from_spec(v: Sendline) -> Action {
        Action::Sendline { timeout: v.timeout, content: v.content }
    }
}

impl Interactive {
    /// The parameters of an interactive session, each at its default.
    pub fn new() -> (req: Interactive)
        ensures
            req == (Interactive {}),
    {
        Interactive::default()
    }

    /// The request that `action` is, where it is an interactive session; any other
    /// kind of request is refused with `IncorrectAction`.
    pub fn try_from_action(action: Action) -> (converted: Result<Interactive, Error>)
        ensures
            match action@ {
                ActionView::Interactive => converted is Ok,
                _ => converted matches Err(e) && e@ == ErrorView::of_kind(
                    ErrorKind::IncorrectAction,
                ),
            },
    {
        match action {
            Action::Interactive => Ok(Interactive {}),
            _ => Err(Error::from_kind(ErrorKind::IncorrectAction)),
        }
    }
}

impl From<Interactive> for Action {
    fn from(action: Interactive) -> (a: Action) {
        Action::Interactive
    }
}

impl FromSpecImpl<Interactive> for Action {
    open spec fn obeys_from_spec() -> bool {
        true
    }

    open spec fn from_spec(v: Interactive) -> Action {
        Action::Interactive
    }
}

impl Shutdown {
    /// The parameters of a half-close, each at its default.
    pub fn new() -> (req: Shutdown)
        ensures
            req.stdin == true,
            req.stdout == true,
    {
        Shutdown::default()
    }

    /// The same request with `stdin` set: whether the outbound half is closed.
    pub fn stdin(self, stdin: bool) -> (req: Shutdown)
        ensures
            req.stdin == stdin,
            req.stdout == self.stdout,
    {
        let mut req = self;
        req.stdin = stdin;
        req
    }

    /// The same request with `stdout` set: whether the inbound half is closed.
    pub fn stdout(self, stdout: bool) -> (req: Shutdown)
        ensures
            req.stdout == stdout,
            req.stdin == self.stdin,
    {
        let mut req = self;
        req.stdout = stdout;
        req
    }

    /// The parameters that `action` carries, where it is a half-close; any
    /// other kind of request is refused with `IncorrectAction`.
    pub fn try_from_action(action: Action) -> (converted: Result<Shutdown, Error>)
        ensures
            match action@ {
                ActionView::Shutdown { stdin, stdout } => {
                    &&& converted matches Ok(req)
                    &&& req.stdin == stdin
                    &&& req.stdout == stdout
                },
                _ => converted matches Err(e) && e@ == ErrorView::of_kind(
                    ErrorKind::IncorrectAction,
                ),
            },
    {
        match action {
            Action::Shutdown { stdin, stdout } => Ok(Shutdown { stdin, stdout }),
            _ => Err(Error::from_kind(ErrorKind::IncorrectAction)),
        }
    }
}

impl From<Shutdown> for Action {
    fn from(action: Shutdown) -> (a: Action) {
        Action::Shutdown { stdin: action.stdin, stdout: action.stdout }
    }
}

impl FromSpecImpl<Shutdown> for Action {
    open spec fn obeys_from_spec() -> bool {
        true
    }

    open spec fn from_spec(v: Shutdown) -> Action {
        Action::Shutdown { stdin: v.stdin, stdout: v.stdout }
    }
}

/// The parameters of a send, each at its default: where a request
/// that is built field by field starts.
pub fn send() -> (req: Send)
    ensures
        req.timeout == Timeout::Infinite,
        req.content@ == Seq::<u8>::empty(),
{
    Send::default()
}

/// The parameters of a sized receive, each at its default: where a request
/// that is built field by field starts.
pub fn recv() -> (req: Recv)
    ensures
        req.timeout == Timeout::Infinite,
        req.size == CHUNK,
        req.must == false,
{
    Recv::default()
}

/// The parameters of a receive of one line, each at its default: where a request
/// that is built field by field starts.
pub fn recvline() -> (req: Recvline)
    ensures
        req.timeout == Timeout::Infinite,
{
    Recvline::default()
}

/// The parameters of a receive through a pattern, each at its default: where a request
/// that is built field by field starts.
pub fn recvuntil() -> (req: Recvuntil)
    ensures
        req.timeout == Timeout::Infinite,
        req.pattern@ == Seq::<char>::empty(),
{
    Recvuntil::default()
}

/// The parameters of a send of one line, each at its default: where a request
/// that is built field by field starts.
pub fn sendline() -> (req: Sendline)
    ensures
        req.timeout == Timeout::Infinite,
        req.content@ == Seq::<u8>::empty(),
{
    Sendline::default()
}

/// The parameters of an interactive session, each at its default: where a request
/// that is built field by field starts.
pub fn interactive() -> (req: Interactive)
    ensures
        req == (Interactive {}),
{
    Interactive::default()
}

/// The parameters of a half-close, each at its default: where a request
/// that is built field by field starts.
pub fn shutdown() -> (req: Shutdown)
    ensures
        req.stdin == true,
        req.stdout == true,
{
    Shutdown::default()
}

} // verus!
