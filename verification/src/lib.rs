//! Buffered, deadline-aware byte streams ("tubes") for driving interactive
//! programs and network services.
//!
//! The library is the protocol core of a tube: the receive buffer, the
//! timeout arithmetic, and the decisions of `send`, `recv`, `recvuntil` and
//! the interactive session. It performs no input or output itself. A driver
//! owns the child process or the socket, carries out the action that each
//! step asks for, and reports back what happened.
//!
//! A receive, for instance, goes like this. The driver calls
//! `io::tube::recv_start` with the buffer of the tube and the request. The
//! step it gets back either completes the receive, fails it, or asks for one
//! poll of the transport. After a poll the driver calls
//! `io::tube::recv_resume` with what the poll brought and the time that has
//! passed since the receive began, and so on until the receive is over.

pub mod io;
pub mod log;
