//! Startup core of a container monitor: the rules that decide whether a set of
//! command-line arguments describes a valid launch, and the handshake with the
//! parent process that must complete before any child is created.
//!
//! * [`arguments`]: the fields and switches of the command line, and a set of
//!   arguments as it was given;
//! * [`command_line`]: reading the arguments out of what `clap` matched;
//! * [`invocation`]: the rules for a set of arguments, and the descriptor of a
//!   valid invocation;
//! * [`handshake`]: the coordinator of the handshake, one step at a time;
//! * [`error`] and [`report`]: the failures, their exit statuses and messages;
//! * [`number`]: decimal numbers as text.
//!
//! Nothing in here opens, reads or closes anything: the coordinator says what
//! is to be done, and the process that uses the library does it.

pub mod arguments;
pub mod command_line;
pub mod error;
pub mod handshake;
pub mod invocation;
pub mod number;
pub mod report;
