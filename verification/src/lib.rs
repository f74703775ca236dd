//! Session core of a detachable terminal host.
//!
//! One process owns a pseudo-terminal and the shell in it; clients attach to
//! it over a named channel, leave, and come back. This crate holds every
//! decision that the host and its clients take, as functions from plain
//! values to plain values: how a command line is written and read back, in
//! which order the operating system is asked for pipes, the terminal, the
//! attribute list and the process and when each is given back, and what a
//! connection and the pumps of the terminal do with the bytes they are
//! handed. The program around the crate performs the system calls and
//! reports what came of them.

pub mod client;
pub mod flow;
pub mod relay;
pub mod server;
pub mod win;
