//! What the host asks of the operating system, and in which order.

pub mod argv;
pub mod cmdline;
pub mod command;
pub mod console;
pub mod mem;
pub mod pipe;
