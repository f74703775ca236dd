//! The two ends of an anonymous pipe.

use vstd::prelude::*;

verus! {

/// The end of a pipe that bytes are read from: an owned handle, held by its
/// raw value.
#[derive(Debug, PartialEq, Eq, Structural)]
pub struct Receiver(pub usize);

/// The end of a pipe that bytes are written to: an owned handle, held by its
/// raw value.
#[derive(Debug, PartialEq, Eq, Structural)]
pub struct Sender(pub usize);

impl Receiver {
    /// The raw handle to read from.
    pub fn as_handle(&self) -> (handle: usize)
        ensures
            handle == self.0,
    {
        self.0
    }
}

impl Sender {
    /// The raw handle to write to.
    pub fn as_handle(&self) -> (handle: usize)
        ensures
            handle == self.0,
    {
        self.0
    }
}

/// The two ends of the pipe that the system made, from the handle it gave
/// for reading and the one it gave for writing.
pub fn create(read: usize, write: usize) -> (ends: (Sender, Receiver))
    ensures
        ends == (Sender(write), Receiver(read)),
{
    (Sender(write), Receiver(read))
}

} // verus!
