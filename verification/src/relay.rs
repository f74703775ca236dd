//! The relays of the session server: what a client's connection and the two
//! pumps of the terminal do with the bytes they are handed, and when they
//! stop.
//!
//! Each of them is driven by the program around the library: it performs the
//! reading, writing, queueing and publishing, and reports what came of it.

use vstd::prelude::*;
use std::sync::Arc;

verus! {

/// How many bytes one read hands over at most, from a client or from the
/// terminal, and so how many bytes a unit holds at most.
pub const CHUNK_SIZE: usize = 256;

/// How many units the queue towards the terminal's input holds before a
/// client that sends more has to wait.
pub const INPUT_QUEUE_CAPACITY: usize = 128;

/// How many units the channel of the terminal's output keeps for a
/// subscriber that has fallen behind.
pub const OUTPUT_CHANNEL_CAPACITY: usize = 128;

/// The bytes that a read left in `buf` when it reported `size` of them: the
/// first `size` bytes of `buf`, and all of `buf` if it reported more than
/// `buf` holds.
pub open spec fn bytes_read(buf: Seq<u8>, size: usize) -> Seq<u8> {
    if size <= buf.len() {
        buf.take(size as int)
    } else {
        buf
    }
}

/// A buffer to read into, from a client or from the terminal: `CHUNK_SIZE`
/// bytes, so that no read hands over more.
pub fn read_buffer() -> (buf: Vec<u8>)
    ensures
        buf@.len() == CHUNK_SIZE,
        forall|i: int| 0 <= i < buf@.len() ==> buf@[i] == 0,
{
    let mut buf: Vec<u8> = Vec::new();
    while buf.len() < CHUNK_SIZE
        invariant
            buf@.len() <= CHUNK_SIZE,
            forall|i: int| 0 <= i < buf@.len() ==> buf@[i] == 0,
        decreases CHUNK_SIZE - buf@.len(),
    {
        buf.push(0);
    }
    buf
}

/// Takes out of `buf` what a read left in it when it reported `size` bytes.
/// The chunk is never longer than the buffer.
pub fn chunk_read(buf: &[u8], size: usize) -> (chunk: Vec<u8>)
    ensures
        chunk@ == bytes_read(buf@, size),
        chunk@.len() <= buf@.len(),
{
    let n = if size <= buf.len() {
        size
    } else {
        buf.len()
    };
    let mut chunk: Vec<u8> = Vec::new();
    let mut i: usize = 0;
    while i < n
        invariant
            i <= n <= buf@.len(),
            chunk@ == buf@.take(i as int),
        decreases n - i,
    {
        chunk.push(buf[i]);
        assert(chunk@ =~= buf@.take(i + 1));
        i = i + 1;
    }
    assert(buf@.take(buf@.len() as int) =~= buf@);
    chunk
}

/// Bytes that one client sent, on their way to the terminal's input.
#[derive(Clone, Debug, PartialEq, Eq)]
pub struct InputCommand(pub Vec<u8>);

/// Bytes that the terminal put out, shared by the clients they go to.
#[derive(Clone, Debug, PartialEq, Eq)]
pub struct OutputCommand(pub Arc<Vec<u8>>);

impl View for InputCommand {
    type V = Seq<u8>;

    open spec fn view(&self) -> Seq<u8> {
        self.0@
    }
}

impl View for OutputCommand {
    type V = Seq<u8>;

    open spec fn view(&self) -> Seq<u8> {
        self.0@
    }
}

/// The bytes of `units`, one unit after the other.
pub open spec fn concat(units: Seq<Seq<u8>>) -> Seq<u8>
    decreases units.len(),
{
    if units.len() == 0 {
        Seq::empty()
    } else {
        concat(units.drop_last()) + units.last()
    }
}

// ---------------------------------------------------------------------------
// One client's connection

/// What happened on a client's connection.
#[derive(Debug, PartialEq, Eq)]
pub enum ClientEvent {
    /// The client sent these bytes; none at all if the read came back empty.
    /// `chunk_read` takes them out of a `read_buffer`.
    Read(Vec<u8>),
    /// Reading from the client failed.
    ReadFailed,
    /// The queue towards the terminal took no unit: its reader is gone.
    QueueClosed,
    /// The subscription to the terminal's output gave this unit.
    Received(OutputCommand),
    /// The subscription fell behind and missed this many units.
    Lagged(u64),
    /// The channel of the terminal's output is closed.
    ChannelClosed,
    /// Writing to the client failed.
    WriteFailed,
}

/// What to do on a client's connection.
#[derive(Debug, PartialEq, Eq)]
pub enum ClientAction {
    /// Put this unit in the queue towards the terminal, waiting for room.
    Enqueue(InputCommand),
    /// Write all bytes of this unit to the client.
    Write(OutputCommand),
    /// Nothing: go on reading and receiving.
    Continue,
    /// Both directions end here, without an error being raised.
    Close,
}

/// A `ClientEvent` by the bytes it carries.
pub enum ClientSignal {
    /// The client sent these bytes.
    Read(Seq<u8>),
    /// Reading from the client failed.
    ReadFailed,
    /// The queue towards the terminal took no unit.
    QueueClosed,
    /// The subscription gave a unit of these bytes.
    Received(Seq<u8>),
    /// The subscription missed this many units.
    Lagged(u64),
    /// The channel of the terminal's output is closed.
    ChannelClosed,
    /// Writing to the client failed.
    WriteFailed,
}

/// A `ClientAction` by the bytes it carries.
pub enum ClientOrder {
    /// Put a unit of these bytes in the queue towards the terminal.
    Enqueue(Seq<u8>),
    /// Write these bytes to the client.
    Write(Seq<u8>),
    /// Nothing.
    Continue,
    /// Both directions end here.
    Close,
}

impl View for ClientEvent {
    type V = ClientSignal;

    open spec fn view(&self) -> ClientSignal {
        match *self {
            ClientEvent::Read(chunk) => ClientSignal::Read(chunk@),
            ClientEvent::ReadFailed => ClientSignal::ReadFailed,
            ClientEvent::QueueClosed => ClientSignal::QueueClosed,
            ClientEvent::Received(unit) => ClientSignal::Received(unit@),
            ClientEvent::Lagged(missed) => ClientSignal::Lagged(missed),
            ClientEvent::ChannelClosed => ClientSignal::ChannelClosed,
            ClientEvent::WriteFailed => ClientSignal::WriteFailed,
        }
    }
}

impl View for ClientAction {
    type V = ClientOrder;

    open spec fn view(&self) -> ClientOrder {
        match *self {
            ClientAction::Enqueue(unit) => ClientOrder::Enqueue(unit@),
            ClientAction::Write(unit) => ClientOrder::Write(unit@),
            ClientAction::Continue => ClientOrder::Continue,
            ClientAction::Close => ClientOrder::Close,
        }
    }
}

/// Whether `signal` ends the connection: every failure does, in either
/// direction, and so does falling behind.
pub open spec fn ends_connection(signal: ClientSignal) -> bool {
    !(signal is Read || signal is Received)
}

/// Whether the connection is open after `signal`, and what is done on it.
/// Bytes read go to the queue as one unit, unless there are none; a unit
/// received is written out; anything else closes the connection, and a
/// closed connection stays closed.
pub open spec fn client_step(open: bool, signal: ClientSignal) -> (bool, ClientOrder) {
    if !open {
        (false, ClientOrder::Close)
    } else {
        match signal {
            ClientSignal::Read(bytes) => if bytes.len() > 0 {
                (true, ClientOrder::Enqueue(bytes))
            } else {
                (true, ClientOrder::Continue)
            },
            ClientSignal::Received(bytes) => (true, ClientOrder::Write(bytes)),
            _ => (false, ClientOrder::Close),
        }
    }
}

/// The server's side of one client's connection.
#[derive(Clone, Copy, Debug, PartialEq, Eq, Structural)]
pub struct ClientConnection {
    /// Whether the two directions still run.
    pub open: bool,
}

impl ClientConnection {
    /// A connection that was just accepted.
    pub fn new() -> (connection: ClientConnection)
        ensures
            connection.open,
    {
        ClientConnection { open: true }
    }

    /// Whether the two directions still run.
    pub fn is_open(&self) -> (open: bool)
        ensures
            open == self.open,
    {
        self.open
    }

    /// Takes what happened on the connection and says what to do.
    pub fn step(&mut self, event: ClientEvent) -> (action: ClientAction)
        ensures
            (final(self).open, action@) == client_step(old(self).open, event@),
    {
        if !self.open {
            return ClientAction::Close;
        }
        match event {
            ClientEvent::Read(chunk) => {
                if chunk.len() > 0 {
                    ClientAction::Enqueue(InputCommand(chunk))
                } else {
                    ClientAction::Continue
                }
            },
            ClientEvent::Received(unit) => ClientAction::Write(unit),
            _ => {
                self.open = false;
                ClientAction::Close
            },
        }
    }
}

// ---------------------------------------------------------------------------
// The pump of the terminal's input

/// What happened at the pump of the terminal's input.
#[derive(Debug, PartialEq, Eq)]
pub enum InputPumpEvent {
    /// The queue gave this unit.
    Received(InputCommand),
    /// The queue is closed and empty.
    QueueClosed,
    /// Writing to the terminal's input failed: the terminal is gone.
    WriteFailed,
}

/// What the pump of the terminal's input does.
#[derive(Debug, PartialEq, Eq)]
pub enum InputPumpAction {
    /// Write all bytes of this unit to the terminal's input, blocking.
    Write(InputCommand),
    /// The pump ends here, for good.
    Stop,
}

/// An `InputPumpEvent` by the bytes it carries.
pub enum InputPumpSignal {
    /// The queue gave a unit of these bytes.
    Received(Seq<u8>),
    /// The queue is closed and empty.
    QueueClosed,
    /// Writing to the terminal's input failed.
    WriteFailed,
}

/// An `InputPumpAction` by the bytes it carries.
pub enum InputPumpOrder {
    /// Write these bytes to the terminal's input.
    Write(Seq<u8>),
    /// The pump ends here.
    Stop,
}

impl View for InputPumpEvent {
    type V = InputPumpSignal;

    open spec fn view(&self) -> InputPumpSignal {
        match *self {
            InputPumpEvent::Received(unit) => InputPumpSignal::Received(unit@),
            InputPumpEvent::QueueClosed => InputPumpSignal::QueueClosed,
            InputPumpEvent::WriteFailed => InputPumpSignal::WriteFailed,
        }
    }
}

impl View for InputPumpAction {
    type V = InputPumpOrder;

    open spec fn view(&self) -> InputPumpOrder {
        match *self {
            InputPumpAction::Write(unit) => InputPumpOrder::Write(unit@),
            InputPumpAction::Stop => InputPumpOrder::Stop,
        }
    }
}

/// Whether the pump runs after `signal`, and what it does. A unit from the
/// queue is written to the terminal; a closed queue or a failed write stops
/// the pump, and a stopped pump stays stopped.
pub open spec fn input_pump_step(running: bool, signal: InputPumpSignal) -> (bool, InputPumpOrder) {
    if !running {
        (false, InputPumpOrder::Stop)
    } else {
        match signal {
            InputPumpSignal::Received(bytes) => (true, InputPumpOrder::Write(bytes)),
            _ => (false, InputPumpOrder::Stop),
        }
    }
}

/// The worker that alone writes to the terminal's input.
#[derive(Clone, Copy, Debug, PartialEq, Eq, Structural)]
pub struct InputPump {
    /// Whether the pump still runs.
    pub running: bool,
}

impl InputPump {
    /// A pump that is about to start.
    pub fn new() -> (pump: InputPump)
        ensures
            pump.running,
    {
        InputPump { running: true }
    }

    /// Whether the pump still runs.
    pub fn is_running(&self) -> (running: bool)
        ensures
            running == self.running,
    {
        self.running
    }

    /// Takes what happened at the pump and says what it does.
    pub fn step(&mut self, event: InputPumpEvent) -> (action: InputPumpAction)
        ensures
            (final(self).running, action@) == input_pump_step(old(self).running, event@),
    {
        if !self.running {
            return InputPumpAction::Stop;
        }
        match event {
            InputPumpEvent::Received(unit) => InputPumpAction::Write(unit),
            _ => {
                self.running = false;
                InputPumpAction::Stop
            },
        }
    }
}

// ---------------------------------------------------------------------------
// The pump of the terminal's output

/// What happened at the pump of the terminal's output.
#[derive(Debug, PartialEq, Eq)]
pub enum OutputPumpEvent {
    /// The terminal put out these bytes; none at all if the read came back
    /// empty. `chunk_read` takes them out of a `read_buffer`.
    Read(Vec<u8>),
    /// Reading from the terminal failed: the terminal is gone.
    ReadFailed,
}

/// What the pump of the terminal's output does.
#[derive(Debug, PartialEq, Eq)]
pub enum OutputPumpAction {
    /// Publish this unit to the subscribers, whether there are any or not,
    /// and go on reading.
    Publish(OutputCommand),
    /// Nothing: go on reading.
    Continue,
    /// The pump ends here, for good.
    Stop,
}

/// An `OutputPumpEvent` by the bytes it carries.
pub enum OutputPumpSignal {
    /// The terminal put out these bytes.
    Read(Seq<u8>),
    /// Reading from the terminal failed.
    ReadFailed,
}

/// An `OutputPumpAction` by the bytes it carries.
pub enum OutputPumpOrder {
    /// Publish a unit of these bytes.
    Publish(Seq<u8>),
    /// Nothing.
    Continue,
    /// The pump ends here.
    Stop,
}

impl View for OutputPumpEvent {
    type V = OutputPumpSignal;

    open spec fn view(&self) -> OutputPumpSignal {
        match *self {
            OutputPumpEvent::Read(chunk) => OutputPumpSignal::Read(chunk@),
            OutputPumpEvent::ReadFailed => OutputPumpSignal::ReadFailed,
        }
    }
}

impl View for OutputPumpAction {
    type V = OutputPumpOrder;

    open spec fn view(&self) -> OutputPumpOrder {
        match *self {
            OutputPumpAction::Publish(unit) => OutputPumpOrder::Publish(unit@),
            OutputPumpAction::Continue => OutputPumpOrder::Continue,
            OutputPumpAction::Stop => OutputPumpOrder::Stop,
        }
    }
}

/// Whether the pump runs after `signal`, and what it does. Bytes read are
/// published as one unit, unless there are none; a failed read stops the
/// pump, and a stopped pump stays stopped. Nothing that a subscriber does
/// reaches the pump.
pub open spec fn output_pump_step(running: bool, signal: OutputPumpSignal) -> (
    bool,
    OutputPumpOrder,
) {
    if !running {
        (false, OutputPumpOrder::Stop)
    } else {
        match signal {
            OutputPumpSignal::Read(bytes) => if bytes.len() > 0 {
                (true, OutputPumpOrder::Publish(bytes))
            } else {
                (true, OutputPumpOrder::Continue)
            },
            OutputPumpSignal::ReadFailed => (false, OutputPumpOrder::Stop),
        }
    }
}

/// The worker that alone reads the terminal's output.
#[derive(Clone, Copy, Debug, PartialEq, Eq, Structural)]
pub struct OutputPump {
    /// Whether the pump still runs.
    pub running: bool,
}

impl OutputPump {
    /// A pump that is about to start.
    pub fn new() -> (pump: OutputPump)
        ensures
            pump.running,
    {
        OutputPump { running: true }
    }

    /// Whether the pump still runs.
    pub fn is_running(&self) -> (running: bool)
        ensures
            running == self.running,
    {
        self.running
    }

    /// Takes what happened at the pump and says what it does.
    pub fn step(&mut self, event: OutputPumpEvent) -> (action: OutputPumpAction)
        ensures
            (final(self).running, action@) == output_pump_step(old(self).running, event@),
    {
        if !self.running {
            return OutputPumpAction::Stop;
        }
        match event {
            OutputPumpEvent::Read(chunk) => {
                if chunk.len() > 0 {
                    OutputPumpAction::Publish(OutputCommand(Arc::new(chunk)))
                } else {
                    OutputPumpAction::Continue
                }
            },
            OutputPumpEvent::ReadFailed => {
                self.running = false;
                OutputPumpAction::Stop
            },
        }
    }
}

} // verus!
