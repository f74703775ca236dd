//! The pseudo-terminal of a session: how it is put together from two pipes,
//! and how it is taken apart.

use vstd::prelude::*;
use vstd::multiset::Multiset;
use crate::win::pipe::{create, Receiver, Sender};

verus! {

/// The size of a character grid as the system takes it.
#[derive(Clone, Copy, Debug, PartialEq, Eq, Structural)]
pub struct Coord {
    /// Columns.
    pub x: i16,
    /// Rows.
    pub y: i16,
}

/// Why a session has no pseudo-terminal, with the system's error code.
#[derive(Clone, Copy, Debug, PartialEq, Eq, Structural)]
pub enum CreationError {
    /// The system made no pipe.
    Pipe(i32),
    /// The system made no pseudo-terminal of the two pipes.
    Console(i32),
}

/// One thing to give back to the system.
#[derive(Clone, Copy, Debug, PartialEq, Eq, Structural)]
pub enum Release {
    /// Close this pseudo-terminal.
    Console(isize),
    /// Close this pipe end.
    Handle(usize),
}

/// A pseudo-terminal with the four pipe ends it lives on.
///
/// One pipe carries the input: the session writes to `in_tx`, the terminal
/// reads from `in_rx`. The other carries the output: the terminal writes to
/// `out_tx`, the session reads from `out_rx`. The session never touches the
/// terminal's own two ends, but keeps them open as long as the terminal.
#[derive(Debug, PartialEq, Eq, Structural)]
pub struct PseudoConsole {
    /// The terminal's raw handle.
    pub handle: isize,
    /// Where the terminal reads its input.
    pub in_rx: Receiver,
    /// Where the session reads what the terminal shows.
    pub out_rx: Receiver,
    /// Where the session writes what the terminal takes as typed.
    pub in_tx: Sender,
    /// Where the terminal writes its output.
    pub out_tx: Sender,
}

impl PseudoConsole {
    /// The raw handle, to attach a process to the terminal.
    pub fn handle(&self) -> (handle: isize)
        ensures
            handle == self.handle,
    {
        self.handle
    }

    /// The source of the terminal's output.
    pub fn stdout(&self) -> (source: &Receiver)
        ensures
            *source == self.out_rx,
    {
        &self.out_rx
    }

    /// The sink of the terminal's input.
    pub fn stdin(&self) -> (sink: &Sender)
        ensures
            *sink == self.in_tx,
    {
        &self.in_tx
    }

    /// Ends the terminal: what to give back to the system, in this order.
    /// The terminal goes first, so that its pipe ends outlive it; every
    /// handle is named once.
    pub fn close(self) -> (order: Vec<Release>)
        ensures
            order@ == seq![
                Release::Console(self.handle),
                Release::Handle(self.in_rx.0),
                Release::Handle(self.out_rx.0),
                Release::Handle(self.in_tx.0),
                Release::Handle(self.out_tx.0),
            ],
    {
        let mut order: Vec<Release> = Vec::new();
        order.push(Release::Console(self.handle));
        order.push(Release::Handle(self.in_rx.0));
        order.push(Release::Handle(self.out_rx.0));
        order.push(Release::Handle(self.in_tx.0));
        order.push(Release::Handle(self.out_tx.0));
        order
    }
}

/// The two handles of a pipe as the system gives them.
#[derive(Clone, Copy, Debug, PartialEq, Eq, Structural)]
pub struct PipeHandles {
    /// The handle for reading.
    pub read: usize,
    /// The handle for writing.
    pub write: usize,
}

/// What the system answered to the request made last.
#[derive(Clone, Copy, Debug, PartialEq, Eq)]
pub enum SetupEvent {
    /// Nothing was asked yet.
    Begin,
    /// A pipe was asked for: its handles, or the error code.
    Pipe(Result<PipeHandles, i32>),
    /// The pseudo-terminal was asked for: its handle, or the error code.
    Console(Result<isize, i32>),
}

/// What is left of a setup that failed.
#[derive(Debug, PartialEq, Eq)]
pub struct SetupFailure {
    /// Why it failed.
    pub error: CreationError,
    /// The input pipe, if it was made.
    pub input: Option<(Sender, Receiver)>,
    /// The output pipe, if it was made.
    pub output: Option<(Sender, Receiver)>,
}

/// The ends of a pipe to close, the reading end first.
pub open spec fn pipe_releases(pipe: Option<(Sender, Receiver)>) -> Seq<Release> {
    match pipe {
        Some((tx, rx)) => seq![Release::Handle(rx.0), Release::Handle(tx.0)],
        None => Seq::empty(),
    }
}

impl SetupFailure {
    /// Ends a setup that failed: why it failed, and what to give back to
    /// the system, in this order. The pipe made last goes first; every
    /// handle that was made is named once.
    pub fn close(self) -> (end: (CreationError, Vec<Release>))
        ensures
            end.0 == self.error,
            end.1@ == pipe_releases(self.output) + pipe_releases(self.input),
    {
        let mut order: Vec<Release> = Vec::new();
        match self.output {
            Some((tx, rx)) => {
                order.push(Release::Handle(rx.0));
                order.push(Release::Handle(tx.0));
            },
            None => {},
        }
        assert(order@ =~= pipe_releases(self.output));
        match self.input {
            Some((tx, rx)) => {
                order.push(Release::Handle(rx.0));
                order.push(Release::Handle(tx.0));
            },
            None => {},
        }
        assert(order@ =~= pipe_releases(self.output) + pipe_releases(self.input));
        (self.error, order)
    }
}

/// What to do next.
#[derive(Debug, PartialEq, Eq)]
pub enum SetupAction {
    /// Ask the system for an anonymous pipe.
    CreatePipe,
    /// Ask the system for a pseudo-terminal of this size that reads its
    /// input from `input` and writes its output to `output`.
    CreateConsole { size: Coord, input: usize, output: usize },
    /// The terminal stands.
    Ready(PseudoConsole),
    /// There will be no terminal.
    Fail(SetupFailure),
    /// The event answers no request: nothing was done with it.
    Ignore,
}

/// The making of a pseudo-terminal, between two requests to the system.
#[derive(Debug, PartialEq, Eq)]
pub enum ConsoleSetup {
    /// Nothing was asked yet.
    Idle { width: i16, height: i16 },
    /// The input pipe was asked for.
    OpeningInput { width: i16, height: i16 },
    /// The output pipe was asked for.
    OpeningOutput { width: i16, height: i16, in_tx: Sender, in_rx: Receiver },
    /// The terminal was asked for.
    Creating { in_tx: Sender, in_rx: Receiver, out_tx: Sender, out_rx: Receiver },
    /// `Ready` or `Fail` was given: there is nothing left to do.
    Finished,
}

/// The state and the action that follow `state` on `event`.
pub open spec fn setup_step(state: ConsoleSetup, event: SetupEvent) -> (ConsoleSetup, SetupAction) {
    match (state, event) {
        (ConsoleSetup::Idle { width, height }, SetupEvent::Begin) => (
            ConsoleSetup::OpeningInput { width, height },
            SetupAction::CreatePipe,
        ),
        (ConsoleSetup::OpeningInput { width, height }, SetupEvent::Pipe(Ok(pipe))) => (
            ConsoleSetup::OpeningOutput {
                width,
                height,
                in_tx: Sender(pipe.write),
                in_rx: Receiver(pipe.read),
            },
            SetupAction::CreatePipe,
        ),
        (ConsoleSetup::OpeningInput { width, height }, SetupEvent::Pipe(Err(code))) => (
            ConsoleSetup::Finished,
            SetupAction::Fail(
                SetupFailure { error: CreationError::Pipe(code), input: None, output: None },
            ),
        ),
        (
            ConsoleSetup::OpeningOutput { width, height, in_tx, in_rx },
            SetupEvent::Pipe(Ok(pipe)),
        ) => (
            ConsoleSetup::Creating {
                in_tx,
                in_rx,
                out_tx: Sender(pipe.write),
                out_rx: Receiver(pipe.read),
            },
            SetupAction::CreateConsole {
                size: Coord { x: width, y: height },
                input: in_rx.0,
                output: pipe.write,
            },
        ),
        (
            ConsoleSetup::OpeningOutput { width, height, in_tx, in_rx },
            SetupEvent::Pipe(Err(code)),
        ) => (
            ConsoleSetup::Finished,
            SetupAction::Fail(
                SetupFailure {
                    error: CreationError::Pipe(code),
                    input: Some((in_tx, in_rx)),
                    output: None,
                },
            ),
        ),
        (
            ConsoleSetup::Creating { in_tx, in_rx, out_tx, out_rx },
            SetupEvent::Console(Ok(handle)),
        ) => (
            ConsoleSetup::Finished,
            SetupAction::Ready(PseudoConsole { handle, in_rx, out_rx, in_tx, out_tx }),
        ),
        (
            ConsoleSetup::Creating { in_tx, in_rx, out_tx, out_rx },
            SetupEvent::Console(Err(code)),
        ) => (
            ConsoleSetup::Finished,
            SetupAction::Fail(
                SetupFailure {
                    error: CreationError::Console(code),
                    input: Some((in_tx, in_rx)),
                    output: Some((out_tx, out_rx)),
                },
            ),
        ),
        (state, _) => (state, SetupAction::Ignore),
    }
}

/// The pipe ends of an optional pipe.
pub open spec fn pipe_ends(pipe: Option<(Sender, Receiver)>) -> Multiset<usize> {
    match pipe {
        Some((tx, rx)) => Multiset::empty().insert(tx.0).insert(rx.0),
        None => Multiset::empty(),
    }
}

/// The pipe ends that `state` answers for.
pub open spec fn ends_held(state: ConsoleSetup) -> Multiset<usize> {
    match state {
        ConsoleSetup::OpeningOutput { in_tx, in_rx, .. } => pipe_ends(Some((in_tx, in_rx))),
        ConsoleSetup::Creating { in_tx, in_rx, out_tx, out_rx } => pipe_ends(
            Some((in_tx, in_rx)),
        ).add(pipe_ends(Some((out_tx, out_rx)))),
        _ => Multiset::empty(),
    }
}

/// The pipe ends that `action` hands on: to the terminal that stands, or
/// back to be closed.
pub open spec fn ends_handed_on(action: SetupAction) -> Multiset<usize> {
    match action {
        SetupAction::Ready(console) => pipe_ends(Some((console.in_tx, console.in_rx))).add(
            pipe_ends(Some((console.out_tx, console.out_rx))),
        ),
        SetupAction::Fail(failure) => pipe_ends(failure.input).add(pipe_ends(failure.output)),
        _ => Multiset::empty(),
    }
}

/// The pipe ends that the system gives with `event`, if `state` asked for a
/// pipe.
pub open spec fn ends_given(state: ConsoleSetup, event: SetupEvent) -> Multiset<usize> {
    match (state, event) {
        (ConsoleSetup::OpeningInput { .. }, SetupEvent::Pipe(Ok(pipe)))
        | (ConsoleSetup::OpeningOutput { .. }, SetupEvent::Pipe(Ok(pipe))) => Multiset::empty().insert(
            pipe.write,
        ).insert(pipe.read),
        _ => Multiset::empty(),
    }
}

/// No step loses a pipe end or makes one up: the ends that the state held
/// and those that the system gave are the ends that the next state holds
/// and those that the action hands on. As `Ready` and `Fail` end the setup
/// and `close` names every end once, each end that the system gave is
/// closed once.
pub proof fn lemma_setup_keeps_every_pipe_end(state: ConsoleSetup, event: SetupEvent)
    ensures
        ends_held(setup_step(state, event).0).add(ends_handed_on(setup_step(state, event).1))
            == ends_held(state).add(ends_given(state, event)),
        setup_step(state, event).1 is Ready || setup_step(state, event).1 is Fail ==> setup_step(
            state,
            event,
        ).0 is Finished,
{
    assert(ends_held(setup_step(state, event).0).add(ends_handed_on(setup_step(state, event).1))
        =~= ends_held(state).add(ends_given(state, event)));
}

impl PseudoConsole {
    /// Begins the making of a terminal whose grid is `width` columns by
    /// `height` rows. Nothing is asked of the system before the first step.
    pub fn new(width: i16, height: i16) -> (setup: ConsoleSetup)
        ensures
            setup == (ConsoleSetup::Idle { width, height }),
    {
        ConsoleSetup::Idle { width, height }
    }
}

impl ConsoleSetup {
    /// Takes the system's answer to the last request and says what to do
    /// next: two pipes are asked for, then the terminal on the reading end of
    /// the first and the writing end of the second. The first failure ends
    /// the setup, and the pipes made until then are handed back to be closed.
    pub fn step(self, event: SetupEvent) -> (next: (ConsoleSetup, SetupAction))
        ensures
            next == setup_step(self, event),
    {
        match self {
            ConsoleSetup::Idle { width, height } => match event {
                SetupEvent::Begin => (
                    ConsoleSetup::OpeningInput { width, height },
                    SetupAction::CreatePipe,
                ),
                _ => (ConsoleSetup::Idle { width, height }, SetupAction::Ignore),
            },
            ConsoleSetup::OpeningInput { width, height } => match event {
                SetupEvent::Pipe(Ok(pipe)) => {
                    let (in_tx, in_rx) = create(pipe.read, pipe.write);
                    (
                        ConsoleSetup::OpeningOutput { width, height, in_tx, in_rx },
                        SetupAction::CreatePipe,
                    )
                },
                SetupEvent::Pipe(Err(code)) => (
                    ConsoleSetup::Finished,
                    SetupAction::Fail(
                        SetupFailure {
                            error: CreationError::Pipe(code),
                            input: None,
                            output: None,
                        },
                    ),
                ),
                _ => (ConsoleSetup::OpeningInput { width, height }, SetupAction::Ignore),
            },
            ConsoleSetup::OpeningOutput { width, height, in_tx, in_rx } => match event {
                SetupEvent::Pipe(Ok(pipe)) => {
                    let (out_tx, out_rx) = create(pipe.read, pipe.write);
                    let action = SetupAction::CreateConsole {
                        size: Coord { x: width, y: height },
                        input: in_rx.as_handle(),
                        output: out_tx.as_handle(),
                    };
                    (ConsoleSetup::Creating { in_tx, in_rx, out_tx, out_rx }, action)
                },
                SetupEvent::Pipe(Err(code)) => (
                    ConsoleSetup::Finished,
                    SetupAction::Fail(
                        SetupFailure {
                            error: CreationError::Pipe(code),
                            input: Some((in_tx, in_rx)),
                            output: None,
                        },
                    ),
                ),
                _ => (
                    ConsoleSetup::OpeningOutput { width, height, in_tx, in_rx },
                    SetupAction::Ignore,
                ),
            },
            ConsoleSetup::Creating { in_tx, in_rx, out_tx, out_rx } => match event {
                SetupEvent::Console(Ok(handle)) => (
                    ConsoleSetup::Finished,
                    SetupAction::Ready(PseudoConsole { handle, in_rx, out_rx, in_tx, out_tx }),
                ),
                SetupEvent::Console(Err(code)) => (
                    ConsoleSetup::Finished,
                    SetupAction::Fail(
                        SetupFailure {
                            error: CreationError::Console(code),
                            input: Some((in_tx, in_rx)),
                            output: Some((out_tx, out_rx)),
                        },
                    ),
                ),
                _ => (ConsoleSetup::Creating { in_tx, in_rx, out_tx, out_rx }, SetupAction::Ignore),
            },
            ConsoleSetup::Finished => (ConsoleSetup::Finished, SetupAction::Ignore),
        }
    }
}

} // verus!
