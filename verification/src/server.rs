//! The session server: how it is started in the background, in which order
//! the host brings a session up, how it listens for clients, and when it ends.

use vstd::prelude::*;
use crate::relay::{INPUT_QUEUE_CAPACITY, OUTPUT_CHANNEL_CAPACITY};
use crate::win::cmdline::command_line;
use crate::win::command::{wide, wide_text, Command, CreationFlags, SpawnError, SpawnRequest};
use crate::win::console::CreationError;

verus! {

/// The name of the channel on which the one session of a machine is served.
pub const DEFAULT_CHANNEL: &'static str = "\\\\.\\pipe\\winvcon-default";

/// Columns of a session's terminal.
pub const CONSOLE_WIDTH: i16 = 80;

/// Rows of a session's terminal.
pub const CONSOLE_HEIGHT: i16 = 24;

/// What to ask of the system to start the host program at `exe_path` as a
/// session server in the background: the program with the one argument
/// `server-launch`, detached from the caller, so that the caller may end
/// while the server runs on.
pub fn launch_in_background(_path: &str, exe_path: Vec<u16>) -> (request: SpawnRequest)
    ensures
        request.command_line@ == command_line(seq![exe_path@, wide_text("server-launch"@)]),
        request.flags == (CreationFlags {
            extended_startup_info: true,
            detached_process: true,
            new_process_group: true,
            no_window: true,
        }),
        !request.inherit_handles,
{
    let ghost program = exe_path@;
    let command = Command::new(exe_path).arg(wide("server-launch"));
    assert(command@ =~= seq![program, wide_text("server-launch"@)]);
    command.spawn_into_background()
}

/// The shell that a session runs in its terminal.
pub fn shell() -> (command: Command)
    ensures
        command@ == seq![wide_text("cmd.exe"@)],
{
    Command::new(wide("cmd.exe"))
}

// ---------------------------------------------------------------------------
// The host

/// Why the server listens no more, with the system's error code if it gave
/// one.
#[derive(Clone, Copy, Debug, PartialEq, Eq)]
pub enum ConnectionError {
    /// No endpoint could be bound to the channel's name.
    Bind(Option<i32>),
    /// Waiting for a client failed.
    Accept(Option<i32>),
}

/// Why a session did not come up, or went down.
#[derive(Clone, Copy, Debug, PartialEq, Eq)]
pub enum HostError {
    /// The terminal could not be made.
    Console(CreationError),
    /// The shell could not be started.
    Spawn(SpawnError),
    /// The listener could not bind the channel or wait for a client.
    Connection(ConnectionError),
}

/// What happened to the host.
#[derive(Clone, Copy, Debug, PartialEq, Eq)]
pub enum HostEvent {
    /// Nothing was done yet.
    Begin,
    /// The making of the terminal has ended.
    Console(Result<(), CreationError>),
    /// The start of the shell has ended.
    Shell(Result<(), SpawnError>),
    /// The listener has failed.
    Listener(ConnectionError),
    /// The shell has exited.
    ChildExited,
}

/// What the host does next.
#[derive(Clone, Copy, Debug, PartialEq, Eq)]
pub enum HostAction {
    /// Make a terminal of this size.
    CreateConsole { width: i16, height: i16 },
    /// Start `shell()` attached to the terminal.
    SpawnShell,
    /// Make the queue and the channel with these capacities, start the two
    /// pumps and the listener, and wait for the shell to exit or for the
    /// listener to fail.
    Serve { input_capacity: usize, output_capacity: usize },
    /// End the process: the listener, the connections and the pumps end
    /// with it.
    Exit,
    /// End the process with this failure.
    Fail(HostError),
    /// The event answers nothing that was asked: nothing was done with it.
    Ignore,
}

/// Where the host of a session stands.
#[derive(Clone, Copy, Debug, PartialEq, Eq, Structural)]
pub enum Host {
    /// Nothing was done yet.
    Idle,
    /// The terminal is being made.
    CreatingConsole,
    /// The shell is being started.
    SpawningShell,
    /// The session is up, until the shell exits.
    Serving,
    /// The host has ended.
    Stopped,
}

/// The state and the action that follow `state` on `event`.
pub open spec fn host_step(state: Host, event: HostEvent) -> (Host, HostAction) {
    match (state, event) {
        (Host::Idle, HostEvent::Begin) => (
            Host::CreatingConsole,
            HostAction::CreateConsole { width: CONSOLE_WIDTH, height: CONSOLE_HEIGHT },
        ),
        (Host::CreatingConsole, HostEvent::Console(Ok(_))) => (
            Host::SpawningShell,
            HostAction::SpawnShell,
        ),
        (Host::CreatingConsole, HostEvent::Console(Err(error))) => (
            Host::Stopped,
            HostAction::Fail(HostError::Console(error)),
        ),
        (Host::SpawningShell, HostEvent::Shell(Ok(_))) => (
            Host::Serving,
            HostAction::Serve {
                input_capacity: INPUT_QUEUE_CAPACITY,
                output_capacity: OUTPUT_CHANNEL_CAPACITY,
            },
        ),
        (Host::SpawningShell, HostEvent::Shell(Err(error))) => (
            Host::Stopped,
            HostAction::Fail(HostError::Spawn(error)),
        ),
        (Host::Serving, HostEvent::ChildExited) => (Host::Stopped, HostAction::Exit),
        (Host::Serving, HostEvent::Listener(error)) => (
            Host::Stopped,
            HostAction::Fail(HostError::Connection(error)),
        ),
        (state, _) => (state, HostAction::Ignore),
    }
}

impl HostError {
    /// The step that failed, in words for the user.
    pub fn message(&self) -> (text: &'static str)
        ensures
            text@ == (match *self {
                HostError::Console(_) => "Failed to create console"@,
                HostError::Spawn(_) => "Failed to spawn process"@,
                HostError::Connection(_) => "Failed to serve connections"@,
            }),
    {
        match self {
            HostError::Console(_) => "Failed to create console",
            HostError::Spawn(_) => "Failed to spawn process",
            HostError::Connection(_) => "Failed to serve connections",
        }
    }
}

impl Host {
    /// A host that has done nothing yet.
    pub fn new() -> (host: Host)
        ensures
            host == Host::Idle,
    {
        Host::Idle
    }

    /// Takes what happened and says what the host does next: it makes the
    /// terminal, starts the shell in it, serves until the shell exits, and
    /// ends. A failure while the session comes up ends the host with it, and
    /// so does a failure of the listener.
    pub fn step(self, event: HostEvent) -> (next: (Host, HostAction))
        ensures
            next == host_step(self, event),
    {
        match self {
            Host::Idle => match event {
                HostEvent::Begin => (
                    Host::CreatingConsole,
                    HostAction::CreateConsole { width: CONSOLE_WIDTH, height: CONSOLE_HEIGHT },
                ),
                _ => (self, HostAction::Ignore),
            },
            Host::CreatingConsole => match event {
                HostEvent::Console(Ok(_)) => (Host::SpawningShell, HostAction::SpawnShell),
                HostEvent::Console(Err(error)) => (
                    Host::Stopped,
                    HostAction::Fail(HostError::Console(error)),
                ),
                _ => (self, HostAction::Ignore),
            },
            Host::SpawningShell => match event {
                HostEvent::Shell(Ok(_)) => (
                    Host::Serving,
                    HostAction::Serve {
                        input_capacity: INPUT_QUEUE_CAPACITY,
                        output_capacity: OUTPUT_CHANNEL_CAPACITY,
                    },
                ),
                HostEvent::Shell(Err(error)) => (
                    Host::Stopped,
                    HostAction::Fail(HostError::Spawn(error)),
                ),
                _ => (self, HostAction::Ignore),
            },
            Host::Serving => match event {
                HostEvent::ChildExited => (Host::Stopped, HostAction::Exit),
                HostEvent::Listener(error) => (
                    Host::Stopped,
                    HostAction::Fail(HostError::Connection(error)),
                ),
                _ => (self, HostAction::Ignore),
            },
            Host::Stopped => (self, HostAction::Ignore),
        }
    }
}

/// The state of the host after `events`, taken one after the other from
/// `state` on.
pub open spec fn host_state(state: Host, events: Seq<HostEvent>) -> Host
    decreases events.len(),
{
    if events.len() == 0 {
        state
    } else {
        host_step(host_state(state, events.drop_last()), events.last()).0
    }
}

/// Teardown. When the shell of a session that is up exits, the host ends the
/// process, and it has ended for good: whatever is reported after, the host
/// stays stopped and asks for nothing more.
pub proof fn lemma_host_ends_with_child(later: Seq<HostEvent>, event: HostEvent)
    ensures
        host_step(Host::Serving, HostEvent::ChildExited) == (Host::Stopped, HostAction::Exit),
        host_state(Host::Stopped, later) == Host::Stopped,
        host_step(host_state(Host::Stopped, later), event) == (Host::Stopped, HostAction::Ignore),
    decreases later.len(),
{
    if later.len() > 0 {
        lemma_host_ends_with_child(later.drop_last(), later.last());
    }
}

// ---------------------------------------------------------------------------
// The listener

/// What the system answered to the listener's last request.
#[derive(Clone, Copy, Debug, PartialEq, Eq)]
pub enum ListenerEvent {
    /// Nothing was asked yet.
    Begin,
    /// An endpoint was asked for: it is bound, or the error code.
    Bound(Result<(), Option<i32>>),
    /// A client was waited for: one is connected, or the error code.
    Connected(Result<(), Option<i32>>),
}

/// What the listener does next.
#[derive(Clone, Copy, Debug, PartialEq, Eq)]
pub enum ListenerAction {
    /// Bind a fresh endpoint to the channel's name, as the first instance of
    /// that name or as a further one.
    Bind { first_instance: bool },
    /// Wait for a client on the endpoint bound last.
    Accept,
    /// Hand the connected endpoint to a handler of its own, then wait for a
    /// client on the endpoint bound last.
    DispatchAndAccept,
    /// The server listens no more.
    Fail(ConnectionError),
    /// The event answers no request: nothing was done with it.
    Ignore,
}

/// Where the listener stands between two requests.
#[derive(Clone, Copy, Debug, PartialEq, Eq, Structural)]
pub enum Listener {
    /// Nothing was asked yet.
    Idle,
    /// An endpoint was asked for; `connected` says whether a client is
    /// connected to the one before and waits for its handler.
    Binding { connected: bool },
    /// A client is waited for.
    Accepting,
    /// A failure has ended the listening.
    Stopped,
}

/// The state and the action that follow `state` on `event`.
pub open spec fn listener_step(state: Listener, event: ListenerEvent) -> (Listener, ListenerAction) {
    match (state, event) {
        (Listener::Idle, ListenerEvent::Begin) => (
            Listener::Binding { connected: false },
            ListenerAction::Bind { first_instance: true },
        ),
        (Listener::Binding { connected }, ListenerEvent::Bound(Ok(_))) => (
            Listener::Accepting,
            if connected {
                ListenerAction::DispatchAndAccept
            } else {
                ListenerAction::Accept
            },
        ),
        (Listener::Binding { connected }, ListenerEvent::Bound(Err(code))) => (
            Listener::Stopped,
            ListenerAction::Fail(ConnectionError::Bind(code)),
        ),
        (Listener::Accepting, ListenerEvent::Connected(Ok(_))) => (
            Listener::Binding { connected: true },
            ListenerAction::Bind { first_instance: false },
        ),
        (Listener::Accepting, ListenerEvent::Connected(Err(code))) => (
            Listener::Stopped,
            ListenerAction::Fail(ConnectionError::Accept(code)),
        ),
        (state, _) => (state, ListenerAction::Ignore),
    }
}

impl Listener {
    /// A listener that has asked for nothing yet.
    pub fn new() -> (listener: Listener)
        ensures
            listener == Listener::Idle,
    {
        Listener::Idle
    }

    /// Takes the system's answer and says what the listener does next: it
    /// binds the first instance of the channel's name and waits for a
    /// client; as soon as one is connected it binds a fresh endpoint, and
    /// only then hands the client to its handler and waits again. It goes
    /// on so until a bind or a wait fails, which ends it.
    pub fn step(self, event: ListenerEvent) -> (next: (Listener, ListenerAction))
        ensures
            next == listener_step(self, event),
    {
        match self {
            Listener::Idle => match event {
                ListenerEvent::Begin => (
                    Listener::Binding { connected: false },
                    ListenerAction::Bind { first_instance: true },
                ),
                _ => (self, ListenerAction::Ignore),
            },
            Listener::Binding { connected } => match event {
                ListenerEvent::Bound(Ok(_)) => {
                    if connected {
                        (Listener::Accepting, ListenerAction::DispatchAndAccept)
                    } else {
                        (Listener::Accepting, ListenerAction::Accept)
                    }
                },
                ListenerEvent::Bound(Err(code)) => (
                    Listener::Stopped,
                    ListenerAction::Fail(ConnectionError::Bind(code)),
                ),
                _ => (self, ListenerAction::Ignore),
            },
            Listener::Accepting => match event {
                ListenerEvent::Connected(Ok(_)) => (
                    Listener::Binding { connected: true },
                    ListenerAction::Bind { first_instance: false },
                ),
                ListenerEvent::Connected(Err(code)) => (
                    Listener::Stopped,
                    ListenerAction::Fail(ConnectionError::Accept(code)),
                ),
                _ => (self, ListenerAction::Ignore),
            },
            Listener::Stopped => (self, ListenerAction::Ignore),
        }
    }
}

/// The state of the listener after `events`, taken one after the other from
/// `state` on.
pub open spec fn listener_state(state: Listener, events: Seq<ListenerEvent>) -> Listener
    decreases events.len(),
{
    if events.len() == 0 {
        state
    } else {
        listener_step(listener_state(state, events.drop_last()), events.last()).0
    }
}

/// The actions of the listener for `events`, one for each.
pub open spec fn listener_actions(state: Listener, events: Seq<ListenerEvent>) -> Seq<
    ListenerAction,
>
    decreases events.len(),
{
    if events.len() == 0 {
        Seq::empty()
    } else {
        listener_actions(state, events.drop_last()).push(
            listener_step(listener_state(state, events.drop_last()), events.last()).1,
        )
    }
}

/// How many of `actions` bind the first instance of the channel's name.
pub open spec fn first_binds(actions: Seq<ListenerAction>) -> nat
    decreases actions.len(),
{
    if actions.len() == 0 {
        0
    } else {
        first_binds(actions.drop_last()) + if actions.last() == (ListenerAction::Bind {
            first_instance: true,
        }) {
            1nat
        } else {
            0nat
        }
    }
}

/// How many of `actions` bind a further instance: one for each client that
/// was connected.
pub open spec fn further_binds(actions: Seq<ListenerAction>) -> nat
    decreases actions.len(),
{
    if actions.len() == 0 {
        0
    } else {
        further_binds(actions.drop_last()) + if actions.last() == (ListenerAction::Bind {
            first_instance: false,
        }) {
            1nat
        } else {
            0nat
        }
    }
}

/// How many of `actions` hand a client to its handler.
pub open spec fn dispatches(actions: Seq<ListenerAction>) -> nat
    decreases actions.len(),
{
    if actions.len() == 0 {
        0
    } else {
        dispatches(actions.drop_last()) + if actions.last() is DispatchAndAccept {
            1nat
        } else {
            0nat
        }
    }
}

/// How many of `actions` end the listening.
pub open spec fn listener_failures(actions: Seq<ListenerAction>) -> nat
    decreases actions.len(),
{
    if actions.len() == 0 {
        0
    } else {
        listener_failures(actions.drop_last()) + if actions.last() is Fail {
            1nat
        } else {
            0nat
        }
    }
}

/// Whatever the system answers: the first instance of the channel's name is
/// bound once, when the listener begins, and never again; every client but
/// the one whose fresh endpoint is still awaited, or was refused, has been
/// handed to a handler, so that no client is handled before the next can
/// queue; and the listening ends at most once.
pub proof fn lemma_listener_rebinds_before_dispatch(events: Seq<ListenerEvent>)
    ensures
        ({
            let end = listener_state(Listener::Idle, events);
            let actions = listener_actions(Listener::Idle, events);
            &&& first_binds(actions) == if end is Idle {
                0nat
            } else {
                1nat
            }
            &&& dispatches(actions) <= further_binds(actions) <= dispatches(actions) + 1
            &&& end is Accepting ==> dispatches(actions) == further_binds(actions)
            &&& end == (Listener::Binding { connected: true }) ==> further_binds(actions)
                == dispatches(actions) + 1
            &&& end == (Listener::Binding { connected: false }) ==> further_binds(actions) == 0
            &&& end is Idle ==> further_binds(actions) == 0
            &&& listener_failures(actions) == if end is Stopped {
                1nat
            } else {
                0nat
            }
        }),
    decreases events.len(),
{
    if events.len() > 0 {
        lemma_listener_rebinds_before_dispatch(events.drop_last());
        let actions = listener_actions(Listener::Idle, events);
        assert(actions.drop_last() =~= listener_actions(Listener::Idle, events.drop_last()));
    }
}

} // verus!
