use winvcon::relay::{INPUT_QUEUE_CAPACITY, OUTPUT_CHANNEL_CAPACITY};
use winvcon::server::{
    ConnectionError, Host, HostAction, HostError, HostEvent, Listener, ListenerAction,
    ListenerEvent, CONSOLE_HEIGHT, CONSOLE_WIDTH, DEFAULT_CHANNEL,
};
use winvcon::win::command::SpawnError;
use winvcon::win::console::CreationError;

fn listen(events: &[ListenerEvent]) -> (Listener, Vec<ListenerAction>) {
    let mut state = Listener::new();
    let mut actions = Vec::new();
    for event in events {
        let (next, action) = state.step(*event);
        state = next;
        actions.push(action);
    }
    (state, actions)
}

#[test]
fn the_host_brings_a_session_up_and_ends_with_the_shell() {
    let host = Host::new();
    let (host, action) = host.step(HostEvent::Begin);
    assert_eq!(action, HostAction::CreateConsole { width: 80, height: 24 });
    let (host, action) = host.step(HostEvent::Console(Ok(())));
    assert_eq!(action, HostAction::SpawnShell);
    let (host, action) = host.step(HostEvent::Shell(Ok(())));
    assert_eq!(action, HostAction::Serve { input_capacity: 128, output_capacity: 128 });
    assert_eq!(host, Host::Serving);
    let (host, action) = host.step(HostEvent::ChildExited);
    assert_eq!(action, HostAction::Exit);
    assert_eq!(host, Host::Stopped);
    assert_eq!((CONSOLE_WIDTH, CONSOLE_HEIGHT), (80, 24));
    assert_eq!((INPUT_QUEUE_CAPACITY, OUTPUT_CHANNEL_CAPACITY), (128, 128));
}

#[test]
fn a_host_that_has_ended_stays_ended() {
    for event in [
        HostEvent::Begin,
        HostEvent::Console(Ok(())),
        HostEvent::Console(Err(CreationError::Pipe(1))),
        HostEvent::Shell(Ok(())),
        HostEvent::Shell(Err(SpawnError::Allocation)),
        HostEvent::Listener(ConnectionError::Bind(None)),
        HostEvent::ChildExited,
    ] {
        assert_eq!(Host::Stopped.step(event), (Host::Stopped, HostAction::Ignore));
    }
}

#[test]
fn a_terminal_that_cannot_be_made_ends_the_host() {
    let (host, _) = Host::new().step(HostEvent::Begin);
    let (host, action) = host.step(HostEvent::Console(Err(CreationError::Console(5))));
    assert_eq!(host, Host::Stopped);
    assert_eq!(action, HostAction::Fail(HostError::Console(CreationError::Console(5))));
    assert_eq!(HostError::Console(CreationError::Console(5)).message(), "Failed to create console");
}

#[test]
fn a_shell_that_cannot_be_started_ends_the_host() {
    let (host, _) = Host::new().step(HostEvent::Begin);
    let (host, _) = host.step(HostEvent::Console(Ok(())));
    let (host, action) = host.step(HostEvent::Shell(Err(SpawnError::Process(2))));
    assert_eq!(host, Host::Stopped);
    assert_eq!(action, HostAction::Fail(HostError::Spawn(SpawnError::Process(2))));
    assert_eq!(HostError::Spawn(SpawnError::Process(2)).message(), "Failed to spawn process");
}

#[test]
fn the_host_ignores_what_it_did_not_ask_for() {
    assert_eq!(Host::Idle.step(HostEvent::ChildExited), (Host::Idle, HostAction::Ignore));
    assert_eq!(
        Host::CreatingConsole.step(HostEvent::Shell(Ok(()))),
        (Host::CreatingConsole, HostAction::Ignore)
    );
    assert_eq!(Host::Serving.step(HostEvent::Begin), (Host::Serving, HostAction::Ignore));
}

#[test]
fn the_listener_rebinds_before_it_hands_a_client_over() {
    let (state, actions) = listen(&[
        ListenerEvent::Begin,
        ListenerEvent::Bound(Ok(())),
        ListenerEvent::Connected(Ok(())),
        ListenerEvent::Bound(Ok(())),
        ListenerEvent::Connected(Ok(())),
        ListenerEvent::Bound(Ok(())),
    ]);
    assert_eq!(state, Listener::Accepting);
    assert_eq!(
        actions,
        vec![
            ListenerAction::Bind { first_instance: true },
            ListenerAction::Accept,
            ListenerAction::Bind { first_instance: false },
            ListenerAction::DispatchAndAccept,
            ListenerAction::Bind { first_instance: false },
            ListenerAction::DispatchAndAccept,
        ]
    );
}

#[test]
fn a_first_bind_that_fails_ends_the_listening() {
    let (state, actions) = listen(&[ListenerEvent::Begin, ListenerEvent::Bound(Err(Some(5)))]);
    assert_eq!(state, Listener::Stopped);
    assert_eq!(actions[1], ListenerAction::Fail(ConnectionError::Bind(Some(5))));
}

#[test]
fn a_wait_that_fails_ends_the_listening() {
    let (state, actions) = listen(&[
        ListenerEvent::Begin,
        ListenerEvent::Bound(Ok(())),
        ListenerEvent::Connected(Err(None)),
        ListenerEvent::Bound(Ok(())),
        ListenerEvent::Connected(Ok(())),
    ]);
    assert_eq!(state, Listener::Stopped);
    assert_eq!(actions[2], ListenerAction::Fail(ConnectionError::Accept(None)));
    assert_eq!(actions[3], ListenerAction::Ignore);
    assert_eq!(actions[4], ListenerAction::Ignore);
}

#[test]
fn a_rebind_that_fails_ends_the_listening_before_the_client_is_handled() {
    let (state, actions) = listen(&[
        ListenerEvent::Begin,
        ListenerEvent::Bound(Ok(())),
        ListenerEvent::Connected(Ok(())),
        ListenerEvent::Bound(Err(Some(231))),
    ]);
    assert_eq!(state, Listener::Stopped);
    assert_eq!(actions[3], ListenerAction::Fail(ConnectionError::Bind(Some(231))));
    assert!(!actions.contains(&ListenerAction::DispatchAndAccept));
}

#[test]
fn the_listener_ignores_what_it_did_not_ask_for() {
    assert_eq!(
        Listener::Idle.step(ListenerEvent::Bound(Ok(()))),
        (Listener::Idle, ListenerAction::Ignore)
    );
    assert_eq!(
        Listener::Accepting.step(ListenerEvent::Bound(Ok(()))),
        (Listener::Accepting, ListenerAction::Ignore)
    );
    assert_eq!(
        Listener::Binding { connected: true }.step(ListenerEvent::Connected(Ok(()))),
        (Listener::Binding { connected: true }, ListenerAction::Ignore)
    );
}

#[test]
fn a_listener_that_fails_ends_the_host() {
    let (host, action) = Host::Serving.step(HostEvent::Listener(ConnectionError::Bind(Some(5))));
    assert_eq!(host, Host::Stopped);
    assert_eq!(action, HostAction::Fail(HostError::Connection(ConnectionError::Bind(Some(5)))));
    assert_eq!(
        HostError::Connection(ConnectionError::Accept(None)).message(),
        "Failed to serve connections"
    );
    assert_eq!(
        Host::SpawningShell.step(HostEvent::Listener(ConnectionError::Bind(None))),
        (Host::SpawningShell, HostAction::Ignore)
    );
}

#[test]
fn the_channel_has_one_fixed_name() {
    assert_eq!(DEFAULT_CHANNEL, r"\\.\pipe\winvcon-default");
}
