use containerd_shim_wasmtime::exit::{Failure, IntoErrorCode};
use containerd_shim_wasmtime::server::{ServerAction, ServerEvent, ServerState};
use containerd_shim_wasmtime::shutdown::{Notice, Shutdown, ShutdownAction, Signal};

const EVENTS: [ServerEvent; 6] = [
    ServerEvent::Bound,
    ServerEvent::BindFailed,
    ServerEvent::Accepted,
    ServerEvent::AcceptFailed,
    ServerEvent::Cancelled,
    ServerEvent::Drained,
];

#[test]
fn server_starts_listening_once_bound() {
    assert_eq!(
        ServerState::Starting.step(ServerEvent::Bound),
        (ServerState::Listening, ServerAction::Listen)
    );
    assert_eq!(
        ServerState::Starting.step(ServerEvent::BindFailed),
        (ServerState::Stopped, ServerAction::Fail)
    );
}

#[test]
fn listening_server_serves_each_connection() {
    assert_eq!(
        ServerState::Listening.step(ServerEvent::Accepted),
        (ServerState::Listening, ServerAction::Serve)
    );
    assert_eq!(
        ServerState::Listening.step(ServerEvent::AcceptFailed),
        (ServerState::Stopped, ServerAction::Fail)
    );
}

#[test]
fn cancellation_drains_and_then_stops() {
    assert_eq!(
        ServerState::Listening.step(ServerEvent::Cancelled),
        (ServerState::Draining, ServerAction::Drain)
    );
    assert_eq!(
        ServerState::Draining.step(ServerEvent::Drained),
        (ServerState::Stopped, ServerAction::Finish)
    );
}

#[test]
fn draining_server_accepts_nothing() {
    for event in EVENTS {
        let (next, action) = ServerState::Draining.step(event);
        assert_ne!(action, ServerAction::Serve);
        assert_ne!(action, ServerAction::Listen);
        if event != ServerEvent::Drained {
            assert_eq!((next, action), (ServerState::Draining, ServerAction::Nothing));
        }
    }
}

#[test]
fn stopped_server_stays_stopped() {
    for event in EVENTS {
        assert_eq!(
            ServerState::Stopped.step(event),
            (ServerState::Stopped, ServerAction::Nothing)
        );
    }
}

#[test]
fn events_out_of_place_change_nothing() {
    for event in [ServerEvent::Accepted, ServerEvent::AcceptFailed, ServerEvent::Cancelled, ServerEvent::Drained] {
        assert_eq!(
            ServerState::Starting.step(event),
            (ServerState::Starting, ServerAction::Nothing)
        );
    }
    for event in [ServerEvent::Bound, ServerEvent::BindFailed, ServerEvent::Drained] {
        assert_eq!(
            ServerState::Listening.step(event),
            (ServerState::Listening, ServerAction::Nothing)
        );
    }
}

#[test]
fn unset_address_single_request_is_served() {
    let (state, action) = ServerState::Starting.step(ServerEvent::Bound);
    assert_eq!(action, ServerAction::Listen);
    let (state, action) = state.step(ServerEvent::Accepted);
    assert_eq!((state, action), (ServerState::Listening, ServerAction::Serve));
}

#[test]
fn one_signal_drains_and_exits_with_code_0() {
    let (server, _) = ServerState::Starting.step(ServerEvent::Bound);
    let (server, action) = server.step(ServerEvent::Accepted);
    assert_eq!(action, ServerAction::Serve);

    let (shutdown, asked) = Shutdown::Armed.on_notice(Notice::Delivered(Signal::Terminate));
    assert_eq!((shutdown, asked), (Shutdown::SignaledOnce, ShutdownAction::Cancel));

    let (server, action) = server.step(ServerEvent::Cancelled);
    assert_eq!((server, action), (ServerState::Draining, ServerAction::Drain));
    let (server, action) = server.step(ServerEvent::Accepted);
    assert_eq!((server, action), (ServerState::Draining, ServerAction::Nothing));
    let (server, action) = server.step(ServerEvent::Drained);
    assert_eq!((server, action), (ServerState::Stopped, ServerAction::Finish));

    let served: Result<(), Failure> = Ok(());
    assert!(matches!(served.into_error_code(), Ok(0)));
}

#[test]
fn two_signals_exit_without_waiting_for_the_drain() {
    let (server, _) = ServerState::Starting.step(ServerEvent::Bound);
    let (shutdown, _) = Shutdown::Armed.on_notice(Notice::Delivered(Signal::Interrupt));
    let (server, _) = server.step(ServerEvent::Cancelled);
    assert_eq!(server, ServerState::Draining);
    let (_, action) = shutdown.on_notice(Notice::Delivered(Signal::Interrupt));
    assert_eq!(action, ShutdownAction::Exit(128 + 2));
}
