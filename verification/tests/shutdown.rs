use containerd_shim_wasmtime::shutdown::{Notice, Shutdown, ShutdownAction, Signal};

#[test]
fn signals_have_their_numbers() {
    assert_eq!(Signal::Interrupt.number(), 2);
    assert_eq!(Signal::Quit.number(), 3);
    assert_eq!(Signal::Terminate.number(), 15);
    assert_eq!(Signal::Interrupt.number(), libc::SIGINT);
    assert_eq!(Signal::Quit.number(), libc::SIGQUIT);
    assert_eq!(Signal::Terminate.number(), libc::SIGTERM);
}

#[test]
fn first_signal_asks_for_cancellation() {
    for signal in [Signal::Interrupt, Signal::Quit, Signal::Terminate] {
        assert_eq!(
            Shutdown::Armed.on_notice(Notice::Delivered(signal)),
            (Shutdown::SignaledOnce, ShutdownAction::Cancel)
        );
    }
}

#[test]
fn two_signals_force_the_exit_with_128_plus_the_number() {
    let (state, _) = Shutdown::Armed.on_notice(Notice::Delivered(Signal::Terminate));
    assert_eq!(
        state.on_notice(Notice::Delivered(Signal::Terminate)),
        (Shutdown::SignaledTwice(143), ShutdownAction::Exit(143))
    );
    assert_eq!(
        state.on_notice(Notice::Delivered(Signal::Interrupt)),
        (Shutdown::SignaledTwice(130), ShutdownAction::Exit(130))
    );
    assert_eq!(
        state.on_notice(Notice::Delivered(Signal::Quit)),
        (Shutdown::SignaledTwice(131), ShutdownAction::Exit(131))
    );
}

#[test]
fn forced_exit_goes_by_the_second_signal() {
    let (state, action) = Shutdown::Armed.on_notice(Notice::Delivered(Signal::Interrupt));
    assert_eq!(action, ShutdownAction::Cancel);
    let (state, action) = state.on_notice(Notice::Delivered(Signal::Terminate));
    assert_eq!(action, ShutdownAction::Exit(128 + libc::SIGTERM));
    assert_eq!(state, Shutdown::SignaledTwice(128 + libc::SIGTERM));
}

#[test]
fn plain_interrupt_forces_exit_code_1_at_once() {
    assert_eq!(
        Shutdown::Armed.on_notice(Notice::Break),
        (Shutdown::SignaledTwice(1), ShutdownAction::Exit(1))
    );
    assert_eq!(
        Shutdown::SignaledOnce.on_notice(Notice::Break),
        (Shutdown::SignaledTwice(1), ShutdownAction::Exit(1))
    );
}

#[test]
fn forced_exit_is_final() {
    let forced = Shutdown::SignaledTwice(143);
    for notice in [
        Notice::Delivered(Signal::Interrupt),
        Notice::Delivered(Signal::Quit),
        Notice::Delivered(Signal::Terminate),
        Notice::Break,
    ] {
        assert_eq!(forced.on_notice(notice), (forced, ShutdownAction::Exit(143)));
    }
}
