//! Two-stage shutdown: the first termination signal asks for a cooperative
//! drain, the second one forces the process out.

use vstd::prelude::*;

verus! {

/// A termination signal that the coordinator waits for.
#[derive(Clone, Copy, Debug, PartialEq, Eq, Structural)]
pub enum Signal {
    Interrupt,
    Quit,
    Terminate,
}

impl Signal {
    /// The number under which the operating system delivers the signal.
    pub open spec fn spec_number(self) -> i32 {
        match self {
            Signal::Interrupt => 2,
            Signal::Quit => 3,
            Signal::Terminate => 15,
        }
    }

    /// The number under which the operating system delivers the signal.
    #[verifier::when_used_as_spec(spec_number)]
    pub fn number(self) -> (n: i32)
        ensures
            n == self.spec_number(),
    {
        match self {
            Signal::Interrupt => 2,
            Signal::Quit => 3,
            Signal::Terminate => 15,
        }
    }
}

/// What wakes the coordinator.
#[derive(Clone, Copy, Debug, PartialEq, Eq, Structural)]
pub enum Notice {
    /// A signal was delivered.
    Delivered(Signal),
    /// The interrupt of a platform that delivers no signals: the single
    /// source that there is on it.
    Break,
}

/// How far the shutdown has come.
#[derive(Clone, Copy, Debug, PartialEq, Eq, Structural)]
pub enum Shutdown {
    /// Nothing has asked for a shutdown.
    Armed,
    /// One signal came, and the work in flight is being drained.
    SignaledOnce,
    /// The process is forced out with this exit code.
    SignaledTwice(i32),
}

/// What the coordinator asks for.
#[derive(Clone, Copy, Debug, PartialEq, Eq, Structural)]
pub enum ShutdownAction {
    /// Trigger the shared cancellation signal and let the work in flight
    /// come to its end.
    Cancel,
    /// Leave at once with this exit code, whatever is in flight.
    Exit(i32),
}

/// The exit code of a process that a signal forced out.
pub open spec fn forced_exit_code(signal: Signal) -> i32 {
    (128 + signal.number()) as i32
}

impl Shutdown {
    /// The coordinator's next state and what it asks for. The first signal
    /// asks for cancellation, the second forces the exit with 128 plus the
    /// signal's number, and a forced exit stays what it is. Where no signals
    /// are delivered, the interrupt forces the exit with code 1 at once.
    pub open spec fn spec_on_notice(self, notice: Notice) -> (Shutdown, ShutdownAction) {
        match self {
            Shutdown::SignaledTwice(code) => (self, ShutdownAction::Exit(code)),
            Shutdown::Armed => match notice {
                Notice::Delivered(_) => (Shutdown::SignaledOnce, ShutdownAction::Cancel),
                Notice::Break => (Shutdown::SignaledTwice(1), ShutdownAction::Exit(1)),
            },
            Shutdown::SignaledOnce => match notice {
                Notice::Delivered(signal) => (
                    Shutdown::SignaledTwice(forced_exit_code(signal)),
                    ShutdownAction::Exit(forced_exit_code(signal)),
                ),
                Notice::Break => (Shutdown::SignaledTwice(1), ShutdownAction::Exit(1)),
            },
        }
    }

    /// Takes a notice: see [`Shutdown::spec_on_notice`].
    #[verifier::when_used_as_spec(spec_on_notice)]
    pub fn on_notice(self, notice: Notice) -> (next: (Shutdown, ShutdownAction))
        ensures
            next == self.spec_on_notice(notice),
    {
        match self {
            Shutdown::SignaledTwice(code) => (self, ShutdownAction::Exit(code)),
            Shutdown::Armed => match notice {
                Notice::Delivered(_) => (Shutdown::SignaledOnce, ShutdownAction::Cancel),
                Notice::Break => (Shutdown::SignaledTwice(1), ShutdownAction::Exit(1)),
            },
            Shutdown::SignaledOnce => match notice {
                Notice::Delivered(signal) => {
                    let code = 128 + signal.number();
                    (Shutdown::SignaledTwice(code), ShutdownAction::Exit(code))
                },
                Notice::Break => (Shutdown::SignaledTwice(1), ShutdownAction::Exit(1)),
            },
        }
    }

    /// The state after a run of notices.
    pub open spec fn after(self, notices: Seq<Notice>) -> Shutdown
        decreases notices.len(),
    {
        if notices.len() == 0 {
            self
        } else {
            self.after(notices.drop_last()).on_notice(notices.last()).0
        }
    }
}

/// One signal asks for cancellation and forces nothing.
pub proof fn lemma_first_signal_cancels(signal: Signal)
    ensures
        Shutdown::Armed.on_notice(Notice::Delivered(signal)) == (
            Shutdown::SignaledOnce,
            ShutdownAction::Cancel,
        ),
{
}

/// Two signals force the exit, with 128 plus the number of the second.
pub proof fn lemma_second_signal_forces(first: Signal, second: Signal)
    ensures
        Shutdown::Armed.on_notice(Notice::Delivered(first)).0.on_notice(Notice::Delivered(second))
            == (
            Shutdown::SignaledTwice(forced_exit_code(second)),
            ShutdownAction::Exit(forced_exit_code(second)),
        ),
        forced_exit_code(second) == 128 + second.number(),
{
}

/// Cancellation is asked for at most once: only the first notice of a run
/// can ask for it.
pub proof fn lemma_cancel_only_when_armed(state: Shutdown, notice: Notice)
    ensures
        state.on_notice(notice).1 == ShutdownAction::Cancel ==> state == Shutdown::Armed,
        state.on_notice(notice).0 != Shutdown::Armed,
{
}

/// A forced exit is final: no notice changes its code.
pub proof fn lemma_forced_exit_is_final(code: i32, notices: Seq<Notice>)
    ensures
        Shutdown::SignaledTwice(code).after(notices) == Shutdown::SignaledTwice(code),
    decreases notices.len(),
{
    if notices.len() > 0 {
        lemma_forced_exit_is_final(code, notices.drop_last());
    }
}

} // verus!
