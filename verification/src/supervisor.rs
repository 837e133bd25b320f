//! The supervisory loop around the ingestion loop: a two-state machine,
//! Running and Backoff, restarting the loop after a fixed delay on any
//! fatal error, stopping only on a clean return.

use vstd::prelude::*;

verus! {

/// The recommended fixed backoff before a restart, in milliseconds.
pub const DEFAULT_BACKOFF_MS: u64 = 3000;

#[derive(Clone, Copy, Debug, PartialEq, Eq, Structural)]
pub enum SupervisorState {
    /// The ingestion loop is active.
    Running,
    /// Waiting out the fixed delay before the next restart.
    Backoff,
    /// The ingestion loop returned cleanly; the supervisor is done.
    Stopped,
}

/// What the supervisor observed.
#[derive(Clone, Copy, Debug, PartialEq, Eq, Structural)]
pub enum LoopEvent {
    /// The ingestion loop returned; `true` means cleanly, `false` means
    /// with a fatal error.
    Exited(bool),
    /// The backoff delay has fully elapsed.
    BackoffElapsed,
}

/// What the caller must do next.
#[derive(Clone, Copy, Debug, PartialEq, Eq, Structural)]
pub enum SupervisorAction {
    /// Start a fresh ingestion-loop invocation.
    RunLoop,
    /// Sleep the given number of milliseconds, then report `BackoffElapsed`.
    Sleep(u64),
    /// Terminate: the ingestion loop returned cleanly.
    Stop,
}

#[derive(Clone, Copy, Debug, PartialEq, Eq, Structural)]
pub struct Supervisor {
    pub state: SupervisorState,
    pub backoff_ms: u64,
}

/// The supervisor's transition function: a clean exit stops it, a fatal
/// exit moves it into backoff for the fixed delay, and an elapsed backoff
/// starts a fresh loop invocation.
pub open spec fn spec_transition(s: Supervisor, ev: LoopEvent) -> (Supervisor, SupervisorAction) {
    match ev {
        LoopEvent::Exited(clean) => if clean {
            (Supervisor { state: SupervisorState::Stopped, ..s }, SupervisorAction::Stop)
        } else {
            (
                Supervisor { state: SupervisorState::Backoff, ..s },
                SupervisorAction::Sleep(s.backoff_ms),
            )
        },
        LoopEvent::BackoffElapsed => (
            Supervisor { state: SupervisorState::Running, ..s },
            SupervisorAction::RunLoop,
        ),
    }
}

impl Supervisor {
    /// A new supervisor: the ingestion loop starts at once.
    pub fn new(backoff_ms: u64) -> (s: Self)
        ensures
            s.state == SupervisorState::Running,
            s.backoff_ms == backoff_ms,
    {
        Supervisor { state: SupervisorState::Running, backoff_ms }
    }

    /// One supervisory step: exits are observed while the loop runs, and
    /// the elapse of the delay while backing off.
    pub fn step(&mut self, ev: LoopEvent) -> (a: SupervisorAction)
        requires
            old(self).state is Running ==> ev is Exited,
            old(self).state is Backoff ==> ev is BackoffElapsed,
            !(old(self).state is Stopped),
        ensures
            (*final(self), a) == spec_transition(*old(self), ev),
    {
        match ev {
            LoopEvent::Exited(clean) => {
                if clean {
                    self.state = SupervisorState::Stopped;
                    SupervisorAction::Stop
                } else {
                    self.state = SupervisorState::Backoff;
                    SupervisorAction::Sleep(self.backoff_ms)
                }
            },
            LoopEvent::BackoffElapsed => {
                self.state = SupervisorState::Running;
                SupervisorAction::RunLoop
            },
        }
    }
}

/// One restart per induced failure: from Running, a fatal exit prescribes
/// exactly one sleep of the configured backoff, after which exactly one
/// fresh loop start is prescribed and the supervisor is Running again,
/// with its backoff unchanged.
pub proof fn lemma_one_restart_per_failure(s: Supervisor)
    requires
        s.state is Running,
    ensures
        ({
            let (s1, a1) = spec_transition(s, LoopEvent::Exited(false));
            let (s2, a2) = spec_transition(s1, LoopEvent::BackoffElapsed);
            s1.state is Backoff && a1 == SupervisorAction::Sleep(s.backoff_ms) && s2.state
                is Running && a2 == SupervisorAction::RunLoop && s2.backoff_ms == s.backoff_ms
        }),
{
}

} // verus!
