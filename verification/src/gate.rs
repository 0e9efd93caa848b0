//! The launch state machine: supervision of the freshly spawned daemon
//! process, readiness polling against its RPC interface, and the one-time
//! default-wallet bootstrap.  The machine only decides; the caller
//! performs each decided action (checking the process, sleeping and
//! probing, issuing the wallet calls) and feeds the outcome back in as
//! the next event.

use crate::errors::ExitStatus;
use vstd::prelude::*;

verus! {

/// The retry bookkeeping for early process exits.  Each early exit before
/// readiness is presumed to come from a port conflict and answered, while
/// the budget lasts, by a whole-sequence restart: new ports, new command
/// line, new process.
#[derive(Debug, Clone, Copy, PartialEq, Eq)]
pub struct Supervisor {
    /// The attempt budget the launch started with.
    pub initial_attempts: u8,
    /// How much of the budget is still unspent.
    pub attempts_left: u8,
    /// How many times a process has been spawned so far.
    pub spawns: u16,
}

impl Supervisor {
    /// The budget is never overdrawn, and every spent attempt is one
    /// spawn beyond the first.
    pub open spec fn wf(self) -> bool {
        &&& self.attempts_left <= self.initial_attempts
        &&& self.spawns == self.initial_attempts - self.attempts_left + 1
    }

    /// A supervisor for a fresh launch: the first process has just been
    /// spawned, and the whole budget is unspent.
    pub fn start(attempts: u8) -> (s: Supervisor)
        ensures
            s.initial_attempts == attempts,
            s.attempts_left == attempts,
            s.spawns == 1,
            s.wf(),
    {
        Supervisor { initial_attempts: attempts, attempts_left: attempts, spawns: 1 }
    }

    /// Decides the answer to an early process exit: retry with one
    /// attempt less while the budget lasts (the caller then respawns,
    /// which the spawn count records), give up once it is spent.
    pub fn on_early_exit(&mut self) -> (retry: bool)
        requires
            old(self).wf(),
        ensures
            retry == (old(self).attempts_left > 0),
            retry ==> *final(self) == (Supervisor {
                attempts_left: (old(self).attempts_left - 1) as u8,
                spawns: (old(self).spawns + 1) as u16,
                ..*old(self)
            }),
            !retry ==> *final(self) == *old(self),
            final(self).wf(),
    {
        if self.attempts_left > 0 {
            self.attempts_left = self.attempts_left - 1;
            self.spawns = self.spawns + 1;
            true
        } else {
            false
        }
    }
}

/// Once the budget is spent — the moment the early-exit error surfaces —
/// the number of processes spawned is exactly the initial budget plus the
/// one original attempt.
pub proof fn lemma_spawns_at_exhaustion(s: Supervisor)
    requires
        s.wf(),
        s.attempts_left == 0,
    ensures
        s.spawns == s.initial_attempts + 1,
{
}

/// Where the readiness gate stands between two events.
#[derive(Debug, Clone, Copy, PartialEq, Eq)]
pub enum GateState {
    /// Waiting to hear whether the process is still alive.
    AwaitStatus,
    /// Waiting for the outcome of one readiness probe.
    AwaitProbe,
    /// Waiting for the outcome of creating the default wallet.
    AwaitCreate,
    /// Waiting for the outcome of loading the existing default wallet.
    AwaitLoad,
    /// The node is live and its default wallet is usable.
    Ready,
    /// The launch failed for good.
    Failed,
}

/// What the caller observed since the last decision.
#[derive(Debug, Clone, Copy, PartialEq, Eq)]
pub enum GateEvent {
    /// The non-blocking status check found the process already exited.
    StatusExited(ExitStatus),
    /// The status check found the process still running.
    StatusAlive,
    /// No RPC client could be built (no cookie file yet), or the probe
    /// call failed: the node is not ready yet.
    ProbeFailed,
    /// The probe call was answered: the RPC interface is serving.
    ProbeSucceeded,
    /// Creating the default wallet succeeded.
    CreateOk,
    /// Creating the default wallet failed (it may already exist).
    CreateFailed,
    /// Loading the existing default wallet succeeded.
    LoadOk,
    /// Loading the default wallet failed as well.
    LoadFailed,
}

/// What the caller must do next.
#[derive(Debug, Clone, Copy, PartialEq, Eq)]
pub enum GateAction {
    /// Tear the attempt down and restart the whole sequence: new ports,
    /// new command line, new process.
    Restart,
    /// Surface the early exit, with its status, as the fatal error.
    FailEarlyExit(ExitStatus),
    /// Sleep for the poll interval, then try to build a client against
    /// the cookie file and make the liveness probe call.
    Probe,
    /// Check the process status again (non-blocking).
    CheckStatus,
    /// Try to create the default wallet.
    CreateWallet,
    /// Try to load the already existing default wallet.
    LoadWallet,
    /// Surface the wallet-load failure as a fatal RPC error.
    FailRpc,
    /// The launch is complete: build the wallet-scoped client and hand
    /// the node over.
    Finish,
}

/// The events that can arrive in each state.
pub open spec fn event_fits(state: GateState, event: GateEvent) -> bool {
    match state {
        GateState::AwaitStatus => event matches GateEvent::StatusExited(_) || event
            == GateEvent::StatusAlive,
        GateState::AwaitProbe => event == GateEvent::ProbeFailed || event
            == GateEvent::ProbeSucceeded,
        GateState::AwaitCreate => event == GateEvent::CreateOk || event == GateEvent::CreateFailed,
        GateState::AwaitLoad => event == GateEvent::LoadOk || event == GateEvent::LoadFailed,
        GateState::Ready => false,
        GateState::Failed => false,
    }
}

/// The transition table of the readiness gate: the next state and the
/// action owed, given the current state, the remaining attempt
/// budget, and the event.
pub open spec fn gate_next(state: GateState, attempts_left: u8, event: GateEvent) -> (
    GateState,
    GateAction,
) {
    match (state, event) {
        (GateState::AwaitStatus, GateEvent::StatusExited(st)) => if attempts_left > 0 {
            (GateState::AwaitStatus, GateAction::Restart)
        } else {
            (GateState::Failed, GateAction::FailEarlyExit(st))
        },
        (GateState::AwaitStatus, GateEvent::StatusAlive) => (
            GateState::AwaitProbe,
            GateAction::Probe,
        ),
        (GateState::AwaitProbe, GateEvent::ProbeFailed) => (
            GateState::AwaitStatus,
            GateAction::CheckStatus,
        ),
        (GateState::AwaitProbe, GateEvent::ProbeSucceeded) => (
            GateState::AwaitCreate,
            GateAction::CreateWallet,
        ),
        (GateState::AwaitCreate, GateEvent::CreateOk) => (GateState::Ready, GateAction::Finish),
        (GateState::AwaitCreate, GateEvent::CreateFailed) => (
            GateState::AwaitLoad,
            GateAction::LoadWallet,
        ),
        (GateState::AwaitLoad, GateEvent::LoadOk) => (GateState::Ready, GateAction::Finish),
        (GateState::AwaitLoad, GateEvent::LoadFailed) => (GateState::Failed, GateAction::FailRpc),
        _ => (state, GateAction::CheckStatus),
    }
}

/// The readiness gate of one launch: the polling position and the retry
/// bookkeeping, advanced one observed event at a time.
#[derive(Debug, Clone, Copy, PartialEq, Eq)]
pub struct ReadinessGate {
    pub state: GateState,
    pub supervisor: Supervisor,
}

impl ReadinessGate {
    pub open spec fn wf(self) -> bool {
        self.supervisor.wf()
    }

    /// A readiness gate for a launch whose first process was just spawned.
    pub fn start(attempts: u8) -> (g: ReadinessGate)
        ensures
            g.state == GateState::AwaitStatus,
            g.supervisor.initial_attempts == attempts,
            g.supervisor.attempts_left == attempts,
            g.supervisor.spawns == 1,
            g.wf(),
    {
        ReadinessGate { state: GateState::AwaitStatus, supervisor: Supervisor::start(attempts) }
    }

    /// Advances by one observed event and returns the action the
    /// caller owes, exactly as the transition table says.  Only an early
    /// exit answered by a restart touches the retry bookkeeping.
    pub fn step(&mut self, event: GateEvent) -> (a: GateAction)
        requires
            old(self).wf(),
            event_fits(old(self).state, event),
        ensures
            (final(self).state, a) == gate_next(
                old(self).state,
                old(self).supervisor.attempts_left,
                event,
            ),
            a == GateAction::Restart ==> *final(self) == (ReadinessGate {
                state: GateState::AwaitStatus,
                supervisor: Supervisor {
                    attempts_left: (old(self).supervisor.attempts_left - 1) as u8,
                    spawns: (old(self).supervisor.spawns + 1) as u16,
                    ..old(self).supervisor
                },
            }),
            a != GateAction::Restart ==> final(self).supervisor == old(self).supervisor,
            final(self).wf(),
    {
        match (self.state, event) {
            (GateState::AwaitStatus, GateEvent::StatusExited(st)) => {
                let retry = self.supervisor.on_early_exit();
                if retry {
                    self.state = GateState::AwaitStatus;
                    GateAction::Restart
                } else {
                    self.state = GateState::Failed;
                    GateAction::FailEarlyExit(st)
                }
            },
            (GateState::AwaitStatus, GateEvent::StatusAlive) => {
                self.state = GateState::AwaitProbe;
                GateAction::Probe
            },
            (GateState::AwaitProbe, GateEvent::ProbeFailed) => {
                self.state = GateState::AwaitStatus;
                GateAction::CheckStatus
            },
            (GateState::AwaitProbe, GateEvent::ProbeSucceeded) => {
                self.state = GateState::AwaitCreate;
                GateAction::CreateWallet
            },
            (GateState::AwaitCreate, GateEvent::CreateOk) => {
                self.state = GateState::Ready;
                GateAction::Finish
            },
            (GateState::AwaitCreate, GateEvent::CreateFailed) => {
                self.state = GateState::AwaitLoad;
                GateAction::LoadWallet
            },
            (GateState::AwaitLoad, GateEvent::LoadOk) => {
                self.state = GateState::Ready;
                GateAction::Finish
            },
            (GateState::AwaitLoad, GateEvent::LoadFailed) => {
                self.state = GateState::Failed;
                GateAction::FailRpc
            },
            _ => {
                proof {
                    assert(false);
                }
                GateAction::CheckStatus
            },
        }
    }
}

/// Where the wallet bootstrap ends up, given whether the create call and
/// (when it is reached) the load call succeed: create first, load only
/// as the fallback.
pub open spec fn bootstrap_final_state(create_ok: bool, load_ok: bool) -> GateState {
    let first = gate_next(
        GateState::AwaitCreate,
        0,
        if create_ok {
            GateEvent::CreateOk
        } else {
            GateEvent::CreateFailed
        },
    ).0;
    if create_ok {
        first
    } else {
        gate_next(
            first,
            0,
            if load_ok {
                GateEvent::LoadOk
            } else {
                GateEvent::LoadFailed
            },
        ).0
    }
}

/// The wallet bootstrap succeeds exactly when the default wallet can be
/// created or, failing that, loaded.  Running the bootstrap a second time
/// against the same persistent directory therefore succeeds as well: the
/// wallet then already exists, so the create call fails but the load
/// fallback answers, and no error surfaces.
pub proof fn lemma_wallet_bootstrap_total(create_ok: bool, load_ok: bool)
    ensures
        bootstrap_final_state(create_ok, load_ok) == GateState::Ready <==> (create_ok || load_ok),
        !(create_ok || load_ok) ==> bootstrap_final_state(create_ok, load_ok) == GateState::Failed,
{
}

} // verus!
