use crate::error::RussulaError;
use crate::netbench_client_coord::CoordNetbenchClientState;
use crate::protocol::{
    advance_phase, ascii, ascii_bytes, lemma_ascii_len, token_matches, PhaseToken, Protocol,
    StateApi, StepRule,
};
use vstd::prelude::*;

verus! {

/// The phases of a worker that drives a benchmark client.
#[derive(Debug, Clone, Copy, PartialEq, Eq, Structural)]
pub enum WorkerNetbenchClientState {
    /// Waiting for the coordinator's first announcement.
    WaitCoordInit,
    /// Waiting for the coordinator's command to run.
    Ready,
    /// The benchmark starts; the worker then moves on by itself.
    Run,
    /// Waiting for the coordinator to see that the benchmark runs.
    Running,
    /// The benchmark runs to completion; the worker then moves on by itself.
    RunningAwaitComplete,
    /// Waiting for the coordinator to finish.
    Stopped,
    Done,
}

pub open spec fn worker_client_label(p: WorkerNetbenchClientState) -> Seq<char> {
    match p {
        WorkerNetbenchClientState::WaitCoordInit => "client_wait_coord_init"@,
        WorkerNetbenchClientState::Ready => "client_ready"@,
        WorkerNetbenchClientState::Run => "client_run"@,
        WorkerNetbenchClientState::Running => "client_running"@,
        WorkerNetbenchClientState::RunningAwaitComplete => "client_running_await_complete"@,
        WorkerNetbenchClientState::Stopped => "client_worker_stopped"@,
        WorkerNetbenchClientState::Done => "client_done"@,
    }
}

impl WorkerNetbenchClientState {
    /// The wire token of the phase as text.
    pub fn label(&self) -> (r: &'static str)
        ensures
            r@ == worker_client_label(*self),
    {
        match self {
            WorkerNetbenchClientState::WaitCoordInit => "client_wait_coord_init",
            WorkerNetbenchClientState::Ready => "client_ready",
            WorkerNetbenchClientState::Run => "client_run",
            WorkerNetbenchClientState::Running => "client_running",
            WorkerNetbenchClientState::RunningAwaitComplete => "client_running_await_complete",
            WorkerNetbenchClientState::Stopped => "client_worker_stopped",
            WorkerNetbenchClientState::Done => "client_done",
        }
    }
}

impl PhaseToken for WorkerNetbenchClientState {
    open spec fn token(self) -> Seq<u8> {
        ascii(worker_client_label(self))
    }

    proof fn lemma_token_injective(self, other: Self) {
        reveal_strlit("client_wait_coord_init");
        reveal_strlit("client_ready");
        reveal_strlit("client_run");
        reveal_strlit("client_running");
        reveal_strlit("client_running_await_complete");
        reveal_strlit("client_worker_stopped");
        reveal_strlit("client_done");
        lemma_ascii_len(worker_client_label(self));
        lemma_ascii_len(worker_client_label(other));
    }

    fn eq(&self, other: &Self) -> (r: bool) {
        *self == *other
    }

    fn as_bytes(&self) -> (r: Vec<u8>) {
        ascii_bytes(self.label())
    }

    fn from_bytes(bytes: &[u8]) -> (r: Result<Self, RussulaError>) {
        if token_matches(bytes, "client_wait_coord_init") {
            Ok(WorkerNetbenchClientState::WaitCoordInit)
        } else if token_matches(bytes, "client_ready") {
            Ok(WorkerNetbenchClientState::Ready)
        } else if token_matches(bytes, "client_run") {
            Ok(WorkerNetbenchClientState::Run)
        } else if token_matches(bytes, "client_running") {
            Ok(WorkerNetbenchClientState::Running)
        } else if token_matches(bytes, "client_running_await_complete") {
            Ok(WorkerNetbenchClientState::RunningAwaitComplete)
        } else if token_matches(bytes, "client_worker_stopped") {
            Ok(WorkerNetbenchClientState::Stopped)
        } else if token_matches(bytes, "client_done") {
            Ok(WorkerNetbenchClientState::Done)
        } else {
            Err(RussulaError::MalformedMessage { bytes: vstd::slice::slice_to_vec(bytes) })
        }
    }
}

impl StateApi for WorkerNetbenchClientState {
    type Peer = CoordNetbenchClientState;

    open spec fn successor(self) -> Self {
        match self {
            WorkerNetbenchClientState::WaitCoordInit => WorkerNetbenchClientState::Ready,
            WorkerNetbenchClientState::Ready => WorkerNetbenchClientState::Run,
            WorkerNetbenchClientState::Run => WorkerNetbenchClientState::Running,
            WorkerNetbenchClientState::Running => WorkerNetbenchClientState::RunningAwaitComplete,
            WorkerNetbenchClientState::RunningAwaitComplete => WorkerNetbenchClientState::Stopped,
            WorkerNetbenchClientState::Stopped => WorkerNetbenchClientState::Done,
            WorkerNetbenchClientState::Done => WorkerNetbenchClientState::Done,
        }
    }

    open spec fn rank(self) -> nat {
        match self {
            WorkerNetbenchClientState::WaitCoordInit => 0,
            WorkerNetbenchClientState::Ready => 1,
            WorkerNetbenchClientState::Run => 2,
            WorkerNetbenchClientState::Running => 3,
            WorkerNetbenchClientState::RunningAwaitComplete => 4,
            WorkerNetbenchClientState::Stopped => 5,
            WorkerNetbenchClientState::Done => 6,
        }
    }

    open spec fn rule(self) -> StepRule<CoordNetbenchClientState> {
        match self {
            WorkerNetbenchClientState::WaitCoordInit => StepRule::AwaitPeer(
                CoordNetbenchClientState::CheckWorker,
            ),
            WorkerNetbenchClientState::Ready => StepRule::AwaitPeer(
                CoordNetbenchClientState::RunWorker,
            ),
            WorkerNetbenchClientState::Run => StepRule::SelfDriven,
            WorkerNetbenchClientState::Running => StepRule::AwaitPeer(
                CoordNetbenchClientState::WorkersRunning,
            ),
            WorkerNetbenchClientState::RunningAwaitComplete => StepRule::SelfDriven,
            WorkerNetbenchClientState::Stopped => StepRule::AwaitPeer(
                CoordNetbenchClientState::Done,
            ),
            WorkerNetbenchClientState::Done => StepRule::Finished,
        }
    }

    /// A worker never announces itself before a step: it answers.
    open spec fn announces(self) -> bool {
        false
    }

    /// The worker reports each phase that its coordinator waits for, as it
    /// enters it.
    open spec fn reports_on_entry(self) -> bool {
        self is Ready || self is Running || self is Stopped
    }

    open spec fn initial() -> Self {
        WorkerNetbenchClientState::WaitCoordInit
    }

    open spec fn ready_phase() -> Self {
        WorkerNetbenchClientState::Ready
    }

    open spec fn done_phase() -> Self {
        WorkerNetbenchClientState::Done
    }

    proof fn lemma_chain(self) {
    }

    fn initial_state() -> (r: Self) {
        WorkerNetbenchClientState::WaitCoordInit
    }

    fn ready() -> (r: Self) {
        WorkerNetbenchClientState::Ready
    }

    fn done() -> (r: Self) {
        WorkerNetbenchClientState::Done
    }

    fn next_state(&self) -> (r: Self) {
        match self {
            WorkerNetbenchClientState::WaitCoordInit => WorkerNetbenchClientState::Ready,
            WorkerNetbenchClientState::Ready => WorkerNetbenchClientState::Run,
            WorkerNetbenchClientState::Run => WorkerNetbenchClientState::Running,
            WorkerNetbenchClientState::Running => WorkerNetbenchClientState::RunningAwaitComplete,
            WorkerNetbenchClientState::RunningAwaitComplete => WorkerNetbenchClientState::Stopped,
            WorkerNetbenchClientState::Stopped => WorkerNetbenchClientState::Done,
            WorkerNetbenchClientState::Done => WorkerNetbenchClientState::Done,
        }
    }

    fn step_rule(&self) -> (r: StepRule<CoordNetbenchClientState>) {
        match self {
            WorkerNetbenchClientState::WaitCoordInit => StepRule::AwaitPeer(
                CoordNetbenchClientState::CheckWorker,
            ),
            WorkerNetbenchClientState::Ready => StepRule::AwaitPeer(
                CoordNetbenchClientState::RunWorker,
            ),
            WorkerNetbenchClientState::Run => StepRule::SelfDriven,
            WorkerNetbenchClientState::Running => StepRule::AwaitPeer(
                CoordNetbenchClientState::WorkersRunning,
            ),
            WorkerNetbenchClientState::RunningAwaitComplete => StepRule::SelfDriven,
            WorkerNetbenchClientState::Stopped => StepRule::AwaitPeer(
                CoordNetbenchClientState::Done,
            ),
            WorkerNetbenchClientState::Done => StepRule::Finished,
        }
    }

    fn announces_state(&self) -> (r: bool) {
        false
    }

    fn reports_state_on_entry(&self) -> (r: bool) {
        match self {
            WorkerNetbenchClientState::Ready => true,
            WorkerNetbenchClientState::Running => true,
            WorkerNetbenchClientState::Stopped => true,
            _ => false,
        }
    }
}

/// The worker role of the client endpoint: listens for its coordinator and
/// follows it through the phases.
#[derive(Debug, Clone, Copy)]
pub struct NetbenchWorkerClientProtocol {
    state: WorkerNetbenchClientState,
}

impl NetbenchWorkerClientProtocol {
    pub fn new() -> (r: Self)
        ensures
            r.phase() == WorkerNetbenchClientState::WaitCoordInit,
    {
        NetbenchWorkerClientProtocol { state: WorkerNetbenchClientState::WaitCoordInit }
    }
}

impl Protocol for NetbenchWorkerClientProtocol {
    type State = WorkerNetbenchClientState;

    closed spec fn phase(self) -> WorkerNetbenchClientState {
        self.state
    }

    open spec fn initiator() -> bool {
        false
    }

    fn state(&self) -> (r: WorkerNetbenchClientState) {
        self.state
    }

    fn dials_out(&self) -> (r: bool) {
        false
    }

    fn advance_once(&mut self, received: Option<&[u8]>) -> (r: Result<
        Option<Vec<u8>>,
        RussulaError,
    >) {
        advance_phase(&mut self.state, received)
    }

    fn request_next(&mut self) -> (r: bool) {
        false
    }
}

} // verus!
