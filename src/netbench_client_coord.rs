use crate::error::RussulaError;
use crate::netbench_client_worker::WorkerNetbenchClientState;
use crate::protocol::{
    advance_phase, ascii, ascii_bytes, lemma_ascii_len, token_matches, PhaseToken, Protocol,
    StateApi, StepRule,
};
use vstd::prelude::*;

verus! {

/// The phases of a coordinator that drives benchmark clients.
#[derive(Debug, Clone, Copy, PartialEq, Eq, Structural)]
pub enum CoordNetbenchClientState {
    /// Announces itself until the worker reports `Ready`.
    CheckWorker,
    /// Waits for the orchestrator to start the run.
    Ready,
    /// Commands the worker to run until it reports `Running`.
    RunWorker,
    /// Waits for the worker to report `Stopped`.
    WorkersRunning,
    Done,
}

pub open spec fn coord_client_label(p: CoordNetbenchClientState) -> Seq<char> {
    match p {
        CoordNetbenchClientState::CheckWorker => "client_coord_check_worker"@,
        CoordNetbenchClientState::Ready => "client_coord_ready"@,
        CoordNetbenchClientState::RunWorker => "client_coord_run_worker"@,
        CoordNetbenchClientState::WorkersRunning => "client_coord_workers_running"@,
        CoordNetbenchClientState::Done => "client_coord_done"@,
    }
}

impl CoordNetbenchClientState {
    /// The wire token of the phase as text.
    pub fn label(&self) -> (r: &'static str)
        ensures
            r@ == coord_client_label(*self),
    {
        match self {
            CoordNetbenchClientState::CheckWorker => "client_coord_check_worker",
            CoordNetbenchClientState::Ready => "client_coord_ready",
            CoordNetbenchClientState::RunWorker => "client_coord_run_worker",
            CoordNetbenchClientState::WorkersRunning => "client_coord_workers_running",
            CoordNetbenchClientState::Done => "client_coord_done",
        }
    }
}

impl PhaseToken for CoordNetbenchClientState {
    open spec fn token(self) -> Seq<u8> {
        ascii(coord_client_label(self))
    }

    proof fn lemma_token_injective(self, other: Self) {
        reveal_strlit("client_coord_check_worker");
        reveal_strlit("client_coord_ready");
        reveal_strlit("client_coord_run_worker");
        reveal_strlit("client_coord_workers_running");
        reveal_strlit("client_coord_done");
        lemma_ascii_len(coord_client_label(self));
        lemma_ascii_len(coord_client_label(other));
    }

    fn eq(&self, other: &Self) -> (r: bool) {
        *self == *other
    }

    fn as_bytes(&self) -> (r: Vec<u8>) {
        ascii_bytes(self.label())
    }

    fn from_bytes(bytes: &[u8]) -> (r: Result<Self, RussulaError>) {
        if token_matches(bytes, "client_coord_check_worker") {
            Ok(CoordNetbenchClientState::CheckWorker)
        } else if token_matches(bytes, "client_coord_ready") {
            Ok(CoordNetbenchClientState::Ready)
        } else if token_matches(bytes, "client_coord_run_worker") {
            Ok(CoordNetbenchClientState::RunWorker)
        } else if token_matches(bytes, "client_coord_workers_running") {
            Ok(CoordNetbenchClientState::WorkersRunning)
        } else if token_matches(bytes, "client_coord_done") {
            Ok(CoordNetbenchClientState::Done)
        } else {
            Err(RussulaError::MalformedMessage { bytes: vstd::slice::slice_to_vec(bytes) })
        }
    }
}

impl StateApi for CoordNetbenchClientState {
    type Peer = WorkerNetbenchClientState;

    open spec fn successor(self) -> Self {
        match self {
            CoordNetbenchClientState::CheckWorker => CoordNetbenchClientState::Ready,
            CoordNetbenchClientState::Ready => CoordNetbenchClientState::RunWorker,
            CoordNetbenchClientState::RunWorker => CoordNetbenchClientState::WorkersRunning,
            CoordNetbenchClientState::WorkersRunning => CoordNetbenchClientState::Done,
            CoordNetbenchClientState::Done => CoordNetbenchClientState::Done,
        }
    }

    open spec fn rank(self) -> nat {
        match self {
            CoordNetbenchClientState::CheckWorker => 0,
            CoordNetbenchClientState::Ready => 1,
            CoordNetbenchClientState::RunWorker => 2,
            CoordNetbenchClientState::WorkersRunning => 3,
            CoordNetbenchClientState::Done => 4,
        }
    }

    open spec fn rule(self) -> StepRule<WorkerNetbenchClientState> {
        match self {
            CoordNetbenchClientState::CheckWorker => StepRule::AwaitPeer(
                WorkerNetbenchClientState::Ready,
            ),
            CoordNetbenchClientState::Ready => StepRule::UserDriven,
            CoordNetbenchClientState::RunWorker => StepRule::AwaitPeer(
                WorkerNetbenchClientState::Running,
            ),
            CoordNetbenchClientState::WorkersRunning => StepRule::AwaitPeer(
                WorkerNetbenchClientState::Stopped,
            ),
            CoordNetbenchClientState::Done => StepRule::Finished,
        }
    }

    /// The coordinator announces every phase in which it waits on the worker.
    open spec fn announces(self) -> bool {
        self is CheckWorker || self is RunWorker || self is WorkersRunning
    }

    /// Entering `Done` releases the worker from `Stopped`.
    open spec fn reports_on_entry(self) -> bool {
        self is Done
    }

    open spec fn initial() -> Self {
        CoordNetbenchClientState::CheckWorker
    }

    open spec fn ready_phase() -> Self {
        CoordNetbenchClientState::Ready
    }

    open spec fn done_phase() -> Self {
        CoordNetbenchClientState::Done
    }

    proof fn lemma_chain(self) {
    }

    fn initial_state() -> (r: Self) {
        CoordNetbenchClientState::CheckWorker
    }

    fn ready() -> (r: Self) {
        CoordNetbenchClientState::Ready
    }

    fn done() -> (r: Self) {
        CoordNetbenchClientState::Done
    }

    fn next_state(&self) -> (r: Self) {
        match self {
            CoordNetbenchClientState::CheckWorker => CoordNetbenchClientState::Ready,
            CoordNetbenchClientState::Ready => CoordNetbenchClientState::RunWorker,
            CoordNetbenchClientState::RunWorker => CoordNetbenchClientState::WorkersRunning,
            CoordNetbenchClientState::WorkersRunning => CoordNetbenchClientState::Done,
            CoordNetbenchClientState::Done => CoordNetbenchClientState::Done,
        }
    }

    fn step_rule(&self) -> (r: StepRule<WorkerNetbenchClientState>) {
        match self {
            CoordNetbenchClientState::CheckWorker => StepRule::AwaitPeer(
                WorkerNetbenchClientState::Ready,
            ),
            CoordNetbenchClientState::Ready => StepRule::UserDriven,
            CoordNetbenchClientState::RunWorker => StepRule::AwaitPeer(
                WorkerNetbenchClientState::Running,
            ),
            CoordNetbenchClientState::WorkersRunning => StepRule::AwaitPeer(
                WorkerNetbenchClientState::Stopped,
            ),
            CoordNetbenchClientState::Done => StepRule::Finished,
        }
    }

    fn announces_state(&self) -> (r: bool) {
        match self {
            CoordNetbenchClientState::CheckWorker => true,
            CoordNetbenchClientState::RunWorker => true,
            CoordNetbenchClientState::WorkersRunning => true,
            _ => false,
        }
    }

    fn reports_state_on_entry(&self) -> (r: bool) {
        match self {
            CoordNetbenchClientState::Done => true,
            _ => false,
        }
    }
}

/// The coordinator role of the client endpoint: dials each worker and drives
/// it through the phases.
#[derive(Debug, Clone, Copy)]
pub struct NetbenchCoordClientProtocol {
    state: CoordNetbenchClientState,
}

impl NetbenchCoordClientProtocol {
    pub fn new() -> (r: Self)
        ensures
            r.phase() == CoordNetbenchClientState::CheckWorker,
    {
        NetbenchCoordClientProtocol { state: CoordNetbenchClientState::CheckWorker }
    }
}

impl Protocol for NetbenchCoordClientProtocol {
    type State = CoordNetbenchClientState;

    closed spec fn phase(self) -> CoordNetbenchClientState {
        self.state
    }

    open spec fn initiator() -> bool {
        true
    }

    fn state(&self) -> (r: CoordNetbenchClientState) {
        self.state
    }

    fn dials_out(&self) -> (r: bool) {
        true
    }

    fn advance_once(&mut self, received: Option<&[u8]>) -> (r: Result<
        Option<Vec<u8>>,
        RussulaError,
    >) {
        advance_phase(&mut self.state, received)
    }

    fn request_next(&mut self) -> (r: bool) {
        match self.state {
            CoordNetbenchClientState::Ready => {
                self.state = CoordNetbenchClientState::RunWorker;
                true
            },
            _ => false,
        }
    }
}

} // verus!
