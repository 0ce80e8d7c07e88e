use crate::error::RussulaError;
use crate::netbench_server_coord::CoordNetbenchServerState;
use crate::protocol::{
    advance_phase, ascii, ascii_bytes, lemma_ascii_len, token_matches, PhaseToken, Protocol,
    StateApi, StepRule,
};
use vstd::prelude::*;

verus! {

/// The phases of a worker that drives a benchmark server.
#[derive(Debug, Clone, Copy, PartialEq, Eq, Structural)]
pub enum WorkerNetbenchServerState {
    /// Waiting for the coordinator's first announcement.
    WaitPeerInit,
    /// Waiting for the coordinator's command to run.
    Ready,
    /// The benchmark runs; the worker then moves on by itself.
    Run,
    Done,
}

pub open spec fn worker_server_label(p: WorkerNetbenchServerState) -> Seq<char> {
    match p {
        WorkerNetbenchServerState::WaitPeerInit => "server_wait_coord_init"@,
        WorkerNetbenchServerState::Ready => "server_ready"@,
        WorkerNetbenchServerState::Run => "server_wait_peer_done"@,
        WorkerNetbenchServerState::Done => "server_done"@,
    }
}

impl WorkerNetbenchServerState {
    /// The wire token of the phase as text.
    pub fn label(&self) -> (r: &'static str)
        ensures
            r@ == worker_server_label(*self),
    {
        match self {
            WorkerNetbenchServerState::WaitPeerInit => "server_wait_coord_init",
            WorkerNetbenchServerState::Ready => "server_ready",
            WorkerNetbenchServerState::Run => "server_wait_peer_done",
            WorkerNetbenchServerState::Done => "server_done",
        }
    }
}

impl PhaseToken for WorkerNetbenchServerState {
    open spec fn token(self) -> Seq<u8> {
        ascii(worker_server_label(self))
    }

    proof fn lemma_token_injective(self, other: Self) {
        reveal_strlit("server_wait_coord_init");
        reveal_strlit("server_ready");
        reveal_strlit("server_wait_peer_done");
        reveal_strlit("server_done");
        lemma_ascii_len(worker_server_label(self));
        lemma_ascii_len(worker_server_label(other));
    }

    fn eq(&self, other: &Self) -> (r: bool) {
        *self == *other
    }

    fn as_bytes(&self) -> (r: Vec<u8>) {
        ascii_bytes(self.label())
    }

    fn from_bytes(bytes: &[u8]) -> (r: Result<Self, RussulaError>) {
        if token_matches(bytes, "server_wait_coord_init") {
            Ok(WorkerNetbenchServerState::WaitPeerInit)
        } else if token_matches(bytes, "server_ready") {
            Ok(WorkerNetbenchServerState::Ready)
        } else if token_matches(bytes, "server_wait_peer_done") {
            Ok(WorkerNetbenchServerState::Run)
        } else if token_matches(bytes, "server_done") {
            Ok(WorkerNetbenchServerState::Done)
        } else {
            Err(RussulaError::MalformedMessage { bytes: vstd::slice::slice_to_vec(bytes) })
        }
    }
}

impl StateApi for WorkerNetbenchServerState {
    type Peer = CoordNetbenchServerState;

    open spec fn successor(self) -> Self {
        match self {
            WorkerNetbenchServerState::WaitPeerInit => WorkerNetbenchServerState::Ready,
            WorkerNetbenchServerState::Ready => WorkerNetbenchServerState::Run,
            WorkerNetbenchServerState::Run => WorkerNetbenchServerState::Done,
            WorkerNetbenchServerState::Done => WorkerNetbenchServerState::Done,
        }
    }

    open spec fn rank(self) -> nat {
        match self {
            WorkerNetbenchServerState::WaitPeerInit => 0,
            WorkerNetbenchServerState::Ready => 1,
            WorkerNetbenchServerState::Run => 2,
            WorkerNetbenchServerState::Done => 3,
        }
    }

    open spec fn rule(self) -> StepRule<CoordNetbenchServerState> {
        match self {
            WorkerNetbenchServerState::WaitPeerInit => StepRule::AwaitPeer(
                CoordNetbenchServerState::CheckPeer,
            ),
            WorkerNetbenchServerState::Ready => StepRule::AwaitPeer(
                CoordNetbenchServerState::RunPeer,
            ),
            WorkerNetbenchServerState::Run => StepRule::SelfDriven,
            WorkerNetbenchServerState::Done => StepRule::Finished,
        }
    }

    /// A worker never announces itself before a step: it answers.
    open spec fn announces(self) -> bool {
        false
    }

    /// The worker replies with its `Ready` token as soon as the coordinator
    /// has been heard, and reports `Done` once the benchmark has finished.
    open spec fn reports_on_entry(self) -> bool {
        self is Ready || self is Done
    }

    open spec fn initial() -> Self {
        WorkerNetbenchServerState::WaitPeerInit
    }

    open spec fn ready_phase() -> Self {
        WorkerNetbenchServerState::Ready
    }

    open spec fn done_phase() -> Self {
        WorkerNetbenchServerState::Done
    }

    proof fn lemma_chain(self) {
    }

    fn initial_state() -> (r: Self) {
        WorkerNetbenchServerState::WaitPeerInit
    }

    fn ready() -> (r: Self) {
        WorkerNetbenchServerState::Ready
    }

    fn done() -> (r: Self) {
        WorkerNetbenchServerState::Done
    }

    fn next_state(&self) -> (r: Self) {
        match self {
            WorkerNetbenchServerState::WaitPeerInit => WorkerNetbenchServerState::Ready,
            WorkerNetbenchServerState::Ready => WorkerNetbenchServerState::Run,
            WorkerNetbenchServerState::Run => WorkerNetbenchServerState::Done,
            WorkerNetbenchServerState::Done => WorkerNetbenchServerState::Done,
        }
    }

    fn step_rule(&self) -> (r: StepRule<CoordNetbenchServerState>) {
        match self {
            WorkerNetbenchServerState::WaitPeerInit => StepRule::AwaitPeer(
                CoordNetbenchServerState::CheckPeer,
            ),
            WorkerNetbenchServerState::Ready => StepRule::AwaitPeer(
                CoordNetbenchServerState::RunPeer,
            ),
            WorkerNetbenchServerState::Run => StepRule::SelfDriven,
            WorkerNetbenchServerState::Done => StepRule::Finished,
        }
    }

    fn announces_state(&self) -> (r: bool) {
        false
    }

    fn reports_state_on_entry(&self) -> (r: bool) {
        match self {
            WorkerNetbenchServerState::Ready => true,
            WorkerNetbenchServerState::Done => true,
            _ => false,
        }
    }
}

/// The worker role of the server endpoint: listens for its coordinator and
/// follows it through the phases.
#[derive(Debug, Clone, Copy)]
pub struct NetbenchWorkerServerProtocol {
    state: WorkerNetbenchServerState,
}

impl NetbenchWorkerServerProtocol {
    pub fn new() -> (r: Self)
        ensures
            r.phase() == WorkerNetbenchServerState::WaitPeerInit,
    {
        NetbenchWorkerServerProtocol { state: WorkerNetbenchServerState::WaitPeerInit }
    }
}

impl Protocol for NetbenchWorkerServerProtocol {
    type State = WorkerNetbenchServerState;

    closed spec fn phase(self) -> WorkerNetbenchServerState {
        self.state
    }

    open spec fn initiator() -> bool {
        false
    }

    fn state(&self) -> (r: WorkerNetbenchServerState) {
        self.state
    }

    fn dials_out(&self) -> (r: bool) {
        false
    }

    fn advance_once(&mut self, received: Option<&[u8]>) -> (r: Result<
        Option<Vec<u8>>,
        RussulaError,
    >) {
        advance_phase(&mut self.state, received)
    }

    fn request_next(&mut self) -> (r: bool) {
        false
    }
}

} // verus!
