use crate::error::RussulaError;
use crate::netbench_server_worker::WorkerNetbenchServerState;
use crate::protocol::{
    advance_phase, ascii, ascii_bytes, lemma_ascii_len, token_matches, PhaseToken, Protocol,
    StateApi, StepRule,
};
use vstd::prelude::*;

verus! {

/// The phases of a coordinator that drives benchmark servers.
#[derive(Debug, Clone, Copy, PartialEq, Eq, Structural)]
pub enum CoordNetbenchServerState {
    /// Announces itself until the worker reports `Ready`.
    CheckPeer,
    /// Waits for the orchestrator to start the run.
    Ready,
    /// Commands the worker to run and moves on without waiting for an
    /// acknowledgment.
    RunPeer,
    /// Waits for the worker to report `Done`.
    KillPeer,
    Done,
}

pub open spec fn coord_server_label(p: CoordNetbenchServerState) -> Seq<char> {
    match p {
        CoordNetbenchServerState::CheckPeer => "coord_check_peer"@,
        CoordNetbenchServerState::Ready => "coord_ready"@,
        CoordNetbenchServerState::RunPeer => "coord_run_peer"@,
        CoordNetbenchServerState::KillPeer => "coord_wait_peer_done"@,
        CoordNetbenchServerState::Done => "coord_done"@,
    }
}

impl CoordNetbenchServerState {
    /// The wire token of the phase as text.
    pub fn label(&self) -> (r: &'static str)
        ensures
            r@ == coord_server_label(*self),
    {
        match self {
            CoordNetbenchServerState::CheckPeer => "coord_check_peer",
            CoordNetbenchServerState::Ready => "coord_ready",
            CoordNetbenchServerState::RunPeer => "coord_run_peer",
            CoordNetbenchServerState::KillPeer => "coord_wait_peer_done",
            CoordNetbenchServerState::Done => "coord_done",
        }
    }
}

impl PhaseToken for CoordNetbenchServerState {
    open spec fn token(self) -> Seq<u8> {
        ascii(coord_server_label(self))
    }

    proof fn lemma_token_injective(self, other: Self) {
        reveal_strlit("coord_check_peer");
        reveal_strlit("coord_ready");
        reveal_strlit("coord_run_peer");
        reveal_strlit("coord_wait_peer_done");
        reveal_strlit("coord_done");
        lemma_ascii_len(coord_server_label(self));
        lemma_ascii_len(coord_server_label(other));
    }

    fn eq(&self, other: &Self) -> (r: bool) {
        *self == *other
    }

    fn as_bytes(&self) -> (r: Vec<u8>) {
        ascii_bytes(self.label())
    }

    fn from_bytes(bytes: &[u8]) -> (r: Result<Self, RussulaError>) {
        if token_matches(bytes, "coord_check_peer") {
            Ok(CoordNetbenchServerState::CheckPeer)
        } else if token_matches(bytes, "coord_ready") {
            Ok(CoordNetbenchServerState::Ready)
        } else if token_matches(bytes, "coord_run_peer") {
            Ok(CoordNetbenchServerState::RunPeer)
        } else if token_matches(bytes, "coord_wait_peer_done") {
            Ok(CoordNetbenchServerState::KillPeer)
        } else if token_matches(bytes, "coord_done") {
            Ok(CoordNetbenchServerState::Done)
        } else {
            Err(RussulaError::MalformedMessage { bytes: vstd::slice::slice_to_vec(bytes) })
        }
    }
}

impl StateApi for CoordNetbenchServerState {
    type Peer = WorkerNetbenchServerState;

    open spec fn successor(self) -> Self {
        match self {
            CoordNetbenchServerState::CheckPeer => CoordNetbenchServerState::Ready,
            CoordNetbenchServerState::Ready => CoordNetbenchServerState::RunPeer,
            CoordNetbenchServerState::RunPeer => CoordNetbenchServerState::KillPeer,
            CoordNetbenchServerState::KillPeer => CoordNetbenchServerState::Done,
            CoordNetbenchServerState::Done => CoordNetbenchServerState::Done,
        }
    }

    open spec fn rank(self) -> nat {
        match self {
            CoordNetbenchServerState::CheckPeer => 0,
            CoordNetbenchServerState::Ready => 1,
            CoordNetbenchServerState::RunPeer => 2,
            CoordNetbenchServerState::KillPeer => 3,
            CoordNetbenchServerState::Done => 4,
        }
    }

    open spec fn rule(self) -> StepRule<WorkerNetbenchServerState> {
        match self {
            CoordNetbenchServerState::CheckPeer => StepRule::AwaitPeer(
                WorkerNetbenchServerState::Ready,
            ),
            CoordNetbenchServerState::Ready => StepRule::UserDriven,
            CoordNetbenchServerState::RunPeer => StepRule::SelfDriven,
            CoordNetbenchServerState::KillPeer => StepRule::AwaitPeer(
                WorkerNetbenchServerState::Done,
            ),
            CoordNetbenchServerState::Done => StepRule::Finished,
        }
    }

    /// The coordinator announces itself while checking on the worker and
    /// when it commands the run.
    open spec fn announces(self) -> bool {
        self is CheckPeer || self is RunPeer
    }

    open spec fn reports_on_entry(self) -> bool {
        false
    }

    open spec fn initial() -> Self {
        CoordNetbenchServerState::CheckPeer
    }

    open spec fn ready_phase() -> Self {
        CoordNetbenchServerState::Ready
    }

    open spec fn done_phase() -> Self {
        CoordNetbenchServerState::Done
    }

    proof fn lemma_chain(self) {
    }

    fn initial_state() -> (r: Self) {
        CoordNetbenchServerState::CheckPeer
    }

    fn ready() -> (r: Self) {
        CoordNetbenchServerState::Ready
    }

    fn done() -> (r: Self) {
        CoordNetbenchServerState::Done
    }

    fn next_state(&self) -> (r: Self) {
        match self {
            CoordNetbenchServerState::CheckPeer => CoordNetbenchServerState::Ready,
            CoordNetbenchServerState::Ready => CoordNetbenchServerState::RunPeer,
            CoordNetbenchServerState::RunPeer => CoordNetbenchServerState::KillPeer,
            CoordNetbenchServerState::KillPeer => CoordNetbenchServerState::Done,
            CoordNetbenchServerState::Done => CoordNetbenchServerState::Done,
        }
    }

    fn step_rule(&self) -> (r: StepRule<WorkerNetbenchServerState>) {
        match self {
            CoordNetbenchServerState::CheckPeer => StepRule::AwaitPeer(
                WorkerNetbenchServerState::Ready,
            ),
            CoordNetbenchServerState::Ready => StepRule::UserDriven,
            CoordNetbenchServerState::RunPeer => StepRule::SelfDriven,
            CoordNetbenchServerState::KillPeer => StepRule::AwaitPeer(
                WorkerNetbenchServerState::Done,
            ),
            CoordNetbenchServerState::Done => StepRule::Finished,
        }
    }

    fn announces_state(&self) -> (r: bool) {
        match self {
            CoordNetbenchServerState::CheckPeer => true,
            CoordNetbenchServerState::RunPeer => true,
            _ => false,
        }
    }

    fn reports_state_on_entry(&self) -> (r: bool) {
        false
    }
}

/// The coordinator role of the server endpoint: dials each worker and drives
/// it through the phases.
#[derive(Debug, Clone, Copy)]
pub struct NetbenchCoordServerProtocol {
    state: CoordNetbenchServerState,
}

impl NetbenchCoordServerProtocol {
    pub fn new() -> (r: Self)
        ensures
            r.phase() == CoordNetbenchServerState::CheckPeer,
    {
        NetbenchCoordServerProtocol { state: CoordNetbenchServerState::CheckPeer }
    }
}

impl Protocol for NetbenchCoordServerProtocol {
    type State = CoordNetbenchServerState;

    closed spec fn phase(self) -> CoordNetbenchServerState {
        self.state
    }

    open spec fn initiator() -> bool {
        true
    }

    fn state(&self) -> (r: CoordNetbenchServerState) {
        self.state
    }

    fn dials_out(&self) -> (r: bool) {
        true
    }

    fn advance_once(&mut self, received: Option<&[u8]>) -> (r: Result<
        Option<Vec<u8>>,
        RussulaError,
    >) {
        advance_phase(&mut self.state, received)
    }

    fn request_next(&mut self) -> (r: bool) {
        match self.state {
            CoordNetbenchServerState::Ready => {
                self.state = CoordNetbenchServerState::RunPeer;
                true
            },
            _ => false,
        }
    }
}

} // verus!
