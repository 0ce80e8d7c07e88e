//! Lock-step coordination of benchmark peers.
//!
//! A coordinator drives one or more workers through a fixed, linear chain of
//! phases. Each role is a small state machine whose phases are announced on the
//! wire as short ASCII tokens. The state machines, the wire vocabulary, the
//! per-peer sessions and the all-peers barrier are verified here; sockets,
//! sleeping between polls and process plumbing live with the caller.

mod error;
mod launch;
mod netbench;
mod netbench_client_coord;
mod netbench_client_worker;
mod netbench_server_coord;
mod netbench_server_worker;
mod protocol;
mod russula;
mod scenario;
mod state;

pub use error::{RussulaError, RussulaResult};
pub use launch::{shutdown_user_data, InstanceDetails};
pub use netbench::{ClientContext, ServerContext};
pub use netbench_client_coord::{CoordNetbenchClientState, NetbenchCoordClientProtocol};
pub use netbench_client_worker::{NetbenchWorkerClientProtocol, WorkerNetbenchClientState};
pub use netbench_server_coord::{CoordNetbenchServerState, NetbenchCoordServerProtocol};
pub use netbench_server_worker::{NetbenchWorkerServerProtocol, WorkerNetbenchServerState};
pub use protocol::{
    ascii_bytes, PhaseToken, Protocol, RussulaPoll, StateApi, StepPlan, StepRule, TransitionStep,
};
pub use russula::{PeerAddr, PollBudget, Russula, RussulaBuilder, RussulaPeer};
pub use scenario::{Args, Scenario};
pub use state::{EndpointType, HostCount, State};
