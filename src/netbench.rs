use crate::russula::PeerAddr;
use vstd::prelude::*;

verus! {

/// How a benchmark client host is driven.
#[derive(Debug, Clone)]
pub struct ClientContext {
    pub testing: bool,
    /// The directory of the netbench utility and scenario file.
    pub netbench_path: String,
    pub driver: String,
    /// The name of the scenario file.
    pub scenario: String,
    /// The servers to connect to.
    pub netbench_servers: Vec<PeerAddr>,
}

/// How a benchmark server host is driven.
#[derive(Debug, Clone)]
pub struct ServerContext {
    pub testing: bool,
    /// The directory of the netbench utility and scenario file.
    pub netbench_path: String,
    pub driver: String,
    /// The name of the scenario file.
    pub scenario: String,
    pub netbench_port: u16,
}

impl ServerContext {
    /// A context for tests: nothing to run, the default netbench port.
    pub fn testing() -> (r: Self)
        ensures
            r.testing,
            r.netbench_path@.len() == 0,
            r.driver@.len() == 0,
            r.scenario@.len() == 0,
            r.netbench_port == 4433,
    {
        ServerContext {
            netbench_path: String::new(),
            driver: String::new(),
            scenario: String::new(),
            testing: true,
            netbench_port: 4433,
        }
    }
}

impl ClientContext {
    /// A context for tests: nothing to run and no servers.
    pub fn testing() -> (r: Self)
        ensures
            r.testing,
            r.netbench_path@.len() == 0,
            r.driver@.len() == 0,
            r.scenario@.len() == 0,
            r.netbench_servers@.len() == 0,
    {
        ClientContext {
            netbench_servers: Vec::new(),
            netbench_path: String::new(),
            driver: String::new(),
            scenario: String::new(),
            testing: true,
        }
    }
}

} // verus!
