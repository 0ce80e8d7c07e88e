use russula::{
    CoordNetbenchClientState, CoordNetbenchServerState, NetbenchCoordClientProtocol,
    NetbenchCoordServerProtocol, NetbenchWorkerClientProtocol, NetbenchWorkerServerProtocol,
    PeerAddr, PhaseToken, PollBudget, Protocol, Russula, RussulaBuilder, RussulaError, RussulaPoll, StateApi,
    TransitionStep, WorkerNetbenchClientState, WorkerNetbenchServerState,
};
use std::collections::VecDeque;

fn addr(a: u8, b: u8, c: u8, d: u8, port: u16) -> PeerAddr {
    PeerAddr::new(u32::from_be_bytes([a, b, c, d]), port)
}

fn connected<P: Protocol>(addrs: Vec<PeerAddr>, protocol: P) -> Russula<P> {
    let builder = RussulaBuilder::new(addrs, protocol);
    let n = builder.peer_addrs().len();
    builder.build(vec![Ok(()); n]).unwrap()
}

/// One poll round of a single-session aggregate over in-memory queues:
/// announce, read one queued message, step, then send the reply.
fn round<P: Protocol>(
    agg: &mut Russula<P>,
    target: P::State,
    inbox: &mut VecDeque<Vec<u8>>,
    outbox: &mut VecDeque<Vec<u8>>,
) -> RussulaPoll {
    let plans = agg.step_plans(target);
    let mut events = Vec::new();
    for plan in plans {
        if let Some(token) = plan.announce {
            outbox.push_back(token);
        }
        events.push(Ok(if plan.receive { inbox.pop_front() } else { None }));
    }
    let (replies, outcome) = agg.poll_all_toward(target, events);
    for reply in replies.into_iter().flatten() {
        outbox.push_back(reply);
    }
    outcome.unwrap()
}

#[test]
fn builder_orders_and_dedups_addresses() {
    let a = addr(127, 0, 0, 1, 8993);
    let b = addr(127, 0, 0, 1, 8991);
    let c = addr(10, 0, 0, 7, 9000);
    let builder = RussulaBuilder::new(vec![a, b, c, a, b], NetbenchCoordServerProtocol::new());
    assert_eq!(builder.peer_addrs(), vec![c, b, a]);
    assert!(builder.dials_out());
    let agg = builder.build(vec![Ok(()), Ok(()), Ok(())]).unwrap();
    assert_eq!(agg.len(), 3);
    assert_eq!(agg.peer_addrs(), vec![c, b, a]);
    assert_eq!(agg.states(), vec![CoordNetbenchServerState::CheckPeer; 3]);
    assert!(!agg.has_failed());
    assert!(!RussulaBuilder::new(vec![a], NetbenchWorkerServerProtocol::new()).dials_out());
}

#[test]
fn build_fails_on_first_connect_failure() {
    let builder = RussulaBuilder::new(
        vec![addr(10, 0, 0, 1, 8888), addr(10, 0, 0, 2, 8888), addr(10, 0, 0, 3, 8888)],
        NetbenchCoordServerProtocol::new(),
    );
    let first = RussulaError::ConnectFailure { dbg: "10.0.0.2 refused".to_string() };
    let second = RussulaError::ConnectFailure { dbg: "10.0.0.3 refused".to_string() };
    match builder.build(vec![Ok(()), Err(first.clone()), Err(second)]) {
        Err(e) => assert_eq!(e, first),
        Ok(_) => panic!("partial connectivity must fail the build"),
    }
}

#[test]
fn build_fails_when_peer_not_dialed() {
    let builder = RussulaBuilder::new(
        vec![addr(10, 0, 0, 1, 8888), addr(10, 0, 0, 2, 8888)],
        NetbenchWorkerServerProtocol::new(),
    );
    match builder.build(vec![Ok(())]) {
        Err(RussulaError::ConnectFailure { .. }) => {}
        _ => panic!("a peer left out must fail the build"),
    }
}

#[test]
fn barrier_blocks_on_straggler() {
    let mut workers = connected(
        vec![addr(10, 0, 0, 1, 8888), addr(10, 0, 0, 2, 8888), addr(10, 0, 0, 3, 8888)],
        NetbenchWorkerServerProtocol::new(),
    );
    let done = WorkerNetbenchServerState::Done;
    let check = || Ok(Some(b"coord_check_peer".to_vec()));
    let run = || Ok(Some(b"coord_run_peer".to_vec()));

    let (replies, outcome) = workers.poll_all_toward(done, vec![check(), check(), check()]);
    assert_eq!(outcome, Ok(RussulaPoll::Pending));
    assert_eq!(replies, vec![Some(b"server_ready".to_vec()); 3]);

    let (_, outcome) = workers.poll_all_toward(done, vec![run(), run(), Ok(None)]);
    assert_eq!(outcome, Ok(RussulaPoll::Pending));

    let (replies, outcome) = workers.poll_all_toward(done, vec![Ok(None), Ok(None), run()]);
    assert_eq!(
        workers.states(),
        vec![done, done, WorkerNetbenchServerState::Run]
    );
    assert_eq!(outcome, Ok(RussulaPoll::Pending));
    assert_eq!(replies, vec![Some(b"server_done".to_vec()), Some(b"server_done".to_vec()), None]);
    assert_eq!(workers.check_self_state(done), Ok(false));

    // The straggler catches up; sessions already done do not step again.
    let (replies, outcome) = workers.poll_all_toward(done, vec![Ok(None), Ok(None), Ok(None)]);
    assert_eq!(outcome, Ok(RussulaPoll::Ready));
    assert_eq!(replies, vec![None, None, Some(b"server_done".to_vec())]);
    assert_eq!(workers.check_self_state(done), Ok(true));
}

#[test]
fn poll_all_toward_ready_iff_all_at_target() {
    let mut coords = connected(
        vec![addr(10, 0, 0, 2, 8888), addr(10, 0, 0, 1, 8888)],
        NetbenchCoordServerProtocol::new(),
    );
    let ready = CoordNetbenchServerState::Ready;
    let plans = coords.step_plans(ready);
    assert_eq!(plans.len(), 2);
    assert_eq!(plans[0].announce, Some(b"coord_check_peer".to_vec()));
    assert!(plans[1].receive);
    let (_, outcome) = coords.poll_all_toward(
        ready,
        vec![Ok(Some(b"server_ready".to_vec())), Err(RussulaError::NetworkBlocked)],
    );
    assert_eq!(outcome, Ok(RussulaPoll::Pending));
    assert_eq!(coords.states(), vec![ready, CoordNetbenchServerState::CheckPeer]);
    // A session at the target plans no I/O.
    let plans = coords.step_plans(ready);
    assert_eq!(plans[0].announce, None);
    assert!(!plans[0].receive);
    let (_, outcome) = coords.poll_all_toward(
        ready,
        vec![Ok(None), Ok(Some(b"server_ready".to_vec()))],
    );
    assert_eq!(outcome, Ok(RussulaPoll::Ready));
    assert_eq!(coords.check_self_state(ready), Ok(true));
}

#[test]
fn malformed_token_fails_session_for_good() {
    let mut workers = connected(
        vec![addr(10, 0, 0, 1, 8888), addr(10, 0, 0, 2, 8888)],
        NetbenchWorkerServerProtocol::new(),
    );
    let ready = WorkerNetbenchServerState::Ready;
    let (_, outcome) = workers.poll_all_toward(
        ready,
        vec![Ok(Some(b"bogus".to_vec())), Ok(Some(b"coord_check_peer".to_vec()))],
    );
    assert_eq!(outcome, Err(RussulaError::MalformedMessage { bytes: b"bogus".to_vec() }));
    assert_eq!(workers.states(), vec![WorkerNetbenchServerState::WaitPeerInit, ready]);
    assert!(workers.has_failed());
    // The failed session no longer steps, so the barrier never opens.
    let (replies, outcome) = workers.poll_all_toward(
        ready,
        vec![Ok(Some(b"coord_check_peer".to_vec())), Ok(None)],
    );
    assert_eq!(outcome, Ok(RussulaPoll::Pending));
    assert_eq!(replies, vec![None, None]);
    assert_eq!(workers.states(), vec![WorkerNetbenchServerState::WaitPeerInit, ready]);
}

#[test]
fn transport_failure_fails_session() {
    let mut workers = connected(vec![addr(10, 0, 0, 1, 8888)], NetbenchWorkerServerProtocol::new());
    let err = RussulaError::IoFailure { dbg: "connection reset".to_string() };
    let (_, outcome) = workers.poll_all_toward(WorkerNetbenchServerState::Ready, vec![Err(err.clone())]);
    assert_eq!(outcome, Err(err));
    assert!(workers.has_failed());
}

#[test]
fn poll_next_moves_user_driven_phase() {
    let mut coords = connected(vec![addr(127, 0, 0, 1, 8993)], NetbenchCoordServerProtocol::new());
    let (_, outcome) = coords.poll_all_toward(
        CoordNetbenchServerState::Ready,
        vec![Ok(Some(b"server_ready".to_vec()))],
    );
    assert_eq!(outcome, Ok(RussulaPoll::Ready));
    assert!(matches!(coords.transition_step()[0], TransitionStep::UserDriven));
    let (replies, outcome) = coords.poll_next(vec![Ok(None)]);
    assert_eq!(outcome, Ok(RussulaPoll::Ready));
    assert_eq!(replies, vec![None]);
    assert_eq!(coords.check_self_state(CoordNetbenchServerState::RunPeer), Ok(true));
    // From a peer-driven phase, poll_next takes one step.
    let (_, outcome) = coords.poll_next(vec![Ok(None)]);
    assert_eq!(outcome, Ok(RussulaPoll::Ready));
    assert_eq!(coords.states(), vec![CoordNetbenchServerState::KillPeer]);
    let (_, outcome) = coords.poll_next(vec![Ok(None)]);
    assert_eq!(outcome, Ok(RussulaPoll::Pending));
    let (_, outcome) = coords.poll_next(vec![Ok(Some(b"server_done".to_vec()))]);
    assert_eq!(outcome, Ok(RussulaPoll::Ready));
    assert_eq!(coords.states(), vec![CoordNetbenchServerState::Done]);
}

#[test]
fn russula_netbench() {
    let w_sock = addr(127, 0, 0, 1, 8993);
    let mut worker = connected(vec![w_sock], NetbenchWorkerServerProtocol::new());
    let mut coord = connected(vec![w_sock], NetbenchCoordServerProtocol::new());
    let mut to_worker = VecDeque::new();
    let mut to_coord = VecDeque::new();

    // Both sides reach Ready.
    for _ in 0..10 {
        round(&mut coord, CoordNetbenchServerState::Ready, &mut to_coord, &mut to_worker);
        round(&mut worker, WorkerNetbenchServerState::Ready, &mut to_worker, &mut to_coord);
    }
    assert_eq!(coord.check_self_state(CoordNetbenchServerState::Ready), Ok(true));
    assert_eq!(worker.check_self_state(WorkerNetbenchServerState::Ready), Ok(true));
    assert!(matches!(coord.transition_step()[0], TransitionStep::UserDriven));
    assert_eq!(
        worker.transition_step()[0],
        TransitionStep::AwaitPeerState(CoordNetbenchServerState::RunPeer.as_bytes())
    );

    // A peer-driven phase cannot move on by itself.
    assert_eq!(
        round(&mut worker, WorkerNetbenchServerState::Run, &mut to_worker, &mut to_coord),
        RussulaPoll::Pending
    );

    // The coordinator is told to run.
    let (_, outcome) = coord.poll_next(vec![Ok(None)]);
    assert!(outcome.unwrap().is_ready());
    assert_eq!(coord.check_self_state(CoordNetbenchServerState::RunPeer), Ok(true));

    // The worker follows the run command and the coordinator waits for it.
    let mut guard = 0;
    while coord.check_self_state(CoordNetbenchServerState::Done) != Ok(true)
        || worker.check_self_state(WorkerNetbenchServerState::Done) != Ok(true)
    {
        round(&mut coord, CoordNetbenchServerState::Done, &mut to_coord, &mut to_worker);
        round(&mut worker, WorkerNetbenchServerState::Done, &mut to_worker, &mut to_coord);
        guard += 1;
        assert!(guard < 20, "coordination did not finish");
    }
}

#[test]
fn client_endpoint_runs_to_done() {
    let w_sock = addr(127, 0, 0, 1, 8991);
    let mut worker = connected(vec![w_sock], NetbenchWorkerClientProtocol::new());
    let mut coord = connected(vec![w_sock], NetbenchCoordClientProtocol::new());
    let mut to_worker = VecDeque::new();
    let mut to_coord = VecDeque::new();
    for _ in 0..10 {
        round(&mut coord, CoordNetbenchClientState::Ready, &mut to_coord, &mut to_worker);
        round(&mut worker, WorkerNetbenchClientState::Ready, &mut to_worker, &mut to_coord);
    }
    assert_eq!(coord.states(), vec![CoordNetbenchClientState::Ready]);
    assert_eq!(worker.states(), vec![WorkerNetbenchClientState::Ready]);
    coord.poll_next(vec![Ok(None)]).1.unwrap();
    assert_eq!(coord.states(), vec![CoordNetbenchClientState::RunWorker]);
    let mut guard = 0;
    while coord.states() != vec![CoordNetbenchClientState::Done]
        || worker.states() != vec![WorkerNetbenchClientState::Done]
    {
        round(&mut coord, CoordNetbenchClientState::Done, &mut to_coord, &mut to_worker);
        round(&mut worker, WorkerNetbenchClientState::Done, &mut to_worker, &mut to_coord);
        guard += 1;
        assert!(guard < 40, "coordination did not finish");
    }
    assert_eq!(CoordNetbenchClientState::ready(), CoordNetbenchClientState::Ready);
}

#[test]
fn poll_budget_bounds_the_wait() {
    let mut budget = PollBudget::new(Some(3));
    assert!(budget.spend());
    assert!(budget.spend());
    assert!(!budget.spend());
    assert!(!budget.spend());
    let mut forever = PollBudget::new(None);
    for _ in 0..100 {
        assert!(forever.spend());
    }
    assert!(!PollBudget::new(Some(0)).spend());
}
