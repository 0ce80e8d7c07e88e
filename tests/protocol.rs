use russula::{
    CoordNetbenchClientState, CoordNetbenchServerState, NetbenchCoordServerProtocol,
    NetbenchWorkerServerProtocol, PhaseToken, Protocol, RussulaError, RussulaPoll, StateApi,
    TransitionStep, WorkerNetbenchClientState, WorkerNetbenchServerState,
};

fn round_trip<S: PhaseToken + StateApi + std::fmt::Debug + PartialEq>(phases: &[S]) {
    for p in phases {
        let bytes = p.as_bytes();
        assert_eq!(S::from_bytes(&bytes), Ok(*p));
    }
}

#[test]
fn token_round_trip_every_phase() {
    round_trip(&[
        WorkerNetbenchServerState::WaitPeerInit,
        WorkerNetbenchServerState::Ready,
        WorkerNetbenchServerState::Run,
        WorkerNetbenchServerState::Done,
    ]);
    round_trip(&[
        CoordNetbenchServerState::CheckPeer,
        CoordNetbenchServerState::Ready,
        CoordNetbenchServerState::RunPeer,
        CoordNetbenchServerState::KillPeer,
        CoordNetbenchServerState::Done,
    ]);
    round_trip(&[
        WorkerNetbenchClientState::WaitCoordInit,
        WorkerNetbenchClientState::Ready,
        WorkerNetbenchClientState::Run,
        WorkerNetbenchClientState::Running,
        WorkerNetbenchClientState::RunningAwaitComplete,
        WorkerNetbenchClientState::Stopped,
        WorkerNetbenchClientState::Done,
    ]);
    round_trip(&[
        CoordNetbenchClientState::CheckWorker,
        CoordNetbenchClientState::Ready,
        CoordNetbenchClientState::RunWorker,
        CoordNetbenchClientState::WorkersRunning,
        CoordNetbenchClientState::Done,
    ]);
}

#[test]
fn wire_tokens_are_exact() {
    assert_eq!(WorkerNetbenchServerState::WaitPeerInit.as_bytes(), b"server_wait_coord_init".to_vec());
    assert_eq!(WorkerNetbenchServerState::Ready.as_bytes(), b"server_ready".to_vec());
    assert_eq!(WorkerNetbenchServerState::Run.as_bytes(), b"server_wait_peer_done".to_vec());
    assert_eq!(WorkerNetbenchServerState::Done.as_bytes(), b"server_done".to_vec());
    assert_eq!(CoordNetbenchServerState::CheckPeer.as_bytes(), b"coord_check_peer".to_vec());
    assert_eq!(CoordNetbenchServerState::Ready.as_bytes(), b"coord_ready".to_vec());
    assert_eq!(CoordNetbenchServerState::RunPeer.as_bytes(), b"coord_run_peer".to_vec());
    assert_eq!(CoordNetbenchServerState::KillPeer.as_bytes(), b"coord_wait_peer_done".to_vec());
    assert_eq!(CoordNetbenchServerState::Done.as_bytes(), b"coord_done".to_vec());
    assert_eq!(CoordNetbenchServerState::RunPeer.label(), "coord_run_peer");
}

#[test]
fn unknown_tokens_are_malformed() {
    for bad in [&b"bogus"[..], b"", b"server_ready ", b"coord_ready", b"SERVER_DONE"] {
        assert_eq!(
            WorkerNetbenchServerState::from_bytes(bad),
            Err(RussulaError::MalformedMessage { bytes: bad.to_vec() })
        );
    }
    // A worker's token is not in the coordinator's vocabulary.
    assert_eq!(
        CoordNetbenchServerState::from_bytes(b"server_ready"),
        Err(RussulaError::MalformedMessage { bytes: b"server_ready".to_vec() })
    );
}

#[test]
fn terminal_phase_is_fixed_point() {
    let mut p = WorkerNetbenchServerState::Done;
    for _ in 0..5 {
        p = p.next_state();
        assert_eq!(p, WorkerNetbenchServerState::Done);
    }
    assert_eq!(CoordNetbenchServerState::Done.next_state(), CoordNetbenchServerState::Done);
    assert_eq!(WorkerNetbenchClientState::Done.next_state(), WorkerNetbenchClientState::Done);
    assert_eq!(CoordNetbenchClientState::Done.next_state(), CoordNetbenchClientState::Done);
    assert_eq!(CoordNetbenchServerState::Done.transition_step(), TransitionStep::Finished);

    // Drive a coordinator to its end; stepping it further changes nothing.
    let mut coord = NetbenchCoordServerProtocol::new();
    assert_eq!(coord.advance_once(Some(b"server_ready")), Ok(None));
    assert!(coord.request_next());
    assert_eq!(coord.advance_once(None), Ok(None));
    assert_eq!(coord.advance_once(Some(b"server_done")), Ok(None));
    assert_eq!(coord.state(), CoordNetbenchServerState::Done);
    for _ in 0..3 {
        assert_eq!(coord.advance_once(Some(b"server_done")), Ok(None));
        assert_eq!(coord.advance_once(None), Ok(None));
        assert_eq!(coord.state(), CoordNetbenchServerState::Done);
    }
}

#[test]
fn peer_driven_step_advances_only_on_expected_token() {
    let mut w = NetbenchWorkerServerProtocol::new();
    assert_eq!(w.state(), WorkerNetbenchServerState::WaitPeerInit);
    // Nothing available: not an error, no movement.
    assert_eq!(w.advance_once(None), Ok(None));
    assert_eq!(w.state(), WorkerNetbenchServerState::WaitPeerInit);
    // A known token that is not the awaited one is tolerated.
    assert_eq!(w.advance_once(Some(b"coord_ready")), Ok(None));
    assert_eq!(w.state(), WorkerNetbenchServerState::WaitPeerInit);
    assert_eq!(w.advance_once(Some(b"coord_run_peer")), Ok(None));
    assert_eq!(w.state(), WorkerNetbenchServerState::WaitPeerInit);
    // The awaited token moves it on.
    assert_eq!(w.advance_once(Some(b"coord_check_peer")), Ok(Some(b"server_ready".to_vec())));
    assert_eq!(w.state(), WorkerNetbenchServerState::Ready);
}

#[test]
fn worker_ready_on_coord_check_peer() {
    let mut w = NetbenchWorkerServerProtocol::new();
    let plan = w.step_plan();
    assert_eq!(plan.announce, None);
    assert!(plan.receive);
    let reply = w.advance_once(Some(b"coord_check_peer")).unwrap();
    assert_eq!(w.state(), WorkerNetbenchServerState::Ready);
    // The worker's next outbound message is its own ready token.
    assert_eq!(reply, Some(b"server_ready".to_vec()));
}

#[test]
fn coordinator_run_does_not_wait_for_ack() {
    let mut c = NetbenchCoordServerProtocol::new();
    let plan = c.step_plan();
    assert_eq!(plan.announce, Some(b"coord_check_peer".to_vec()));
    assert!(plan.receive);
    c.advance_once(Some(b"server_ready")).unwrap();
    assert_eq!(c.state(), CoordNetbenchServerState::Ready);
    assert_eq!(c.state().transition_step(), TransitionStep::UserDriven);
    // A user-driven phase does not move by stepping.
    assert_eq!(c.advance_once(None), Ok(None));
    assert_eq!(c.state(), CoordNetbenchServerState::Ready);
    assert!(c.request_next());
    assert_eq!(c.state(), CoordNetbenchServerState::RunPeer);
    // RunPeer announces the run command and moves on without reading.
    let plan = c.step_plan();
    assert_eq!(plan.announce, Some(b"coord_run_peer".to_vec()));
    assert!(!plan.receive);
    assert_eq!(c.advance_once(None), Ok(None));
    assert_eq!(c.state(), CoordNetbenchServerState::KillPeer);
    assert_eq!(c.state().transition_step(), TransitionStep::AwaitPeerState(b"server_done".to_vec()));
    // Only user-driven phases take a request.
    assert!(!c.request_next());
    assert_eq!(c.state(), CoordNetbenchServerState::KillPeer);
}

#[test]
fn malformed_token_keeps_phase() {
    let mut w = NetbenchWorkerServerProtocol::new();
    w.advance_once(Some(b"coord_check_peer")).unwrap();
    assert_eq!(
        w.advance_once(Some(b"bogus")),
        Err(RussulaError::MalformedMessage { bytes: b"bogus".to_vec() })
    );
    assert_eq!(w.state(), WorkerNetbenchServerState::Ready);
}

#[test]
fn poll_toward_reports_target() {
    let mut w = NetbenchWorkerServerProtocol::new();
    assert_eq!(
        w.poll_toward(WorkerNetbenchServerState::Ready, None),
        Ok((RussulaPoll::Pending, None))
    );
    assert_eq!(
        w.poll_toward(WorkerNetbenchServerState::Ready, Some(b"coord_check_peer")),
        Ok((RussulaPoll::Ready, Some(b"server_ready".to_vec())))
    );
    // Already there: no step, even with a message at hand.
    assert_eq!(
        w.poll_toward(WorkerNetbenchServerState::Ready, Some(b"coord_run_peer")),
        Ok((RussulaPoll::Ready, None))
    );
    assert_eq!(w.state(), WorkerNetbenchServerState::Ready);
    assert_eq!(
        w.poll_toward(WorkerNetbenchServerState::Done, Some(b"nope")),
        Err(RussulaError::MalformedMessage { bytes: b"nope".to_vec() })
    );
    assert!(!w.dials_out());
    assert!(NetbenchCoordServerProtocol::new().dials_out());
}

#[test]
fn transition_rules_per_phase() {
    assert_eq!(
        WorkerNetbenchServerState::WaitPeerInit.transition_step(),
        TransitionStep::AwaitPeerState(b"coord_check_peer".to_vec())
    );
    assert_eq!(
        WorkerNetbenchServerState::Ready.transition_step(),
        TransitionStep::AwaitPeerState(b"coord_run_peer".to_vec())
    );
    assert_eq!(WorkerNetbenchServerState::Run.transition_step(), TransitionStep::SelfDriven);
    assert_eq!(
        CoordNetbenchServerState::CheckPeer.transition_step(),
        TransitionStep::AwaitPeerState(b"server_ready".to_vec())
    );
    assert_eq!(CoordNetbenchServerState::RunPeer.transition_step(), TransitionStep::SelfDriven);
    assert_eq!(
        CoordNetbenchClientState::WorkersRunning.transition_step(),
        TransitionStep::AwaitPeerState(b"client_worker_stopped".to_vec())
    );
    assert_eq!(WorkerNetbenchClientState::RunningAwaitComplete.transition_step(), TransitionStep::SelfDriven);
    assert_eq!(WorkerNetbenchServerState::ready(), WorkerNetbenchServerState::Ready);
    assert_eq!(CoordNetbenchClientState::done(), CoordNetbenchClientState::Done);
    assert_eq!(WorkerNetbenchClientState::initial_state(), WorkerNetbenchClientState::WaitCoordInit);
}

#[test]
fn error_kinds() {
    assert!(!RussulaError::NetworkBlocked.is_fatal());
    assert!(RussulaError::MalformedMessage { bytes: vec![1] }.is_fatal());
    assert!(RussulaError::IoFailure { dbg: "reset".to_string() }.is_fatal());
    assert!(RussulaError::ConnectFailure { dbg: "refused".to_string() }.is_fatal());
    assert!(RussulaPoll::Ready.is_ready());
    assert!(!RussulaPoll::Ready.is_pending());
    assert!(RussulaPoll::Pending.is_pending());
}
