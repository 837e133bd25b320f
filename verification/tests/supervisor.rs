use jetson_gateway::supervisor::{
    LoopEvent, Supervisor, SupervisorAction, SupervisorState, DEFAULT_BACKOFF_MS,
};

#[test]
fn fatal_exit_prescribes_one_backoff_then_one_restart() {
    let mut s = Supervisor::new(DEFAULT_BACKOFF_MS);
    assert_eq!(s.state, SupervisorState::Running);

    // A failing connection: the loop exits fatally once.
    let a = s.step(LoopEvent::Exited(false));
    assert_eq!(a, SupervisorAction::Sleep(3000));
    assert_eq!(s.state, SupervisorState::Backoff);

    // The backoff elapses: exactly one fresh start is prescribed.
    let a = s.step(LoopEvent::BackoffElapsed);
    assert_eq!(a, SupervisorAction::RunLoop);
    assert_eq!(s.state, SupervisorState::Running);
}

#[test]
fn each_induced_failure_causes_exactly_one_restart() {
    let mut s = Supervisor::new(50);
    let mut restarts = 0;
    for _ in 0..3 {
        // The connection fake fails; then succeeds in staying up until the
        // next induced failure.
        match s.step(LoopEvent::Exited(false)) {
            SupervisorAction::Sleep(ms) => assert_eq!(ms, 50),
            other => panic!("expected a sleep, got {:?}", other),
        }
        match s.step(LoopEvent::BackoffElapsed) {
            SupervisorAction::RunLoop => restarts += 1,
            other => panic!("expected a restart, got {:?}", other),
        }
    }
    assert_eq!(restarts, 3);
}

#[test]
fn clean_exit_stops_the_supervisor() {
    let mut s = Supervisor::new(DEFAULT_BACKOFF_MS);
    let a = s.step(LoopEvent::Exited(true));
    assert_eq!(a, SupervisorAction::Stop);
    assert_eq!(s.state, SupervisorState::Stopped);
}
