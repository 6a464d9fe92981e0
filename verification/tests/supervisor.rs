use yagna_core::supervisor::{
    run, watch_for_vm, watch_for_vm_again, AbortableChild, ChildAction, ChildEvent, ChildPhase,
    ExitReport, RunAction, RunEvent, RunPhase, StopError, VmAction, GRACE_SECONDS,
    VM_CHECK_SECONDS,
};

fn exited(code: i32) -> ChildEvent {
    ChildEvent::Exited(ExitReport { code: Some(code) })
}

#[test]
fn child_that_exits_in_the_grace_period() {
    let mut child = AbortableChild::new(true);
    assert_eq!(child.phase(), ChildPhase::Running);
    assert_eq!(
        child.step(ChildEvent::Abort),
        ChildAction::Terminate { signal: true, grace: 2 }
    );
    assert_eq!(child.phase(), ChildPhase::Terminating);
    assert_eq!(
        child.step(exited(0)),
        ChildAction::Report(Ok(ExitReport { code: Some(0) }))
    );
    assert_eq!(child.phase(), ChildPhase::Exited);
    // the timer goes off late: the child is gone, nothing is killed
    assert_eq!(child.step(ChildEvent::GraceElapsed), ChildAction::Nothing);
    assert_eq!(child.phase(), ChildPhase::Exited);
}

#[test]
fn child_that_outlives_the_grace_period_is_killed() {
    let mut child = AbortableChild::new(false);
    assert_eq!(
        child.step(ChildEvent::Abort),
        ChildAction::Terminate { signal: false, grace: GRACE_SECONDS }
    );
    assert_eq!(child.step(ChildEvent::GraceElapsed), ChildAction::Kill);
    assert_eq!(child.phase(), ChildPhase::Killed);
    assert_eq!(
        child.step(ChildEvent::Exited(ExitReport { code: None })),
        ChildAction::Report(Ok(ExitReport { code: None }))
    );
    assert_eq!(child.phase(), ChildPhase::Killed);
    // reported once
    assert_eq!(child.step(exited(9)), ChildAction::Nothing);
}

#[test]
fn child_that_cannot_be_killed() {
    let mut child = AbortableChild::new(true);
    child.step(ChildEvent::Abort);
    child.step(ChildEvent::GraceElapsed);
    assert_eq!(
        child.step(ChildEvent::Failed("no such process".to_string())),
        ChildAction::Report(Err(StopError::Io("no such process".to_string())))
    );
}

#[test]
fn child_that_exits_too_early() {
    let mut child = AbortableChild::new(true);
    assert_eq!(child.step(exited(1)), ChildAction::NotifyExit);
    assert_eq!(child.phase(), ChildPhase::Exited);
    assert_eq!(
        child.step(ChildEvent::Abort),
        ChildAction::Report(Err(StopError::ExitedTooEarly))
    );
    assert_eq!(child.step(ChildEvent::GraceElapsed), ChildAction::Nothing);
}

#[test]
fn child_that_is_dropped_is_stopped_without_report() {
    let mut child = AbortableChild::new(true);
    assert_eq!(
        child.step(ChildEvent::Dropped),
        ChildAction::Terminate { signal: true, grace: 2 }
    );
    assert_eq!(child.step(ChildEvent::GraceElapsed), ChildAction::Kill);
    assert_eq!(child.step(exited(0)), ChildAction::Nothing);
    let mut child = AbortableChild::new(true);
    child.step(ChildEvent::Dropped);
    assert_eq!(child.step(exited(0)), ChildAction::Nothing);
    assert_eq!(child.phase(), ChildPhase::Exited);
}

#[test]
fn running_child_is_not_killed_by_a_stray_timer() {
    let mut child = AbortableChild::new(true);
    assert_eq!(child.step(ChildEvent::GraceElapsed), ChildAction::Nothing);
    assert_eq!(child.phase(), ChildPhase::Running);
}

#[test]
fn child_that_cannot_be_waited_for() {
    // while it should run: as good as gone
    let mut child = AbortableChild::new(true);
    assert_eq!(child.step(ChildEvent::Failed("x".to_string())), ChildAction::NotifyExit);
    assert_eq!(child.phase(), ChildPhase::Exited);
    // in the grace period: the failure is the result of stopping it
    let mut child = AbortableChild::new(true);
    child.step(ChildEvent::Abort);
    assert_eq!(
        child.step(ChildEvent::Failed("x".to_string())),
        ChildAction::Report(Err(StopError::Io("x".to_string())))
    );
    assert_eq!(child.phase(), ChildPhase::Exited);
    assert_eq!(child.step(ChildEvent::GraceElapsed), ChildAction::Nothing);
    let mut child = AbortableChild::new(true);
    child.step(ChildEvent::Dropped);
    assert_eq!(child.step(ChildEvent::Failed("x".to_string())), ChildAction::Nothing);
}

fn ok() -> RunEvent {
    RunEvent::Finished(Ok(()))
}

#[test]
fn run_starts_up_and_shuts_down_in_order() {
    let (phase, action) = run(RunPhase::Setup, ok());
    assert_eq!((phase, action), (RunPhase::CheckRunning, RunAction::Proceed(RunPhase::CheckRunning)));
    let (phase, action) = run(phase, RunEvent::RunningAlready(Ok(false)));
    assert_eq!((phase, action), (RunPhase::StartService, RunAction::Proceed(RunPhase::StartService)));
    let (phase, action) = run(phase, ok());
    assert_eq!((phase, action), (RunPhase::GetAppKey, RunAction::Proceed(RunPhase::GetAppKey)));
    let (phase, action) = run(phase, ok());
    assert_eq!((phase, action), (RunPhase::StartProvider, RunAction::Proceed(RunPhase::StartProvider)));
    let (phase, action) = run(phase, ok());
    assert_eq!((phase, action), (RunPhase::Running, RunAction::Proceed(RunPhase::Running)));
    let (phase, action) = run(phase, RunEvent::Shutdown);
    assert_eq!(
        (phase, action),
        (RunPhase::StoppingProvider, RunAction::Proceed(RunPhase::StoppingProvider))
    );
    let (phase, action) = run(phase, ok());
    assert_eq!(
        (phase, action),
        (RunPhase::StoppingService, RunAction::Proceed(RunPhase::StoppingService))
    );
    let (phase, action) = run(phase, ok());
    assert_eq!((phase, action), (RunPhase::Done, RunAction::Exit(0)));
    assert_eq!(run(RunPhase::Done, ok()), (RunPhase::Done, RunAction::Nothing));
    assert_eq!(run(RunPhase::Done, RunEvent::Shutdown), (RunPhase::Done, RunAction::Nothing));
}

#[test]
fn run_refuses_to_start_twice() {
    assert_eq!(
        run(RunPhase::CheckRunning, RunEvent::RunningAlready(Ok(true))),
        (RunPhase::Done, RunAction::Fail("service already running".to_string()))
    );
    assert_eq!(
        run(RunPhase::CheckRunning, RunEvent::RunningAlready(Err("no socket".to_string()))),
        (RunPhase::Done, RunAction::Fail("no socket".to_string()))
    );
    assert_eq!(
        run(RunPhase::Setup, RunEvent::RunningAlready(Ok(true))),
        (RunPhase::Setup, RunAction::Nothing)
    );
}

#[test]
fn run_fails_when_a_start_step_fails() {
    for phase in [RunPhase::Setup, RunPhase::StartService, RunPhase::GetAppKey, RunPhase::StartProvider] {
        assert_eq!(
            run(phase, RunEvent::Finished(Err("boom".to_string()))),
            (RunPhase::Done, RunAction::Fail("boom".to_string()))
        );
    }
}

#[test]
fn run_exits_with_zero_however_the_children_ended() {
    assert_eq!(
        run(RunPhase::StoppingProvider, RunEvent::Finished(Err("killed".to_string()))),
        (RunPhase::StoppingService, RunAction::Proceed(RunPhase::StoppingService))
    );
    assert_eq!(
        run(RunPhase::StoppingService, RunEvent::Finished(Err("killed".to_string()))),
        (RunPhase::Done, RunAction::Exit(0))
    );
}

#[test]
fn run_ignores_a_shutdown_before_both_children_run() {
    for phase in [RunPhase::Setup, RunPhase::CheckRunning, RunPhase::StartService, RunPhase::StoppingProvider] {
        assert_eq!(run(phase, RunEvent::Shutdown), (phase, RunAction::Nothing));
    }
    assert_eq!(run(RunPhase::Running, ok()), (RunPhase::Running, RunAction::Nothing));
    assert_eq!(run(RunPhase::CheckRunning, ok()), (RunPhase::CheckRunning, RunAction::Nothing));
}

#[test]
fn vm_watch() {
    assert_eq!(VM_CHECK_SECONDS, 60);
    assert_eq!(watch_for_vm(false, true), VmAction::Stop);
    assert_eq!(watch_for_vm(false, false), VmAction::Stop);
    assert_eq!(watch_for_vm(true, true), VmAction::SetActivity { active: true, wait: 60 });
    assert_eq!(watch_for_vm(true, false), VmAction::SetActivity { active: false, wait: 60 });
    assert_eq!(watch_for_vm_again(true, true), VmAction::Wait(60));
    assert_eq!(watch_for_vm_again(false, false), VmAction::Wait(60));
    assert_eq!(watch_for_vm_again(true, false), VmAction::SetActivity { active: false, wait: 60 });
    assert_eq!(watch_for_vm_again(false, true), VmAction::SetActivity { active: true, wait: 60 });
}
