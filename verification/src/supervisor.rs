//! Supervision of the service processes: a child is stopped in two phases,
//! first asked to terminate and, if it is still there when the grace period
//! ends, killed. The decisions are state machines; whoever drives them owns
//! the processes, the timers and the signals.

use vstd::prelude::*;

verus! {

/// How long a child that was asked to terminate is waited for, in seconds.
pub const GRACE_SECONDS: u64 = 2;

/// How often the availability of virtual machines is looked at, in seconds.
pub const VM_CHECK_SECONDS: u64 = 60;

/// Where a supervised child stands.
#[derive(Clone, Copy, Debug, PartialEq, Eq, Structural)]
pub enum ChildPhase {
    Running,
    Terminating,
    Exited,
    Killed,
}

/// How a child ended: its exit code, if it has one.
#[derive(Clone, Copy, Debug, PartialEq, Eq, Structural)]
pub struct ExitReport {
    pub code: Option<i32>,
}

/// Why stopping a child gave no exit report.
#[derive(Clone, Debug, PartialEq, Eq)]
pub enum StopError {
    /// The child was gone before it was asked to stop.
    ExitedTooEarly,
    /// The system refused to kill or to wait for the child.
    Io(String),
}

/// What happened to a supervised child.
#[derive(Debug, PartialEq, Eq)]
pub enum ChildEvent {
    /// The supervisor asks the child to stop and waits for the result.
    Abort,
    /// The supervisor lets go of the child without waiting for the result.
    Dropped,
    /// The child has ended.
    Exited(ExitReport),
    /// The grace period is over.
    GraceElapsed,
    /// Waiting for the child's end, or killing it, failed.
    Failed(String),
}

/// What the driver of a supervised child is to do next.
#[derive(Debug, PartialEq, Eq)]
pub enum ChildAction {
    /// Nothing: the event changed nothing that anybody waits for.
    Nothing,
    /// The child ended while it should run: tell the supervisor.
    NotifyExit,
    /// Ask the child to terminate, by a termination signal if `signal`
    /// holds, and start the timer of the grace period, in seconds.
    Terminate { signal: bool, grace: u64 },
    /// Kill the child and wait for its end.
    Kill,
    /// Tell whoever asked the child to stop how it ended.
    Report(Result<ExitReport, StopError>),
}

/// A supervised child as a mathematical value.
pub ghost struct ChildModel {
    pub phase: ChildPhase,
    /// Whether the child gets a termination signal before it is killed.
    pub send_term: bool,
    /// Whether somebody waits for the result of stopping the child.
    pub awaited: bool,
}

/// The transition function of a supervised child: the state after the event,
/// and what the driver is to do.
pub open spec fn child_step(m: ChildModel, event: ChildEvent) -> (ChildModel, ChildAction) {
    match (m.phase, event) {
        (ChildPhase::Running, ChildEvent::Exited(_)) => (
            ChildModel { phase: ChildPhase::Exited, ..m },
            ChildAction::NotifyExit,
        ),
        (ChildPhase::Running, ChildEvent::Failed(_)) => (
            ChildModel { phase: ChildPhase::Exited, ..m },
            ChildAction::NotifyExit,
        ),
        (ChildPhase::Running, ChildEvent::Abort) => (
            ChildModel { phase: ChildPhase::Terminating, awaited: true, ..m },
            ChildAction::Terminate { signal: m.send_term, grace: GRACE_SECONDS },
        ),
        (ChildPhase::Running, ChildEvent::Dropped) => (
            ChildModel { phase: ChildPhase::Terminating, awaited: false, ..m },
            ChildAction::Terminate { signal: m.send_term, grace: GRACE_SECONDS },
        ),
        (ChildPhase::Terminating, ChildEvent::Exited(report)) => (
            ChildModel { phase: ChildPhase::Exited, awaited: false, ..m },
            if m.awaited {
                ChildAction::Report(Ok(report))
            } else {
                ChildAction::Nothing
            },
        ),
        (ChildPhase::Terminating, ChildEvent::Failed(cause)) => (
            ChildModel { phase: ChildPhase::Exited, awaited: false, ..m },
            if m.awaited {
                ChildAction::Report(Err(StopError::Io(cause)))
            } else {
                ChildAction::Nothing
            },
        ),
        (ChildPhase::Terminating, ChildEvent::GraceElapsed) => (
            ChildModel { phase: ChildPhase::Killed, ..m },
            ChildAction::Kill,
        ),
        (ChildPhase::Killed, ChildEvent::Exited(report)) => (
            ChildModel { awaited: false, ..m },
            if m.awaited {
                ChildAction::Report(Ok(report))
            } else {
                ChildAction::Nothing
            },
        ),
        (ChildPhase::Killed, ChildEvent::Failed(cause)) => (
            ChildModel { awaited: false, ..m },
            if m.awaited {
                ChildAction::Report(Err(StopError::Io(cause)))
            } else {
                ChildAction::Nothing
            },
        ),
        (ChildPhase::Exited, ChildEvent::Abort) => (
            m,
            ChildAction::Report(Err(StopError::ExitedTooEarly)),
        ),
        _ => (m, ChildAction::Nothing),
    }
}

/// A child process under supervision.
pub struct AbortableChild {
    phase: ChildPhase,
    send_term: bool,
    awaited: bool,
}

impl View for AbortableChild {
    type V = ChildModel;

    closed spec fn view(&self) -> ChildModel {
        ChildModel { phase: self.phase, send_term: self.send_term, awaited: self.awaited }
    }
}

impl AbortableChild {
    /// A running child. `send_term` says whether it is to get a termination
    /// signal when it is stopped, before the grace period starts.
    pub fn new(send_term: bool) -> (child: AbortableChild)
        ensures
            child@ == (ChildModel { phase: ChildPhase::Running, send_term, awaited: false }),
    {
        AbortableChild { phase: ChildPhase::Running, send_term, awaited: false }
    }

    /// Where the child stands.
    pub fn phase(&self) -> (phase: ChildPhase)
        ensures
            phase == self@.phase,
    {
        self.phase
    }

    /// Moves the child by one event and says what to do next.
    pub fn step(&mut self, event: ChildEvent) -> (action: ChildAction)
        ensures
            (final(self)@, action) == child_step(old(self)@, event),
    {
        match self.phase {
            ChildPhase::Running => match event {
                ChildEvent::Exited(_) | ChildEvent::Failed(_) => {
                    self.phase = ChildPhase::Exited;
                    ChildAction::NotifyExit
                },
                ChildEvent::Abort => {
                    self.phase = ChildPhase::Terminating;
                    self.awaited = true;
                    ChildAction::Terminate { signal: self.send_term, grace: GRACE_SECONDS }
                },
                ChildEvent::Dropped => {
                    self.phase = ChildPhase::Terminating;
                    self.awaited = false;
                    ChildAction::Terminate { signal: self.send_term, grace: GRACE_SECONDS }
                },
                _ => ChildAction::Nothing,
            },
            ChildPhase::Terminating => match event {
                ChildEvent::Exited(report) => {
                    self.phase = ChildPhase::Exited;
                    self.answer(Ok(report))
                },
                ChildEvent::Failed(cause) => {
                    self.phase = ChildPhase::Exited;
                    self.answer(Err(StopError::Io(cause)))
                },
                ChildEvent::GraceElapsed => {
                    self.phase = ChildPhase::Killed;
                    ChildAction::Kill
                },
                _ => ChildAction::Nothing,
            },
            ChildPhase::Killed => match event {
                ChildEvent::Exited(report) => self.answer(Ok(report)),
                ChildEvent::Failed(cause) => self.answer(Err(StopError::Io(cause))),
                _ => ChildAction::Nothing,
            },
            ChildPhase::Exited => match event {
                ChildEvent::Abort => ChildAction::Report(Err(StopError::ExitedTooEarly)),
                _ => ChildAction::Nothing,
            },
        }
    }

    fn answer(&mut self, result: Result<ExitReport, StopError>) -> (action: ChildAction)
        ensures
            final(self)@ == (ChildModel { awaited: false, ..old(self)@ }),
            action == if old(self)@.awaited {
                ChildAction::Report(result)
            } else {
                ChildAction::Nothing
            },
    {
        if self.awaited {
            self.awaited = false;
            ChildAction::Report(result)
        } else {
            ChildAction::Nothing
        }
    }
}

/// A child is never killed without having had its grace period: it is killed
/// only while it is being terminated, and the request to terminate, which
/// starts the grace period, came before.
pub proof fn lemma_kill_follows_grace(m: ChildModel, event: ChildEvent)
    ensures
        child_step(m, event).1 is Kill ==> m.phase is Terminating && event is GraceElapsed
            && child_step(m, event).0.phase is Killed,
        child_step(m, event).0.phase is Terminating ==> m.phase is Terminating || (m.phase is Running
            && child_step(m, event).1 == (ChildAction::Terminate {
            signal: m.send_term,
            grace: GRACE_SECONDS,
        })),
{
}

/// A child that has ended or was killed never runs again, and whoever waits
/// for the result of stopping it is told at most once.
pub proof fn lemma_child_stops_for_good(m: ChildModel, event: ChildEvent)
    ensures
        (m.phase is Exited || m.phase is Killed) ==> child_step(m, event).0.phase == m.phase,
        !(m.phase is Running) ==> !(child_step(m, event).0.phase is Running),
        child_step(m, event).1 is Report && m.phase !is Exited ==> m.awaited && !child_step(
            m,
            event,
        ).0.awaited,
{
}

/// The step of the provider's start-up and shutdown that comes next.
#[derive(Clone, Copy, Debug, PartialEq, Eq, Structural)]
pub enum RunPhase {
    /// The configuration is to be set up.
    Setup,
    /// It is to be found out whether the service runs already.
    CheckRunning,
    /// The service is to be started.
    StartService,
    /// The application key is to be fetched.
    GetAppKey,
    /// The provider is to be started.
    StartProvider,
    /// Both run: a shutdown signal or the end of a child is waited for.
    Running,
    /// The provider is being stopped.
    StoppingProvider,
    /// The service is being stopped.
    StoppingService,
    /// Over.
    Done,
}

/// What happened outside the run.
#[derive(Debug, PartialEq, Eq)]
pub enum RunEvent {
    /// The step that was asked for is done, or failed with this message.
    Finished(Result<(), String>),
    /// The answer to whether the service runs already, or why none was had.
    RunningAlready(Result<bool, String>),
    /// A shutdown signal came, or a child ended.
    Shutdown,
}

/// What the driver of the run is to do next.
#[derive(Debug, PartialEq, Eq)]
pub enum RunAction {
    /// Nothing: the event changed nothing.
    Nothing,
    /// Do the step that the phase names and report it.
    Proceed(RunPhase),
    /// Leave with this exit code.
    Exit(i32),
    /// Leave with this error.
    Fail(String),
}

/// An action as a mathematical value.
pub ghost enum RunActionView {
    Nothing,
    Proceed(RunPhase),
    Exit(i32),
    Fail(Seq<char>),
}

impl View for RunAction {
    type V = RunActionView;

    open spec fn view(&self) -> RunActionView {
        match *self {
            RunAction::Nothing => RunActionView::Nothing,
            RunAction::Proceed(phase) => RunActionView::Proceed(phase),
            RunAction::Exit(code) => RunActionView::Exit(code),
            RunAction::Fail(cause) => RunActionView::Fail(cause@),
        }
    }
}

/// The phase after a start-up step that went well.
pub open spec fn next_start_phase(phase: RunPhase) -> RunPhase {
    match phase {
        RunPhase::Setup => RunPhase::CheckRunning,
        RunPhase::CheckRunning => RunPhase::StartService,
        RunPhase::StartService => RunPhase::GetAppKey,
        RunPhase::GetAppKey => RunPhase::StartProvider,
        RunPhase::StartProvider => RunPhase::Running,
        other => other,
    }
}

/// Whether the phase is a start-up step that reports that it is finished.
pub open spec fn is_start_step(phase: RunPhase) -> bool {
    phase is Setup || phase is StartService || phase is GetAppKey || phase is StartProvider
}

/// The transition function of the run: the phase after the event, and what
/// the driver is to do. A start-up step that fails ends the run with its
/// error; so does a service that runs already. From the moment both children
/// run, a shutdown stops the provider first and the service after it, and the
/// run ends with exit code 0 however the children ended.
pub open spec fn run_step(phase: RunPhase, event: RunEvent) -> (RunPhase, RunActionView) {
    match event {
        RunEvent::Finished(Ok(_)) => if is_start_step(phase) {
            (next_start_phase(phase), RunActionView::Proceed(next_start_phase(phase)))
        } else if phase is StoppingProvider {
            (RunPhase::StoppingService, RunActionView::Proceed(RunPhase::StoppingService))
        } else if phase is StoppingService {
            (RunPhase::Done, RunActionView::Exit(0))
        } else {
            (phase, RunActionView::Nothing)
        },
        RunEvent::Finished(Err(cause)) => if is_start_step(phase) {
            (RunPhase::Done, RunActionView::Fail(cause@))
        } else if phase is StoppingProvider {
            (RunPhase::StoppingService, RunActionView::Proceed(RunPhase::StoppingService))
        } else if phase is StoppingService {
            (RunPhase::Done, RunActionView::Exit(0))
        } else {
            (phase, RunActionView::Nothing)
        },
        RunEvent::RunningAlready(answer) => if phase is CheckRunning {
            match answer {
                Ok(false) => (
                    RunPhase::StartService,
                    RunActionView::Proceed(RunPhase::StartService),
                ),
                Ok(true) => (RunPhase::Done, RunActionView::Fail("service already running"@)),
                Err(cause) => (RunPhase::Done, RunActionView::Fail(cause@)),
            }
        } else {
            (phase, RunActionView::Nothing)
        },
        RunEvent::Shutdown => if phase is Running {
            (RunPhase::StoppingProvider, RunActionView::Proceed(RunPhase::StoppingProvider))
        } else {
            (phase, RunActionView::Nothing)
        },
    }
}

/// Moves the run by one event and says what to do next. The run starts in
/// the phase `Setup`, with the set-up to be done.
pub fn run(phase: RunPhase, event: RunEvent) -> (next: (RunPhase, RunAction))
    ensures
        (next.0, next.1@) == run_step(phase, event),
{
    match event {
        RunEvent::Finished(result) => {
            let after = match phase {
                RunPhase::Setup => RunPhase::CheckRunning,
                RunPhase::StartService => RunPhase::GetAppKey,
                RunPhase::GetAppKey => RunPhase::StartProvider,
                RunPhase::StartProvider => RunPhase::Running,
                RunPhase::StoppingProvider => {
                    return (
                        RunPhase::StoppingService,
                        RunAction::Proceed(RunPhase::StoppingService),
                    );
                },
                RunPhase::StoppingService => { return (RunPhase::Done, RunAction::Exit(0)); },
                other => { return (other, RunAction::Nothing); },
            };
            match result {
                Ok(_) => (after, RunAction::Proceed(after)),
                Err(cause) => (RunPhase::Done, RunAction::Fail(cause)),
            }
        },
        RunEvent::RunningAlready(answer) => {
            match phase {
                RunPhase::CheckRunning => {},
                other => { return (other, RunAction::Nothing); },
            }
            match answer {
                Ok(false) => (RunPhase::StartService, RunAction::Proceed(RunPhase::StartService)),
                Ok(true) => {
                    let cause = "service already running".to_owned();
                    (RunPhase::Done, RunAction::Fail(cause))
                },
                Err(cause) => (RunPhase::Done, RunAction::Fail(cause)),
            }
        },
        RunEvent::Shutdown => match phase {
            RunPhase::Running => (
                RunPhase::StoppingProvider,
                RunAction::Proceed(RunPhase::StoppingProvider),
            ),
            other => (other, RunAction::Nothing),
        },
    }
}

/// What the watcher of virtual machine support is to do next.
#[derive(Clone, Copy, Debug, PartialEq, Eq, Structural)]
pub enum VmAction {
    /// There is no preset for virtual machines: stop watching.
    Stop,
    /// Look again after the given number of seconds.
    Wait(u64),
    /// Switch the virtual machine preset on or off, then look again after
    /// the given number of seconds.
    SetActivity { active: bool, wait: u64 },
}

/// What the watcher does when it starts: nothing without a preset for
/// virtual machines; else it sets the preset's activity to whether virtual
/// machines can run.
pub open spec fn vm_start(has_preset: bool, valid: bool) -> VmAction {
    if has_preset {
        VmAction::SetActivity { active: valid, wait: VM_CHECK_SECONDS }
    } else {
        VmAction::Stop
    }
}

/// What the watcher does on a new look: it sets the preset's activity where
/// the answer differs from the last one, and waits in either case.
pub open spec fn vm_check(was_valid: bool, valid: bool) -> VmAction {
    if was_valid != valid {
        VmAction::SetActivity { active: valid, wait: VM_CHECK_SECONDS }
    } else {
        VmAction::Wait(VM_CHECK_SECONDS)
    }
}

/// Starts the watch: `has_preset` says whether the provider has a preset for
/// virtual machines, `valid` whether virtual machines can run now.
pub fn watch_for_vm(has_preset: bool, valid: bool) -> (action: VmAction)
    ensures
        action == vm_start(has_preset, valid),
{
    if has_preset {
        VmAction::SetActivity { active: valid, wait: VM_CHECK_SECONDS }
    } else {
        VmAction::Stop
    }
}

/// Goes on with the watch after a new look: `was_valid` is the answer of the
/// look before, `valid` that of this one.
pub fn watch_for_vm_again(was_valid: bool, valid: bool) -> (action: VmAction)
    ensures
        action == vm_check(was_valid, valid),
{
    if was_valid != valid {
        VmAction::SetActivity { active: valid, wait: VM_CHECK_SECONDS }
    } else {
        VmAction::Wait(VM_CHECK_SECONDS)
    }
}

} // verus!
