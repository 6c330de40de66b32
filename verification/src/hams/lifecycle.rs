//! The lifecycle of the service: when it may be started and stopped, and the order of
//! the phases of one run, from the preflight checks to the shutdown checks.

use vstd::prelude::*;
use crate::error::HamsError;
use tokio_util::sync::CancellationToken;

verus! {

#[verifier::external_type_specification]
#[verifier::external_body]
pub struct ExCancellationToken(CancellationToken);

/// `CancellationToken::new`: a fresh token. Nothing is claimed of its state: other
/// clones of a token may cancel it at any time.
#[verifier::external_body]
fn new_token() -> CancellationToken {
    CancellationToken::new()
}

/// `CancellationToken::cancel`: cancels the token and every clone of it.
#[verifier::external_body]
fn cancel_token(token: &CancellationToken) {
    token.cancel()
}

/// `CancellationToken::is_cancelled`. Nothing is claimed of the result: the token is
/// shared with the service thread and its signal handlers, which cancel it on their own.
#[verifier::external_body]
fn token_is_cancelled(token: &CancellationToken) -> bool {
    token.is_cancelled()
}

/// Whether a start request is granted, given whether the service's token is cancelled:
/// only a service that is not running (its token cancelled) may start.
pub open spec fn spec_start_decision(cancelled: bool) -> Result<(), HamsError> {
    if cancelled { Ok(()) } else { Err(HamsError::AlreadyRunning) }
}

/// Whether a start request is granted, given whether the service's token is cancelled.
pub fn start_decision(cancelled: bool) -> (r: Result<(), HamsError>)
    ensures
        r == spec_start_decision(cancelled),
{
    if cancelled { Ok(()) } else { Err(HamsError::AlreadyRunning) }
}

/// Whether a stop request is granted, given whether the service's token is cancelled and
/// whether a service thread is there to wait on: a service that is not running cannot
/// stop, and a running one needs its thread.
pub open spec fn spec_stop_decision(cancelled: bool, has_thread: bool) -> Result<(), HamsError> {
    if cancelled {
        Err(HamsError::NotRunning)
    } else if !has_thread {
        Err(HamsError::NoThread)
    } else {
        Ok(())
    }
}

/// Whether a stop request is granted.
pub fn stop_decision(cancelled: bool, has_thread: bool) -> (r: Result<(), HamsError>)
    ensures
        r == spec_stop_decision(cancelled, has_thread),
{
    if cancelled {
        Err(HamsError::NotRunning)
    } else if !has_thread {
        Err(HamsError::NoThread)
    } else {
        Ok(())
    }
}

/// The result of a stop once the service thread was waited on: the run's own result,
/// or `JoinError2` when the thread could not be joined (`None`).
pub fn joined_result(joined: Option<Result<(), HamsError>>) -> (r: Result<(), HamsError>)
    ensures
        r == match joined {
            Some(res) => res,
            None => Err::<(), HamsError>(HamsError::JoinError2),
        },
{
    match joined {
        Some(res) => res,
        None => Err(HamsError::JoinError2),
    }
}

/// Starting a service that is not running is granted, and stopping it then is granted
/// as soon as its thread is there; a second stop is refused as not running.
pub proof fn law_start_then_stop()
    ensures
        spec_start_decision(true) == Ok::<(), HamsError>(()),
        spec_stop_decision(false, true) == Ok::<(), HamsError>(()),
        spec_stop_decision(true, false) == Err::<(), HamsError>(HamsError::NotRunning),
        spec_stop_decision(true, true) == Err::<(), HamsError>(HamsError::NotRunning),
{
}

/// A service that is running refuses a second start.
pub proof fn law_no_double_start()
    ensures
        spec_start_decision(false) == Err::<(), HamsError>(HamsError::AlreadyRunning),
{
}

/// The running state of the service: no token before the first start and after a
/// granted stop, else the token of the current run, which the service thread and its
/// signal handlers may cancel on their own when the run ends.
#[derive(Debug)]
pub struct ServiceControl {
    token: Option<CancellationToken>,
}

impl ServiceControl {
    /// The token of the current run, if there is one.
    pub closed spec fn spec_token(&self) -> Option<CancellationToken> {
        self.token
    }

    /// Whether the service is known not to be running: it was never started, or its
    /// last stop was granted.
    pub open spec fn is_idle(&self) -> bool {
        self.spec_token() is None
    }

    /// A service that is not running.
    pub fn new() -> (r: ServiceControl)
        ensures
            r.is_idle(),
    {
        ServiceControl { token: None }
    }

    /// The token of the current run, to hand to the service thread.
    pub fn token(&self) -> (r: Option<&CancellationToken>)
        ensures
            r is None <==> self.is_idle(),
            r matches Some(t) ==> self.spec_token() == Some(*t),
    {
        match &self.token {
            Some(t) => Some(t),
            None => None,
        }
    }

    /// Whether the service is not running: no token, or a cancelled one.
    fn not_running(&self) -> (r: bool)
        ensures
            self.is_idle() ==> r,
    {
        match &self.token {
            Some(t) => token_is_cancelled(t),
            None => true,
        }
    }

    /// Grants a start when the service is not running, and then gives it a fresh token;
    /// refuses with `AlreadyRunning` otherwise, leaving the state as it was. A service
    /// that was never started, or whose last stop was granted, is always granted.
    pub fn start(&mut self) -> (r: Result<(), HamsError>)
        ensures
            exists|cancelled: bool| r == spec_start_decision(cancelled),
            old(self).is_idle() ==> r is Ok,
            r is Ok ==> !final(self).is_idle(),
            r is Err ==> *final(self) == *old(self),
    {
        let decision = start_decision(self.not_running());
        if decision.is_ok() {
            self.token = Some(new_token());
        }
        decision
    }

    /// Grants a stop when the service is running and its thread is there, and then
    /// cancels the run's token and lets it go; refuses with `NotRunning` or `NoThread`
    /// otherwise, leaving the state as it was. A service that was never started, or whose
    /// last stop was granted, is refused as not running.
    pub fn stop(&mut self, has_thread: bool) -> (r: Result<(), HamsError>)
        ensures
            exists|cancelled: bool| r == spec_stop_decision(cancelled, has_thread),
            old(self).is_idle() ==> r == Err::<(), HamsError>(HamsError::NotRunning),
            r is Ok ==> final(self).is_idle(),
            r is Err ==> *final(self) == *old(self),
    {
        let decision = stop_decision(self.not_running(), has_thread);
        if decision.is_ok() {
            if let Some(t) = &self.token {
                cancel_token(t);
            }
            self.token = None;
        }
        decision
    }

    /// Cancels the current run, if there is one.
    pub fn cancel(&self) {
        if let Some(t) = &self.token {
            cancel_token(t);
        }
    }
}

/// The phases of one run of the service, in order.
#[derive(Debug, Clone, Copy, PartialEq, Eq, Structural)]
pub enum ServicePhase {
    /// Running the preflight checks
    Preflight,
    /// Running the startup tasks
    StartupTasks,
    /// Serving the endpoints until cancelled or signalled
    Serving,
    /// Running the shutdown callback
    ShutdownCallback,
    /// Running the shutdown tasks
    ShutdownTasks,
    /// Running the shutdown checks
    ShutdownChecks,
    /// The run is over
    Done,
}

/// What the runner of the service reports back after performing an action.
#[derive(Debug, PartialEq, Eq)]
pub enum ServiceEvent {
    /// The preflight checks ran; whether they were all valid
    PreflightChecked(bool),
    /// The startup tasks ran
    StartupTasksFinished(Result<(), HamsError>),
    /// Serving ended: `Ok` when cancelled or signalled, `Err` when the server failed
    ServingEnded(Result<(), HamsError>),
    /// The shutdown callback ran (or there was none)
    ShutdownCallbackFinished(Result<(), HamsError>),
    /// The shutdown tasks ran
    ShutdownTasksFinished(Result<(), HamsError>),
    /// The shutdown checks ran; whether they were all valid
    ShutdownChecked(bool),
}

/// What the runner of the service is to do next.
#[derive(Debug, PartialEq, Eq)]
pub enum ServiceAction {
    /// Run the preflight checks
    RunPreflightChecks,
    /// Run the startup tasks
    RunStartupTasks,
    /// Serve the endpoints until the token is cancelled or a signal arrives
    Serve,
    /// Cancel the token, then run the shutdown callback
    CallShutdownCallback,
    /// Run the shutdown tasks
    RunShutdownTasks,
    /// Run the shutdown checks
    RunShutdownChecks,
    /// End the run with this result
    Finish(Result<(), HamsError>),
}

/// The position of a phase in the order of a run.
pub open spec fn phase_rank(p: ServicePhase) -> nat {
    match p {
        ServicePhase::Preflight => 0,
        ServicePhase::StartupTasks => 1,
        ServicePhase::Serving => 2,
        ServicePhase::ShutdownCallback => 3,
        ServicePhase::ShutdownTasks => 4,
        ServicePhase::ShutdownChecks => 5,
        ServicePhase::Done => 6,
    }
}

/// Whether an event is the report of the action that a phase performs.
pub open spec fn event_fits(phase: ServicePhase, event: ServiceEvent) -> bool {
    match (phase, event) {
        (ServicePhase::Preflight, ServiceEvent::PreflightChecked(_)) => true,
        (ServicePhase::StartupTasks, ServiceEvent::StartupTasksFinished(_)) => true,
        (ServicePhase::Serving, ServiceEvent::ServingEnded(_)) => true,
        (ServicePhase::ShutdownCallback, ServiceEvent::ShutdownCallbackFinished(_)) => true,
        (ServicePhase::ShutdownTasks, ServiceEvent::ShutdownTasksFinished(_)) => true,
        (ServicePhase::ShutdownChecks, ServiceEvent::ShutdownChecked(_)) => true,
        _ => false,
    }
}

/// Whether an event is the report of the action that a phase performs.
pub fn fits(phase: ServicePhase, event: &ServiceEvent) -> (r: bool)
    ensures
        r == event_fits(phase, *event),
{
    match (phase, event) {
        (ServicePhase::Preflight, ServiceEvent::PreflightChecked(_)) => true,
        (ServicePhase::StartupTasks, ServiceEvent::StartupTasksFinished(_)) => true,
        (ServicePhase::Serving, ServiceEvent::ServingEnded(_)) => true,
        (ServicePhase::ShutdownCallback, ServiceEvent::ShutdownCallbackFinished(_)) => true,
        (ServicePhase::ShutdownTasks, ServiceEvent::ShutdownTasksFinished(_)) => true,
        (ServicePhase::ShutdownChecks, ServiceEvent::ShutdownChecked(_)) => true,
        _ => false,
    }
}

/// One step of a run: failing preflight checks end it with `PreflightCheck`; an error of
/// the startup tasks, the server, the shutdown callback or the shutdown tasks ends it with
/// that error; the shutdown checks are reported but never change the result.
pub open spec fn spec_service_step(phase: ServicePhase, event: ServiceEvent) -> (ServicePhase, ServiceAction) {
    match event {
        ServiceEvent::PreflightChecked(valid) => if valid {
            (ServicePhase::StartupTasks, ServiceAction::RunStartupTasks)
        } else {
            (ServicePhase::Done, ServiceAction::Finish(Err(HamsError::PreflightCheck)))
        },
        ServiceEvent::StartupTasksFinished(res) => match res {
            Ok(()) => (ServicePhase::Serving, ServiceAction::Serve),
            Err(e) => (ServicePhase::Done, ServiceAction::Finish(Err(e))),
        },
        ServiceEvent::ServingEnded(res) => match res {
            Ok(()) => (ServicePhase::ShutdownCallback, ServiceAction::CallShutdownCallback),
            Err(e) => (ServicePhase::Done, ServiceAction::Finish(Err(e))),
        },
        ServiceEvent::ShutdownCallbackFinished(res) => match res {
            Ok(()) => (ServicePhase::ShutdownTasks, ServiceAction::RunShutdownTasks),
            Err(e) => (ServicePhase::Done, ServiceAction::Finish(Err(e))),
        },
        ServiceEvent::ShutdownTasksFinished(res) => match res {
            Ok(()) => (ServicePhase::ShutdownChecks, ServiceAction::RunShutdownChecks),
            Err(e) => (ServicePhase::Done, ServiceAction::Finish(Err(e))),
        },
        ServiceEvent::ShutdownChecked(_) => (ServicePhase::Done, ServiceAction::Finish(Ok(()))),
    }
}

/// The first phase of a run and its action.
pub fn service_begin() -> (r: (ServicePhase, ServiceAction))
    ensures
        r == (ServicePhase::Preflight, ServiceAction::RunPreflightChecks),
{
    (ServicePhase::Preflight, ServiceAction::RunPreflightChecks)
}

/// One step of a run, from the current phase and the report of its action to the next
/// phase and the action to perform.
pub fn service_step(phase: ServicePhase, event: ServiceEvent) -> (r: (ServicePhase, ServiceAction))
    requires
        event_fits(phase, event),
    ensures
        r == spec_service_step(phase, event),
{
    match event {
        ServiceEvent::PreflightChecked(valid) => if valid {
            (ServicePhase::StartupTasks, ServiceAction::RunStartupTasks)
        } else {
            (ServicePhase::Done, ServiceAction::Finish(Err(HamsError::PreflightCheck)))
        },
        ServiceEvent::StartupTasksFinished(res) => match res {
            Ok(()) => (ServicePhase::Serving, ServiceAction::Serve),
            Err(e) => (ServicePhase::Done, ServiceAction::Finish(Err(e))),
        },
        ServiceEvent::ServingEnded(res) => match res {
            Ok(()) => (ServicePhase::ShutdownCallback, ServiceAction::CallShutdownCallback),
            Err(e) => (ServicePhase::Done, ServiceAction::Finish(Err(e))),
        },
        ServiceEvent::ShutdownCallbackFinished(res) => match res {
            Ok(()) => (ServicePhase::ShutdownTasks, ServiceAction::RunShutdownTasks),
            Err(e) => (ServicePhase::Done, ServiceAction::Finish(Err(e))),
        },
        ServiceEvent::ShutdownTasksFinished(res) => match res {
            Ok(()) => (ServicePhase::ShutdownChecks, ServiceAction::RunShutdownChecks),
            Err(e) => (ServicePhase::Done, ServiceAction::Finish(Err(e))),
        },
        ServiceEvent::ShutdownChecked(_) => (ServicePhase::Done, ServiceAction::Finish(Ok(()))),
    }
}

/// Every step moves to a later phase, so a run ends after at most six steps, and the
/// run ends exactly when the action is `Finish`.
pub proof fn law_service_progresses(phase: ServicePhase, event: ServiceEvent)
    requires
        event_fits(phase, event),
    ensures
        phase_rank(spec_service_step(phase, event).0) > phase_rank(phase),
        (spec_service_step(phase, event).0 == ServicePhase::Done) <==> (spec_service_step(phase, event).1 is Finish),
{
}

/// Failing preflight checks end the run at once: the service never serves and no
/// shutdown step runs.
pub proof fn law_failed_preflight_never_serves()
    ensures
        spec_service_step(ServicePhase::Preflight, ServiceEvent::PreflightChecked(false))
            == (ServicePhase::Done, ServiceAction::Finish(Err(HamsError::PreflightCheck))),
{
}

/// The shutdown callback runs only after serving ended without error.
pub proof fn law_callback_only_after_serving(phase: ServicePhase, event: ServiceEvent)
    requires
        event_fits(phase, event),
        spec_service_step(phase, event).1 == ServiceAction::CallShutdownCallback,
    ensures
        phase == ServicePhase::Serving,
        event matches ServiceEvent::ServingEnded(Ok(())),
{
}

/// The failure that an event reports, if any: a failed preflight, or the error of the
/// startup tasks, of serving, of the shutdown callback or of the shutdown tasks.
pub open spec fn reported_failure(event: ServiceEvent) -> Option<HamsError> {
    match event {
        ServiceEvent::PreflightChecked(valid) => if valid { None } else { Some(HamsError::PreflightCheck) },
        ServiceEvent::StartupTasksFinished(Err(e)) => Some(e),
        ServiceEvent::ServingEnded(Err(e)) => Some(e),
        ServiceEvent::ShutdownCallbackFinished(Err(e)) => Some(e),
        ServiceEvent::ShutdownTasksFinished(Err(e)) => Some(e),
        _ => None,
    }
}

/// A reported failure ends the run at once with that very failure: whatever the phase,
/// an event that reports the error `e` leads to `Done` with `Finish(Err(e))`. In
/// particular a failure of the shutdown tasks is the result of the run, and the shutdown
/// checks are not run after it.
pub proof fn law_failure_ends_the_run_with_it(phase: ServicePhase, event: ServiceEvent, e: HamsError)
    requires
        event_fits(phase, event),
        reported_failure(event) == Some(e),
    ensures
        spec_service_step(phase, event) == (ServicePhase::Done, ServiceAction::Finish(Err::<(), HamsError>(e))),
{
}

/// A step that reports no failure never ends the run with an error, and it ends the run
/// only from the shutdown checks, with `Ok`: every earlier phase goes on to the next one.
pub proof fn law_success_goes_on(phase: ServicePhase, event: ServiceEvent)
    requires
        event_fits(phase, event),
        reported_failure(event) is None,
    ensures
        !(spec_service_step(phase, event).1 matches ServiceAction::Finish(Err(_))),
        phase != ServicePhase::ShutdownChecks ==> phase_rank(spec_service_step(phase, event).0) == phase_rank(phase) + 1,
        spec_service_step(phase, event).1 is Finish ==> phase == ServicePhase::ShutdownChecks,
{
}

/// The result of a run from `phase` that is driven by `events`, when the last of them
/// is the one that ends it, each fitting the phase it is reported in; `None` when the
/// events do not make such a run.
pub open spec fn run_result(phase: ServicePhase, events: Seq<ServiceEvent>) -> Option<Result<(), HamsError>>
    decreases events.len(),
{
    if events.len() == 0 || !event_fits(phase, events[0]) {
        None
    } else {
        let (next, action) = spec_service_step(phase, events[0]);
        if events.len() == 1 {
            match action {
                ServiceAction::Finish(res) => Some(res),
                _ => None,
            }
        } else if action is Finish {
            None
        } else {
            run_result(next, events.drop_first())
        }
    }
}

/// A whole run ends with `Ok` only when no report in it was a failure, and a run that
/// ends on a reported failure ends with exactly that error.
pub proof fn law_run_succeeds_only_without_failures(phase: ServicePhase, events: Seq<ServiceEvent>)
    ensures
        run_result(phase, events) == Some(Ok::<(), HamsError>(()))
            ==> forall|i: int| 0 <= i < events.len() ==> (#[trigger] reported_failure(events[i])) is None,
        run_result(phase, events) is Some && events.len() > 0
            && reported_failure(events.last()) is Some
            ==> run_result(phase, events) == Some(Err::<(), HamsError>(reported_failure(events.last())->0)),
    decreases events.len(),
{
    if events.len() > 1 && event_fits(phase, events[0]) {
        let (next, action) = spec_service_step(phase, events[0]);
        let rest = events.drop_first();
        law_run_succeeds_only_without_failures(next, rest);
        if run_result(phase, events) is Some {
            assert(!(action is Finish));
            assert(reported_failure(events[0]) is None);
            assert(rest.last() == events.last());
            assert forall|i: int| 1 <= i < events.len() implies events[i] == rest[i - 1] by {}
        }
    }
}

/// Whatever the shutdown checks report, a run that reached them succeeds.
pub proof fn law_shutdown_checks_do_not_fail_the_run(valid: bool)
    ensures
        spec_service_step(ServicePhase::ShutdownChecks, ServiceEvent::ShutdownChecked(valid))
            == (ServicePhase::Done, ServiceAction::Finish(Ok(()))),
{
}

} // verus!
