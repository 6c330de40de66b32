//! Startup and shutdown tasks: probes that are attempted until they succeed, a bounded
//! number of times, with a pause between attempts.

use vstd::prelude::*;
use vstd::string::*;
use crate::error::HamsError;
use crate::hams::config::TaskConfig;

verus! {

/// What follows an attempt of a task.
#[derive(Debug, Clone, Copy, PartialEq, Eq, Structural)]
pub enum TaskStep {
    /// The task succeeded; no more attempts
    Succeeded,
    /// Wait this many milliseconds, then attempt again
    RetryAfter(u64),
    /// The task failed for good
    Failed,
}

/// Whether one attempt succeeded: the probe answered `Ok(true)` in time. `None` stands
/// for an attempt that ran out of time.
pub open spec fn spec_attempt_succeeded(outcome: Option<Result<bool, HamsError>>) -> bool {
    outcome matches Some(Ok(true))
}

/// Whether one attempt succeeded; `None` stands for an attempt that ran out of time.
pub fn attempt_succeeded(outcome: &Option<Result<bool, HamsError>>) -> (r: bool)
    ensures
        r == spec_attempt_succeeded(*outcome),
{
    match outcome {
        Some(Ok(b)) => *b,
        _ => false,
    }
}

/// What follows the attempt numbered `attempts` (counting from 1).
pub open spec fn spec_next_step(config: TaskConfig, attempts: u32, success: bool) -> TaskStep {
    if success {
        TaskStep::Succeeded
    } else if attempts >= config.retries {
        TaskStep::Failed
    } else {
        TaskStep::RetryAfter(config.sleep_ms)
    }
}

/// What follows the attempt numbered `attempts` (counting from 1): done when it
/// succeeded; when it failed, give up once `retries` attempts have been made, else wait
/// `sleep_ms` and try again.
pub fn next_step(config: &TaskConfig, attempts: u32, success: bool) -> (r: TaskStep)
    requires
        attempts >= 1,
    ensures
        r == spec_next_step(*config, attempts, success),
{
    if success {
        TaskStep::Succeeded
    } else if attempts >= config.retries {
        TaskStep::Failed
    } else {
        TaskStep::RetryAfter(config.sleep_ms)
    }
}

/// The number of attempts made of a task that never succeeds: `retries`, but at least one.
pub open spec fn max_attempts(config: TaskConfig) -> nat {
    if config.retries == 0 { 1 } else { config.retries as nat }
}

/// A task that keeps failing is given up exactly at its last allowed attempt, and a
/// task is always attempted at least once.
pub proof fn law_failing_task_gives_up_at_max_attempts(config: TaskConfig, attempts: u32)
    requires
        attempts >= 1,
    ensures
        (spec_next_step(config, attempts, false) == TaskStep::Failed) <==> attempts >= max_attempts(config),
        attempts < max_attempts(config) ==> spec_next_step(config, attempts, false) == TaskStep::RetryAfter(config.sleep_ms),
{
}

/// A successful attempt always ends the task as succeeded, whichever attempt it was and
/// however many attempts the task allows, the last allowed one included; and a task is
/// given up or retried only after an attempt that failed.
pub proof fn law_success_ends_the_task(config: TaskConfig, attempts: u32, success: bool)
    requires
        attempts >= 1,
    ensures
        success ==> spec_next_step(config, attempts, success) == TaskStep::Succeeded,
        spec_next_step(config, attempts, success) == TaskStep::Succeeded ==> success,
{
}

/// The progress of one task through its attempts.
#[derive(Debug, Clone, Copy, PartialEq, Eq, Structural)]
pub struct TaskRun {
    /// Configuration of the task
    pub config: TaskConfig,
    /// Attempts made so far
    pub attempts: u32,
    /// Whether the task has succeeded or been given up
    pub finished: bool,
}

impl TaskRun {
    /// Whether the run is consistent: an unfinished run has attempts left.
    pub open spec fn wf(self) -> bool {
        !self.finished ==> self.attempts < max_attempts(self.config)
    }

    /// A task with no attempt made yet.
    pub fn new(config: TaskConfig) -> (r: TaskRun)
        ensures
            r.config == config,
            r.attempts == 0,
            !r.finished,
            r.wf(),
    {
        TaskRun { config, attempts: 0, finished: false }
    }

    /// Whether another attempt may be recorded: the run is consistent and not finished.
    pub fn can_record(&self) -> (r: bool)
        ensures
            r == (self.wf() && !self.finished),
    {
        if self.finished {
            false
        } else {
            self.config.retries == 0 && self.attempts < 1 || self.attempts < self.config.retries
        }
    }

    /// Records the outcome of one more attempt (`None`: it ran out of time) and says
    /// what follows.
    pub fn record(&mut self, outcome: &Option<Result<bool, HamsError>>) -> (r: TaskStep)
        requires
            old(self).wf(),
            !old(self).finished,
        ensures
            final(self).wf(),
            final(self).config == old(self).config,
            final(self).attempts == old(self).attempts + 1,
            r == spec_next_step(old(self).config, final(self).attempts, spec_attempt_succeeded(*outcome)),
            final(self).finished == !(r is RetryAfter),
    {
        self.attempts = self.attempts + 1;
        let success = attempt_succeeded(outcome);
        let step = next_step(&self.config, self.attempts, success);
        match step {
            TaskStep::RetryAfter(_) => {},
            _ => { self.finished = true; },
        }
        step
    }
}

/// The error a task gives up with: `Task <name> failed`.
pub fn task_failed(probe_name: &str) -> (r: HamsError)
    ensures
        r matches HamsError::Message(m) && m@ == "Task "@ + probe_name@ + " failed"@,
{
    let mut m = String::from_str("Task ");
    m.append(probe_name);
    m.append(" failed");
    HamsError::Message(m)
}

/// The outcome of a group of tasks run side by side, each given as its result, or
/// `None` when the task could not be joined: the first failure in order, else success.
pub open spec fn spec_combine_task_results(results: Seq<Option<Result<(), HamsError>>>) -> Result<(), HamsError>
    decreases results.len(),
{
    if results.len() == 0 {
        Ok(())
    } else {
        match results[0] {
            Some(Ok(())) => spec_combine_task_results(results.drop_first()),
            Some(Err(e)) => Err(e),
            None => Err(HamsError::JoinError),
        }
    }
}

/// Whether one task of a group was joined and succeeded.
pub open spec fn task_succeeded(result: Option<Result<(), HamsError>>) -> bool {
    result matches Some(Ok(_))
}

/// A group of tasks succeeds exactly when every task in it was joined and succeeded.
pub proof fn law_group_succeeds_only_when_every_task_does(results: Seq<Option<Result<(), HamsError>>>)
    ensures
        spec_combine_task_results(results) is Ok
            <==> forall|i: int| 0 <= i < results.len() ==> task_succeeded(#[trigger] results[i]),
    decreases results.len(),
{
    if results.len() > 0 {
        let rest = results.drop_first();
        law_group_succeeds_only_when_every_task_does(rest);
        assert forall|i: int| 1 <= i < results.len() implies results[i] == rest[i - 1] by {}
        if spec_combine_task_results(results) is Ok {
            assert(task_succeeded(results[0]));
            assert forall|i: int| 0 <= i < results.len() implies task_succeeded(#[trigger] results[i]) by {
                if i > 0 {
                    assert(task_succeeded(rest[i - 1]));
                }
            }
        } else if task_succeeded(results[0]) {
            let j = choose|j: int| 0 <= j < rest.len() && !task_succeeded(#[trigger] rest[j]);
            assert(!task_succeeded(results[j + 1]));
        }
    }
}

/// The outcome of a group of tasks: the first failure in order (a task that could not
/// be joined counts as `JoinError`), else success.
pub fn combine_task_results(results: &Vec<Option<Result<(), HamsError>>>) -> (r: Result<(), HamsError>)
    ensures
        r == spec_combine_task_results(results@),
{
    let mut i: usize = 0;
    assert(results@.skip(0) =~= results@);
    while i < results.len()
        invariant
            i <= results@.len(),
            spec_combine_task_results(results@) == spec_combine_task_results(results@.skip(i as int)),
        decreases results@.len() - i,
    {
        assert(results@.skip(i as int).drop_first() =~= results@.skip(i + 1));
        assert(results@.skip(i as int)[0] == results@[i as int]);
        match &results[i] {
            Some(Ok(())) => {},
            Some(Err(e)) => {
                return Err(e.duplicate());
            },
            None => {
                return Err(HamsError::JoinError);
            },
        }
        i = i + 1;
    }
    assert(results@.skip(i as int).len() == 0);
    Ok(())
}

} // verus!
