//! One run of a task: whether it runs at all, how each attempt is recorded,
//! when it is retried, and what is reported when it ends.
use vstd::prelude::*;
use crate::engine::TaskCompletion;
use crate::executor::TaskOutput;
use crate::model::{RunStatus, Task, TaskStatus};
use crate::text::{concat_strs, contains, contains_seq, int_text, int_to_text};
use crate::trigger::{lemma_outcome_unique, next_run_allowed, next_run_at_instant, ScheduleError};
use crate::instant::is_instant;

verus! {

/// What is written to the execution history for one attempt.
#[derive(Debug, Clone)]
pub struct AttemptRecord {
    pub status: RunStatus,
    pub exit_code: Option<i32>,
    pub stdout: Option<String>,
    pub stderr: Option<String>,
    pub error_msg: Option<String>,
    pub succeeded: bool,
}

/// A task runs only while it is enabled and active.
pub open spec fn runnable(task: Task) -> bool {
    task.enabled && task.status == TaskStatus::Active
}

/// Whether the task may run now.
pub fn should_run(task: &Task) -> (r: bool)
    ensures
        r == runnable(*task),
{
    task.enabled && task.status == TaskStatus::Active
}

/// The record of an attempt. A command that exited with a code other than 0
/// failed (`Command exited with code <code>`); one without a code, or with 0,
/// succeeded. An error is a timeout when its message mentions `timeout`, and a
/// failure otherwise.
pub open spec fn attempt_record_ok(result: Result<TaskOutput, String>, r: AttemptRecord) -> bool {
    match result {
        Ok(o) => {
            let failed = o.exit_code is Some && o.exit_code->0 != 0;
            &&& r.succeeded == !failed
            &&& r.status == (if failed { RunStatus::Failed } else { RunStatus::Success })
            &&& r.exit_code == o.exit_code
            &&& r.stdout == o.stdout
            &&& r.stderr == o.stderr
            &&& failed ==> (r.error_msg matches Some(m) && m@ == "Command exited with code "@ + int_text(
                o.exit_code->0 as int,
            ))
            &&& !failed ==> r.error_msg is None
        },
        Err(e) => {
            &&& !r.succeeded
            &&& r.status == (if contains_seq(e@, "timeout"@) {
                RunStatus::Timeout
            } else {
                RunStatus::Failed
            })
            &&& r.exit_code is None && r.stdout is None && r.stderr is None
            &&& r.error_msg == Some(e)
        },
    }
}

/// Turns the result of an attempt into its history record.
pub fn classify_attempt(result: Result<TaskOutput, String>) -> (r: AttemptRecord)
    ensures
        attempt_record_ok(result, r),
{
    match result {
        Ok(o) => {
            let failed = match o.exit_code {
                Some(c) => c != 0,
                None => false,
            };
            let error_msg = if failed {
                let code = match o.exit_code {
                    Some(c) => c,
                    None => -1,
                };
                let digits = int_to_text(code as i64);
                Some(concat_strs("Command exited with code ", digits.as_str()))
            } else {
                None
            };
            AttemptRecord {
                status: if failed { RunStatus::Failed } else { RunStatus::Success },
                exit_code: o.exit_code,
                stdout: o.stdout,
                stderr: o.stderr,
                error_msg,
                succeeded: !failed,
            }
        },
        Err(e) => {
            let status = if contains(e.as_str(), "timeout") {
                RunStatus::Timeout
            } else {
                RunStatus::Failed
            };
            AttemptRecord {
                status,
                exit_code: None,
                stdout: None,
                stderr: None,
                error_msg: Some(e),
                succeeded: false,
            }
        },
    }
}

/// The progress of a run: the attempts made so far and whether one succeeded.
pub struct RunTracker {
    task_id: u128,
    max_retries: u32,
    attempts: u64,
    success: bool,
}

/// The abstract progress of a run.
pub struct RunView {
    pub task_id: u128,
    pub max_retries: u32,
    pub attempts: nat,
    pub success: bool,
}

impl View for RunTracker {
    type V = RunView;

    closed spec fn view(&self) -> RunView {
        RunView { task_id: self.task_id, max_retries: self.max_retries, attempts: self.attempts as nat, success: self.success }
    }
}

/// Another attempt follows: none has succeeded and retries remain (one
/// attempt plus `max_retries` retries in all).
pub open spec fn wants_more(v: RunView) -> bool {
    !v.success && v.attempts <= v.max_retries
}

impl RunTracker {
    /// The progress is consistent: attempts are counted up to one plus the
    /// retries allowed.
    pub closed spec fn wf(&self) -> bool {
        self.attempts <= self.max_retries as u64 + 1
    }

    /// Starts a run of a runnable task; a disabled or inactive task does not run.
    pub fn start(task: &Task) -> (r: Option<RunTracker>)
        ensures
            r is Some <==> runnable(*task),
            r matches Some(t) ==> t.wf() && t@.attempts == 0 && !t@.success && t@.max_retries
                == task.max_retries && t@.task_id == task.id,
    {
        if should_run(task) {
            Some(RunTracker { task_id: task.id, max_retries: task.max_retries, attempts: 0, success: false })
        } else {
            None
        }
    }

    /// Whether another attempt should be made.
    pub fn wants_attempt(&self) -> (r: bool)
        ensures
            r == wants_more(self@),
    {
        !self.success && self.attempts <= self.max_retries as u64
    }

    /// The task being run.
    pub fn task_id(&self) -> (r: u128)
        ensures
            r == self@.task_id,
    {
        self.task_id
    }

    /// The number of the next attempt (0 for the first, then the retries).
    pub fn attempt(&self) -> (r: u64)
        ensures
            r == self@.attempts,
    {
        self.attempts
    }

    /// Records the result of an attempt and returns its history record.
    pub fn record(&mut self, result: Result<TaskOutput, String>) -> (r: AttemptRecord)
        requires
            old(self).wf(),
            wants_more(old(self)@),
        ensures
            final(self).wf(),
            attempt_record_ok(result, r),
            final(self)@ == (RunView { attempts: old(self)@.attempts + 1, success: r.succeeded, ..old(self)@ }),
    {
        let rec = classify_attempt(result);
        self.attempts = self.attempts + 1;
        self.success = rec.succeeded;
        rec
    }

    /// What the task's last run status becomes: `success` or `failed`.
    pub fn last_run_status(&self) -> (r: &'static str)
        ensures
            r@ == (if self@.success { "success"@ } else { "failed"@ }),
    {
        if self.success {
            "success"
        } else {
            "failed"
        }
    }

    /// The status the task takes when the run is over: `Failed` once every
    /// attempt has failed, and unchanged (`None`) after a success.
    pub fn final_status(&self) -> (r: Option<TaskStatus>)
        requires
            self.wf(),
            !wants_more(self@),
        ensures
            r == (if self@.success { None } else { Some(TaskStatus::Failed) }),
            r is Some ==> self@.attempts == self@.max_retries + 1,
    {
        proof {
            law_retries_are_bounded(self@);
        }
        if self.success {
            None
        } else {
            Some(TaskStatus::Failed)
        }
    }

    /// The report sent to the scheduler at the end of the run, with the clock
    /// reading `now`. A scheduled run reports its task's next run as of `now`;
    /// a manual one reports none. No report is sent when the next run cannot
    /// be computed.
    pub fn completion(&self, task: &Task, is_manual: bool, now: i64) -> (r: Option<TaskCompletion>)
        requires
            is_instant(now as int),
        ensures
            is_manual ==> (r matches Some(c) && c.next_run is None && c.is_manual),
            r matches Some(c) ==> c.task_id == task.id && c.task_name@ == task.name@
                && c.trigger_type == task.trigger_type && c.is_manual == is_manual,
            !is_manual ==> (r is None <==> next_run_allowed(*task, now as int, Err(ScheduleError::OutOfRange))),
            !is_manual ==> (r matches Some(c) ==> next_run_allowed(*task, now as int, Ok(c.next_run))),
    {
        let next_run = if !is_manual {
            let n = next_run_at_instant(task, now);
            proof {
                lemma_outcome_unique(*task, now as int, n);
            }
            match n {
                Ok(n) => n,
                Err(e) => {
                    assert(e == ScheduleError::OutOfRange);
                    return None;
                },
            }
        } else {
            None
        };
        Some(TaskCompletion {
            task_id: task.id,
            task_name: task.name.clone(),
            next_run,
            trigger_type: task.trigger_type,
            is_manual,
        })
    }
}

/// A run makes at most one attempt plus its retries, and stops at the first
/// success: when no further attempt is wanted, either one succeeded or all
/// `max_retries + 1` attempts failed.
pub proof fn law_retries_are_bounded(v: RunView)
    requires
        v.attempts <= v.max_retries + 1,
    ensures
        !wants_more(v) ==> v.success || v.attempts == v.max_retries + 1,
        wants_more(v) ==> v.attempts < v.max_retries + 1,
{
}

/// An attempt succeeds exactly when the command ran and exited with 0 (or
/// gave no code); the recorded status is `Success` exactly then, a failed
/// command keeps its exit code and outputs, and an error is kept as the
/// attempt's message.
pub proof fn law_attempt_outcome(result: Result<TaskOutput, String>, r: AttemptRecord)
    requires
        attempt_record_ok(result, r),
    ensures
        r.succeeded <==> (result is Ok && (result->Ok_0.exit_code is None || result->Ok_0.exit_code == Some(0i32))),
        r.succeeded <==> r.status == RunStatus::Success,
        r.succeeded <==> r.error_msg is None,
        result is Ok ==> r.exit_code == result->Ok_0.exit_code && r.stdout == result->Ok_0.stdout
            && r.stderr == result->Ok_0.stderr,
        result is Err ==> r.error_msg == Some(result->Err_0) && r.status != RunStatus::Success,
{
}

} // verus!
