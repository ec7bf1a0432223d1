//! The scheduler's decisions: a state machine from the current state and an
//! event (a command, a finished run, the timer, a loaded task list) to the next
//! state and the action that the surrounding runtime performs.
use vstd::prelude::*;
use vstd::multiset::Multiset;
use crate::model::{Task, TriggerType};
use crate::instant::{is_instant, rfc3339_instant};
use crate::trigger::{
    ScheduleError, cron_expression_valid, cron_next_fire, cron_window, cron_zone_name, next_run_allowed,
    lemma_outcome_unique, next_run_at_instant, outcome_view, planned_outcome,
};
use crate::queue::{
    RunQueue, ScheduleEntry, entry_le, insert_all, insert_sorted, sorted, lemma_insert_all,
    lemma_insert_sorted, law_head_is_earliest,
};

verus! {

/// The timeout, in seconds, that runs get when their task names none.
pub const DEFAULT_TIMEOUT: u64 = 3600u64;

/// How many execution records the history keeps by default.
pub const DEFAULT_MAX_HISTORY: usize = 1000usize;

/// A request to the scheduler.
#[derive(Debug, Clone, Copy, PartialEq, Eq, Structural)]
pub enum SchedulerCommand {
    Reload,
    Pause,
    Resume,
    TriggerNow(u128),
    Shutdown,
}

impl SchedulerCommand {
    /// The answer the API gives once a pause, resume or reload is sent.
    pub fn reply_message(&self) -> (r: Option<&'static str>)
        ensures
            *self == SchedulerCommand::Pause ==> (r matches Some(m) && m@ == "Scheduler paused"@),
            *self == SchedulerCommand::Resume ==> (r matches Some(m) && m@ == "Scheduler resumed"@),
            *self == SchedulerCommand::Reload ==> (r matches Some(m) && m@ == "Scheduler reloaded"@),
            self is TriggerNow || self is Shutdown ==> r is None,
    {
        match self {
            SchedulerCommand::Pause => Some("Scheduler paused"),
            SchedulerCommand::Resume => Some("Scheduler resumed"),
            SchedulerCommand::Reload => Some("Scheduler reloaded"),
            _ => None,
        }
    }
}

/// The report of a finished run.
#[derive(Debug, Clone)]
pub struct TaskCompletion {
    pub task_id: u128,
    pub task_name: String,
    pub next_run: Option<i64>,
    pub trigger_type: TriggerType,
    pub is_manual: bool,
}

/// What happened.
pub enum EngineEvent {
    /// A command arrived.
    Command(SchedulerCommand),
    /// A run finished.
    Completed(TaskCompletion),
    /// The timer went off; the payload is the current instant.
    TimerFired(i64),
    /// The hourly history cleanup is due.
    CleanupDue,
    /// The enabled tasks were loaded, each with its next run.
    TasksLoaded(Vec<ScheduleEntry>),
}

/// What the runtime must do next.
#[derive(Debug, Clone, Copy, PartialEq, Eq, Structural)]
pub enum EngineAction {
    /// Load every enabled task and report them with `TasksLoaded`.
    LoadTasks,
    /// Run a task in the background and report it with `Completed`.
    SpawnRun { task_id: u128, is_manual: bool, default_timeout: u64 },
    /// Store the next run of a task.
    RecordNextRun { task_id: u128, next_run: i64 },
    /// Disable a one-off task that has run: no next run, status completed.
    FinishOnceTask { task_id: u128 },
    /// Trim the execution history to its newest records.
    CleanupHistory { max_history: usize },
    /// Leave the event loop.
    Stop,
    /// Nothing to do.
    Idle,
}

/// The abstract state of the scheduler.
pub struct EngineView {
    pub paused: bool,
    pub stopped: bool,
    pub queue: Seq<ScheduleEntry>,
    pub max_history: usize,
}

/// The scheduler's decision state: paused or not, stopped or not, and the
/// queue of pending runs.
pub struct SchedulerEngine {
    paused: bool,
    stopped: bool,
    queue: RunQueue,
    max_history: usize,
}

impl View for SchedulerEngine {
    type V = EngineView;

    closed spec fn view(&self) -> EngineView {
        EngineView {
            paused: self.paused,
            stopped: self.stopped,
            queue: self.queue@,
            max_history: self.max_history,
        }
    }
}

/// The instant the timer should fire at: the earliest pending run, unless the
/// scheduler is paused, stopped or has nothing pending.
pub open spec fn wake_time(v: EngineView) -> Option<i64> {
    if v.paused || v.stopped || v.queue.len() == 0 {
        None
    } else {
        Some(v.queue[0].next_run)
    }
}

/// The scheduler's transition: the next state and the action for an event.
pub open spec fn engine_step(v: EngineView, e: EngineEvent) -> (EngineView, EngineAction) {
    if v.stopped {
        (v, EngineAction::Idle)
    } else {
        match e {
            EngineEvent::Command(SchedulerCommand::Reload) => (
                EngineView { queue: Seq::empty(), ..v },
                EngineAction::LoadTasks,
            ),
            EngineEvent::Command(SchedulerCommand::Pause) => (
                EngineView { paused: true, ..v },
                EngineAction::Idle,
            ),
            EngineEvent::Command(SchedulerCommand::Resume) => (
                EngineView { paused: false, queue: Seq::empty(), ..v },
                EngineAction::LoadTasks,
            ),
            EngineEvent::Command(SchedulerCommand::TriggerNow(id)) => (
                v,
                EngineAction::SpawnRun {
                    task_id: id,
                    is_manual: true,
                    default_timeout: DEFAULT_TIMEOUT,
                },
            ),
            EngineEvent::Command(SchedulerCommand::Shutdown) => (
                EngineView { stopped: true, ..v },
                EngineAction::Stop,
            ),
            EngineEvent::Completed(c) => if c.is_manual {
                (v, EngineAction::Idle)
            } else {
                match c.next_run {
                    Some(n) => (
                        EngineView {
                            queue: insert_sorted(
                                v.queue,
                                ScheduleEntry { next_run: n, task_id: c.task_id },
                            ),
                            ..v
                        },
                        EngineAction::RecordNextRun { task_id: c.task_id, next_run: n },
                    ),
                    None => if c.trigger_type == TriggerType::Once {
                        (v, EngineAction::FinishOnceTask { task_id: c.task_id })
                    } else {
                        (v, EngineAction::Idle)
                    },
                }
            },
            EngineEvent::TimerFired(now) => if v.paused || v.queue.len() == 0 {
                (v, EngineAction::Idle)
            } else if v.queue[0].next_run <= now {
                (
                    EngineView { queue: v.queue.drop_first(), ..v },
                    EngineAction::SpawnRun {
                        task_id: v.queue[0].task_id,
                        is_manual: false,
                        default_timeout: DEFAULT_TIMEOUT,
                    },
                )
            } else {
                (v, EngineAction::Idle)
            },
            EngineEvent::CleanupDue => (
                v,
                EngineAction::CleanupHistory { max_history: v.max_history },
            ),
            EngineEvent::TasksLoaded(es) => (
                EngineView { queue: insert_all(v.queue, es@), ..v },
                EngineAction::Idle,
            ),
        }
    }
}

impl SchedulerEngine {
    /// The queue is in order.
    pub closed spec fn wf(&self) -> bool {
        self.queue.wf()
    }

    /// A well-formed scheduler keeps its pending runs in order.
    pub proof fn lemma_wf_sorted(&self)
        requires
            self.wf(),
        ensures
            sorted(self@.queue),
    {
    }

    /// A running, unpaused scheduler with nothing pending. Its loop starts with
    /// [`EngineAction::LoadTasks`].
    pub fn new(max_history: usize) -> (s: SchedulerEngine)
        ensures
            s.wf(),
            sorted(s@.queue),
            s@.paused == false,
            s@.stopped == false,
            s@.queue == Seq::<ScheduleEntry>::empty(),
            s@.max_history == max_history,
    {
        SchedulerEngine { paused: false, stopped: false, queue: RunQueue::new(), max_history }
    }

    /// The instant the timer should fire at, if it should be armed.
    pub fn wake_at(&self) -> (r: Option<i64>)
        requires
            self.wf(),
        ensures
            r == wake_time(self@),
    {
        if self.paused || self.stopped {
            return None;
        }
        match self.queue.peek() {
            Some(e) => Some(e.next_run),
            None => None,
        }
    }

    /// The number of pending runs.
    pub fn pending(&self) -> (n: usize)
        ensures
            n == self@.queue.len(),
    {
        self.queue.len()
    }

    /// Whether the scheduler is paused.
    pub fn is_paused(&self) -> (b: bool)
        ensures
            b == self@.paused,
    {
        self.paused
    }

    /// Whether the scheduler has shut down.
    pub fn is_stopped(&self) -> (b: bool)
        ensures
            b == self@.stopped,
    {
        self.stopped
    }

    /// Takes one event and returns the action to perform.
    pub fn handle(&mut self, event: EngineEvent) -> (a: EngineAction)
        requires
            old(self).wf(),
        ensures
            final(self).wf(),
            sorted(final(self)@.queue),
            (final(self)@, a) == engine_step(old(self)@, event),
    {
        if self.stopped {
            return EngineAction::Idle;
        }
        match event {
            EngineEvent::Command(cmd) => match cmd {
                SchedulerCommand::Reload => {
                    self.queue.clear();
                    EngineAction::LoadTasks
                },
                SchedulerCommand::Pause => {
                    self.paused = true;
                    EngineAction::Idle
                },
                SchedulerCommand::Resume => {
                    self.paused = false;
                    self.queue.clear();
                    EngineAction::LoadTasks
                },
                SchedulerCommand::TriggerNow(id) => EngineAction::SpawnRun {
                    task_id: id,
                    is_manual: true,
                    default_timeout: DEFAULT_TIMEOUT,
                },
                SchedulerCommand::Shutdown => {
                    self.stopped = true;
                    EngineAction::Stop
                },
            },
            EngineEvent::Completed(c) => {
                if c.is_manual {
                    EngineAction::Idle
                } else {
                    match c.next_run {
                        Some(n) => {
                            self.queue.push(ScheduleEntry { next_run: n, task_id: c.task_id });
                            EngineAction::RecordNextRun { task_id: c.task_id, next_run: n }
                        },
                        None => if c.trigger_type == TriggerType::Once {
                            EngineAction::FinishOnceTask { task_id: c.task_id }
                        } else {
                            EngineAction::Idle
                        },
                    }
                }
            },
            EngineEvent::TimerFired(now) => {
                if self.paused {
                    return EngineAction::Idle;
                }
                match self.queue.peek() {
                    None => EngineAction::Idle,
                    Some(head) => if head.next_run <= now {
                        let _ = self.queue.pop();
                        EngineAction::SpawnRun {
                            task_id: head.task_id,
                            is_manual: false,
                            default_timeout: DEFAULT_TIMEOUT,
                        }
                    } else {
                        EngineAction::Idle
                    },
                }
            },
            EngineEvent::CleanupDue => EngineAction::CleanupHistory {
                max_history: self.max_history,
            },
            EngineEvent::TasksLoaded(es) => {
                let mut i: usize = 0;
                proof {
                    assert(es@.take(0) =~= Seq::<ScheduleEntry>::empty());
                }
                while i < es.len()
                    invariant
                        i <= es@.len(),
                        self.queue.wf(),
                        self.paused == old(self).paused,
                        self.stopped == old(self).stopped,
                        self.max_history == old(self).max_history,
                        self.queue@ == insert_all(old(self).queue@, es@.take(i as int)),
                    decreases es@.len() - i,
                {
                    self.queue.push(es[i]);
                    proof {
                        let t = es@.take(i + 1);
                        assert(t.drop_last() =~= es@.take(i as int));
                        assert(t.last() == es@[i as int]);
                    }
                    i = i + 1;
                }
                proof {
                    assert(es@.take(es@.len() as int) =~= es@);
                }
                EngineAction::Idle
            },
        }
    }
}

/// Every transition keeps the pending runs in order.
pub proof fn law_step_keeps_queue_ordered(v: EngineView, e: EngineEvent)
    requires
        sorted(v.queue),
    ensures
        sorted(engine_step(v, e).0.queue),
{
    if !v.stopped {
        match e {
            EngineEvent::Completed(c) => {
                if !c.is_manual {
                    if let Some(n) = c.next_run {
                        lemma_insert_sorted(v.queue, ScheduleEntry { next_run: n, task_id: c.task_id });
                    }
                }
            },
            EngineEvent::TimerFired(now) => {
                if !v.paused && v.queue.len() > 0 {
                    assert forall|i: int, j: int|
                        0 <= i < j < v.queue.drop_first().len() implies entry_le(
                        #[trigger] v.queue.drop_first()[i],
                        #[trigger] v.queue.drop_first()[j],
                    ) by {
                        assert(v.queue.drop_first()[i] == v.queue[i + 1]);
                        assert(v.queue.drop_first()[j] == v.queue[j + 1]);
                    }
                }
            },
            EngineEvent::TasksLoaded(es) => {
                lemma_insert_all(v.queue, es@);
            },
            _ => {},
        }
    }
}

/// A paused scheduler keeps its pending runs, disarms its timer, and runs
/// nothing when the timer goes off anyway.
pub proof fn law_pause_freezes(v: EngineView, now: i64)
    requires
        !v.stopped,
    ensures
        engine_step(v, EngineEvent::Command(SchedulerCommand::Pause)).0.queue == v.queue,
        wake_time(engine_step(v, EngineEvent::Command(SchedulerCommand::Pause)).0) is None,
        ({
            let p = engine_step(v, EngineEvent::Command(SchedulerCommand::Pause)).0;
            engine_step(p, EngineEvent::TimerFired(now)) == (p, EngineAction::Idle)
        }),
{
}

/// When the timer goes off, the run that starts is the earliest pending one,
/// it was due, and it is the only one taken off the queue; when the earliest
/// is not yet due, nothing pending is due and nothing changes.
pub proof fn law_timer_runs_earliest_due(v: EngineView, now: i64)
    requires
        !v.stopped,
        !v.paused,
        v.queue.len() > 0,
        sorted(v.queue),
    ensures
        v.queue[0].next_run <= now ==> {
            let (w, a) = engine_step(v, EngineEvent::TimerFired(now));
            &&& a == EngineAction::SpawnRun {
                task_id: v.queue[0].task_id,
                is_manual: false,
                default_timeout: DEFAULT_TIMEOUT,
            }
            &&& w.queue.to_multiset() =~= v.queue.to_multiset().remove(v.queue[0])
            &&& forall|e: ScheduleEntry| v.queue.contains(e) ==> entry_le(v.queue[0], e)
        },
        v.queue[0].next_run > now ==> {
            &&& engine_step(v, EngineEvent::TimerFired(now)) == (v, EngineAction::Idle)
            &&& forall|e: ScheduleEntry| v.queue.contains(e) ==> e.next_run > now
        },
{
    broadcast use vstd::seq_lib::group_to_multiset_ensures;
    assert(v.queue.remove(0) =~= v.queue.drop_first());
    assert forall|e: ScheduleEntry| v.queue.contains(e) implies entry_le(v.queue[0], e) by {
        law_head_is_earliest(v.queue, e);
    }
}

/// A reload or a resume forgets every pending run and asks for the task
/// list; once it arrives, the pending runs are exactly the loaded ones.
pub proof fn law_reload_replaces_queue(v: EngineView, es: Vec<ScheduleEntry>, resume: bool)
    requires
        !v.stopped,
    ensures
        ({
            let cmd = if resume { SchedulerCommand::Resume } else { SchedulerCommand::Reload };
            let (w, a) = engine_step(v, EngineEvent::Command(cmd));
            &&& a == EngineAction::LoadTasks
            &&& w.queue == Seq::<ScheduleEntry>::empty()
            &&& sorted(engine_step(w, EngineEvent::TasksLoaded(es)).0.queue)
            &&& engine_step(w, EngineEvent::TasksLoaded(es)).0.queue.to_multiset() =~= es@.to_multiset()
        }),
{
    let cmd = if resume { SchedulerCommand::Resume } else { SchedulerCommand::Reload };
    let w = engine_step(v, EngineEvent::Command(cmd)).0;
    lemma_insert_all(w.queue, es@);
    assert(Seq::<ScheduleEntry>::empty().to_multiset() =~= Multiset::<ScheduleEntry>::empty()) by {
        broadcast use vstd::seq_lib::group_to_multiset_ensures;
    }
}

/// A scheduled run that reports a next run puts exactly that run back in the
/// queue and stores it; a manual run changes nothing.
pub proof fn law_completion_requeues(v: EngineView, c: TaskCompletion)
    requires
        !v.stopped,
        sorted(v.queue),
    ensures
        c.is_manual ==> engine_step(v, EngineEvent::Completed(c)) == (v, EngineAction::Idle),
        !c.is_manual && c.next_run is Some ==> {
            let n = c.next_run->0;
            let (w, a) = engine_step(v, EngineEvent::Completed(c));
            &&& w.queue.to_multiset() =~= v.queue.to_multiset().insert(
                ScheduleEntry { next_run: n, task_id: c.task_id },
            )
            &&& a == EngineAction::RecordNextRun { task_id: c.task_id, next_run: n }
        },
        !c.is_manual && c.next_run is None ==> engine_step(v, EngineEvent::Completed(c)).0 == v,
{
    if !c.is_manual {
        if let Some(n) = c.next_run {
            lemma_insert_sorted(v.queue, ScheduleEntry { next_run: n, task_id: c.task_id });
        }
    }
}

/// A one-off task runs once: once its instant is not ahead of `now` it has no
/// next run, and when its scheduled run reports none, the task is retired and
/// nothing goes back in the queue.
pub proof fn law_once_runs_once(v: EngineView, task: Task, now: int, c: TaskCompletion)
    requires
        !v.stopped,
        task.trigger_type == TriggerType::Once,
        rfc3339_instant(task.trigger_expr@) matches Some(t) && t <= now,
        c.trigger_type == TriggerType::Once,
        c.next_run is None,
        !c.is_manual,
    ensures
        planned_outcome(task, now) == Ok::<Option<int>, ScheduleError>(None),
        engine_step(v, EngineEvent::Completed(c)) == (v, EngineAction::FinishOnceTask { task_id: c.task_id }),
{
}

/// After a scheduled run the task goes back in the queue at its schedule: the
/// reported next run is the planned one (for a cron task in a named or the
/// default zone, the cron crate's next fire there), and the engine queues and
/// stores exactly that run.
pub proof fn law_rescheduled_at_schedule(v: EngineView, task: Task, now: int, c: TaskCompletion)
    requires
        !v.stopped,
        sorted(v.queue),
        !c.is_manual,
        c.task_id == task.id,
        next_run_allowed(task, now, Ok(c.next_run)),
    ensures
        task.trigger_type != TriggerType::Cron ==> outcome_view(Ok(c.next_run)) == planned_outcome(task, now),
        task.trigger_type == TriggerType::Cron && cron_expression_valid(task.trigger_expr@) && cron_window(now)
            && task.cron_tz_mode@ != "local"@ ==> outcome_view(Ok(c.next_run)) == Ok::<Option<int>, ScheduleError>(
            cron_next_fire(task.trigger_expr@, cron_zone_name(task.cron_tz_mode@), now)),
        c.next_run matches Some(n) ==> {
            let (w, a) = engine_step(v, EngineEvent::Completed(c));
            &&& w.queue.to_multiset() =~= v.queue.to_multiset().insert(ScheduleEntry { next_run: n, task_id: task.id })
            &&& sorted(w.queue)
            &&& a == EngineAction::RecordNextRun { task_id: task.id, next_run: n }
        },
{
    law_completion_requeues(v, c);
    law_step_keeps_queue_ordered(v, EngineEvent::Completed(c));
}

/// Only a resume unpauses the scheduler: every other event, a reload and the
/// task list it asks for included, leaves a paused scheduler paused, with its
/// timer disarmed and nothing run when it fires anyway.
pub proof fn law_only_resume_unpauses(v: EngineView, e: EngineEvent, now: i64)
    requires
        v.paused,
        !(e matches EngineEvent::Command(SchedulerCommand::Resume)),
    ensures
        engine_step(v, e).0.paused,
        wake_time(engine_step(v, e).0) is None,
        engine_step(engine_step(v, e).0, EngineEvent::TimerFired(now)).1 == EngineAction::Idle,
{
}

/// Only a pause pauses the scheduler: no other event stops a running
/// scheduler's timer from being armed for its earliest pending run.
pub proof fn law_only_pause_pauses(v: EngineView, e: EngineEvent)
    requires
        !v.paused,
        !(e matches EngineEvent::Command(SchedulerCommand::Pause)),
    ensures
        !engine_step(v, e).0.paused,
{
}

/// A reload keeps the scheduler paused or running as it was: it only
/// replaces the pending runs by the loaded ones.
pub proof fn law_reload_keeps_pause(v: EngineView, es: Vec<ScheduleEntry>)
    requires
        !v.stopped,
    ensures
        ({
            let w = engine_step(v, EngineEvent::Command(SchedulerCommand::Reload)).0;
            let x = engine_step(w, EngineEvent::TasksLoaded(es)).0;
            &&& w.paused == v.paused
            &&& x.paused == v.paused
            &&& !x.stopped
        }),
{
}

/// A manual trigger starts the task at once and leaves the queue alone.
pub proof fn law_manual_trigger_leaves_queue(v: EngineView, id: u128)
    requires
        !v.stopped,
    ensures
        engine_step(v, EngineEvent::Command(SchedulerCommand::TriggerNow(id))) == (
            v,
            EngineAction::SpawnRun { task_id: id, is_manual: true, default_timeout: DEFAULT_TIMEOUT },
        ),
{
}

/// After a shutdown no event changes anything or asks for any work.
pub proof fn law_shutdown_is_final(v: EngineView, e: EngineEvent)
    requires
        !v.stopped,
    ensures
        ({
            let (w, a) = engine_step(v, EngineEvent::Command(SchedulerCommand::Shutdown));
            &&& a == EngineAction::Stop
            &&& w.stopped
            &&& engine_step(w, e) == (w, EngineAction::Idle)
        }),
{
}

/// A task as loaded into the scheduler: its next run, and whether that
/// instant differs from the stored one and must be written back.
#[derive(Debug, Clone, Copy, PartialEq, Eq, Structural)]
pub struct LoadedTask {
    pub task_id: u128,
    pub next_run: i64,
    pub persist: bool,
}

/// The stored next run is still ahead of `now`, so it is kept as it is.
pub open spec fn stored_ahead(task: Task, now: int) -> bool {
    task.next_run_at matches Some(t) && t > now
}

/// How a task is loaded given the next run computed for it: a stored next
/// run still ahead is kept; otherwise the computed one is used (and written
/// back when it differs from the stored one); a task without a next run is
/// left out.
pub open spec fn load_choice(task: Task, now: int, computed: Option<i64>) -> Option<LoadedTask> {
    if stored_ahead(task, now) {
        Some(LoadedTask { task_id: task.id, next_run: task.next_run_at->0, persist: false })
    } else {
        match computed {
            Some(n) => Some(LoadedTask { task_id: task.id, next_run: n, persist: task.next_run_at != Some(n) }),
            None => None,
        }
    }
}

/// What holds of the loaded form of a task whatever its trigger yields.
pub open spec fn load_entry_ok(task: Task, now: int, e: Option<LoadedTask>) -> bool {
    &&& stored_ahead(task, now) ==> e == load_choice(task, now, None)
    &&& !stored_ahead(task, now) ==> exists|c: Option<i64>|
        #[trigger] next_run_allowed(task, now, Ok(c)) && e == load_choice(task, now, c)
}

/// Loads one enabled task as of `now`.
pub fn load_entry(task: &Task, now: i64) -> (r: Result<Option<LoadedTask>, ScheduleError>)
    requires
        is_instant(now as int),
    ensures
        r matches Ok(e) ==> load_entry_ok(*task, now as int, e),
        r is Err <==> !stored_ahead(*task, now as int) && next_run_allowed(
            *task,
            now as int,
            Err(ScheduleError::OutOfRange),
        ),
{
    if let Some(t) = task.next_run_at {
        if t > now {
            return Ok(Some(LoadedTask { task_id: task.id, next_run: t, persist: false }));
        }
    }
    let computed = next_run_at_instant(task, now);
    proof {
        lemma_outcome_unique(*task, now as int, computed);
    }
    match computed {
        Err(e) => {
            assert(e == ScheduleError::OutOfRange);
            Err(e)
        },
        Ok(c) => {
            let r = match c {
                Some(n) => Some(LoadedTask {
                    task_id: task.id,
                    next_run: n,
                    persist: task.next_run_at != Some(n),
                }),
                None => None,
            };
            assert(next_run_allowed(*task, now as int, Ok(c)));
            Ok(r)
        },
    }
}

/// Loads every enabled task as of `now`, one entry per task in order. The
/// load fails as a whole when the next run of some task cannot be computed.
pub fn plan_load(tasks: &Vec<Task>, now: i64) -> (r: Result<Vec<Option<LoadedTask>>, ScheduleError>)
    requires
        is_instant(now as int),
    ensures
        r matches Ok(v) ==> v@.len() == tasks@.len() && forall|i: int|
            0 <= i < tasks@.len() ==> load_entry_ok(#[trigger] tasks@[i], now as int, v@[i]),
        r is Err <==> exists|i: int|
            0 <= i < tasks@.len() && !stored_ahead(#[trigger] tasks@[i], now as int)
                && next_run_allowed(tasks@[i], now as int, Err(ScheduleError::OutOfRange)),
{
    let mut out: Vec<Option<LoadedTask>> = Vec::new();
    let mut i: usize = 0;
    while i < tasks.len()
        invariant
            i <= tasks@.len(),
            is_instant(now as int),
            out@.len() == i,
            forall|j: int| 0 <= j < i ==> load_entry_ok(#[trigger] tasks@[j], now as int, out@[j]),
            forall|j: int| 0 <= j < i ==> !(!stored_ahead(#[trigger] tasks@[j], now as int)
                && next_run_allowed(tasks@[j], now as int, Err(ScheduleError::OutOfRange))),
        decreases tasks@.len() - i,
    {
        match load_entry(&tasks[i], now) {
            Ok(e) => out.push(e),
            Err(e) => {
                assert(!stored_ahead(tasks@[i as int], now as int));
                return Err(e);
            },
        }
        i = i + 1;
    }
    Ok(out)
}

/// The queue entries of a load: the loaded tasks in order, skipping tasks
/// without a next run.
pub open spec fn loaded_entries(plan: Seq<Option<LoadedTask>>) -> Seq<ScheduleEntry>
    decreases plan.len(),
{
    if plan.len() == 0 {
        Seq::empty()
    } else {
        let rest = loaded_entries(plan.drop_last());
        match plan.last() {
            Some(t) => rest.push(ScheduleEntry { next_run: t.next_run, task_id: t.task_id }),
            None => rest,
        }
    }
}

/// Collects the queue entries of a load (see [`loaded_entries`]).
pub fn entries_of(plan: &Vec<Option<LoadedTask>>) -> (r: Vec<ScheduleEntry>)
    ensures
        r@ == loaded_entries(plan@),
{
    let mut out: Vec<ScheduleEntry> = Vec::new();
    let mut i: usize = 0;
    while i < plan.len()
        invariant
            i <= plan@.len(),
            out@ == loaded_entries(plan@.take(i as int)),
        decreases plan@.len() - i,
    {
        assert(plan@.take(i + 1).drop_last() =~= plan@.take(i as int));
        match plan[i] {
            Some(t) => out.push(ScheduleEntry { next_run: t.next_run, task_id: t.task_id }),
            None => {},
        }
        i = i + 1;
    }
    assert(plan@.take(plan@.len() as int) =~= plan@);
    out
}

} // verus!
