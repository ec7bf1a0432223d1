use scheduler::engine::{
    entries_of, load_entry, plan_load, EngineAction, EngineEvent, LoadedTask, SchedulerCommand,
    SchedulerEngine, TaskCompletion, DEFAULT_TIMEOUT,
};
use scheduler::model::{Task, TaskStatus, TriggerType};
use scheduler::queue::{RunQueue, ScheduleEntry};

fn entry(next_run: i64, task_id: u128) -> ScheduleEntry {
    ScheduleEntry { next_run, task_id }
}

fn task(id: u128, trigger_type: TriggerType, expr: &str, next_run_at: Option<i64>) -> Task {
    Task {
        id,
        name: format!("task-{id}"),
        description: String::new(),
        trigger_type,
        trigger_expr: expr.to_string(),
        cron_tz_mode: "utc".to_string(),
        command_config: None,
        webhook_config: Some("{\"url\":\"http://x\"}".to_string()),
        status: TaskStatus::Active,
        enabled: true,
        created_at: 0,
        updated_at: 0,
        last_run_at: None,
        last_run_status: None,
        next_run_at,
        max_retries: 0,
        timeout_secs: None,
        interval_mode: "fixed_delay".to_string(),
    }
}

fn completion(task_id: u128, next_run: Option<i64>, trigger_type: TriggerType, is_manual: bool) -> TaskCompletion {
    TaskCompletion { task_id, task_name: "n".to_string(), next_run, trigger_type, is_manual }
}

#[test]
fn queue_orders_by_time_then_id() {
    let mut q = RunQueue::new();
    q.push(entry(30, 1));
    q.push(entry(10, 9));
    q.push(entry(10, 2));
    q.push(entry(20, 5));
    assert_eq!(q.len(), 4);
    assert_eq!(q.peek(), Some(entry(10, 2)));
    assert_eq!(q.pop(), Some(entry(10, 2)));
    assert_eq!(q.pop(), Some(entry(10, 9)));
    assert_eq!(q.pop(), Some(entry(20, 5)));
    assert_eq!(q.pop(), Some(entry(30, 1)));
    assert_eq!(q.pop(), None);
    q.push(entry(1, 1));
    q.clear();
    assert_eq!(q.len(), 0);
}

#[test]
fn timer_runs_only_due_heads() {
    let mut e = SchedulerEngine::new(1000);
    assert_eq!(e.wake_at(), None);
    e.handle(EngineEvent::TasksLoaded(vec![entry(200, 2), entry(100, 1)]));
    assert_eq!(e.wake_at(), Some(100));
    assert_eq!(e.handle(EngineEvent::TimerFired(99)), EngineAction::Idle);
    assert_eq!(e.pending(), 2);
    assert_eq!(
        e.handle(EngineEvent::TimerFired(150)),
        EngineAction::SpawnRun { task_id: 1, is_manual: false, default_timeout: DEFAULT_TIMEOUT }
    );
    assert_eq!(e.pending(), 1);
    assert_eq!(e.wake_at(), Some(200));
}

#[test]
fn pause_disarms_and_resume_reloads() {
    let mut e = SchedulerEngine::new(10);
    e.handle(EngineEvent::TasksLoaded(vec![entry(5, 3)]));
    assert_eq!(e.handle(EngineEvent::Command(SchedulerCommand::Pause)), EngineAction::Idle);
    assert!(e.is_paused());
    assert_eq!(e.wake_at(), None);
    assert_eq!(e.handle(EngineEvent::TimerFired(100)), EngineAction::Idle);
    assert_eq!(e.pending(), 1);
    assert_eq!(e.handle(EngineEvent::Command(SchedulerCommand::Resume)), EngineAction::LoadTasks);
    assert!(!e.is_paused());
    assert_eq!(e.pending(), 0);
}

#[test]
fn reload_replaces_pending_runs() {
    let mut e = SchedulerEngine::new(10);
    e.handle(EngineEvent::TasksLoaded(vec![entry(5, 3), entry(6, 4)]));
    assert_eq!(e.handle(EngineEvent::Command(SchedulerCommand::Reload)), EngineAction::LoadTasks);
    assert_eq!(e.pending(), 0);
    e.handle(EngineEvent::TasksLoaded(vec![entry(9, 8)]));
    assert_eq!(e.wake_at(), Some(9));
}

#[test]
fn completions_requeue_or_finish() {
    let mut e = SchedulerEngine::new(10);
    assert_eq!(
        e.handle(EngineEvent::Completed(completion(4, Some(50), TriggerType::Interval, false))),
        EngineAction::RecordNextRun { task_id: 4, next_run: 50 }
    );
    assert_eq!(e.wake_at(), Some(50));
    assert_eq!(
        e.handle(EngineEvent::Completed(completion(5, None, TriggerType::Once, false))),
        EngineAction::FinishOnceTask { task_id: 5 }
    );
    assert_eq!(e.handle(EngineEvent::Completed(completion(6, None, TriggerType::Cron, false))), EngineAction::Idle);
    assert_eq!(e.handle(EngineEvent::Completed(completion(7, Some(1), TriggerType::Cron, true))), EngineAction::Idle);
    assert_eq!(e.pending(), 1);
}

#[test]
fn manual_trigger_and_cleanup() {
    let mut e = SchedulerEngine::new(1000);
    assert_eq!(
        e.handle(EngineEvent::Command(SchedulerCommand::TriggerNow(42))),
        EngineAction::SpawnRun { task_id: 42, is_manual: true, default_timeout: 3600 }
    );
    assert_eq!(e.pending(), 0);
    assert_eq!(e.handle(EngineEvent::CleanupDue), EngineAction::CleanupHistory { max_history: 1000 });
}

#[test]
fn shutdown_is_final() {
    let mut e = SchedulerEngine::new(10);
    e.handle(EngineEvent::TasksLoaded(vec![entry(5, 3)]));
    assert_eq!(e.handle(EngineEvent::Command(SchedulerCommand::Shutdown)), EngineAction::Stop);
    assert!(e.is_stopped());
    assert_eq!(e.wake_at(), None);
    assert_eq!(e.handle(EngineEvent::TimerFired(100)), EngineAction::Idle);
    assert_eq!(e.handle(EngineEvent::Command(SchedulerCommand::Reload)), EngineAction::Idle);
    assert_eq!(e.pending(), 1);
}

#[test]
fn reply_messages() {
    assert_eq!(SchedulerCommand::Pause.reply_message(), Some("Scheduler paused"));
    assert_eq!(SchedulerCommand::Resume.reply_message(), Some("Scheduler resumed"));
    assert_eq!(SchedulerCommand::Reload.reply_message(), Some("Scheduler reloaded"));
    assert_eq!(SchedulerCommand::Shutdown.reply_message(), None);
}

#[test]
fn loading_keeps_future_runs_and_recomputes_past_ones() {
    let now = 1_700_000_000_000_000;
    let keep = task(1, TriggerType::Interval, "60", Some(now + 5));
    let past = task(2, TriggerType::Interval, "60", Some(now - 5));
    let once_gone = task(3, TriggerType::Once, "2000-01-01T00:00:00Z", None);
    assert_eq!(load_entry(&keep, now), Ok(Some(LoadedTask { task_id: 1, next_run: now + 5, persist: false })));
    assert_eq!(
        load_entry(&past, now),
        Ok(Some(LoadedTask { task_id: 2, next_run: now + 60_000_000, persist: true }))
    );
    assert_eq!(load_entry(&once_gone, now), Ok(None));
    let plan = plan_load(&vec![keep, past, once_gone], now).unwrap();
    assert_eq!(plan.len(), 3);
    let entries = entries_of(&plan);
    assert_eq!(entries, vec![entry(now + 5, 1), entry(now + 60_000_000, 2)]);
    let broken = task(4, TriggerType::Interval, "9999999999999999", None);
    assert!(plan_load(&vec![broken], now).is_err());
}
