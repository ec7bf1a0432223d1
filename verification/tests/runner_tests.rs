use scheduler::executor::TaskOutput;
use scheduler::model::{RunStatus, Task, TaskStatus, TriggerType};
use scheduler::runner::{classify_attempt, should_run, RunTracker};

fn task(enabled: bool, status: TaskStatus, max_retries: u32) -> Task {
    Task {
        id: 11,
        name: "job".to_string(),
        description: String::new(),
        trigger_type: TriggerType::Interval,
        trigger_expr: "60".to_string(),
        cron_tz_mode: "utc".to_string(),
        command_config: Some("{}".to_string()),
        webhook_config: None,
        status,
        enabled,
        created_at: 0,
        updated_at: 0,
        last_run_at: None,
        last_run_status: None,
        next_run_at: None,
        max_retries,
        timeout_secs: None,
        interval_mode: "fixed_delay".to_string(),
    }
}

fn out(code: Option<i32>) -> TaskOutput {
    TaskOutput { exit_code: code, stdout: Some("o".to_string()), stderr: None }
}

#[test]
fn only_enabled_active_tasks_run() {
    assert!(should_run(&task(true, TaskStatus::Active, 0)));
    assert!(!should_run(&task(false, TaskStatus::Active, 0)));
    assert!(!should_run(&task(true, TaskStatus::Paused, 0)));
    assert!(!should_run(&task(true, TaskStatus::Completed, 0)));
    assert!(RunTracker::start(&task(true, TaskStatus::Failed, 0)).is_none());
}

#[test]
fn attempts_are_classified() {
    let ok = classify_attempt(Ok(out(Some(0))));
    assert!(ok.succeeded);
    assert_eq!(ok.status, RunStatus::Success);
    assert_eq!(ok.error_msg, None);
    let none = classify_attempt(Ok(out(None)));
    assert!(none.succeeded);
    let bad = classify_attempt(Ok(out(Some(-3))));
    assert!(!bad.succeeded);
    assert_eq!(bad.status, RunStatus::Failed);
    assert_eq!(bad.error_msg.as_deref(), Some("Command exited with code -3"));
    assert_eq!(bad.stdout.as_deref(), Some("o"));
    let slow = classify_attempt(Err("request timeout after 5s".to_string()));
    assert_eq!(slow.status, RunStatus::Timeout);
    let timed = classify_attempt(Err("Command timed out".to_string()));
    assert_eq!(timed.status, RunStatus::Failed);
    assert_eq!(timed.error_msg.as_deref(), Some("Command timed out"));
}

#[test]
fn retries_stop_at_first_success() {
    let t = task(true, TaskStatus::Active, 3);
    let mut r = RunTracker::start(&t).unwrap();
    assert!(r.wants_attempt());
    assert_eq!(r.attempt(), 0);
    r.record(Ok(out(Some(1))));
    assert!(r.wants_attempt());
    r.record(Ok(out(Some(0))));
    assert!(!r.wants_attempt());
    assert_eq!(r.attempt(), 2);
    assert_eq!(r.last_run_status(), "success");
    assert_eq!(r.final_status(), None);
}

#[test]
fn retries_are_exhausted() {
    let t = task(true, TaskStatus::Active, 2);
    let mut r = RunTracker::start(&t).unwrap();
    let mut n = 0;
    while r.wants_attempt() {
        r.record(Err("boom".to_string()));
        n += 1;
    }
    assert_eq!(n, 3);
    assert_eq!(r.last_run_status(), "failed");
    assert_eq!(r.final_status(), Some(TaskStatus::Failed));
    assert_eq!(r.task_id(), 11);
}

#[test]
fn completion_reports_next_run() {
    let t = task(true, TaskStatus::Active, 0);
    let r = RunTracker::start(&t).unwrap();
    let now = 1_700_000_000_000_000;
    let manual = r.completion(&t, true, now).unwrap();
    assert!(manual.is_manual);
    assert_eq!(manual.next_run, None);
    assert_eq!(manual.task_name, "job");
    let scheduled = r.completion(&t, false, now).unwrap();
    assert!(!scheduled.is_manual);
    assert_eq!(scheduled.next_run, Some(now + 60_000_000));
    assert_eq!(scheduled.trigger_type, TriggerType::Interval);
}

#[test]
fn scheduled_cron_run_reports_its_next_fire() {
    let mut t = task(true, TaskStatus::Active, 0);
    t.trigger_type = TriggerType::Cron;
    t.trigger_expr = "0 0 8 * * *".to_string();
    t.cron_tz_mode = "Asia/Shanghai".to_string();
    let r = RunTracker::start(&t).unwrap();
    // 2023-01-01 14:00 in Shanghai; the next 08:00 there is 2023-01-02 00:00 UTC.
    let now = 1_672_552_800_000_000;
    let c = r.completion(&t, false, now).unwrap();
    assert_eq!(c.next_run, Some(1_672_617_600_000_000));
    let bad = task(true, TaskStatus::Active, 0);
    let mut far = bad.clone();
    far.trigger_expr = "9223372036854775".to_string();
    assert!(RunTracker::start(&far).unwrap().completion(&far, false, now).is_none());
}
