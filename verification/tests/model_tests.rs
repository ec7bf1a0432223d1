use scheduler::model::{CreateTaskRequest, RunStatus, Task, TaskStatus, TriggerType};

#[test]
fn trigger_names_round_trip() {
    for t in [TriggerType::Cron, TriggerType::Once, TriggerType::Interval] {
        assert_eq!(TriggerType::parse(t.as_str()), Ok(t));
        assert_eq!(t.to_string(), t.as_str());
    }
    assert_eq!(TriggerType::Cron.as_str(), "cron");
    assert_eq!(TriggerType::Once.as_str(), "once");
    assert_eq!(TriggerType::Interval.as_str(), "interval");
    assert_eq!(TriggerType::parse("Cron"), Err("Unknown trigger type: Cron".to_string()));
    assert_eq!("interval".parse::<TriggerType>(), Ok(TriggerType::Interval));
}

#[test]
fn status_names_round_trip() {
    for s in [TaskStatus::Active, TaskStatus::Paused, TaskStatus::Completed, TaskStatus::Failed] {
        assert_eq!(TaskStatus::parse(s.as_str()), Ok(s));
        assert_eq!(s.to_string(), s.as_str());
    }
    assert_eq!(TaskStatus::Completed.as_str(), "completed");
    assert_eq!(TaskStatus::parse(""), Err("Unknown task status: ".to_string()));
    assert_eq!("paused".parse::<TaskStatus>(), Ok(TaskStatus::Paused));
}

#[test]
fn run_status_names() {
    for s in [RunStatus::Running, RunStatus::Success, RunStatus::Failed, RunStatus::Timeout] {
        assert_eq!(RunStatus::parse(s.as_str()), Some(s));
    }
    assert_eq!(RunStatus::parse("done"), None);
}

#[test]
fn creation_defaults() {
    let req = CreateTaskRequest {
        name: "daily-backup".to_string(),
        description: None,
        trigger_type: TriggerType::Cron,
        trigger_expr: "0 0 8 * * *".to_string(),
        cron_tz_mode: None,
        command_config: Some("{\"program\":\"/usr/local/bin/backup.sh\"}".to_string()),
        webhook_config: None,
        enabled: None,
        max_retries: None,
        timeout_secs: None,
        interval_mode: None,
    };
    let t = Task::from_request(req, 99, 1234);
    assert_eq!(t.id, 99);
    assert_eq!(t.description, "");
    assert_eq!(t.cron_tz_mode, "utc");
    assert_eq!(t.interval_mode, "fixed_delay");
    assert!(t.enabled);
    assert_eq!(t.max_retries, 0);
    assert_eq!(t.status, TaskStatus::Active);
    assert_eq!(t.created_at, 1234);
    assert_eq!(t.next_run_at, None);
}
