use chrono::TimeZone;
use chrono_tz::Asia::Shanghai;
use scheduler::model::{Task, TaskStatus, TriggerType};
use scheduler::trigger::{calculate_next_run_for_task, next_run_at_instant, parse_u64, ScheduleError};

const SECOND: i64 = 1_000_000;

fn task(trigger_type: TriggerType, expr: &str) -> Task {
    Task {
        id: 7,
        name: "t".to_string(),
        description: String::new(),
        trigger_type,
        trigger_expr: expr.to_string(),
        cron_tz_mode: "utc".to_string(),
        command_config: Some("{\"program\":\"true\"}".to_string()),
        webhook_config: None,
        status: TaskStatus::Active,
        enabled: true,
        created_at: 0,
        updated_at: 0,
        last_run_at: None,
        last_run_status: None,
        next_run_at: None,
        max_retries: 0,
        timeout_secs: None,
        interval_mode: "fixed_delay".to_string(),
    }
}

#[test]
fn test_cron_timezone_awareness() {
    // 14:00 CST on Jan 1st; the next 08:00 in Shanghai is on Jan 2nd.
    let mut t = task(TriggerType::Cron, "0 0 8 * * *");
    t.cron_tz_mode = "Asia/Shanghai".to_string();
    let now = Shanghai.with_ymd_and_hms(2023, 1, 1, 14, 0, 0).unwrap().timestamp_micros();
    let next = next_run_at_instant(&t, now).unwrap().unwrap();
    assert_eq!(next, Shanghai.with_ymd_and_hms(2023, 1, 2, 8, 0, 0).unwrap().timestamp_micros());
}

#[test]
fn cron_in_utc_by_default_and_for_unknown_zones() {
    let now = chrono::Utc.with_ymd_and_hms(2023, 1, 1, 14, 0, 0).unwrap().timestamp_micros();
    let expected = chrono::Utc.with_ymd_and_hms(2023, 1, 2, 8, 0, 0).unwrap().timestamp_micros();
    let t = task(TriggerType::Cron, "0 0 8 * * *");
    assert_eq!(next_run_at_instant(&t, now), Ok(Some(expected)));
    let mut u = task(TriggerType::Cron, "0 0 8 * * *");
    u.cron_tz_mode = "Nowhere/Special".to_string();
    assert_eq!(next_run_at_instant(&u, now), Ok(Some(expected)));
}

#[test]
fn cron_every_thirtieth_second() {
    let now = chrono::Utc.with_ymd_and_hms(2024, 5, 1, 10, 0, 10).unwrap().timestamp_micros();
    let expected = chrono::Utc.with_ymd_and_hms(2024, 5, 1, 10, 0, 30).unwrap().timestamp_micros();
    let t = task(TriggerType::Cron, "30 * * * * *");
    assert_eq!(next_run_at_instant(&t, now), Ok(Some(expected)));
}

#[test]
fn cron_in_local_time_every_thirtieth_second() {
    let now = chrono::Utc.with_ymd_and_hms(2024, 5, 1, 10, 0, 10).unwrap().timestamp_micros();
    let mut t = task(TriggerType::Cron, "30 * * * * *");
    t.cron_tz_mode = "local".to_string();
    let expected = chrono::Utc.with_ymd_and_hms(2024, 5, 1, 10, 0, 30).unwrap().timestamp_micros();
    assert_eq!(next_run_at_instant(&t, now), Ok(Some(expected)));
}

#[test]
fn cron_invalid_expression_never_runs() {
    let t = task(TriggerType::Cron, "not a cron line");
    assert_eq!(next_run_at_instant(&t, 0), Ok(None));
}

#[test]
fn once_in_future_and_past() {
    let t = task(TriggerType::Once, "2026-06-01T16:00:00+08:00");
    let at = chrono::Utc.with_ymd_and_hms(2026, 6, 1, 8, 0, 0).unwrap().timestamp_micros();
    assert_eq!(next_run_at_instant(&t, at - SECOND), Ok(Some(at)));
    assert_eq!(next_run_at_instant(&t, at), Ok(None));
    assert_eq!(next_run_at_instant(&t, at + SECOND), Ok(None));
    let bad = task(TriggerType::Once, "tomorrow");
    assert_eq!(next_run_at_instant(&bad, 0), Ok(None));
}

#[test]
fn interval_fixed_delay_counts_from_now() {
    let t = task(TriggerType::Interval, "300");
    assert_eq!(next_run_at_instant(&t, 1_000 * SECOND), Ok(Some(1_300 * SECOND)));
    let plus = task(TriggerType::Interval, "+60");
    assert_eq!(next_run_at_instant(&plus, 0), Ok(Some(60 * SECOND)));
    let bad = task(TriggerType::Interval, "5m");
    assert_eq!(next_run_at_instant(&bad, 0), Ok(None));
}

#[test]
fn interval_fixed_rate_steps_from_stored_run() {
    let mut t = task(TriggerType::Interval, "60");
    t.interval_mode = "fixed_rate".to_string();
    t.next_run_at = Some(1_000 * SECOND);
    // Still ahead: one step from the stored run.
    assert_eq!(next_run_at_instant(&t, 1_030 * SECOND), Ok(Some(1_060 * SECOND)));
    // Missed several runs: the first grid point after now.
    assert_eq!(next_run_at_instant(&t, 1_250 * SECOND), Ok(Some(1_300 * SECOND)));
    // Exactly on a grid point: the next one.
    assert_eq!(next_run_at_instant(&t, 1_240 * SECOND), Ok(Some(1_300 * SECOND)));
    // Without a stored run it starts from now.
    t.next_run_at = None;
    assert_eq!(next_run_at_instant(&t, 5 * SECOND), Ok(Some(65 * SECOND)));
}

#[test]
fn interval_out_of_range_is_refused() {
    let t = task(TriggerType::Interval, "9223372036854776");
    assert_eq!(next_run_at_instant(&t, 0), Err(ScheduleError::OutOfRange));
    let mut z = task(TriggerType::Interval, "0");
    z.interval_mode = "fixed_rate".to_string();
    z.next_run_at = Some(0);
    assert_eq!(next_run_at_instant(&z, 10 * SECOND), Err(ScheduleError::OutOfRange));
    let big = task(TriggerType::Interval, "18446744073709551615");
    // As a signed number of seconds this is -1: one second before now.
    assert_eq!(next_run_at_instant(&big, 10 * SECOND), Ok(Some(9 * SECOND)));
}

#[test]
fn clock_based_calculation_is_in_the_future_for_intervals() {
    let t = task(TriggerType::Interval, "3600");
    let before = chrono::Utc::now().timestamp_micros();
    let next = calculate_next_run_for_task(&t).unwrap().unwrap();
    assert!(next >= before + 3600 * SECOND);
}

#[test]
fn parse_u64_follows_from_str() {
    assert_eq!(parse_u64("0"), Some(0));
    assert_eq!(parse_u64("+42"), Some(42));
    assert_eq!(parse_u64("18446744073709551615"), Some(u64::MAX));
    assert_eq!(parse_u64("18446744073709551616"), None);
    assert_eq!(parse_u64(""), None);
    assert_eq!(parse_u64("+"), None);
    assert_eq!(parse_u64("-1"), None);
    assert_eq!(parse_u64(" 1"), None);
    assert_eq!(parse_u64("12a"), None);
}
