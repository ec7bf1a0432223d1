use scheduler::config::{Config, FileConfig};
use scheduler::model::{TaskStatus, TriggerType};
use scheduler::notify::{gotify_endpoint, notify_task_result};
use scheduler::query::{
    enabled_status, history_list_query, page_window, task_history_query, task_list_query, update_task_statement, HistoryFilter,
    PageWindow, SqlValue, TaskFilter, UpdateTaskRequest,
};
use scheduler::rows::{history_from_row, migrated_configs, task_from_row, task_id_from_text, HistoryRow, TaskRow};
use scheduler::text::{concat_strs, contains, int_to_text, replace, str_eq, strip_prefix};
use scheduler::web::{content_type_for, static_reply, static_target, StaticReply, StaticTarget};

fn texts(params: &[SqlValue]) -> Vec<String> {
    params
        .iter()
        .map(|p| match p {
            SqlValue::Text(s) => format!("T:{s}"),
            SqlValue::Integer(i) => format!("I:{i}"),
        })
        .collect()
}

#[test]
fn text_helpers() {
    assert_eq!(replace("a{{x}}b{{x}}", "{{x}}", "-"), "a-b-");
    assert_eq!(replace("aaa", "aa", "b"), "ba");
    assert_eq!(replace("abc", "", "-"), "abc".replace("", "-"));
    assert_eq!(replace("abc", "", "-"), "-a-b-c-");
    assert_eq!(replace("", "", "-"), "-");
    assert_eq!(int_to_text(-2147483648), "-2147483648");
    assert_eq!(int_to_text(0), "0");
    assert!(contains("xxUNIQUEyy", "UNIQUE"));
    assert!(!contains("UNIQU", "UNIQUE"));
    assert_eq!(strip_prefix("Bearer t", "Bearer "), Some("t".to_string()));
    assert!(str_eq("same", "same"));
    assert_eq!(concat_strs("ab", "cd"), "abcd");
}

#[test]
fn pages() {
    assert_eq!(page_window(None, None), Some(PageWindow { page: 1, per_page: 20, offset: 0 }));
    assert_eq!(page_window(Some(0), Some(500)), Some(PageWindow { page: 1, per_page: 100, offset: 0 }));
    assert_eq!(page_window(Some(3), Some(10)), Some(PageWindow { page: 3, per_page: 10, offset: 20 }));
    assert_eq!(page_window(Some(u32::MAX), Some(100)), None);
}

#[test]
fn task_listing_statement() {
    let f = TaskFilter {
        status: Some("active".to_string()),
        enabled: Some(true),
        trigger_type: None,
        search: Some("back".to_string()),
        page: Some(2),
        per_page: None,
    };
    let q = task_list_query(&f).unwrap();
    assert_eq!(
        q.count_sql,
        "SELECT COUNT(*) FROM tasks WHERE status = ?1 AND enabled = ?2 AND (name LIKE ?3 OR description LIKE ?3)"
    );
    assert_eq!(
        q.select_sql,
        "SELECT * FROM tasks WHERE status = ?1 AND enabled = ?2 AND (name LIKE ?3 OR description LIKE ?3) ORDER BY created_at DESC LIMIT ?4 OFFSET ?5"
    );
    assert_eq!(texts(&q.filter_params), vec!["T:active", "I:1", "T:%back%"]);
    assert_eq!(q.window, PageWindow { page: 2, per_page: 20, offset: 20 });
    let empty = TaskFilter { status: None, enabled: None, trigger_type: None, search: None, page: None, per_page: None };
    let e = task_list_query(&empty).unwrap();
    assert_eq!(e.count_sql, "SELECT COUNT(*) FROM tasks ");
    assert_eq!(e.select_sql, "SELECT * FROM tasks  ORDER BY created_at DESC LIMIT ?1 OFFSET ?2");
}

#[test]
fn history_listing_statement() {
    let f = HistoryFilter {
        task_id: None,
        task_name: Some("rep".to_string()),
        status: Some("failed".to_string()),
        page: None,
        per_page: Some(5),
    };
    let q = history_list_query(&f).unwrap();
    assert!(q.count_sql.ends_with("JOIN tasks t ON h.task_id = t.id WHERE t.name LIKE ?1 AND h.status = ?2"));
    assert!(q.select_sql.ends_with("WHERE t.name LIKE ?1 AND h.status = ?2 ORDER BY h.started_at DESC LIMIT ?3 OFFSET ?4"));
    assert_eq!(texts(&q.filter_params), vec!["T:%rep%", "T:failed"]);
}

#[test]
fn update_statement() {
    let req = UpdateTaskRequest {
        name: Some("n2".to_string()),
        description: None,
        trigger_type: Some(TriggerType::Once),
        trigger_expr: None,
        cron_tz_mode: None,
        command_config: None,
        webhook_config: None,
        enabled: Some(false),
        max_retries: Some(2),
        timeout_secs: None,
        interval_mode: None,
    };
    let s = update_task_statement(&req, "id-1", "2024-01-01T00:00:00+00:00");
    assert_eq!(
        s.sql,
        "UPDATE tasks SET updated_at = ?1, name = ?2, trigger_type = ?3, enabled = ?4, max_retries = ?5 WHERE id = ?6"
    );
    assert_eq!(
        texts(&s.params),
        vec!["T:2024-01-01T00:00:00+00:00", "T:n2", "T:once", "I:0", "I:2", "T:id-1"]
    );
    assert_eq!(enabled_status(true), TaskStatus::Active);
    assert_eq!(enabled_status(false), TaskStatus::Paused);
}

#[test]
fn gotify_messages() {
    assert_eq!(gotify_endpoint("http://g:8080//", "tok"), "http://g:8080/message?token=tok");
    assert!(notify_task_result(None, Some("t"), "x", true, None).is_none());
    assert!(notify_task_result(Some(""), Some("t"), "x", true, None).is_none());
    assert!(notify_task_result(Some("http://g"), Some(""), "x", true, None).is_none());
    let ok = notify_task_result(Some("http://g"), Some("t"), "backup", true, Some(0)).unwrap();
    assert_eq!(ok.title, "Task Success: backup");
    assert_eq!(ok.message, "Task 'backup' completed successfully.");
    assert_eq!(ok.priority, 5);
    let bad = notify_task_result(Some("http://g"), Some("t"), "backup", false, Some(2)).unwrap();
    assert_eq!(bad.title, "Task Failed: backup");
    assert_eq!(bad.message, "Task 'backup' failed with exit code 2.");
    assert_eq!(bad.priority, 8);
    let none = notify_task_result(Some("http://g"), Some("t"), "b", false, None).unwrap();
    assert_eq!(none.message, "Task 'b' failed with exit code -.");
}

#[test]
fn settings_precedence() {
    let cli = Config {
        listen: None,
        db: Some("/data/s.db".to_string()),
        token: Some(String::new()),
        log_level: None,
        max_history: None,
        default_timeout: Some(60),
        config: "config.toml".to_string(),
    };
    let file = FileConfig {
        listen: Some("127.0.0.1:9000".to_string()),
        db: Some("./file.db".to_string()),
        token: Some("file-token".to_string()),
        log_level: Some("debug".to_string()),
    };
    let c = Config::resolve(cli, file);
    assert_eq!(c.listen_text(), "127.0.0.1:9000");
    assert_eq!(c.db_path(), "/data/s.db");
    assert_eq!(c.token, None);
    assert_eq!(c.log_level_str(), "debug");
    assert_eq!(c.max_history(), 1000);
    assert_eq!(c.default_timeout, Some(60));
    let bare = Config::resolve(
        Config { listen: None, db: None, token: None, log_level: None, max_history: Some(5), default_timeout: None, config: String::new() },
        FileConfig { listen: None, db: None, token: Some("k".to_string()), log_level: None },
    );
    assert_eq!(bare.listen_text(), "0.0.0.0:7070");
    assert_eq!(bare.db_path(), "./scheduler.db");
    assert_eq!(bare.token.as_deref(), Some("k"));
    assert_eq!(bare.log_level_str(), "info");
    assert_eq!(bare.max_history(), 5);
    assert_eq!(bare.default_timeout, Some(3600));
}

#[test]
fn rows_with_fallbacks() {
    let row = TaskRow {
        id: "550e8400-e29b-41d4-a716-446655440000".to_string(),
        name: "n".to_string(),
        description: "d".to_string(),
        trigger_type: "weekly".to_string(),
        trigger_expr: "e".to_string(),
        command_config: None,
        webhook_config: Some("{}".to_string()),
        status: "paused".to_string(),
        enabled: 2,
        created_at: "2024-01-01T00:00:00Z".to_string(),
        updated_at: "garbage".to_string(),
        last_run_at: Some("bad".to_string()),
        last_run_status: Some("success".to_string()),
        next_run_at: Some("1970-01-01T00:00:01.5Z".to_string()),
        max_retries: 4_294_967_298,
        timeout_secs: Some(30),
        cron_tz_mode: "utc".to_string(),
        interval_mode: "fixed_rate".to_string(),
    };
    let t = task_from_row(row);
    assert_eq!(t.id, 0x550e8400e29b41d4a716446655440000);
    assert_eq!(t.trigger_type, TriggerType::Cron);
    assert_eq!(t.status, TaskStatus::Paused);
    assert!(t.enabled);
    assert_eq!(t.created_at, 1_704_067_200_000_000);
    assert_eq!(t.updated_at, 0);
    assert_eq!(t.last_run_at, None);
    assert_eq!(t.next_run_at, Some(1_500_000));
    assert_eq!(t.max_retries, 2);
    assert_eq!(t.timeout_secs, Some(30));
    assert_eq!(task_id_from_text("not-a-uuid"), None);
    let h = history_from_row(HistoryRow {
        id: "x".to_string(),
        task_id: "550e8400e29b41d4a716446655440000".to_string(),
        task_name: "n".to_string(),
        started_at: "2024-01-01T00:00:00+01:00".to_string(),
        finished_at: None,
        status: "weird".to_string(),
        exit_code: Some(1),
        stdout: None,
        stderr: None,
        error_msg: None,
        retry_count: 0,
    });
    assert_eq!(h.id, 0);
    assert_eq!(h.task_id, 0x550e8400e29b41d4a716446655440000);
    assert_eq!(h.started_at, 1_704_063_600_000_000);
    assert_eq!(h.status, scheduler::model::RunStatus::Failed);
}

#[test]
fn static_assets() {
    match static_target("/api/unknown") {
        StaticTarget::NotFound => {},
        _ => panic!("api paths are not assets"),
    }
    match static_target("/") {
        StaticTarget::Asset { name, is_index } => assert_eq!((name.as_str(), is_index), ("index.html", true)),
        _ => panic!(),
    }
    match static_target("//app.js") {
        StaticTarget::Asset { name, is_index } => assert_eq!((name.as_str(), is_index), ("app.js", false)),
        _ => panic!(),
    }
    assert_eq!(content_type_for("index.html", true), "text/html");
    assert_eq!(content_type_for("app.css", false), "text/css");
    assert_eq!(content_type_for("blob.unknownext", false), "application/octet-stream");
}

#[test]
fn missing_assets_fall_back_to_the_index() {
    assert_eq!(static_reply(true, true), StaticReply::Asset);
    assert_eq!(static_reply(true, false), StaticReply::Asset);
    assert_eq!(static_reply(false, true), StaticReply::Index);
    assert_eq!(static_reply(false, false), StaticReply::NotFound);
}

#[test]
fn older_rows_are_migrated() {
    let hook = Some("{\"url\":\"u\"}".to_string());
    assert_eq!(
        migrated_configs("command", "{\"program\":\"p\"}".to_string(), hook.clone()),
        (Some("{\"program\":\"p\"}".to_string()), hook.clone())
    );
    assert_eq!(
        migrated_configs("webhook", "{\"url\":\"w\"}".to_string(), hook),
        (None, Some("{\"url\":\"w\"}".to_string()))
    );
}

#[test]
fn one_tasks_history_statement() {
    let q = task_history_query("abc", Some(2), Some(10)).unwrap();
    assert_eq!(q.count_sql, "SELECT COUNT(*) FROM execution_history WHERE task_id = ?1");
    assert_eq!(
        q.select_sql,
        format!("{} WHERE h.task_id = ?1 ORDER BY h.started_at DESC LIMIT ?2 OFFSET ?3", scheduler::query::HISTORY_SELECT)
    );
    assert_eq!(texts(&q.filter_params), vec!["T:abc".to_string()]);
    assert_eq!(q.window, PageWindow { page: 2, per_page: 10, offset: 10 });
    assert!(task_history_query("abc", Some(u32::MAX), Some(100)).is_none());
}

#[test]
fn gotify_tokens_become_message_urls() {
    assert_eq!(scheduler::rows::gotify_token_url(&None), None);
    assert_eq!(scheduler::rows::gotify_token_url(&Some(String::new())), None);
    assert_eq!(
        scheduler::rows::gotify_token_url(&Some("Abc".to_string())),
        Some("http://localhost:8080/message?token=Abc".to_string())
    );
}
