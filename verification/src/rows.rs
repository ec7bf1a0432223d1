//! Reading stored rows back into the task model, with fallbacks for values
//! that do not parse, and the mapping of rows from the older schema.
use vstd::prelude::*;
use crate::instant::{parse_rfc3339, rfc3339_instant};
use crate::text::{chars_of, concat_strs, str_eq};
use crate::model::{RunStatus, Task, TaskStatus, TriggerType, run_status_named, status_named, trigger_named};

verus! {

/// The 128-bit value of a UUID in any of the forms the `uuid` crate reads.
pub uninterp spec fn uuid_value(s: Seq<char>) -> Option<int>;

/// Reads a UUID (`uuid::Uuid::parse_str`) and returns its 128-bit value.
/// Claims that the result is a function of the text.
#[verifier::external_body]
pub(crate) fn parse_uuid(s: &str) -> (r: Option<u128>)
    ensures
        r matches Some(v) ==> uuid_value(s@) == Some(v as int),
        r is None ==> uuid_value(s@) is None,
{
    uuid::Uuid::parse_str(s).ok().map(|u| u.as_u128())
}

/// Reads a task id from a request path: `None` is answered with 400.
pub fn task_id_from_text(s: &str) -> (r: Option<u128>)
    ensures
        r matches Some(v) ==> uuid_value(s@) == Some(v as int),
        r is None ==> uuid_value(s@) is None,
{
    parse_uuid(s)
}

/// The columns of a stored task, as read from the database.
#[derive(Debug, Clone)]
pub struct TaskRow {
    pub id: String,
    pub name: String,
    pub description: String,
    pub trigger_type: String,
    pub trigger_expr: String,
    pub command_config: Option<String>,
    pub webhook_config: Option<String>,
    pub status: String,
    pub enabled: i64,
    pub created_at: String,
    pub updated_at: String,
    pub last_run_at: Option<String>,
    pub last_run_status: Option<String>,
    pub next_run_at: Option<String>,
    pub max_retries: i64,
    pub timeout_secs: Option<i64>,
    pub cron_tz_mode: String,
    pub interval_mode: String,
}

/// The instant of a stored timestamp, the Unix epoch when it does not parse.
pub open spec fn stamp_or_epoch(s: Seq<char>) -> int {
    match rfc3339_instant(s) {
        Some(t) => t,
        None => 0,
    }
}

/// The instant of an optional stored timestamp; one that does not parse counts as absent.
pub open spec fn optional_stamp(s: Option<String>) -> Option<int> {
    match s {
        Some(t) => rfc3339_instant(t@),
        None => None,
    }
}

fn stamp_or_zero(s: &str) -> (r: i64)
    ensures
        r == stamp_or_epoch(s@),
{
    match parse_rfc3339(s) {
        Some(t) => t,
        None => 0,
    }
}

fn optional_instant(s: &Option<String>) -> (r: Option<i64>)
    ensures
        r matches Some(t) ==> optional_stamp(*s) == Some(t as int),
        r is None ==> optional_stamp(*s) is None,
{
    match s {
        Some(t) => parse_rfc3339(t.as_str()),
        None => None,
    }
}

/// Turns a stored row into a task. An id that does not parse is the nil
/// UUID, an unknown trigger is `cron`, an unknown status is `active`, a
/// timestamp that does not parse is the epoch (or absent when optional),
/// `enabled` is any non-zero value, and the counters are cast as stored.
pub fn task_from_row(row: TaskRow) -> (t: Task)
    ensures
        t.id as int == (match uuid_value(row.id@) {
            Some(v) => v,
            None => 0,
        }),
        t.name == row.name,
        t.description == row.description,
        t.trigger_type == (match trigger_named(row.trigger_type@) {
            Some(k) => k,
            None => TriggerType::Cron,
        }),
        t.trigger_expr == row.trigger_expr,
        t.command_config == row.command_config,
        t.webhook_config == row.webhook_config,
        t.status == (match status_named(row.status@) {
            Some(s) => s,
            None => TaskStatus::Active,
        }),
        t.enabled == (row.enabled != 0),
        t.created_at as int == stamp_or_epoch(row.created_at@),
        t.updated_at as int == stamp_or_epoch(row.updated_at@),
        optional_stamp(row.last_run_at) == (match t.last_run_at {
            Some(v) => Some(v as int),
            None => None,
        }),
        t.last_run_status == row.last_run_status,
        optional_stamp(row.next_run_at) == (match t.next_run_at {
            Some(v) => Some(v as int),
            None => None,
        }),
        t.max_retries == row.max_retries as u32,
        t.timeout_secs == (match row.timeout_secs {
            Some(v) => Some(v as u64),
            None => None,
        }),
        t.cron_tz_mode == row.cron_tz_mode,
        t.interval_mode == row.interval_mode,
{
    let id = match parse_uuid(row.id.as_str()) {
        Some(v) => v,
        None => 0,
    };
    let trigger_type = match TriggerType::parse(row.trigger_type.as_str()) {
        Ok(k) => k,
        Err(_) => TriggerType::Cron,
    };
    let status = match TaskStatus::parse(row.status.as_str()) {
        Ok(s) => s,
        Err(_) => TaskStatus::Active,
    };
    let created_at = stamp_or_zero(row.created_at.as_str());
    let updated_at = stamp_or_zero(row.updated_at.as_str());
    let last_run_at = optional_instant(&row.last_run_at);
    let next_run_at = optional_instant(&row.next_run_at);
    let timeout_secs = match row.timeout_secs {
        Some(v) => Some(v as u64),
        None => None,
    };
    Task {
        id,
        name: row.name,
        description: row.description,
        trigger_type,
        trigger_expr: row.trigger_expr,
        cron_tz_mode: row.cron_tz_mode,
        command_config: row.command_config,
        webhook_config: row.webhook_config,
        status,
        enabled: row.enabled != 0,
        created_at,
        updated_at,
        last_run_at,
        last_run_status: row.last_run_status,
        next_run_at,
        max_retries: row.max_retries as u32,
        timeout_secs,
        interval_mode: row.interval_mode,
    }
}

/// One recorded execution of a task.
#[derive(Debug, Clone)]
pub struct ExecutionHistory {
    pub id: u128,
    pub task_id: u128,
    pub task_name: String,
    pub started_at: i64,
    pub finished_at: Option<i64>,
    pub status: RunStatus,
    pub exit_code: Option<i32>,
    pub stdout: Option<String>,
    pub stderr: Option<String>,
    pub error_msg: Option<String>,
    pub retry_count: u32,
}

/// The columns of a stored execution joined with its task's name.
#[derive(Debug, Clone)]
pub struct HistoryRow {
    pub id: String,
    pub task_id: String,
    pub task_name: String,
    pub started_at: String,
    pub finished_at: Option<String>,
    pub status: String,
    pub exit_code: Option<i32>,
    pub stdout: Option<String>,
    pub stderr: Option<String>,
    pub error_msg: Option<String>,
    pub retry_count: u32,
}

/// The value of a UUID, the nil UUID when the text is not one.
pub open spec fn uuid_or_nil(s: Seq<char>) -> int {
    match uuid_value(s) {
        Some(v) => v,
        None => 0,
    }
}

fn id_or_nil(s: &str) -> (r: u128)
    ensures
        r as int == uuid_or_nil(s@),
{
    match parse_uuid(s) {
        Some(v) => v,
        None => 0,
    }
}

/// Turns a stored execution row into a record: ids that do not parse are
/// nil, a start that does not parse is the epoch, a finish that does not
/// parse is absent, an unknown status counts as failed.
pub fn history_from_row(row: HistoryRow) -> (h: ExecutionHistory)
    ensures
        h.id as int == uuid_or_nil(row.id@),
        h.task_id as int == uuid_or_nil(row.task_id@),
        h.task_name == row.task_name,
        h.started_at as int == stamp_or_epoch(row.started_at@),
        optional_stamp(row.finished_at) == (match h.finished_at {
            Some(v) => Some(v as int),
            None => None,
        }),
        h.status == (match run_status_named(row.status@) {
            Some(s) => s,
            None => RunStatus::Failed,
        }),
        h.exit_code == row.exit_code,
        h.stdout == row.stdout,
        h.stderr == row.stderr,
        h.error_msg == row.error_msg,
        h.retry_count == row.retry_count,
{
    let id = id_or_nil(row.id.as_str());
    let task_id = id_or_nil(row.task_id.as_str());
    let started_at = stamp_or_zero(row.started_at.as_str());
    let finished_at = optional_instant(&row.finished_at);
    let status = match RunStatus::parse(row.status.as_str()) {
        Some(s) => s,
        None => RunStatus::Failed,
    };
    ExecutionHistory {
        id,
        task_id,
        task_name: row.task_name,
        started_at,
        finished_at,
        status,
        exit_code: row.exit_code,
        stdout: row.stdout,
        stderr: row.stderr,
        error_msg: row.error_msg,
        retry_count: row.retry_count,
    }
}

/// The command and webhook configurations a task of the older schema gets:
/// a `command` action keeps its configuration as the command and gains the
/// webhook its Gotify token gives (if any); any other action becomes the webhook.
pub fn migrated_configs(
    action_type: &str,
    action_config: String,
    token_webhook: Option<String>,
) -> (r: (Option<String>, Option<String>))
    ensures
        action_type@ == "command"@ ==> r == (Some(action_config), token_webhook),
        action_type@ != "command"@ ==> r == (None::<String>, Some(action_config)),
{
    if str_eq(action_type, "command") {
        (Some(action_config), token_webhook)
    } else {
        (None, Some(action_config))
    }
}

/// The Gotify message URL that a task of the older schema with a Gotify token
/// gets as its webhook; none for a missing or empty token.
pub fn gotify_token_url(token: &Option<String>) -> (r: Option<String>)
    ensures
        (token is None || token->0@.len() == 0) ==> r is None,
        token is Some && token->0@.len() > 0 ==> (r matches Some(u)
            && u@ == "http://localhost:8080/message?token="@ + token->0@),
{
    match token {
        Some(t) => if chars_of(t.as_str()).len() == 0 {
            None
        } else {
            Some(concat_strs("http://localhost:8080/message?token=", t.as_str()))
        },
        None => None,
    }
}

} // verus!
