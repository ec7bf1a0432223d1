//! The task model: trigger kinds, task states, run states, and the task record.
use vstd::prelude::*;
use crate::text::{str_eq, concat_strs};

verus! {

/// How a task is triggered.
#[derive(Debug, Clone, Copy, PartialEq, Eq, Structural)]
pub enum TriggerType {
    Cron,
    Once,
    Interval,
}

/// The lifecycle state of a task.
#[derive(Debug, Clone, Copy, PartialEq, Eq, Structural)]
pub enum TaskStatus {
    Active,
    Paused,
    Completed,
    Failed,
}

/// The state of one recorded execution.
#[derive(Debug, Clone, Copy, PartialEq, Eq, Structural)]
pub enum RunStatus {
    Running,
    Success,
    Failed,
    Timeout,
}

/// A scheduled task. Instants are microseconds since the Unix epoch; the
/// task id is the 128-bit value of its UUID; the command and webhook
/// configurations are kept as their JSON text.
#[derive(Debug, Clone)]
pub struct Task {
    pub id: u128,
    pub name: String,
    pub description: String,
    pub trigger_type: TriggerType,
    pub trigger_expr: String,
    pub cron_tz_mode: String,
    pub command_config: Option<String>,
    pub webhook_config: Option<String>,
    pub status: TaskStatus,
    pub enabled: bool,
    pub created_at: i64,
    pub updated_at: i64,
    pub last_run_at: Option<i64>,
    pub last_run_status: Option<String>,
    pub next_run_at: Option<i64>,
    pub max_retries: u32,
    pub timeout_secs: Option<u64>,
    pub interval_mode: String,
}

/// A request to create a task. The configurations are JSON text.
#[derive(Debug, Clone)]
pub struct CreateTaskRequest {
    pub name: String,
    pub description: Option<String>,
    pub trigger_type: TriggerType,
    pub trigger_expr: String,
    pub cron_tz_mode: Option<String>,
    pub command_config: Option<String>,
    pub webhook_config: Option<String>,
    pub enabled: Option<bool>,
    pub max_retries: Option<u32>,
    pub timeout_secs: Option<u64>,
    pub interval_mode: Option<String>,
}

/// The textual name of a trigger kind.
pub open spec fn trigger_name(t: TriggerType) -> Seq<char> {
    match t {
        TriggerType::Cron => "cron"@,
        TriggerType::Once => "once"@,
        TriggerType::Interval => "interval"@,
    }
}

/// The textual name of a task status.
pub open spec fn status_name(s: TaskStatus) -> Seq<char> {
    match s {
        TaskStatus::Active => "active"@,
        TaskStatus::Paused => "paused"@,
        TaskStatus::Completed => "completed"@,
        TaskStatus::Failed => "failed"@,
    }
}

/// The textual name of a run status.
pub open spec fn run_status_name(s: RunStatus) -> Seq<char> {
    match s {
        RunStatus::Running => "running"@,
        RunStatus::Success => "success"@,
        RunStatus::Failed => "failed"@,
        RunStatus::Timeout => "timeout"@,
    }
}

/// The trigger kind named `s`, if any.
pub open spec fn trigger_named(s: Seq<char>) -> Option<TriggerType> {
    if s == "cron"@ {
        Some(TriggerType::Cron)
    } else if s == "once"@ {
        Some(TriggerType::Once)
    } else if s == "interval"@ {
        Some(TriggerType::Interval)
    } else {
        None
    }
}

/// The task status named `s`, if any.
pub open spec fn status_named(s: Seq<char>) -> Option<TaskStatus> {
    if s == "active"@ {
        Some(TaskStatus::Active)
    } else if s == "paused"@ {
        Some(TaskStatus::Paused)
    } else if s == "completed"@ {
        Some(TaskStatus::Completed)
    } else if s == "failed"@ {
        Some(TaskStatus::Failed)
    } else {
        None
    }
}

/// The run status named `s`, if any.
pub open spec fn run_status_named(s: Seq<char>) -> Option<RunStatus> {
    if s == "running"@ {
        Some(RunStatus::Running)
    } else if s == "success"@ {
        Some(RunStatus::Success)
    } else if s == "failed"@ {
        Some(RunStatus::Failed)
    } else if s == "timeout"@ {
        Some(RunStatus::Timeout)
    } else {
        None
    }
}

impl TriggerType {
    /// The name under which the trigger kind is stored and exchanged.
    pub fn as_str(&self) -> (r: &'static str)
        ensures
            r@ == trigger_name(*self),
    {
        match self {
            TriggerType::Cron => "cron",
            TriggerType::Once => "once",
            TriggerType::Interval => "interval",
        }
    }

    /// The name as an owned string (what `Display` prints).
    pub fn to_string(&self) -> (r: String)
        ensures
            r@ == trigger_name(*self),
    {
        self.as_str().to_string()
    }

    /// Reads a trigger kind from its name; any other text is refused with
    /// `Unknown trigger type: <text>`.
    pub fn parse(s: &str) -> (r: Result<TriggerType, String>)
        ensures
            r is Ok <==> trigger_named(s@) is Some,
            r matches Ok(t) ==> trigger_named(s@) == Some(t),
            r matches Err(e) ==> e@ == "Unknown trigger type: "@ + s@,
    {
        if str_eq(s, "cron") {
            Ok(TriggerType::Cron)
        } else if str_eq(s, "once") {
            Ok(TriggerType::Once)
        } else if str_eq(s, "interval") {
            Ok(TriggerType::Interval)
        } else {
            Err(concat_strs("Unknown trigger type: ", s))
        }
    }
}

impl TaskStatus {
    /// The name under which the status is stored and exchanged.
    pub fn as_str(&self) -> (r: &'static str)
        ensures
            r@ == status_name(*self),
    {
        match self {
            TaskStatus::Active => "active",
            TaskStatus::Paused => "paused",
            TaskStatus::Completed => "completed",
            TaskStatus::Failed => "failed",
        }
    }

    /// The name as an owned string (what `Display` prints).
    pub fn to_string(&self) -> (r: String)
        ensures
            r@ == status_name(*self),
    {
        self.as_str().to_string()
    }

    /// Reads a status from its name; any other text is refused with
    /// `Unknown task status: <text>`.
    pub fn parse(s: &str) -> (r: Result<TaskStatus, String>)
        ensures
            r is Ok <==> status_named(s@) is Some,
            r matches Ok(t) ==> status_named(s@) == Some(t),
            r matches Err(e) ==> e@ == "Unknown task status: "@ + s@,
    {
        if str_eq(s, "active") {
            Ok(TaskStatus::Active)
        } else if str_eq(s, "paused") {
            Ok(TaskStatus::Paused)
        } else if str_eq(s, "completed") {
            Ok(TaskStatus::Completed)
        } else if str_eq(s, "failed") {
            Ok(TaskStatus::Failed)
        } else {
            Err(concat_strs("Unknown task status: ", s))
        }
    }
}

impl RunStatus {
    /// The name under which the run status is stored.
    pub fn as_str(&self) -> (r: &'static str)
        ensures
            r@ == run_status_name(*self),
    {
        match self {
            RunStatus::Running => "running",
            RunStatus::Success => "success",
            RunStatus::Failed => "failed",
            RunStatus::Timeout => "timeout",
        }
    }

    /// Reads a run status from its name.
    pub fn parse(s: &str) -> (r: Option<RunStatus>)
        ensures
            r == run_status_named(s@),
    {
        if str_eq(s, "running") {
            Some(RunStatus::Running)
        } else if str_eq(s, "success") {
            Some(RunStatus::Success)
        } else if str_eq(s, "failed") {
            Some(RunStatus::Failed)
        } else if str_eq(s, "timeout") {
            Some(RunStatus::Timeout)
        } else {
            None
        }
    }
}

impl std::str::FromStr for TriggerType {
    type Err = String;

    fn from_str(s: &str) -> (r: Result<Self, Self::Err>)
        ensures
            r is Ok <==> trigger_named(s@) is Some,
            r matches Ok(t) ==> trigger_named(s@) == Some(t),
            r matches Err(e) ==> e@ == "Unknown trigger type: "@ + s@,
    {
        TriggerType::parse(s)
    }
}

impl std::str::FromStr for TaskStatus {
    type Err = String;

    fn from_str(s: &str) -> (r: Result<Self, Self::Err>)
        ensures
            r is Ok <==> status_named(s@) is Some,
            r matches Ok(t) ==> status_named(s@) == Some(t),
            r matches Err(e) ==> e@ == "Unknown task status: "@ + s@,
    {
        TaskStatus::parse(s)
    }
}

/// Reading back the name of a trigger kind gives the same kind, and no other
/// text names it.
pub proof fn law_trigger_name_round_trip(t: TriggerType, s: Seq<char>)
    ensures
        trigger_named(trigger_name(t)) == Some(t),
        trigger_named(s) == Some(t) ==> s == trigger_name(t),
{
    reveal_strlit("cron");
    assert("cron"@[0] == 'c');
    reveal_strlit("once");
    assert("once"@[0] == 'o');
    reveal_strlit("interval");
    assert("interval"@[0] == 'i');
}

/// Reading back the name of a task status gives the same status, and no
/// other text names it.
pub proof fn law_status_name_round_trip(t: TaskStatus, s: Seq<char>)
    ensures
        status_named(status_name(t)) == Some(t),
        status_named(s) == Some(t) ==> s == status_name(t),
{
    reveal_strlit("active");
    assert("active"@[0] == 'a');
    reveal_strlit("paused");
    assert("paused"@[0] == 'p');
    reveal_strlit("completed");
    assert("completed"@[0] == 'c');
    reveal_strlit("failed");
    assert("failed"@[0] == 'f');
}

/// Reading back the name of a run status gives the same status.
pub proof fn law_run_status_name_round_trip(t: RunStatus, s: Seq<char>)
    ensures
        run_status_named(run_status_name(t)) == Some(t),
        run_status_named(s) == Some(t) ==> s == run_status_name(t),
{
    reveal_strlit("running");
    assert("running"@[0] == 'r');
    reveal_strlit("success");
    assert("success"@[0] == 's');
    reveal_strlit("failed");
    assert("failed"@[0] == 'f');
    reveal_strlit("timeout");
    assert("timeout"@[0] == 't');
}

/// The text of an optional string, or the given default.
pub open spec fn text_or(o: Option<String>, d: Seq<char>) -> Seq<char> {
    match o {
        Some(s) => s@,
        None => d,
    }
}

impl Task {
    /// The task a creation request describes, with its new id and the current
    /// instant: no description means an empty one, a cron zone of `utc`, an
    /// interval mode of `fixed_delay`, enabled, no retries, active, never run.
    pub fn from_request(req: CreateTaskRequest, id: u128, now: i64) -> (t: Task)
        ensures
            t.id == id,
            t.name == req.name,
            t.description@ == text_or(req.description, Seq::empty()),
            t.trigger_type == req.trigger_type,
            t.trigger_expr == req.trigger_expr,
            t.cron_tz_mode@ == text_or(req.cron_tz_mode, "utc"@),
            t.command_config == req.command_config,
            t.webhook_config == req.webhook_config,
            t.status == TaskStatus::Active,
            t.enabled == (match req.enabled {
                Some(e) => e,
                None => true,
            }),
            t.created_at == now && t.updated_at == now,
            t.last_run_at is None && t.last_run_status is None && t.next_run_at is None,
            t.max_retries == (match req.max_retries {
                Some(m) => m,
                None => 0u32,
            }),
            t.timeout_secs == req.timeout_secs,
            t.interval_mode@ == text_or(req.interval_mode, "fixed_delay"@),
    {
        proof {
            reveal_strlit("");
        }
        let description = match req.description {
            Some(d) => d,
            None => {
                assert(""@ =~= Seq::<char>::empty());
                "".to_string()
            },
        };
        let cron_tz_mode = match req.cron_tz_mode {
            Some(m) => m,
            None => "utc".to_string(),
        };
        let interval_mode = match req.interval_mode {
            Some(m) => m,
            None => "fixed_delay".to_string(),
        };
        Task {
            id,
            name: req.name,
            description,
            trigger_type: req.trigger_type,
            trigger_expr: req.trigger_expr,
            cron_tz_mode,
            command_config: req.command_config,
            webhook_config: req.webhook_config,
            status: TaskStatus::Active,
            enabled: match req.enabled {
                Some(e) => e,
                None => true,
            },
            created_at: now,
            updated_at: now,
            last_run_at: None,
            last_run_status: None,
            next_run_at: None,
            max_retries: match req.max_retries {
                Some(m) => m,
                None => 0,
            },
            timeout_secs: req.timeout_secs,
            interval_mode,
        }
    }
}

} // verus!
