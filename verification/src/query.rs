//! The database statements behind the listings and updates: pagination,
//! filters and the columns an update touches, with their numbered parameters.
use vstd::prelude::*;
use crate::executor::{join, joined, texts};
use crate::model::{TaskStatus, TriggerType, status_name, trigger_name};
use crate::text::{concat_strs, nat_text, nat_to_text};

verus! {

/// A value bound to a numbered statement parameter.
#[derive(Debug, Clone)]
pub enum SqlValue {
    Text(String),
    Integer(i64),
}

/// The page of a listing: its number (from 1), its size (at most 100) and the
/// number of rows skipped.
#[derive(Debug, Clone, Copy, PartialEq, Eq, Structural)]
pub struct PageWindow {
    pub page: u32,
    pub per_page: u32,
    pub offset: u32,
}

/// The page number asked for, 1 when absent, and never below 1.
pub open spec fn page_number(page: Option<u32>) -> int {
    match page {
        Some(p) => if p < 1 {
            1
        } else {
            p as int
        },
        None => 1,
    }
}

/// The page size asked for, 20 when absent, and never above 100.
pub open spec fn page_size(per_page: Option<u32>) -> int {
    match per_page {
        Some(n) => if n > 100 {
            100
        } else {
            n as int
        },
        None => 20,
    }
}

/// The page of a listing. `None` when the number of skipped rows does not
/// fit in 32 bits (the listing then fails with an internal error).
pub fn page_window(page: Option<u32>, per_page: Option<u32>) -> (r: Option<PageWindow>)
    ensures
        ((page_number(page) - 1) * page_size(per_page) <= u32::MAX) == r is Some,
        r matches Some(w) ==> w.page == page_number(page) && w.per_page == page_size(per_page)
            && w.offset == (page_number(page) - 1) * page_size(per_page),
{
    let p: u32 = match page {
        Some(v) => if v < 1 {
            1
        } else {
            v
        },
        None => 1,
    };
    let n: u32 = match per_page {
        Some(v) => if v > 100 {
            100
        } else {
            v
        },
        None => 20,
    };
    match (p - 1).checked_mul(n) {
        Some(offset) => Some(PageWindow { page: p, per_page: n, offset }),
        None => None,
    }
}

/// A listing shows at most 100 rows a page, 20 when no size is asked for,
/// and starts at page 1 when no page (or page 0) is asked for.
pub proof fn law_page_bounds(page: Option<u32>, per_page: Option<u32>)
    ensures
        0 <= page_size(per_page) <= 100,
        per_page is None ==> page_size(per_page) == 20,
        page_number(page) >= 1,
        (page is None || page == Some(0u32)) ==> page_number(page) == 1,
{
}

/// A clause that binds a column to parameter number `idx`.
pub open spec fn eq_clause(column: Seq<char>, idx: nat) -> Seq<char> {
    column + " = ?"@ + nat_text(idx)
}

/// Numbered clauses and their parameters, being built.
pub struct ClauseList {
    pub clauses: Vec<String>,
    pub params: Vec<SqlValue>,
}

impl ClauseList {
    /// The number the next parameter gets.
    pub open spec fn next_index(&self) -> nat {
        self.params@.len() + 1
    }

    /// Parameters and clauses pair up one to one.
    pub open spec fn wf(&self) -> bool {
        self.clauses@.len() == self.params@.len() && self.params@.len() < 1000
    }

    /// No clauses yet.
    pub fn new() -> (r: ClauseList)
        ensures
            r.wf(),
            r.clauses@ == Seq::<String>::empty(),
            r.params@ == Seq::<SqlValue>::empty(),
    {
        ClauseList { clauses: Vec::new(), params: Vec::new() }
    }

    /// Adds `column = ?n` with its value.
    pub fn add_eq(&mut self, column: &str, value: SqlValue)
        requires
            old(self).wf(),
            old(self).params@.len() < 999,
        ensures
            final(self).wf(),
            texts(final(self).clauses@) == texts(old(self).clauses@).push(
                eq_clause(column@, old(self).next_index()),
            ),
            final(self).params@ == old(self).params@.push(value),
    {
        let idx = nat_to_text(self.params.len() as u64 + 1);
        let head = concat_strs(column, " = ?");
        let clause = concat_strs(head.as_str(), idx.as_str());
        let ghost before = self.clauses@;
        self.clauses.push(clause);
        self.params.push(value);
        assert(texts(self.clauses@) =~= texts(before).push(eq_clause(column@, old(self).next_index())));
    }

    /// Adds an arbitrary clause (already numbered) with its value.
    fn add_raw(&mut self, clause: String, value: SqlValue)
        requires
            old(self).wf(),
            old(self).params@.len() < 999,
        ensures
            final(self).wf(),
            texts(final(self).clauses@) == texts(old(self).clauses@).push(clause@),
            final(self).params@ == old(self).params@.push(value),
    {
        let ghost before = self.clauses@;
        self.clauses.push(clause);
        self.params.push(value);
        assert(texts(self.clauses@) =~= texts(before).push(clause@));
    }
}

/// `WHERE` and the clauses joined by `AND`, or nothing without clauses.
pub open spec fn where_text(clauses: Seq<Seq<char>>) -> Seq<char> {
    if clauses.len() == 0 {
        Seq::empty()
    } else {
        "WHERE "@ + joined(clauses, " AND "@)
    }
}

fn where_sql(clauses: &Vec<String>) -> (r: String)
    ensures
        r@ == where_text(texts(clauses@)),
{
    proof {
        reveal_strlit("");
    }
    if clauses.len() == 0 {
        assert(""@ =~= Seq::<char>::empty());
        "".to_string()
    } else {
        let j = join(clauses, " AND ");
        concat_strs("WHERE ", j.as_str())
    }
}

/// The filters of the task listing.
#[derive(Debug, Clone)]
pub struct TaskFilter {
    pub status: Option<String>,
    pub enabled: Option<bool>,
    pub trigger_type: Option<String>,
    pub search: Option<String>,
    pub page: Option<u32>,
    pub per_page: Option<u32>,
}

/// The search clause: name or description contains the text.
pub open spec fn search_clause(idx: nat) -> Seq<char> {
    "(name LIKE ?"@ + nat_text(idx) + " OR description LIKE ?"@ + nat_text(idx) + ")"@
}

/// A `LIKE` pattern that matches any text containing `s`.
pub open spec fn like_pattern(s: Seq<char>) -> Seq<char> {
    "%"@ + s + "%"@
}

/// The texts of bound values: text as it is, integers by their value.
pub enum ParamView {
    Text(Seq<char>),
    Integer(int),
}

/// A bound value as a mathematical value.
pub open spec fn param_view(v: SqlValue) -> ParamView {
    match v {
        SqlValue::Text(s) => ParamView::Text(s@),
        SqlValue::Integer(i) => ParamView::Integer(i as int),
    }
}

/// The bound values as mathematical values.
pub open spec fn params_view(v: Seq<SqlValue>) -> Seq<ParamView> {
    v.map_values(|p: SqlValue| param_view(p))
}

/// Appends a clause and its value when the value is present.
pub open spec fn add_if(
    acc: (Seq<Seq<char>>, Seq<ParamView>),
    present: bool,
    clause: spec_fn(nat) -> Seq<char>,
    value: ParamView,
) -> (Seq<Seq<char>>, Seq<ParamView>) {
    if present {
        (acc.0.push(clause(acc.1.len() + 1)), acc.1.push(value))
    } else {
        acc
    }
}

/// The clauses bind `value` under `clause(n)`, `n` being the value's own
/// parameter number: the clause and the value stand at the same position.
pub open spec fn binds(
    parts: (Seq<Seq<char>>, Seq<ParamView>),
    clause: spec_fn(nat) -> Seq<char>,
    value: ParamView,
) -> bool {
    exists|k: int|
        0 <= k < parts.0.len() && k < parts.1.len() && #[trigger] parts.0[k] == clause((k + 1) as nat)
            && parts.1[k] == value
}

/// Appending a clause keeps every earlier binding, binds the appended value
/// under its clause, and keeps clauses and values paired.
proof fn lemma_add_if_binds(
    acc: (Seq<Seq<char>>, Seq<ParamView>),
    present: bool,
    clause: spec_fn(nat) -> Seq<char>,
    value: ParamView,
)
    requires
        acc.0.len() == acc.1.len(),
    ensures
        add_if(acc, present, clause, value).0.len() == add_if(acc, present, clause, value).1.len(),
        add_if(acc, present, clause, value).1.len() == acc.1.len() + (if present { 1int } else { 0int }),
        present ==> binds(add_if(acc, present, clause, value), clause, value),
        forall|c: spec_fn(nat) -> Seq<char>, v: ParamView|
            binds(acc, c, v) ==> #[trigger] binds(add_if(acc, present, clause, value), c, v),
{
    let r = add_if(acc, present, clause, value);
    if present {
        let k = acc.1.len() as int;
        assert(r.0[k] == clause((k + 1) as nat));
        assert(r.1[k] == value);
    }
    assert forall|c: spec_fn(nat) -> Seq<char>, v: ParamView| binds(acc, c, v) implies #[trigger] binds(
        r,
        c,
        v,
    ) by {
        let k = choose|k: int|
            0 <= k < acc.0.len() && k < acc.1.len() && #[trigger] acc.0[k] == c((k + 1) as nat) && acc.1[k] == v;
        assert(r.0[k] == acc.0[k]);
        assert(r.1[k] == acc.1[k]);
    }
}

/// The clauses and values of the task listing's filter, numbered from 1 in
/// the order status, enabled, trigger type, search.
pub open spec fn task_filter_parts(f: TaskFilter) -> (Seq<Seq<char>>, Seq<ParamView>) {
    let a0 = (Seq::<Seq<char>>::empty(), Seq::<ParamView>::empty());
    let a1 = add_if(a0, f.status is Some, |i: nat| eq_clause("status"@, i), ParamView::Text(f.status->0@));
    let a2 = add_if(a1, f.enabled is Some, |i: nat| eq_clause("enabled"@, i),
        ParamView::Integer(if f.enabled->0 { 1 } else { 0 }));
    let a3 = add_if(a2, f.trigger_type is Some, |i: nat| eq_clause("trigger_type"@, i),
        ParamView::Text(f.trigger_type->0@));
    add_if(a3, f.search is Some, |i: nat| search_clause(i), ParamView::Text(like_pattern(f.search->0@)))
}

/// The statements of a listing: the count, the page query, and the values
/// bound to the page query (the filter's values, then the page size and offset).
#[derive(Debug, Clone)]
pub struct ListQuery {
    pub count_sql: String,
    pub select_sql: String,
    pub filter_params: Vec<SqlValue>,
    pub window: PageWindow,
}

/// The tail of a page query: ordering, then the limit and offset parameters.
pub open spec fn page_tail(order: Seq<char>, next: nat) -> Seq<char> {
    " ORDER BY "@ + order + " LIMIT ?"@ + nat_text(next) + " OFFSET ?"@ + nat_text(next + 1)
}

fn page_tail_text(order: &str, next: u64) -> (r: String)
    requires
        next < 1000,
    ensures
        r@ == page_tail(order@, next as nat),
{
    let a = concat_strs(" ORDER BY ", order);
    let b = concat_strs(a.as_str(), " LIMIT ?");
    let n1 = nat_to_text(next);
    let c = concat_strs(b.as_str(), n1.as_str());
    let d = concat_strs(c.as_str(), " OFFSET ?");
    let n2 = nat_to_text(next + 1);
    concat_strs(d.as_str(), n2.as_str())
}

/// The task listing: `SELECT COUNT(*) FROM tasks <where>` and
/// `SELECT * FROM tasks <where> ORDER BY created_at DESC LIMIT ?n OFFSET ?n+1`.
/// `None` when the page's offset does not fit.
pub fn task_list_query(filter: &TaskFilter) -> (r: Option<ListQuery>)
    ensures
        r is Some <==> ((page_number(filter.page) - 1) * page_size(filter.per_page) <= u32::MAX),
        r matches Some(q) ==> {
            let parts = task_filter_parts(*filter);
            let w = where_text(parts.0);
            &&& q.count_sql@ == "SELECT COUNT(*) FROM tasks "@ + w
            &&& q.select_sql@ == "SELECT * FROM tasks "@ + w + page_tail("created_at DESC"@, parts.1.len() + 1)
            &&& params_view(q.filter_params@) == parts.1
            &&& q.window.page == page_number(filter.page)
            &&& q.window.per_page == page_size(filter.per_page)
            &&& q.window.offset == (page_number(filter.page) - 1) * page_size(filter.per_page)
        },
{
    let window = match page_window(filter.page, filter.per_page) {
        Some(w) => w,
        None => return None,
    };
    let mut list = ClauseList::new();
    let ghost a0 = (Seq::<Seq<char>>::empty(), Seq::<ParamView>::empty());
    assert(texts(list.clauses@) =~= a0.0 && params_view(list.params@) =~= a0.1);
    if let Some(s) = &filter.status {
        list.add_eq("status", SqlValue::Text(s.clone()));
    }
    let ghost a1 = add_if(a0, filter.status is Some, |i: nat| eq_clause("status"@, i), ParamView::Text(filter.status->0@));
    assert(texts(list.clauses@) =~= a1.0 && params_view(list.params@) =~= a1.1);
    if let Some(e) = filter.enabled {
        list.add_eq("enabled", SqlValue::Integer(if e { 1 } else { 0 }));
    }
    let ghost a2 = add_if(a1, filter.enabled is Some, |i: nat| eq_clause("enabled"@, i),
        ParamView::Integer(if filter.enabled->0 { 1 } else { 0 }));
    assert(texts(list.clauses@) =~= a2.0 && params_view(list.params@) =~= a2.1);
    if let Some(t) = &filter.trigger_type {
        list.add_eq("trigger_type", SqlValue::Text(t.clone()));
    }
    let ghost a3 = add_if(a2, filter.trigger_type is Some, |i: nat| eq_clause("trigger_type"@, i),
        ParamView::Text(filter.trigger_type->0@));
    assert(texts(list.clauses@) =~= a3.0 && params_view(list.params@) =~= a3.1);
    if let Some(s) = &filter.search {
        let idx = nat_to_text(list.params.len() as u64 + 1);
        let c1 = concat_strs("(name LIKE ?", idx.as_str());
        let c2 = concat_strs(c1.as_str(), " OR description LIKE ?");
        let c3 = concat_strs(c2.as_str(), idx.as_str());
        let clause = concat_strs(c3.as_str(), ")");
        let p1 = concat_strs("%", s.as_str());
        let pattern = concat_strs(p1.as_str(), "%");
        list.add_raw(clause, SqlValue::Text(pattern));
    }
    let ghost a4 = task_filter_parts(*filter);
    assert(texts(list.clauses@) =~= a4.0 && params_view(list.params@) =~= a4.1);
    let w = where_sql(&list.clauses);
    let count_sql = concat_strs("SELECT COUNT(*) FROM tasks ", w.as_str());
    let head = concat_strs("SELECT * FROM tasks ", w.as_str());
    let tail = page_tail_text("created_at DESC", list.params.len() as u64 + 1);
    let select_sql = concat_strs(head.as_str(), tail.as_str());
    Some(ListQuery { count_sql, select_sql, filter_params: list.params, window })
}

/// The columns the history listing selects, joined with the task's name.
pub const HISTORY_SELECT: &'static str = "SELECT h.id, h.task_id, t.name, h.started_at, h.finished_at, h.status, h.exit_code, h.stdout, h.stderr, h.error_msg, h.retry_count FROM execution_history h JOIN tasks t ON h.task_id = t.id";

/// The filters of the history listing.
#[derive(Debug, Clone)]
pub struct HistoryFilter {
    pub task_id: Option<String>,
    pub task_name: Option<String>,
    pub status: Option<String>,
    pub page: Option<u32>,
    pub per_page: Option<u32>,
}

/// The clauses and values of the history listing's filter, numbered from 1
/// in the order task id, task name (contained), status.
pub open spec fn history_filter_parts(f: HistoryFilter) -> (Seq<Seq<char>>, Seq<ParamView>) {
    let a0 = (Seq::<Seq<char>>::empty(), Seq::<ParamView>::empty());
    let a1 = add_if(a0, f.task_id is Some, |i: nat| eq_clause("h.task_id"@, i), ParamView::Text(f.task_id->0@));
    let a2 = add_if(a1, f.task_name is Some, |i: nat| "t.name LIKE ?"@ + nat_text(i),
        ParamView::Text(like_pattern(f.task_name->0@)));
    add_if(a2, f.status is Some, |i: nat| eq_clause("h.status"@, i), ParamView::Text(f.status->0@))
}

/// The history listing: the count over executions joined with their tasks,
/// and [`HISTORY_SELECT`] filtered, newest first, one page.
pub fn history_list_query(filter: &HistoryFilter) -> (r: Option<ListQuery>)
    ensures
        r is Some <==> ((page_number(filter.page) - 1) * page_size(filter.per_page) <= u32::MAX),
        r matches Some(q) ==> {
            let parts = history_filter_parts(*filter);
            let w = where_text(parts.0);
            &&& q.count_sql@ == "SELECT COUNT(*) FROM execution_history h JOIN tasks t ON h.task_id = t.id "@ + w
            &&& q.select_sql@ == HISTORY_SELECT@ + " "@ + w + page_tail("h.started_at DESC"@, parts.1.len() + 1)
            &&& params_view(q.filter_params@) == parts.1
            &&& q.window.page == page_number(filter.page)
            &&& q.window.per_page == page_size(filter.per_page)
            &&& q.window.offset == (page_number(filter.page) - 1) * page_size(filter.per_page)
        },
{
    let window = match page_window(filter.page, filter.per_page) {
        Some(w) => w,
        None => return None,
    };
    let mut list = ClauseList::new();
    let ghost a0 = (Seq::<Seq<char>>::empty(), Seq::<ParamView>::empty());
    assert(texts(list.clauses@) =~= a0.0 && params_view(list.params@) =~= a0.1);
    if let Some(id) = &filter.task_id {
        list.add_eq("h.task_id", SqlValue::Text(id.clone()));
    }
    let ghost a1 = add_if(a0, filter.task_id is Some, |i: nat| eq_clause("h.task_id"@, i), ParamView::Text(filter.task_id->0@));
    assert(texts(list.clauses@) =~= a1.0 && params_view(list.params@) =~= a1.1);
    if let Some(name) = &filter.task_name {
        let idx = nat_to_text(list.params.len() as u64 + 1);
        let clause = concat_strs("t.name LIKE ?", idx.as_str());
        let p1 = concat_strs("%", name.as_str());
        let pattern = concat_strs(p1.as_str(), "%");
        list.add_raw(clause, SqlValue::Text(pattern));
    }
    let ghost a2 = add_if(a1, filter.task_name is Some, |i: nat| "t.name LIKE ?"@ + nat_text(i),
        ParamView::Text(like_pattern(filter.task_name->0@)));
    assert(texts(list.clauses@) =~= a2.0 && params_view(list.params@) =~= a2.1);
    if let Some(st) = &filter.status {
        list.add_eq("h.status", SqlValue::Text(st.clone()));
    }
    let ghost a3 = history_filter_parts(*filter);
    assert(texts(list.clauses@) =~= a3.0 && params_view(list.params@) =~= a3.1);
    let w = where_sql(&list.clauses);
    let count_sql = concat_strs("SELECT COUNT(*) FROM execution_history h JOIN tasks t ON h.task_id = t.id ", w.as_str());
    let h1 = concat_strs(HISTORY_SELECT, " ");
    let head = concat_strs(h1.as_str(), w.as_str());
    let tail = page_tail_text("h.started_at DESC", list.params.len() as u64 + 1);
    let select_sql = concat_strs(head.as_str(), tail.as_str());
    Some(ListQuery { count_sql, select_sql, filter_params: list.params, window })
}

/// One task's history: `SELECT COUNT(*) FROM execution_history WHERE task_id = ?1`
/// and [`HISTORY_SELECT`] for that task, newest first, one page; the task's id
/// is the first parameter. `None` when the page's offset does not fit.
pub fn task_history_query(task_id: &str, page: Option<u32>, per_page: Option<u32>) -> (r: Option<ListQuery>)
    ensures
        r is Some <==> ((page_number(page) - 1) * page_size(per_page) <= u32::MAX),
        r matches Some(q) ==> {
            &&& q.count_sql@ == "SELECT COUNT(*) FROM execution_history WHERE task_id = ?1"@
            &&& q.select_sql@ == HISTORY_SELECT@ + " WHERE h.task_id = ?1"@ + page_tail("h.started_at DESC"@, 2)
            &&& params_view(q.filter_params@) == seq![ParamView::Text(task_id@)]
            &&& q.window.page == page_number(page)
            &&& q.window.per_page == page_size(per_page)
            &&& q.window.offset == (page_number(page) - 1) * page_size(per_page)
        },
{
    let window = match page_window(page, per_page) {
        Some(w) => w,
        None => return None,
    };
    let count_sql = "SELECT COUNT(*) FROM execution_history WHERE task_id = ?1".to_string();
    let head = concat_strs(HISTORY_SELECT, " WHERE h.task_id = ?1");
    let tail = page_tail_text("h.started_at DESC", 2);
    let select_sql = concat_strs(head.as_str(), tail.as_str());
    let mut filter_params: Vec<SqlValue> = Vec::new();
    filter_params.push(SqlValue::Text(task_id.to_string()));
    assert(params_view(filter_params@) =~= seq![ParamView::Text(task_id@)]);
    Some(ListQuery { count_sql, select_sql, filter_params, window })
}

/// The fields a task update may change; absent fields keep their value. The
/// configurations are JSON text.
#[derive(Debug, Clone)]
pub struct UpdateTaskRequest {
    pub name: Option<String>,
    pub description: Option<String>,
    pub trigger_type: Option<TriggerType>,
    pub trigger_expr: Option<String>,
    pub cron_tz_mode: Option<String>,
    pub command_config: Option<String>,
    pub webhook_config: Option<String>,
    pub enabled: Option<bool>,
    pub max_retries: Option<u32>,
    pub timeout_secs: Option<u64>,
    pub interval_mode: Option<String>,
}

/// An optional text as a bound value.
pub open spec fn text_param(o: Option<String>) -> ParamView {
    ParamView::Text(o->0@)
}

/// The `SET` clauses and values of an update: `updated_at = ?1` with the
/// current time, then each present field in declaration order.
pub open spec fn update_parts(req: UpdateTaskRequest, now: Seq<char>) -> (Seq<Seq<char>>, Seq<ParamView>) {
    let a0 = (seq![eq_clause("updated_at"@, 1)], seq![ParamView::Text(now)]);
    let a1 = add_if(a0, req.name is Some, |i: nat| eq_clause("name"@, i), text_param(req.name));
    let a2 = add_if(a1, req.description is Some, |i: nat| eq_clause("description"@, i), text_param(req.description));
    let a3 = add_if(a2, req.trigger_type is Some, |i: nat| eq_clause("trigger_type"@, i),
        ParamView::Text(trigger_name(req.trigger_type->0)));
    let a4 = add_if(a3, req.trigger_expr is Some, |i: nat| eq_clause("trigger_expr"@, i), text_param(req.trigger_expr));
    let a5 = add_if(a4, req.cron_tz_mode is Some, |i: nat| eq_clause("cron_tz_mode"@, i), text_param(req.cron_tz_mode));
    let a6 = add_if(a5, req.command_config is Some, |i: nat| eq_clause("command_config"@, i), text_param(req.command_config));
    let a7 = add_if(a6, req.webhook_config is Some, |i: nat| eq_clause("webhook_config"@, i), text_param(req.webhook_config));
    let a8 = add_if(a7, req.enabled is Some, |i: nat| eq_clause("enabled"@, i),
        ParamView::Integer(if req.enabled->0 { 1 } else { 0 }));
    let a9 = add_if(a8, req.max_retries is Some, |i: nat| eq_clause("max_retries"@, i),
        ParamView::Integer(req.max_retries->0 as int));
    let a10 = add_if(a9, req.timeout_secs is Some, |i: nat| eq_clause("timeout_secs"@, i),
        ParamView::Integer((req.timeout_secs->0 as i64) as int));
    add_if(a10, req.interval_mode is Some, |i: nat| eq_clause("interval_mode"@, i), text_param(req.interval_mode))
}

/// An update statement and its values.
#[derive(Debug, Clone)]
pub struct Statement {
    pub sql: String,
    pub params: Vec<SqlValue>,
}

fn add_text_field(list: &mut ClauseList, column: &str, value: &Option<String>)
    requires
        old(list).wf(),
        old(list).params@.len() < 20,
    ensures
        final(list).wf(),
        final(list).params@.len() <= old(list).params@.len() + 1,
        (texts(final(list).clauses@), params_view(final(list).params@)) == add_if(
            (texts(old(list).clauses@), params_view(old(list).params@)),
            value is Some,
            |i: nat| eq_clause(column@, i),
            text_param(*value),
        ),
{
    if let Some(v) = value {
        let ghost before = list.params@;
        list.add_eq(column, SqlValue::Text(v.clone()));
        assert(params_view(list.params@) =~= params_view(before).push(text_param(*value)));
    }
}

/// `UPDATE tasks SET <clauses joined by ", "> WHERE id = ?n`, the task's id
/// bound last.
#[verifier::rlimit(40)]
pub fn update_task_statement(req: &UpdateTaskRequest, id: &str, now: &str) -> (r: Statement)
    ensures
        ({
            let parts = update_parts(*req, now@);
            &&& r.sql@ == "UPDATE tasks SET "@ + joined(parts.0, ", "@) + " WHERE id = ?"@ + nat_text(
                parts.1.len() + 1,
            )
            &&& params_view(r.params@) == parts.1.push(ParamView::Text(id@))
        }),
{
    let mut list = ClauseList::new();
    list.add_eq("updated_at", SqlValue::Text(now.to_string()));
    let ghost a0 = (seq![eq_clause("updated_at"@, 1)], seq![ParamView::Text(now@)]);
    assert(texts(list.clauses@) =~= a0.0 && params_view(list.params@) =~= a0.1);
    add_text_field(&mut list, "name", &req.name);
    add_text_field(&mut list, "description", &req.description);
    if let Some(t) = req.trigger_type {
        let ghost before = list.params@;
        list.add_eq("trigger_type", SqlValue::Text(t.as_str().to_string()));
        assert(params_view(list.params@) =~= params_view(before).push(ParamView::Text(trigger_name(t))));
    }
    add_text_field(&mut list, "trigger_expr", &req.trigger_expr);
    add_text_field(&mut list, "cron_tz_mode", &req.cron_tz_mode);
    add_text_field(&mut list, "command_config", &req.command_config);
    add_text_field(&mut list, "webhook_config", &req.webhook_config);
    if let Some(e) = req.enabled {
        let ghost before = list.params@;
        list.add_eq("enabled", SqlValue::Integer(if e { 1 } else { 0 }));
        assert(params_view(list.params@) =~= params_view(before).push(ParamView::Integer(if e { 1 } else { 0 })));
    }
    if let Some(m) = req.max_retries {
        let ghost before = list.params@;
        list.add_eq("max_retries", SqlValue::Integer(m as i64));
        assert(params_view(list.params@) =~= params_view(before).push(ParamView::Integer(m as int)));
    }
    if let Some(t) = req.timeout_secs {
        let ghost before = list.params@;
        list.add_eq("timeout_secs", SqlValue::Integer(t as i64));
        assert(params_view(list.params@) =~= params_view(before).push(ParamView::Integer((t as i64) as int)));
    }
    add_text_field(&mut list, "interval_mode", &req.interval_mode);
    let ghost parts = update_parts(*req, now@);
    assert(texts(list.clauses@) == parts.0 && params_view(list.params@) == parts.1);
    let sets = join(&list.clauses, ", ");
    let a = concat_strs("UPDATE tasks SET ", sets.as_str());
    let b = concat_strs(a.as_str(), " WHERE id = ?");
    let n = nat_to_text(list.params.len() as u64 + 1);
    let sql = concat_strs(b.as_str(), n.as_str());
    let mut params = list.params;
    let ghost before = params@;
    params.push(SqlValue::Text(id.to_string()));
    assert(params_view(params@) =~= params_view(before).push(ParamView::Text(id@)));
    Statement { sql, params }
}

/// The status a task gets when it is enabled or disabled.
pub fn enabled_status(enabled: bool) -> (r: TaskStatus)
    ensures
        r == (if enabled { TaskStatus::Active } else { TaskStatus::Paused }),
{
    if enabled {
        TaskStatus::Active
    } else {
        TaskStatus::Paused
    }
}

/// One page of a listing and the number of rows that match in all.
#[derive(Debug, Clone)]
pub struct PagedResult<T> {
    pub items: Vec<T>,
    pub total: u64,
    pub page: u32,
    pub per_page: u32,
}

/// Puts a page of rows together with the matching total. A negative count
/// (which the database never returns) is taken as it is cast.
pub fn paged<T>(items: Vec<T>, total: i64, window: PageWindow) -> (r: PagedResult<T>)
    ensures
        r.items == items,
        r.total == total as u64,
        r.page == window.page,
        r.per_page == window.per_page,
{
    PagedResult { items, total: total as u64, page: window.page, per_page: window.per_page }
}

/// A history listing is restricted by each filter it is given: a task id is
/// bound as `h.task_id = ?n`, a task name as `t.name LIKE ?n` with the name
/// inside `%`, a status as `h.status = ?n`, each value at its own number;
/// the number of values is the number of filters given.
pub proof fn law_history_filters_bound(f: HistoryFilter)
    ensures
        ({
            let parts = history_filter_parts(f);
            &&& parts.0.len() == parts.1.len()
            &&& parts.1.len() == (if f.task_id is Some { 1int } else { 0int }) + (if f.task_name is Some {
                1int
            } else {
                0int
            }) + (if f.status is Some { 1int } else { 0int })
            &&& f.task_id is Some ==> binds(parts, |i: nat| eq_clause("h.task_id"@, i), ParamView::Text(f.task_id->0@))
            &&& f.task_name is Some ==> binds(parts, |i: nat| "t.name LIKE ?"@ + nat_text(i),
                ParamView::Text(like_pattern(f.task_name->0@)))
            &&& f.status is Some ==> binds(parts, |i: nat| eq_clause("h.status"@, i), ParamView::Text(f.status->0@))
        }),
{
    let a0 = (Seq::<Seq<char>>::empty(), Seq::<ParamView>::empty());
    let c1 = |i: nat| eq_clause("h.task_id"@, i);
    let v1 = ParamView::Text(f.task_id->0@);
    let a1 = add_if(a0, f.task_id is Some, c1, v1);
    lemma_add_if_binds(a0, f.task_id is Some, c1, v1);
    let c2 = |i: nat| "t.name LIKE ?"@ + nat_text(i);
    let v2 = ParamView::Text(like_pattern(f.task_name->0@));
    let a2 = add_if(a1, f.task_name is Some, c2, v2);
    lemma_add_if_binds(a1, f.task_name is Some, c2, v2);
    let c3 = |i: nat| eq_clause("h.status"@, i);
    let v3 = ParamView::Text(f.status->0@);
    lemma_add_if_binds(a2, f.status is Some, c3, v3);
    assert(history_filter_parts(f) == add_if(a2, f.status is Some, c3, v3));
}

/// A task listing is restricted by each filter it is given: a status as
/// `status = ?n`, an enabled flag as `enabled = ?n` (1 or 0), a trigger type
/// as `trigger_type = ?n`, a search text as a match on name or description
/// with the text inside `%`, each value at its own number; the number of
/// values is the number of filters given.
pub proof fn law_task_filters_bound(f: TaskFilter)
    ensures
        ({
            let parts = task_filter_parts(f);
            &&& parts.0.len() == parts.1.len()
            &&& parts.1.len() == (if f.status is Some { 1int } else { 0int }) + (if f.enabled is Some {
                1int
            } else {
                0int
            }) + (if f.trigger_type is Some { 1int } else { 0int }) + (if f.search is Some { 1int } else { 0int })
            &&& f.status is Some ==> binds(parts, |i: nat| eq_clause("status"@, i), ParamView::Text(f.status->0@))
            &&& f.enabled is Some ==> binds(parts, |i: nat| eq_clause("enabled"@, i),
                ParamView::Integer(if f.enabled->0 { 1 } else { 0 }))
            &&& f.trigger_type is Some ==> binds(parts, |i: nat| eq_clause("trigger_type"@, i),
                ParamView::Text(f.trigger_type->0@))
            &&& f.search is Some ==> binds(parts, |i: nat| search_clause(i),
                ParamView::Text(like_pattern(f.search->0@)))
        }),
{
    let a0 = (Seq::<Seq<char>>::empty(), Seq::<ParamView>::empty());
    let c1 = |i: nat| eq_clause("status"@, i);
    let v1 = ParamView::Text(f.status->0@);
    let a1 = add_if(a0, f.status is Some, c1, v1);
    lemma_add_if_binds(a0, f.status is Some, c1, v1);
    let c2 = |i: nat| eq_clause("enabled"@, i);
    let v2 = ParamView::Integer(if f.enabled->0 { 1 } else { 0 });
    let a2 = add_if(a1, f.enabled is Some, c2, v2);
    lemma_add_if_binds(a1, f.enabled is Some, c2, v2);
    let c3 = |i: nat| eq_clause("trigger_type"@, i);
    let v3 = ParamView::Text(f.trigger_type->0@);
    let a3 = add_if(a2, f.trigger_type is Some, c3, v3);
    lemma_add_if_binds(a2, f.trigger_type is Some, c3, v3);
    let c4 = |i: nat| search_clause(i);
    let v4 = ParamView::Text(like_pattern(f.search->0@));
    lemma_add_if_binds(a3, f.search is Some, c4, v4);
    assert(task_filter_parts(f) == add_if(a3, f.search is Some, c4, v4));
}

/// An update writes every field the request holds, and only those: the
/// update time is bound first as `updated_at = ?1`, then each present field
/// as `<column> = ?n` with its new value at its own number; the number of
/// values is one more than the number of fields given.
#[verifier::rlimit(60)]
#[verifier::spinoff_prover]
pub proof fn law_update_writes_present_fields(req: UpdateTaskRequest, now: Seq<char>)
    ensures
        ({
            let parts = update_parts(req, now);
            &&& parts.0.len() == parts.1.len()
            &&& parts.1.len() == 1 + (if req.name is Some { 1int } else { 0int })
                + (if req.description is Some { 1int } else { 0int })
                + (if req.trigger_type is Some { 1int } else { 0int })
                + (if req.trigger_expr is Some { 1int } else { 0int })
                + (if req.cron_tz_mode is Some { 1int } else { 0int })
                + (if req.command_config is Some { 1int } else { 0int })
                + (if req.webhook_config is Some { 1int } else { 0int })
                + (if req.enabled is Some { 1int } else { 0int })
                + (if req.max_retries is Some { 1int } else { 0int })
                + (if req.timeout_secs is Some { 1int } else { 0int })
                + (if req.interval_mode is Some { 1int } else { 0int })
            &&& parts.0[0] == eq_clause("updated_at"@, 1) && parts.1[0] == ParamView::Text(now)
            &&& req.name is Some ==> binds(parts, |i: nat| eq_clause("name"@, i), ParamView::Text(req.name->0@))
            &&& req.description is Some ==> binds(parts, |i: nat| eq_clause("description"@, i),
                ParamView::Text(req.description->0@))
            &&& req.trigger_type is Some ==> binds(parts, |i: nat| eq_clause("trigger_type"@, i),
                ParamView::Text(trigger_name(req.trigger_type->0)))
            &&& req.trigger_expr is Some ==> binds(parts, |i: nat| eq_clause("trigger_expr"@, i),
                ParamView::Text(req.trigger_expr->0@))
            &&& req.cron_tz_mode is Some ==> binds(parts, |i: nat| eq_clause("cron_tz_mode"@, i),
                ParamView::Text(req.cron_tz_mode->0@))
            &&& req.command_config is Some ==> binds(parts, |i: nat| eq_clause("command_config"@, i),
                ParamView::Text(req.command_config->0@))
            &&& req.webhook_config is Some ==> binds(parts, |i: nat| eq_clause("webhook_config"@, i),
                ParamView::Text(req.webhook_config->0@))
            &&& req.enabled is Some ==> binds(parts, |i: nat| eq_clause("enabled"@, i),
                ParamView::Integer(if req.enabled->0 { 1 } else { 0 }))
            &&& req.max_retries is Some ==> binds(parts, |i: nat| eq_clause("max_retries"@, i),
                ParamView::Integer(req.max_retries->0 as int))
            &&& req.timeout_secs is Some ==> binds(parts, |i: nat| eq_clause("timeout_secs"@, i),
                ParamView::Integer((req.timeout_secs->0 as i64) as int))
            &&& req.interval_mode is Some ==> binds(parts, |i: nat| eq_clause("interval_mode"@, i),
                ParamView::Text(req.interval_mode->0@))
        }),
{
    let a0 = (seq![eq_clause("updated_at"@, 1)], seq![ParamView::Text(now)]);
    let c1 = |i: nat| eq_clause("name"@, i);
    let a1 = add_if(a0, req.name is Some, c1, text_param(req.name));
    lemma_add_if_binds(a0, req.name is Some, c1, text_param(req.name));
    let c2 = |i: nat| eq_clause("description"@, i);
    let a2 = add_if(a1, req.description is Some, c2, text_param(req.description));
    lemma_add_if_binds(a1, req.description is Some, c2, text_param(req.description));
    let c3 = |i: nat| eq_clause("trigger_type"@, i);
    let v3 = ParamView::Text(trigger_name(req.trigger_type->0));
    let a3 = add_if(a2, req.trigger_type is Some, c3, v3);
    lemma_add_if_binds(a2, req.trigger_type is Some, c3, v3);
    let c4 = |i: nat| eq_clause("trigger_expr"@, i);
    let a4 = add_if(a3, req.trigger_expr is Some, c4, text_param(req.trigger_expr));
    lemma_add_if_binds(a3, req.trigger_expr is Some, c4, text_param(req.trigger_expr));
    let c5 = |i: nat| eq_clause("cron_tz_mode"@, i);
    let a5 = add_if(a4, req.cron_tz_mode is Some, c5, text_param(req.cron_tz_mode));
    lemma_add_if_binds(a4, req.cron_tz_mode is Some, c5, text_param(req.cron_tz_mode));
    let c6 = |i: nat| eq_clause("command_config"@, i);
    let a6 = add_if(a5, req.command_config is Some, c6, text_param(req.command_config));
    lemma_add_if_binds(a5, req.command_config is Some, c6, text_param(req.command_config));
    let c7 = |i: nat| eq_clause("webhook_config"@, i);
    let a7 = add_if(a6, req.webhook_config is Some, c7, text_param(req.webhook_config));
    lemma_add_if_binds(a6, req.webhook_config is Some, c7, text_param(req.webhook_config));
    let c8 = |i: nat| eq_clause("enabled"@, i);
    let v8 = ParamView::Integer(if req.enabled->0 { 1 } else { 0 });
    let a8 = add_if(a7, req.enabled is Some, c8, v8);
    lemma_add_if_binds(a7, req.enabled is Some, c8, v8);
    let c9 = |i: nat| eq_clause("max_retries"@, i);
    let v9 = ParamView::Integer(req.max_retries->0 as int);
    let a9 = add_if(a8, req.max_retries is Some, c9, v9);
    lemma_add_if_binds(a8, req.max_retries is Some, c9, v9);
    let c10 = |i: nat| eq_clause("timeout_secs"@, i);
    let v10 = ParamView::Integer((req.timeout_secs->0 as i64) as int);
    let a10 = add_if(a9, req.timeout_secs is Some, c10, v10);
    lemma_add_if_binds(a9, req.timeout_secs is Some, c10, v10);
    let c11 = |i: nat| eq_clause("interval_mode"@, i);
    lemma_add_if_binds(a10, req.interval_mode is Some, c11, text_param(req.interval_mode));
    let parts = add_if(a10, req.interval_mode is Some, c11, text_param(req.interval_mode));
    assert(update_parts(req, now) == parts);
    assert(parts.0[0] == a0.0[0] && parts.1[0] == a0.1[0]) by {
        assert(a1.0[0] == a0.0[0] && a1.1[0] == a0.1[0]);
        assert(a2.0[0] == a0.0[0] && a2.1[0] == a0.1[0]);
        assert(a3.0[0] == a0.0[0] && a3.1[0] == a0.1[0]);
        assert(a4.0[0] == a0.0[0] && a4.1[0] == a0.1[0]);
        assert(a5.0[0] == a0.0[0] && a5.1[0] == a0.1[0]);
        assert(a6.0[0] == a0.0[0] && a6.1[0] == a0.1[0]);
        assert(a7.0[0] == a0.0[0] && a7.1[0] == a0.1[0]);
        assert(a8.0[0] == a0.0[0] && a8.1[0] == a0.1[0]);
        assert(a9.0[0] == a0.0[0] && a9.1[0] == a0.1[0]);
        assert(a10.0[0] == a0.0[0] && a10.1[0] == a0.1[0]);
    }
}

} // verus!
