//! Request policy: who may call the API, how a login is answered, and how
//! failures map to HTTP errors.
use vstd::prelude::*;
use crate::text::{
    chars_of, concat_strs, contains, contains_seq, ends_with, matches_at, occurs_at, split_chars,
    split_seq, str_eq, trim_chars, trimmed,
};
use crate::model::CreateTaskRequest;

verus! {

/// The credential a login request carries.
#[derive(Debug, Clone)]
pub struct LoginBody {
    pub token: String,
}

/// Paths that answer without credentials: login and the auth check.
pub open spec fn open_path(path: Seq<char>) -> bool {
    ||| (path.len() >= "/auth/login"@.len() && path.skip(path.len() - "/auth/login"@.len()) == "/auth/login"@)
    ||| (path.len() >= "/auth/check"@.len() && path.skip(path.len() - "/auth/check"@.len()) == "/auth/check"@)
}

/// The `Authorization` header carries the token as a bearer token.
pub open spec fn bearer_grants(header: Option<Seq<char>>, token: Seq<char>) -> bool {
    header matches Some(h) && h == "Bearer "@ + token
}

/// Some `;`-separated part of the `Cookie` header, trimmed, is `auth_token=<token>`.
pub open spec fn cookie_grants(cookie: Option<Seq<char>>, token: Seq<char>) -> bool {
    match cookie {
        Some(c) => cookie_has(c, token),
        None => false,
    }
}

/// Some `;`-separated part of `c`, trimmed, is `auth_token=<token>`.
pub open spec fn cookie_has(c: Seq<char>, token: Seq<char>) -> bool {
    exists|i: int| 0 <= i < split_seq(c, ';').len() && #[trigger] cookie_part_is(split_seq(c, ';')[i], token)
}

/// A cookie part, trimmed, is `auth_token=<token>`.
pub open spec fn cookie_part_is(part: Seq<char>, token: Seq<char>) -> bool {
    trimmed(part) == "auth_token="@ + token
}

/// A request passes when its path is open, when no token is configured, or
/// when it presents the configured token as a bearer token or in the
/// `auth_token` cookie.
pub open spec fn request_allowed(
    path: Seq<char>,
    expected: Option<Seq<char>>,
    header: Option<Seq<char>>,
    cookie: Option<Seq<char>>,
) -> bool {
    ||| open_path(path)
    ||| expected is None
    ||| bearer_grants(header, expected->0)
    ||| cookie_grants(cookie, expected->0)
}

/// The text of an optional string.
pub open spec fn opt_text(o: Option<&str>) -> Option<Seq<char>> {
    match o {
        Some(s) => Some(s@),
        None => None,
    }
}

proof fn lemma_ends_with_literal(path: Seq<char>, lit: Seq<char>)
    requires
        lit.len() <= path.len(),
    ensures
        occurs_at(path, path.len() - lit.len(), lit) == (path.skip(path.len() - lit.len()) == lit),
{
    assert(path.subrange(path.len() - lit.len(), path.len() as int) =~= path.skip(path.len() - lit.len()));
}

fn cookie_has_token(cookie: &str, token: &str) -> (r: bool)
    ensures
        r == cookie_grants(Some(cookie@), token@),
{
    proof {
        reveal_strlit("auth_token=");
    }
    let want = concat_strs("auth_token=", token);
    let want_c = chars_of(want.as_str());
    let parts = split_chars(&chars_of(cookie), ';');
    let ghost sp = split_seq(cookie@, ';');
    let mut i: usize = 0;
    while i < parts.len()
        invariant
            i <= parts@.len(),
            parts@.len() == sp.len(),
            sp == split_seq(cookie@, ';'),
            forall|j: int| 0 <= j < parts@.len() ==> #[trigger] parts@[j]@ == sp[j],
            want_c@ == "auth_token="@ + token@,
            forall|j: int| 0 <= j < i ==> !#[trigger] cookie_part_is(sp[j], token@),
        decreases parts@.len() - i,
    {
        let part = trim_chars(&parts[i]);
        let same = part.len() == want_c.len() && matches_at(&part, 0, &want_c);
        proof {
            assert(part@ == trimmed(sp[i as int]));
            if part.len() == want_c.len() {
                assert(part@.subrange(0, part@.len() as int) =~= part@);
            }
        }
        if same {
            assert(cookie_part_is(split_seq(cookie@, ';')[i as int], token@));
            assert(cookie_has(cookie@, token@));
            return true;
        }
        i = i + 1;
    }
    false
}

/// Decides whether a request may reach the API.
pub fn authorize(path: &str, expected: Option<&str>, header: Option<&str>, cookie: Option<&str>) -> (r: bool)
    ensures
        r == request_allowed(path@, opt_text(expected), opt_text(header), opt_text(cookie)),
{
    proof {
        reveal_strlit("/auth/login");
        reveal_strlit("/auth/check");
        reveal_strlit("Bearer ");
        if "/auth/login"@.len() <= path@.len() {
            lemma_ends_with_literal(path@, "/auth/login"@);
        }
        if "/auth/check"@.len() <= path@.len() {
            lemma_ends_with_literal(path@, "/auth/check"@);
        }
    }
    if ends_with(path, "/auth/login") || ends_with(path, "/auth/check") {
        return true;
    }
    let token = match expected {
        None => return true,
        Some(t) => t,
    };
    if let Some(h) = header {
        let want = concat_strs("Bearer ", token);
        if str_eq(h, want.as_str()) {
            return true;
        }
    }
    match cookie {
        Some(c) => cookie_has_token(c, token),
        None => false,
    }
}

/// Without a configured token every request passes; with one, the open paths
/// still pass, the right bearer token passes, and a request that presents no
/// credential at all is refused elsewhere.
pub proof fn law_access_policy(
    path: Seq<char>,
    token: Seq<char>,
    header: Option<Seq<char>>,
    cookie: Option<Seq<char>>,
)
    ensures
        request_allowed(path, None, header, cookie),
        open_path(path) ==> request_allowed(path, Some(token), header, cookie),
        request_allowed(path, Some(token), Some("Bearer "@ + token), cookie),
        !open_path(path) ==> !request_allowed(path, Some(token), None, None),
{
}

/// How a login request is answered.
#[derive(Debug, Clone, Copy, PartialEq, Eq, Structural)]
pub enum LoginOutcome {
    /// The token matches: `Login successful`.
    Accepted,
    /// No token is configured: `Auth not configured`.
    NotConfigured,
    /// A token is configured and this is not it (401).
    Rejected,
}

/// The answer to a login with `provided` when `expected` is configured.
pub open spec fn login_answer(expected: Option<Seq<char>>, provided: Seq<char>) -> LoginOutcome {
    match expected {
        Some(e) => if provided == e {
            LoginOutcome::Accepted
        } else {
            LoginOutcome::Rejected
        },
        None => LoginOutcome::NotConfigured,
    }
}

/// Answers a login request.
pub fn login_outcome(expected: Option<&str>, body: &LoginBody) -> (r: LoginOutcome)
    ensures
        r == login_answer(opt_text(expected), body.token@),
{
    match expected {
        Some(e) => if str_eq(body.token.as_str(), e) {
            LoginOutcome::Accepted
        } else {
            LoginOutcome::Rejected
        },
        None => LoginOutcome::NotConfigured,
    }
}

impl LoginOutcome {
    /// The message of an answered login, `None` for a rejected one.
    pub fn message(&self) -> (r: Option<&'static str>)
        ensures
            *self == LoginOutcome::Accepted ==> (r matches Some(m) && m@ == "Login successful"@),
            *self == LoginOutcome::NotConfigured ==> (r matches Some(m) && m@ == "Auth not configured"@),
            *self == LoginOutcome::Rejected ==> r is None,
    {
        match self {
            LoginOutcome::Accepted => Some("Login successful"),
            LoginOutcome::NotConfigured => Some("Auth not configured"),
            LoginOutcome::Rejected => None,
        }
    }
}

/// Whether the API asks for credentials: exactly when a token is configured.
pub fn auth_required(expected: Option<&str>) -> (r: bool)
    ensures
        r == expected is Some,
{
    expected.is_some()
}

/// An API error: an HTTP status and a message.
#[derive(Debug, Clone)]
pub struct AppError {
    pub status: u16,
    pub message: String,
}

impl AppError {
    /// An internal failure (500) with its message.
    pub fn internal(e: &str) -> (r: AppError)
        ensures
            r.status == 500 && r.message@ == e@,
    {
        AppError { status: 500, message: e.to_string() }
    }

    /// A missing resource (404).
    pub fn not_found(msg: &str) -> (r: AppError)
        ensures
            r.status == 404 && r.message@ == msg@,
    {
        AppError { status: 404, message: msg.to_string() }
    }

    /// A malformed request (400).
    pub fn bad_request(e: &str) -> (r: AppError)
        ensures
            r.status == 400 && r.message@ == e@,
    {
        AppError { status: 400, message: e.to_string() }
    }

    /// A conflicting change (409).
    pub fn conflict(msg: &str) -> (r: AppError)
        ensures
            r.status == 409 && r.message@ == msg@,
    {
        AppError { status: 409, message: msg.to_string() }
    }

    /// The scheduler cannot be reached (503).
    pub fn unavailable(msg: &str) -> (r: AppError)
        ensures
            r.status == 503 && r.message@ == msg@,
    {
        AppError { status: 503, message: msg.to_string() }
    }
}

/// The error for a failed insert or update of a task: a broken uniqueness
/// constraint means the name is taken (409), anything else is internal (500).
pub fn write_error(message: &str) -> (r: AppError)
    ensures
        contains_seq(message@, "UNIQUE"@) ==> r.status == 409 && r.message@ == "Task name already exists"@,
        !contains_seq(message@, "UNIQUE"@) ==> r.status == 500 && r.message@ == message@,
{
    if contains(message, "UNIQUE") {
        AppError::conflict("Task name already exists")
    } else {
        AppError::internal(message)
    }
}

/// A task must run a command, call a webhook, or both: a creation request
/// that configures neither is refused (400).
pub fn check_create_request(req: &CreateTaskRequest) -> (r: Result<(), AppError>)
    ensures
        r is Ok <==> (req.command_config is Some || req.webhook_config is Some),
        r matches Err(e) ==> e.status == 400
            && e.message@ == "Either command_config or webhook_config is required"@,
{
    if req.command_config.is_some() || req.webhook_config.is_some() {
        Ok(())
    } else {
        Err(AppError::bad_request("Either command_config or webhook_config is required"))
    }
}

/// A task that was looked up, or `Task not found` (404).
pub fn found_or_not_found<T>(found: Option<T>) -> (r: Result<T, AppError>)
    ensures
        found is Some ==> r == Ok::<T, AppError>(found->0),
        found is None ==> (r matches Err(e) && e.status == 404 && e.message@ == "Task not found"@),
{
    match found {
        Some(t) => Ok(t),
        None => Err(AppError::not_found("Task not found")),
    }
}

/// The answer to a deletion: 204 when a task was deleted, `Task not found` otherwise.
pub fn delete_outcome(deleted: bool) -> (r: Result<u16, AppError>)
    ensures
        deleted ==> r == Ok::<u16, AppError>(204),
        !deleted ==> (r matches Err(e) && e.status == 404 && e.message@ == "Task not found"@),
{
    if deleted {
        Ok(204)
    } else {
        Err(AppError::not_found("Task not found"))
    }
}

} // verus!
