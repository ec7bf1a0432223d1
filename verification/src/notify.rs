//! Notifications of finished runs to a Gotify server: when one is sent, to
//! which address, and with which title, message and priority.
use vstd::prelude::*;
use crate::text::{chars_of, concat_strs, int_text, int_to_text, string_of};

verus! {

/// A notification ready to be posted.
#[derive(Debug, Clone)]
pub struct GotifyNotification {
    pub url: String,
    pub token: String,
    pub title: String,
    pub message: String,
    pub priority: u32,
}

/// `s` without its trailing slashes (`str::trim_end_matches('/')`).
pub open spec fn without_trailing_slashes(s: Seq<char>) -> Seq<char>
    decreases s.len(),
{
    if s.len() > 0 && s.last() == '/' {
        without_trailing_slashes(s.drop_last())
    } else {
        s
    }
}

/// The address a notification is posted to: the server without trailing
/// slashes, then `/message?token=` and the application token.
pub open spec fn endpoint(server: Seq<char>, token: Seq<char>) -> Seq<char> {
    without_trailing_slashes(server) + "/message?token="@ + token
}

/// Builds the address a notification is posted to (see [`endpoint`]).
pub fn gotify_endpoint(server: &str, token: &str) -> (r: String)
    ensures
        r@ == endpoint(server@, token@),
{
    let cs = chars_of(server);
    let mut end: usize = cs.len();
    assert(cs@.take(cs@.len() as int) =~= cs@);
    while end > 0 && cs[end - 1] == '/'
        invariant
            end <= cs@.len(),
            without_trailing_slashes(cs@.take(end as int)) == without_trailing_slashes(cs@),
        decreases end,
    {
        assert(cs@.take(end as int).drop_last() =~= cs@.take(end - 1));
        end = end - 1;
    }
    let mut base: Vec<char> = Vec::new();
    let mut i: usize = 0;
    while i < end
        invariant
            i <= end <= cs@.len(),
            base@ == cs@.take(i as int),
        decreases end - i,
    {
        base.push(cs[i]);
        assert(cs@.take(i as int).push(cs@[i as int]) =~= cs@.take(i + 1));
        i = i + 1;
    }
    assert(without_trailing_slashes(cs@.take(end as int)) == cs@.take(end as int));
    let b = string_of(&base);
    let with_path = concat_strs(b.as_str(), "/message?token=");
    concat_strs(with_path.as_str(), token)
}

/// The title of the notification for a run.
pub open spec fn note_title(name: Seq<char>, success: bool) -> Seq<char> {
    if success {
        "Task Success: "@ + name
    } else {
        "Task Failed: "@ + name
    }
}

/// The exit code as the message shows it, `-` when there is none.
pub open spec fn code_text(exit_code: Option<i32>) -> Seq<char> {
    match exit_code {
        Some(c) => int_text(c as int),
        None => "-"@,
    }
}

/// The body of the notification for a run.
pub open spec fn note_message(name: Seq<char>, success: bool, exit_code: Option<i32>) -> Seq<char> {
    if success {
        "Task '"@ + name + "' completed successfully."@
    } else {
        "Task '"@ + name + "' failed with exit code "@ + code_text(exit_code) + "."@
    }
}

/// A notification is sent only when both the server and the token are
/// configured and not empty; a success has priority 5, a failure 8.
pub fn notify_task_result(
    gotify_url: Option<&str>,
    gotify_token: Option<&str>,
    task_name: &str,
    success: bool,
    exit_code: Option<i32>,
) -> (r: Option<GotifyNotification>)
    ensures
        r is Some <==> (gotify_url is Some && gotify_url->0@.len() > 0 && gotify_token is Some
            && gotify_token->0@.len() > 0),
        r matches Some(n) ==> {
            &&& n.url@ == gotify_url->0@
            &&& n.token@ == gotify_token->0@
            &&& n.title@ == note_title(task_name@, success)
            &&& n.message@ == note_message(task_name@, success, exit_code)
            &&& n.priority == (if success { 5u32 } else { 8u32 })
        },
{
    let url = match gotify_url {
        Some(u) => if chars_of(u).len() > 0 {
            u
        } else {
            return None;
        },
        None => return None,
    };
    let token = match gotify_token {
        Some(t) => if chars_of(t).len() > 0 {
            t
        } else {
            return None;
        },
        None => return None,
    };
    let (title, message, priority) = if success {
        let m1 = concat_strs("Task '", task_name);
        (concat_strs("Task Success: ", task_name), concat_strs(m1.as_str(), "' completed successfully."), 5u32)
    } else {
        proof {
            reveal_strlit("-");
        }
        let code = match exit_code {
            Some(c) => int_to_text(c as i64),
            None => "-".to_string(),
        };
        let m1 = concat_strs("Task '", task_name);
        let m2 = concat_strs(m1.as_str(), "' failed with exit code ");
        let m3 = concat_strs(m2.as_str(), code.as_str());
        (concat_strs("Task Failed: ", task_name), concat_strs(m3.as_str(), "."), 8u32)
    };
    Some(GotifyNotification {
        url: url.to_string(),
        token: token.to_string(),
        title,
        message,
        priority,
    })
}

} // verus!
