//! What a run computes around its command and webhook: the timeout, the shell
//! line, the webhook body rendered from the command's result, and how the
//! outcome of each step becomes the run's output or error.
use vstd::prelude::*;
use crate::text::{
    append_chars, chars_of, concat_strs, contains_seq, eq_ignore_ascii_case, eq_ignore_ascii_case_seq,
    has_no, int_text, int_to_text, lemma_int_text_no_brace, lemma_not_contained, lemma_replace_absent,
    lemma_replace_missing_start, lemma_replace_whole, nat_text, nat_to_text, push_char, replace,
    replace_seq, string_of,
};

verus! {

/// How a command is started: a program, its arguments, extra environment
/// variables and an optional working directory.
#[derive(Debug, Clone)]
pub struct CommandConfig {
    pub program: String,
    pub args: Vec<String>,
    pub env: Vec<(String, String)>,
    pub working_dir: Option<String>,
}

/// Where and how a webhook is sent.
#[derive(Debug, Clone)]
pub struct WebhookConfig {
    pub url: String,
    pub method: String,
    pub body: Option<String>,
    pub headers: Vec<(String, String)>,
}

/// What a command (or a webhook) produced.
#[derive(Debug, Clone)]
pub struct TaskOutput {
    pub exit_code: Option<i32>,
    pub stdout: Option<String>,
    pub stderr: Option<String>,
}

/// What a webhook body may refer to: the task's name and the command's output.
#[derive(Debug, Clone)]
pub struct TaskContext {
    pub task_name: String,
    pub cmd_output: Option<TaskOutput>,
}

/// The method a webhook uses when its configuration names none.
pub fn default_method() -> (r: String)
    ensures
        r@ == "GET"@,
{
    "GET".to_string()
}

/// `success` for an exit code of zero, `failed` otherwise (no code included).
pub open spec fn status_text(exit_code: Option<i32>) -> Seq<char> {
    if exit_code == Some(0i32) {
        "success"@
    } else {
        "failed"@
    }
}

impl TaskOutput {
    /// Whether the command succeeded, in the words the webhook body uses.
    pub fn status_str(&self) -> (r: &'static str)
        ensures
            r@ == status_text(self.exit_code),
    {
        match self.exit_code {
            Some(c) => if c == 0 {
                "success"
            } else {
                "failed"
            },
            None => "failed",
        }
    }
}

/// A hexadecimal digit in lower case (`0 <= d < 16`).
pub open spec fn hex_char(d: int) -> char {
    if d < 10 {
        ((d + 48) as u32) as char
    } else {
        ((d + 87) as u32) as char
    }
}

/// How one character is written inside a JSON string.
pub open spec fn escape_char(c: char) -> Seq<char> {
    if c == '"' {
        seq!['\\', '"']
    } else if c == '\\' {
        seq!['\\', '\\']
    } else if c == '\n' {
        seq!['\\', 'n']
    } else if c == '\r' {
        seq!['\\', 'r']
    } else if c == '\t' {
        seq!['\\', 't']
    } else if (c as u32) < 0x20 {
        seq!['\\', 'u', '0', '0', hex_char(((c as u32) / 16) as int), hex_char(((c as u32) % 16) as int)]
    } else {
        seq![c]
    }
}

/// A text written as the inside of a JSON string.
pub open spec fn json_escaped(s: Seq<char>) -> Seq<char>
    decreases s.len(),
{
    if s.len() == 0 {
        s
    } else {
        json_escaped(s.drop_last()) + escape_char(s.last())
    }
}

fn hex_of(d: u32) -> (c: char)
    requires
        d < 16,
    ensures
        c == hex_char(d as int),
{
    let b: u8 = if d < 10 {
        (d + 48) as u8
    } else {
        (d + 87) as u8
    };
    b as char
}

fn escape_into(c: char, out: &mut Vec<char>)
    ensures
        final(out)@ == old(out)@ + escape_char(c),
{
    let ghost before = out@;
    if c == '"' {
        out.push('\\');
        out.push('"');
    } else if c == '\\' {
        out.push('\\');
        out.push('\\');
    } else if c == '\n' {
        out.push('\\');
        out.push('n');
    } else if c == '\r' {
        out.push('\\');
        out.push('r');
    } else if c == '\t' {
        out.push('\\');
        out.push('t');
    } else if (c as u32) < 0x20 {
        let v = c as u32;
        out.push('\\');
        out.push('u');
        out.push('0');
        out.push('0');
        out.push(hex_of(v / 16));
        out.push(hex_of(v % 16));
    } else {
        out.push(c);
    }
    assert(out@ =~= before + escape_char(c));
}

/// Writes a text as the inside of a JSON string: quotes, backslashes and
/// control characters are escaped, everything else is kept.
pub fn json_escape(s: &str) -> (r: String)
    ensures
        r@ == json_escaped(s@),
{
    let cs = chars_of(s);
    let mut out: Vec<char> = Vec::new();
    let mut i: usize = 0;
    while i < cs.len()
        invariant
            i <= cs.len(),
            out@ == json_escaped(cs@.take(i as int)),
        decreases cs.len() - i,
    {
        let ghost t = cs@.take(i + 1);
        assert(t.drop_last() =~= cs@.take(i as int));
        escape_into(cs[i], &mut out);
        i = i + 1;
    }
    assert(cs@.take(cs.len() as int) =~= cs@);
    string_of(&out)
}

/// Escaped text holds no raw control character, so it can stand inside a JSON string.
pub proof fn law_escaped_has_no_control_chars(s: Seq<char>)
    ensures
        forall|i: int| 0 <= i < json_escaped(s).len() ==> (#[trigger] json_escaped(s)[i] as u32) >= 0x20,
    decreases s.len(),
{
    if s.len() > 0 {
        law_escaped_has_no_control_chars(s.drop_last());
        let a = json_escaped(s.drop_last());
        let b = escape_char(s.last());
        assert(json_escaped(s) == a + b);
        assert forall|i: int| 0 <= i < b.len() implies (#[trigger] b[i] as u32) >= 0x20 by {
            let c = s.last();
            if (c as u32) < 0x20 && c != '\n' && c != '\r' && c != '\t' {
                let v = c as u32;
                assert(v / 16 < 2);
                assert(v % 16 < 16);
            }
        }
        assert forall|i: int| 0 <= i < json_escaped(s).len() implies (#[trigger] json_escaped(s)[i] as u32) >= 0x20 by {
            if i < a.len() {
                assert(json_escaped(s)[i] == a[i]);
            } else {
                assert(json_escaped(s)[i] == b[i - a.len()]);
            }
        }
    }
}

/// The value of a hexadecimal digit in either case, or -1.
pub open spec fn hex_value(c: char) -> int {
    if '0' <= c && c <= '9' {
        c as int - 48
    } else if 'a' <= c && c <= 'f' {
        c as int - 87
    } else if 'A' <= c && c <= 'F' {
        c as int - 55
    } else {
        -1
    }
}

/// Four hexadecimal digits.
pub open spec fn is_hex4(t: Seq<char>) -> bool {
    t.len() == 4 && hex_value(t[0]) >= 0 && hex_value(t[1]) >= 0 && hex_value(t[2]) >= 0
        && hex_value(t[3]) >= 0
}

/// The number four hexadecimal digits denote.
pub open spec fn hex4_value(t: Seq<char>) -> int {
    hex_value(t[0]) * 4096 + hex_value(t[1]) * 256 + hex_value(t[2]) * 16 + hex_value(t[3])
}

/// The character a one-letter JSON escape (`\"`, `\\`, `\/`, `\b`, `\f`,
/// `\n`, `\r`, `\t`) stands for.
pub open spec fn json_simple_escape(e: char) -> Option<char> {
    if e == '"' {
        Some('"')
    } else if e == '\\' {
        Some('\\')
    } else if e == '/' {
        Some('/')
    } else if e == 'b' {
        Some('\x08')
    } else if e == 'f' {
        Some('\x0c')
    } else if e == 'n' {
        Some('\n')
    } else if e == 'r' {
        Some('\r')
    } else if e == 't' {
        Some('\t')
    } else {
        None
    }
}

/// A character put in front of a decoded text, when there is one.
pub open spec fn prepend_char(c: char, r: Option<Seq<char>>) -> Option<Seq<char>> {
    match r {
        Some(x) => Some(seq![c] + x),
        None => None,
    }
}

/// The text that the inside of a JSON string denotes (RFC 8259, section 7),
/// or `None` when it is not a valid inside: a raw quote or control character,
/// an unknown escape, or a lone surrogate.
pub open spec fn json_string_value(t: Seq<char>) -> Option<Seq<char>>
    decreases t.len(),
{
    if t.len() == 0 {
        Some(Seq::empty())
    } else if t[0] == '\\' {
        if t.len() < 2 {
            None
        } else if json_simple_escape(t[1]) is Some {
            prepend_char(json_simple_escape(t[1])->0, json_string_value(t.skip(2)))
        } else if t[1] == 'u' && t.len() >= 6 && is_hex4(t.subrange(2, 6)) {
            let v = hex4_value(t.subrange(2, 6));
            if 0xD800 <= v <= 0xDBFF {
                if t.len() >= 12 && t[6] == '\\' && t[7] == 'u' && is_hex4(t.subrange(8, 12))
                    && 0xDC00 <= hex4_value(t.subrange(8, 12)) <= 0xDFFF {
                    let w = hex4_value(t.subrange(8, 12));
                    prepend_char(
                        (0x10000 + (v - 0xD800) * 1024 + (w - 0xDC00)) as char,
                        json_string_value(t.skip(12)),
                    )
                } else {
                    None
                }
            } else if 0xDC00 <= v <= 0xDFFF {
                None
            } else {
                prepend_char(v as char, json_string_value(t.skip(6)))
            }
        } else {
            None
        }
    } else if t[0] == '"' || (t[0] as u32) < 0x20 {
        None
    } else {
        prepend_char(t[0], json_string_value(t.skip(1)))
    }
}

proof fn lemma_escaped_prepend(c: char, s: Seq<char>)
    ensures
        json_escaped(seq![c] + s) == escape_char(c) + json_escaped(s),
    decreases s.len(),
{
    if s.len() == 0 {
        assert(seq![c] + s =~= seq![c]);
        assert(seq![c].drop_last() =~= Seq::<char>::empty());
        assert(json_escaped(seq![c]) == json_escaped(Seq::<char>::empty()) + escape_char(c));
        assert(escape_char(c) + json_escaped(s) =~= escape_char(c));
        assert(json_escaped(Seq::<char>::empty()) + escape_char(c) =~= escape_char(c));
    } else {
        let t = seq![c] + s;
        assert(t.drop_last() =~= seq![c] + s.drop_last());
        assert(t.last() == s.last());
        lemma_escaped_prepend(c, s.drop_last());
        assert(json_escaped(t) == json_escaped(t.drop_last()) + escape_char(t.last()));
        assert(json_escaped(s) == json_escaped(s.drop_last()) + escape_char(s.last()));
        assert(json_escaped(t) =~= escape_char(c) + json_escaped(s));
    }
}

proof fn lemma_hex_round_trip(d: int)
    requires
        0 <= d < 16,
    ensures
        hex_value(hex_char(d)) == d,
{
}

proof fn lemma_escape_char_decodes(c: char, rest: Seq<char>)
    ensures
        json_string_value(escape_char(c) + rest) == prepend_char(c, json_string_value(rest)),
{
    let t = escape_char(c) + rest;
    if c == '"' || c == '\\' || c == '\n' || c == '\r' || c == '\t' {
        assert(t[0] == '\\');
        assert(t.skip(2) =~= rest);
    } else if (c as u32) < 0x20 {
        let v = c as u32;
        let hi = (v / 16) as int;
        let lo = (v % 16) as int;
        lemma_hex_round_trip(hi);
        lemma_hex_round_trip(lo);
        assert(t[0] == '\\');
        assert(t[1] == 'u');
        assert(t.subrange(2, 6) =~= seq!['0', '0', hex_char(hi), hex_char(lo)]);
        assert(hex4_value(t.subrange(2, 6)) == hi * 16 + lo);
        assert(hi * 16 + lo == v as int);
        assert(t.skip(6) =~= rest);
        assert((v as int) as char == c);
    } else {
        assert(t[0] == c);
        assert(t.skip(1) =~= rest);
    }
}

/// What `json_escape` writes is the inside of a JSON string that denotes
/// exactly the text it was given: a JSON reader gives the text back.
pub proof fn law_escape_round_trip(s: Seq<char>)
    ensures
        json_string_value(json_escaped(s)) == Some(s),
    decreases s.len(),
{
    if s.len() == 0 {
    } else {
        let c = s[0];
        let rest = s.skip(1);
        assert(s =~= seq![c] + rest);
        lemma_escaped_prepend(c, rest);
        lemma_escape_char_decodes(c, json_escaped(rest));
        law_escape_round_trip(rest);
        assert(seq![c] + rest =~= s);
    }
}

/// The text `{{exit_code}}` in a webhook body is replaced by.
pub open spec fn exit_code_text(c: Option<i32>) -> Seq<char> {
    match c {
        Some(v) => int_text(v as int),
        None => "-"@,
    }
}

/// The text an optional output stands for: itself, or nothing.
pub open spec fn output_text(o: Option<String>) -> Seq<char> {
    match o {
        Some(s) => s@,
        None => Seq::empty(),
    }
}

/// A webhook body with its placeholders filled in: the command's exit code,
/// output, error output and status (or `-`, nothing, nothing and `success`
/// without a command), then the task's name. Outputs and the name are
/// JSON-escaped; each placeholder is replaced in that order.
pub open spec fn rendered(template: Seq<char>, ctx: TaskContext) -> Seq<char> {
    let filled = match ctx.cmd_output {
        Some(cmd) => {
            let r1 = replace_seq(template, "{{exit_code}}"@, exit_code_text(cmd.exit_code));
            let r2 = replace_seq(r1, "{{stdout}}"@, json_escaped(output_text(cmd.stdout)));
            let r3 = replace_seq(r2, "{{stderr}}"@, json_escaped(output_text(cmd.stderr)));
            replace_seq(r3, "{{status}}"@, status_text(cmd.exit_code))
        },
        None => {
            let r1 = replace_seq(template, "{{exit_code}}"@, "-"@);
            let r2 = replace_seq(r1, "{{stdout}}"@, Seq::empty());
            let r3 = replace_seq(r2, "{{stderr}}"@, Seq::empty());
            replace_seq(r3, "{{status}}"@, "success"@)
        },
    };
    replace_seq(filled, "{{task_name}}"@, json_escaped(ctx.task_name@))
}

fn option_text(o: &Option<String>) -> (r: &str)
    ensures
        r@ == output_text(*o),
{
    proof {
        reveal_strlit("");
    }
    match o {
        Some(s) => s.as_str(),
        None => "",
    }
}

/// Fills the placeholders of a webhook body (see [`rendered`]).
pub fn render_template(template: &str, ctx: &TaskContext) -> (r: String)
    ensures
        r@ == rendered(template@, *ctx),
{
    proof {
        reveal_strlit("{{exit_code}}");
        reveal_strlit("{{stdout}}");
        reveal_strlit("{{stderr}}");
        reveal_strlit("{{status}}");
        reveal_strlit("{{task_name}}");
        reveal_strlit("");
        reveal_strlit("-");
        assert(""@ =~= Seq::<char>::empty());
    }
    let filled = match &ctx.cmd_output {
        Some(cmd) => {
            let code = match cmd.exit_code {
                Some(c) => int_to_text(c as i64),
                None => "-".to_string(),
            };
            assert(code@ == exit_code_text(cmd.exit_code));
            let r1 = replace(template, "{{exit_code}}", code.as_str());
            let out = json_escape(option_text(&cmd.stdout));
            let r2 = replace(r1.as_str(), "{{stdout}}", out.as_str());
            let err = json_escape(option_text(&cmd.stderr));
            let r3 = replace(r2.as_str(), "{{stderr}}", err.as_str());
            let r4 = replace(r3.as_str(), "{{status}}", cmd.status_str());
            r4
        },
        None => {
            let r1 = replace(template, "{{exit_code}}", "-");
            let r2 = replace(r1.as_str(), "{{stdout}}", "");
            let r3 = replace(r2.as_str(), "{{stderr}}", "");
            replace(r3.as_str(), "{{status}}", "success")
        },
    };
    let name = json_escape(ctx.task_name.as_str());
    replace(filled.as_str(), "{{task_name}}", name.as_str())
}

/// A body that holds none of the placeholders is sent exactly as written.
pub proof fn law_plain_body_unchanged(template: Seq<char>, ctx: TaskContext)
    requires
        !contains_seq(template, "{{exit_code}}"@),
        !contains_seq(template, "{{stdout}}"@),
        !contains_seq(template, "{{stderr}}"@),
        !contains_seq(template, "{{status}}"@),
        !contains_seq(template, "{{task_name}}"@),
    ensures
        rendered(template, ctx) == template,
{
    reveal_strlit("{{exit_code}}");
    reveal_strlit("{{stdout}}");
    reveal_strlit("{{stderr}}");
    reveal_strlit("{{status}}");
    reveal_strlit("{{task_name}}");
    reveal_strlit("-");
    reveal_strlit("success");
    reveal_strlit("failed");
    match ctx.cmd_output {
        Some(cmd) => {
            lemma_replace_absent(template, "{{exit_code}}"@, exit_code_text(cmd.exit_code));
            lemma_replace_absent(template, "{{stdout}}"@, json_escaped(output_text(cmd.stdout)));
            lemma_replace_absent(template, "{{stderr}}"@, json_escaped(output_text(cmd.stderr)));
            lemma_replace_absent(template, "{{status}}"@, status_text(cmd.exit_code));
        },
        None => {
            lemma_replace_absent(template, "{{exit_code}}"@, "-"@);
            lemma_replace_absent(template, "{{stdout}}"@, Seq::empty());
            lemma_replace_absent(template, "{{stderr}}"@, Seq::empty());
            lemma_replace_absent(template, "{{status}}"@, "success"@);
        },
    }
    lemma_replace_absent(template, "{{task_name}}"@, json_escaped(ctx.task_name@));
}

/// The timeout of a run in seconds: the task's own, or the default.
pub fn effective_timeout_secs(timeout_secs: Option<u64>, default_secs: u64) -> (r: u64)
    ensures
        r == (match timeout_secs {
            Some(t) => t,
            None => default_secs,
        }),
{
    match timeout_secs {
        Some(t) => t,
        None => default_secs,
    }
}

/// Parts joined by a separator.
pub open spec fn joined(parts: Seq<Seq<char>>, sep: Seq<char>) -> Seq<char>
    decreases parts.len(),
{
    if parts.len() == 0 {
        Seq::empty()
    } else if parts.len() == 1 {
        parts[0]
    } else {
        joined(parts.drop_last(), sep) + sep + parts.last()
    }
}

/// The texts of a list of strings.
pub open spec fn texts(v: Seq<String>) -> Seq<Seq<char>> {
    v.map_values(|s: String| s@)
}

/// Joins strings with a separator (`[String]::join`).
pub fn join(parts: &Vec<String>, sep: &str) -> (r: String)
    ensures
        r@ == joined(texts(parts@), sep@),
{
    let sepc = chars_of(sep);
    let mut out: Vec<char> = Vec::new();
    let mut i: usize = 0;
    while i < parts.len()
        invariant
            i <= parts.len(),
            sepc@ == sep@,
            out@ == joined(texts(parts@.take(i as int)), sep@),
        decreases parts.len() - i,
    {
        let ghost prev = texts(parts@.take(i as int));
        let ghost next = texts(parts@.take(i + 1));
        assert(next.drop_last() =~= prev);
        assert(next.last() == parts@[i as int]@);
        if i > 0 {
            append_chars(&mut out, &sepc);
        }
        let p = chars_of(parts[i].as_str());
        append_chars(&mut out, &p);
        proof {
            if i == 0 {
                assert(out@ =~= next[0]);
            } else {
                assert(out@ =~= joined(prev, sep@) + sep@ + next.last());
            }
        }
        i = i + 1;
    }
    assert(parts@.take(parts.len() as int) =~= parts@);
    string_of(&out)
}

/// How a command is started: the program itself, with exactly its argument
/// list. No shell reads either, so nothing in them is split, expanded or
/// interpreted; the environment and working directory are the config's own.
pub fn command_invocation(config: &CommandConfig) -> (r: (String, Vec<String>))
    ensures
        r.0@ == config.program@,
        r.1@ == config.args@,
        texts(r.1@) == texts(config.args@),
{
    let mut args: Vec<String> = Vec::new();
    let mut i: usize = 0;
    while i < config.args.len()
        invariant
            i <= config.args.len(),
            args@.len() == i,
            forall|j: int| 0 <= j < i ==> args@[j] == config.args@[j],
        decreases config.args.len() - i,
    {
        args.push(config.args[i].clone());
        i = i + 1;
    }
    assert(args@ =~= config.args@);
    (config.program.clone(), args)
}

/// Whether a header of that name sets the content type, in any case.
pub open spec fn names_content_type(headers: Seq<(String, String)>) -> bool {
    exists|i: int| 0 <= i < headers.len() && eq_ignore_ascii_case_seq(#[trigger] headers[i].0@, "content-type"@)
}

/// Whether a webhook with a body must be given `Content-Type: application/json`:
/// only when no header of its own sets the content type.
pub fn needs_json_content_type(config: &WebhookConfig) -> (r: bool)
    ensures
        r == (config.body is Some && !names_content_type(config.headers@)),
{
    if config.body.is_none() {
        return false;
    }
    let mut i: usize = 0;
    while i < config.headers.len()
        invariant
            i <= config.headers.len(),
            forall|j: int| 0 <= j < i ==> !eq_ignore_ascii_case_seq(#[trigger] config.headers@[j].0@, "content-type"@),
        decreases config.headers.len() - i,
    {
        if eq_ignore_ascii_case(config.headers[i].0.as_str(), "content-type") {
            return false;
        }
        i = i + 1;
    }
    true
}

/// The outcome of a webhook: a status of 400 or more fails with
/// `Webhook returned status <status>: <body>`; otherwise exit code 0 and the
/// response body as output.
pub fn webhook_outcome(status: u16, body: String) -> (r: Result<TaskOutput, String>)
    ensures
        status >= 400 ==> (r matches Err(e) && e@ == "Webhook returned status "@ + nat_text(
            status as nat,
        ) + ": "@ + body@),
        status < 400 ==> (r matches Ok(o) && o.exit_code == Some(0i32) && o.stdout == Some(body)
            && o.stderr is None),
{
    if status >= 400 {
        let code = nat_to_text(status as u64);
        let a = concat_strs("Webhook returned status ", code.as_str());
        let b = concat_strs(a.as_str(), ": ");
        Err(concat_strs(b.as_str(), body.as_str()))
    } else {
        Ok(TaskOutput { exit_code: Some(0), stdout: Some(body), stderr: None })
    }
}

/// What a run returns once its steps are done: the command's output when a
/// command ran; exit code 0 when only a webhook ran; otherwise the error
/// `No command or webhook configured for task`.
pub fn execution_result(cmd_output: Option<TaskOutput>, has_webhook: bool) -> (r: Result<TaskOutput, String>)
    ensures
        cmd_output is Some ==> r == Ok::<TaskOutput, String>(cmd_output->0),
        cmd_output is None && has_webhook ==> (r matches Ok(o) && o.exit_code == Some(0i32)
            && o.stdout is None && o.stderr is None),
        cmd_output is None && !has_webhook ==> (r matches Err(e) && e@
            == "No command or webhook configured for task"@),
{
    match cmd_output {
        Some(o) => Ok(o),
        None => if has_webhook {
            Ok(TaskOutput { exit_code: Some(0), stdout: None, stderr: None })
        } else {
            Err("No command or webhook configured for task".to_string())
        },
    }
}

proof fn lemma_escaped_no_brace(s: Seq<char>)
    requires
        has_no(s, '{'),
    ensures
        has_no(json_escaped(s), '{'),
    decreases s.len(),
{
    if s.len() > 0 {
        lemma_escaped_no_brace(s.drop_last());
        let a = json_escaped(s.drop_last());
        let c = s.last();
        let b = escape_char(c);
        assert(c != '{') by {
            assert(s[s.len() - 1] == c);
        }
        assert forall|i: int| 0 <= i < b.len() implies b[i] != '{' by {
            if (c as u32) < 0x20 && c != '\n' && c != '\r' && c != '\t' {
                let v = c as u32;
                assert(v / 16 < 2);
                assert(v % 16 < 16);
            }
        }
        assert(json_escaped(s) == a + b);
        assert forall|i: int| 0 <= i < json_escaped(s).len() implies json_escaped(s)[i] != '{' by {
            if i < a.len() {
                assert(json_escaped(s)[i] == a[i]);
            } else {
                assert(json_escaped(s)[i] == b[i - a.len()]);
            }
        }
    }
}

/// No placeholder occurs in another one, so replacing one leaves the others
/// as they are.
proof fn lemma_placeholders_distinct()
    ensures
        !contains_seq("{{stdout}}"@, "{{exit_code}}"@),
        !contains_seq("{{stderr}}"@, "{{exit_code}}"@),
        !contains_seq("{{status}}"@, "{{exit_code}}"@),
        !contains_seq("{{task_name}}"@, "{{exit_code}}"@),
        !contains_seq("{{stderr}}"@, "{{stdout}}"@),
        !contains_seq("{{status}}"@, "{{stdout}}"@),
        !contains_seq("{{task_name}}"@, "{{stdout}}"@),
        !contains_seq("{{status}}"@, "{{stderr}}"@),
        !contains_seq("{{task_name}}"@, "{{stderr}}"@),
        !contains_seq("{{task_name}}"@, "{{status}}"@),
        "{{exit_code}}"@.len() > 0 && "{{exit_code}}"@[0] == '{',
        "{{stdout}}"@.len() > 0 && "{{stdout}}"@[0] == '{',
        "{{stderr}}"@.len() > 0 && "{{stderr}}"@[0] == '{',
        "{{status}}"@.len() > 0 && "{{status}}"@[0] == '{',
        "{{task_name}}"@.len() > 0 && "{{task_name}}"@[0] == '{',
{
    reveal_strlit("{{exit_code}}");
    reveal_strlit("{{stdout}}");
    reveal_strlit("{{stderr}}");
    reveal_strlit("{{status}}");
    reveal_strlit("{{task_name}}");
    lemma_not_contained("{{stdout}}"@, "{{exit_code}}"@, 2);
    lemma_not_contained("{{stderr}}"@, "{{exit_code}}"@, 2);
    lemma_not_contained("{{status}}"@, "{{exit_code}}"@, 2);
    lemma_not_contained("{{task_name}}"@, "{{exit_code}}"@, 2);
    lemma_not_contained("{{stderr}}"@, "{{stdout}}"@, 5);
    lemma_not_contained("{{status}}"@, "{{stdout}}"@, 4);
    lemma_not_contained("{{status}}"@, "{{stderr}}"@, 4);
    let name = "{{task_name}}"@;
    assert forall|i: int| 1 <= i && i + 10 <= name.len() implies #[trigger] name[i] != '{' || name[i + 1] != '{' by {
        if i == 1 {
            assert(name[2] == 't');
        } else if i == 2 {
            assert(name[2] == 't');
        } else {
            assert(name[3] == 'a');
        }
    }
    lemma_not_contained(name, "{{stdout}}"@, 2);
    lemma_not_contained(name, "{{stderr}}"@, 2);
    lemma_not_contained(name, "{{status}}"@, 2);
}

/// A short literal without `{` is untouched by a placeholder.
proof fn lemma_literal_untouched(s: Seq<char>, p: Seq<char>, r: Seq<char>)
    requires
        p.len() >= 2,
        p[0] == '{',
        p[1] == '{',
        0 < s.len() <= p.len(),
        s[0] != '{',
    ensures
        replace_seq(s, p, r) == s,
{
    lemma_not_contained(s, p, 0);
    lemma_replace_absent(s, p, r);
}

/// `{{task_name}}` in a body stands for the task's name written inside a JSON
/// string: a JSON reader gives back exactly the name.
pub proof fn law_task_name_placeholder(ctx: TaskContext)
    ensures
        json_string_value(rendered("{{task_name}}"@, ctx)) == Some(ctx.task_name@),
{
    lemma_placeholders_distinct();
    let t = "{{task_name}}"@;
    let (x, o, e, st) = match ctx.cmd_output {
        Some(cmd) => (exit_code_text(cmd.exit_code), json_escaped(output_text(cmd.stdout)),
            json_escaped(output_text(cmd.stderr)), status_text(cmd.exit_code)),
        None => ("-"@, Seq::<char>::empty(), Seq::<char>::empty(), "success"@),
    };
    lemma_replace_absent(t, "{{exit_code}}"@, x);
    lemma_replace_absent(t, "{{stdout}}"@, o);
    lemma_replace_absent(t, "{{stderr}}"@, e);
    lemma_replace_absent(t, "{{status}}"@, st);
    lemma_replace_whole(t, json_escaped(ctx.task_name@));
    law_escape_round_trip(ctx.task_name@);
}

/// After a command ran, `{{stdout}}` and `{{stderr}}` in a body stand for its
/// standard output and error output written inside a JSON string: a JSON
/// reader gives back exactly the output (for an output without `{`, in which
/// no later placeholder can be met). Without a command they stand for nothing.
pub proof fn law_output_placeholders(ctx: TaskContext)
    ensures
        ctx.cmd_output is Some && has_no(output_text(ctx.cmd_output->0.stdout), '{') ==> json_string_value(
            rendered("{{stdout}}"@, ctx),
        ) == Some(output_text(ctx.cmd_output->0.stdout)),
        ctx.cmd_output is Some && has_no(output_text(ctx.cmd_output->0.stderr), '{') ==> json_string_value(
            rendered("{{stderr}}"@, ctx),
        ) == Some(output_text(ctx.cmd_output->0.stderr)),
        ctx.cmd_output is None ==> rendered("{{stdout}}"@, ctx) == Seq::<char>::empty(),
        ctx.cmd_output is None ==> rendered("{{stderr}}"@, ctx) == Seq::<char>::empty(),
{
    lemma_placeholders_distinct();
    let t_out = "{{stdout}}"@;
    let t_err = "{{stderr}}"@;
    match ctx.cmd_output {
        Some(cmd) => {
            let x = exit_code_text(cmd.exit_code);
            let out = output_text(cmd.stdout);
            let err = output_text(cmd.stderr);
            let o = json_escaped(out);
            let e = json_escaped(err);
            let st = status_text(cmd.exit_code);
            let name = json_escaped(ctx.task_name@);
            lemma_replace_absent(t_out, "{{exit_code}}"@, x);
            lemma_replace_whole(t_out, o);
            if has_no(out, '{') {
                lemma_escaped_no_brace(out);
                lemma_replace_missing_start(o, "{{stderr}}"@, e);
                lemma_replace_missing_start(o, "{{status}}"@, st);
                lemma_replace_missing_start(o, "{{task_name}}"@, name);
                law_escape_round_trip(out);
            }
            lemma_replace_absent(t_err, "{{exit_code}}"@, x);
            lemma_replace_absent(t_err, "{{stdout}}"@, o);
            lemma_replace_whole(t_err, e);
            if has_no(err, '{') {
                lemma_escaped_no_brace(err);
                lemma_replace_missing_start(e, "{{status}}"@, st);
                lemma_replace_missing_start(e, "{{task_name}}"@, name);
                law_escape_round_trip(err);
            }
        },
        None => {
            let empty = Seq::<char>::empty();
            let name = json_escaped(ctx.task_name@);
            lemma_replace_absent(t_out, "{{exit_code}}"@, "-"@);
            lemma_replace_whole(t_out, empty);
            lemma_replace_missing_start(empty, "{{stderr}}"@, empty);
            lemma_replace_missing_start(empty, "{{status}}"@, "success"@);
            lemma_replace_missing_start(empty, "{{task_name}}"@, name);
            lemma_replace_absent(t_err, "{{exit_code}}"@, "-"@);
            lemma_replace_absent(t_err, "{{stdout}}"@, empty);
            lemma_replace_whole(t_err, empty);
        },
    }
}

/// `{{exit_code}}` stands for the command's exit code in decimal, and `-`
/// when the command gave none or there was no command; `{{status}}` stands
/// for `success` exactly when the command exited with 0 or there was no
/// command, and `failed` otherwise.
pub proof fn law_code_and_status_placeholders(ctx: TaskContext)
    ensures
        ctx.cmd_output is Some && ctx.cmd_output->0.exit_code is Some ==> rendered("{{exit_code}}"@, ctx)
            == int_text(ctx.cmd_output->0.exit_code->0 as int),
        (ctx.cmd_output is None || ctx.cmd_output->0.exit_code is None) ==> rendered("{{exit_code}}"@, ctx)
            == "-"@,
        rendered("{{status}}"@, ctx) == (if ctx.cmd_output is None || ctx.cmd_output->0.exit_code == Some(0i32) {
            "success"@
        } else {
            "failed"@
        }),
{
    lemma_placeholders_distinct();
    reveal_strlit("-");
    reveal_strlit("success");
    reveal_strlit("failed");
    reveal_strlit("{{exit_code}}");
    reveal_strlit("{{stdout}}");
    reveal_strlit("{{stderr}}");
    reveal_strlit("{{status}}");
    reveal_strlit("{{task_name}}");
    let t_x = "{{exit_code}}"@;
    let t_s = "{{status}}"@;
    let name = json_escaped(ctx.task_name@);
    let (x, o, e, st) = match ctx.cmd_output {
        Some(cmd) => (exit_code_text(cmd.exit_code), json_escaped(output_text(cmd.stdout)),
            json_escaped(output_text(cmd.stderr)), status_text(cmd.exit_code)),
        None => ("-"@, Seq::<char>::empty(), Seq::<char>::empty(), "success"@),
    };
    lemma_replace_whole(t_x, x);
    if ctx.cmd_output is Some && ctx.cmd_output->0.exit_code is Some {
        let c = ctx.cmd_output->0.exit_code->0;
        lemma_int_text_no_brace(c as int);
        lemma_replace_missing_start(x, "{{stdout}}"@, o);
        lemma_replace_missing_start(x, "{{stderr}}"@, e);
        lemma_replace_missing_start(x, "{{status}}"@, st);
        lemma_replace_missing_start(x, "{{task_name}}"@, name);
    } else {
        lemma_literal_untouched(x, "{{stdout}}"@, o);
        lemma_literal_untouched(x, "{{stderr}}"@, e);
        lemma_literal_untouched(x, "{{status}}"@, st);
        lemma_literal_untouched(x, "{{task_name}}"@, name);
    }
    lemma_replace_absent(t_s, "{{exit_code}}"@, x);
    lemma_replace_absent(t_s, "{{stdout}}"@, o);
    lemma_replace_absent(t_s, "{{stderr}}"@, e);
    lemma_replace_whole(t_s, st);
    lemma_literal_untouched(st, "{{task_name}}"@, name);
}

} // verus!
