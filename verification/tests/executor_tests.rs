use scheduler::executor::{
    default_method, effective_timeout_secs, execution_result, json_escape, needs_json_content_type,
    render_template, command_invocation, webhook_outcome, CommandConfig, TaskContext,
    TaskOutput, WebhookConfig,
};

fn output(code: Option<i32>, out: Option<&str>, err: Option<&str>) -> TaskOutput {
    TaskOutput { exit_code: code, stdout: out.map(|s| s.to_string()), stderr: err.map(|s| s.to_string()) }
}

#[test]
fn json_escape_rules() {
    assert_eq!(json_escape("plain text"), "plain text");
    assert_eq!(json_escape("a\"b\\c"), "a\\\"b\\\\c");
    assert_eq!(json_escape("l1\nl2\r\tx"), "l1\\nl2\\r\\tx");
    assert_eq!(json_escape("\0"), "\\u0000");
    assert_eq!(json_escape("\u{1b}[0m"), "\\u001b[0m");
    assert_eq!(json_escape("\u{08}"), "\\u0008");
    assert_eq!(json_escape("日本"), "日本");
}

#[test]
fn template_with_command_output() {
    let ctx = TaskContext {
        task_name: "backup \"nightly\"".to_string(),
        cmd_output: Some(output(Some(0), Some("done\n"), None)),
    };
    let body = "{\"title\":\"{{task_name}}\",\"message\":\"Status: {{status}}, Exit: {{exit_code}}\",\"out\":\"{{stdout}}\",\"err\":\"{{stderr}}\"}";
    assert_eq!(
        render_template(body, &ctx),
        "{\"title\":\"backup \\\"nightly\\\"\",\"message\":\"Status: success, Exit: 0\",\"out\":\"done\\n\",\"err\":\"\"}"
    );
}

#[test]
fn template_failed_command_and_without_command() {
    let failed = TaskContext { task_name: "t".to_string(), cmd_output: Some(output(Some(2), None, Some("boom"))) };
    assert_eq!(render_template("{{status}} {{exit_code}} {{stderr}}", &failed), "failed 2 boom");
    let none = TaskContext { task_name: "t".to_string(), cmd_output: None };
    assert_eq!(render_template("{{status}}|{{exit_code}}|{{stdout}}|{{task_name}}", &none), "success|-||t");
    let no_code = TaskContext { task_name: "t".to_string(), cmd_output: Some(output(None, None, None)) };
    assert_eq!(render_template("{{status}} {{exit_code}}", &no_code), "failed -");
    assert_eq!(render_template("no placeholders {here}", &none), "no placeholders {here}");
}

#[test]
fn status_and_defaults() {
    assert_eq!(output(Some(0), None, None).status_str(), "success");
    assert_eq!(output(Some(1), None, None).status_str(), "failed");
    assert_eq!(output(None, None, None).status_str(), "failed");
    assert_eq!(default_method(), "GET");
    assert_eq!(effective_timeout_secs(None, 3600), 3600);
    assert_eq!(effective_timeout_secs(Some(30), 3600), 30);
}

#[test]
fn commands_run_the_program_itself() {
    let mut c = CommandConfig { program: "python".to_string(), args: vec![], env: vec![], working_dir: None };
    assert_eq!(command_invocation(&c), ("python".to_string(), vec![]));
    c.args = vec!["report.py".to_string(), "a b; rm *".to_string()];
    let (program, args) = command_invocation(&c);
    assert_eq!(program, "python");
    assert_eq!(args, vec!["report.py".to_string(), "a b; rm *".to_string()]);
}

#[test]
fn content_type_header_rules() {
    let mut w = WebhookConfig { url: "http://x".to_string(), method: "POST".to_string(), body: None, headers: vec![] };
    assert!(!needs_json_content_type(&w));
    w.body = Some("{}".to_string());
    assert!(needs_json_content_type(&w));
    w.headers = vec![("X-Token".to_string(), "1".to_string()), ("CONTENT-type".to_string(), "text/plain".to_string())];
    assert!(!needs_json_content_type(&w));
}

#[test]
fn webhook_status_decides() {
    match webhook_outcome(404, "missing".to_string()) {
        Err(e) => assert_eq!(e, "Webhook returned status 404: missing"),
        Ok(_) => panic!("a 404 must fail"),
    }
    match webhook_outcome(399, "ok".to_string()) {
        Ok(o) => {
            assert_eq!(o.exit_code, Some(0));
            assert_eq!(o.stdout.as_deref(), Some("ok"));
            assert_eq!(o.stderr, None);
        },
        Err(_) => panic!("a 399 must pass"),
    }
    assert!(webhook_outcome(400, String::new()).is_err());
}

#[test]
fn execution_result_rules() {
    let o = execution_result(Some(output(Some(3), Some("x"), None)), true).unwrap();
    assert_eq!(o.exit_code, Some(3));
    let w = execution_result(None, true).unwrap();
    assert_eq!(w.exit_code, Some(0));
    assert_eq!(w.stdout, None);
    match execution_result(None, false) {
        Err(e) => assert_eq!(e, "No command or webhook configured for task"),
        Ok(_) => panic!("nothing configured must fail"),
    }
}

#[test]
fn escaped_text_reads_back_as_json() {
    for s in ["plain", "quote \" and \\ back", "line\nbreak\r\ttab", "\u{0}\u{1}\u{1f} ctl", "日本 ✓ 🎉", ""] {
        let body = json_escape(s);
        let read: String = serde_json::from_str(&format!("\"{}\"", body)).unwrap();
        assert_eq!(read, s);
    }
}
