use chat_cli::api_client::{classify_error_kind, failed_send_error};
use chat_cli::cli::{resolve_file_uri_path, FileUriError};
use chat_cli::env_var::{get_editor, try_get_editor, Env, EnvVar, VarError};
use chat_cli::settings::{
    delete_requires_key_message, delete_with_value_message, matching_keys, no_match_message, no_value_message, OutputFormat,
    SettingsArgs, SettingsPlan, SettingsSubcommands,
};
use chat_cli::stream_error::{
    ConverseStreamError, ConverseStreamErrorKind, StreamError, StreamErrorKind, StreamErrorSource,
};
use chat_cli::config::HookTrigger;
use chat_cli::task_executor::{command_output_result, command_result, hook_input_json, hook_timeout_error, sanitize_user_prompt, ToolContext};

#[test]
fn error_kinds_are_classified_from_status_and_body() {
    assert_eq!(classify_error_kind(Some(429), b"slow down"), ConverseStreamErrorKind::Throttling);
    assert_eq!(
        classify_error_kind(Some(400), b"...Input is too long. ..."),
        ConverseStreamErrorKind::ContextWindowOverflow
    );
    assert_eq!(
        classify_error_kind(Some(429), b"Input is too long."),
        ConverseStreamErrorKind::ContextWindowOverflow
    );
    assert_eq!(
        classify_error_kind(None, b"INSUFFICIENT_MODEL_CAPACITY"),
        ConverseStreamErrorKind::ModelOverloadedError
    );
    assert_eq!(
        classify_error_kind(
            Some(500),
            b"Encountered unexpectedly high load when processing the request, please try again."
        ),
        ConverseStreamErrorKind::ModelOverloadedError
    );
    assert_eq!(
        classify_error_kind(
            Some(503),
            b"Encountered unexpectedly high load when processing the request, please try again."
        ),
        ConverseStreamErrorKind::Unknown
    );
    assert_eq!(classify_error_kind(Some(400), b"MONTHLY_REQUEST_COUNT"), ConverseStreamErrorKind::MonthlyLimitReached);
    assert_eq!(classify_error_kind(None, b""), ConverseStreamErrorKind::Unknown);
}

#[test]
fn stream_error_messages() {
    let plain = StreamError::new(StreamErrorKind::Interrupted);
    assert_eq!(plain.message(), "Encountered an error in the response stream: ");
    let rts = ConverseStreamError::new(ConverseStreamErrorKind::Throttling, None);
    let e = StreamError::new(StreamErrorKind::Throttling)
        .set_original_request_id(Some("abc".to_string()))
        .with_source(StreamErrorSource::ConverseStream(rts));
    assert_eq!(
        e.message(),
        "Encountered an error in the response stream: request_id: abc, error: Too many requests have been sent recently, please wait and try again later"
    );
    assert!(e.as_rts_error().is_some());
    let api = StreamError::new(StreamErrorKind::ServiceFailure).with_source(StreamErrorSource::ApiClient("down".to_string()));
    assert_eq!(api.message(), "Encountered an error in the response stream: down");
    assert!(api.as_rts_error().is_none());
    assert_eq!(ConverseStreamErrorKind::Unknown.message(), "An unknown error occurred");
}

fn args(cmd: Option<SettingsSubcommands>, key: Option<&str>, value: Option<&str>, delete: bool) -> SettingsArgs {
    SettingsArgs {
        cmd,
        key: key.map(|s| s.to_string()),
        value: value.map(|s| s.to_string()),
        delete,
        format: OutputFormat::Plain,
    }
}

#[test]
fn settings_arguments_plan() {
    assert_eq!(args(Some(SettingsSubcommands::Open), None, None, false).plan(), SettingsPlan::OpenFile);
    assert_eq!(
        args(Some(SettingsSubcommands::List { all: true, format: OutputFormat::Json, state: false }), None, None, false)
            .plan(),
        SettingsPlan::PrintAll(OutputFormat::Json)
    );
    assert_eq!(
        args(Some(SettingsSubcommands::All { format: OutputFormat::Plain, state: true }), None, None, false).plan(),
        SettingsPlan::PrintState(OutputFormat::Plain)
    );
    assert_eq!(args(None, None, None, true).plan(), SettingsPlan::DeleteWithoutKey);
    assert_eq!(args(None, None, None, false).plan(), SettingsPlan::Nothing);
    assert_eq!(
        args(None, Some("chat.model"), Some("x"), true).plan(),
        SettingsPlan::DeleteWithValue { key: "chat.model".to_string() }
    );
    assert_eq!(
        args(None, Some("chat.model"), None, false).plan(),
        SettingsPlan::Get { key: "chat.model".to_string(), format: OutputFormat::Plain }
    );
    assert_eq!(
        args(None, Some("chat.model"), Some("x"), false).plan(),
        SettingsPlan::Store { key: "chat.model".to_string(), value: "x".to_string() }
    );
    assert_eq!(args(None, Some("chat.*"), None, true).plan(), SettingsPlan::Delete { key: "chat.*".to_string() });
}

#[test]
fn settings_messages() {
    let m = delete_with_value_message("chat.model");
    assert!(m.starts_with("the argument "));
    assert!(m.contains("'--delete'"));
    assert!(m.contains("\u{1b}["), "the flags are colored");
    assert!(m.ends_with(" chat.model"));
    let y = |t: &str, on: bool| if on { format!("\u{1b}[38;5;11m{t}\u{1b}[39m") } else { format!("\u{1b}[m{t}\u{1b}[m") };
    let styled_with = |on: bool| {
        format!(
            "the argument {} cannot be used with {}\n Usage: q settings {} chat.model",
            y("'--delete'", on),
            y("'[VALUE]'", on),
            y("--delete", on)
        )
    };
    assert!(m == styled_with(true) || m == styled_with(false), "unexpected {:?}", m);
    let r = delete_requires_key_message();
    assert!(r.contains("<KEY>"));
    assert!(r.contains("\u{1b}["));
    assert_eq!(no_value_message("k"), "No value associated with k");
    assert_eq!(no_match_message("k*"), "No settings found matching k*");
}

#[test]
fn file_uris_resolve_or_fail() {
    assert_eq!(resolve_file_uri_path("file:///etc/hosts", "/base").unwrap(), "/etc/hosts");
    assert_eq!(resolve_file_uri_path("file://notes/a.md", "/base").unwrap(), "/base/notes/a.md");
    match resolve_file_uri_path("http://x", "/base") {
        Err(FileUriError::InvalidUri { uri }) => assert_eq!(uri, "http://x"),
        other => panic!("unexpected {:?}", other),
    }
    assert!(matches!(resolve_file_uri_path("file://", "/base"), Err(FileUriError::InvalidUri { .. })));
}

#[test]
fn environment_lookups() {
    let env = Env::from_vars(vec![
        EnvVar { name: "EDITOR".to_string(), value: "nano".to_string(), unicode: true },
        EnvVar { name: "EDITOR".to_string(), value: "emacs".to_string(), unicode: true },
        EnvVar { name: "BAD".to_string(), value: String::new(), unicode: false },
    ]);
    assert_eq!(get_editor(&env), "emacs");
    assert_eq!(env.get("BAD"), Err(VarError::NotUnicode));
    assert_eq!(env.get("MISSING"), Err(VarError::NotPresent));
    let empty = Env::from_vars(vec![]);
    assert_eq!(get_editor(&empty), "vi");
    assert_eq!(try_get_editor(&empty), Err(VarError::NotPresent));
}

#[test]
fn hook_results_and_prompts() {
    let ok = command_result(0, "out", "err", 100);
    assert_eq!((ok.exit_code, ok.output.as_str()), (0, "out"));
    let failed = command_result(2, "out", "error text", 5);
    assert_eq!(failed.output, "error ... truncated");
    assert_eq!(hook_timeout_error(30_000), "command timed out after 30000 ms");
    assert_eq!(sanitize_user_prompt("a\u{7}b\nc\td\u{1b}"), "ab\nc\td");
    let long = "x".repeat(5000);
    assert_eq!(sanitize_user_prompt(&long).len(), 4096);
}

#[test]
fn deletion_globs_select_keys() {
    let keys = vec!["api.timeout".to_string(), "chat.model".to_string(), "chat.editMode".to_string()];
    assert_eq!(matching_keys("chat.*", &keys).unwrap(), vec!["chat.model".to_string(), "chat.editMode".to_string()]);
    assert_eq!(matching_keys("api.timeout", &keys).unwrap(), vec!["api.timeout".to_string()]);
    assert!(matching_keys("nothing", &keys).unwrap().is_empty());
    assert!(matching_keys("a[", &keys).is_err());
}

#[test]
fn failed_sends_are_classified() {
    let e = failed_send_error(Some("rid".to_string()), Some(429), b"rate", Some("sdk".to_string()));
    assert_eq!(e.kind, ConverseStreamErrorKind::Throttling);
    assert_eq!(e.request_id.as_deref(), Some("rid"));
    assert_eq!(e.status_code, Some(429));
    assert_eq!(e.source.as_deref(), Some("sdk"));
    let overflow = failed_send_error(None, Some(400), b"x Input is too long. y", None);
    assert_eq!(overflow.kind, ConverseStreamErrorKind::ContextWindowOverflow);
}

#[test]
fn hook_input_carries_the_event() {
    let text = hook_input_json(HookTrigger::UserPromptSubmit, "/work", Some("hello".to_string()), None);
    let v: serde_json::Value = serde_json::from_str(&text).unwrap();
    assert_eq!(v["hook_event_name"], "userPromptSubmit");
    assert_eq!(v["cwd"], "/work");
    assert_eq!(v["prompt"], "hello");
    assert!(v.get("tool_name").is_none());
    let ctx = ToolContext {
        tool_name: "fs_read".to_string(),
        tool_input: serde_json::Value::Bool(true),
        tool_response: Some(serde_json::Value::String("ok".to_string())),
    };
    let text = hook_input_json(HookTrigger::PostToolUse, "/w", None, Some(ctx));
    let v: serde_json::Value = serde_json::from_str(&text).unwrap();
    assert_eq!(v["hook_event_name"], "postToolUse");
    assert_eq!(v["tool_name"], "fs_read");
    assert_eq!(v["tool_input"], true);
    assert_eq!(v["tool_response"], "ok");
    assert!(v.get("prompt").is_none());
}

#[test]
fn test_other_stream_err_downcasting() {
    let err = StreamError::new(StreamErrorKind::Interrupted).with_source(StreamErrorSource::ConverseStream(
        ConverseStreamError::new(ConverseStreamErrorKind::ModelOverloadedError, None),
    ));
    assert!(
        err.as_rts_error()
            .is_some_and(|r| matches!(r.kind, ConverseStreamErrorKind::ModelOverloadedError))
    );
}

#[test]
fn test_invalid_uri_format() {
    let base = "/tmp";

    // Not a file:// URI
    let result = resolve_file_uri_path("http://example.com", base);
    assert!(matches!(result, Err(FileUriError::InvalidUri { .. })));

    // Empty path
    let result = resolve_file_uri_path("file://", base);
    assert!(matches!(result, Err(FileUriError::InvalidUri { .. })));
}

#[test]
fn hook_output_bytes_are_read_as_text() {
    let r = command_output_result(0, b"done\n", b"ignored", 100);
    assert_eq!(r.exit_code, 0);
    assert_eq!(r.output, "done\n");
    let r = command_output_result(2, b"ignored", b"blocked \xff!", 100);
    assert_eq!(r.output, "blocked \u{FFFD}!");
    let r = command_output_result(1, b"", b"0123456789", 4);
    assert_eq!(r.output, "0123 ... truncated");
}
