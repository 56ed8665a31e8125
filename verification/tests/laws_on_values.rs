use std::str::FromStr;

use chat_cli::agent_config::{LoadedMcpServerConfigs};
use chat_cli::compact::{truncate_safe, truncate_safe_in_place};
use chat_cli::config::{HookTrigger, LocalMcpServerConfig, McpServerConfig, McpServers};
use chat_cli::messages::{ImageFormat, Role, StopReason};
use chat_cli::path_util::{normalize_path, TestProvider};
use chat_cli::permissions::{evaluate_permission_for_path, PermissionCheckResult};
use chat_cli::theme::StyledText;
use chat_cli::tool_names::{BuiltInToolName, CanonicalToolName, ToolNameKind};
use chat_cli::ui_protocol::{Event, RunStarted, TextMessageContent};

const BUILTINS: [BuiltInToolName; 9] = [
    BuiltInToolName::FsRead,
    BuiltInToolName::FsWrite,
    BuiltInToolName::Ls,
    BuiltInToolName::ImageRead,
    BuiltInToolName::Grep,
    BuiltInToolName::Mkdir,
    BuiltInToolName::ExecuteCmd,
    BuiltInToolName::Introspect,
    BuiltInToolName::SpawnSubagent,
];

#[test]
fn builtin_full_names_parse_back() {
    for t in BUILTINS {
        let c = CanonicalToolName::BuiltIn(t);
        assert_eq!(CanonicalToolName::from_name(&c.as_full_name()), Ok(c.clone()));
        assert_eq!(CanonicalToolName::from_str(t.as_str()), Ok(c));
    }
}

#[test]
fn agent_full_names_parse_back() {
    let c = CanonicalToolName::Agent { agent_name: "planner".to_string() };
    assert_eq!(c.as_full_name(), "#planner");
    assert_eq!(CanonicalToolName::from_name("#planner"), Ok(c));
}

#[test]
fn mcp_full_names_parse_back() {
    let c = CanonicalToolName::from_mcp_parts("srv".to_string(), "read".to_string());
    assert_eq!(c.as_full_name(), "@srv/read");
    match ToolNameKind::parse("@srv/read").unwrap() {
        ToolNameKind::McpFullName { server_name, tool_name } => {
            assert_eq!(server_name, "srv");
            assert_eq!(tool_name, "read");
        },
        other => panic!("unexpected {:?}", other),
    }
    match ToolNameKind::parse("@srv/edit_*").unwrap() {
        ToolNameKind::McpGlob { server_name, glob_part } => {
            assert_eq!(server_name, "srv");
            assert_eq!(glob_part, "edit_*");
        },
        other => panic!("unexpected {:?}", other),
    }
    assert_eq!(CanonicalToolName::from_name("@srv/read"), Ok(c));
}

#[test]
fn tool_name_ends_the_full_name() {
    let names = vec![
        CanonicalToolName::BuiltIn(BuiltInToolName::Grep),
        CanonicalToolName::from_mcp_parts("s".to_string(), "t".to_string()),
        CanonicalToolName::Agent { agent_name: "a".to_string() },
    ];
    for c in names {
        assert!(c.as_full_name().ends_with(c.tool_name()));
    }
}

#[test]
fn a_denied_path_denies_even_when_allowed() {
    let allowed = vec!["work".to_string()];
    let denied = vec!["work/secret".to_string()];
    assert_eq!(
        evaluate_permission_for_path("work/secret/key", &allowed, &denied),
        PermissionCheckResult::Denied(vec!["work/secret".to_string()])
    );
    assert_eq!(evaluate_permission_for_path("work/notes", &allowed, &denied), PermissionCheckResult::Allow);
    assert_eq!(evaluate_permission_for_path("elsewhere", &Vec::new(), &Vec::new()), PermissionCheckResult::Ask);
}

#[test]
fn normalizing_twice_changes_nothing() {
    for p in ["/a/./b/../c//d/", "x/../../y", "/", "", "./.", "a//b/./c/.."] {
        let once = normalize_path(p);
        assert_eq!(normalize_path(&once), once, "for {}", p);
        assert!(once.split('/').all(|n| n != "." && n != ".."));
    }
}

#[test]
fn a_set_variable_reads_back() {
    let p = TestProvider::new().with_var("A", "1").with_var("B", "2").with_var("A", "3");
    assert_eq!(p.var("A"), Some("3".to_string()));
    assert_eq!(p.var("B"), Some("2".to_string()));
    assert_eq!(p.var("C"), None);
}

#[test]
fn truncation_marks_the_cut() {
    assert_eq!(truncate_safe("héllo", 2), "h");
    assert_eq!(truncate_safe("héllo", 3), "hé");
    let mut s = "abcdefghij".to_string();
    truncate_safe_in_place(&mut s, 6, "...");
    assert_eq!(s, "abc...");
    let mut short = "abc".to_string();
    truncate_safe_in_place(&mut short, 6, "...");
    assert_eq!(short, "abc");
    let mut tiny = "abcdef".to_string();
    truncate_safe_in_place(&mut tiny, 2, "...");
    assert_eq!(tiny, "..");
}

#[test]
fn names_of_kinds_are_distinct_and_parse_back() {
    let triggers = [HookTrigger::AgentSpawn, HookTrigger::UserPromptSubmit, HookTrigger::PreToolUse, HookTrigger::PostToolUse];
    for a in triggers {
        assert_eq!(HookTrigger::from_name(a.as_str()), Some(a));
        for b in triggers {
            assert_eq!(a == b, a.as_str() == b.as_str());
        }
    }
    assert_ne!(Role::User.as_str(), Role::Assistant.as_str());
    for r in [Role::User, Role::Assistant] {
        assert_eq!(Role::from_name(r.as_str()), Some(r));
    }
    let reasons = [StopReason::ToolUse, StopReason::EndTurn, StopReason::MaxTokens];
    for a in reasons {
        assert_eq!(StopReason::from_name(a.as_str()), Some(a));
        for b in reasons {
            assert_eq!(a == b, a.as_str() == b.as_str());
        }
    }
    for f in [ImageFormat::Gif, ImageFormat::Jpeg, ImageFormat::Png, ImageFormat::Webp] {
        assert_eq!(ImageFormat::from_name(f.as_str()), Some(f));
    }
}

#[test]
fn styled_text_keeps_the_text() {
    for s in ["plain", "", "with spaces"] {
        assert!(StyledText::error(s).contains(s));
        assert!(StyledText::success(s).contains(s));
    }
}

fn local(command: &str) -> McpServerConfig {
    McpServerConfig::Local(LocalMcpServerConfig {
        command: command.to_string(),
        args: vec![],
        env: None,
        timeout_ms: 120_000,
        disabled: false,
    })
}

#[test]
fn merged_server_names_are_unique() {
    let agent = vec![("a".to_string(), local("agent-a"))];
    let workspace = McpServers { mcp_servers: vec![("a".to_string(), local("ws-a")), ("b".to_string(), local("ws-b"))] };
    let global = McpServers { mcp_servers: vec![("b".to_string(), local("g-b")), ("c".to_string(), local("g-c"))] };
    let loaded = LoadedMcpServerConfigs::from_agent_config_parts(agent, true, workspace, global);
    assert_eq!(loaded.server_names(), vec!["a".to_string(), "b".to_string(), "c".to_string()]);
    assert_eq!(loaded.overridden_configs.len(), 2);
    match &loaded.configs[1].config {
        McpServerConfig::Local(l) => assert_eq!(l.command, "ws-b"),
        other => panic!("unexpected {:?}", other),
    }
    let without_legacy = LoadedMcpServerConfigs::from_agent_config_parts(
        vec![("a".to_string(), local("agent-a"))],
        false,
        McpServers { mcp_servers: vec![("z".to_string(), local("ws-z"))] },
        McpServers::default(),
    );
    assert_eq!(without_legacy.server_names(), vec!["a".to_string()]);
}

#[test]
fn an_event_falls_in_one_category() {
    let events = vec![
        Event::RunStarted(RunStarted { thread_id: "t".to_string(), run_id: "r".to_string(), parent_run_id: None, input: None }),
        Event::TextMessageContent(TextMessageContent::default()),
    ];
    for e in events {
        let count = [
            e.is_lifecycle_event(),
            e.is_text_message_event(),
            e.is_tool_call_event(),
            e.is_state_management_event(),
            e.is_draft_event(),
        ]
        .iter()
        .filter(|b| **b)
        .count();
        assert_eq!(count, 1, "for {}", e.event_type());
    }
}

#[test]
fn a_repeated_agent_server_name_is_kept_once() {
    let agent = vec![
        ("a".to_string(), local("first-a")),
        ("b".to_string(), local("agent-b")),
        ("a".to_string(), local("second-a")),
    ];
    let loaded = LoadedMcpServerConfigs::from_agent_config_parts(agent, false, McpServers::default(), McpServers::default());
    assert_eq!(loaded.server_names(), vec!["a".to_string(), "b".to_string()]);
    assert!(loaded.overridden_configs.is_empty());
    match &loaded.configs[0].config {
        McpServerConfig::Local(l) => assert_eq!(l.command, "second-a"),
        other => panic!("unexpected {:?}", other),
    }
}
