use chat_cli::agent_loop::ToolSpec;
use chat_cli::tool_names::{BuiltInToolName, CanonicalToolName};
use chat_cli::tool_utils::{sanitize_tool_specs, SanitizedToolSpecs, ToolValidationErrorKind};

fn spec(name: &str, description: &str) -> ToolSpec {
    ToolSpec { name: name.to_string(), description: description.to_string(), input_schema: serde_json::Value::Null }
}

fn mcp(server: &str, tool: &str) -> CanonicalToolName {
    CanonicalToolName::Mcp { server_name: server.to_string(), tool_name: tool.to_string() }
}

fn keys(s: &SanitizedToolSpecs) -> Vec<String> {
    s.tool_map().iter().map(|(k, _)| k.clone()).collect()
}

fn builtins() -> Vec<(BuiltInToolName, ToolSpec)> {
    vec![(BuiltInToolName::FsRead, spec("fs_read", "Reads files"))]
}

#[test]
fn builtin_then_servers_in_name_order() {
    let names = vec![
        CanonicalToolName::BuiltIn(BuiltInToolName::FsRead),
        mcp("zeta", "bad name!"),
        mcp("alpha", "ok_tool"),
        mcp("alpha", "9lives"),
    ];
    let servers = vec![
        ("zeta".to_string(), vec![spec("bad name!", "z")]),
        ("alpha".to_string(), vec![spec("ok_tool", "a"), spec("9lives", "b"), spec("not_asked", "c")]),
    ];
    let out = sanitize_tool_specs(names, servers, &vec![], &builtins());
    assert_eq!(keys(&out), vec!["fs_read", "ok_tool", "a9lives", "badname"]);
    assert!(out.filtered_specs().is_empty());
    let renamed: Vec<&ToolValidationErrorKind> = out.transformed_tool_specs().iter().map(|e| &e.kind).collect();
    assert_eq!(
        renamed,
        vec![
            &ToolValidationErrorKind::OutOfSpecName { transformed_name: "a9lives".to_string() },
            &ToolValidationErrorKind::OutOfSpecName { transformed_name: "badname".to_string() },
        ]
    );
    assert_eq!(out.transformed_tool_specs()[1].mcp_server_name, "zeta");
    assert_eq!(out.tool_map()[3].1.tool_spec.name, "badname");
    assert_eq!(out.tool_map()[3].1.canonical_name(), &mcp("zeta", "bad name!"));
    assert_eq!(out.tool_specs().len(), 4);
}

#[test]
fn aliases_rename_tools() {
    let names = vec![mcp("srv", "read")];
    let servers = vec![("srv".to_string(), vec![spec("read", "Reads")])];
    let aliases = vec![("@srv/read".to_string(), "srv_read".to_string())];
    let out = sanitize_tool_specs(names, servers, &aliases, &vec![]);
    assert_eq!(keys(&out), vec!["srv_read"]);
    assert!(out.transformed_tool_specs().is_empty());
}

#[test]
fn invalid_specs_are_left_out() {
    let long_name = "x".repeat(65);
    let names = vec![
        CanonicalToolName::BuiltIn(BuiltInToolName::FsRead),
        mcp("srv", "fs_read"),
        mcp("srv", "!!!"),
        mcp("srv", &long_name),
        mcp("srv", "quiet"),
        mcp("other", "dup"),
    ];
    let servers = vec![
        (
            "srv".to_string(),
            vec![spec("fs_read", "clash"), spec("!!!", "d"), spec(&long_name, "d"), spec("quiet", "")],
        ),
        ("missing".to_string(), vec![spec("dup", "d")]),
    ];
    let out = sanitize_tool_specs(names, servers, &vec![], &builtins());
    assert_eq!(keys(&out), vec!["fs_read"]);
    let kinds: Vec<&ToolValidationErrorKind> = out.filtered_specs().iter().map(|e| &e.kind).collect();
    assert_eq!(
        kinds,
        vec![
            &ToolValidationErrorKind::NameCollision(CanonicalToolName::BuiltIn(BuiltInToolName::FsRead)),
            &ToolValidationErrorKind::EmptyName,
            &ToolValidationErrorKind::NameTooLong,
            &ToolValidationErrorKind::EmptyDescription,
        ]
    );
}

#[test]
fn long_descriptions_are_cut() {
    let names = vec![mcp("srv", "big")];
    let long = "d".repeat(10_010);
    let servers = vec![("srv".to_string(), vec![spec("big", &long)])];
    let out = sanitize_tool_specs(names, servers, &vec![], &vec![]);
    assert_eq!(out.tool_map()[0].1.tool_spec.description.len(), 10_004);
    assert_eq!(out.transformed_tool_specs()[0].kind, ToolValidationErrorKind::DescriptionTooLong);
    assert_eq!(out.transformed_tool_specs()[0].tool_spec.description.len(), 10_010);
}

#[test]
fn offered_tools_have_distinct_valid_names() {
    let names = vec![
        mcp("s1", "read-file"),
        mcp("s1", "_x"),
        mcp("s2", "read-file"),
        mcp("s2", "Ünïcode"),
        CanonicalToolName::BuiltIn(BuiltInToolName::FsRead),
    ];
    let servers = vec![
        ("s2".to_string(), vec![spec("read-file", "b"), spec("Ünïcode", "u")]),
        ("s1".to_string(), vec![spec("read-file", "a"), spec("_x", "x")]),
    ];
    let out = sanitize_tool_specs(names, servers, &vec![], &builtins());
    let ks = keys(&out);
    let mut sorted = ks.clone();
    sorted.sort();
    sorted.dedup();
    assert_eq!(sorted.len(), ks.len());
    for (k, entry) in out.tool_map() {
        if let CanonicalToolName::Mcp { .. } = entry.canonical_name() {
            assert!(k.chars().next().unwrap().is_ascii_alphabetic());
            assert!(k.len() <= 64);
            assert_eq!(&entry.tool_spec.name, k);
        }
    }
    assert_eq!(ks, vec!["fs_read", "read-file", "a_x", "ncode"]);
    assert_eq!(out.filtered_specs().len(), 1);
    assert!(matches!(out.filtered_specs()[0].kind, ToolValidationErrorKind::NameCollision(_)));
}
