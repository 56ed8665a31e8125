use chat_cli::agent_config::{
    agents_from_files, collect_loaded_agents, find_agent_config, AgentConfig, AgentConfigError, AgentConfigV2025_08_22, ConfigSource,
    LoadedAgentConfig, LoadedMcpServerConfigs, ResourceKind, DEFAULT_AGENT_NAME,
};
use chat_cli::path_util::TestProvider;
use chat_cli::config::{LocalMcpServerConfig, McpServerConfig, McpServers};

fn agent(name: &str) -> AgentConfig {
    let mut a = AgentConfigV2025_08_22::default();
    a.name = name.to_string();
    AgentConfig::V2025_08_22(a)
}

#[test]
fn default_agent() {
    let a = AgentConfig::default();
    assert_eq!(a.name(), DEFAULT_AGENT_NAME);
    assert_eq!(a.tools(), vec!["@builtin".to_string()]);
    assert_eq!(a.allowed_tools(), &vec!["fs_read".to_string()]);
    assert_eq!(a.resources().len(), 4);
    assert_eq!(a.resources()[0].as_str(), "file://AmazonQ.md");
    assert!(a.system_prompt().is_none());
    assert!(!a.use_legacy_mcp_json());
    let loaded = LoadedAgentConfig::default();
    assert!(matches!(loaded.source, ConfigSource::BuiltIn));
    assert_eq!(loaded.name(), DEFAULT_AGENT_NAME);
}

#[test]
fn agent_files_are_sorted_into_agents_and_errors() {
    let files = vec![
        ("/a/one.json".to_string(), Ok(agent("one"))),
        ("/a/bad.json".to_string(), Err("expected value at line 1 column 1".to_string())),
        ("/a/two.json".to_string(), Ok(agent("two"))),
    ];
    let (agents, invalid) = agents_from_files(files);
    assert_eq!(agents.len(), 2);
    assert_eq!(agents[0].0, "/a/one.json");
    assert_eq!(agents[1].1.name(), "two");
    assert_eq!(invalid.len(), 1);
    assert_eq!(
        invalid[0].message(),
        "Agent config at the path '/a/bad.json' has an invalid config: expected value at line 1 column 1"
    );
}

#[test]
fn loaded_agents_come_workspace_first_then_global_then_default() {
    let ws = Some((vec![("/w/a.json".to_string(), agent("a"))], vec![AgentConfigError::Custom("x".to_string())]));
    let gl = Some((vec![("/g/b.json".to_string(), agent("b"))], vec![]));
    let (agents, invalid) = collect_loaded_agents(ws, gl);
    let names: Vec<&str> = agents.iter().map(|a| a.name()).collect();
    assert_eq!(names, vec!["a", "b", DEFAULT_AGENT_NAME]);
    assert!(matches!(&agents[0].source, ConfigSource::Workspace { path } if path == "/w/a.json"));
    assert!(matches!(&agents[1].source, ConfigSource::Global { path } if path == "/g/b.json"));
    assert_eq!(invalid.len(), 1);
    let (only_default, none) = collect_loaded_agents(None, None);
    assert_eq!(only_default.len(), 1);
    assert!(none.is_empty());
}

#[test]
fn mcp_servers_of_an_agent() {
    let mut a = AgentConfigV2025_08_22::default();
    let local = McpServerConfig::Local(LocalMcpServerConfig {
        command: "srv".to_string(),
        args: vec![],
        env: None,
        timeout_ms: 1,
        disabled: false,
    });
    a.mcp_servers = vec![("x".to_string(), local.clone())];
    a.use_legacy_mcp_json = true;
    let ws = McpServers { mcp_servers: vec![("x".to_string(), local.clone()), ("y".to_string(), local)] };
    let loaded = LoadedMcpServerConfigs::from_agent_config(&AgentConfig::V2025_08_22(a), ws, McpServers::default());
    assert_eq!(loaded.server_names(), vec!["x".to_string(), "y".to_string()]);
    assert_eq!(loaded.overridden_configs.len(), 1);
}

#[test]
fn agents_are_found_by_name() {
    let (agents, _) = collect_loaded_agents(Some((vec![("/w/a.json".to_string(), agent("a"))], vec![])), None);
    assert!(matches!(&find_agent_config(&agents, "a").unwrap().source, ConfigSource::Workspace { .. }));
    assert!(matches!(find_agent_config(&agents, DEFAULT_AGENT_NAME).unwrap().source, ConfigSource::BuiltIn));
    match find_agent_config(&agents, "missing") {
        Err(e) => assert_eq!(e.message(), "Agent with the name 'missing' was not found"),
        Ok(_) => panic!("expected an error"),
    }
}

#[test]
fn test_resource_kind_parse_nonfile() {
    assert!(
        ResourceKind::parse("https://google.com", &TestProvider::new()).is_err(),
        "non-file scheme should be an error"
    );
}

#[test]
fn test_resource_kind_parse_file_scheme() {
    let sys = TestProvider::new();

    let resource = "file://project/README.md";
    assert_eq!(ResourceKind::parse(resource, &sys).unwrap(), ResourceKind::File {
        original: resource,
        file_path: "/home/testuser/project/README.md".to_string()
    });

    let resource = "file://~/project/**/*.rs";
    assert_eq!(ResourceKind::parse(resource, &sys).unwrap(), ResourceKind::FileGlob {
        original: resource,
        pattern: glob::Pattern::new("/home/testuser/project/**/*.rs").unwrap()
    });
}
