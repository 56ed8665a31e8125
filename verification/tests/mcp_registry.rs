use chat_cli::agent_loop::ToolSpec;
use chat_cli::mcp::{McpActorState, McpManagerError, McpRegistry, McpServerActorError, McpServerActorEvent};

fn initialized() -> McpServerActorEvent {
    McpServerActorEvent::Initialized { serve_duration_ms: 5, list_tools_duration_ms: None, list_prompts_duration_ms: None }
}

#[test]
fn servers_launch_once() {
    let mut reg = McpRegistry::new();
    assert_eq!(reg.check_launched("git"), Err(McpManagerError::ServerNotInitialized { name: "git".to_string() }));
    assert_eq!(reg.launch_server("git"), Ok(()));
    assert!(reg.is_initializing("git"));
    assert_eq!(
        reg.launch_server("git"),
        Err(McpManagerError::ServerCurrentlyInitializing { name: "git".to_string() })
    );
    assert_eq!(reg.on_initializing_event("git", Some(initialized())), Some(Ok(())));
    assert!(!reg.is_initializing("git"));
    assert!(reg.is_launched("git"));
    assert_eq!(reg.check_launched("git"), Ok(()));
    assert_eq!(reg.launch_server("git"), Err(McpManagerError::ServerAlreadyLaunched { name: "git".to_string() }));
    assert_eq!(reg.on_initializing_event("git", Some(initialized())), None);
}

#[test]
fn failed_initializations_are_reported() {
    let mut reg = McpRegistry::new();
    reg.launch_server("a").unwrap();
    reg.launch_server("b").unwrap();
    assert_eq!(
        reg.on_initializing_event("a", Some(McpServerActorEvent::InitializeError("bad config".to_string()))),
        Some(Err(McpManagerError::Custom("bad config".to_string())))
    );
    assert_eq!(
        reg.on_initializing_event("b", None),
        Some(Err(McpManagerError::Custom("Server channel closed".to_string())))
    );
    assert!(!reg.is_launched("a") && !reg.is_initializing("a"));
    assert_eq!(reg.launch_server("a"), Ok(()));
}

#[test]
fn manager_error_messages() {
    assert_eq!(
        McpManagerError::ServerNotInitialized { name: "x".to_string() }.message(),
        "Server with the name x is not initialized"
    );
    assert_eq!(
        McpManagerError::ServerCurrentlyInitializing { name: "x".to_string() }.message(),
        "Server with the name x is currently initializing"
    );
    assert_eq!(
        McpManagerError::McpActor(McpServerActorError::Service { message: "down".to_string() }).message(),
        "An error occurred with the service: down"
    );
    assert_eq!(McpManagerError::Channel.message(), "The channel has closed");
}

#[test]
fn actor_tracks_tool_calls_and_listings() {
    let mut st = McpActorState::new("srv".to_string(), None, None);
    assert!(st.tools.is_empty());
    let a = st.start_tool_execution();
    let b = st.start_tool_execution();
    assert_eq!((a, b), (1, 2));
    assert!(st.is_executing(1) && st.is_executing(2));
    assert!(st.finish_tool_execution(1));
    assert!(!st.finish_tool_execution(1));
    assert!(st.is_executing(2));
    st.curr_tool_execution_id = u32::MAX;
    assert_eq!(st.start_tool_execution(), 0);
    let spec = ToolSpec { name: "t".to_string(), description: "d".to_string(), input_schema: serde_json::Value::Null };
    st.on_tools(Ok(vec![spec]));
    assert_eq!(st.tools.len(), 1);
    st.on_tools(Err("list failed".to_string()));
    assert_eq!(st.tools.len(), 1);
    st.on_prompts(Ok(vec![]));
    assert!(st.prompts.is_empty());
}
