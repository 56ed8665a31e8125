use chat_cli::launch::{chat_input, select_model, trust_tools_warnings, uses_profile_flag};

fn models() -> Vec<(String, Option<String>)> {
    vec![
        ("model-a".to_string(), Some("sonnet-4".to_string())),
        ("model-b".to_string(), None),
        ("model-c".to_string(), Some("haiku-3".to_string())),
    ]
}

fn strings(v: &[&str]) -> Vec<String> {
    v.iter().map(|s| s.to_string()).collect()
}

#[test]
fn requested_model_found_by_name_gives_its_id() {
    let r = select_model(Some("haiku-3".to_string()), None, None, &models(), "default".to_string());
    assert_eq!(r, Ok((Some("model-c".to_string()), false)));
}

#[test]
fn requested_model_found_by_id() {
    let r = select_model(Some("model-b".to_string()), Some("model-a".to_string()), None, &models(), "default".to_string());
    assert_eq!(r, Ok((Some("model-b".to_string()), false)));
}

#[test]
fn requested_model_missing_lists_names_or_ids() {
    let r = select_model(Some("gpt".to_string()), None, None, &models(), "default".to_string());
    assert_eq!(
        r,
        Err("Model 'gpt' does not exist. Available models: sonnet-4, model-b, haiku-3".to_string())
    );
}

#[test]
fn requested_model_missing_with_no_models() {
    let r = select_model(Some("gpt".to_string()), None, None, &Vec::new(), "default".to_string());
    assert_eq!(r, Err("Model 'gpt' does not exist. Available models: ".to_string()));
}

#[test]
fn agent_model_found_is_used() {
    let r = select_model(None, Some("sonnet-4".to_string()), Some("model-b".to_string()), &models(), "d".to_string());
    assert_eq!(r, Ok((Some("model-a".to_string()), false)));
}

#[test]
fn agent_model_missing_warns_and_falls_back_to_saved_default() {
    let r = select_model(None, Some("gone".to_string()), Some("haiku-3".to_string()), &models(), "d".to_string());
    assert_eq!(r, Ok((Some("model-c".to_string()), true)));
}

#[test]
fn agent_model_missing_and_saved_default_missing_uses_default_id() {
    let r = select_model(None, Some("gone".to_string()), Some("also-gone".to_string()), &models(), "d".to_string());
    assert_eq!(r, Ok((Some("d".to_string()), true)));
}

#[test]
fn no_choice_uses_saved_default_then_default_id() {
    let r = select_model(None, None, Some("model-b".to_string()), &models(), "d".to_string());
    assert_eq!(r, Ok((Some("model-b".to_string()), false)));
    let r = select_model(None, None, None, &models(), "d".to_string());
    assert_eq!(r, Ok((Some("d".to_string()), false)));
}

#[test]
fn first_matching_model_wins() {
    let ms = vec![
        ("x".to_string(), Some("same".to_string())),
        ("same".to_string(), None),
    ];
    let r = select_model(Some("same".to_string()), None, None, &ms, "d".to_string());
    assert_eq!(r, Ok((Some("x".to_string()), false)));
}

#[test]
fn trust_tools_warn_only_for_unprefixed_custom_tools() {
    let tools = strings(&["fs_read", "my_tool", "@server/tool", "execute_cmd", "", "other", "@"]);
    assert_eq!(trust_tools_warnings(&tools), strings(&["my_tool", "", "other"]));
}

#[test]
fn trust_tools_without_warnings() {
    assert_eq!(trust_tools_warnings(&strings(&["fs_write", "@git/status"])), Vec::<String>::new());
    assert_eq!(trust_tools_warnings(&Vec::new()), Vec::<String>::new());
}

#[test]
fn interactive_chat_keeps_its_input() {
    assert_eq!(chat_input(false, None, Some("ignored".to_string())), Ok(None));
    assert_eq!(chat_input(false, Some("hi".to_string()), None), Ok(Some("hi".to_string())));
    assert_eq!(chat_input(true, Some(" hi ".to_string()), None), Ok(Some(" hi ".to_string())));
}

#[test]
fn non_interactive_chat_reads_piped_input_trimmed() {
    assert_eq!(chat_input(true, None, Some("  what is rust?\n".to_string())), Ok(Some("what is rust?".to_string())));
}

#[test]
fn non_interactive_chat_without_input_fails() {
    let msg = "Input must be supplied when running in non-interactive mode".to_string();
    assert_eq!(chat_input(true, None, None), Err(msg.clone()));
    assert_eq!(chat_input(true, None, Some(" \n\t".to_string())), Err(msg));
}

#[test]
fn deprecated_profile_flag_is_noticed() {
    assert!(uses_profile_flag(&strings(&["q", "chat", "--profile", "dev"])));
    assert!(uses_profile_flag(&strings(&["q", "chat", "--profile=dev"])));
    assert!(uses_profile_flag(&strings(&["--profile="])));
    assert!(!uses_profile_flag(&strings(&["q", "chat", "--agent", "dev", "--profiles", "-profile"])));
    assert!(!uses_profile_flag(&strings(&["--profil", "profile"])));
    assert!(!uses_profile_flag(&Vec::new()));
}
