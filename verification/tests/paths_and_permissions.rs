use chat_cli::config::ToolSettings;
use chat_cli::tools::{McpTool, ToolKind};
use chat_cli::path_util::{canonicalize_path_sys, normalize_path, TestFile, TestProvider};
use chat_cli::permissions::{evaluate_permission_for_path, evaluate_tool_permission, PermissionCheckResult, PermissionEvalResult};

#[test]
fn test_canonicalize_path() {
    let sys = TestProvider::new()
        .with_var("TEST_VAR", "test_var")
        .with_cwd("/home/testuser/testdir");

    let tests = [
        ("path", "/home/testuser/testdir/path"),
        ("../**/.rs", "/home/testuser/**/.rs"),
        ("~", "/home/testuser"),
        ("~/file/**.md", "/home/testuser/file/**.md"),
        ("~/.././../home//testuser/path/..", "/home/testuser"),
    ];

    for (path, expected) in tests {
        let actual = canonicalize_path_sys(path, &sys).unwrap();
        assert_eq!(
            actual, expected,
            "Expected '{}' to expand to '{}', instead got '{}'",
            path, expected, actual
        );
    }
}

struct TestCase {
    path_to_check: String,
    allowed_paths: Vec<String>,
    denied_paths: Vec<String>,
    expected: PermissionCheckResult,
}

fn case(path: &str, allowed: Vec<&str>, denied: Vec<&str>, expected: PermissionCheckResult) -> TestCase {
    TestCase {
        path_to_check: path.to_string(),
        allowed_paths: allowed.into_iter().map(|v| v.to_string()).collect(),
        denied_paths: denied.into_iter().map(|v| v.to_string()).collect(),
        expected,
    }
}

#[test]
fn test_evaluate_permission_for_path() {
    let sys = TestProvider::new();

    let test_cases: Vec<TestCase> = vec![
        case("src/main.rs", vec!["src"], vec![], PermissionCheckResult::Allow),
        case("tests/test_file", vec!["tests/**"], vec![], PermissionCheckResult::Allow),
        case("~/home_allow/sub_path", vec!["~/home_allow/"], vec![], PermissionCheckResult::Allow),
        case(
            "denied_dir/sub_path",
            vec![],
            vec!["denied_dir/**/*"],
            PermissionCheckResult::Denied(vec!["denied_dir/**/*".to_string()]),
        ),
        case(
            "denied_dir/sub_path",
            vec!["denied_dir"],
            vec!["denied_dir"],
            PermissionCheckResult::Denied(vec!["denied_dir".to_string()]),
        ),
        case(
            "denied_dir/allowed/hi",
            vec!["denied_dir/allowed"],
            vec!["denied_dir"],
            PermissionCheckResult::Denied(vec!["denied_dir".to_string()]),
        ),
        case(
            "denied_dir/key_id_ecdsa",
            vec![],
            vec!["denied_dir", "*id_ecdsa*"],
            PermissionCheckResult::Denied(vec!["denied_dir".to_string(), "*id_ecdsa*".to_string()]),
        ),
        case("denied_dir", vec![], vec!["denied_dir/**/*"], PermissionCheckResult::Ask),
    ];

    for test in test_cases {
        let actual = evaluate_permission_for_path(&test.path_to_check, &test.allowed_paths, &test.denied_paths);
        assert_eq!(
            actual, test.expected,
            "Received actual result: {:?} for test case: {:?}",
            actual, test.path_to_check,
        );

        // Next, test using canonical paths.
        let path_to_check = canonicalize_path_sys(&test.path_to_check, &sys).unwrap();
        let allowed_paths = test
            .allowed_paths
            .iter()
            .map(|p| canonicalize_path_sys(p, &sys).unwrap())
            .collect::<Vec<_>>();
        let denied_paths = test
            .denied_paths
            .iter()
            .map(|p| canonicalize_path_sys(p, &sys).unwrap())
            .collect::<Vec<_>>();
        let actual = evaluate_permission_for_path(&path_to_check, &allowed_paths, &denied_paths);
        assert_eq!(
            std::mem::discriminant(&actual),
            std::mem::discriminant(&test.expected),
            "Received actual result: {:?} for test case: {:?}.\n\nExpanded paths:\n  {}\n  {:?}\n  {:?}",
            actual,
            test.path_to_check,
            path_to_check,
            allowed_paths,
            denied_paths
        );
    }
}

#[test]
fn normalize_path_resolves_dots_and_separators() {
    assert_eq!(normalize_path("/a/./b//c/../d"), "/a/b/d");
    assert_eq!(normalize_path("a/b/../../c"), "c");
    assert_eq!(normalize_path("/.."), "/");
    assert_eq!(normalize_path("/../x"), "/x");
    assert_eq!(normalize_path("./a/"), "a");
    assert_eq!(normalize_path("/"), "/");
    assert_eq!(normalize_path(""), "");
}

#[test]
fn canonicalize_without_current_dir_fails_for_relative_paths() {
    let sys = TestProvider::new_with_base("/base");
    assert_eq!(canonicalize_path_sys("x/y", &sys).unwrap(), "/base/x/y");
    assert_eq!(canonicalize_path_sys("$HOME/z", &sys).unwrap(), "/base/z");
    assert_eq!(canonicalize_path_sys("$UNSET_VAR/z", &sys).unwrap(), "/base/$UNSET_VAR/z");
}

#[test]
fn test_files_give_their_path_and_content() {
    let f = ("dir/file.txt".to_string(), b"hello".to_vec());
    assert_eq!(f.path(), "dir/file.txt");
    assert_eq!(f.content(), b"hello".to_vec());
}

#[test]
fn paths_expand_home_and_variables() {
    let sys = chat_cli::path_util::TestProvider::new().with_var("PROJECT", "demo");
    assert_eq!(chat_cli::path_util::expand_path("~/code/$PROJECT", &sys).unwrap(), "/home/testuser/code/demo");
    assert_eq!(chat_cli::path_util::expand_path("$MISSING/x", &sys).unwrap(), "$MISSING/x");
    assert_eq!(chat_cli::path_util::expand_path("plain", &sys).unwrap(), "plain");
}

#[test]
fn parent_of_the_root_is_the_root() {
    assert_eq!(normalize_path("/../x"), "/x");
    assert_eq!(normalize_path("/.."), "/");
    let sys = TestProvider::new();
    assert_eq!(canonicalize_path_sys("/../q_no_such_dir_xyz", &sys).unwrap(), "/q_no_such_dir_xyz");
    assert_eq!(canonicalize_path_sys("~/../../../etc", &sys).unwrap(), "/etc");
}

#[test]
fn trusted_mcp_tool_is_allowed_without_asking() {
    let tool = ToolKind::Mcp(McpTool { tool_name: "read".to_string(), server_name: "srv".to_string(), params: None });
    let sys = TestProvider::new();
    let settings = ToolSettings::default();
    let before = evaluate_tool_permission(&vec!["fs_read".to_string()], &settings, &tool, &sys);
    assert!(matches!(before, Ok(PermissionEvalResult::Ask)));
    let trusted = vec!["fs_read".to_string(), "@srv/read".to_string()];
    let after = evaluate_tool_permission(&trusted, &settings, &tool, &sys);
    assert!(matches!(after, Ok(PermissionEvalResult::Allow)));
}
