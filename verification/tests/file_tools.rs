use chat_cli::task_executor::{ToolExecutionError, ToolExecutionOutputItem};
use chat_cli::tools::{FsRead, FsReadOp, Mkdir, PathKind, MAX_READ_SIZE};

fn op(path: &str, offset: Option<u32>, limit: Option<u32>) -> FsReadOp {
    FsReadOp { path: path.to_string(), limit, offset }
}

fn lines(n: usize) -> Vec<String> {
    (1..=n).map(|i| format!("line {}", i)).collect()
}

#[test]
fn read_content_selects_the_window() {
    let file = lines(5);
    assert_eq!(op("f", None, None).read_content(&file), "line 1\nline 2\nline 3\nline 4\nline 5");
    assert_eq!(op("f", Some(1), Some(2)).read_content(&file), "line 2\nline 3");
    assert_eq!(op("f", Some(3), None).read_content(&file), "line 4\nline 5");
    assert_eq!(op("f", Some(9), Some(2)).read_content(&file), "");
    assert_eq!(op("f", None, Some(0)).read_content(&file), "");
    assert_eq!(op("f", None, None).read_content(&Vec::new()), "");
}

#[test]
fn read_content_marks_cut_reads() {
    let cap = MAX_READ_SIZE as usize + 1;
    let file: Vec<String> = vec!["x".to_string(); cap + 1];
    let out = op("f", None, None).read_content(&file);
    assert!(out.ends_with("x...truncated"));
    assert_eq!(out.matches('x').count(), cap);
    let exact: Vec<String> = vec!["x".to_string(); cap];
    assert!(!op("f", None, None).read_content(&exact).ends_with("...truncated"));
}

#[test]
fn fs_read_validation_reports_each_problem() {
    let read = FsRead { ops: vec![op("a", None, None), op("b", None, None), op("c", None, None), op("d", None, None)] };
    let checks = vec![
        Ok(("/w/a".to_string(), PathKind::File)),
        Ok(("/w/b".to_string(), PathKind::Absent)),
        Ok(("/w/c".to_string(), PathKind::Directory)),
        Ok(("/w/d".to_string(), PathKind::Unreadable)),
    ];
    assert_eq!(
        read.validate(&checks).unwrap_err(),
        "'/w/b' does not exist\n'/w/c' is not a file\nFailed to check file metadata for '/w/d'"
    );
    let ok = vec![Ok(("/w/a".to_string(), PathKind::File)); 4];
    assert_eq!(read.validate(&ok), Ok(()));
}

#[test]
fn fs_read_validation_stops_at_an_unresolved_path() {
    let read = FsRead { ops: vec![op("a", None, None), op("b", None, None), op("c", None, None)] };
    let checks = vec![
        Ok(("/w/a".to_string(), PathKind::Absent)),
        Err("could not get current directory: not found".to_string()),
        Err("second".to_string()),
    ];
    assert_eq!(read.validate(&checks).unwrap_err(), "could not get current directory: not found");
}

#[test]
fn fs_read_results_combine_outputs_or_failures() {
    let read = FsRead { ops: vec![op("a", None, None), op("b", None, None)] };
    let all_ok = read
        .combine_results(vec![
            Ok(ToolExecutionOutputItem::Text("A".to_string())),
            Ok(ToolExecutionOutputItem::Text("B".to_string())),
        ])
        .unwrap();
    assert_eq!(all_ok.items.len(), 2);
    assert!(matches!(&all_ok.items[1], ToolExecutionOutputItem::Text(t) if t == "B"));
    match read.combine_results(vec![Err("gone".to_string()), Err("denied".to_string())]) {
        Err(ToolExecutionError::Custom(m)) => {
            assert_eq!(m, "Operation for 'a' failed: gone,Operation for 'b' failed: denied")
        },
        other => panic!("unexpected {:?}", other),
    }
}

#[test]
fn mkdir_validation() {
    let empty = Mkdir { path: String::new() };
    assert_eq!(empty.validate(&Ok("/x".to_string()), PathKind::Absent).unwrap_err(), "Path must not be empty");
    let dir = Mkdir { path: "new_dir".to_string() };
    assert_eq!(dir.validate(&Ok("/w/new_dir".to_string()), PathKind::Absent), Ok(()));
    assert_eq!(
        dir.validate(&Ok("/w/new_dir".to_string()), PathKind::Directory).unwrap_err(),
        "A directory at new_dir already exists"
    );
    assert_eq!(
        dir.validate(&Ok("/w/new_dir".to_string()), PathKind::File).unwrap_err(),
        "A file at new_dir already exists"
    );
    assert_eq!(dir.validate(&Err("no cwd".to_string()), PathKind::Absent).unwrap_err(), "no cwd");
}
