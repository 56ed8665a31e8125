//! The tools an agent can use, as far as permission checks and validation read them.

use vstd::prelude::*;

use crate::task_executor::{ToolExecutionError, ToolExecutionOutput, ToolExecutionOutputItem};
use crate::text::{join_strings, join_with, strings_view};
use crate::tool_names::{BuiltInToolName, CanonicalToolName};

verus! {

/// One read of the file-reading tool.
#[derive(Debug, Clone)]
pub struct FsReadOp {
    /// Path to the file.
    pub path: String,
    /// Number of lines to read.
    pub limit: Option<u32>,
    /// Line offset from the start of the file to start reading from.
    pub offset: Option<u32>,
}

/// A tool for reading files.
#[derive(Debug, Clone)]
pub struct FsRead {
    pub ops: Vec<FsReadOp>,
}

/// Context kept between reads.
#[derive(Debug, Clone)]
pub struct FileReadContext {}

/// The paths that a file read touches, in order.
pub open spec fn fs_read_paths(ops: Seq<FsReadOp>) -> Seq<Seq<char>> {
    ops.map_values(|op: FsReadOp| op.path@)
}

impl FsRead {
    /// The paths of the reads, in order.
    pub fn paths(&self) -> (res: Vec<String>)
        ensures
            strings_view(res@) == fs_read_paths(self.ops@),
    {
        let mut out: Vec<String> = Vec::new();
        let mut i: usize = 0;
        while i < self.ops.len()
            invariant
                i <= self.ops.len(),
                strings_view(out@) == fs_read_paths(self.ops@.take(i as int)),
            decreases self.ops.len() - i,
        {
            let ghost before = out@;
            out.push(self.ops[i].path.clone());
            proof {
                assert(strings_view(out@) =~= strings_view(before).push(self.ops@[i as int].path@));
                assert(fs_read_paths(self.ops@.take(i + 1)) =~= fs_read_paths(self.ops@.take(i as int)).push(
                    self.ops@[i as int].path@,
                ));
            }
            i = i + 1;
        }
        proof {
            assert(self.ops@.take(self.ops.len() as int) =~= self.ops@);
        }
        out
    }
}

/// What the file system holds at a path.
#[derive(Debug, Clone, Copy, PartialEq, Eq, Structural)]
pub enum PathKind {
    /// Nothing is there.
    Absent,
    /// Something is there, but its metadata could not be read.
    Unreadable,
    Directory,
    File,
    /// Something else, such as a symbolic link.
    Other,
}

/// Most lines a single read returns before it is cut.
pub const MAX_READ_SIZE: u32 = 256000;

/// What is wrong with reading the path `p` that holds `k`, if anything.
pub open spec fn read_problem(p: Seq<char>, k: PathKind) -> Option<Seq<char>> {
    match k {
        PathKind::Absent => Some("'"@ + p + "' does not exist"@),
        PathKind::Unreadable => Some("Failed to check file metadata for '"@ + p + "'"@),
        PathKind::File => None,
        _ => Some("'"@ + p + "' is not a file"@),
    }
}

/// The problems found with the checked paths, in order.
pub open spec fn read_problems(checks: Seq<Result<(String, PathKind), String>>) -> Seq<Seq<char>>
    decreases checks.len(),
{
    if checks.len() == 0 {
        Seq::empty()
    } else {
        let rest = read_problems(checks.drop_last());
        match checks.last() {
            Ok((p, k)) => match read_problem(p@, k) {
                Some(m) => rest.push(m),
                None => rest,
            },
            Err(_) => rest,
        }
    }
}

/// The first path that could not be resolved, by its error message.
pub open spec fn first_unresolved(checks: Seq<Result<(String, PathKind), String>>) -> Option<Seq<char>>
    decreases checks.len(),
{
    if checks.len() == 0 {
        None
    } else {
        match checks[0] {
            Err(m) => Some(m@),
            Ok(_) => first_unresolved(checks.skip(1)),
        }
    }
}

/// The lines that a read with the given offset and limit selects from a file's lines.
pub open spec fn read_window(lines: Seq<Seq<char>>, offset: Option<u32>, limit: Option<u32>) -> Seq<Seq<char>> {
    let o: int = match offset {
        Some(n) => n as int,
        None => 0,
    };
    let l: int = match limit {
        Some(n) => n as int,
        None => u32::MAX as int,
    };
    let start = if o < lines.len() {
        o
    } else {
        lines.len() as int
    };
    let end = if start + l < lines.len() {
        start + l
    } else {
        lines.len() as int
    };
    lines.subrange(start, end)
}

/// The text of a read that selected `window`: at most [MAX_READ_SIZE] + 1 lines joined by new
/// lines, marked when more were selected.
pub open spec fn read_text(window: Seq<Seq<char>>) -> Seq<char> {
    let cap = MAX_READ_SIZE as int + 1;
    if window.len() > cap {
        join_with(window.take(cap), "\n"@) + "...truncated"@
    } else {
        join_with(window, "\n"@)
    }
}

/// The message for a failed read of `path`.
pub open spec fn failed_read_message(path: Seq<char>, err: Seq<char>) -> Seq<char> {
    "Operation for '"@ + path + "' failed: "@ + err
}

/// The messages of the failed reads, in order.
pub open spec fn failed_reads(ops: Seq<FsReadOp>, results: Seq<Result<ToolExecutionOutputItem, String>>) -> Seq<
    Seq<char>,
>
    decreases results.len(),
{
    if results.len() == 0 || ops.len() < results.len() {
        Seq::empty()
    } else {
        let rest = failed_reads(ops, results.drop_last());
        match results.last() {
            Err(e) => rest.push(failed_read_message(ops[results.len() - 1].path@, e@)),
            Ok(_) => rest,
        }
    }
}

/// The outputs of the successful reads, in order.
pub open spec fn read_outputs(results: Seq<Result<ToolExecutionOutputItem, String>>) -> Seq<ToolExecutionOutputItem>
    decreases results.len(),
{
    if results.len() == 0 {
        Seq::empty()
    } else {
        let rest = read_outputs(results.drop_last());
        match results.last() {
            Ok(item) => rest.push(item),
            Err(_) => rest,
        }
    }
}

impl FsReadOp {
    /// The text this read gives from the lines of its file.
    pub fn read_content(&self, lines: &Vec<String>) -> (res: String)
        ensures
            res@ == read_text(read_window(strings_view(lines@), self.offset, self.limit)),
    {
        let ghost all = strings_view(lines@);
        let n = lines.len();
        let o: usize = match self.offset {
            Some(v) => v as usize,
            None => 0,
        };
        let l: usize = match self.limit {
            Some(v) => v as usize,
            None => 4294967295usize,
        };
        let start: usize = if o < n {
            o
        } else {
            n
        };
        let end: usize = if l < n - start {
            start + l
        } else {
            n
        };
        let ghost window = all.subrange(start as int, end as int);
        assert(window == read_window(all, self.offset, self.limit));
        let mut content: Vec<String> = Vec::new();
        let mut i: usize = start;
        while i < end && content.len() <= MAX_READ_SIZE as usize
            invariant
                start <= i <= end <= n == lines.len(),
                all == strings_view(lines@),
                window == all.subrange(start as int, end as int),
                content.len() == i - start,
                content.len() <= MAX_READ_SIZE as int + 1,
                strings_view(content@) == window.take(i - start),
            decreases end - i,
        {
            let ghost before = content@;
            content.push(lines[i].clone());
            proof {
                assert(strings_view(content@) =~= strings_view(before).push(lines@[i as int]@));
                assert(window.take(i + 1 - start) =~= window.take(i - start).push(all[i as int]));
            }
            i = i + 1;
        }
        let truncated = i < end;
        let ghost cap = MAX_READ_SIZE as int + 1;
        proof {
            if truncated {
                assert(content.len() == cap);
                assert(window.len() > cap);
            } else {
                assert(window.take(window.len() as int) =~= window);
            }
        }
        let mut text = join_strings(&content, "\n");
        if truncated {
            text.append("...truncated");
        }
        proof {
            reveal_strlit("\n");
            reveal_strlit("...truncated");
        }
        text
    }
}

impl FsRead {
    /// Validates the reads, given for each read in order its resolved path and what the file
    /// system holds there, or why the path could not be resolved. The first path that could not
    /// be resolved fails the validation; otherwise each path must be a file.
    pub fn validate(&self, checks: &Vec<Result<(String, PathKind), String>>) -> (res: Result<(), String>)
        requires
            checks.len() == self.ops.len(),
        ensures
            match first_unresolved(checks@) {
                Some(m) => res matches Err(e) && e@ == m,
                None => if read_problems(checks@).len() == 0 {
                    res is Ok
                } else {
                    res matches Err(e) && e@ == join_with(read_problems(checks@), "\n"@)
                },
            },
    {
        let mut errors: Vec<String> = Vec::new();
        let mut i: usize = 0;
        proof {
            assert(checks@.skip(0) =~= checks@);
            assert(checks@.take(0) =~= Seq::<Result<(String, PathKind), String>>::empty());
        }
        while i < checks.len()
            invariant
                i <= checks.len(),
                first_unresolved(checks@) == first_unresolved(checks@.skip(i as int)),
                strings_view(errors@) == read_problems(checks@.take(i as int)),
            decreases checks.len() - i,
        {
            proof {
                assert(checks@.take(i + 1).drop_last() =~= checks@.take(i as int));
                assert(checks@.skip(i as int).skip(1) =~= checks@.skip(i + 1));
            }
            match &checks[i] {
                Err(m) => {
                    return Err(m.clone());
                },
                Ok((p, k)) => {
                    let ghost before = errors@;
                    match k {
                        PathKind::Absent => {
                            let mut e = String::from_str("'");
                            e.append(p.as_str());
                            e.append("' does not exist");
                            errors.push(e);
                        },
                        PathKind::Unreadable => {
                            let mut e = String::from_str("Failed to check file metadata for '");
                            e.append(p.as_str());
                            e.append("'");
                            errors.push(e);
                        },
                        PathKind::File => {},
                        _ => {
                            let mut e = String::from_str("'");
                            e.append(p.as_str());
                            e.append("' is not a file");
                            errors.push(e);
                        },
                    }
                    proof {
                        reveal_strlit("'");
                        reveal_strlit("' does not exist");
                        reveal_strlit("Failed to check file metadata for '");
                        reveal_strlit("' is not a file");
                        assert(checks@.take(i + 1).last() == checks@[i as int]);
                        if read_problem(p@, *k) is Some {
                            assert(strings_view(errors@) =~= strings_view(before).push(read_problem(p@, *k).unwrap()));
                        } else {
                            assert(strings_view(errors@) =~= strings_view(before));
                        }
                    }
                },
            }
            i = i + 1;
        }
        proof {
            assert(checks@.take(checks.len() as int) =~= checks@);
            assert(checks@.skip(checks.len() as int).len() == 0);
        }
        if errors.len() > 0 {
            let joined = join_strings(&errors, "\n");
            proof {
                reveal_strlit("\n");
            }
            Err(joined)
        } else {
            Ok(())
        }
    }

    /// The result of the reads, given each read's output or error message in order: the
    /// outputs when all succeeded, else the messages of the failed ones.
    pub fn combine_results(&self, results: Vec<Result<ToolExecutionOutputItem, String>>) -> (res: Result<
        ToolExecutionOutput,
        ToolExecutionError,
    >)
        requires
            results.len() == self.ops.len(),
        ensures
            failed_reads(self.ops@, results@).len() == 0 ==> (res matches Ok(out) && out.items@ == read_outputs(
                results@,
            )),
            failed_reads(self.ops@, results@).len() > 0 ==> (res matches Err(ToolExecutionError::Custom(m)) && m@
                == join_with(failed_reads(self.ops@, results@), ","@)),
    {
        let ghost rs = results@;
        let mut items: Vec<ToolExecutionOutputItem> = Vec::new();
        let mut errors: Vec<String> = Vec::new();
        let mut i: usize = 0;
        let n = results.len();
        let mut rest = results;
        proof {
            assert(rest@ =~= rs.skip(0));
        }
        while i < n
            invariant
                n == rs.len() == self.ops.len(),
                i <= n,
                rest@ == rs.skip(i as int),
                items@ == read_outputs(rs.take(i as int)),
                strings_view(errors@) == failed_reads(self.ops@, rs.take(i as int)),
            decreases n - i,
        {
            proof {
                assert(rs.take(i + 1).drop_last() =~= rs.take(i as int));
                assert(rs.take(i + 1).last() == rs[i as int]);
                assert(rest@[0] == rs[i as int]);
            }
            let r = rest.remove(0);
            let ghost before = errors@;
            match r {
                Ok(item) => {
                    items.push(item);
                },
                Err(e) => {
                    let mut m = String::from_str("Operation for '");
                    m.append(self.ops[i].path.as_str());
                    m.append("' failed: ");
                    m.append(e.as_str());
                    errors.push(m);
                    proof {
                        reveal_strlit("Operation for '");
                        reveal_strlit("' failed: ");
                        assert(strings_view(errors@) =~= strings_view(before).push(
                            failed_read_message(self.ops@[i as int].path@, e@),
                        ));
                    }
                },
            }
            proof {
                assert(rest@ =~= rs.skip(i + 1));
                if r is Ok {
                    assert(strings_view(errors@) =~= strings_view(before));
                }
            }
            i = i + 1;
        }
        proof {
            assert(rs.take(n as int) =~= rs);
        }
        if errors.len() > 0 {
            let joined = join_strings(&errors, ",");
            Err(ToolExecutionError::Custom(joined))
        } else {
            Ok(ToolExecutionOutput { items })
        }
    }
}

/// The error message for an empty directory path.
pub open spec fn empty_path_message() -> Seq<char> {
    "Path must not be empty"@
}

/// A tool for creating directories.
#[derive(Debug, Clone)]
pub struct Mkdir {
    pub path: String,
}

impl Mkdir {
    /// Rejects an empty path; what the file system holds is checked by the caller.
    pub fn validate_path(&self) -> (res: Result<(), String>)
        ensures
            res is Ok <==> self.path@.len() > 0,
            res matches Err(e) ==> e@ == empty_path_message(),
    {
        if self.path.as_str().unicode_len() == 0 {
            Err(String::from_str("Path must not be empty"))
        } else {
            Ok(())
        }
    }

    /// Validates the directory to create, given its resolved path (or why it could not be
    /// resolved) and what the file system holds there: the path must be non-empty, resolve, and
    /// name nothing that exists.
    pub fn validate(&self, canonical: &Result<String, String>, kind: PathKind) -> (res: Result<(), String>)
        ensures
            self.path@.len() == 0 ==> (res matches Err(e) && e@ == empty_path_message()),
            self.path@.len() > 0 ==> match canonical {
                Err(m) => res matches Err(e) && e@ == m@,
                Ok(_) => match kind {
                    PathKind::Absent => res is Ok,
                    PathKind::Directory => res matches Err(e) && e@ == "A directory at "@ + self.path@
                        + " already exists"@,
                    _ => res matches Err(e) && e@ == "A file at "@ + self.path@ + " already exists"@,
                },
            },
    {
        self.validate_path()?;
        match canonical {
            Err(m) => Err(m.clone()),
            Ok(_) => match kind {
                PathKind::Absent => Ok(()),
                PathKind::Directory => {
                    let mut e = String::from_str("A directory at ");
                    e.append(self.path.as_str());
                    e.append(" already exists");
                    proof {
                        reveal_strlit("A directory at ");
                        reveal_strlit(" already exists");
                    }
                    Err(e)
                },
                _ => {
                    let mut e = String::from_str("A file at ");
                    e.append(self.path.as_str());
                    e.append(" already exists");
                    proof {
                        reveal_strlit("A file at ");
                        reveal_strlit(" already exists");
                    }
                    Err(e)
                },
            },
        }
    }
}

/// A tool for writing a file.
#[derive(Debug, Clone)]
pub struct FsWrite {
    /// The file written.
    pub path: String,
}

/// A tool for listing a directory.
#[derive(Debug, Clone)]
pub struct Ls {
    pub path: String,
}

/// A tool for reading images.
#[derive(Debug, Clone)]
pub struct ImageRead {
    pub paths: Vec<String>,
}

/// A tool for searching file contents.
#[derive(Debug, Clone)]
pub struct Grep {
    pub pattern: String,
}

/// A tool for running a shell command.
#[derive(Debug, Clone)]
pub struct ExecuteCmd {
    pub command: String,
}

/// A tool for the agent to inspect itself.
#[derive(Debug, Clone)]
pub struct Introspect {}

/// A tool of an MCP server.
#[derive(Debug, Clone)]
pub struct McpTool {
    pub tool_name: String,
    pub server_name: String,
    /// Parameters to pass to the tool, if any.
    pub params: Option<serde_json::Value>,
}

impl McpTool {
    /// The tool's canonical name.
    pub fn canonical_tool_name(&self) -> (res: CanonicalToolName)
        ensures
            res matches CanonicalToolName::Mcp { server_name, tool_name } && server_name@ == self.server_name@
                && tool_name@ == self.tool_name@,
    {
        CanonicalToolName::Mcp { server_name: self.server_name.clone(), tool_name: self.tool_name.clone() }
    }
}

/// A use of a built-in tool.
#[derive(Debug, Clone)]
pub enum BuiltInTool {
    FileRead(FsRead),
    FileWrite(FsWrite),
    Ls(Ls),
    ImageRead(ImageRead),
    Grep(Grep),
    Mkdir(Mkdir),
    ExecuteCmd(ExecuteCmd),
    Introspect(Introspect),
    SpawnSubagent,
}

/// A use of a tool.
#[derive(Debug, Clone)]
pub enum ToolKind {
    BuiltIn(BuiltInTool),
    Mcp(McpTool),
}

/// The built-in tool that a use is of.
pub open spec fn builtin_tool_name_of(t: BuiltInTool) -> BuiltInToolName {
    match t {
        BuiltInTool::FileRead(_) => BuiltInToolName::FsRead,
        BuiltInTool::FileWrite(_) => BuiltInToolName::FsWrite,
        BuiltInTool::Ls(_) => BuiltInToolName::Ls,
        BuiltInTool::ImageRead(_) => BuiltInToolName::ImageRead,
        BuiltInTool::Grep(_) => BuiltInToolName::Grep,
        BuiltInTool::Mkdir(_) => BuiltInToolName::Mkdir,
        BuiltInTool::ExecuteCmd(_) => BuiltInToolName::ExecuteCmd,
        BuiltInTool::Introspect(_) => BuiltInToolName::Introspect,
        BuiltInTool::SpawnSubagent => BuiltInToolName::SpawnSubagent,
    }
}

/// Whether `c` is the canonical name of the tool used.
pub open spec fn is_canonical_name_of(t: ToolKind, c: CanonicalToolName) -> bool {
    match t {
        ToolKind::BuiltIn(b) => c == CanonicalToolName::BuiltIn(builtin_tool_name_of(b)),
        ToolKind::Mcp(m) => c matches CanonicalToolName::Mcp { server_name, tool_name }
            && server_name@ == m.server_name@ && tool_name@ == m.tool_name@,
    }
}

impl BuiltInTool {
    /// The built-in tool that this is a use of.
    pub fn tool_name(&self) -> (res: BuiltInToolName)
        ensures
            res == builtin_tool_name_of(*self),
    {
        match self {
            BuiltInTool::FileRead(_) => BuiltInToolName::FsRead,
            BuiltInTool::FileWrite(_) => BuiltInToolName::FsWrite,
            BuiltInTool::Ls(_) => BuiltInToolName::Ls,
            BuiltInTool::ImageRead(_) => BuiltInToolName::ImageRead,
            BuiltInTool::Grep(_) => BuiltInToolName::Grep,
            BuiltInTool::Mkdir(_) => BuiltInToolName::Mkdir,
            BuiltInTool::ExecuteCmd(_) => BuiltInToolName::ExecuteCmd,
            BuiltInTool::Introspect(_) => BuiltInToolName::Introspect,
            BuiltInTool::SpawnSubagent => BuiltInToolName::SpawnSubagent,
        }
    }
}

impl ToolKind {
    /// The canonical name of the tool used.
    pub fn canonical_tool_name(&self) -> (res: CanonicalToolName)
        ensures
            is_canonical_name_of(*self, res),
    {
        match self {
            ToolKind::BuiltIn(b) => CanonicalToolName::BuiltIn(b.tool_name()),
            ToolKind::Mcp(m) => m.canonical_tool_name(),
        }
    }
}

} // verus!
