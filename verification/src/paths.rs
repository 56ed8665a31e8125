//! The application's workspace-level and user-level paths.

use vstd::prelude::*;

use crate::globs::{builder_patterns, glob_compiles, glob_new, globset_builder_add};
use crate::path_util::{is_absolute, join_onto, join_path};
use crate::permissions::{dir_glob, dir_glob_of};

verus! {

/// Errors in finding the application's directories.
#[derive(Debug)]
pub enum DirectoryError {
    /// There is no home directory.
    NoHomeDirectory,
    /// There is no runtime directory.
    NoRuntimeDirectory,
    /// An I/O failure, with its message.
    Io(String),
    /// A glob could not be created.
    GlobCreation(globset::Error),
}

/// The directories of the operating system that paths are resolved against.
#[derive(Debug, Clone)]
pub struct Os {
    /// The user's home directory, if there is one.
    pub home: Option<String>,
    /// The current working directory, if there is one.
    pub current_dir: Option<String>,
}

/// The message of the error returned when there is no current directory.
pub open spec fn no_current_dir_message() -> Seq<char> {
    "current directory not found"@
}

/// `rel` under the current directory, or the error for its absence.
pub open spec fn under_current_dir(os: Os, rel: Seq<char>) -> Option<Seq<char>> {
    match os.current_dir {
        Some(c) => Some(join_path(c@, rel)),
        None => None,
    }
}

/// `rel` under the home directory, if there is one.
pub open spec fn under_home(os: Os, rel: Seq<char>) -> Option<Seq<char>> {
    match os.home {
        Some(h) => Some(join_path(h@, rel)),
        None => None,
    }
}

/// Whether `r` is `expected` as a path, with the error for a missing base directory
/// otherwise (`workspace` tells which base).
pub open spec fn dir_result(r: Result<String, DirectoryError>, expected: Option<Seq<char>>, workspace: bool) -> bool {
    match expected {
        Some(p) => r matches Ok(s) && s@ == p,
        None => if workspace {
            r matches Err(DirectoryError::Io(m)) && m@ == no_current_dir_message()
        } else {
            r matches Err(DirectoryError::NoHomeDirectory)
        },
    }
}

/// `rel` under the current directory.
fn workspace_path(os: &Os, rel: &str) -> (res: Result<String, DirectoryError>)
    requires
        !is_absolute(rel@),
    ensures
        dir_result(res, under_current_dir(*os, rel@), true),
{
    match &os.current_dir {
        Some(c) => Ok(join_onto(c, &String::from_str(rel))),
        None => Err(DirectoryError::Io(String::from_str("current directory not found"))),
    }
}

/// `rel` under the home directory.
fn global_path(os: &Os, rel: &str) -> (res: Result<String, DirectoryError>)
    requires
        !is_absolute(rel@),
    ensures
        dir_result(res, under_home(*os, rel@), false),
{
    match &os.home {
        Some(h) => Ok(join_onto(h, &String::from_str(rel))),
        None => Err(DirectoryError::NoHomeDirectory),
    }
}

/// The user's home directory.
pub fn home_dir(os: &Os) -> (res: Result<String, DirectoryError>)
    ensures
        match os.home {
            Some(h) => res matches Ok(s) && s@ == h@,
            None => res matches Err(DirectoryError::NoHomeDirectory),
        },
{
    match &os.home {
        Some(h) => Ok(h.clone()),
        None => Err(DirectoryError::NoHomeDirectory),
    }
}

/// Adds to `builder` the globs for `path` as a file and as a directory (`path/**`),
/// since a glob does not match the children of a directory by itself.
pub fn add_gitignore_globs(builder: &mut globset::GlobSetBuilder, path: &str) -> (res: Result<(), DirectoryError>)
    ensures
        res is Ok <==> glob_compiles(path@) && glob_compiles(dir_glob(path@)),
        res is Ok ==> builder_patterns(*final(builder)) == builder_patterns(*old(builder)).push(path@).push(
            dir_glob(path@),
        ),
        res is Err ==> builder_patterns(*final(builder)) == builder_patterns(*old(builder)),
        res matches Err(e) ==> e is GlobCreation,
{
    let glob_for_file = match glob_new(path) {
        Ok(g) => g,
        Err(e) => {
            return Err(DirectoryError::GlobCreation(e));
        },
    };
    let dir_pattern = dir_glob_of(path);
    let glob_for_dir = match glob_new(dir_pattern.as_str()) {
        Ok(g) => g,
        Err(e) => {
            return Err(DirectoryError::GlobCreation(e));
        },
    };
    globset_builder_add(builder, glob_for_file);
    globset_builder_add(builder, glob_for_dir);
    Ok(())
}

/// Resolves the application's paths against the directories of an [Os].
pub struct PathResolver<'a> {
    pub os: &'a Os,
}

/// Workspace-scoped paths, under the current directory.
pub struct WorkspacePaths<'a> {
    pub os: &'a Os,
}

/// User-scoped paths, under the home directory.
pub struct GlobalPaths<'a> {
    pub os: &'a Os,
}

impl<'a> PathResolver<'a> {
    pub fn new(os: &'a Os) -> (res: Self)
        ensures
            *res.os == *os,
    {
        PathResolver { os }
    }

    /// The workspace-scoped paths.
    pub fn workspace(&self) -> (res: WorkspacePaths<'_>)
        ensures
            *res.os == *self.os,
    {
        WorkspacePaths { os: self.os }
    }

    /// The user-scoped paths.
    pub fn global(&self) -> (res: GlobalPaths<'_>)
        ensures
            *res.os == *self.os,
    {
        GlobalPaths { os: self.os }
    }
}

impl<'a> WorkspacePaths<'a> {
    /// The workspace's agent directory, `.amazonq/cli-agents`.
    pub fn agents_dir(&self) -> (res: Result<String, DirectoryError>)
        ensures
            dir_result(res, under_current_dir(*self.os, ".amazonq/cli-agents"@), true),
    {
        proof {
            reveal_strlit(".amazonq/cli-agents");
        }
        workspace_path(self.os, ".amazonq/cli-agents")
    }

    /// The workspace's prompt directory, `.amazonq/prompts`.
    pub fn prompts_dir(&self) -> (res: Result<String, DirectoryError>)
        ensures
            dir_result(res, under_current_dir(*self.os, ".amazonq/prompts"@), true),
    {
        proof {
            reveal_strlit(".amazonq/prompts");
        }
        workspace_path(self.os, ".amazonq/prompts")
    }

    /// The workspace's MCP configuration, `.amazonq/mcp.json`.
    pub fn mcp_config(&self) -> (res: Result<String, DirectoryError>)
        ensures
            dir_result(res, under_current_dir(*self.os, ".amazonq/mcp.json"@), true),
    {
        proof {
            reveal_strlit(".amazonq/mcp.json");
        }
        workspace_path(self.os, ".amazonq/mcp.json")
    }

    /// The workspace's to-do list directory, `.amazonq/cli-todo-lists`.
    pub fn todo_lists_dir(&self) -> (res: Result<String, DirectoryError>)
        ensures
            dir_result(res, under_current_dir(*self.os, ".amazonq/cli-todo-lists"@), true),
    {
        proof {
            reveal_strlit(".amazonq/cli-todo-lists");
        }
        workspace_path(self.os, ".amazonq/cli-todo-lists")
    }

    /// The workspace's subagent directory, `.amazonq/.subagents`.
    pub fn subagents_dir(&self) -> (res: Result<String, DirectoryError>)
        ensures
            dir_result(res, under_current_dir(*self.os, ".amazonq/.subagents"@), true),
    {
        proof {
            reveal_strlit(".amazonq/.subagents");
        }
        workspace_path(self.os, ".amazonq/.subagents")
    }
}

impl<'a> GlobalPaths<'a> {
    /// The user's agent directory, `.aws/amazonq/cli-agents`.
    pub fn agents_dir(&self) -> (res: Result<String, DirectoryError>)
        ensures
            dir_result(res, under_home(*self.os, ".aws/amazonq/cli-agents"@), false),
    {
        proof {
            reveal_strlit(".aws/amazonq/cli-agents");
        }
        global_path(self.os, ".aws/amazonq/cli-agents")
    }

    /// The user's prompt directory, `.aws/amazonq/prompts`.
    pub fn prompts_dir(&self) -> (res: Result<String, DirectoryError>)
        ensures
            dir_result(res, under_home(*self.os, ".aws/amazonq/prompts"@), false),
    {
        proof {
            reveal_strlit(".aws/amazonq/prompts");
        }
        global_path(self.os, ".aws/amazonq/prompts")
    }

    /// The user's MCP configuration, `.aws/amazonq/mcp.json`.
    pub fn mcp_config(&self) -> (res: Result<String, DirectoryError>)
        ensures
            dir_result(res, under_home(*self.os, ".aws/amazonq/mcp.json"@), false),
    {
        proof {
            reveal_strlit(".aws/amazonq/mcp.json");
        }
        global_path(self.os, ".aws/amazonq/mcp.json")
    }

    /// The user's checkout directory, `.aws/amazonq/cli-checkouts`.
    pub fn shadow_repo_dir(&self) -> (res: Result<String, DirectoryError>)
        ensures
            dir_result(res, under_home(*self.os, ".aws/amazonq/cli-checkouts"@), false),
    {
        proof {
            reveal_strlit(".aws/amazonq/cli-checkouts");
        }
        global_path(self.os, ".aws/amazonq/cli-checkouts")
    }

    /// The user's shell history file, `.aws/amazonq/.cli_bash_history`.
    pub fn cli_bash_history(&self) -> (res: Result<String, DirectoryError>)
        ensures
            dir_result(res, under_home(*self.os, ".aws/amazonq/.cli_bash_history"@), false),
    {
        proof {
            reveal_strlit(".aws/amazonq/.cli_bash_history");
        }
        global_path(self.os, ".aws/amazonq/.cli_bash_history")
    }

    /// The user's global context file, `.aws/amazonq/global_context.json`.
    pub fn global_context(&self) -> (res: Result<String, DirectoryError>)
        ensures
            dir_result(res, under_home(*self.os, ".aws/amazonq/global_context.json"@), false),
    {
        proof {
            reveal_strlit(".aws/amazonq/global_context.json");
        }
        global_path(self.os, ".aws/amazonq/global_context.json")
    }

    /// The user's profile directory, `.aws/amazonq/profiles`.
    pub fn profiles_dir(&self) -> (res: Result<String, DirectoryError>)
        ensures
            dir_result(res, under_home(*self.os, ".aws/amazonq/profiles"@), false),
    {
        proof {
            reveal_strlit(".aws/amazonq/profiles");
        }
        global_path(self.os, ".aws/amazonq/profiles")
    }

    /// The user's knowledge base directory, `.aws/amazonq/knowledge_bases`.
    pub fn knowledge_bases_dir(&self) -> (res: Result<String, DirectoryError>)
        ensures
            dir_result(res, under_home(*self.os, ".aws/amazonq/knowledge_bases"@), false),
    {
        proof {
            reveal_strlit(".aws/amazonq/knowledge_bases");
        }
        global_path(self.os, ".aws/amazonq/knowledge_bases")
    }

    /// The directory of cached MCP credentials: `.aws`, `sso` and `cache` joined in turn
    /// onto the home directory.
    pub fn mcp_auth_dir(&self) -> (res: Result<String, DirectoryError>)
        ensures
            dir_result(
                res,
                match self.os.home {
                    Some(h) => Some(join_path(join_path(join_path(h@, ".aws"@), "sso"@), "cache"@)),
                    None => None,
                },
                false,
            ),
    {
        proof {
            reveal_strlit(".aws");
            reveal_strlit("sso");
            reveal_strlit("cache");
        }
        match &self.os.home {
            Some(h) => {
                let a = join_onto(h, &String::from_str(".aws"));
                let b = join_onto(&a, &String::from_str("sso"));
                Ok(join_onto(&b, &String::from_str("cache")))
            },
            None => Err(DirectoryError::NoHomeDirectory),
        }
    }
}

} // verus!
