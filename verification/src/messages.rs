//! The fixed error messages of the library.
//!
//! Each message exists twice: a spec-level byte sequence that the contracts
//! compare against, and an executable constructor proved to produce it.

use vstd::prelude::*;

use crate::model::ToolKind;
use crate::text::ascii_of;
use crate::text::lit;

verus! {

/// Error for a queried path that is not an existing regular file.
pub open spec fn m_not_a_file() -> Seq<u8> {
    ascii_of("Path is not a file.")
}

/// Renders `m_not_a_file`.
pub fn not_a_file_msg() -> (r: Vec<u8>)
    ensures
        r@ == m_not_a_file(),
{
    proof {
        reveal_strlit("Path is not a file.");
    }
    lit("Path is not a file.")
}

/// Error for a queried path without a parent directory.
pub open spec fn m_invalid_path() -> Seq<u8> {
    ascii_of("Invalid file path.")
}

/// Renders `m_invalid_path`.
pub fn invalid_path_msg() -> (r: Vec<u8>)
    ensures
        r@ == m_invalid_path(),
{
    proof {
        reveal_strlit("Invalid file path.");
    }
    lit("Invalid file path.")
}

/// Error reported when a probe's transcript ends before the probe does.
pub open spec fn m_reply_missing() -> Seq<u8> {
    ascii_of("Runner reply missing.")
}

/// Renders `m_reply_missing`.
pub fn reply_missing_msg() -> (r: Vec<u8>)
    ensures
        r@ == m_reply_missing(),
{
    proof {
        reveal_strlit("Runner reply missing.");
    }
    lit("Runner reply missing.")
}

/// Error for a tool that is absent from the execution search path.
pub open spec fn m_missing(tool: ToolKind) -> Seq<u8> {
    match tool {
        ToolKind::Git => ascii_of("git is not installed or not available on PATH."),
        ToolKind::P4 => ascii_of("p4 is not installed or not available on PATH."),
        ToolKind::Svn => ascii_of("svn is not installed or not available on PATH."),
    }
}

/// Renders `m_missing`.
pub fn missing_msg(tool: ToolKind) -> (r: Vec<u8>)
    ensures
        r@ == m_missing(tool),
{
    match tool {
        ToolKind::Git => {
            proof {
                reveal_strlit("git is not installed or not available on PATH.");
            }
            lit("git is not installed or not available on PATH.")
        },
        ToolKind::P4 => {
            proof {
                reveal_strlit("p4 is not installed or not available on PATH.");
            }
            lit("p4 is not installed or not available on PATH.")
        },
        ToolKind::Svn => {
            proof {
                reveal_strlit("svn is not installed or not available on PATH.");
            }
            lit("svn is not installed or not available on PATH.")
        },
    }
}

/// Prefix of the error for a tool that could not be launched.
pub open spec fn m_run_prefix(tool: ToolKind) -> Seq<u8> {
    match tool {
        ToolKind::Git => ascii_of("Failed to run git: "),
        ToolKind::P4 => ascii_of("Failed to run p4: "),
        ToolKind::Svn => ascii_of("Failed to run svn: "),
    }
}

/// Renders `m_run_prefix`.
pub fn run_prefix_msg(tool: ToolKind) -> (r: Vec<u8>)
    ensures
        r@ == m_run_prefix(tool),
{
    match tool {
        ToolKind::Git => {
            proof {
                reveal_strlit("Failed to run git: ");
            }
            lit("Failed to run git: ")
        },
        ToolKind::P4 => {
            proof {
                reveal_strlit("Failed to run p4: ");
            }
            lit("Failed to run p4: ")
        },
        ToolKind::Svn => {
            proof {
                reveal_strlit("Failed to run svn: ");
            }
            lit("Failed to run svn: ")
        },
    }
}

/// Prefix of the synthesized error for a silent non-zero exit.
pub open spec fn m_exit_prefix(tool: ToolKind) -> Seq<u8> {
    match tool {
        ToolKind::Git => ascii_of("git exited with status "),
        ToolKind::P4 => ascii_of("p4 exited with status "),
        ToolKind::Svn => ascii_of("svn exited with status "),
    }
}

/// Renders `m_exit_prefix`.
pub fn exit_prefix_msg(tool: ToolKind) -> (r: Vec<u8>)
    ensures
        r@ == m_exit_prefix(tool),
{
    match tool {
        ToolKind::Git => {
            proof {
                reveal_strlit("git exited with status ");
            }
            lit("git exited with status ")
        },
        ToolKind::P4 => {
            proof {
                reveal_strlit("p4 exited with status ");
            }
            lit("p4 exited with status ")
        },
        ToolKind::Svn => {
            proof {
                reveal_strlit("svn exited with status ");
            }
            lit("svn exited with status ")
        },
    }
}

/// Error for a repository root that could not be resolved.
pub open spec fn m_root_unresolved() -> Seq<u8> {
    ascii_of("Unable to resolve repository root.")
}

/// Renders `m_root_unresolved`.
pub fn root_unresolved_msg() -> (r: Vec<u8>)
    ensures
        r@ == m_root_unresolved(),
{
    proof {
        reveal_strlit("Unable to resolve repository root.");
    }
    lit("Unable to resolve repository root.")
}

/// Error for a file outside the resolved repository root.
pub open spec fn m_outside_repo() -> Seq<u8> {
    ascii_of("File is not inside the repository.")
}

/// Renders `m_outside_repo`.
pub fn outside_repo_msg() -> (r: Vec<u8>)
    ensures
        r@ == m_outside_repo(),
{
    proof {
        reveal_strlit("File is not inside the repository.");
    }
    lit("File is not inside the repository.")
}

/// Error for a file the distributed VCS does not track.
pub open spec fn m_untracked() -> Seq<u8> {
    ascii_of("File is not tracked in git.")
}

/// Renders `m_untracked`.
pub fn untracked_msg() -> (r: Vec<u8>)
    ensures
        r@ == m_untracked(),
{
    proof {
        reveal_strlit("File is not tracked in git.");
    }
    lit("File is not tracked in git.")
}

/// Error for a content request against a repository root that is not a
/// directory.
pub open spec fn m_root_missing() -> Seq<u8> {
    ascii_of("Repository root does not exist.")
}

/// Renders `m_root_missing`.
pub fn root_missing_msg() -> (r: Vec<u8>)
    ensures
        r@ == m_root_missing(),
{
    proof {
        reveal_strlit("Repository root does not exist.");
    }
    lit("Repository root does not exist.")
}

/// Error for a changelist identifier that is not entirely decimal.
pub open spec fn m_bad_changelist() -> Seq<u8> {
    ascii_of("Invalid changelist.")
}

/// Renders `m_bad_changelist`.
pub fn bad_changelist_msg() -> (r: Vec<u8>)
    ensures
        r@ == m_bad_changelist(),
{
    proof {
        reveal_strlit("Invalid changelist.");
    }
    lit("Invalid changelist.")
}

/// Error for a revision identifier that is not entirely decimal.
pub open spec fn m_bad_revision() -> Seq<u8> {
    ascii_of("Invalid revision.")
}

/// Renders `m_bad_revision`.
pub fn bad_revision_msg() -> (r: Vec<u8>)
    ensures
        r@ == m_bad_revision(),
{
    proof {
        reveal_strlit("Invalid revision.");
    }
    lit("Invalid revision.")
}

/// The combined error reported when every backend failed for a reason that
/// is not a plain "no history here".
pub open spec fn m_combined(git_e: Seq<u8>, p4_e: Seq<u8>, svn_e: Seq<u8>) -> Seq<u8> {
    ascii_of("Git history unavailable: ") + git_e + ascii_of(". P4 history unavailable: ") + p4_e
        + ascii_of(". SVN history unavailable: ") + svn_e
}

/// Renders `m_combined`.
pub fn combined_msg(git_e: &Vec<u8>, p4_e: &Vec<u8>, svn_e: &Vec<u8>) -> (r: Vec<u8>)
    ensures
        r@ == m_combined(git_e@, p4_e@, svn_e@),
{
    proof {
        reveal_strlit("Git history unavailable: ");
        reveal_strlit(". P4 history unavailable: ");
        reveal_strlit(". SVN history unavailable: ");
    }
    let r = lit("Git history unavailable: ");
    let r = crate::text::concat_bytes(&r, git_e);
    let sep1 = lit(". P4 history unavailable: ");
    let r = crate::text::concat_bytes(&r, &sep1);
    let r = crate::text::concat_bytes(&r, p4_e);
    let sep2 = lit(". SVN history unavailable: ");
    let r = crate::text::concat_bytes(&r, &sep2);
    let r = crate::text::concat_bytes(&r, svn_e);
    r
}

} // verus!
