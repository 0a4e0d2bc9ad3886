//! The distributed VCS backend: probe, history, content and error
//! classification.
//!
//! The probe runs three commands: a root query, a tracked-file check, and
//! the log query.  [`git_probe_step`] decides, from the queried path and
//! the replies received so far, whether another command must run or the
//! probe is finished; [`git_history_blocking`] is the same decision over a
//! complete transcript.

use vstd::prelude::*;

use crate::gitlog::parse_git_log;
use crate::gitlog::spec_parse_git_log;
use crate::messages::invalid_path_msg;
use crate::messages::m_invalid_path;
use crate::messages::m_missing;
use crate::messages::m_not_a_file;
use crate::messages::m_outside_repo;
use crate::messages::m_reply_missing;
use crate::messages::m_root_missing;
use crate::messages::m_root_unresolved;
use crate::messages::m_untracked;
use crate::messages::not_a_file_msg;
use crate::messages::outside_repo_msg;
use crate::messages::reply_missing_msg;
use crate::messages::root_missing_msg;
use crate::messages::root_unresolved_msg;
use crate::messages::untracked_msg;
use crate::model::GitHistoryResult;
use crate::model::GitHistoryResultV;
use crate::model::ToolKind;
use crate::paths::parent_dir;
use crate::paths::spec_parent;
use crate::paths::spec_strip_prefix;
use crate::paths::spec_to_git_path;
use crate::paths::strip_prefix;
use crate::paths::to_git_path;
use crate::runner::Reply;
use crate::runner::ReplyV;
use crate::runner::VcsCmd;
use crate::runner::VcsCmdV;
use crate::runner::replies_view;
use crate::runner::reply_view;
use crate::text::ascii_of;
use crate::text::clone_bytes;
use crate::text::contains_sub;
use crate::text::has_sub;
use crate::text::lit;
use crate::text::lines;
use crate::text::lower_seq;
use crate::text::bytes_eq;
use crate::text::spec_lines;
use crate::text::spec_trim;
use crate::text::to_lower;
use crate::text::trim;

verus! {

/// The root-query command.
pub open spec fn spec_git_root_cmd(parent: Seq<u8>) -> VcsCmdV {
    VcsCmdV {
        tool: ToolKind::Git,
        args: seq![ascii_of("rev-parse"), ascii_of("--show-toplevel")],
        cwd: parent,
    }
}

/// The tracked-file check command.
pub open spec fn spec_git_tracked_cmd(root: Seq<u8>, rel: Seq<u8>) -> VcsCmdV {
    VcsCmdV {
        tool: ToolKind::Git,
        args: seq![
            ascii_of("ls-files"),
            ascii_of("--error-unmatch"),
            ascii_of("--"),
            rel,
        ],
        cwd: root,
    }
}

/// The log-query command, with rename following and per-commit status
/// lines.
pub open spec fn spec_git_log_cmd(root: Seq<u8>, rel: Seq<u8>) -> VcsCmdV {
    VcsCmdV {
        tool: ToolKind::Git,
        args: seq![
            ascii_of("--no-pager"),
            ascii_of("log"),
            ascii_of("--follow"),
            ascii_of("--name-status"),
            ascii_of("--format=%H\t%ct\t%an\t%s"),
            ascii_of("--"),
            rel,
        ],
        cwd: root,
    }
}

/// The repository root read from the root query's output: the first line,
/// trimmed, when it is non-empty.
pub open spec fn spec_git_root(out: Seq<u8>) -> Option<Seq<u8>> {
    let ls = spec_lines(out);
    if ls.len() == 0 {
        Option::None
    } else if spec_trim(ls[0]).len() == 0 {
        Option::None
    } else {
        Option::Some(spec_trim(ls[0]))
    }
}

/// The command the probe runs next, given the replies so far; nothing when
/// the probe is already decided.
pub open spec fn spec_git_request(path: Seq<u8>, is_file: bool, replies: Seq<ReplyV>) -> Option<
    VcsCmdV,
> {
    if !is_file {
        Option::None
    } else {
        match spec_parent(path) {
            Option::None => Option::None,
            Option::Some(parent) => if replies.len() == 0 {
                Option::Some(spec_git_root_cmd(parent))
            } else {
                match replies[0] {
                    Result::Err(_) => Option::None,
                    Result::Ok(out) => match spec_git_root(out) {
                        Option::None => Option::None,
                        Option::Some(root) => match spec_strip_prefix(path, root) {
                            Option::None => Option::None,
                            Option::Some(rel0) => if replies.len() == 1 {
                                Option::Some(
                                    spec_git_tracked_cmd(root, spec_to_git_path(rel0)),
                                )
                            } else {
                                match replies[1] {
                                    Result::Err(_) => Option::None,
                                    Result::Ok(_) => if replies.len() == 2 {
                                        Option::Some(
                                            spec_git_log_cmd(root, spec_to_git_path(rel0)),
                                        )
                                    } else {
                                        Option::None
                                    },
                                }
                            },
                        },
                    },
                }
            },
        }
    }
}

/// The probe's decision over a transcript; a transcript shorter than the
/// probe's requests decides `m_reply_missing`.
pub open spec fn spec_git_probe(path: Seq<u8>, is_file: bool, replies: Seq<ReplyV>) -> Result<
    GitHistoryResultV,
    Seq<u8>,
> {
    if !is_file {
        Result::Err(m_not_a_file())
    } else {
        match spec_parent(path) {
            Option::None => Result::Err(m_invalid_path()),
            Option::Some(parent) => if replies.len() < 1 {
                Result::Err(m_reply_missing())
            } else {
                match replies[0] {
                    Result::Err(e) => Result::Err(e),
                    Result::Ok(out) => match spec_git_root(out) {
                        Option::None => Result::Err(m_root_unresolved()),
                        Option::Some(root) => match spec_strip_prefix(path, root) {
                            Option::None => Result::Err(m_outside_repo()),
                            Option::Some(rel0) => if replies.len() < 2 {
                                Result::Err(m_reply_missing())
                            } else {
                                match replies[1] {
                                    Result::Err(_) => Result::Err(m_untracked()),
                                    Result::Ok(_) => if replies.len() < 3 {
                                        Result::Err(m_reply_missing())
                                    } else {
                                        match replies[2] {
                                            Result::Err(e) => Result::Err(e),
                                            Result::Ok(log) => Result::Ok(
                                                GitHistoryResultV {
                                                    repo_root: root,
                                                    relative_path: spec_to_git_path(rel0),
                                                    entries: spec_parse_git_log(
                                                        log,
                                                        spec_to_git_path(rel0),
                                                    ),
                                                },
                                            ),
                                        }
                                    },
                                }
                            },
                        },
                    },
                }
            },
        }
    }
}

/// How many replies of a transcript the probe consumed.
pub open spec fn spec_git_used(path: Seq<u8>, is_file: bool, replies: Seq<ReplyV>) -> int {
    if !is_file {
        0
    } else {
        match spec_parent(path) {
            Option::None => 0,
            Option::Some(parent) => if replies.len() < 1 {
                0
            } else {
                match replies[0] {
                    Result::Err(_) => 1,
                    Result::Ok(out) => match spec_git_root(out) {
                        Option::None => 1,
                        Option::Some(root) => match spec_strip_prefix(path, root) {
                            Option::None => 1,
                            Option::Some(_) => if replies.len() < 2 {
                                1
                            } else {
                                match replies[1] {
                                    Result::Err(_) => 2,
                                    Result::Ok(_) => if replies.len() < 3 {
                                        2
                                    } else {
                                        3
                                    },
                                }
                            },
                        },
                    },
                }
            },
        }
    }
}

/// Counts how many replies of a transcript the probe consumed.
pub fn git_used_count(path: &Vec<u8>, is_file: bool, replies: &Vec<Reply>) -> (r: usize)
    ensures
        r == spec_git_used(path@, is_file, replies_view(replies@)),
        r <= replies@.len(),
{
    if !is_file {
        return 0;
    }
    match parent_dir(path) {
        Option::None => {
            return 0;
        },
        Option::Some(_) => {},
    }
    if replies.len() < 1 {
        return 0;
    }
    proof {
        assert(replies_view(replies@)[0] == reply_view(replies@[0]));
    }
    let out = match &replies[0] {
        Result::Err(_) => {
            return 1;
        },
        Result::Ok(out) => out,
    };
    let out_lines = lines(out);
    if out_lines.len() == 0 {
        return 1;
    }
    let root = trim(&out_lines[0]);
    proof {
        assert(out_lines[0]@ =~= spec_lines(out@)[0]);
    }
    if root.len() == 0 {
        return 1;
    }
    match strip_prefix(path, &root) {
        Option::None => {
            return 1;
        },
        Option::Some(_) => {},
    }
    if replies.len() < 2 {
        return 1;
    }
    proof {
        assert(replies_view(replies@)[1] == reply_view(replies@[1]));
    }
    match &replies[1] {
        Result::Err(_) => {
            return 2;
        },
        Result::Ok(_) => {},
    }
    if replies.len() < 3 {
        return 2;
    }
    3
}

/// Spec-level image of a probe result.
pub open spec fn git_res_view(r: Result<GitHistoryResult, Vec<u8>>) -> Result<
    GitHistoryResultV,
    Seq<u8>,
> {
    match r {
        Result::Ok(g) => Result::Ok(g@),
        Result::Err(e) => Result::Err(e@),
    }
}

/// One step of the probe: the next command to run, or its decision.
#[derive(Debug)]
pub enum GitStep {
    Run(VcsCmd),
    Done(Result<GitHistoryResult, Vec<u8>>),
}

/// Builds the root-query command.
fn git_root_cmd(parent: Vec<u8>) -> (c: VcsCmd)
    ensures
        c@ == spec_git_root_cmd(parent@),
{
    proof {
        reveal_strlit("rev-parse");
        reveal_strlit("--show-toplevel");
    }
    let mut args: Vec<Vec<u8>> = Vec::new();
    args.push(lit("rev-parse"));
    args.push(lit("--show-toplevel"));
    let c = VcsCmd { tool: ToolKind::Git, args, cwd: parent };
    proof {
        assert(c@.args =~~= spec_git_root_cmd(c.cwd@).args);
    }
    c
}

/// Builds the tracked-file check command.
fn git_tracked_cmd(root: Vec<u8>, rel: Vec<u8>) -> (c: VcsCmd)
    ensures
        c@ == spec_git_tracked_cmd(root@, rel@),
{
    proof {
        reveal_strlit("ls-files");
        reveal_strlit("--error-unmatch");
        reveal_strlit("--");
    }
    let ghost relv = rel@;
    let mut args: Vec<Vec<u8>> = Vec::new();
    args.push(lit("ls-files"));
    args.push(lit("--error-unmatch"));
    args.push(lit("--"));
    args.push(rel);
    let c = VcsCmd { tool: ToolKind::Git, args, cwd: root };
    proof {
        assert(c@.args =~~= spec_git_tracked_cmd(c.cwd@, relv).args);
    }
    c
}

/// Builds the log-query command.
fn git_log_cmd(root: Vec<u8>, rel: Vec<u8>) -> (c: VcsCmd)
    ensures
        c@ == spec_git_log_cmd(root@, rel@),
{
    proof {
        reveal_strlit("--no-pager");
        reveal_strlit("log");
        reveal_strlit("--follow");
        reveal_strlit("--name-status");
        reveal_strlit("--format=%H\t%ct\t%an\t%s");
        reveal_strlit("--");
    }
    let ghost relv = rel@;
    let mut args: Vec<Vec<u8>> = Vec::new();
    args.push(lit("--no-pager"));
    args.push(lit("log"));
    args.push(lit("--follow"));
    args.push(lit("--name-status"));
    args.push(lit("--format=%H\t%ct\t%an\t%s"));
    args.push(lit("--"));
    args.push(rel);
    let c = VcsCmd { tool: ToolKind::Git, args, cwd: root };
    proof {
        assert(c@.args =~~= spec_git_log_cmd(c.cwd@, relv).args);
    }
    c
}

/// Decides the probe's next move from the replies received so far.
pub fn git_probe_step(path: &Vec<u8>, is_file: bool, replies: &Vec<Reply>) -> (r: GitStep)
    ensures
        match r {
            GitStep::Run(c) => spec_git_request(path@, is_file, replies_view(replies@))
                == Option::Some(c@) && spec_git_probe(path@, is_file, replies_view(replies@))
                == Result::<GitHistoryResultV, Seq<u8>>::Err(m_reply_missing()),
            GitStep::Done(res) => spec_git_request(path@, is_file, replies_view(replies@))
                == Option::<VcsCmdV>::None && git_res_view(res) == spec_git_probe(
                path@,
                is_file,
                replies_view(replies@),
            ),
        },
{
    if !is_file {
        return GitStep::Done(Result::Err(not_a_file_msg()));
    }
    let parent = match parent_dir(path) {
        Option::Some(p) => p,
        Option::None => {
            return GitStep::Done(Result::Err(invalid_path_msg()));
        },
    };
    if replies.len() == 0 {
        return GitStep::Run(git_root_cmd(parent));
    }
    proof {
        assert(replies_view(replies@)[0] == reply_view(replies@[0]));
    }
    let out = match &replies[0] {
        Result::Err(e) => {
            return GitStep::Done(Result::Err(clone_bytes(e)));
        },
        Result::Ok(out) => out,
    };
    let out_lines = lines(out);
    if out_lines.len() == 0 {
        return GitStep::Done(Result::Err(root_unresolved_msg()));
    }
    let root = trim(&out_lines[0]);
    proof {
        assert(out_lines[0]@ =~= spec_lines(out@)[0]);
    }
    if root.len() == 0 {
        return GitStep::Done(Result::Err(root_unresolved_msg()));
    }
    let rel0 = match strip_prefix(path, &root) {
        Option::Some(r) => r,
        Option::None => {
            return GitStep::Done(Result::Err(outside_repo_msg()));
        },
    };
    let rel = to_git_path(&rel0);
    if replies.len() == 1 {
        return GitStep::Run(git_tracked_cmd(root, rel));
    }
    proof {
        assert(replies_view(replies@)[1] == reply_view(replies@[1]));
    }
    match &replies[1] {
        Result::Err(_) => {
            return GitStep::Done(Result::Err(untracked_msg()));
        },
        Result::Ok(_) => {},
    }
    if replies.len() == 2 {
        return GitStep::Run(git_log_cmd(root, rel));
    }
    proof {
        assert(replies_view(replies@)[2] == reply_view(replies@[2]));
    }
    match &replies[2] {
        Result::Err(e) => GitStep::Done(Result::Err(clone_bytes(e))),
        Result::Ok(log) => {
            let entries = parse_git_log(log, &rel);
            GitStep::Done(
                Result::Ok(GitHistoryResult { repo_root: root, relative_path: rel, entries }),
            )
        },
    }
}

/// The probe's decision over a complete transcript of runner replies.
pub fn git_history_blocking(path: &Vec<u8>, is_file: bool, replies: &Vec<Reply>) -> (r: Result<
    GitHistoryResult,
    Vec<u8>,
>)
    ensures
        git_res_view(r) == spec_git_probe(path@, is_file, replies_view(replies@)),
{
    match git_probe_step(path, is_file, replies) {
        GitStep::Done(res) => res,
        GitStep::Run(_) => Result::Err(reply_missing_msg()),
    }
}

/// The content-query command: show the object `revision:path`.
pub open spec fn spec_git_show_cmd(root: Seq<u8>, commit: Seq<u8>, path: Seq<u8>) -> VcsCmdV {
    VcsCmdV {
        tool: ToolKind::Git,
        args: seq![
            ascii_of("--no-pager"),
            ascii_of("show"),
            commit + ascii_of(":") + spec_to_git_path(path),
        ],
        cwd: root,
    }
}

/// Builds the content request, when the repository root is a directory.
pub fn git_show_file_request(
    repo_root: &Vec<u8>,
    commit: &Vec<u8>,
    path: &Vec<u8>,
    root_is_dir: bool,
) -> (r: Result<VcsCmd, Vec<u8>>)
    ensures
        match r {
            Result::Ok(c) => root_is_dir && c@ == spec_git_show_cmd(repo_root@, commit@, path@),
            Result::Err(e) => !root_is_dir && e@ == m_root_missing(),
        },
{
    if !root_is_dir {
        return Result::Err(root_missing_msg());
    }
    proof {
        reveal_strlit("--no-pager");
        reveal_strlit("show");
        reveal_strlit(":");
    }
    let normalized = to_git_path(path);
    let colon = lit(":");
    let spec0 = crate::text::concat_bytes(commit, &colon);
    let spec_arg = crate::text::concat_bytes(&spec0, &normalized);
    let mut args: Vec<Vec<u8>> = Vec::new();
    args.push(lit("--no-pager"));
    args.push(lit("show"));
    args.push(spec_arg);
    let c = VcsCmd { tool: ToolKind::Git, args, cwd: clone_bytes(repo_root) };
    proof {
        assert(c@.args =~~= spec_git_show_cmd(repo_root@, commit@, path@).args);
    }
    Result::Ok(c)
}

/// The decision over a content reply: the input check first, then the
/// reply as the tool gave it.
pub open spec fn spec_git_show(root_is_dir: bool, reply: ReplyV) -> ReplyV {
    if !root_is_dir {
        Result::Err(m_root_missing())
    } else {
        reply
    }
}

/// Retrieves historical content over a one-reply transcript.
pub fn git_show_file_blocking(
    repo_root: &Vec<u8>,
    commit: &Vec<u8>,
    path: &Vec<u8>,
    root_is_dir: bool,
    reply: Reply,
) -> (r: Reply)
    ensures
        reply_view(r) == spec_git_show(root_is_dir, reply_view(reply)),
{
    if !root_is_dir {
        return Result::Err(root_missing_msg());
    }
    reply
}

/// The errors that mean "this backend has no history here" and allow the
/// resolver to fall through to the next backend.
pub open spec fn spec_is_git_no_history(e: Seq<u8>) -> bool {
    ||| e == m_missing(ToolKind::Git)
    ||| e == m_outside_repo()
    ||| e == m_untracked()
    ||| e == m_root_unresolved()
    ||| has_sub(lower_seq(e), ascii_of("not a git repository"))
    ||| has_sub(lower_seq(e), ascii_of("not in a git directory"))
}

/// Classifies an error as "no history in the distributed VCS".
pub fn is_git_no_history(error: &Vec<u8>) -> (r: bool)
    ensures
        r == spec_is_git_no_history(error@),
{
    proof {
        reveal_strlit("not a git repository");
        reveal_strlit("not in a git directory");
    }
    let lower = to_lower(error);
    let missing = crate::messages::missing_msg(ToolKind::Git);
    let outside = outside_repo_msg();
    let untracked = untracked_msg();
    let unresolved = root_unresolved_msg();
    bytes_eq(error, &missing) || bytes_eq(error, &outside) || bytes_eq(error, &untracked)
        || bytes_eq(error, &unresolved) || contains_sub(&lower, &lit("not a git repository"))
        || contains_sub(&lower, &lit("not in a git directory"))
}

} // verus!
