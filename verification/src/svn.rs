//! The legacy centralized VCS backend: probe, history, content and error
//! classification.
//!
//! The probe runs two commands: a best-effort working-copy-root query,
//! whose failure is tolerated, and the verbose XML log query.

use vstd::prelude::*;

use crate::messages::bad_revision_msg;
use crate::messages::invalid_path_msg;
use crate::messages::m_bad_revision;
use crate::messages::m_invalid_path;
use crate::messages::m_missing;
use crate::messages::m_not_a_file;
use crate::messages::m_reply_missing;
use crate::messages::not_a_file_msg;
use crate::messages::reply_missing_msg;
use crate::model::Provider;
use crate::model::ToolKind;
use crate::model::VcsHistoryResult;
use crate::model::VcsHistoryResultV;
use crate::p4::vcs_res_view;
use crate::paths::parent_dir;
use crate::paths::spec_basename;
use crate::paths::spec_parent;
use crate::paths::spec_strip_prefix;
use crate::paths::spec_to_git_path;
use crate::paths::strip_prefix;
use crate::paths::to_git_path;
use crate::runner::Reply;
use crate::runner::ReplyV;
use crate::runner::VcsCmd;
use crate::runner::VcsCmdV;
use crate::runner::replies_view;
use crate::runner::reply_view;
use crate::svnlog::parse_svn_log_entries;
use crate::svnlog::spec_parse_svn_log;
use crate::text::ascii_of;
use crate::text::bytes_eq;
use crate::text::clone_bytes;
use crate::text::contains_sub;
use crate::text::has_sub;
use crate::text::lines;
use crate::text::lit;
use crate::text::lower_seq;
use crate::text::spec_lines;
use crate::text::spec_trim;
use crate::text::to_lower;
use crate::text::trim;

verus! {

/// The working-copy-root query command.
pub open spec fn spec_svn_info_cmd(path: Seq<u8>, parent: Seq<u8>) -> VcsCmdV {
    VcsCmdV {
        tool: ToolKind::Svn,
        args: seq![
            ascii_of("info"),
            ascii_of("--show-item"),
            ascii_of("wc-root"),
            path,
        ],
        cwd: parent,
    }
}

/// The verbose XML log command.
pub open spec fn spec_svn_log_cmd(path: Seq<u8>, parent: Seq<u8>) -> VcsCmdV {
    VcsCmdV {
        tool: ToolKind::Svn,
        args: seq![
            ascii_of("log"),
            ascii_of("--xml"),
            ascii_of("--verbose"),
            path,
        ],
        cwd: parent,
    }
}

/// The working-copy root read from the info reply: the first line,
/// trimmed, when the query succeeded and the line is non-empty.  Absence
/// of a root is tolerated, never fatal.
pub open spec fn spec_svn_wcroot(reply: ReplyV) -> Option<Seq<u8>> {
    match reply {
        Result::Err(_) => Option::None,
        Result::Ok(out) => {
            let ls = spec_lines(out);
            if ls.len() == 0 {
                Option::None
            } else if spec_trim(ls[0]).len() == 0 {
                Option::None
            } else {
                Option::Some(spec_trim(ls[0]))
            }
        },
    }
}

/// The relative path reported with the entries: the queried path relative
/// to the working-copy root when both resolve, else the basename fallback.
pub open spec fn spec_svn_rel(path: Seq<u8>, wcroot: Option<Seq<u8>>) -> Seq<u8> {
    match wcroot {
        Option::Some(root) => match spec_strip_prefix(path, root) {
            Option::Some(rel0) => spec_to_git_path(rel0),
            Option::None => spec_basename(path),
        },
        Option::None => spec_basename(path),
    }
}

/// The command the probe runs next, given the replies so far.
pub open spec fn spec_svn_request(path: Seq<u8>, is_file: bool, replies: Seq<ReplyV>) -> Option<
    VcsCmdV,
> {
    if !is_file {
        Option::None
    } else {
        match spec_parent(path) {
            Option::None => Option::None,
            Option::Some(parent) => if replies.len() == 0 {
                Option::Some(spec_svn_info_cmd(path, parent))
            } else if replies.len() == 1 {
                Option::Some(spec_svn_log_cmd(path, parent))
            } else {
                Option::None
            },
        }
    }
}

/// The probe's decision over a transcript.
pub open spec fn spec_svn_probe(path: Seq<u8>, is_file: bool, replies: Seq<ReplyV>) -> Result<
    VcsHistoryResultV,
    Seq<u8>,
> {
    if !is_file {
        Result::Err(m_not_a_file())
    } else {
        match spec_parent(path) {
            Option::None => Result::Err(m_invalid_path()),
            Option::Some(parent) => if replies.len() < 2 {
                Result::Err(m_reply_missing())
            } else {
                let root = spec_svn_wcroot(replies[0]);
                let rel = spec_svn_rel(path, root);
                match replies[1] {
                    Result::Err(e) => Result::Err(e),
                    Result::Ok(out) => Result::Ok(
                        VcsHistoryResultV {
                            provider: Provider::Svn,
                            repo_root: root,
                            relative_path: rel,
                            entries: spec_parse_svn_log(out, rel),
                        },
                    ),
                }
            },
        }
    }
}

/// One step of the probe: the next command to run, or its decision.
#[derive(Debug)]
pub enum SvnStep {
    Run(VcsCmd),
    Done(Result<VcsHistoryResult, Vec<u8>>),
}

/// Builds the working-copy-root query command.
fn svn_info_cmd(path: Vec<u8>, parent: Vec<u8>) -> (c: VcsCmd)
    ensures
        c@ == spec_svn_info_cmd(path@, parent@),
{
    proof {
        reveal_strlit("info");
        reveal_strlit("--show-item");
        reveal_strlit("wc-root");
    }
    let ghost pathv = path@;
    let mut args: Vec<Vec<u8>> = Vec::new();
    args.push(lit("info"));
    args.push(lit("--show-item"));
    args.push(lit("wc-root"));
    args.push(path);
    let c = VcsCmd { tool: ToolKind::Svn, args, cwd: parent };
    proof {
        assert(c@.args =~~= spec_svn_info_cmd(pathv, c.cwd@).args);
    }
    c
}

/// Builds the XML log command.
fn svn_log_cmd(path: Vec<u8>, parent: Vec<u8>) -> (c: VcsCmd)
    ensures
        c@ == spec_svn_log_cmd(path@, parent@),
{
    proof {
        reveal_strlit("log");
        reveal_strlit("--xml");
        reveal_strlit("--verbose");
    }
    let ghost pathv = path@;
    let mut args: Vec<Vec<u8>> = Vec::new();
    args.push(lit("log"));
    args.push(lit("--xml"));
    args.push(lit("--verbose"));
    args.push(path);
    let c = VcsCmd { tool: ToolKind::Svn, args, cwd: parent };
    proof {
        assert(c@.args =~~= spec_svn_log_cmd(pathv, c.cwd@).args);
    }
    c
}

/// Reads the working-copy root out of the info reply.
fn svn_wcroot(reply: &Reply) -> (r: Option<Vec<u8>>)
    ensures
        match r {
            Option::Some(root) => spec_svn_wcroot(reply_view(*reply)) == Option::Some(root@),
            Option::None => spec_svn_wcroot(reply_view(*reply)) == Option::<Seq<u8>>::None,
        },
{
    match reply {
        Result::Err(_) => Option::None,
        Result::Ok(out) => {
            let out_lines = lines(out);
            if out_lines.len() == 0 {
                return Option::None;
            }
            let root = trim(&out_lines[0]);
            proof {
                assert(out_lines[0]@ =~= spec_lines(out@)[0]);
            }
            if root.len() == 0 {
                Option::None
            } else {
                Option::Some(root)
            }
        },
    }
}

/// Decides the probe's next move from the replies received so far.
pub fn svn_probe_step(path: &Vec<u8>, is_file: bool, replies: &Vec<Reply>) -> (r: SvnStep)
    ensures
        match r {
            SvnStep::Run(c) => spec_svn_request(path@, is_file, replies_view(replies@))
                == Option::Some(c@) && spec_svn_probe(path@, is_file, replies_view(replies@))
                == Result::<VcsHistoryResultV, Seq<u8>>::Err(m_reply_missing()),
            SvnStep::Done(res) => spec_svn_request(path@, is_file, replies_view(replies@))
                == Option::<VcsCmdV>::None && vcs_res_view(res) == spec_svn_probe(
                path@,
                is_file,
                replies_view(replies@),
            ),
        },
{
    if !is_file {
        return SvnStep::Done(Result::Err(not_a_file_msg()));
    }
    let parent = match parent_dir(path) {
        Option::Some(p) => p,
        Option::None => {
            return SvnStep::Done(Result::Err(invalid_path_msg()));
        },
    };
    if replies.len() == 0 {
        return SvnStep::Run(svn_info_cmd(clone_bytes(path), parent));
    }
    if replies.len() == 1 {
        return SvnStep::Run(svn_log_cmd(clone_bytes(path), parent));
    }
    proof {
        assert(replies_view(replies@)[0] == reply_view(replies@[0]));
        assert(replies_view(replies@)[1] == reply_view(replies@[1]));
    }
    let root = svn_wcroot(&replies[0]);
    let rel = match &root {
        Option::Some(r) => {
            match strip_prefix(path, r) {
                Option::Some(rel0) => to_git_path(&rel0),
                Option::None => crate::paths::basename(path),
            }
        },
        Option::None => crate::paths::basename(path),
    };
    match &replies[1] {
        Result::Err(e) => SvnStep::Done(Result::Err(clone_bytes(e))),
        Result::Ok(out) => {
            let entries = parse_svn_log_entries(out, &rel);
            SvnStep::Done(
                Result::Ok(
                    VcsHistoryResult {
                        provider: Provider::Svn,
                        repo_root: root,
                        relative_path: rel,
                        entries,
                    },
                ),
            )
        },
    }
}

/// The probe's decision over a complete transcript of runner replies.
pub fn svn_history_blocking(path: &Vec<u8>, is_file: bool, replies: &Vec<Reply>) -> (r: Result<
    VcsHistoryResult,
    Vec<u8>,
>)
    ensures
        vcs_res_view(r) == spec_svn_probe(path@, is_file, replies_view(replies@)),
{
    match svn_probe_step(path, is_file, replies) {
        SvnStep::Done(res) => res,
        SvnStep::Run(_) => Result::Err(reply_missing_msg()),
    }
}

/// The content-query command: print the file at the given revision.
pub open spec fn spec_svn_cat_cmd(revision: Seq<u8>, working_path: Seq<u8>, cwd: Seq<u8>) -> VcsCmdV {
    VcsCmdV {
        tool: ToolKind::Svn,
        args: seq![ascii_of("cat"), ascii_of("-r"), revision, working_path],
        cwd: cwd,
    }
}

/// Builds the content request: the revision must be entirely decimal and
/// the working path must have a parent directory.
pub fn svn_show_file_request(revision: &Vec<u8>, working_path: &Vec<u8>) -> (r: Result<
    VcsCmd,
    Vec<u8>,
>)
    ensures
        match r {
            Result::Ok(c) => revision@.len() > 0 && crate::text::all_digits(revision@)
                && spec_parent(working_path@) is Some && c@ == spec_svn_cat_cmd(
                revision@,
                working_path@,
                spec_parent(working_path@).unwrap(),
            ),
            Result::Err(e) => {
                ||| (!(revision@.len() > 0 && crate::text::all_digits(revision@)) && e@
                    == m_bad_revision())
                ||| (revision@.len() > 0 && crate::text::all_digits(revision@) && spec_parent(
                    working_path@,
                ) is None && e@ == m_invalid_path())
            },
        },
{
    if !crate::text::is_decimal(revision) {
        return Result::Err(bad_revision_msg());
    }
    let cwd = match parent_dir(working_path) {
        Option::Some(p) => p,
        Option::None => {
            return Result::Err(invalid_path_msg());
        },
    };
    proof {
        reveal_strlit("cat");
        reveal_strlit("-r");
    }
    let mut args: Vec<Vec<u8>> = Vec::new();
    args.push(lit("cat"));
    args.push(lit("-r"));
    args.push(clone_bytes(revision));
    args.push(clone_bytes(working_path));
    let c = VcsCmd { tool: ToolKind::Svn, args, cwd };
    proof {
        assert(c@.args =~~= spec_svn_cat_cmd(revision@, working_path@, c.cwd@).args);
    }
    Result::Ok(c)
}

/// The decision over a content reply: the input checks first, then the
/// reply as the tool gave it.
pub open spec fn spec_svn_show(revision: Seq<u8>, working_path: Seq<u8>, reply: ReplyV) -> ReplyV {
    if !(revision.len() > 0 && crate::text::all_digits(revision)) {
        Result::Err(m_bad_revision())
    } else if spec_parent(working_path) is None {
        Result::Err(m_invalid_path())
    } else {
        reply
    }
}

/// Retrieves historical content over a one-reply transcript.
pub fn svn_show_file_blocking(revision: &Vec<u8>, working_path: &Vec<u8>, reply: Reply) -> (r:
    Reply)
    ensures
        reply_view(r) == spec_svn_show(revision@, working_path@, reply_view(reply)),
{
    if !crate::text::is_decimal(revision) {
        return Result::Err(bad_revision_msg());
    }
    match parent_dir(working_path) {
        Option::Some(_) => reply,
        Option::None => Result::Err(invalid_path_msg()),
    }
}

/// The errors that mean "this backend has no history here" and allow the
/// resolver to fall through to the next backend.
pub open spec fn spec_is_svn_no_history(e: Seq<u8>) -> bool {
    ||| e == m_missing(ToolKind::Svn)
    ||| has_sub(lower_seq(e), ascii_of("not a working copy"))
    ||| has_sub(lower_seq(e), ascii_of("not under version control"))
    ||| has_sub(lower_seq(e), ascii_of("is not a working copy"))
    ||| has_sub(lower_seq(e), ascii_of("e155007"))
    ||| has_sub(lower_seq(e), ascii_of("e155010"))
    ||| has_sub(lower_seq(e), ascii_of("no such file"))
    ||| has_sub(lower_seq(e), ascii_of("not found"))
    ||| has_sub(lower_seq(e), ascii_of("does not exist"))
}

/// Classifies an error as "no history in the legacy centralized VCS".
pub fn is_svn_no_history(error: &Vec<u8>) -> (r: bool)
    ensures
        r == spec_is_svn_no_history(error@),
{
    proof {
        reveal_strlit("not a working copy");
        reveal_strlit("not under version control");
        reveal_strlit("is not a working copy");
        reveal_strlit("e155007");
        reveal_strlit("e155010");
        reveal_strlit("no such file");
        reveal_strlit("not found");
        reveal_strlit("does not exist");
    }
    let lower = to_lower(error);
    let missing = crate::messages::missing_msg(ToolKind::Svn);
    bytes_eq(error, &missing) || contains_sub(&lower, &lit("not a working copy")) || contains_sub(
        &lower,
        &lit("not under version control"),
    ) || contains_sub(&lower, &lit("is not a working copy")) || contains_sub(
        &lower,
        &lit("e155007"),
    ) || contains_sub(&lower, &lit("e155010")) || contains_sub(&lower, &lit("no such file"))
        || contains_sub(&lower, &lit("not found")) || contains_sub(&lower, &lit("does not exist"))
}

} // verus!
