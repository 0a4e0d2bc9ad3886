//! The history resolver: the fixed fallback chain over the three backends.
//!
//! The distributed VCS is tried first; a hard input error there ends the
//! resolution at once, since no backend can use an invalid path.  Any
//! other failure falls through to the server-metadata VCS, then to the
//! legacy centralized VCS.  When all three fail and every failure is a
//! plain "no history here", the resolver synthesizes a successful empty
//! result; otherwise it reports the three errors combined.

use vstd::prelude::*;

use crate::git::GitStep;
use crate::git::git_probe_step;
use crate::git::git_used_count;
use crate::git::is_git_no_history;
use crate::git::spec_git_probe;
use crate::git::spec_git_request;
use crate::git::spec_git_used;
use crate::git::spec_is_git_no_history;
use crate::messages::combined_msg;
use crate::messages::invalid_path_msg;
use crate::messages::m_combined;
use crate::messages::m_invalid_path;
use crate::messages::m_not_a_file;
use crate::messages::m_reply_missing;
use crate::messages::not_a_file_msg;
use crate::messages::reply_missing_msg;
use crate::model::GitHistoryEntry;
use crate::model::GitHistoryEntryV;
use crate::model::GitHistoryResult;
use crate::model::GitHistoryResultV;
use crate::model::Provider;
use crate::model::VcsHistoryEntry;
use crate::model::VcsHistoryEntryV;
use crate::model::VcsHistoryResult;
use crate::model::VcsHistoryResultV;
use crate::model::ventries_view;
use crate::p4::P4Step;
use crate::p4::is_p4_no_history;
use crate::p4::p4_probe_step;
use crate::p4::p4_used_count;
use crate::p4::spec_is_p4_no_history;
use crate::p4::spec_p4_probe;
use crate::p4::spec_p4_request;
use crate::p4::spec_p4_used;
use crate::p4::vcs_res_view;
use crate::paths::basename;
use crate::paths::spec_basename;
use crate::runner::Reply;
use crate::runner::ReplyV;
use crate::runner::VcsCmd;
use crate::runner::VcsCmdV;
use crate::runner::replies_from;
use crate::runner::replies_view;
use crate::svn::SvnStep;
use crate::svn::is_svn_no_history;
use crate::svn::spec_is_svn_no_history;
use crate::svn::spec_svn_probe;
use crate::svn::spec_svn_request;
use crate::svn::svn_probe_step;
use crate::text::bytes_eq;

verus! {

/// A distributed-VCS entry relabeled into the normalized model.
pub open spec fn spec_map_git_entry(e: GitHistoryEntryV) -> VcsHistoryEntryV {
    VcsHistoryEntryV {
        provider: Provider::Git,
        hash: e.hash,
        timestamp: e.timestamp,
        author: e.author,
        summary: e.summary,
        path: e.path,
        deleted: e.deleted,
    }
}

/// Relabels one distributed-VCS entry.
pub fn map_git_entry(e: GitHistoryEntry) -> (r: VcsHistoryEntry)
    ensures
        r@ == spec_map_git_entry(e@),
{
    VcsHistoryEntry {
        provider: Provider::Git,
        hash: e.hash,
        timestamp: e.timestamp,
        author: e.author,
        summary: e.summary,
        path: e.path,
        deleted: e.deleted,
    }
}

/// A distributed-VCS result relabeled into the normalized model.
pub open spec fn spec_map_git_result(g: GitHistoryResultV) -> VcsHistoryResultV {
    VcsHistoryResultV {
        provider: Provider::Git,
        repo_root: Option::Some(g.repo_root),
        relative_path: g.relative_path,
        entries: g.entries.map_values(|e: GitHistoryEntryV| spec_map_git_entry(e)),
    }
}

/// Relabels a whole distributed-VCS result.
pub fn map_git_result(g: GitHistoryResult) -> (r: VcsHistoryResult)
    ensures
        r@ == spec_map_git_result(g@),
{
    let ghost gv = g@;
    let mut entries: Vec<VcsHistoryEntry> = Vec::new();
    let mut src = g.entries;
    let ghost srcv = src@.map_values(|e: GitHistoryEntry| e@);
    let mut i: usize = 0;
    proof {
        assert(ventries_view(entries@) =~= Seq::<VcsHistoryEntryV>::empty());
        assert(srcv =~= gv.entries);
    }
    while i < src.len()
        invariant
            i <= src@.len(),
            srcv == src@.map_values(|e: GitHistoryEntry| e@),
            ventries_view(entries@) == srcv.take(i as int).map_values(
                |e: GitHistoryEntryV| spec_map_git_entry(e),
            ),
        decreases src.len() - i,
    {
        let e = &src[i];
        let ghost pre = ventries_view(entries@);
        entries.push(
            VcsHistoryEntry {
                provider: Provider::Git,
                hash: crate::text::clone_bytes(&e.hash),
                timestamp: e.timestamp,
                author: crate::text::clone_bytes(&e.author),
                summary: crate::text::clone_bytes(&e.summary),
                path: crate::text::clone_bytes(&e.path),
                deleted: e.deleted,
            },
        );
        proof {
            assert(ventries_view(entries@) =~= pre.push(spec_map_git_entry(srcv[i as int])));
            assert(srcv.take(i + 1 as int).map_values(|x: GitHistoryEntryV| spec_map_git_entry(x))
                =~= srcv.take(i as int).map_values(|x: GitHistoryEntryV| spec_map_git_entry(x)).push(
                spec_map_git_entry(srcv[i as int]),
            ));
        }
        i = i + 1;
    }
    proof {
        assert(srcv.take(srcv.len() as int) =~= srcv);
    }
    let r = VcsHistoryResult {
        provider: Provider::Git,
        repo_root: Option::Some(g.repo_root),
        relative_path: g.relative_path,
        entries,
    };
    r
}

/// The relative-path fallback when no root is known: the basename.
pub fn fallback_relative_path(path: &Vec<u8>) -> (r: Vec<u8>)
    ensures
        r@ == spec_basename(path@),
{
    basename(path)
}

/// The synthesized result for a file no recognized system tracks.
pub open spec fn spec_empty_history(path: Seq<u8>) -> VcsHistoryResultV {
    VcsHistoryResultV {
        provider: Provider::Absent,
        repo_root: Option::None,
        relative_path: spec_basename(path),
        entries: Seq::empty(),
    }
}

/// Builds the synthesized empty result.
pub fn empty_history(path: &Vec<u8>) -> (r: VcsHistoryResult)
    ensures
        r@ == spec_empty_history(path@),
{
    let entries: Vec<VcsHistoryEntry> = Vec::new();
    proof {
        assert(ventries_view(entries@) =~= Seq::<VcsHistoryEntryV>::empty());
    }
    VcsHistoryResult {
        provider: Provider::Absent,
        repo_root: Option::None,
        relative_path: fallback_relative_path(path),
        entries,
    }
}

/// The input errors that end the resolution at once: no backend can use a
/// path that is not an existing file or has no parent directory.
pub open spec fn spec_hard_input_error(e: Seq<u8>) -> bool {
    e == m_not_a_file() || e == m_invalid_path()
}

/// Classifies an error as a hard input error.
pub fn is_hard_input_error(e: &Vec<u8>) -> (r: bool)
    ensures
        r == spec_hard_input_error(e@),
{
    let not_a_file = not_a_file_msg();
    let invalid = invalid_path_msg();
    bytes_eq(e, &not_a_file) || bytes_eq(e, &invalid)
}

/// The command the resolver runs next, given the replies so far: the
/// backends consume the transcript in the fixed fallback order.
pub open spec fn spec_vcs_request(path: Seq<u8>, is_file: bool, replies: Seq<ReplyV>) -> Option<
    VcsCmdV,
> {
    match spec_git_request(path, is_file, replies) {
        Option::Some(c) => Option::Some(c),
        Option::None => match spec_git_probe(path, is_file, replies) {
            Result::Ok(_) => Option::None,
            Result::Err(ge) => if spec_hard_input_error(ge) {
                Option::None
            } else {
                let rest = replies.skip(spec_git_used(path, is_file, replies));
                match spec_p4_request(path, is_file, rest) {
                    Option::Some(c) => Option::Some(c),
                    Option::None => match spec_p4_probe(path, is_file, rest) {
                        Result::Ok(_) => Option::None,
                        Result::Err(_) => {
                            let rest2 = rest.skip(spec_p4_used(path, is_file, rest));
                            spec_svn_request(path, is_file, rest2)
                        },
                    },
                }
            },
        },
    }
}

/// The resolver's decision over a complete transcript: first success
/// wins; a hard input error from the first backend ends everything; three
/// classified "no history" failures synthesize an empty result; any other
/// combination of failures is reported combined.  A transcript shorter
/// than the resolver's requests decides `m_reply_missing`.
pub open spec fn spec_vcs_probe(path: Seq<u8>, is_file: bool, replies: Seq<ReplyV>) -> Result<
    VcsHistoryResultV,
    Seq<u8>,
> {
    if spec_vcs_request(path, is_file, replies) is Some {
        Result::Err(m_reply_missing())
    } else {
        match spec_git_probe(path, is_file, replies) {
            Result::Ok(g) => Result::Ok(spec_map_git_result(g)),
            Result::Err(ge) => if spec_hard_input_error(ge) {
                Result::Err(ge)
            } else {
                let rest = replies.skip(spec_git_used(path, is_file, replies));
                match spec_p4_probe(path, is_file, rest) {
                    Result::Ok(r) => Result::Ok(r),
                    Result::Err(pe) => {
                        let rest2 = rest.skip(spec_p4_used(path, is_file, rest));
                        match spec_svn_probe(path, is_file, rest2) {
                            Result::Ok(r) => Result::Ok(r),
                            Result::Err(se) => if spec_is_git_no_history(ge)
                                && spec_is_p4_no_history(pe) && spec_is_svn_no_history(se) {
                                Result::Ok(spec_empty_history(path))
                            } else {
                                Result::Err(m_combined(ge, pe, se))
                            },
                        }
                    },
                }
            },
        }
    }
}

/// One step of the resolver: the next command to run, or its decision.
#[derive(Debug)]
pub enum VcsStep {
    Run(VcsCmd),
    Finished(Result<VcsHistoryResult, Vec<u8>>),
}

/// Decides the resolver's next move from the replies received so far.
/// The embedding application drives this in a loop: it launches the
/// requested command, appends the classified reply to the transcript, and
/// asks again.
pub fn vcs_history_step(path: &Vec<u8>, is_file: bool, replies: &Vec<Reply>) -> (r: VcsStep)
    ensures
        match r {
            VcsStep::Run(c) => spec_vcs_request(path@, is_file, replies_view(replies@))
                == Option::Some(c@),
            VcsStep::Finished(res) => spec_vcs_request(path@, is_file, replies_view(replies@))
                == Option::<VcsCmdV>::None && vcs_res_view(res) == spec_vcs_probe(
                path@,
                is_file,
                replies_view(replies@),
            ),
        },
{
    match git_probe_step(path, is_file, replies) {
        GitStep::Run(c) => VcsStep::Run(c),
        GitStep::Done(gres) => {
            let ge = match gres {
                Result::Ok(g) => {
                    return VcsStep::Finished(Result::Ok(map_git_result(g)));
                },
                Result::Err(ge) => ge,
            };
            if is_hard_input_error(&ge) {
                return VcsStep::Finished(Result::Err(ge));
            }
            let used = git_used_count(path, is_file, replies);
            let rest = replies_from(replies, used);
            match p4_probe_step(path, is_file, &rest) {
                P4Step::Run(c) => VcsStep::Run(c),
                P4Step::Done(pres) => {
                    let pe = match pres {
                        Result::Ok(r) => {
                            return VcsStep::Finished(Result::Ok(r));
                        },
                        Result::Err(pe) => pe,
                    };
                    let pused = p4_used_count(path, is_file, &rest);
                    let rest2 = replies_from(&rest, pused);
                    match svn_probe_step(path, is_file, &rest2) {
                        SvnStep::Run(c) => VcsStep::Run(c),
                        SvnStep::Done(sres) => {
                            let se = match sres {
                                Result::Ok(r) => {
                                    return VcsStep::Finished(Result::Ok(r));
                                },
                                Result::Err(se) => se,
                            };
                            if is_git_no_history(&ge) && is_p4_no_history(&pe)
                                && is_svn_no_history(&se) {
                                VcsStep::Finished(Result::Ok(empty_history(path)))
                            } else {
                                VcsStep::Finished(Result::Err(combined_msg(&ge, &pe, &se)))
                            }
                        },
                    }
                },
            }
        },
    }
}

/// The resolver's decision over a complete transcript of runner replies.
pub fn vcs_history_blocking(path: &Vec<u8>, is_file: bool, replies: &Vec<Reply>) -> (r: Result<
    VcsHistoryResult,
    Vec<u8>,
>)
    ensures
        vcs_res_view(r) == spec_vcs_probe(path@, is_file, replies_view(replies@)),
{
    match vcs_history_step(path, is_file, replies) {
        VcsStep::Finished(res) => res,
        VcsStep::Run(_) => Result::Err(reply_missing_msg()),
    }
}

} // verus!
