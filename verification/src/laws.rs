//! The resolver's general laws, stated and proved over the spec model.
//!
//! Each law here is a property of the whole fallback chain or of a whole
//! parser pass, proved from the definitions the executable functions are
//! verified against.

use vstd::prelude::*;

use crate::git::spec_git_probe;
use crate::git::spec_git_request;
use crate::git::spec_git_used;
use crate::git::spec_is_git_no_history;
use crate::gitlog::GitFoldV;
use crate::gitlog::git_fold;
use crate::gitlog::git_step;
use crate::messages::m_invalid_path;
use crate::messages::m_not_a_file;
use crate::model::GitHistoryResultV;
use crate::model::Provider;
use crate::model::VcsHistoryResultV;
use crate::p4::spec_is_p4_no_history;
use crate::p4::spec_p4_probe;
use crate::p4::spec_p4_used;
use crate::paths::spec_parent;
use crate::resolve::spec_empty_history;
use crate::resolve::spec_hard_input_error;
use crate::resolve::spec_map_git_result;
use crate::resolve::spec_vcs_probe;
use crate::resolve::spec_vcs_request;
use crate::runner::ReplyV;
use crate::svn::spec_is_svn_no_history;
use crate::svn::spec_svn_probe;

verus! {

/// A successful probe of the distributed VCS decides the whole
/// resolution: the result is that history, relabeled, tagged with the
/// distributed provider, and its repository root is a directory prefix —
/// an ancestor — of the queried path.
pub proof fn lemma_git_success_wins(
    path: Seq<u8>,
    is_file: bool,
    replies: Seq<ReplyV>,
    g: GitHistoryResultV,
)
    requires
        spec_git_probe(path, is_file, replies) == Result::<GitHistoryResultV, Seq<u8>>::Ok(g),
    ensures
        spec_vcs_probe(path, is_file, replies) == Result::<VcsHistoryResultV, Seq<u8>>::Ok(
            spec_map_git_result(g),
        ),
        spec_map_git_result(g).provider == Provider::Git,
        spec_map_git_result(g).entries.len() == g.entries.len(),
        g.repo_root.len() <= path.len() && path.take(g.repo_root.len() as int) == g.repo_root,
{
    assert(spec_git_request(path, is_file, replies) is None);
}

/// The parser of the distributed VCS's log only appends: every entry
/// already emitted keeps its place and value as further lines stream in.
/// This is what makes the emitted order the tool's own newest-first
/// order.
pub proof fn lemma_git_fold_appends(st: GitFoldV, lines: Seq<Seq<u8>>, i: int)
    ensures
        git_fold(st, lines, i).entries.len() >= st.entries.len(),
        forall|j: int|
            0 <= j < st.entries.len() ==> git_fold(st, lines, i).entries[j] == st.entries[j],
    decreases lines.len() - i,
{
    if 0 <= i < lines.len() {
        lemma_git_step_appends(st, lines[i]);
        lemma_git_fold_appends(git_step(st, lines[i]), lines, i + 1);
    }
}

/// One parsed line only appends to the emitted entries.
pub proof fn lemma_git_step_appends(st: GitFoldV, line: Seq<u8>)
    ensures
        git_step(st, line).entries.len() >= st.entries.len(),
        forall|j: int| 0 <= j < st.entries.len() ==> git_step(st, line).entries[j] == st.entries[j],
{
}

/// A path that is not an existing regular file is a hard input error:
/// the resolution fails with exactly that error, whatever any backend
/// would have replied.
pub proof fn lemma_not_a_file_short_circuits(path: Seq<u8>, replies: Seq<ReplyV>)
    ensures
        spec_vcs_probe(path, false, replies) == Result::<VcsHistoryResultV, Seq<u8>>::Err(
            m_not_a_file(),
        ),
{
}

/// A path without a parent directory is likewise a hard input error,
/// whatever any backend would have replied.
pub proof fn lemma_no_parent_short_circuits(path: Seq<u8>, is_file: bool, replies: Seq<ReplyV>)
    requires
        spec_parent(path) is None,
    ensures
        spec_vcs_probe(path, is_file, replies) == Result::<VcsHistoryResultV, Seq<u8>>::Err(
            if is_file {
                m_invalid_path()
            } else {
                m_not_a_file()
            },
        ),
{
}

/// When every backend fails and each failure is classified as a plain
/// "no history here", the resolution succeeds with the synthesized empty
/// result: no provider, no entries, the basename as the relative path.
pub proof fn lemma_all_absent_synthesizes_empty(
    path: Seq<u8>,
    is_file: bool,
    replies: Seq<ReplyV>,
    ge: Seq<u8>,
    pe: Seq<u8>,
    se: Seq<u8>,
)
    requires
        spec_vcs_request(path, is_file, replies) is None,
        spec_git_probe(path, is_file, replies) == Result::<GitHistoryResultV, Seq<u8>>::Err(ge),
        !spec_hard_input_error(ge),
        spec_p4_probe(path, is_file, replies.skip(spec_git_used(path, is_file, replies)))
            == Result::<VcsHistoryResultV, Seq<u8>>::Err(pe),
        spec_svn_probe(
            path,
            is_file,
            replies.skip(spec_git_used(path, is_file, replies)).skip(
                spec_p4_used(
                    path,
                    is_file,
                    replies.skip(spec_git_used(path, is_file, replies)),
                ),
            ),
        ) == Result::<VcsHistoryResultV, Seq<u8>>::Err(se),
        spec_is_git_no_history(ge),
        spec_is_p4_no_history(pe),
        spec_is_svn_no_history(se),
    ensures
        spec_vcs_probe(path, is_file, replies) == Result::<VcsHistoryResultV, Seq<u8>>::Ok(
            spec_empty_history(path),
        ),
        spec_empty_history(path).provider == Provider::Absent,
        spec_empty_history(path).entries.len() == 0,
{
}

/// A failure that is not a hard input error degrades to the next
/// backend: if the legacy centralized VCS then succeeds, its result is
/// the resolution's result.
pub proof fn lemma_fallback_reaches_svn(
    path: Seq<u8>,
    is_file: bool,
    replies: Seq<ReplyV>,
    ge: Seq<u8>,
    pe: Seq<u8>,
    r: VcsHistoryResultV,
)
    requires
        spec_vcs_request(path, is_file, replies) is None,
        spec_git_probe(path, is_file, replies) == Result::<GitHistoryResultV, Seq<u8>>::Err(ge),
        !spec_hard_input_error(ge),
        spec_p4_probe(path, is_file, replies.skip(spec_git_used(path, is_file, replies)))
            == Result::<VcsHistoryResultV, Seq<u8>>::Err(pe),
        spec_svn_probe(
            path,
            is_file,
            replies.skip(spec_git_used(path, is_file, replies)).skip(
                spec_p4_used(
                    path,
                    is_file,
                    replies.skip(spec_git_used(path, is_file, replies)),
                ),
            ),
        ) == Result::<VcsHistoryResultV, Seq<u8>>::Ok(r),
    ensures
        spec_vcs_probe(path, is_file, replies) == Result::<VcsHistoryResultV, Seq<u8>>::Ok(r),
{
}

/// The tagged-log probe never fails on output it can read: whatever
/// bytes the tool printed — truncated mid-record or otherwise — a clean
/// run yields a successful (possibly empty) result, never an error.
pub proof fn lemma_p4_degrades_gracefully(path: Seq<u8>, is_file: bool, replies: Seq<ReplyV>)
    requires
        is_file,
        spec_parent(path) is Some,
        replies.len() >= 1,
        replies[0] is Ok,
    ensures
        spec_p4_probe(path, is_file, replies) is Ok,
{
}

} // verus!
