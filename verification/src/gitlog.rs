//! Parser for the distributed VCS's log output.
//!
//! The log is requested with rename following and per-commit status lines.
//! Commit headers are tab-delimited `hash, timestamp, author, summary`
//! lines; the status lines that follow a header name the files the commit
//! touched.  The parser walks the output once, tracking the path of
//! interest backward through renames, and keeps only the commits that
//! touched that path.

use vstd::prelude::*;

use crate::model::GitHistoryEntry;
use crate::model::GitHistoryEntryV;
use crate::text::all_hex_digits;
use crate::text::find_byte;
use crate::text::find_byte_from;
use crate::text::is_hexadecimal;
use crate::text::lemma_find_byte_from;
use crate::text::parse_i64;
use crate::text::spec_lines;
use crate::text::spec_parse_i64;
use crate::text::spec_trim;
use crate::text::sub_vec;
use crate::text::trim;

verus! {

/// One parsed commit-header line.
#[derive(Debug)]
pub struct CommitLine {
    pub hash: Vec<u8>,
    pub timestamp: i64,
    pub author: Vec<u8>,
    pub summary: Vec<u8>,
}

/// Spec-level image of `CommitLine`.
pub struct CommitLineV {
    pub hash: Seq<u8>,
    pub timestamp: i64,
    pub author: Seq<u8>,
    pub summary: Seq<u8>,
}

impl View for CommitLine {
    type V = CommitLineV;

    open spec fn view(&self) -> CommitLineV {
        CommitLineV {
            hash: self.hash@,
            timestamp: self.timestamp,
            author: self.author@,
            summary: self.summary@,
        }
    }
}

/// The tab-separated head of `l`: everything before the first tab, or all
/// of `l` when it has none.
pub open spec fn head_tab(l: Seq<u8>) -> Seq<u8> {
    match find_byte_from(l, 9, 0) {
        Option::Some(t) => l.take(t),
        Option::None => l,
    }
}

/// The remainder of `l` after its first tab, if it has one.
pub open spec fn after_tab(l: Seq<u8>) -> Option<Seq<u8>> {
    match find_byte_from(l, 9, 0) {
        Option::Some(t) => Option::Some(l.skip(t + 1)),
        Option::None => Option::None,
    }
}

/// A commit header: four tab-delimited fields, of which the summary may be
/// absent, with a non-empty all-hexadecimal hash and a decimal timestamp.
pub open spec fn spec_parse_commit_line(l: Seq<u8>) -> Option<CommitLineV> {
    match after_tab(l) {
        Option::None => Option::None,
        Option::Some(rest1) => match after_tab(rest1) {
            Option::None => Option::None,
            Option::Some(rest2) => match spec_parse_i64(head_tab(rest1)) {
                Option::None => Option::None,
                Option::Some(ts) => if head_tab(l).len() > 0 && all_hex_digits(head_tab(l)) {
                    Option::Some(
                        CommitLineV {
                            hash: head_tab(l),
                            timestamp: ts,
                            author: head_tab(rest2),
                            summary: match after_tab(rest2) {
                                Option::Some(s) => s,
                                Option::None => Seq::empty(),
                            },
                        },
                    )
                } else {
                    Option::None
                },
            },
        },
    }
}

/// Splits off the tab-separated head of a line.
fn split_tab(l: &Vec<u8>) -> (r: (Vec<u8>, Option<Vec<u8>>))
    ensures
        r.0@ == head_tab(l@),
        match r.1 {
            Option::Some(rest) => after_tab(l@) == Option::Some(rest@),
            Option::None => after_tab(l@) == Option::<Seq<u8>>::None,
        },
{
    match find_byte(l, 9, 0) {
        Option::Some(t) => {
            let ll = l.len();
            proof {
                lemma_find_byte_from(l@, 9, 0);
            }
            let head = sub_vec(l, 0, t);
            let rest = sub_vec(l, t + 1, ll);
            proof {
                assert(l@.subrange(0, t as int) =~= l@.take(t as int));
                assert(l@.subrange(t + 1 as int, l@.len() as int) =~= l@.skip(t + 1 as int));
            }
            (head, Option::Some(rest))
        },
        Option::None => {
            let head = sub_vec(l, 0, l.len());
            proof {
                assert(l@.subrange(0, l@.len() as int) =~= l@);
            }
            (head, Option::None)
        },
    }
}

/// Parses one commit-header line.
pub fn parse_commit_line(line: &Vec<u8>) -> (r: Option<CommitLine>)
    ensures
        match r {
            Option::Some(c) => spec_parse_commit_line(line@) == Option::Some(c@),
            Option::None => spec_parse_commit_line(line@) == Option::<CommitLineV>::None,
        },
{
    let (hash, rest1) = split_tab(line);
    let rest1 = match rest1 {
        Option::Some(r) => r,
        Option::None => {
            return Option::None;
        },
    };
    let (ts_field, rest2) = split_tab(&rest1);
    let rest2 = match rest2 {
        Option::Some(r) => r,
        Option::None => {
            return Option::None;
        },
    };
    let ts = match parse_i64(&ts_field) {
        Option::Some(t) => t,
        Option::None => {
            return Option::None;
        },
    };
    if !is_hexadecimal(&hash) {
        return Option::None;
    }
    let (author, rest3) = split_tab(&rest2);
    let summary = match rest3 {
        Option::Some(s) => s,
        Option::None => Vec::new(),
    };
    Option::Some(CommitLine { hash, timestamp: ts, author, summary })
}

/// The commit being accumulated while its status lines stream past.
#[derive(Debug)]
pub struct GitPending {
    pub hash: Vec<u8>,
    pub timestamp: i64,
    pub author: Vec<u8>,
    pub summary: Vec<u8>,
    pub path: Vec<u8>,
    pub deleted: bool,
    pub touched: bool,
}

/// Spec-level image of `GitPending`.
pub struct GitPendingV {
    pub hash: Seq<u8>,
    pub timestamp: i64,
    pub author: Seq<u8>,
    pub summary: Seq<u8>,
    pub path: Seq<u8>,
    pub deleted: bool,
    pub touched: bool,
}

impl View for GitPending {
    type V = GitPendingV;

    open spec fn view(&self) -> GitPendingV {
        GitPendingV {
            hash: self.hash@,
            timestamp: self.timestamp,
            author: self.author@,
            summary: self.summary@,
            path: self.path@,
            deleted: self.deleted,
            touched: self.touched,
        }
    }
}

/// The parser's whole state: the current path of interest, the commit
/// being accumulated, and the entries already emitted.
pub struct GitFoldV {
    pub cur_path: Seq<u8>,
    pub pending: Option<GitPendingV>,
    pub entries: Seq<GitHistoryEntryV>,
}

/// The history entry a finished pending commit becomes.
pub open spec fn git_entry_of(p: GitPendingV) -> GitHistoryEntryV {
    GitHistoryEntryV {
        hash: p.hash,
        timestamp: p.timestamp,
        author: p.author,
        summary: p.summary,
        path: p.path,
        deleted: p.deleted,
    }
}

/// Finishes the pending commit: it is emitted only if one of its status
/// lines touched the path of interest.
pub open spec fn git_flush(st: GitFoldV) -> GitFoldV {
    match st.pending {
        Option::Some(p) => GitFoldV {
            cur_path: st.cur_path,
            pending: Option::None,
            entries: if p.touched {
                st.entries.push(git_entry_of(p))
            } else {
                st.entries
            },
        },
        Option::None => st,
    }
}

/// One status line applied to the state: rename and copy lines carry an
/// old and a new path and may redirect the path of interest backward
/// through the rename; other lines carry one path and may mark the commit
/// touched or deleted.
pub open spec fn git_status_step(st: GitFoldV, p: GitPendingV, line: Seq<u8>) -> GitFoldV {
    let status = head_tab(line);
    let f1 = match after_tab(line) {
        Option::Some(r) => head_tab(r),
        Option::None => Seq::empty(),
    };
    if status[0] == 82 || status[0] == 67 {
        let f2 = match after_tab(line) {
            Option::Some(r) => match after_tab(r) {
                Option::Some(r2) => head_tab(r2),
                Option::None => Seq::empty(),
            },
            Option::None => Seq::empty(),
        };
        if f1.len() > 0 && f2.len() > 0 {
            let touched = f2 == st.cur_path || f1 == st.cur_path;
            let new_cur = if status[0] == 82 && f2 == st.cur_path {
                f1
            } else {
                st.cur_path
            };
            GitFoldV {
                cur_path: new_cur,
                pending: Option::Some(
                    GitPendingV { touched: p.touched || touched, ..p },
                ),
                entries: st.entries,
            }
        } else {
            st
        }
    } else {
        if f1 == st.cur_path {
            GitFoldV {
                cur_path: st.cur_path,
                pending: Option::Some(
                    GitPendingV { touched: true, deleted: p.deleted || status[0] == 68, ..p },
                ),
                entries: st.entries,
            }
        } else {
            st
        }
    }
}

/// One log line applied to the state.
pub open spec fn git_step(st: GitFoldV, line: Seq<u8>) -> GitFoldV {
    if spec_trim(line).len() == 0 {
        st
    } else {
        match spec_parse_commit_line(line) {
            Option::Some(c) => {
                let f = git_flush(st);
                GitFoldV {
                    cur_path: f.cur_path,
                    pending: Option::Some(
                        GitPendingV {
                            hash: c.hash,
                            timestamp: c.timestamp,
                            author: c.author,
                            summary: c.summary,
                            path: f.cur_path,
                            deleted: false,
                            touched: false,
                        },
                    ),
                    entries: f.entries,
                }
            },
            Option::None => {
                let status = head_tab(line);
                if status.len() == 0 {
                    st
                } else {
                    match st.pending {
                        Option::None => st,
                        Option::Some(p) => git_status_step(st, p, line),
                    }
                }
            },
        }
    }
}

/// The fold of `git_step` over `lines`, from index `i` on.
pub open spec fn git_fold(st: GitFoldV, lines: Seq<Seq<u8>>, i: int) -> GitFoldV
    decreases lines.len() - i,
{
    if i < 0 || i >= lines.len() {
        st
    } else {
        git_fold(git_step(st, lines[i]), lines, i + 1)
    }
}

/// The parser's initial state for a query about `rel`.
pub open spec fn git_init(rel: Seq<u8>) -> GitFoldV {
    GitFoldV { cur_path: rel, pending: Option::None, entries: Seq::empty() }
}

/// The entries parsed from a whole log output for the path `rel`.
pub open spec fn spec_parse_git_log(out: Seq<u8>, rel: Seq<u8>) -> Seq<GitHistoryEntryV> {
    git_flush(git_fold(git_init(rel), spec_lines(out), 0)).entries
}

/// Spec-level image of an optional pending commit.
pub open spec fn pend_view(p: Option<GitPending>) -> Option<GitPendingV> {
    match p {
        Option::Some(x) => Option::Some(x@),
        Option::None => Option::None,
    }
}

/// Spec-level image of the emitted entries.
pub open spec fn gentries_view(es: Seq<GitHistoryEntry>) -> Seq<GitHistoryEntryV> {
    es.map_values(|e: GitHistoryEntry| e@)
}

/// Emits the pending commit if it touched the path of interest.
fn flush_pending(
    entries: &mut Vec<GitHistoryEntry>,
    pending: Option<GitPending>,
    Ghost(st): Ghost<GitFoldV>,
) -> (r: Ghost<GitFoldV>)
    requires
        st.pending == pend_view(pending),
        st.entries == gentries_view(old(entries)@),
    ensures
        r@ == git_flush(st),
        r@.cur_path == st.cur_path,
        r@.pending == Option::<GitPendingV>::None,
        r@.entries == gentries_view(final(entries)@),
{
    match pending {
        Option::Some(p) => {
            if p.touched {
                let ghost pre = gentries_view(entries@);
                let ghost pv = p@;
                entries.push(
                    GitHistoryEntry {
                        hash: p.hash,
                        timestamp: p.timestamp,
                        author: p.author,
                        summary: p.summary,
                        path: p.path,
                        deleted: p.deleted,
                    },
                );
                proof {
                    assert(gentries_view(entries@) =~= pre.push(git_entry_of(pv)));
                }
            }
        },
        Option::None => {},
    }
    Ghost(git_flush(st))
}

/// Parses the whole log output for the path `rel`.
pub fn parse_git_log(out: &Vec<u8>, rel: &Vec<u8>) -> (r: Vec<GitHistoryEntry>)
    ensures
        gentries_view(r@) == spec_parse_git_log(out@, rel@),
{
    let log_lines = crate::text::lines(out);
    let ghost linesv = spec_lines(out@);
    let mut entries: Vec<GitHistoryEntry> = Vec::new();
    let mut cur_path: Vec<u8> = rel.clone();
    let mut pending: Option<GitPending> = Option::None;
    proof {
        assert(cur_path@ =~= rel@);
        assert(gentries_view(entries@) =~= Seq::<GitHistoryEntryV>::empty());
    }
    let mut i: usize = 0;
    while i < log_lines.len()
        invariant
            i <= log_lines@.len(),
            log_lines.deep_view() == linesv,
            git_fold(git_init(rel@), linesv, 0) == git_fold(
                GitFoldV {
                    cur_path: cur_path@,
                    pending: pend_view(pending),
                    entries: gentries_view(entries@),
                },
                linesv,
                i as int,
            ),
        decreases log_lines.len() - i,
    {
        let line = &log_lines[i];
        proof {
            assert(line@ =~= linesv[i as int]);
        }
        let ghost st = GitFoldV {
            cur_path: cur_path@,
            pending: pend_view(pending),
            entries: gentries_view(entries@),
        };
        let t = trim(line);
        if t.len() == 0 {
            i = i + 1;
            continue;
        }
        match parse_commit_line(line) {
            Option::Some(c) => {
                let taken = pending;
                let fl = flush_pending(&mut entries, taken, Ghost(st));
                let cp = sub_vec(&cur_path, 0, cur_path.len());
                proof {
                    assert(cp@ =~= cur_path@);
                }
                pending = Option::Some(
                    GitPending {
                        hash: c.hash,
                        timestamp: c.timestamp,
                        author: c.author,
                        summary: c.summary,
                        path: cp,
                        deleted: false,
                        touched: false,
                    },
                );
                proof {
                    assert(GitFoldV {
                        cur_path: cur_path@,
                        pending: pend_view(pending),
                        entries: gentries_view(entries@),
                    } == git_step(st, linesv[i as int]));
                }
            },
            Option::None => {
                let (status, rest) = split_tab(line);
                if status.len() > 0 {
                    let taken = pending;
                    pending = Option::None;
                    match taken {
                        Option::Some(p) => {
                            let s0 = status[0];
                            if s0 == 82 || s0 == 67 {
                                let (f1, f2v) = match rest {
                                    Option::Some(r) => split_tab(&r),
                                    Option::None => (Vec::new(), Option::None),
                                };
                                let f2 = match f2v {
                                    Option::Some(r2) => {
                                        let (h, _) = split_tab(&r2);
                                        h
                                    },
                                    Option::None => Vec::new(),
                                };
                                if f1.len() > 0 && f2.len() > 0 {
                                    let mut p = p;
                                    let new_eq = crate::text::bytes_eq(&f2, &cur_path);
                                    let old_eq = crate::text::bytes_eq(&f1, &cur_path);
                                    if new_eq || old_eq {
                                        p.touched = true;
                                    }
                                    if s0 == 82 && new_eq {
                                        cur_path = f1;
                                    }
                                    pending = Option::Some(p);
                                } else {
                                    pending = Option::Some(p);
                                }
                            } else {
                                let f1 = match rest {
                                    Option::Some(r) => {
                                        let (h, _) = split_tab(&r);
                                        h
                                    },
                                    Option::None => Vec::new(),
                                };
                                let mut p = p;
                                if crate::text::bytes_eq(&f1, &cur_path) {
                                    p.touched = true;
                                    if s0 == 68 {
                                        p.deleted = true;
                                    }
                                }
                                pending = Option::Some(p);
                            }
                        },
                        Option::None => {},
                    }
                }
                proof {
                    assert(GitFoldV {
                        cur_path: cur_path@,
                        pending: pend_view(pending),
                        entries: gentries_view(entries@),
                    } == git_step(st, linesv[i as int]));
                }
            },
        }
        i = i + 1;
    }
    let ghost st_end = GitFoldV {
        cur_path: cur_path@,
        pending: pend_view(pending),
        entries: gentries_view(entries@),
    };
    let taken = pending;
    let _ = flush_pending(&mut entries, taken, Ghost(st_end));
    entries
}

} // verus!
