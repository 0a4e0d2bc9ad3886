//! The server-metadata VCS backend: its tagged key-value log format.
//!
//! The verbose file log is a stream of `... key value` lines.  A key may
//! carry a numeric or comma suffix that must be stripped before matching.
//! A change key opens a new entry; a depot-path key updates the path that
//! subsequent entries are stamped with; the remaining recognized keys fill
//! the entry in progress.

use vstd::prelude::*;

use crate::messages::bad_changelist_msg;
use crate::messages::invalid_path_msg;
use crate::messages::m_bad_changelist;
use crate::messages::m_invalid_path;
use crate::messages::m_missing;
use crate::messages::m_not_a_file;
use crate::messages::m_reply_missing;
use crate::messages::not_a_file_msg;
use crate::messages::reply_missing_msg;
use crate::model::Provider;
use crate::model::ToolKind;
use crate::model::VcsHistoryEntry;
use crate::model::VcsHistoryEntryV;
use crate::model::VcsHistoryResult;
use crate::model::VcsHistoryResultV;
use crate::model::ventries_view;
use crate::paths::parent_dir;
use crate::paths::spec_parent;
use crate::runner::Reply;
use crate::runner::ReplyV;
use crate::runner::VcsCmd;
use crate::runner::VcsCmdV;
use crate::runner::replies_view;
use crate::runner::reply_view;
use crate::text::clone_bytes;
use crate::text::is_decimal;
use crate::text::all_digits;
use crate::text::lower_seq;
use crate::text::to_lower;
use crate::text::after_sep;
use crate::text::ascii_of;
use crate::text::bytes_eq;
use crate::text::contains_sub;
use crate::text::has_sub;
use crate::text::head_sep;
use crate::text::is_digit;
use crate::text::lit;
use crate::text::parse_i64;
use crate::text::spec_lines;
use crate::text::spec_parse_i64;
use crate::text::spec_starts_with;
use crate::text::spec_trim;
use crate::text::spec_trim_end;
use crate::text::split_at_byte;
use crate::text::starts_with;
use crate::text::sub_vec;
use crate::text::trim;
use crate::text::trim_end;

verus! {

/// The entry being accumulated while its key-value lines stream past.
#[derive(Debug)]
pub struct P4Pending {
    pub change: Vec<u8>,
    pub timestamp: i64,
    pub author: Vec<u8>,
    pub summary: Vec<u8>,
    pub path: Vec<u8>,
    pub deleted: bool,
}

/// Spec-level image of `P4Pending`.
pub struct P4PendingV {
    pub change: Seq<u8>,
    pub timestamp: i64,
    pub author: Seq<u8>,
    pub summary: Seq<u8>,
    pub path: Seq<u8>,
    pub deleted: bool,
}

impl View for P4Pending {
    type V = P4PendingV;

    open spec fn view(&self) -> P4PendingV {
        P4PendingV {
            change: self.change@,
            timestamp: self.timestamp,
            author: self.author@,
            summary: self.summary@,
            path: self.path@,
            deleted: self.deleted,
        }
    }
}

/// The parser's whole state: the last depot path seen, the entry being
/// accumulated, and the entries already emitted.
pub struct P4FoldV {
    pub cur_depot: Option<Seq<u8>>,
    pub pending: Option<P4PendingV>,
    pub entries: Seq<VcsHistoryEntryV>,
}

/// Spec-level image of an optional pending entry.
pub open spec fn p4_pend_view(p: Option<P4Pending>) -> Option<P4PendingV> {
    match p {
        Option::Some(x) => Option::Some(x@),
        Option::None => Option::None,
    }
}

/// Spec-level image of an optional byte vector.
pub open spec fn opt_bytes_view(o: Option<Vec<u8>>) -> Option<Seq<u8>> {
    match o {
        Option::Some(v) => Option::Some(v@),
        Option::None => Option::None,
    }
}

/// The normalized entry a finished pending entry becomes.
pub open spec fn p4_entry_of(p: P4PendingV) -> VcsHistoryEntryV {
    VcsHistoryEntryV {
        provider: Provider::P4,
        hash: p.change,
        timestamp: p.timestamp,
        author: p.author,
        summary: p.summary,
        path: p.path,
        deleted: p.deleted,
    }
}

/// Finishes the pending entry; every opened entry is emitted.
pub open spec fn p4_flush(st: P4FoldV) -> P4FoldV {
    match st.pending {
        Option::Some(p) => P4FoldV {
            cur_depot: st.cur_depot,
            pending: Option::None,
            entries: st.entries.push(p4_entry_of(p)),
        },
        Option::None => st,
    }
}

/// A key with its trailing index digits and commas removed.
pub open spec fn strip_kv_suffix(s: Seq<u8>) -> Seq<u8>
    decreases s.len(),
{
    if s.len() > 0 && (is_digit(s.last()) || s.last() == 44) {
        strip_kv_suffix(s.drop_last())
    } else {
        s
    }
}

proof fn lemma_strip_kv_take(s: Seq<u8>, i: int)
    requires
        0 <= i <= s.len(),
        forall|k: int| i <= k < s.len() ==> is_digit(s[k]) || s[k] == 44,
        i == 0 || !(is_digit(s[i - 1]) || s[i - 1] == 44),
    ensures
        strip_kv_suffix(s) == s.take(i),
    decreases s.len() - i,
{
    if i == s.len() {
        assert(s.take(i) =~= s);
    } else {
        lemma_strip_kv_take(s.drop_last(), i);
        assert(s.drop_last().take(i) =~= s.take(i));
    }
}

/// Removes trailing index digits and commas from a key.
fn strip_kv(s: &Vec<u8>) -> (r: Vec<u8>)
    ensures
        r@ == strip_kv_suffix(s@),
{
    let mut hi: usize = s.len();
    while hi > 0 && is_digit_or_comma(s[hi - 1])
        invariant
            hi <= s.len(),
            forall|k: int| hi <= k < s@.len() ==> is_digit(s@[k]) || s@[k] == 44,
        decreases hi,
    {
        hi = hi - 1;
    }
    let r = sub_vec(s, 0, hi);
    proof {
        lemma_strip_kv_take(s@, hi as int);
        assert(s@.subrange(0, hi as int) =~= s@.take(hi as int));
    }
    r
}

/// Checks for a digit or comma byte.
fn is_digit_or_comma(b: u8) -> (r: bool)
    ensures
        r == (is_digit(b) || b == 44),
{
    (48 <= b && b <= 57) || b == 44
}

/// The logical key of a `... key value` line, suffix stripped and trimmed.
pub open spec fn p4_base_key(rest: Seq<u8>) -> Seq<u8> {
    spec_trim(strip_kv_suffix(head_sep(rest, 32)))
}

/// The value of a `... key value` line, trimmed.
pub open spec fn p4_value(rest: Seq<u8>) -> Seq<u8> {
    spec_trim(
        match after_sep(rest, 32) {
            Option::Some(v) => v,
            Option::None => Seq::empty(),
        },
    )
}

/// One log line applied to the state.
pub open spec fn p4_step(st: P4FoldV, line: Seq<u8>, qpath: Seq<u8>) -> P4FoldV {
    let trimmed = spec_trim_end(line);
    if !spec_starts_with(trimmed, ascii_of("... ")) {
        st
    } else {
        let rest = trimmed.skip(4);
        let base = p4_base_key(rest);
        let value = p4_value(rest);
        if base == ascii_of("depotFile") {
            if value.len() > 0 {
                P4FoldV { cur_depot: Option::Some(value), pending: st.pending, entries: st.entries }
            } else {
                st
            }
        } else if base == ascii_of("change") {
            let f = p4_flush(st);
            P4FoldV {
                cur_depot: f.cur_depot,
                pending: Option::Some(
                    P4PendingV {
                        change: value,
                        timestamp: 0,
                        author: Seq::empty(),
                        summary: Seq::empty(),
                        path: match f.cur_depot {
                            Option::Some(d) => d,
                            Option::None => qpath,
                        },
                        deleted: false,
                    },
                ),
                entries: f.entries,
            }
        } else {
            match st.pending {
                Option::None => st,
                Option::Some(p) => if base == ascii_of("time") {
                    P4FoldV {
                        cur_depot: st.cur_depot,
                        pending: Option::Some(
                            P4PendingV {
                                timestamp: match spec_parse_i64(value) {
                                    Option::Some(t) => t,
                                    Option::None => 0,
                                },
                                ..p
                            },
                        ),
                        entries: st.entries,
                    }
                } else if base == ascii_of("user") {
                    P4FoldV {
                        cur_depot: st.cur_depot,
                        pending: Option::Some(P4PendingV { author: value, ..p }),
                        entries: st.entries,
                    }
                } else if base == ascii_of("desc") {
                    if p.summary.len() == 0 {
                        P4FoldV {
                            cur_depot: st.cur_depot,
                            pending: Option::Some(P4PendingV { summary: value, ..p }),
                            entries: st.entries,
                        }
                    } else {
                        st
                    }
                } else if base == ascii_of("action") {
                    if has_sub(value, ascii_of("delete")) {
                        P4FoldV {
                            cur_depot: st.cur_depot,
                            pending: Option::Some(P4PendingV { deleted: true, ..p }),
                            entries: st.entries,
                        }
                    } else {
                        st
                    }
                } else {
                    st
                },
            }
        }
    }
}

/// The fold of `p4_step` over `lines`, from index `i` on.
pub open spec fn p4_fold(st: P4FoldV, lines: Seq<Seq<u8>>, i: int, qpath: Seq<u8>) -> P4FoldV
    decreases lines.len() - i,
{
    if i < 0 || i >= lines.len() {
        st
    } else {
        p4_fold(p4_step(st, lines[i], qpath), lines, i + 1, qpath)
    }
}

/// The parser's initial state.
pub open spec fn p4_init() -> P4FoldV {
    P4FoldV { cur_depot: Option::None, pending: Option::None, entries: Seq::empty() }
}

/// The final parser state for a whole log output.
pub open spec fn spec_parse_p4(out: Seq<u8>, qpath: Seq<u8>) -> P4FoldV {
    p4_flush(p4_fold(p4_init(), spec_lines(out), 0, qpath))
}

/// The entries parsed from a whole log output.
pub open spec fn spec_p4_entries(out: Seq<u8>, qpath: Seq<u8>) -> Seq<VcsHistoryEntryV> {
    spec_parse_p4(out, qpath).entries
}

/// The relative path reported with the entries: the last depot path seen,
/// or the queried path when none was.
pub open spec fn spec_p4_rel(out: Seq<u8>, qpath: Seq<u8>) -> Seq<u8> {
    match spec_parse_p4(out, qpath).cur_depot {
        Option::Some(d) => d,
        Option::None => qpath,
    }
}

/// Emits the pending entry.
fn p4_do_flush(
    entries: &mut Vec<VcsHistoryEntry>,
    pending: Option<P4Pending>,
    Ghost(st): Ghost<P4FoldV>,
) -> (r: Ghost<P4FoldV>)
    requires
        st.pending == p4_pend_view(pending),
        st.entries == ventries_view(old(entries)@),
    ensures
        r@ == p4_flush(st),
        r@.cur_depot == st.cur_depot,
        r@.pending == Option::<P4PendingV>::None,
        r@.entries == ventries_view(final(entries)@),
{
    match pending {
        Option::Some(p) => {
            let ghost pre = ventries_view(entries@);
            let ghost pv = p@;
            entries.push(
                VcsHistoryEntry {
                    provider: Provider::P4,
                    hash: p.change,
                    timestamp: p.timestamp,
                    author: p.author,
                    summary: p.summary,
                    path: p.path,
                    deleted: p.deleted,
                },
            );
            proof {
                assert(ventries_view(entries@) =~= pre.push(p4_entry_of(pv)));
            }
        },
        Option::None => {},
    }
    Ghost(p4_flush(st))
}

/// Clones an optional byte vector.
fn clone_opt_bytes(o: &Option<Vec<u8>>) -> (r: Option<Vec<u8>>)
    ensures
        opt_bytes_view(r) == opt_bytes_view(*o),
{
    match o {
        Option::Some(v) => {
            let c = v.clone();
            proof {
                assert(c@ =~= v@);
            }
            Option::Some(c)
        },
        Option::None => Option::None,
    }
}

/// Parses a whole tagged file log.  Returns the entries and the relative
/// path to report alongside them.
pub fn parse_p4_filelog(out: &Vec<u8>, qpath: &Vec<u8>) -> (r: (Vec<VcsHistoryEntry>, Vec<u8>))
    ensures
        ventries_view(r.0@) == spec_p4_entries(out@, qpath@),
        r.1@ == spec_p4_rel(out@, qpath@),
{
    let log_lines = crate::text::lines(out);
    let ghost linesv = spec_lines(out@);
    let mut entries: Vec<VcsHistoryEntry> = Vec::new();
    let mut cur_depot: Option<Vec<u8>> = Option::None;
    let mut pending: Option<P4Pending> = Option::None;
    proof {
        assert(ventries_view(entries@) =~= Seq::<VcsHistoryEntryV>::empty());
    }
    let mut i: usize = 0;
    while i < log_lines.len()
        invariant
            i <= log_lines@.len(),
            log_lines.deep_view() == linesv,
            p4_fold(p4_init(), linesv, 0, qpath@) == p4_fold(
                P4FoldV {
                    cur_depot: opt_bytes_view(cur_depot),
                    pending: p4_pend_view(pending),
                    entries: ventries_view(entries@),
                },
                linesv,
                i as int,
                qpath@,
            ),
        decreases log_lines.len() - i,
    {
        let line = &log_lines[i];
        proof {
            assert(line@ =~= linesv[i as int]);
        }
        let ghost st = P4FoldV {
            cur_depot: opt_bytes_view(cur_depot),
            pending: p4_pend_view(pending),
            entries: ventries_view(entries@),
        };
        let trimmed = trim_end(line);
        proof {
            reveal_strlit("... ");
        }
        let dots = lit("... ");
        if starts_with(&trimmed, &dots) {
            let rest = sub_vec(&trimmed, 4, trimmed.len());
            proof {
                assert(trimmed@.subrange(4, trimmed@.len() as int) =~= trimmed@.skip(4));
            }
            let (key, valopt) = split_at_byte(&rest, 32);
            let value0 = match valopt {
                Option::Some(v) => v,
                Option::None => Vec::new(),
            };
            let value = trim(&value0);
            let base0 = strip_kv(&key);
            let base = trim(&base0);
            proof {
                assert(base@ == p4_base_key(rest@));
                assert(value@ == p4_value(rest@));
                reveal_strlit("depotFile");
                reveal_strlit("change");
                reveal_strlit("time");
                reveal_strlit("user");
                reveal_strlit("desc");
                reveal_strlit("action");
                reveal_strlit("delete");
            }
            if bytes_eq(&base, &lit("depotFile")) {
                if value.len() > 0 {
                    cur_depot = Option::Some(value);
                }
            } else if bytes_eq(&base, &lit("change")) {
                let taken = pending;
                pending = Option::None;
                let _ = p4_do_flush(&mut entries, taken, Ghost(st));
                let path = match clone_opt_bytes(&cur_depot) {
                    Option::Some(d) => d,
                    Option::None => {
                        let q = qpath.clone();
                        proof {
                            assert(q@ =~= qpath@);
                        }
                        q
                    },
                };
                pending = Option::Some(
                    P4Pending {
                        change: value,
                        timestamp: 0,
                        author: Vec::new(),
                        summary: Vec::new(),
                        path,
                        deleted: false,
                    },
                );
            } else {
                let taken = pending;
                pending = Option::None;
                match taken {
                    Option::Some(p) => {
                        let mut p = p;
                        if bytes_eq(&base, &lit("time")) {
                            p.timestamp = match parse_i64(&value) {
                                Option::Some(t) => t,
                                Option::None => 0,
                            };
                        } else if bytes_eq(&base, &lit("user")) {
                            p.author = value;
                        } else if bytes_eq(&base, &lit("desc")) {
                            if p.summary.len() == 0 {
                                p.summary = value;
                            }
                        } else if bytes_eq(&base, &lit("action")) {
                            if contains_sub(&value, &lit("delete")) {
                                p.deleted = true;
                            }
                        }
                        pending = Option::Some(p);
                    },
                    Option::None => {},
                }
            }
        }
        proof {
            assert(P4FoldV {
                cur_depot: opt_bytes_view(cur_depot),
                pending: p4_pend_view(pending),
                entries: ventries_view(entries@),
            } == p4_step(st, linesv[i as int], qpath@));
        }
        i = i + 1;
    }
    let ghost st_end = P4FoldV {
        cur_depot: opt_bytes_view(cur_depot),
        pending: p4_pend_view(pending),
        entries: ventries_view(entries@),
    };
    let taken = pending;
    let _ = p4_do_flush(&mut entries, taken, Ghost(st_end));
    let rel = match clone_opt_bytes(&cur_depot) {
        Option::Some(d) => d,
        Option::None => {
            let q = qpath.clone();
            proof {
                assert(q@ =~= qpath@);
            }
            q
        },
    };
    (entries, rel)
}

/// The verbose tagged file-log command.
pub open spec fn spec_p4_filelog_cmd(path: Seq<u8>, parent: Seq<u8>) -> VcsCmdV {
    VcsCmdV {
        tool: ToolKind::P4,
        args: seq![
            ascii_of("-ztag"),
            ascii_of("filelog"),
            ascii_of("-t"),
            ascii_of("-l"),
            path,
        ],
        cwd: parent,
    }
}

/// The command the probe runs next, given the replies so far.
pub open spec fn spec_p4_request(path: Seq<u8>, is_file: bool, replies: Seq<ReplyV>) -> Option<
    VcsCmdV,
> {
    if !is_file {
        Option::None
    } else {
        match spec_parent(path) {
            Option::None => Option::None,
            Option::Some(parent) => if replies.len() == 0 {
                Option::Some(spec_p4_filelog_cmd(path, parent))
            } else {
                Option::None
            },
        }
    }
}

/// The probe's decision over a transcript.  Zero parsed entries are a
/// valid, successful result: the tool ran.
pub open spec fn spec_p4_probe(path: Seq<u8>, is_file: bool, replies: Seq<ReplyV>) -> Result<
    VcsHistoryResultV,
    Seq<u8>,
> {
    if !is_file {
        Result::Err(m_not_a_file())
    } else {
        match spec_parent(path) {
            Option::None => Result::Err(m_invalid_path()),
            Option::Some(parent) => if replies.len() < 1 {
                Result::Err(m_reply_missing())
            } else {
                match replies[0] {
                    Result::Err(e) => Result::Err(e),
                    Result::Ok(out) => Result::Ok(
                        VcsHistoryResultV {
                            provider: Provider::P4,
                            repo_root: Option::None,
                            relative_path: spec_p4_rel(out, path),
                            entries: spec_p4_entries(out, path),
                        },
                    ),
                }
            },
        }
    }
}

/// How many replies of a transcript the probe consumed.
pub open spec fn spec_p4_used(path: Seq<u8>, is_file: bool, replies: Seq<ReplyV>) -> int {
    if !is_file {
        0
    } else {
        match spec_parent(path) {
            Option::None => 0,
            Option::Some(parent) => if replies.len() < 1 {
                0
            } else {
                1
            },
        }
    }
}

/// Counts how many replies of a transcript the probe consumed.
pub fn p4_used_count(path: &Vec<u8>, is_file: bool, replies: &Vec<Reply>) -> (r: usize)
    ensures
        r == spec_p4_used(path@, is_file, replies_view(replies@)),
        r <= replies@.len(),
{
    if !is_file {
        return 0;
    }
    match parent_dir(path) {
        Option::None => {
            return 0;
        },
        Option::Some(_) => {},
    }
    if replies.len() < 1 {
        return 0;
    }
    1
}

/// Spec-level image of a probe result.
pub open spec fn vcs_res_view(r: Result<VcsHistoryResult, Vec<u8>>) -> Result<
    VcsHistoryResultV,
    Seq<u8>,
> {
    match r {
        Result::Ok(g) => Result::Ok(g@),
        Result::Err(e) => Result::Err(e@),
    }
}

/// One step of the probe: the next command to run, or its decision.
#[derive(Debug)]
pub enum P4Step {
    Run(VcsCmd),
    Done(Result<VcsHistoryResult, Vec<u8>>),
}

/// Builds the file-log command.
fn p4_filelog_cmd(path: Vec<u8>, parent: Vec<u8>) -> (c: VcsCmd)
    ensures
        c@ == spec_p4_filelog_cmd(path@, parent@),
{
    proof {
        reveal_strlit("-ztag");
        reveal_strlit("filelog");
        reveal_strlit("-t");
        reveal_strlit("-l");
    }
    let ghost pathv = path@;
    let mut args: Vec<Vec<u8>> = Vec::new();
    args.push(lit("-ztag"));
    args.push(lit("filelog"));
    args.push(lit("-t"));
    args.push(lit("-l"));
    args.push(path);
    let c = VcsCmd { tool: ToolKind::P4, args, cwd: parent };
    proof {
        assert(c@.args =~~= spec_p4_filelog_cmd(pathv, c.cwd@).args);
    }
    c
}

/// Decides the probe's next move from the replies received so far.
pub fn p4_probe_step(path: &Vec<u8>, is_file: bool, replies: &Vec<Reply>) -> (r: P4Step)
    ensures
        match r {
            P4Step::Run(c) => spec_p4_request(path@, is_file, replies_view(replies@))
                == Option::Some(c@) && spec_p4_probe(path@, is_file, replies_view(replies@))
                == Result::<VcsHistoryResultV, Seq<u8>>::Err(m_reply_missing()),
            P4Step::Done(res) => spec_p4_request(path@, is_file, replies_view(replies@))
                == Option::<VcsCmdV>::None && vcs_res_view(res) == spec_p4_probe(
                path@,
                is_file,
                replies_view(replies@),
            ),
        },
{
    if !is_file {
        return P4Step::Done(Result::Err(not_a_file_msg()));
    }
    let parent = match parent_dir(path) {
        Option::Some(p) => p,
        Option::None => {
            return P4Step::Done(Result::Err(invalid_path_msg()));
        },
    };
    if replies.len() == 0 {
        return P4Step::Run(p4_filelog_cmd(clone_bytes(path), parent));
    }
    proof {
        assert(replies_view(replies@)[0] == reply_view(replies@[0]));
    }
    match &replies[0] {
        Result::Err(e) => P4Step::Done(Result::Err(clone_bytes(e))),
        Result::Ok(out) => {
            let (entries, rel) = parse_p4_filelog(out, path);
            P4Step::Done(
                Result::Ok(
                    VcsHistoryResult {
                        provider: Provider::P4,
                        repo_root: Option::None,
                        relative_path: rel,
                        entries,
                    },
                ),
            )
        },
    }
}

/// The probe's decision over a complete transcript of runner replies.
pub fn p4_history_blocking(path: &Vec<u8>, is_file: bool, replies: &Vec<Reply>) -> (r: Result<
    VcsHistoryResult,
    Vec<u8>,
>)
    ensures
        vcs_res_view(r) == spec_p4_probe(path@, is_file, replies_view(replies@)),
{
    match p4_probe_step(path, is_file, replies) {
        P4Step::Done(res) => res,
        P4Step::Run(_) => Result::Err(reply_missing_msg()),
    }
}

/// The content-query command: print the revision-pinned path specifier.
pub open spec fn spec_p4_print_cmd(path: Seq<u8>, change: Seq<u8>, cwd: Seq<u8>) -> VcsCmdV {
    VcsCmdV {
        tool: ToolKind::P4,
        args: seq![
            ascii_of("print"),
            ascii_of("-q"),
            path + ascii_of("@=") + change,
        ],
        cwd: cwd,
    }
}

/// Builds the content request: the changelist must be entirely decimal
/// and the working path must have a parent directory.
pub fn p4_show_file_request(path: &Vec<u8>, change: &Vec<u8>, working_path: &Vec<u8>) -> (r: Result<
    VcsCmd,
    Vec<u8>,
>)
    ensures
        match r {
            Result::Ok(c) => change@.len() > 0 && all_digits(change@) && spec_parent(working_path@)
                is Some && c@ == spec_p4_print_cmd(
                path@,
                change@,
                spec_parent(working_path@).unwrap(),
            ),
            Result::Err(e) => {
                ||| (!(change@.len() > 0 && all_digits(change@)) && e@ == m_bad_changelist())
                ||| (change@.len() > 0 && all_digits(change@) && spec_parent(working_path@)
                    is None && e@ == m_invalid_path())
            },
        },
{
    if !is_decimal(change) {
        return Result::Err(bad_changelist_msg());
    }
    let cwd = match parent_dir(working_path) {
        Option::Some(p) => p,
        Option::None => {
            return Result::Err(invalid_path_msg());
        },
    };
    proof {
        reveal_strlit("print");
        reveal_strlit("-q");
        reveal_strlit("@=");
    }
    let at_eq = lit("@=");
    let spec0 = crate::text::concat_bytes(path, &at_eq);
    let spec_arg = crate::text::concat_bytes(&spec0, change);
    let mut args: Vec<Vec<u8>> = Vec::new();
    args.push(lit("print"));
    args.push(lit("-q"));
    args.push(spec_arg);
    let c = VcsCmd { tool: ToolKind::P4, args, cwd };
    proof {
        assert(c@.args =~~= spec_p4_print_cmd(path@, change@, c.cwd@).args);
    }
    Result::Ok(c)
}

/// The decision over a content reply: the input checks first, then the
/// reply as the tool gave it.
pub open spec fn spec_p4_show(change: Seq<u8>, working_path: Seq<u8>, reply: ReplyV) -> ReplyV {
    if !(change.len() > 0 && all_digits(change)) {
        Result::Err(m_bad_changelist())
    } else if spec_parent(working_path) is None {
        Result::Err(m_invalid_path())
    } else {
        reply
    }
}

/// Retrieves historical content over a one-reply transcript.
pub fn p4_show_file_blocking(
    path: &Vec<u8>,
    change: &Vec<u8>,
    working_path: &Vec<u8>,
    reply: Reply,
) -> (r: Reply)
    ensures
        reply_view(r) == spec_p4_show(change@, working_path@, reply_view(reply)),
{
    if !is_decimal(change) {
        return Result::Err(bad_changelist_msg());
    }
    match parent_dir(working_path) {
        Option::Some(_) => reply,
        Option::None => Result::Err(invalid_path_msg()),
    }
}

/// One candidate configuration file: its bare name and its full path.
#[derive(Debug)]
pub struct P4ConfigInfo {
    pub name: Vec<u8>,
    pub path: Vec<u8>,
}

/// Spec-level image of `P4ConfigInfo`.
pub struct P4ConfigInfoV {
    pub name: Seq<u8>,
    pub path: Seq<u8>,
}

impl View for P4ConfigInfo {
    type V = P4ConfigInfoV;

    open spec fn view(&self) -> P4ConfigInfoV {
        P4ConfigInfoV { name: self.name@, path: self.path@ }
    }
}

/// A directory entry `dir/name` (no separator added when `dir` already
/// ends with one).
pub open spec fn spec_join_path(dir: Seq<u8>, name: Seq<u8>) -> Seq<u8> {
    if dir.len() > 0 && crate::paths::is_sep(dir.last()) {
        dir + name
    } else {
        dir + seq![47u8] + name
    }
}

/// The three recognized configuration file names, in search order.
pub open spec fn spec_p4config_names() -> Seq<Seq<u8>> {
    seq![ascii_of("p4config.txt"), ascii_of(".p4config"), ascii_of("p4config")]
}

/// The candidate configuration files for one directory.
pub open spec fn spec_p4config_dir(dir: Seq<u8>) -> Seq<P4ConfigInfoV> {
    spec_p4config_names().map_values(
        |n: Seq<u8>| P4ConfigInfoV { name: n, path: spec_join_path(dir, n) },
    )
}

/// Every candidate configuration file, walking upward from `cwd` through
/// its parent directories; the first present candidate wins.
pub open spec fn spec_p4config_candidates(cwd: Seq<u8>) -> Seq<P4ConfigInfoV>
    decreases cwd.len(),
    via spec_p4config_candidates_decreases
{
    spec_p4config_dir(cwd) + match spec_parent(cwd) {
        Option::Some(d) => spec_p4config_candidates(d),
        Option::None => Seq::empty(),
    }
}

#[via_fn]
proof fn spec_p4config_candidates_decreases(cwd: Seq<u8>) {
    crate::paths::lemma_parent_shorter(cwd);
}

/// Lists the candidate configuration files, nearest directory first.
pub fn p4config_candidates(cwd: &Vec<u8>) -> (r: Vec<P4ConfigInfo>)
    ensures
        r@.map_values(|c: P4ConfigInfo| c@) == spec_p4config_candidates(cwd@),
{
    let mut r: Vec<P4ConfigInfo> = Vec::new();
    let mut dir: Option<Vec<u8>> = Option::Some(clone_bytes(cwd));
    proof {
        assert(r@.map_values(|c: P4ConfigInfo| c@) =~= Seq::<P4ConfigInfoV>::empty());
    }
    while dir.is_some()
        invariant
            match dir {
                Option::Some(d) => spec_p4config_candidates(cwd@) == r@.map_values(
                    |c: P4ConfigInfo| c@,
                ) + spec_p4config_candidates(d@),
                Option::None => spec_p4config_candidates(cwd@) == r@.map_values(
                    |c: P4ConfigInfo| c@,
                ),
            },
        decreases (match dir {
            Option::Some(d) => d@.len() + 1,
            Option::None => 0,
        }),
    {
        let d = dir.unwrap();
        proof {
            reveal_strlit("p4config.txt");
            reveal_strlit(".p4config");
            reveal_strlit("p4config");
            crate::paths::lemma_parent_shorter(d@);
        }
        let ghost pre = r@.map_values(|c: P4ConfigInfo| c@);
        let c1 = P4ConfigInfo { name: lit("p4config.txt"), path: join_path(&d, &lit("p4config.txt")) };
        let c2 = P4ConfigInfo { name: lit(".p4config"), path: join_path(&d, &lit(".p4config")) };
        let c3 = P4ConfigInfo { name: lit("p4config"), path: join_path(&d, &lit("p4config")) };
        let ghost c1v = c1@;
        let ghost c2v = c2@;
        let ghost c3v = c3@;
        r.push(c1);
        r.push(c2);
        r.push(c3);
        proof {
            assert(r@.map_values(|c: P4ConfigInfo| c@) =~= pre + spec_p4config_dir(d@)) by {
                assert(spec_p4config_dir(d@) =~= seq![c1v, c2v, c3v]);
            }
        }
        dir = parent_dir(&d);
    }
    r
}

/// Joins a directory and a file name.
fn join_path(dir: &Vec<u8>, name: &Vec<u8>) -> (r: Vec<u8>)
    ensures
        r@ == spec_join_path(dir@, name@),
{
    if dir.len() > 0 {
        let b = dir[dir.len() - 1];
        if b == 47 || b == 92 {
            return crate::text::concat_bytes(dir, name);
        }
    }
    let mut d = clone_bytes(dir);
    d.push(47);
    let r = crate::text::concat_bytes(&d, name);
    proof {
        assert(dir@ + seq![47u8] =~= d@);
    }
    r
}

/// The first present candidate, in search order.
pub open spec fn spec_find_p4config(
    cands: Seq<P4ConfigInfoV>,
    present: Seq<bool>,
    i: int,
) -> Option<P4ConfigInfoV>
    decreases cands.len() - i,
{
    if i < 0 || i >= cands.len() || i >= present.len() {
        Option::None
    } else if present[i] {
        Option::Some(cands[i])
    } else {
        spec_find_p4config(cands, present, i + 1)
    }
}

/// Picks the first candidate configuration file that is present on disk.
/// `present` reports, for each candidate in order, whether it exists as a
/// regular file.
pub fn find_p4config_info(candidates: &Vec<P4ConfigInfo>, present: &Vec<bool>) -> (r: Option<
    P4ConfigInfo,
>)
    ensures
        match r {
            Option::Some(c) => spec_find_p4config(
                candidates@.map_values(|c: P4ConfigInfo| c@),
                present@,
                0,
            ) == Option::Some(c@),
            Option::None => spec_find_p4config(
                candidates@.map_values(|c: P4ConfigInfo| c@),
                present@,
                0,
            ) == Option::<P4ConfigInfoV>::None,
        },
{
    let ghost cv = candidates@.map_values(|c: P4ConfigInfo| c@);
    let mut i: usize = 0;
    while i < candidates.len() && i < present.len()
        invariant
            i <= candidates@.len(),
            cv == candidates@.map_values(|c: P4ConfigInfo| c@),
            spec_find_p4config(cv, present@, 0) == spec_find_p4config(cv, present@, i as int),
        decreases candidates.len() - i,
    {
        if present[i] {
            let c = &candidates[i];
            let r = P4ConfigInfo { name: clone_bytes(&c.name), path: clone_bytes(&c.path) };
            return Option::Some(r);
        }
        i = i + 1;
    }
    Option::None
}

/// The errors that mean "this backend has no history here" and allow the
/// resolver to fall through to the next backend.
pub open spec fn spec_is_p4_no_history(e: Seq<u8>) -> bool {
    ||| e == m_missing(ToolKind::P4)
    ||| has_sub(lower_seq(e), ascii_of("not under client's root"))
    ||| has_sub(lower_seq(e), ascii_of("not in client view"))
    ||| has_sub(lower_seq(e), ascii_of("not in client"))
    ||| has_sub(lower_seq(e), ascii_of("not on client"))
    ||| has_sub(lower_seq(e), ascii_of("no such file"))
    ||| has_sub(lower_seq(e), ascii_of("file(s) not in client"))
    ||| has_sub(lower_seq(e), ascii_of("must create client"))
    ||| has_sub(lower_seq(e), ascii_of("no such client"))
    ||| (has_sub(lower_seq(e), ascii_of("client")) && has_sub(lower_seq(e), ascii_of("unknown")))
    ||| (has_sub(lower_seq(e), ascii_of("client")) && has_sub(lower_seq(e), ascii_of("not found")))
}

/// Classifies an error as "no history in the server-metadata VCS".
pub fn is_p4_no_history(error: &Vec<u8>) -> (r: bool)
    ensures
        r == spec_is_p4_no_history(error@),
{
    proof {
        reveal_strlit("not under client's root");
        reveal_strlit("not in client view");
        reveal_strlit("not in client");
        reveal_strlit("not on client");
        reveal_strlit("no such file");
        reveal_strlit("file(s) not in client");
        reveal_strlit("must create client");
        reveal_strlit("no such client");
        reveal_strlit("client");
        reveal_strlit("unknown");
        reveal_strlit("not found");
    }
    let lower = to_lower(error);
    let missing = crate::messages::missing_msg(ToolKind::P4);
    bytes_eq(error, &missing) || contains_sub(&lower, &lit("not under client's root"))
        || contains_sub(&lower, &lit("not in client view")) || contains_sub(
        &lower,
        &lit("not in client"),
    ) || contains_sub(&lower, &lit("not on client")) || contains_sub(&lower, &lit("no such file"))
        || contains_sub(&lower, &lit("file(s) not in client")) || contains_sub(
        &lower,
        &lit("must create client"),
    ) || contains_sub(&lower, &lit("no such client")) || (contains_sub(&lower, &lit("client"))
        && contains_sub(&lower, &lit("unknown"))) || (contains_sub(&lower, &lit("client"))
        && contains_sub(&lower, &lit("not found")))
}

} // verus!
