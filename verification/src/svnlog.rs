//! The legacy centralized VCS backend: its streamed XML log format.
//!
//! The verbose XML log is scanned line by line — the output is shallow,
//! one tag per line, with the single exception of commit messages, which
//! may span lines.  Entry boundaries are the `<logentry>` tags; inside an
//! entry the author, date and message tags are read by substring search,
//! and a path tag carrying a delete action marks the entry deleted.

use vstd::prelude::*;

use crate::model::Provider;
use crate::model::VcsHistoryEntry;
use crate::model::VcsHistoryEntryV;
use crate::model::ventries_view;
use crate::text::ascii_of;
use crate::text::concat_bytes;
use crate::text::contains_sub;
use crate::text::find_byte;
use crate::text::find_byte_from;
use crate::text::find_sub;
use crate::text::find_sub_from;
use crate::text::has_sub;
use crate::text::lemma_find_byte_from;
use crate::text::lemma_find_sub_from;
use crate::text::lit;
use crate::text::spec_lines;
use crate::text::spec_trim;
use crate::text::starts_with;
use crate::text::sub_vec;
use crate::text::trim;

verus! {

/// The name given to what the outside date parser returns: the Unix
/// timestamp denoted by an RFC 3339 date string, if it denotes one.
pub uninterp spec fn rfc3339_unix_of(s: Seq<u8>) -> Option<i64>;

/// Relies on time's `OffsetDateTime::parse` with the RFC 3339 well-known
/// format, and on `OffsetDateTime::unix_timestamp`; both are functions of
/// the input text alone.
#[verifier::external_body]
fn parse_rfc3339_bytes(value: &Vec<u8>) -> (r: Option<i64>)
    ensures
        r == rfc3339_unix_of(value@),
{
    let text = match core::str::from_utf8(value) {
        Ok(t) => t,
        Err(_) => return None,
    };
    match time::OffsetDateTime::parse(text, &time::format_description::well_known::Rfc3339) {
        Ok(dt) => Some(dt.unix_timestamp()),
        Err(_) => None,
    }
}

/// The timestamp reported for a date value: the Unix timestamp it denotes,
/// or zero when it cannot be parsed.
pub open spec fn spec_svn_time(value: Seq<u8>) -> i64 {
    match rfc3339_unix_of(value) {
        Option::Some(t) => t,
        Option::None => 0,
    }
}

/// Parses a date value; an unparsable date normalizes to zero.
pub fn parse_svn_time(value: &Vec<u8>) -> (r: i64)
    ensures
        r == spec_svn_time(value@),
{
    match parse_rfc3339_bytes(value) {
        Option::Some(t) => t,
        Option::None => 0,
    }
}

/// The value of `attr="…"` in `line`, located by substring search.
pub open spec fn spec_extract_xml_attr(line: Seq<u8>, attr: Seq<u8>) -> Option<Seq<u8>> {
    let needle = attr + ascii_of("=\"");
    match find_sub_from(line, needle, 0) {
        Option::None => Option::None,
        Option::Some(p) => {
            let rest = line.skip(p + needle.len());
            match find_byte_from(rest, 34, 0) {
                Option::None => Option::None,
                Option::Some(e) => Option::Some(rest.take(e)),
            }
        },
    }
}

/// Extracts the value of an XML attribute from one line.
pub fn extract_xml_attr(line: &Vec<u8>, attr: &Vec<u8>) -> (r: Option<Vec<u8>>)
    ensures
        match r {
            Option::Some(v) => spec_extract_xml_attr(line@, attr@) == Option::Some(v@),
            Option::None => spec_extract_xml_attr(line@, attr@) == Option::<Seq<u8>>::None,
        },
{
    proof {
        reveal_strlit("=\"");
    }
    let eq_quote = lit("=\"");
    let needle = concat_bytes(attr, &eq_quote);
    let p = match find_sub(line, &needle) {
        Option::Some(p) => p,
        Option::None => {
            return Option::None;
        },
    };
    let ll = line.len();
    proof {
        lemma_find_sub_from(line@, needle@, 0);
    }
    let rest = sub_vec(line, p + needle.len(), ll);
    proof {
        assert(line@.subrange(p + needle@.len(), line@.len() as int) =~= line@.skip(
            p + needle@.len(),
        ));
    }
    let e = match find_byte(&rest, 34, 0) {
        Option::Some(e) => e,
        Option::None => {
            return Option::None;
        },
    };
    proof {
        lemma_find_byte_from(rest@, 34, 0);
    }
    let v = sub_vec(&rest, 0, e);
    proof {
        assert(rest@.subrange(0, e as int) =~= rest@.take(e as int));
    }
    Option::Some(v)
}

/// The text between `<tag>` and `</tag>` in `line`, when the open tag is
/// found and the first close tag does not precede it.
pub open spec fn spec_extract_xml_value(line: Seq<u8>, tag: Seq<u8>) -> Option<Seq<u8>> {
    let open = ascii_of("<") + tag + ascii_of(">");
    let close = ascii_of("</") + tag + ascii_of(">");
    match find_sub_from(line, open, 0) {
        Option::None => Option::None,
        Option::Some(o) => match find_sub_from(line, close, 0) {
            Option::None => Option::None,
            Option::Some(e) => if e < o + open.len() {
                Option::None
            } else {
                Option::Some(line.subrange(o + open.len(), e))
            },
        },
    }
}

/// Extracts the single-line value of an XML tag from one line.
pub fn extract_xml_value(line: &Vec<u8>, tag: &Vec<u8>) -> (r: Option<Vec<u8>>)
    ensures
        match r {
            Option::Some(v) => spec_extract_xml_value(line@, tag@) == Option::Some(v@),
            Option::None => spec_extract_xml_value(line@, tag@) == Option::<Seq<u8>>::None,
        },
{
    proof {
        reveal_strlit("<");
        reveal_strlit(">");
        reveal_strlit("</");
    }
    let lt = lit("<");
    let gt = lit(">");
    let lt_slash = lit("</");
    let open0 = concat_bytes(&lt, tag);
    let open = concat_bytes(&open0, &gt);
    let close0 = concat_bytes(&lt_slash, tag);
    let close = concat_bytes(&close0, &gt);
    let o = match find_sub(line, &open) {
        Option::Some(o) => o,
        Option::None => {
            return Option::None;
        },
    };
    let e = match find_sub(line, &close) {
        Option::Some(e) => e,
        Option::None => {
            return Option::None;
        },
    };
    let ll = line.len();
    proof {
        lemma_find_sub_from(line@, open@, 0);
        lemma_find_sub_from(line@, close@, 0);
    }
    if e < o + open.len() {
        return Option::None;
    }
    let v = sub_vec(line, o + open.len(), e);
    Option::Some(v)
}

/// The message lines joined with a line feed.
pub open spec fn join_nl(ls: Seq<Seq<u8>>) -> Seq<u8>
    decreases ls.len(),
{
    if ls.len() == 0 {
        Seq::empty()
    } else if ls.len() == 1 {
        ls[0]
    } else {
        join_nl(ls.drop_last()) + seq![10u8] + ls.last()
    }
}

/// Joins collected message lines with a line feed.
fn join_msg_lines(ls: &Vec<Vec<u8>>) -> (r: Vec<u8>)
    ensures
        r@ == join_nl(ls.deep_view()),
{
    let mut r: Vec<u8> = Vec::new();
    let mut i: usize = 0;
    while i < ls.len()
        invariant
            i <= ls@.len(),
            r@ == join_nl(ls.deep_view().take(i as int)),
        decreases ls.len() - i,
    {
        if i > 0 {
            r.push(10);
        }
        let mut j: usize = 0;
        let line = &ls[i];
        while j < line.len()
            invariant
                j <= line@.len(),
                i < ls@.len(),
                line == ls@[i as int],
                r@ == if i == 0 {
                    line@.take(j as int)
                } else {
                    join_nl(ls.deep_view().take(i as int)) + seq![10u8] + line@.take(j as int)
                },
            decreases line.len() - j,
        {
            r.push(line[j]);
            proof {
                assert(line@.take(j + 1 as int) =~= line@.take(j as int).push(line@[j as int]));
            }
            j = j + 1;
        }
        proof {
            let dv = ls.deep_view();
            assert(line@ =~= dv[i as int]);
            assert(line@.take(line@.len() as int) =~= line@);
            assert(dv.take(i + 1 as int).drop_last() =~= dv.take(i as int));
            assert(dv.take(i + 1 as int).last() == dv[i as int]);
            if i == 0 {
                assert(r@ == join_nl(dv.take(i + 1 as int)));
            } else {
                assert(r@ == join_nl(dv.take(i + 1 as int)));
            }
        }
        i = i + 1;
    }
    proof {
        assert(ls.deep_view().take(ls@.len() as int) =~= ls.deep_view());
    }
    r
}

/// The entry being accumulated between its `<logentry>` tags.
#[derive(Debug)]
pub struct SvnPending {
    pub revision: Vec<u8>,
    pub timestamp: i64,
    pub author: Vec<u8>,
    pub summary: Vec<u8>,
    pub deleted: bool,
}

/// Spec-level image of `SvnPending`.
pub struct SvnPendingV {
    pub revision: Seq<u8>,
    pub timestamp: i64,
    pub author: Seq<u8>,
    pub summary: Seq<u8>,
    pub deleted: bool,
}

impl View for SvnPending {
    type V = SvnPendingV;

    open spec fn view(&self) -> SvnPendingV {
        SvnPendingV {
            revision: self.revision@,
            timestamp: self.timestamp,
            author: self.author@,
            summary: self.summary@,
            deleted: self.deleted,
        }
    }
}

/// The parser's whole state: the entry in progress, the multi-line message
/// collection, and the entries already emitted.
pub struct SvnFoldV {
    pub pending: Option<SvnPendingV>,
    pub in_msg: bool,
    pub msg_lines: Seq<Seq<u8>>,
    pub entries: Seq<VcsHistoryEntryV>,
}

/// Spec-level image of an optional pending entry.
pub open spec fn svn_pend_view(p: Option<SvnPending>) -> Option<SvnPendingV> {
    match p {
        Option::Some(x) => Option::Some(x@),
        Option::None => Option::None,
    }
}

/// The normalized entry a closed log entry becomes.
pub open spec fn svn_entry_of(p: SvnPendingV, path: Seq<u8>) -> VcsHistoryEntryV {
    VcsHistoryEntryV {
        provider: Provider::Svn,
        hash: p.revision,
        timestamp: p.timestamp,
        author: p.author,
        summary: p.summary,
        path: path,
        deleted: p.deleted,
    }
}

/// One log line applied to the state.
pub open spec fn svn_step(st: SvnFoldV, raw_line: Seq<u8>, path: Seq<u8>) -> SvnFoldV {
    let line = spec_trim(raw_line);
    if crate::text::spec_starts_with(line, ascii_of("<logentry")) {
        SvnFoldV {
            pending: Option::Some(
                SvnPendingV {
                    revision: match spec_extract_xml_attr(line, ascii_of("revision")) {
                        Option::Some(r) => r,
                        Option::None => Seq::empty(),
                    },
                    timestamp: 0,
                    author: Seq::empty(),
                    summary: Seq::empty(),
                    deleted: false,
                },
            ),
            in_msg: false,
            msg_lines: Seq::empty(),
            entries: st.entries,
        }
    } else if crate::text::spec_starts_with(line, ascii_of("</logentry")) {
        let closed = if st.in_msg {
            match st.pending {
                Option::Some(p) => Option::Some(SvnPendingV { summary: join_nl(st.msg_lines), ..p }),
                Option::None => Option::None,
            }
        } else {
            st.pending
        };
        SvnFoldV {
            pending: Option::None,
            in_msg: false,
            msg_lines: st.msg_lines,
            entries: match closed {
                Option::Some(p) => if p.revision.len() > 0 {
                    st.entries.push(svn_entry_of(p, path))
                } else {
                    st.entries
                },
                Option::None => st.entries,
            },
        }
    } else {
        match st.pending {
            Option::None => st,
            Option::Some(p) => if st.in_msg {
                match find_sub_from(line, ascii_of("</msg>"), 0) {
                    Option::Some(e) => SvnFoldV {
                        pending: Option::Some(
                            SvnPendingV {
                                summary: join_nl(st.msg_lines.push(line.take(e))),
                                ..p
                            },
                        ),
                        in_msg: false,
                        msg_lines: Seq::empty(),
                        entries: st.entries,
                    },
                    Option::None => SvnFoldV {
                        pending: st.pending,
                        in_msg: true,
                        msg_lines: st.msg_lines.push(line),
                        entries: st.entries,
                    },
                }
            } else {
                match spec_extract_xml_value(line, ascii_of("author")) {
                    Option::Some(a) => SvnFoldV {
                        pending: Option::Some(SvnPendingV { author: a, ..p }),
                        in_msg: st.in_msg,
                        msg_lines: st.msg_lines,
                        entries: st.entries,
                    },
                    Option::None => match spec_extract_xml_value(line, ascii_of("date")) {
                        Option::Some(d) => SvnFoldV {
                            pending: Option::Some(
                                SvnPendingV { timestamp: spec_svn_time(d), ..p },
                            ),
                            in_msg: st.in_msg,
                            msg_lines: st.msg_lines,
                            entries: st.entries,
                        },
                        Option::None => match spec_extract_xml_value(line, ascii_of("msg")) {
                            Option::Some(m) => SvnFoldV {
                                pending: Option::Some(SvnPendingV { summary: m, ..p }),
                                in_msg: st.in_msg,
                                msg_lines: st.msg_lines,
                                entries: st.entries,
                            },
                            Option::None => svn_msg_or_path_step(st, p, line),
                        },
                    },
                }
            },
        }
    }
}

/// The late scanner branches: an opening `<msg>` tag, and the delete
/// marker on a path tag.
pub open spec fn svn_msg_or_path_step(st: SvnFoldV, p: SvnPendingV, line: Seq<u8>) -> SvnFoldV {
    match find_sub_from(line, ascii_of("<msg>"), 0) {
        Option::Some(idx) => {
            let remainder = line.skip(idx + 5);
            match find_sub_from(remainder, ascii_of("</msg>"), 0) {
                Option::Some(e) => SvnFoldV {
                    pending: Option::Some(SvnPendingV { summary: remainder.take(e), ..p }),
                    in_msg: st.in_msg,
                    msg_lines: st.msg_lines,
                    entries: st.entries,
                },
                Option::None => SvnFoldV {
                    pending: st.pending,
                    in_msg: true,
                    msg_lines: st.msg_lines.push(remainder),
                    entries: st.entries,
                },
            }
        },
        Option::None => {
            if has_sub(line, ascii_of("<path")) && has_sub(line, ascii_of("action=\"D\"")) {
                SvnFoldV {
                    pending: Option::Some(SvnPendingV { deleted: true, ..p }),
                    in_msg: st.in_msg,
                    msg_lines: st.msg_lines,
                    entries: st.entries,
                }
            } else {
                st
            }
        },
    }
}

/// The fold of `svn_step` over `lines`, from index `i` on.
pub open spec fn svn_fold(st: SvnFoldV, lines: Seq<Seq<u8>>, i: int, path: Seq<u8>) -> SvnFoldV
    decreases lines.len() - i,
{
    if i < 0 || i >= lines.len() {
        st
    } else {
        svn_fold(svn_step(st, lines[i], path), lines, i + 1, path)
    }
}

/// The parser's initial state.
pub open spec fn svn_init() -> SvnFoldV {
    SvnFoldV {
        pending: Option::None,
        in_msg: false,
        msg_lines: Seq::empty(),
        entries: Seq::empty(),
    }
}

/// The entries parsed from a whole XML log; an entry still open at the end
/// of input is dropped.
pub open spec fn spec_parse_svn_log(out: Seq<u8>, path: Seq<u8>) -> Seq<VcsHistoryEntryV> {
    svn_fold(svn_init(), spec_lines(out), 0, path).entries
}

/// Parses a whole XML log into normalized entries stamped with `path`.
pub fn parse_svn_log_entries(out: &Vec<u8>, path: &Vec<u8>) -> (r: Vec<VcsHistoryEntry>)
    ensures
        ventries_view(r@) == spec_parse_svn_log(out@, path@),
{
    let log_lines = crate::text::lines(out);
    let ghost linesv = spec_lines(out@);
    let mut entries: Vec<VcsHistoryEntry> = Vec::new();
    let mut pending: Option<SvnPending> = Option::None;
    let mut in_msg: bool = false;
    let mut msg_lines: Vec<Vec<u8>> = Vec::new();
    proof {
        assert(ventries_view(entries@) =~= Seq::<VcsHistoryEntryV>::empty());
        assert(msg_lines.deep_view() =~= Seq::<Seq<u8>>::empty());
    }
    let mut i: usize = 0;
    while i < log_lines.len()
        invariant
            i <= log_lines@.len(),
            log_lines.deep_view() == linesv,
            svn_fold(svn_init(), linesv, 0, path@) == svn_fold(
                SvnFoldV {
                    pending: svn_pend_view(pending),
                    in_msg: in_msg,
                    msg_lines: msg_lines.deep_view(),
                    entries: ventries_view(entries@),
                },
                linesv,
                i as int,
                path@,
            ),
        decreases log_lines.len() - i,
    {
        let raw_line = &log_lines[i];
        proof {
            assert(raw_line@ =~= linesv[i as int]);
        }
        let ghost st = SvnFoldV {
            pending: svn_pend_view(pending),
            in_msg: in_msg,
            msg_lines: msg_lines.deep_view(),
            entries: ventries_view(entries@),
        };
        let line = trim(raw_line);
        proof {
            reveal_strlit("<logentry");
            reveal_strlit("</logentry");
            reveal_strlit("revision");
            reveal_strlit("</msg>");
            reveal_strlit("author");
            reveal_strlit("date");
            reveal_strlit("msg");
            reveal_strlit("<msg>");
            reveal_strlit("<path");
            reveal_strlit("action=\"D\"");
        }
        if starts_with(&line, &lit("<logentry")) {
            let revision = match extract_xml_attr(&line, &lit("revision")) {
                Option::Some(r) => r,
                Option::None => Vec::new(),
            };
            pending = Option::Some(
                SvnPending {
                    revision,
                    timestamp: 0,
                    author: Vec::new(),
                    summary: Vec::new(),
                    deleted: false,
                },
            );
            in_msg = false;
            msg_lines = Vec::new();
            proof {
                assert(msg_lines.deep_view() =~= Seq::<Seq<u8>>::empty());
            }
        } else if starts_with(&line, &lit("</logentry")) {
            let taken = pending;
            pending = Option::None;
            let closed = if in_msg {
                match taken {
                    Option::Some(p) => {
                        let mut p = p;
                        p.summary = join_msg_lines(&msg_lines);
                        Option::Some(p)
                    },
                    Option::None => Option::None,
                }
            } else {
                taken
            };
            in_msg = false;
            match closed {
                Option::Some(p) => {
                    if p.revision.len() > 0 {
                        let ghost pre = ventries_view(entries@);
                        let ghost pv = p@;
                        let path_c = path.clone();
                        proof {
                            assert(path_c@ =~= path@);
                        }
                        entries.push(
                            VcsHistoryEntry {
                                provider: Provider::Svn,
                                hash: p.revision,
                                timestamp: p.timestamp,
                                author: p.author,
                                summary: p.summary,
                                path: path_c,
                                deleted: p.deleted,
                            },
                        );
                        proof {
                            assert(ventries_view(entries@) =~= pre.push(svn_entry_of(pv, path@)));
                        }
                    }
                },
                Option::None => {},
            }
        } else {
            let taken = pending;
            pending = Option::None;
            match taken {
                Option::None => {},
                Option::Some(p) => {
                    if in_msg {
                        match find_sub(&line, &lit("</msg>")) {
                            Option::Some(e) => {
                                proof {
                                    lemma_find_sub_from(line@, ascii_of("</msg>"), 0);
                                }
                                let head = sub_vec(&line, 0, e);
                                proof {
                                    assert(line@.subrange(0, e as int) =~= line@.take(e as int));
                                }
                                let ghost mpre = msg_lines.deep_view();
                                msg_lines.push(head);
                                proof {
                                    assert(msg_lines.deep_view() =~~= mpre.push(
                                        line@.take(e as int),
                                    ));
                                }
                                let mut p = p;
                                p.summary = join_msg_lines(&msg_lines);
                                msg_lines = Vec::new();
                                in_msg = false;
                                pending = Option::Some(p);
                                proof {
                                    assert(msg_lines.deep_view() =~= Seq::<Seq<u8>>::empty());
                                }
                            },
                            Option::None => {
                                let ghost mpre = msg_lines.deep_view();
                                let ghost lv = line@;
                                msg_lines.push(line);
                                proof {
                                    assert(msg_lines.deep_view() =~~= mpre.push(lv));
                                }
                                pending = Option::Some(p);
                            },
                        }
                    } else {
                        match extract_xml_value(&line, &lit("author")) {
                            Option::Some(a) => {
                                let mut p = p;
                                p.author = a;
                                pending = Option::Some(p);
                            },
                            Option::None => {
                                match extract_xml_value(&line, &lit("date")) {
                                    Option::Some(d) => {
                                        let mut p = p;
                                        p.timestamp = parse_svn_time(&d);
                                        pending = Option::Some(p);
                                    },
                                    Option::None => {
                                        match extract_xml_value(&line, &lit("msg")) {
                                            Option::Some(m) => {
                                                let mut p = p;
                                                p.summary = m;
                                                pending = Option::Some(p);
                                            },
                                            Option::None => {
                                                match find_sub(&line, &lit("<msg>")) {
                                                    Option::Some(idx) => {
                                                        let ll = line.len();
                                                        proof {
                                                            lemma_find_sub_from(
                                                                line@,
                                                                ascii_of("<msg>"),
                                                                0,
                                                            );
                                                        }
                                                        let remainder = sub_vec(
                                                            &line,
                                                            idx + 5,
                                                            ll,
                                                        );
                                                        proof {
                                                            assert(line@.subrange(
                                                                idx + 5 as int,
                                                                line@.len() as int,
                                                            ) =~= line@.skip(idx + 5 as int));
                                                        }
                                                        match find_sub(&remainder, &lit("</msg>")) {
                                                            Option::Some(e) => {
                                                                proof {
                                                                    lemma_find_sub_from(
                                                                        remainder@,
                                                                        ascii_of("</msg>"),
                                                                        0,
                                                                    );
                                                                }
                                                                let s = sub_vec(&remainder, 0, e);
                                                                proof {
                                                                    assert(remainder@.subrange(
                                                                        0,
                                                                        e as int,
                                                                    ) =~= remainder@.take(e as int));
                                                                }
                                                                let mut p = p;
                                                                p.summary = s;
                                                                pending = Option::Some(p);
                                                            },
                                                            Option::None => {
                                                                in_msg = true;
                                                                let ghost mpre =
                                                                    msg_lines.deep_view();
                                                                let ghost rv = remainder@;
                                                                msg_lines.push(remainder);
                                                                proof {
                                                                    assert(msg_lines.deep_view()
                                                                        =~~= mpre.push(rv));
                                                                }
                                                                pending = Option::Some(p);
                                                            },
                                                        }
                                                    },
                                                    Option::None => {
                                                        let has_path = contains_sub(
                                                            &line,
                                                            &lit("<path"),
                                                        );
                                                        let has_del = contains_sub(
                                                            &line,
                                                            &lit("action=\"D\""),
                                                        );
                                                        let mut p = p;
                                                        if has_path && has_del {
                                                            p.deleted = true;
                                                        }
                                                        pending = Option::Some(p);
                                                    },
                                                }
                                            },
                                        }
                                    },
                                }
                            },
                        }
                    }
                },
            }
        }
        proof {
            assert(SvnFoldV {
                pending: svn_pend_view(pending),
                in_msg: in_msg,
                msg_lines: msg_lines.deep_view(),
                entries: ventries_view(entries@),
            } == svn_step(st, linesv[i as int], path@));
        }
        i = i + 1;
    }
    entries
}

} // verus!
