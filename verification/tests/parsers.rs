//! Parser behavior on concrete tool output.

use vcs_history::gitlog::parse_commit_line;
use vcs_history::gitlog::parse_git_log;
use vcs_history::model::Provider;
use vcs_history::p4::parse_p4_filelog;
use vcs_history::svnlog::extract_xml_attr;
use vcs_history::svnlog::extract_xml_value;
use vcs_history::svnlog::parse_svn_log_entries;
use vcs_history::svnlog::parse_svn_time;
use vcs_history::text::parse_i64;
use vcs_history::text::truncate_for_log;

fn b(s: &str) -> Vec<u8> {
    s.as_bytes().to_vec()
}

#[test]
fn parse_commit_line_reads_all_four_fields() {
    let c = parse_commit_line(&b("beef01\t1700000000\talice\tFix the bug")).unwrap();
    assert_eq!(c.hash, b("beef01"));
    assert_eq!(c.timestamp, 1700000000i64);
    assert_eq!(c.author, b("alice"));
    assert_eq!(c.summary, b("Fix the bug"));
}

#[test]
fn parse_commit_line_summary_is_optional() {
    let c = parse_commit_line(&b("beef01\t17\talice")).unwrap();
    assert_eq!(c.summary, b(""));
}

#[test]
fn parse_commit_line_rejects_non_hex_hash() {
    assert!(parse_commit_line(&b("xyz\t17\talice\ts")).is_none());
    assert!(parse_commit_line(&b("\t17\talice\ts")).is_none());
}

#[test]
fn parse_commit_line_rejects_bad_timestamp_or_missing_fields() {
    assert!(parse_commit_line(&b("beef01\tnotanumber\talice\ts")).is_none());
    assert!(parse_commit_line(&b("beef01\t17")).is_none());
    assert!(parse_commit_line(&b("M\tsome/file.txt")).is_none());
}

#[test]
fn parse_git_log_keeps_only_touching_commits() {
    let log = b("beef02\t200\talice\ttouch it\nM\tdir/file.txt\n\nbeef01\t100\tbob\tother work\nM\tdir/other.txt\n");
    let entries = parse_git_log(&log, &b("dir/file.txt"));
    assert_eq!(entries.len(), 1);
    assert_eq!(entries[0].hash, b("beef02"));
    assert_eq!(entries[0].author, b("alice"));
    assert_eq!(entries[0].timestamp, 200i64);
    assert_eq!(entries[0].path, b("dir/file.txt"));
    assert!(!entries[0].deleted);
}

#[test]
fn parse_git_log_follows_renames_backward() {
    let log = b("beef03\t300\talice\tmodify b\nM\tb.txt\n\nbeef02\t200\talice\trename a to b\nR100\ta.txt\tb.txt\n\nbeef01\t100\tbob\tadd a\nA\ta.txt\n");
    let entries = parse_git_log(&log, &b("b.txt"));
    assert_eq!(entries.len(), 3);
    assert_eq!(entries[0].hash, b("beef03"));
    assert_eq!(entries[0].path, b("b.txt"));
    assert_eq!(entries[1].hash, b("beef02"));
    assert_eq!(entries[1].path, b("b.txt"));
    assert_eq!(entries[2].hash, b("beef01"));
    assert_eq!(entries[2].path, b("a.txt"));
}

#[test]
fn parse_git_log_marks_deletion_in_latest_commit_only() {
    let log = b("beef02\t200\talice\tremove it\nD\tfile.txt\n\nbeef01\t100\tbob\tadd it\nA\tfile.txt\n");
    let entries = parse_git_log(&log, &b("file.txt"));
    assert_eq!(entries.len(), 2);
    assert!(entries[0].deleted);
    assert!(!entries[1].deleted);
}

#[test]
fn parse_p4_filelog_reads_tagged_records() {
    let out = b("... depotFile //depot/main/a.txt\n... rev 3\n... change 123\n... action edit\n... type text\n... user alice\n... time 1700000000\n... desc Fixes a bug\n");
    let (entries, rel) = parse_p4_filelog(&out, &b("/ws/a.txt"));
    assert_eq!(rel, b("//depot/main/a.txt"));
    assert_eq!(entries.len(), 1);
    assert_eq!(entries[0].provider, Provider::P4);
    assert_eq!(entries[0].hash, b("123"));
    assert_eq!(entries[0].author, b("alice"));
    assert_eq!(entries[0].timestamp, 1700000000i64);
    assert_eq!(entries[0].summary, b("Fixes a bug"));
    assert_eq!(entries[0].path, b("//depot/main/a.txt"));
    assert!(!entries[0].deleted);
}

#[test]
fn parse_p4_filelog_strips_key_index_suffixes() {
    let out = b("... depotFile //d/x\n... change0,0 77\n... user0,0 bob\n");
    let (entries, _) = parse_p4_filelog(&out, &b("/ws/x"));
    assert_eq!(entries.len(), 1);
    assert_eq!(entries[0].hash, b("77"));
    assert_eq!(entries[0].author, b("bob"));
}

#[test]
fn parse_p4_filelog_marks_delete_actions() {
    let out = b("... change 9\n... action move/delete\n");
    let (entries, rel) = parse_p4_filelog(&out, &b("/ws/x"));
    assert_eq!(entries.len(), 1);
    assert!(entries[0].deleted);
    assert_eq!(entries[0].path, b("/ws/x"));
    assert_eq!(rel, b("/ws/x"));
}

#[test]
fn parse_p4_filelog_first_description_wins() {
    let out = b("... change 9\n... desc first words\n... desc later words\n");
    let (entries, _) = parse_p4_filelog(&out, &b("/ws/x"));
    assert_eq!(entries[0].summary, b("first words"));
}

#[test]
fn parse_p4_filelog_tolerates_truncated_output() {
    let (entries, rel) = parse_p4_filelog(&b("... depotFile //d/x\n... chan"), &b("/ws/x"));
    assert_eq!(entries.len(), 0);
    assert_eq!(rel, b("//d/x"));
    let (entries2, _) = parse_p4_filelog(&b("... change 5\n... tim"), &b("/ws/x"));
    assert_eq!(entries2.len(), 1);
    assert_eq!(entries2[0].hash, b("5"));
    assert_eq!(entries2[0].timestamp, 0i64);
}

#[test]
fn extract_xml_attr_reads_quoted_value() {
    assert_eq!(
        extract_xml_attr(&b("<logentry revision=\"42\">"), &b("revision")),
        Some(b("42"))
    );
    assert_eq!(extract_xml_attr(&b("<logentry>"), &b("revision")), None);
}

#[test]
fn extract_xml_value_reads_tag_content() {
    assert_eq!(
        extract_xml_value(&b("<author>alice</author>"), &b("author")),
        Some(b("alice"))
    );
    assert_eq!(extract_xml_value(&b("<author>alice"), &b("author")), None);
}

#[test]
fn parse_svn_log_reads_one_entry() {
    let out = b("<?xml version=\"1.0\"?>\n<log>\n<logentry revision=\"7\">\n<author>bob</author>\n<date>2024-01-15T10:00:00.000000Z</date>\n<paths>\n<path action=\"M\">/trunk/a.txt</path>\n</paths>\n<msg>hello world</msg>\n</logentry>\n</log>\n");
    let entries = parse_svn_log_entries(&out, &b("a.txt"));
    assert_eq!(entries.len(), 1);
    assert_eq!(entries[0].provider, Provider::Svn);
    assert_eq!(entries[0].hash, b("7"));
    assert_eq!(entries[0].author, b("bob"));
    assert_eq!(entries[0].timestamp, 1705312800i64);
    assert_eq!(entries[0].summary, b("hello world"));
    assert_eq!(entries[0].path, b("a.txt"));
    assert!(!entries[0].deleted);
}

#[test]
fn parse_svn_log_collects_multiline_messages() {
    let out = b("<logentry revision=\"8\">\n<msg>line one\nline two\nline three</msg>\n</logentry>\n");
    let entries = parse_svn_log_entries(&out, &b("a.txt"));
    assert_eq!(entries.len(), 1);
    assert_eq!(entries[0].summary, b("line one\nline two\nline three"));
}

#[test]
fn parse_svn_log_drops_entries_without_revision() {
    let out = b("<logentry>\n<author>x</author>\n</logentry>\n");
    let entries = parse_svn_log_entries(&out, &b("a.txt"));
    assert_eq!(entries.len(), 0);
}

#[test]
fn parse_svn_log_marks_deleted_paths() {
    let out = b("<logentry revision=\"9\">\n<path action=\"D\">/trunk/a.txt</path>\n</logentry>\n");
    let entries = parse_svn_log_entries(&out, &b("a.txt"));
    assert_eq!(entries.len(), 1);
    assert!(entries[0].deleted);
}

#[test]
fn parse_svn_time_reads_rfc3339_and_normalizes_failures_to_zero() {
    assert_eq!(parse_svn_time(&b("2024-01-15T10:00:00Z")), 1705312800i64);
    assert_eq!(parse_svn_time(&b("2024-01-15T10:00:00.123456Z")), 1705312800i64);
    assert_eq!(parse_svn_time(&b("not a date")), 0i64);
    assert_eq!(parse_svn_time(&b("")), 0i64);
}

#[test]
fn parse_i64_matches_decimal_syntax() {
    assert_eq!(parse_i64(&b("-42")), Some(-42i64));
    assert_eq!(parse_i64(&b("+7")), Some(7i64));
    assert_eq!(parse_i64(&b("9223372036854775807")), Some(i64::MAX));
    assert_eq!(parse_i64(&b("-9223372036854775808")), Some(i64::MIN));
    assert_eq!(parse_i64(&b("9223372036854775808")), None);
    assert_eq!(parse_i64(&b("12a")), None);
    assert_eq!(parse_i64(&b("")), None);
    assert_eq!(parse_i64(&b("-")), None);
}

#[test]
fn truncate_for_log_collapses_newlines_and_cuts() {
    assert_eq!(truncate_for_log(&b("a\r\nb"), 100), b("a\\nb"));
    assert_eq!(truncate_for_log(&b("a\r\nb"), 2), b("a\\...(truncated)"));
    assert_eq!(truncate_for_log(&b(""), 5), b(""));
}
