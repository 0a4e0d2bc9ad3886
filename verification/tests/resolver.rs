//! The fallback chain end to end, over canned transcripts.

use vcs_history::model::Provider;
use vcs_history::resolve::empty_history;
use vcs_history::resolve::fallback_relative_path;
use vcs_history::resolve::map_git_entry;
use vcs_history::resolve::map_git_result;
use vcs_history::resolve::vcs_history_blocking;
use vcs_history::resolve::vcs_history_step;
use vcs_history::resolve::VcsStep;
use vcs_history::git::git_show_file_request;
use vcs_history::model::GitHistoryEntry;
use vcs_history::model::GitHistoryResult;
use vcs_history::model::ToolKind;

fn b(s: &str) -> Vec<u8> {
    s.as_bytes().to_vec()
}

type Reply = Result<Vec<u8>, Vec<u8>>;

#[test]
fn resolver_returns_git_history_when_git_has_it() {
    let path = b("/repo/dir/file.txt");
    let log = b("beef02\t200\talice\tedit\nM\tdir/file.txt\n\nbeef01\t100\tbob\tadd\nA\tdir/file.txt\n");
    let replies: Vec<Reply> = vec![Ok(b("/repo\n")), Ok(b("dir/file.txt\n")), Ok(log)];
    let r = vcs_history_blocking(&path, true, &replies).unwrap();
    assert_eq!(r.provider, Provider::Git);
    assert_eq!(r.repo_root, Some(b("/repo")));
    assert_eq!(r.relative_path, b("dir/file.txt"));
    assert_eq!(r.entries.len(), 2);
    assert_eq!(r.entries[0].hash, b("beef02"));
    assert_eq!(r.entries[1].hash, b("beef01"));
    assert_eq!(r.entries[0].provider, Provider::Git);
}

#[test]
fn resolver_fails_hard_on_non_files_without_trying_backends() {
    let path = b("/somewhere/a-directory");
    let replies: Vec<Reply> = vec![Ok(b("/repo\n"))];
    let r = vcs_history_blocking(&path, false, &replies);
    assert_eq!(r.unwrap_err(), b("Path is not a file."));
}

#[test]
fn resolver_synthesizes_an_empty_result_when_no_backend_knows_the_file() {
    let path = b("/plain/dir/notes.txt");
    let replies: Vec<Reply> = vec![
        Err(b("fatal: not a git repository (or any of the parent directories): .git")),
        Err(b("Path '/plain/dir/notes.txt' is not under client's root.")),
        Err(b("svn: E155007: '/plain/dir' is not a working copy")),
        Err(b("svn: E155007: '/plain/dir' is not a working copy")),
    ];
    let r = vcs_history_blocking(&path, true, &replies).unwrap();
    assert_eq!(r.provider, Provider::Absent);
    assert_eq!(r.repo_root, None);
    assert_eq!(r.relative_path, b("notes.txt"));
    assert_eq!(r.entries.len(), 0);
}

#[test]
fn resolver_reports_all_three_errors_when_one_is_genuine() {
    let path = b("/plain/dir/notes.txt");
    let replies: Vec<Reply> = vec![
        Err(b("fatal: not a git repository (or any of the parent directories): .git")),
        Err(b("Perforce password (P4PASSWD) invalid or unset.")),
        Err(b("svn: E155007: '/plain/dir' is not a working copy")),
        Err(b("svn: E155007: '/plain/dir' is not a working copy")),
    ];
    let r = vcs_history_blocking(&path, true, &replies);
    assert_eq!(
        r.unwrap_err(),
        b("Git history unavailable: fatal: not a git repository (or any of the parent directories): .git. P4 history unavailable: Perforce password (P4PASSWD) invalid or unset.. SVN history unavailable: svn: E155007: '/plain/dir' is not a working copy")
    );
}

#[test]
fn resolver_falls_through_to_the_second_backend() {
    let path = b("/ws/dir/a.txt");
    let ztag = b("... depotFile //depot/a.txt\n... change 55\n... user alice\n... time 1000\n");
    let replies: Vec<Reply> = vec![Err(b("fatal: not a git repository")), Ok(ztag)];
    let r = vcs_history_blocking(&path, true, &replies).unwrap();
    assert_eq!(r.provider, Provider::P4);
    assert_eq!(r.relative_path, b("//depot/a.txt"));
    assert_eq!(r.entries.len(), 1);
}

#[test]
fn resolver_falls_through_to_the_third_backend() {
    let path = b("/wc/dir/a.txt");
    let xml = b("<logentry revision=\"3\">\n<author>bob</author>\n</logentry>\n");
    let replies: Vec<Reply> = vec![
        Err(b("fatal: not a git repository")),
        Err(b("file(s) not in client view.")),
        Ok(b("/wc\n")),
        Ok(xml),
    ];
    let r = vcs_history_blocking(&path, true, &replies).unwrap();
    assert_eq!(r.provider, Provider::Svn);
    assert_eq!(r.repo_root, Some(b("/wc")));
    assert_eq!(r.relative_path, b("dir/a.txt"));
    assert_eq!(r.entries.len(), 1);
}

#[test]
fn resolver_step_drives_the_same_transcript_to_the_same_result() {
    let path = b("/repo/dir/file.txt");
    let log = b("beef02\t200\talice\tedit\nM\tdir/file.txt\n");
    let canned: Vec<Reply> = vec![Ok(b("/repo\n")), Ok(b("dir/file.txt\n")), Ok(log)];
    let mut replies: Vec<Reply> = Vec::new();
    let driven = loop {
        match vcs_history_step(&path, true, &replies) {
            VcsStep::Run(c) => {
                assert_eq!(c.tool, ToolKind::Git);
                let i = replies.len();
                assert!(i < canned.len(), "probe asked for more commands than canned");
                replies.push(canned[i].clone());
            },
            VcsStep::Finished(r) => break r,
        }
    };
    let blocking = vcs_history_blocking(&path, true, &canned);
    let driven = driven.unwrap();
    let blocking = blocking.unwrap();
    assert_eq!(driven.provider, blocking.provider);
    assert_eq!(driven.repo_root, blocking.repo_root);
    assert_eq!(driven.relative_path, blocking.relative_path);
    assert_eq!(driven.entries.len(), blocking.entries.len());
}

#[test]
fn content_requests_from_a_resolved_entry_are_reproducible() {
    let path = b("/repo/dir/file.txt");
    let log = b("beef02\t200\talice\tedit\nM\tdir/file.txt\n");
    let replies: Vec<Reply> = vec![Ok(b("/repo\n")), Ok(b("dir/file.txt\n")), Ok(log)];
    let r = vcs_history_blocking(&path, true, &replies).unwrap();
    let root = r.repo_root.clone().unwrap();
    let entry = &r.entries[0];
    let c1 = git_show_file_request(&root, &entry.hash, &entry.path, true).unwrap();
    let c2 = git_show_file_request(&root, &entry.hash, &entry.path, true).unwrap();
    assert_eq!(c1.args, c2.args);
    assert_eq!(c1.cwd, c2.cwd);
    assert_eq!(c1.args[2], b("beef02:dir/file.txt"));
}

#[test]
fn map_git_entry_relabels_without_changing_fields() {
    let e = GitHistoryEntry {
        hash: b("beef01"),
        timestamp: 42,
        author: b("alice"),
        summary: b("s"),
        path: b("p"),
        deleted: true,
    };
    let v = map_git_entry(e);
    assert_eq!(v.provider, Provider::Git);
    assert_eq!(v.hash, b("beef01"));
    assert_eq!(v.timestamp, 42i64);
    assert_eq!(v.author, b("alice"));
    assert_eq!(v.summary, b("s"));
    assert_eq!(v.path, b("p"));
    assert!(v.deleted);
}

#[test]
fn map_git_result_wraps_the_root_and_relabels_entries() {
    let g = GitHistoryResult {
        repo_root: b("/repo"),
        relative_path: b("a.txt"),
        entries: vec![GitHistoryEntry {
            hash: b("beef01"),
            timestamp: 1,
            author: b("a"),
            summary: b("s"),
            path: b("a.txt"),
            deleted: false,
        }],
    };
    let v = map_git_result(g);
    assert_eq!(v.provider, Provider::Git);
    assert_eq!(v.repo_root, Some(b("/repo")));
    assert_eq!(v.relative_path, b("a.txt"));
    assert_eq!(v.entries.len(), 1);
    assert_eq!(v.entries[0].provider, Provider::Git);
}

#[test]
fn empty_history_uses_the_basename_fallback() {
    let r = empty_history(&b("/x/y/notes.txt"));
    assert_eq!(r.provider, Provider::Absent);
    assert_eq!(r.repo_root, None);
    assert_eq!(r.relative_path, b("notes.txt"));
    assert!(r.entries.is_empty());
    assert_eq!(fallback_relative_path(&b("plain.txt")), b("plain.txt"));
    assert_eq!(fallback_relative_path(&b("/a/b")), b("b"));
}

