//! Backend probes driven over canned transcripts, and the runner model.

use vcs_history::git::git_history_blocking;
use vcs_history::git::git_probe_step;
use vcs_history::git::git_show_file_blocking;
use vcs_history::git::git_show_file_request;
use vcs_history::git::is_git_no_history;
use vcs_history::git::GitStep;
use vcs_history::model::ToolKind;
use vcs_history::p4::find_p4config_info;
use vcs_history::p4::is_p4_no_history;
use vcs_history::p4::p4config_candidates;
use vcs_history::p4::p4_history_blocking;
use vcs_history::p4::p4_show_file_blocking;
use vcs_history::p4::p4_show_file_request;
use vcs_history::runner::run_outcome;
use vcs_history::runner::SpawnExit;
use vcs_history::runner::SpawnOutcome;
use vcs_history::svn::is_svn_no_history;
use vcs_history::svn::svn_history_blocking;
use vcs_history::svn::svn_show_file_request;
use vcs_history::model::Provider;

fn b(s: &str) -> Vec<u8> {
    s.as_bytes().to_vec()
}

#[test]
fn run_outcome_reports_a_missing_tool() {
    let r = run_outcome(ToolKind::Git, SpawnOutcome::ToolMissing);
    assert_eq!(r, Err(b("git is not installed or not available on PATH.")));
    let r = run_outcome(ToolKind::P4, SpawnOutcome::ToolMissing);
    assert_eq!(r, Err(b("p4 is not installed or not available on PATH.")));
}

#[test]
fn run_outcome_prefixes_launch_failures() {
    let r = run_outcome(ToolKind::Svn, SpawnOutcome::LaunchFailed(b("permission denied")));
    assert_eq!(r, Err(b("Failed to run svn: permission denied")));
}

#[test]
fn run_outcome_prefers_trimmed_stderr() {
    let r = run_outcome(
        ToolKind::Git,
        SpawnOutcome::Exited(SpawnExit {
            success: false,
            status: b("exit status: 128"),
            stdout: b("ignored"),
            stderr: b("  fatal: boom \n"),
        }),
    );
    assert_eq!(r, Err(b("fatal: boom")));
}

#[test]
fn run_outcome_git_never_reads_stdout_on_failure() {
    let r = run_outcome(
        ToolKind::Git,
        SpawnOutcome::Exited(SpawnExit {
            success: false,
            status: b("exit status: 1"),
            stdout: b("some noise"),
            stderr: b(""),
        }),
    );
    assert_eq!(r, Err(b("git exited with status exit status: 1")));
}

#[test]
fn run_outcome_p4_falls_back_to_stdout_then_status() {
    let r = run_outcome(
        ToolKind::P4,
        SpawnOutcome::Exited(SpawnExit {
            success: false,
            status: b("exit status: 1"),
            stdout: b(" error on stdout \n"),
            stderr: b(" \n"),
        }),
    );
    assert_eq!(r, Err(b("error on stdout")));
    let r = run_outcome(
        ToolKind::P4,
        SpawnOutcome::Exited(SpawnExit {
            success: false,
            status: b("exit status: 7"),
            stdout: b(""),
            stderr: b(""),
        }),
    );
    assert_eq!(r, Err(b("p4 exited with status exit status: 7")));
}

#[test]
fn run_outcome_passes_stdout_through_on_success() {
    let r = run_outcome(
        ToolKind::Svn,
        SpawnOutcome::Exited(SpawnExit {
            success: true,
            status: b("exit status: 0"),
            stdout: b("the output\n"),
            stderr: b("warning: ignored"),
        }),
    );
    assert_eq!(r, Ok(b("the output\n")));
}

#[test]
fn git_probe_requests_root_then_tracking_then_log() {
    let path = b("/repo/dir/file.txt");
    let mut replies: Vec<Result<Vec<u8>, Vec<u8>>> = Vec::new();
    match git_probe_step(&path, true, &replies) {
        GitStep::Run(c) => {
            assert_eq!(c.tool, ToolKind::Git);
            assert_eq!(c.args, vec![b("rev-parse"), b("--show-toplevel")]);
            assert_eq!(c.cwd, b("/repo/dir"));
        },
        GitStep::Done(_) => panic!("expected a root query"),
    }
    replies.push(Ok(b("/repo\n")));
    match git_probe_step(&path, true, &replies) {
        GitStep::Run(c) => {
            assert_eq!(
                c.args,
                vec![b("ls-files"), b("--error-unmatch"), b("--"), b("dir/file.txt")]
            );
            assert_eq!(c.cwd, b("/repo"));
        },
        GitStep::Done(_) => panic!("expected a tracking check"),
    }
    replies.push(Ok(b("dir/file.txt\n")));
    match git_probe_step(&path, true, &replies) {
        GitStep::Run(c) => {
            assert_eq!(
                c.args,
                vec![
                    b("--no-pager"),
                    b("log"),
                    b("--follow"),
                    b("--name-status"),
                    b("--format=%H\t%ct\t%an\t%s"),
                    b("--"),
                    b("dir/file.txt"),
                ]
            );
        },
        GitStep::Done(_) => panic!("expected a log query"),
    }
}

#[test]
fn git_history_resolves_a_full_transcript() {
    let path = b("/repo/dir/file.txt");
    let log = b("beef02\t200\talice\tedit\nM\tdir/file.txt\n");
    let replies = vec![Ok(b("/repo\n")), Ok(b("dir/file.txt\n")), Ok(log)];
    let r = git_history_blocking(&path, true, &replies).unwrap();
    assert_eq!(r.repo_root, b("/repo"));
    assert_eq!(r.relative_path, b("dir/file.txt"));
    assert_eq!(r.entries.len(), 1);
    assert_eq!(r.entries[0].hash, b("beef02"));
}

#[test]
fn git_history_rejects_non_files_before_running_anything() {
    let r = git_history_blocking(&b("/repo/dir"), false, &Vec::new());
    assert_eq!(r.unwrap_err(), b("Path is not a file."));
}

#[test]
fn git_history_classifies_paths_outside_the_repository() {
    let path = b("/elsewhere/file.txt");
    let replies = vec![Ok(b("/repo\n"))];
    let r = git_history_blocking(&path, true, &replies);
    assert_eq!(r.unwrap_err(), b("File is not inside the repository."));
}

#[test]
fn git_history_classifies_untracked_files() {
    let path = b("/repo/dir/file.txt");
    let replies = vec![Ok(b("/repo\n")), Err(b("exit status 1"))];
    let r = git_history_blocking(&path, true, &replies);
    assert_eq!(r.unwrap_err(), b("File is not tracked in git."));
}

#[test]
fn git_history_requires_a_resolvable_root() {
    let path = b("/repo/dir/file.txt");
    let replies = vec![Ok(b(""))];
    let r = git_history_blocking(&path, true, &replies);
    assert_eq!(r.unwrap_err(), b("Unable to resolve repository root."));
    let replies = vec![Ok(b("   \n"))];
    let r = git_history_blocking(&path, true, &replies);
    assert_eq!(r.unwrap_err(), b("Unable to resolve repository root."));
}

#[test]
fn p4_history_resolves_a_full_transcript() {
    let path = b("/ws/dir/a.txt");
    let out = b("... depotFile //depot/a.txt\n... change 55\n... user alice\n... time 1000\n");
    let replies = vec![Ok(out)];
    let r = p4_history_blocking(&path, true, &replies).unwrap();
    assert_eq!(r.provider, Provider::P4);
    assert_eq!(r.repo_root, None);
    assert_eq!(r.relative_path, b("//depot/a.txt"));
    assert_eq!(r.entries.len(), 1);
}

#[test]
fn p4_history_passes_tool_errors_through() {
    let path = b("/ws/dir/a.txt");
    let replies = vec![Err(b("file(s) not in client view."))];
    let r = p4_history_blocking(&path, true, &replies);
    assert_eq!(r.unwrap_err(), b("file(s) not in client view."));
}

#[test]
fn svn_history_tolerates_a_failed_root_query() {
    let path = b("/wc/dir/a.txt");
    let xml = b("<logentry revision=\"3\">\n<author>bob</author>\n</logentry>\n");
    let replies = vec![Err(b("svn: warning")), Ok(xml)];
    let r = svn_history_blocking(&path, true, &replies).unwrap();
    assert_eq!(r.provider, Provider::Svn);
    assert_eq!(r.repo_root, None);
    assert_eq!(r.relative_path, b("a.txt"));
    assert_eq!(r.entries.len(), 1);
}

#[test]
fn svn_history_computes_the_relative_path_from_the_root() {
    let path = b("/wc/dir/a.txt");
    let xml = b("<logentry revision=\"3\">\n</logentry>\n");
    let replies = vec![Ok(b("/wc\n")), Ok(xml)];
    let r = svn_history_blocking(&path, true, &replies).unwrap();
    assert_eq!(r.repo_root, Some(b("/wc")));
    assert_eq!(r.relative_path, b("dir/a.txt"));
}

#[test]
fn git_show_file_builds_the_object_specifier() {
    let c = git_show_file_request(&b("/repo"), &b("beef02"), &b("dir\\file.txt"), true).unwrap();
    assert_eq!(c.tool, ToolKind::Git);
    assert_eq!(c.args, vec![b("--no-pager"), b("show"), b("beef02:dir/file.txt")]);
    assert_eq!(c.cwd, b("/repo"));
}

#[test]
fn git_show_file_requires_an_existing_root() {
    let r = git_show_file_request(&b("/gone"), &b("beef02"), &b("a.txt"), false);
    assert_eq!(r.unwrap_err(), b("Repository root does not exist."));
    let r = git_show_file_blocking(&b("/gone"), &b("beef02"), &b("a.txt"), false, Ok(b("x")));
    assert_eq!(r.unwrap_err(), b("Repository root does not exist."));
}

#[test]
fn p4_show_file_validates_the_changelist() {
    let r = p4_show_file_request(&b("//depot/a.txt"), &b("12x"), &b("/ws/a.txt"));
    assert_eq!(r.unwrap_err(), b("Invalid changelist."));
    let r = p4_show_file_request(&b("//depot/a.txt"), &b(""), &b("/ws/a.txt"));
    assert_eq!(r.unwrap_err(), b("Invalid changelist."));
    let r = p4_show_file_blocking(&b("//depot/a.txt"), &b("9a"), &b("/ws/a.txt"), Ok(b("x")));
    assert_eq!(r.unwrap_err(), b("Invalid changelist."));
}

#[test]
fn p4_show_file_builds_the_pinned_specifier() {
    let c = p4_show_file_request(&b("//depot/a.txt"), &b("123"), &b("/ws/dir/a.txt")).unwrap();
    assert_eq!(c.tool, ToolKind::P4);
    assert_eq!(c.args, vec![b("print"), b("-q"), b("//depot/a.txt@=123")]);
    assert_eq!(c.cwd, b("/ws/dir"));
}

#[test]
fn svn_show_file_validates_the_revision() {
    let r = svn_show_file_request(&b("r7"), &b("/wc/a.txt"));
    assert_eq!(r.unwrap_err(), b("Invalid revision."));
    let c = svn_show_file_request(&b("7"), &b("/wc/dir/a.txt")).unwrap();
    assert_eq!(c.tool, ToolKind::Svn);
    assert_eq!(c.args, vec![b("cat"), b("-r"), b("7"), b("/wc/dir/a.txt")]);
    assert_eq!(c.cwd, b("/wc/dir"));
}

#[test]
fn p4config_candidates_walk_upward_in_order() {
    let cands = p4config_candidates(&b("/a/b"));
    let got: Vec<(Vec<u8>, Vec<u8>)> =
        cands.iter().map(|c| (c.name.clone(), c.path.clone())).collect();
    assert_eq!(
        got,
        vec![
            (b("p4config.txt"), b("/a/b/p4config.txt")),
            (b(".p4config"), b("/a/b/.p4config")),
            (b("p4config"), b("/a/b/p4config")),
            (b("p4config.txt"), b("/a/p4config.txt")),
            (b(".p4config"), b("/a/.p4config")),
            (b("p4config"), b("/a/p4config")),
            (b("p4config.txt"), b("/p4config.txt")),
            (b(".p4config"), b("/.p4config")),
            (b("p4config"), b("/p4config")),
        ]
    );
}

#[test]
fn find_p4config_info_picks_the_first_present_candidate() {
    let cands = p4config_candidates(&b("/a/b"));
    let mut present = vec![false; cands.len()];
    present[4] = true;
    present[7] = true;
    let found = find_p4config_info(&cands, &present).unwrap();
    assert_eq!(found.name, b(".p4config"));
    assert_eq!(found.path, b("/a/.p4config"));
    let none = find_p4config_info(&cands, &vec![false; cands.len()]);
    assert!(none.is_none());
}

#[test]
fn no_history_classifiers_match_known_phrasings() {
    assert!(is_git_no_history(&b("git is not installed or not available on PATH.")));
    assert!(is_git_no_history(&b("fatal: not a Git repository (or any parent up to /)")));
    assert!(is_git_no_history(&b("File is not tracked in git.")));
    assert!(!is_git_no_history(&b("fatal: unable to access remote")));
    assert!(is_p4_no_history(&b("Path /x is not under client's root /y.")));
    assert!(is_p4_no_history(&b("file(s) not in client view.")));
    assert!(is_p4_no_history(&b("Client 'foo' unknown.")));
    assert!(!is_p4_no_history(&b("Perforce password (P4PASSWD) invalid or unset.")));
    assert!(is_svn_no_history(&b("svn: E155007: '/x' is not a working copy")));
    assert!(is_svn_no_history(&b("svn: warning: W155010: node not found")));
    assert!(!is_svn_no_history(&b("svn: E170001: authorization failed")));
}
