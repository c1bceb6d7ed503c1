use gitsync::clock::Timestamp;
use gitsync::config::Config;
use gitsync::sync::{status_lines, Action, Outcome, Phase, Report, Sync, SyncError, Transition};

fn sync_for(repo: &str) -> Sync {
    Sync::new(Config {
        github_token: "test_token".to_string(),
        github_repo: repo.to_string(),
        directory_path: "/work/notes".to_string(),
    })
}

fn ok(stdout: &str) -> Outcome {
    Outcome::Completed { success: true, stdout: stdout.to_string(), stderr: String::new() }
}

fn failed(stderr: &str) -> Outcome {
    Outcome::Completed { success: false, stdout: String::new(), stderr: stderr.to_string() }
}

fn noon() -> Timestamp {
    Timestamp { year: 2024, month: 3, day: 7, hour: 9, minute: 5, second: 2 }
}

fn expect_git(t: Transition, phase: Phase, args: &[&str]) {
    match t {
        Transition::Continue { phase: p, action: Action::Git(a) } => {
            assert_eq!(p, phase);
            let expected: Vec<String> = args.iter().map(|s| s.to_string()).collect();
            assert_eq!(a, expected);
        }
        other => panic!("unexpected transition {:?}", other),
    }
}

#[test]
fn run_starts_by_checking_directory() {
    match sync_for("test/repo").start() {
        Transition::Continue { phase: Phase::CheckDirectory, action: Action::CheckDirectory(p) } => {
            assert_eq!(p, "/work/notes")
        }
        other => panic!("unexpected transition {:?}", other),
    }
}

#[test]
fn clean_repository_reports_nothing_to_sync() {
    let s = sync_for("test/repo");
    expect_git(s.step(Phase::CheckDirectory, ok(""), noon()), Phase::Probe, &["rev-parse", "--git-dir"]);
    expect_git(s.step(Phase::Probe, ok(".git\n"), noon()), Phase::Inspect, &["status", "--porcelain"]);
    match s.step(Phase::Inspect, ok(""), noon()) {
        Transition::Finish(Ok(r)) => assert_eq!(r, Report::NothingToSync),
        other => panic!("unexpected transition {:?}", other),
    }
}

#[test]
fn changes_are_staged_committed_and_pushed() {
    let s = sync_for("test/repo");
    expect_git(s.step(Phase::Inspect, ok("?? test.txt\n"), noon()), Phase::Stage, &["add", "."]);
    expect_git(
        s.step(Phase::Stage, ok(""), noon()),
        Phase::Commit,
        &["commit", "-m", "git-sync: 2024-03-07 09:05:02"],
    );
    expect_git(s.step(Phase::Commit, ok("1 file changed"), noon()), Phase::Push, &["push", "origin", "main"]);
    match s.step(Phase::Push, ok(""), noon()) {
        Transition::Finish(Ok(r)) => assert_eq!(r, Report::Synchronized),
        other => panic!("unexpected transition {:?}", other),
    }
}

#[test]
fn new_directory_is_initialized_with_origin() {
    let s = sync_for("user/notes");
    expect_git(s.step(Phase::Probe, failed("fatal: not a git repository"), noon()), Phase::Init, &["init"]);
    expect_git(s.step(Phase::Init, ok("Initialized"), noon()), Phase::RemoveRemote, &["remote", "remove", "origin"]);
    expect_git(
        s.step(Phase::RemoveRemote, failed("error: No such remote: 'origin'"), noon()),
        Phase::AddRemote,
        &["remote", "add", "origin", "https://github.com/user/notes.git"],
    );
    expect_git(s.step(Phase::AddRemote, ok(""), noon()), Phase::Inspect, &["status", "--porcelain"]);
}

#[test]
fn remote_removal_outcome_is_ignored_even_if_not_started() {
    let s = sync_for("a/b");
    let t = s.step(Phase::RemoveRemote, Outcome::NotStarted { reason: "no git".to_string() }, noon());
    expect_git(t, Phase::AddRemote, &["remote", "add", "origin", "https://github.com/a/b.git"]);
}

#[test]
fn missing_directory_is_unavailable() {
    let s = sync_for("a/b");
    match s.step(Phase::CheckDirectory, Outcome::NotStarted { reason: "No such file".to_string() }, noon()) {
        Transition::Finish(Err(SyncError::DirectoryUnavailable(m))) => assert_eq!(m, "No such file"),
        other => panic!("unexpected transition {:?}", other),
    }
}

#[test]
fn failed_push_is_tool_failure() {
    let s = sync_for("a/b");
    match s.step(Phase::Push, failed("rejected"), noon()) {
        Transition::Finish(Err(SyncError::ToolFailed(m))) => assert_eq!(m, "rejected"),
        other => panic!("unexpected transition {:?}", other),
    }
}

#[test]
fn failed_status_is_tool_failure() {
    let s = sync_for("a/b");
    match s.step(Phase::Inspect, failed("bad status"), noon()) {
        Transition::Finish(Err(SyncError::ToolFailed(m))) => assert_eq!(m, "bad status"),
        other => panic!("unexpected transition {:?}", other),
    }
}

#[test]
fn git_that_cannot_start_is_spawn_failure() {
    let s = sync_for("a/b");
    match s.step(Phase::Probe, Outcome::NotStarted { reason: "not found".to_string() }, noon()) {
        Transition::Finish(Err(SyncError::SpawnFailed(m))) => assert_eq!(m, "not found"),
        other => panic!("unexpected transition {:?}", other),
    }
}

#[test]
fn timestamp_text_pads_fields() {
    assert_eq!(noon().text(), "2024-03-07 09:05:02");
    let t = Timestamp { year: 7, month: 12, day: 31, hour: 23, minute: 59, second: 59 };
    assert_eq!(t.text(), "0007-12-31 23:59:59");
}

#[test]
fn timestamp_text_signs_far_years() {
    let t = Timestamp { year: 12345, month: 1, day: 1, hour: 0, minute: 0, second: 0 };
    assert_eq!(t.text(), "+12345-01-01 00:00:00");
    let t = Timestamp { year: -44, month: 3, day: 15, hour: 12, minute: 0, second: 0 };
    assert_eq!(t.text(), "-0044-03-15 12:00:00");
}

#[test]
fn step_now_names_commit_after_the_local_time() {
    let s = sync_for("a/b");
    match s.step_now(Phase::Stage, ok("")) {
        Transition::Continue { phase: Phase::Commit, action: Action::Git(args) } => {
            assert_eq!(args.len(), 3);
            assert_eq!(args[0], "commit");
            assert_eq!(args[1], "-m");
            let m = &args[2];
            assert!(m.starts_with("git-sync: "));
            assert_eq!(m.len(), 29);
            let b = m.as_bytes();
            assert_eq!(b[14], b'-');
            assert_eq!(b[17], b'-');
            assert_eq!(b[20], b' ');
            assert_eq!(b[23], b':');
            assert_eq!(b[26], b':');
        }
        other => panic!("unexpected transition {:?}", other),
    }
}

#[test]
fn status_lines_split_porcelain_output() {
    assert_eq!(status_lines("?? test.txt\n M notes.md\n"), vec!["?? test.txt".to_string(), " M notes.md".to_string()]);
}

#[test]
fn status_lines_of_empty_output() {
    assert!(status_lines("").is_empty());
}

#[test]
fn status_lines_keep_last_line_without_newline_and_blank_lines() {
    assert_eq!(status_lines("a\n\nb"), vec!["a".to_string(), String::new(), "b".to_string()]);
}

#[test]
fn status_lines_drop_carriage_returns() {
    assert_eq!(status_lines("A  x.txt\r\nD  y.txt\r\n"), vec!["A  x.txt".to_string(), "D  y.txt".to_string()]);
    assert_eq!(status_lines("only\r"), vec!["only".to_string()]);
}
