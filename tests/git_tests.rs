use prompt_status::git::{
    get_best_git_name, is_in_git_repository, unpushed_after_hashes, unpushed_after_log, unstaged_after_diffs,
    unstaged_after_listing, UnpushedChanges, UnstagedChanges,
};
use prompt_status::query::QueryOutcome;

fn ran(success: bool, out: &str) -> QueryOutcome {
    QueryOutcome::Exited { success, stdout: out.as_bytes().to_vec() }
}

fn s(t: &str) -> Option<String> {
    Some(t.to_string())
}

#[test]
fn probe_true_means_repository() {
    assert!(is_in_git_repository(&ran(true, "true\n")));
    assert!(!is_in_git_repository(&ran(true, "false\n")));
    assert!(!is_in_git_repository(&ran(false, "true\n")));
    assert!(!is_in_git_repository(&QueryOutcome::NotRun));
}

#[test]
fn branch_and_tag_name() {
    assert_eq!(get_best_git_name(s("feature-x"), s("abc123"), s("v1.0")), s("feature-x [v1.0]"));
    assert_eq!(get_best_git_name(s("feature-x"), None, s("v1.0")), s("feature-x [v1.0]"));
}

#[test]
fn commit_when_no_branch() {
    assert_eq!(get_best_git_name(None, s("abc123"), None), s("abc123"));
    assert_eq!(get_best_git_name(None, s("abc123"), s("v2")), s("abc123 [v2]"));
}

#[test]
fn branch_wins_over_commit() {
    assert_eq!(get_best_git_name(s("main"), s("abc123"), None), s("main"));
}

#[test]
fn no_name_is_absent() {
    assert_eq!(get_best_git_name(None, None, None), None);
}

#[test]
fn tag_alone() {
    assert_eq!(get_best_git_name(None, None, s("v1.0")), s(" [v1.0]"));
}

#[test]
fn clean_diffs_leave_listing_to_decide() {
    assert_eq!(unstaged_after_diffs(&ran(true, ""), &ran(true, "")), None);
    assert_eq!(unstaged_after_listing(&ran(true, "")), UnstagedChanges::Clean);
    assert_eq!(unstaged_after_listing(&ran(true, "new.txt\n")), UnstagedChanges::FilesUntracked);
    assert_eq!(unstaged_after_listing(&QueryOutcome::NotRun), UnstagedChanges::FilesUntracked);
}

#[test]
fn failing_index_diff_means_changed() {
    assert_eq!(unstaged_after_diffs(&ran(true, ""), &ran(false, "")), Some(UnstagedChanges::FilesChanged));
}

#[test]
fn failing_work_tree_diff_means_changed() {
    assert_eq!(unstaged_after_diffs(&ran(false, ""), &ran(true, "")), Some(UnstagedChanges::FilesChanged));
}

#[test]
fn late_work_tree_diff_means_changed() {
    assert_eq!(unstaged_after_diffs(&QueryOutcome::NotRun, &ran(true, "")), Some(UnstagedChanges::FilesChanged));
}

#[test]
fn log_with_commits_means_ahead() {
    assert_eq!(unpushed_after_log(&ran(true, "commit 1234\n")), Some(UnpushedChanges::Ahead));
}

#[test]
fn empty_or_failed_log_leaves_hashes_to_decide() {
    assert_eq!(unpushed_after_log(&ran(true, "")), None);
    assert_eq!(unpushed_after_log(&ran(false, "")), None);
    assert_eq!(unpushed_after_log(&QueryOutcome::NotRun), None);
}

#[test]
fn failed_log_with_output_is_not_ahead() {
    assert_eq!(unpushed_after_log(&ran(false, "commit 1234\n")), None);
}

#[test]
fn white_space_only_log_is_not_ahead() {
    assert_eq!(unpushed_after_log(&ran(true, "\n")), None);
    assert_eq!(unpushed_after_log(&ran(true, " \t\n ")), None);
}

#[test]
fn unknown_upstream_means_no_upstream() {
    assert_eq!(unpushed_after_hashes(&ran(true, "aaaa\n"), &ran(false, "")), UnpushedChanges::NoUpstream);
    assert_eq!(unpushed_after_hashes(&ran(true, "aaaa\n"), &QueryOutcome::NotRun), UnpushedChanges::NoUpstream);
}

#[test]
fn equal_hashes_mean_synced() {
    assert_eq!(unpushed_after_hashes(&ran(true, "aaaa\n"), &ran(true, "aaaa\n")), UnpushedChanges::Synced);
}

#[test]
fn different_hashes_mean_behind() {
    assert_eq!(unpushed_after_hashes(&ran(true, "aaaa\n"), &ran(true, "bbbb\n")), UnpushedChanges::Behind);
    assert_eq!(unpushed_after_hashes(&ran(false, ""), &ran(true, "bbbb\n")), UnpushedChanges::Behind);
}
