use git_loom::git::LoomError;
use git_loom::git_commands::git_branch::{create, delete, rename, switch_create_tracking, validate_name};
use git_loom::git_commands::git_commit::{amend, amend_no_edit, commit_with_editor, stage_path};
use git_loom::git_commands::git_merge::{merge_is_in_progress, merge_no_ff, run_merge_cmd, MergeOutcome};
use git_loom::git_commands::git_rebase::{
    continue_outcome, continue_rebase_or_abort, is_in_progress, rebase_onto, RebaseOutcome,
};
use git_loom::git_commands::{rev_parse_output, run_git, run_git_stdout, unstage_files, PlainGit};

fn strings(v: &[&str]) -> Vec<String> {
    v.iter().map(|s| s.to_string()).collect()
}

#[test]
fn a_failed_command_names_the_whole_command_line() {
    let c = PlainGit::captured(strings(&["rebase", "--continue"]));
    assert_eq!(run_git(&c, false).err().unwrap().message, "Git rebase --continue failed");
    assert!(run_git(&c, true).is_ok());
    assert_eq!(run_git_stdout(&c, true, "x\n").ok().unwrap(), "x\n");
    assert_eq!(rev_parse_output(" abc\n"), "abc");
    assert_eq!(unstage_files(&strings(&["a"])).args, strings(&["reset", "HEAD", "--", "a"]));
}

#[test]
fn branch_commands_report_their_own_failure() {
    assert_eq!(validate_name("a..b", false).err().unwrap().message, "Branch name 'a..b' is not valid");
    assert!(validate_name("ok", true).is_ok());
    let c = create("b", "abc");
    assert_eq!(c.args, strings(&["branch", "b", "abc"]));
    assert_eq!(run_git(&c, false).err().unwrap().message, "Failed to create branch");
    assert_eq!(run_git(&delete("b"), false).err().unwrap().message, "Failed to delete branch 'b'");
    assert_eq!(rename("a", "b").args, strings(&["branch", "-m", "a", "b"]));
    assert_eq!(switch_create_tracking("n", "origin/main").args, strings(&["switch", "-c", "n", "--track", "origin/main"]));
}

#[test]
fn a_merge_that_stopped_is_a_conflict() {
    assert_eq!(merge_no_ff("f").args, strings(&["merge", "--no-ff", "f", "--no-edit"]));
    assert_eq!(run_merge_cmd(Ok(()), false).ok(), Some(MergeOutcome::Completed));
    let err = || Err(LoomError::new("Git merge failed".to_string()));
    assert_eq!(run_merge_cmd(err(), merge_is_in_progress(true)).ok(), Some(MergeOutcome::Conflicted));
    assert_eq!(run_merge_cmd(err(), false).err().unwrap().message, "Git merge failed");
}

#[test]
fn a_conflicted_continue_is_aborted() {
    assert_eq!(continue_outcome(true), RebaseOutcome::Completed);
    assert_eq!(continue_outcome(false), RebaseOutcome::Conflicted);
    assert!(continue_rebase_or_abort(RebaseOutcome::Completed).is_ok());
    assert_eq!(
        continue_rebase_or_abort(RebaseOutcome::Conflicted).err().unwrap().message,
        "Rebase failed with conflicts — aborted"
    );
    assert!(is_in_progress(false, true));
    assert_eq!(rebase_onto("n", "u").args, strings(&["rebase", "--onto", "n", "u", "--autostash", "--update-refs"]));
}

#[test]
fn commit_commands_of_the_first_set() {
    let a = amend(Some("m"));
    assert_eq!(a.args, strings(&["commit", "--allow-empty", "--amend", "--only", "-m", "m"]));
    assert_eq!(run_git(&a, false).err().unwrap().message, "Git commit failed - aborted");
    assert!(amend(None).interactive);
    assert_eq!(amend_no_edit().args, strings(&["commit", "--amend", "--no-edit", "--allow-empty"]));
    assert_eq!(stage_path("gone.txt", false).args, strings(&["rm", "-f", "--", "gone.txt"]));
    assert_eq!(stage_path("here.txt", true).args, strings(&["add", "--", "here.txt"]));
    assert_eq!(
        run_git(&commit_with_editor(), false).err().unwrap().message,
        "Git commit failed (editor aborted or empty message)"
    );
}
