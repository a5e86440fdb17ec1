use git_loom::git::git_commit::{amend_checked, amend_step, AmendAction, AmendEvent};
use git_loom::git::git_commit::{
    amend_needs_check, check_amended, commit, commit_amend, commit_amend_message_unverified,
    commit_amend_no_edit, commit_captured, commit_opts, commit_with_editor,
    deletion_already_staged, reset_hard, reset_mixed, reset_soft, runs_uncaptured, stage_all,
    stage_all_opts, stage_files, stage_files_opts, stage_from, stage_path, staged_deletion,
};
use git_loom::git::{run_git, GitOutcome};

fn strings(v: &[&str]) -> Vec<String> {
    v.iter().map(|s| s.to_string()).collect()
}

#[test]
fn stage_files_rejects_an_unknown_path() {
    // `nope.txt` is nowhere: not on disk, and no staged deletion of it.
    assert_eq!(staged_deletion("nope.txt").args, strings(&["diff", "--cached", "--name-only", "--diff-filter=D", "--", "nope.txt"]));
    let staged = deletion_already_staged(false, "");
    assert!(!staged);
    let c = stage_files(&strings(&["nope.txt"]), &[staged]).unwrap();
    assert_eq!(c.args, strings(&["add", "--", "nope.txt"]));
    let out = GitOutcome { success: false, stdout: String::new(), stderr: "pathspec".into() };
    assert!(run_git(&c, &out).is_err(), "unknown path should not be accepted");
}

#[test]
fn stage_files_accepts_already_staged_deletion() {
    let staged = deletion_already_staged(false, "file1.txt\n");
    assert!(staged);
    assert!(stage_files(&strings(&["file1.txt"]), &[staged]).is_none());
    assert!(stage_path("file1.txt", staged).is_none());
}

#[test]
fn stage_files_stages_the_rest_of_the_batch() {
    let c = stage_files(&strings(&["file1.txt", "file2.txt"]), &[true, false]).unwrap();
    assert_eq!(c.args, strings(&["add", "--", "file2.txt"]));
}

#[test]
fn a_symlink_over_a_staged_deletion_is_staged() {
    // A broken symlink is a working tree entry: the deletion is not what is staged.
    assert!(!deletion_already_staged(true, "file1.txt\n"));
}

#[test]
fn forwarded_options_reach_the_terminal_unless_an_agent_drives() {
    let opts = strings(&["--dry-run"]);
    assert!(runs_uncaptured(&opts, false));
    assert!(!runs_uncaptured(&opts, true));
    assert!(!runs_uncaptured(&[], false));
    let c = stage_files_opts(&strings(&["a"]), &[false], &opts, false).unwrap();
    assert_eq!(c.args, strings(&["add", "--dry-run", "--", "a"]));
    assert!(c.interactive);
    let c = stage_all_opts(&opts, true);
    assert_eq!(c.args, strings(&["add", "--dry-run", "-A"]));
    assert!(!c.interactive);
    assert_eq!(stage_all().args, strings(&["add", "-A"]));
}

#[test]
fn commit_commands() {
    assert_eq!(commit("msg").args, strings(&["commit", "-m", "msg"]));
    assert_eq!(
        commit_captured("msg", &strings(&["--no-verify"])).args,
        strings(&["commit", "--no-verify", "-m", "msg"])
    );
    let c = commit_opts(Some("m"), &strings(&["-e"]), false);
    assert_eq!(c.args, strings(&["commit", "-e", "-m", "m"]));
    assert!(c.interactive);
    assert!(!commit_opts(Some("m"), &[], false).interactive);
    assert!(commit_opts(None, &[], true).interactive, "the editor needs the terminal");
    let e = commit_with_editor();
    assert_eq!(e.args, strings(&["commit"]));
    assert!(e.interactive);
}

#[test]
fn amend_commands() {
    let c = commit_amend(Some("new"));
    assert_eq!(c.args, strings(&["commit", "--quiet", "--allow-empty", "--amend", "--only", "-m", "new"]));
    assert!(!c.interactive);
    assert!(commit_amend(None).interactive);
    let u = commit_amend_message_unverified("m");
    assert!(u.args.iter().any(|a| a == "--no-verify"));
    assert!(u.args.iter().any(|a| a == "--cleanup=verbatim"));
    let n = commit_amend_no_edit(&strings(&["--reset-author"]));
    assert_eq!(n.args, strings(&["commit", "--reset-author", "--amend", "--no-edit", "--allow-empty"]));
    assert!(amend_needs_check(&strings(&["--reset-author"])));
    assert!(!amend_needs_check(&[]));
}

#[test]
fn an_amend_that_changed_nothing_is_refused() {
    let err = check_amended("h1", "t1", "t1", Some("h0")).err().unwrap();
    assert!(err.message.starts_with("`git commit --amend` left the commit as it was"), "{}", err.message);
    let err = check_amended("h1", "t1", "t2", Some("h1")).err().unwrap();
    assert_eq!(err.message, "`git commit --amend` committed on top of the target instead of amending it");
    assert!(check_amended("h1", "t1", "t2", Some("h0")).is_ok());
    assert!(check_amended("h1", "t1", "t2", None).is_ok());
}

#[test]
fn resets_and_restores() {
    assert_eq!(reset_mixed("HEAD~1").args, strings(&["reset", "HEAD~1"]));
    assert_eq!(reset_soft("HEAD~1").args, strings(&["reset", "--soft", "HEAD~1"]));
    assert_eq!(reset_hard("abc").args, strings(&["reset", "--hard", "abc"]));
    assert!(stage_from("abc", &[]).is_none());
    assert_eq!(
        stage_from("abc", &strings(&["a*.txt"])).unwrap().args,
        strings(&["restore", "--staged", "--source=abc", "--", ":(literal)a*.txt"])
    );
}

#[test]
fn stage_path_accepts_already_staged_deletion() {
    assert!(stage_path("file1.txt", deletion_already_staged(false, "file1.txt\n")).is_none());
    assert_eq!(stage_path("file1.txt", false).unwrap().args, strings(&["add", "--", "file1.txt"]));
}

#[test]
fn a_checked_amend_that_committed_on_top_is_refused() {
    let (s, a) = amend_checked(strings(&["--reset-author"]));
    assert!(matches!(a, AmendAction::Read(ref c) if c.args == strings(&["rev-parse", "HEAD"])));
    let (s, _) = amend_step(s, AmendEvent::Read(Ok("h1\n".to_string())));
    let (s, _) = amend_step(s, AmendEvent::Read(Ok("t1\n".to_string())));
    let (s, _) = amend_step(s, AmendEvent::Ran(Ok(())));
    let (s, _) = amend_step(s, AmendEvent::Read(Ok("t2\n".to_string())));
    let (_, a) = amend_step(s, AmendEvent::Read(Ok("h1\n".to_string())));
    match a {
        AmendAction::Finish(Err(e)) => assert_eq!(e.message, "`git commit --amend` committed on top of the target instead of amending it"),
        _ => panic!("expected the refusal"),
    }
}

#[test]
fn an_amend_with_nothing_forwarded_is_not_checked() {
    let (s, a) = amend_checked(vec![]);
    assert!(matches!(a, AmendAction::Run(ref c) if c.args == strings(&["commit", "--amend", "--no-edit", "--allow-empty"])));
    let (_, a) = amend_step(s, AmendEvent::Ran(Ok(())));
    assert!(matches!(a, AmendAction::Finish(Ok(()))));
}
