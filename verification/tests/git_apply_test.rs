use git_loom::git::git_apply::{park_patch, park_step, ParkAction, ParkEvent};
use git_loom::git::git_apply::{
    apply_cached_patch, apply_cached_patch_reverse, apply_patch, apply_patch_reverse,
    apply_patch_to_worktree, apply_patch_with_index, apply_patch_with_index_reverse,
    cached_three_way, patch_file_name, restage_step, restore_from_index, restore_loom_unstaged,
    restore_or_park_after_abort, restore_staged_after_rebase, restore_staged_patch, save_or_warn,
    unrestored_warning, worktree_apply_step, written_paths, ApplyAction, ApplyEvent, LoomRestore,
    Replay, Restage, RestageEvent, WorktreeApply,
};
use git_loom::git::git_rebase::before_rebase_starts;
use git_loom::git::{GitFailure, LoomError};

const PATCH: &str = "diff --git a/f.txt b/f.txt\n--- a/f.txt\n+++ b/f.txt\n@@ -1 +1 @@\n-4\n+FOUR\n";

fn strings(v: &[&str]) -> Vec<String> {
    v.iter().map(|s| s.to_string()).collect()
}

fn apply_failed() -> GitFailure {
    GitFailure { message: "git apply failed".to_string() }
}

#[test]
fn the_apply_flags_are_the_ones_asked_for() {
    assert_eq!(apply_patch(PATCH).args, strings(&["apply"]));
    assert_eq!(apply_patch_reverse(PATCH).args, strings(&["apply", "--reverse"]));
    assert_eq!(apply_cached_patch(PATCH).args, strings(&["apply", "--cached"]));
    assert_eq!(apply_cached_patch_reverse(PATCH).args, strings(&["apply", "--cached", "--reverse"]));
    assert_eq!(apply_patch_with_index(PATCH).args, strings(&["apply", "--index"]));
    assert_eq!(apply_patch_with_index_reverse(PATCH).args, strings(&["apply", "--index", "--reverse"]));
    let c = cached_three_way(PATCH, Some("/g/loom-restage-index-1"));
    assert_eq!(c.config, strings(&["-c", "rerere.enabled=false"]));
    assert_eq!(c.index_file.as_deref(), Some("/g/loom-restage-index-1"));
    assert_eq!(c.stdin.as_deref(), Some(PATCH));
}

#[test]
fn apply_to_worktree_falls_back_to_three_way() {
    let (state, action) = apply_patch_to_worktree(PATCH);
    assert!(matches!(action, ApplyAction::Run(ref c) if c.args == strings(&["apply"])));
    let (state, action) = worktree_apply_step(state, ApplyEvent::Applied(Err(apply_failed())), PATCH, "/s");
    assert!(matches!(action, ApplyAction::ReadDirty(_)));
    let (state, action) = worktree_apply_step(state, ApplyEvent::Dirty(Some(vec![])), PATCH, "/s");
    match &action {
        ApplyAction::RunOnScratch(c) => {
            assert_eq!(c.args, strings(&["apply", "--3way"]));
            assert_eq!(c.index_file.as_deref(), Some("/s"));
        }
        _ => panic!("expected the three-way"),
    }
    let (_, action) = worktree_apply_step(state, ApplyEvent::Applied(Ok(())), PATCH, "/s");
    assert!(matches!(action, ApplyAction::Finish(Ok(()))));
}

#[test]
fn apply_to_worktree_reports_a_conflict_and_restores_the_file() {
    let (state, _) = apply_patch_to_worktree(PATCH);
    let (state, _) = worktree_apply_step(state, ApplyEvent::Applied(Err(apply_failed())), PATCH, "/s");
    let before = strings(&["staged.txt"]);
    let (state, _) = worktree_apply_step(state, ApplyEvent::Dirty(Some(before)), PATCH, "/s");
    let (state, action) = worktree_apply_step(state, ApplyEvent::Applied(Err(apply_failed())), PATCH, "/s");
    assert!(matches!(action, ApplyAction::ReadDirty(_)));
    let after = strings(&["staged.txt", "f.txt"]);
    let (state, action) = worktree_apply_step(state, ApplyEvent::Dirty(Some(after)), PATCH, "/s");
    assert!(matches!(state, WorktreeApply::Done));
    match action {
        ApplyAction::Restore(paths, err) => {
            assert_eq!(paths, strings(&["f.txt"]));
            assert_eq!(err.message, "git apply failed");
        }
        _ => panic!("expected the restore"),
    }
    let plan = restore_from_index(&strings(&["f.txt"]), &strings(&["f.txt"]));
    assert_eq!(plan.checkout.unwrap().args, strings(&["checkout-index", "-f", "--", "f.txt"]));
    assert!(plan.remove.is_empty());
}

#[test]
fn apply_to_worktree_cleans_up_a_non_ascii_path() {
    // `-z` keeps git from quoting the path, so it comes back as it is named.
    let written = written_paths(&[], &strings(&["été.txt"]));
    assert_eq!(written, strings(&["été.txt"]));
    let plan = restore_from_index(&written, &written);
    assert_eq!(plan.checkout.unwrap().args, strings(&["checkout-index", "-f", "--", "été.txt"]));
}

#[test]
fn apply_to_worktree_undoes_a_partial_apply() {
    let written = written_paths(&[], &strings(&["clean.txt", "conflicting.txt", "added.txt"]));
    let plan = restore_from_index(&written, &strings(&["clean.txt", "conflicting.txt"]));
    assert_eq!(
        plan.checkout.unwrap().args,
        strings(&["checkout-index", "-f", "--", "clean.txt", "conflicting.txt"])
    );
    assert_eq!(plan.remove, strings(&["added.txt"]));
}

#[test]
fn apply_to_worktree_does_not_treat_a_path_as_a_glob() {
    // The user's own edit to `a1.txt` was there before, so it is not written.
    let before = strings(&["a1.txt"]);
    let after = strings(&["a1.txt", "a[12].txt"]);
    let written = written_paths(&before, &after);
    assert_eq!(written, strings(&["a[12].txt"]));
    let ls = git_loom::git::ls_files(&written).unwrap();
    assert_eq!(ls.args, strings(&["ls-files", "-z", "--", ":(literal)a[12].txt"]));
}

#[test]
fn apply_to_worktree_leaves_the_tree_alone_when_nothing_was_written() {
    let before = strings(&["f.txt", "unrelated.txt"]);
    let written = written_paths(&before, &before);
    assert!(written.is_empty());
    let plan = restore_from_index(&written, &[]);
    assert!(plan.checkout.is_none());
    assert!(plan.remove.is_empty());
    assert!(git_loom::git::ls_files(&written).is_none());
}

#[test]
fn apply_to_worktree_gives_up_when_the_tree_cannot_be_read() {
    let (state, _) = apply_patch_to_worktree(PATCH);
    let (state, _) = worktree_apply_step(state, ApplyEvent::Applied(Err(apply_failed())), PATCH, "/s");
    let (_, action) = worktree_apply_step(state, ApplyEvent::Dirty(None), PATCH, "/s");
    match action {
        ApplyAction::Finish(Err(e)) => assert_eq!(e.message, "git apply failed"),
        _ => panic!("expected the plain error"),
    }
}

#[test]
fn restore_staged_after_rebase_keeps_what_the_autostash_left() {
    let s = restore_staged_after_rebase(PATCH);
    assert!(matches!(s.state, Restage::CheckUnmerged));
    let s = restage_step(s.state, RestageEvent::Unmerged(false), PATCH, "/g/scratch");
    let rehearsal = s.run.unwrap();
    assert_eq!(rehearsal.args, strings(&["apply", "--cached", "--3way"]));
    assert_eq!(rehearsal.index_file.as_deref(), Some("/g/scratch"));
    let s = restage_step(s.state, RestageEvent::Rehearsed(Ok(Ok(()))), PATCH, "/g/scratch");
    let real = s.run.unwrap();
    assert!(real.index_file.is_none(), "the real index, once the rehearsal passed");
    let s = restage_step(s.state, RestageEvent::Applied(Ok(())), PATCH, "/g/scratch");
    assert!(matches!(s.state, Restage::Done));
    assert!(!s.park);
    assert!(s.warnings.is_empty());
}

#[test]
fn restore_staged_after_rebase_never_fails_the_caller() {
    let s = restore_staged_after_rebase(PATCH);
    let s = restage_step(s.state, RestageEvent::Unmerged(false), PATCH, "/s");
    let s = restage_step(s.state, RestageEvent::Rehearsed(Ok(Ok(()))), PATCH, "/s");
    let s = restage_step(s.state, RestageEvent::Applied(Err(apply_failed())), PATCH, "/s");
    assert_eq!(s.warnings, strings(&["could not restore your staged changes: git apply failed"]));
    assert!(!s.park);
    let s = restage_step(s.state, RestageEvent::Stages(strings(&["a.txt", "my file.txt", "it's.txt"])), PATCH, "/s");
    assert!(s.park, "a failed restore hands the patch over");
    assert_eq!(
        s.warnings,
        strings(&["it left unmerged entries in the index — `git reset -- ':(top,literal)a.txt' ':(top,literal)my file.txt' ':(top,literal)it'\\''s.txt'` clears them"])
    );
}

#[test]
fn restore_staged_after_rebase_leaves_no_conflict_in_the_index() {
    let s = restore_staged_after_rebase(PATCH);
    let s = restage_step(s.state, RestageEvent::Unmerged(false), PATCH, "/s");
    let s = restage_step(s.state, RestageEvent::Rehearsed(Ok(Err(apply_failed()))), PATCH, "/s");
    // The conflict stayed in the scratch index; only the staged diff is read.
    assert!(s.run.as_ref().unwrap().stdin.is_none());
    let s = restage_step(s.state, RestageEvent::Staged(Some(String::new())), PATCH, "/s");
    assert!(s.park);
    assert_eq!(
        s.warnings,
        strings(&["your staged changes no longer apply over what is in the index now: git apply failed"])
    );
}

#[test]
fn restore_staged_after_rebase_is_idempotent() {
    let s = restore_staged_after_rebase(PATCH);
    let s = restage_step(s.state, RestageEvent::Unmerged(false), PATCH, "/s");
    let s = restage_step(s.state, RestageEvent::Rehearsed(Ok(Err(apply_failed()))), PATCH, "/s");
    let s = restage_step(s.state, RestageEvent::Staged(Some(PATCH.to_string())), PATCH, "/s");
    assert!(!s.park, "the patch is already back");
    assert!(s.warnings.is_empty());
}

#[test]
fn restore_staged_after_rebase_hands_over_an_unmerged_index() {
    let s = restore_staged_after_rebase(PATCH);
    let s = restage_step(s.state, RestageEvent::Unmerged(true), PATCH, "/s");
    assert!(s.park);
    assert!(s.warnings[0].starts_with("the index has unmerged paths"));
    let empty = restore_staged_after_rebase("");
    assert!(matches!(empty.state, Restage::Done));
    assert!(empty.run.is_none());
    let s = restore_staged_after_rebase(PATCH);
    let s = restage_step(s.state, RestageEvent::Unmerged(false), PATCH, "/s");
    let s = restage_step(
        s.state,
        RestageEvent::Rehearsed(Err(LoomError::new("Failed to copy".to_string()))),
        PATCH,
        "/s",
    );
    assert!(s.park);
    assert_eq!(s.warnings, strings(&["could not test whether your staged changes still apply: Failed to copy"]));
}

#[test]
fn restore_or_park_after_abort_restages_when_the_rebase_is_gone() {
    let err = LoomError::new("the rebase stopped".to_string());
    assert!(matches!(restore_or_park_after_abort(PATCH, &err, true), LoomRestore::Restage));
    match restore_or_park_after_abort(PATCH, &err, false) {
        LoomRestore::Park(w) => {
            assert_eq!(w, "the rebase is still on disk, so your staged changes could not be put back")
        }
        _ => panic!("expected the patch to be parked"),
    }
}

#[test]
fn restore_or_park_after_abort_leaves_the_index_alone_before_the_rebase_starts() {
    let err = before_rebase_starts::<()>(Err(LoomError::new("checked out elsewhere".to_string())))
        .err()
        .unwrap();
    assert!(matches!(restore_or_park_after_abort(PATCH, &err, true), LoomRestore::Nothing));
    assert!(matches!(restore_or_park_after_abort(PATCH, &err, false), LoomRestore::Nothing));
}

#[test]
fn restore_loom_unstaged_restores_when_no_rebase_is_on_disk() {
    assert!(matches!(restore_loom_unstaged(PATCH, true), LoomRestore::Restage));
    assert!(matches!(restore_loom_unstaged("", true), LoomRestore::Nothing));
    assert!(matches!(restore_loom_unstaged("", false), LoomRestore::Nothing));
}

#[test]
fn restore_staged_patch_warns_and_parks_on_failure() {
    assert!(restore_staged_patch("").is_none());
    assert_eq!(restore_staged_patch(PATCH).unwrap().args, strings(&["apply", "--cached"]));
    assert_eq!(
        unrestored_warning(&apply_failed()),
        "could not restore pre-existing staged changes: git apply failed"
    );
}

#[test]
fn save_patch_aside_never_writes_over_an_earlier_save() {
    assert_eq!(patch_file_name("unrestored", 0), "unrestored-0.patch");
    assert_eq!(patch_file_name("unrestored", 1), "unrestored-1.patch");
    assert_eq!(patch_file_name("unrestored-staged", 999), "unrestored-staged-999.patch");
}

#[test]
fn a_parked_patch_says_how_to_replay_it() {
    let saved: Result<String, String> = Ok("/g/loom/x-0.patch".to_string());
    assert_eq!(
        save_or_warn(PATCH, Replay::CachedThreeWay, &saved).unwrap(),
        "those changes are saved as a patch — replay them with `git -c rerere.enabled=false apply --cached --3way /g/loom/x-0.patch`"
    );
    assert_eq!(
        save_or_warn(PATCH, Replay::Worktree, &saved).unwrap(),
        "those changes are saved as a patch — replay them with `git apply /g/loom/x-0.patch`"
    );
    let failed: Result<String, String> = Err("disk full".to_string());
    assert_eq!(
        save_or_warn(PATCH, Replay::Cached, &failed).unwrap(),
        "the patch of those changes could not be saved either (disk full)"
    );
    // An empty patch is nothing to park and nothing to say.
    assert!(save_or_warn("", Replay::Worktree, &saved).is_none());
}

#[test]
fn the_unmerged_reset_hint_names_no_path_it_could_not_decode() {
    let specs = vec![":(top,literal)a.txt".to_string(), ":(top,literal)caf\u{fffd}.txt".to_string()];
    assert_eq!(
        git_loom::git::git_apply::reset_hint_for(&specs).expect("the index is unmerged"),
        "it left unmerged entries in the index — `git status` names them, and a \
         `git reset` limited to those paths clears them"
    );
}

#[test]
fn the_unmerged_reset_hint_is_none_on_a_clean_index() {
    let paths = git_loom::git::git_rebase::unmerged_paths_output(Some(""));
    assert!(git_loom::git::git_apply::unmerged_reset_hint(&paths).is_none());
}

#[test]
fn the_unmerged_reset_hint_quotes_every_path_it_names() {
    let out = "a.txt\0my file.txt\0weird;&name.txt\0été.txt\0";
    let paths = git_loom::git::git_rebase::unmerged_paths_output(Some(out));
    assert_eq!(
        git_loom::git::git_apply::unmerged_reset_hint(&paths).expect("the merge left stages behind"),
        "it left unmerged entries in the index — `git reset -- \
         ':(top,literal)a.txt' ':(top,literal)my file.txt' \
         ':(top,literal)weird;&name.txt' ':(top,literal)été.txt'` clears them"
    );
}

#[test]
fn an_empty_patch_is_not_parked() {
    let (s, a) = park_patch("/r/.git/loom".to_string(), "unrestored".to_string(), "");
    assert!(s.done);
    assert!(matches!(a, ParkAction::Finish(Ok(None))));
}

#[test]
fn a_patch_is_parked_under_the_first_free_name() {
    let (s, a) = park_patch("/r/.git/loom".to_string(), "unrestored".to_string(), "diff\n");
    assert!(matches!(a, ParkAction::CreateNew(ref f) if f == "unrestored-0.patch"));
    let (s, a) = park_step(s, ParkEvent::Exists);
    assert!(matches!(a, ParkAction::CreateNew(ref f) if f == "unrestored-1.patch"));
    let (s, a) = park_step(s, ParkEvent::Exists);
    assert!(matches!(a, ParkAction::CreateNew(ref f) if f == "unrestored-2.patch"));
    let (_, a) = park_step(s, ParkEvent::Created);
    assert!(matches!(a, ParkAction::Finish(Ok(Some(ref f))) if f == "unrestored-2.patch"));
}

#[test]
fn parking_gives_up_once_every_name_is_taken() {
    let (mut s, mut a) = park_patch("/r/.git/loom".to_string(), "unrestored".to_string(), "diff\n");
    let mut tries = 0;
    while let ParkAction::CreateNew(_) = a {
        tries += 1;
        let next = park_step(s, ParkEvent::Exists);
        s = next.0;
        a = next.1;
    }
    assert_eq!(tries, 1000);
    assert!(matches!(a, ParkAction::Finish(Err(ref m)) if m == "'/r/.git/loom' already holds 1000 saved unrestored patches"));
}
