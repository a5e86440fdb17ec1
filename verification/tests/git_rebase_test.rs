use git_loom::git::git_rebase::{
    abort_after_failure, before_rebase_starts, carried_past, carry_past_known_stops, carry_step,
    continue_rebase, continue_rebase_expecting_edit, continue_rerere_stops, has_local_changes,
    has_unmerged_paths, local_changes_status, protected_for, rebase_abort_then_cleanup,
    rebase_is_in_progress, rebase_is_over, rebase_never_started, rebase_outcome, rebase_progress,
    replayed_empty_hash, replays_empty, rerere_auto_updates, rerere_continue_step,
    resolves_to_head, shas_match, skip_empty_stops, stop_id, stopped_on_the_replay, stopped_sha,
    verify_paused_at, AfterStop, CarryAction, CarryEvent, CarryPhase, EmptyStopFacts,
    Protected, RebaseOutcome, RerereFacts, RerereStep, SkipStep, StopId,
};
use git_loom::git::{GitFailure, LoomError};

const C1: &str = "1111111aaaaaaaaaaaaaaaaaaaaaaaaaaaaaaaaa";
const C2: &str = "2222222bbbbbbbbbbbbbbbbbbbbbbbbbbbbbbbbb";

fn strings(v: &[&str]) -> Vec<String> {
    v.iter().map(|s| s.to_string()).collect()
}

fn git_failed() -> GitFailure {
    GitFailure { message: "git rebase failed".to_string() }
}

#[test]
fn continue_rebase_reports_paused_at_next_edit() {
    assert_eq!(continue_rebase().args, strings(&["rebase", "--continue"]));
    // Exit 0 with the rebase still on disk: the next `edit` is ahead.
    assert_eq!(rebase_outcome(true, Ok(())).ok().unwrap(), RebaseOutcome::Paused);
    // Only once the last `edit` is passed does it actually finish.
    assert_eq!(rebase_outcome(false, Ok(())).ok().unwrap(), RebaseOutcome::Completed);
    assert!(!rebase_is_in_progress(false, false));
}

#[test]
fn continue_rebase_without_a_rebase_is_an_error() {
    let err = rebase_outcome(false, Err(git_failed())).err().unwrap();
    assert!(err.message.contains("git rebase failed"), "{}", err.message);
}

#[test]
fn a_failure_with_a_rebase_left_behind_is_a_stop() {
    assert_eq!(rebase_outcome(true, Err(git_failed())).ok().unwrap(), RebaseOutcome::Stopped);
}

#[test]
fn cleanup_runs_when_there_was_no_rebase_to_abort() {
    let (cleaned, err) =
        rebase_abort_then_cleanup(LoomError::new("boom".to_string()), true, false);
    assert!(cleaned, "nothing was running, so the cleanup must happen");
    assert_eq!(err.message, "boom");
}

#[test]
fn a_live_rebase_is_aborted_before_the_cleanup_runs() {
    let (cleaned, err) =
        rebase_abort_then_cleanup(LoomError::new("boom".to_string()), false, true);
    assert!(cleaned, "the abort worked, so the cleanup must follow");
    assert_eq!(err.message, "boom");
}

#[test]
fn a_failed_abort_skips_the_cleanup_and_keeps_the_cause() {
    let (cleaned, err) =
        rebase_abort_then_cleanup(LoomError::new("boom".to_string()), false, false);
    assert!(!cleaned);
    assert!(err.message.starts_with("boom\nThe abort failed too"), "{}", err.message);
    assert!(err.message.contains("index.lock"), "{}", err.message);
}

#[test]
fn verify_paused_at_refuses_a_stop_on_another_commit() {
    let stopped = stopped_on_the_replay(&Some(C1.to_string()), C2, None);
    assert_eq!(stopped.as_ref().ok(), Some(&false));
    let err = verify_paused_at(stopped, C2, Some("first\n")).err().unwrap();
    assert!(err.message.contains("was not replayed"), "{}", err.message);
    assert!(err.message.contains("`first`"), "{}", err.message);
}

#[test]
fn verify_paused_at_refuses_a_stop_on_a_commit_of_the_same_identity() {
    // The identities agree, but git recorded which commit it stopped on.
    let same = "dup\0dup@example.com\01000\0dup\n".to_string();
    let stopped = stopped_on_the_replay(&Some(C1.to_string()), C2, Some((Ok(same.clone()), Ok(same))));
    let err = verify_paused_at(stopped, C2, None).err().unwrap();
    assert!(err.message.contains("was not replayed"), "{}", err.message);
    assert!(err.message.contains("another commit"), "{}", err.message);
}

#[test]
fn verify_paused_at_accepts_the_expected_stop() {
    let stopped = stopped_on_the_replay(&Some("2222222".to_string()), C2, None);
    assert!(verify_paused_at(stopped, C2, None).is_ok());
    let by_identity =
        stopped_on_the_replay(&None, C2, Some((Ok("a".to_string()), Ok("a".to_string()))));
    assert_eq!(by_identity.ok(), Some(true));
}

fn facts(sha: Option<&str>, replays: bool, dirty: bool) -> EmptyStopFacts {
    EmptyStopFacts {
        unmerged: false,
        stopped_sha: sha.map(|s| s.to_string()),
        replays_empty: replays,
        dirty,
    }
}

#[test]
fn an_empty_stop_is_not_skipped_over_local_changes() {
    let step =
        skip_empty_stops(RebaseOutcome::Stopped, &Protected::default(), &[], &facts(Some(C1), true, true));
    assert!(matches!(step, SkipStep::Done));
    // A replay that changes HEAD's tree is not empty at all.
    assert!(!replays_empty(Some("tree-a\n"), Some("tree-b\n")));
    assert!(replays_empty(Some("tree-a\n"), Some("tree-a\nmore\n")));
    assert!(!replays_empty(None, Some("tree-a\n")));
}

#[test]
fn a_clean_empty_stop_is_skipped_once() {
    let step =
        skip_empty_stops(RebaseOutcome::Stopped, &Protected::default(), &[], &facts(Some(C1), true, false));
    match step {
        SkipStep::Skip(sha) => assert_eq!(sha, C1),
        other => panic!("expected a skip, got {other:?}"),
    }
    let again = skip_empty_stops(
        RebaseOutcome::Stopped,
        &Protected::default(),
        &strings(&[C1]),
        &facts(Some(C1), true, false),
    );
    assert!(matches!(again, SkipStep::Done));
}

#[test]
fn a_protected_commit_is_refused_even_with_local_changes() {
    let protected = Protected::named(strings(&["1111111"]));
    match skip_empty_stops(RebaseOutcome::Stopped, &protected, &[], &facts(Some(C1), true, true)) {
        SkipStep::Refuse(e) => {
            assert!(e.message.starts_with("Commit `1111111` is redundant"), "{}", e.message);
            assert!(e.message.contains("commit or stash them"), "{}", e.message);
            assert_eq!(replayed_empty_hash(&e), Some(C1));
        }
        other => panic!("expected a refusal, got {other:?}"),
    }
    match skip_empty_stops(RebaseOutcome::Stopped, &protected, &[], &facts(Some(C1), true, false)) {
        SkipStep::RollBack(e) => {
            assert!(e.message.contains("`loom drop 1111111 -y`"), "{}", e.message);
        }
        other => panic!("expected a roll-back, got {other:?}"),
    }
    let target = Protected::named(vec![]).targeting(strings(&[C1]));
    match skip_empty_stops(RebaseOutcome::Stopped, &target, &[], &facts(Some(C1), true, false)) {
        SkipStep::RollBack(e) => assert!(!e.message.contains("loom drop"), "{}", e.message),
        other => panic!("expected a roll-back, got {other:?}"),
    }
}

#[test]
fn a_dirty_submodule_is_not_a_local_change() {
    let c = local_changes_status();
    assert!(c.args.iter().any(|a| a == "--ignore-submodules=dirty"));
    assert!(!has_local_changes(Some("")));
    assert!(has_local_changes(Some(" M sub\n")));
    // A git that cannot answer counts as changed.
    assert!(has_local_changes(None));
}

#[test]
fn shas_match_either_abbreviated() {
    assert!(shas_match("1111111", C1));
    assert!(shas_match(C1, "1111111"));
    assert!(!shas_match("", C1));
    assert!(!shas_match("2222222", C1));
}

#[test]
fn the_stopped_sha_is_read_trimmed() {
    assert_eq!(stopped_sha(Some(" abc \n")), Some("abc".to_string()));
    assert_eq!(stopped_sha(Some("  \n")), None);
    assert_eq!(stopped_sha(None), None);
}

#[test]
fn progress_and_stop_ids() {
    assert_eq!(rebase_progress(Some("3\n"), Some("7\n")), Some((3, 7)));
    assert_eq!(rebase_progress(Some("x"), Some("7")), None);
    assert_eq!(rebase_progress(None, Some("7")), None);
    let id = stop_id(Some("aaaa".to_string()), Some((3, 7))).unwrap();
    assert_eq!(id.auto_merge(), "aaaa");
    assert_eq!(id.step, Some(3));
    assert!(stop_id(None, Some((3, 7))).is_none());
}

fn stop(step: usize) -> StopId {
    StopId { auto_merge: "am".to_string(), step: Some(step) }
}

fn rerere_facts(id: Option<StopId>, unmerged: bool, auto: bool, head: bool) -> RerereFacts {
    RerereFacts { stop: id, unmerged, auto_update: auto, resolves_to_head: head }
}

#[test]
fn rerere_carries_on_only_with_auto_update_and_a_real_change() {
    let f = rerere_facts(Some(stop(2)), false, true, false);
    assert!(matches!(rerere_continue_step(RebaseOutcome::Stopped, &[], &f), RerereStep::Carry(_)));
    let unmerged = rerere_facts(Some(stop(2)), true, true, false);
    assert!(matches!(rerere_continue_step(RebaseOutcome::Stopped, &[], &unmerged), RerereStep::Hold(_)));
    let review = rerere_facts(Some(stop(2)), false, false, false);
    assert!(matches!(rerere_continue_step(RebaseOutcome::Stopped, &[], &review), RerereStep::Hold(_)));
    let dropped = rerere_facts(Some(stop(2)), false, true, true);
    assert!(matches!(rerere_continue_step(RebaseOutcome::Stopped, &[], &dropped), RerereStep::Hold(_)));
    // A stop already carried past is handed back, not retried for ever.
    assert!(matches!(rerere_continue_step(RebaseOutcome::Stopped, &[stop(2)], &f), RerereStep::Done));
    assert!(matches!(rerere_continue_step(RebaseOutcome::Completed, &[], &f), RerereStep::Done));
}

#[test]
fn rerere_settings_and_trees_are_read_as_git_prints_them() {
    assert!(rerere_auto_updates(Some("true\n")));
    assert!(!rerere_auto_updates(Some("false\n")));
    assert!(!rerere_auto_updates(None));
    assert!(resolves_to_head(Some("t1\n"), Some("t1")));
    assert!(!resolves_to_head(Some("t1"), Some("t2")));
    assert!(resolves_to_head(None, Some("t2")));
    assert!(has_unmerged_paths(Some("a.txt\0")));
    assert!(!has_unmerged_paths(Some("")));
    assert!(!has_unmerged_paths(None));
}

#[test]
fn a_continue_that_stays_on_its_stop_carried_nothing() {
    assert!(!carried_past(RebaseOutcome::Stopped, &stop(2), &Some(stop(2))));
    assert!(carried_past(RebaseOutcome::Stopped, &stop(2), &Some(stop(3))));
    assert!(carried_past(RebaseOutcome::Completed, &stop(2), &Some(stop(2))));
}

#[test]
fn a_carry_skips_then_continues_then_finishes() {
    let protected = Protected::default();
    let start = carry_past_known_stops(None, RebaseOutcome::Stopped);
    assert!(matches!(start.action, CarryAction::ReadEmptyStop));
    // An empty stop: skipped.
    let s = carry_step(start.state, CarryEvent::EmptyStop(facts(Some(C1), true, false)), &protected);
    assert!(matches!(s.action, CarryAction::Run(ref c) if c.args == strings(&["rebase", "--skip"])));
    // The skip lands on a conflict.
    let s = carry_step(s.state, CarryEvent::Skipped(true, Err(git_failed())), &protected);
    assert_eq!(s.warning.as_deref(), Some("Dropped `1111111` — the history below it already has its change"));
    assert!(matches!(s.action, CarryAction::ReadEmptyStop));
    // Not empty: the rerere loop takes over.
    let s = carry_step(s.state, CarryEvent::EmptyStop(facts(Some(C2), false, false)), &protected);
    assert!(matches!(s.action, CarryAction::ReadRerereStop));
    assert_eq!(s.state.phase, CarryPhase::Rerere);
    let s = carry_step(
        s.state,
        CarryEvent::RerereStop(rerere_facts(Some(stop(2)), false, true, false), Some(C2.to_string())),
        &protected,
    );
    assert!(matches!(s.action, CarryAction::Run(ref c) if c.args == strings(&["rebase", "--continue"])));
    let s = carry_step(s.state, CarryEvent::Continued(false, Ok(())), &protected);
    assert!(matches!(s.action, CarryAction::ReadStop));
    let s = carry_step(s.state, CarryEvent::StopAfter(None), &protected);
    assert_eq!(
        s.warning.as_deref(),
        Some("`rerere` resolved the conflicts replaying `2222222` — carried on with its recorded resolution")
    );
    match s.action {
        CarryAction::Finish(Ok(o)) => assert_eq!(o, RebaseOutcome::Completed),
        _ => panic!("expected the carry to finish"),
    }
}

#[test]
fn a_rerere_only_carry_ends_after_one_loop() {
    let start = continue_rerere_stops(Some(&stop(1)), RebaseOutcome::Stopped);
    assert!(matches!(start.action, CarryAction::ReadRerereStop));
    assert_eq!(start.state.carried.len(), 1);
    // The stop the caller was on is not news.
    let s = carry_step(
        start.state,
        CarryEvent::RerereStop(rerere_facts(Some(stop(1)), false, true, false), None),
        &Protected::default(),
    );
    match s.action {
        CarryAction::Finish(Ok(o)) => assert_eq!(o, RebaseOutcome::Stopped),
        _ => panic!("expected the carry to hand the stop back"),
    }
    let done = carry_past_known_stops(None, RebaseOutcome::Completed);
    assert!(matches!(done.action, CarryAction::Finish(Ok(RebaseOutcome::Completed))));
}

#[test]
fn a_skip_that_fails_outright_is_rolled_back() {
    let protected = Protected::default();
    let start = carry_past_known_stops(None, RebaseOutcome::Stopped);
    let s = carry_step(start.state, CarryEvent::EmptyStop(facts(Some(C1), true, false)), &protected);
    let s = carry_step(s.state, CarryEvent::Skipped(false, Err(git_failed())), &protected);
    match s.action {
        CarryAction::RollBack(e) => assert_eq!(e.message, "git rebase failed"),
        _ => panic!("expected a roll-back"),
    }
}

#[test]
fn a_rebase_that_ran_to_the_end_past_an_edit_is_reported() {
    let after = AfterStop::rewrite(C1);
    let p = protected_for(&after);
    assert_eq!(p.named, strings(&[C1]));
    match continue_rebase_expecting_edit(&after, RebaseOutcome::Completed) {
        git_loom::git::git_rebase::EditContinuation::Finished(e) => {
            assert!(e.message.starts_with("The rebase finished without stopping at `1111111`"), "{}", e.message)
        }
        other => panic!("unexpected {other:?}"),
    }
    assert!(matches!(
        continue_rebase_expecting_edit(&AfterStop::nothing(), RebaseOutcome::Completed),
        git_loom::git::git_rebase::EditContinuation::Done
    ));
}

#[test]
fn an_abort_after_failure_says_what_happened() {
    assert_eq!(abort_after_failure(true, true).message, "Rebase failed with conflicts — aborted");
    assert!(abort_after_failure(false, true).message.contains("loom trace"));
    assert!(abort_after_failure(true, false).message.contains("the abort failed too"));
}

#[test]
fn an_error_from_before_the_rebase_is_tagged() {
    let err = before_rebase_starts::<()>(Err(LoomError::new("checked out elsewhere".to_string())))
        .err()
        .unwrap();
    assert!(rebase_never_started(&err));
    assert_eq!(err.message, "checked out elsewhere");
    assert!(!rebase_never_started(&LoomError::new("x".to_string())));
    assert!(rebase_is_over(true, false));
    assert!(!rebase_is_over(false, false));
    assert!(!rebase_is_over(true, true));
}

use git_loom::git::git_rebase::stopped_on_conflict;

#[test]
fn rerere_resolved_stop_is_still_a_conflict() {
    // rerere staged its resolution, so nothing is left unmerged, but the
    // stop still has an AUTO_MERGE.
    assert!(!has_unmerged_paths(Some("")));
    let conflicted = stopped_on_conflict(Some(""), Some("0123abcd\n"));
    assert!(conflicted);
    let err = abort_after_failure(conflicted, true);
    assert!(err.message.contains("Rebase failed with conflicts"), "{}", err.message);
}

#[test]
fn untracked_file_stop_is_not_a_conflict() {
    let conflicted = stopped_on_conflict(Some(""), Some(""));
    assert!(!conflicted);
    assert!(!stopped_on_conflict(None, None));
    assert!(abort_after_failure(conflicted, true).message.starts_with("Rebase stopped before finishing"));
}

#[test]
fn verify_paused_at_accepts_a_replay_with_a_new_hash() {
    // No stopped-sha for an `edit` pause: the replay is recognized by the
    // author, date and message a rebase preserves.
    let identity = "Test\0test@example.com\01000\0target\n".to_string();
    let stopped = stopped_on_the_replay(&None, C1, Some((Ok(identity.clone()), Ok(identity))));
    assert!(verify_paused_at(stopped, C1, None).is_ok());
}

#[test]
fn replays_empty_only_when_the_content_is_already_there() {
    // HEAD's tree against the tree the replay would write.
    assert!(!replays_empty(Some("aaaa\n"), Some("bbbb\n")));
    assert!(replays_empty(Some("cccc\n"), Some("cccc\n")));
    // A conflicting merge prints the conflicts after the tree, and exits
    // non-zero: git could not answer.
    assert!(!replays_empty(Some("cccc\n"), None));
}

#[test]
fn replays_empty_when_the_upstream_also_changed_the_same_file() {
    assert!(replays_empty(Some("  dddd\n"), Some("dddd\n")));
}

#[test]
fn a_commit_touching_a_non_ascii_path_does_not_look_empty() {
    assert!(!replays_empty(Some("eeee\n"), Some("ffff\n")));
    assert!(!replays_empty(Some("eeee"), Some("")));
}
