use git_loom::git::LoomError;
use git_loom::patch_route::{fold_picked_hunks, patch_route_step, run_patch_fold, PatchAction, PatchAt, TargetKind};
use git_loom::repo::Target;

fn texts(v: &[&str]) -> Vec<String> {
    v.iter().map(|s| s.to_string()).collect()
}

fn resolving(a: &PatchAction) -> (String, Vec<TargetKind>) {
    match a {
        PatchAction::Resolve { arg, kinds } => (arg.clone(), kinds.clone()),
        _ => panic!("expected a resolution"),
    }
}

fn failure(a: &PatchAction) -> String {
    match a {
        PatchAction::Fail(e) => e.message.clone(),
        _ => panic!("expected a refusal"),
    }
}

#[test]
fn a_commit_source_with_zz_uncommits_its_hunks() {
    let (s, a) = run_patch_fold(texts(&["ab", "zz"]), false, false);
    assert_eq!(resolving(&a), ("ab".to_string(), vec![TargetKind::Commit]));
    let (s, a) = patch_route_step(s, Ok(Target::Commit("1234".to_string())));
    assert!(matches!(s.at, PatchAt::Done));
    assert!(matches!(a, PatchAction::UncommitHunks { ref source, ref source_arg } if source == "1234" && source_arg == "ab"));
}

#[test]
fn two_commits_move_hunks_from_one_to_the_other() {
    let (s, _) = run_patch_fold(texts(&["ab", "cd"]), true, false);
    let (s, a) = patch_route_step(s, Ok(Target::Commit("1234".to_string())));
    assert_eq!(resolving(&a), ("cd".to_string(), vec![TargetKind::Commit]));
    let (_, a) = patch_route_step(s, Ok(Target::Commit("5678".to_string())));
    assert!(matches!(a, PatchAction::MoveHunks { ref source, ref target, ref source_arg, ref target_arg }
        if source == "1234" && target == "5678" && source_arg == "ab" && target_arg == "cd"));
}

#[test]
fn a_file_source_filters_the_working_tree_picker() {
    let (s, _) = run_patch_fold(texts(&["a.txt", "cd"]), false, false);
    let (s, a) = patch_route_step(s, Err(LoomError::new("not a commit".to_string())));
    assert_eq!(resolving(&a), ("a.txt".to_string(), vec![TargetKind::File, TargetKind::Commit, TargetKind::Branch]));
    let (s, a) = patch_route_step(s, Ok(Target::File("a.txt".to_string())));
    assert_eq!(resolving(&a), ("cd".to_string(), vec![TargetKind::Commit]));
    let (_, a) = patch_route_step(s, Ok(Target::Commit("5678".to_string())));
    assert!(matches!(a, PatchAction::PickWorktreeHunks { ref commit, ref filters } if commit == "5678" && filters == &texts(&["a.txt"])));
}

#[test]
fn zz_sources_are_passed_over_and_a_branch_source_is_refused() {
    let (s, a) = run_patch_fold(texts(&["zz", "feature", "cd"]), false, false);
    assert_eq!(resolving(&a).0, "feature");
    assert!(matches!(s.at, PatchAt::Checking { i: 1 }));
    let (_, a) = patch_route_step(s, Ok(Target::Branch("feature".to_string())));
    assert_eq!(
        failure(&a),
        "fold -p does not support commit or branch sources\nUse file paths, short IDs, or 'zz' to filter the hunk picker"
    );
}

#[test]
fn hunks_without_a_commit_source_are_refused() {
    let (_, a) = run_patch_fold(texts(&["cd"]), true, false);
    assert_eq!(failure(&a), "--hunks only applies to a commit source\nUse `loom fold -p <commit> <target>`, or pass explicit files");
}

#[test]
fn working_tree_hunks_are_refused_in_agent_mode() {
    let (s, a) = run_patch_fold(texts(&["zz", "zz", "cd"]), false, true);
    assert!(matches!(s.at, PatchAt::Done));
    assert_eq!(failure(&a), "--patch over working-tree changes is interactive and unavailable in agent mode\nPass explicit files instead");
}

#[test]
fn an_empty_pick_folds_nothing() {
    let r = fold_picked_hunks(vec![], "1234".to_string(), "1234".to_string(), vec![]);
    assert!(matches!(r, Err(ref e) if e.message == "No hunks selected"));
    let r = fold_picked_hunks(texts(&["a.txt"]), "1234".to_string(), "1234".to_string(), vec![]);
    assert!(r.is_ok());
}
