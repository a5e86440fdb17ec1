use git2::{Commit, Oid, Repository, Signature, Time};
use git_loom::fold::commits_to_move;

fn scratch_repo(name: &str) -> Repository {
    Repository::init_bare(format!("/tmp/git-loom-move-order-{name}")).unwrap()
}

/// A commit adding `file`, dated `time`, on `parent`.
fn commit_at(repo: &Repository, parent: Option<Oid>, file: &str, time: i64) -> Oid {
    let blob = repo.blob(file.as_bytes()).unwrap();
    let mut tb = repo.treebuilder(None).unwrap();
    tb.insert(file, blob, 0o100644).unwrap();
    let tree = repo.find_tree(tb.write().unwrap()).unwrap();
    let sig = Signature::new("Loom", "loom@example.com", &Time::new(time, 0)).unwrap();
    let parents: Vec<Commit> = parent.map(|p| repo.find_commit(p).unwrap()).into_iter().collect();
    let refs: Vec<&Commit> = parents.iter().collect();
    repo.commit(None, &sig, &sig, file, &tree, &refs).unwrap()
}

/// The walk a move orders by: topological, committer time between unrelated
/// lines, its starting points pushed in (time, oid) order, bounded by `base`.
fn move_walk(repo: &Repository, oids: &[Oid], base: Oid) -> Vec<String> {
    let mut by_time: Vec<(i64, Oid)> =
        oids.iter().map(|o| (repo.find_commit(*o).unwrap().time().seconds(), *o)).collect();
    by_time.sort_unstable();
    let mut walk = repo.revwalk().unwrap();
    walk.set_sorting(git2::Sort::TOPOLOGICAL | git2::Sort::TIME).unwrap();
    for (_, oid) in &by_time {
        walk.push(*oid).unwrap();
    }
    walk.hide(base).unwrap();
    walk.map(|s| s.unwrap().to_string()).collect()
}

fn move_order(repo: &Repository, oids: &[Oid], base: Oid) -> Result<Vec<String>, String> {
    let hashes: Vec<String> = oids.iter().map(|o| o.to_string()).collect();
    commits_to_move(&hashes, &move_walk(repo, oids, base)).map_err(|e| e.message)
}

#[test]
fn sort_commits_puts_an_ancestor_first_whatever_the_input_order() {
    let repo = scratch_repo("ancestor-first");
    let base = commit_at(&repo, None, "base.txt", 1_600_000_000);
    const TIED: i64 = 1_700_000_000;
    let x = commit_at(&repo, Some(base), "x.txt", TIED);
    let z = commit_at(&repo, Some(x), "z.txt", TIED);
    let y = commit_at(&repo, Some(base), "y.txt", TIED);

    let mut outputs = Vec::new();
    for input in [[x, y, z], [x, z, y], [y, x, z], [y, z, x], [z, x, y], [z, y, x]] {
        let sorted = move_order(&repo, &input, base).unwrap();
        assert_eq!(sorted.len(), 3, "no commit may be dropped: {sorted:?}");
        let at = |o: Oid| sorted.iter().position(|h| *h == o.to_string()).unwrap();
        assert!(at(x) < at(z), "X is Z's ancestor and must come first, got {sorted:?} from {input:?}");
        outputs.push(sorted);
    }
    assert!(outputs.windows(2).all(|w| w[0] == w[1]), "every permutation must agree: {outputs:?}");
}

#[test]
fn sort_commits_rejects_a_commit_from_below_the_boundary() {
    let repo = scratch_repo("below-boundary");
    let base = commit_at(&repo, None, "base.txt", 1_600_000_000);
    let local = commit_at(&repo, Some(base), "l1.txt", 1_700_000_000);
    let err = move_order(&repo, &[local, base], base).unwrap_err();
    assert!(err.contains("not in the integration scope"), "should name the out-of-scope commit: {err}");
    assert!(err.contains(&base.to_string()[..7]), "should name which commit: {err}");
}

#[test]
fn sort_commits_orders_unrelated_branches_by_time() {
    let repo = scratch_repo("unrelated-by-time");
    let base = commit_at(&repo, None, "base.txt", 1_600_000_000);
    let a1 = commit_at(&repo, Some(base), "a1.txt", 1_700_000_023);
    let a2 = commit_at(&repo, Some(a1), "a2.txt", 1_700_000_026);
    let b1 = commit_at(&repo, Some(base), "b1.txt", 1_700_000_021);
    let b2 = commit_at(&repo, Some(b1), "b2.txt", 1_700_000_028);
    let sorted = move_order(&repo, &[a1, a2, b1, b2], base).unwrap();
    let names: Vec<String> = sorted
        .iter()
        .map(|h| repo.find_commit(Oid::from_str(h).unwrap()).unwrap().summary().unwrap().unwrap().to_string())
        .collect();
    assert_eq!(names, vec!["b1.txt", "a1.txt", "a2.txt", "b2.txt"]);
}

#[test]
fn sort_commits_keeps_ancestry_over_a_skewed_date() {
    let repo = scratch_repo("skewed-date");
    let base = commit_at(&repo, None, "base.txt", 1_600_000_000);
    let x = commit_at(&repo, Some(base), "x.txt", 1_700_000_100);
    let z = commit_at(&repo, Some(x), "z.txt", 1_700_000_050);
    assert_eq!(move_order(&repo, &[z, x], base).unwrap(), vec![x.to_string(), z.to_string()]);
}

#[test]
fn sort_commits_rejects_a_single_out_of_scope_commit() {
    let repo = scratch_repo("single-out-of-scope");
    let base = commit_at(&repo, None, "base.txt", 1_600_000_000);
    commit_at(&repo, Some(base), "l1.txt", 1_700_000_000);
    let err = move_order(&repo, &[base], base).unwrap_err();
    assert!(err.contains("not in the integration scope"), "{err}");
}
