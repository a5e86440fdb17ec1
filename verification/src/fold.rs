//! `loom fold`: which fold a list of sources and a target asks for, what a
//! `-p` selection can move, the order moved commits go in, and how a failed
//! fold is undone.
use vstd::prelude::*;

use crate::git::git_apply::{apply_cached_patch, apply_patch, applies};
use crate::git::git_commit::reset_hard;
use crate::git::{captured, cuttable_hash, short_hash, short_hash_spec, GitCommand, GitFailure, LoomError};
use crate::repo::Target;
use crate::text::{contains_text, owned, push_str, views};

verus! {

/// `--above <commit>` / `--below <commit>`: the commit the sources land next to.
#[derive(Debug, Clone, PartialEq, Eq)]
pub enum Anchor {
    Above(String),
    Below(String),
}

/// The fold a command line asks for.
#[derive(Debug, Clone, PartialEq, Eq)]
pub enum FoldOp {
    /// Amend working-tree files into a commit.
    FilesIntoCommit { files: Vec<String>, commit: String },
    /// Fix a commit up into another one.
    CommitIntoCommit { source: String, target: String },
    /// Move commits to a branch.
    CommitsToBranch { commits: Vec<String>, branch: String },
    /// Uncommit a commit into the working directory.
    CommitToUnstaged { commit: String },
    /// Uncommit a single file from a commit to the working directory.
    CommitFileToUnstaged { commit: String, path: String },
    /// Move a file's changes from one commit to another.
    CommitFileToCommit { source_commit: String, path: String, target_commit: String },
}

/// Why a list of sources and a target make no fold.
#[derive(Debug, Clone, Copy, PartialEq, Eq)]
pub enum FoldError {
    BranchSource,
    CommitFileTarget,
    MixedSources,
    SeveralCommitFiles,
    CommitFileIntoBranch,
    CommitFileIntoFile,
    FilesIntoUnstaged,
    SeveralCommits,
    FilesIntoBranch,
    IntoFile,
}

pub open spec fn fold_error_text(e: FoldError) -> Seq<char> {
    match e {
        FoldError::BranchSource => "Cannot fold a branch\nUse `git loom branch` for branch operations"@,
        FoldError::CommitFileTarget => "Target must be a commit, branch, or unstaged (zz), not a commit file"@,
        FoldError::MixedSources => "Cannot mix different source types (files, commits, commit files)"@,
        FoldError::SeveralCommitFiles => "Only one commit file source is allowed"@,
        FoldError::CommitFileIntoBranch => "Cannot fold a commit file into a branch\nTarget a specific commit or use `zz` to uncommit"@,
        FoldError::CommitFileIntoFile => "Target must be a commit or unstaged (zz), not a file"@,
        FoldError::FilesIntoUnstaged => "Cannot fold files into unstaged — files are already in the working directory"@,
        FoldError::SeveralCommits => "Only one commit source is allowed"@,
        FoldError::FilesIntoBranch => "Cannot fold files into a branch\nTarget a specific commit"@,
        FoldError::IntoFile => "Target must be a commit or branch, not a file"@,
    }
}

impl FoldError {
    /// The message shown to the user.
    pub fn message(&self) -> (s: String)
        ensures
            s@ == fold_error_text(*self),
    {
        let t = match self {
            FoldError::BranchSource => "Cannot fold a branch\nUse `git loom branch` for branch operations",
            FoldError::CommitFileTarget => "Target must be a commit, branch, or unstaged (zz), not a commit file",
            FoldError::MixedSources => "Cannot mix different source types (files, commits, commit files)",
            FoldError::SeveralCommitFiles => "Only one commit file source is allowed",
            FoldError::CommitFileIntoBranch => "Cannot fold a commit file into a branch\nTarget a specific commit or use `zz` to uncommit",
            FoldError::CommitFileIntoFile => "Target must be a commit or unstaged (zz), not a file",
            FoldError::FilesIntoUnstaged => "Cannot fold files into unstaged — files are already in the working directory",
            FoldError::SeveralCommits => "Only one commit source is allowed",
            FoldError::FilesIntoBranch => "Cannot fold files into a branch\nTarget a specific commit",
            FoldError::IntoFile => "Target must be a commit or branch, not a file",
        };
        t.to_owned()
    }
}

pub open spec fn some_branch(s: Seq<Target>) -> bool {
    exists|i: int| 0 <= i < s.len() && s[i] is Branch
}

pub open spec fn some_file(s: Seq<Target>) -> bool {
    exists|i: int| 0 <= i < s.len() && s[i] is File
}

pub open spec fn some_commit(s: Seq<Target>) -> bool {
    exists|i: int| 0 <= i < s.len() && s[i] is Commit
}

pub open spec fn some_commit_file(s: Seq<Target>) -> bool {
    exists|i: int| 0 <= i < s.len() && s[i] is CommitFile
}

/// More than one kind of source among files, commits and commit files.
pub open spec fn mixed(s: Seq<Target>) -> bool {
    (some_file(s) && some_commit(s)) || (some_file(s) && some_commit_file(s)) || (some_commit(s)
        && some_commit_file(s))
}

/// The path of each file source.
pub open spec fn file_paths(s: Seq<Target>) -> Seq<String> {
    s.map_values(|t: Target| t->File_0)
}

/// The hash of each commit source.
pub open spec fn commit_hashes(s: Seq<Target>) -> Seq<String> {
    s.map_values(|t: Target| t->Commit_0)
}

/// What `classify` answers for `sources` into `target`, case by case: the
/// refusals first, in the order they are checked, then the fold the kinds
/// of the sources and the target make together.
pub open spec fn fold_for(sources: Seq<Target>, target: Target) -> Result<FoldOpKind, FoldError> {
    if some_branch(sources) {
        Err(FoldError::BranchSource)
    } else if target is CommitFile {
        Err(FoldError::CommitFileTarget)
    } else if mixed(sources) {
        Err(FoldError::MixedSources)
    } else if some_commit_file(sources) {
        if sources.len() > 1 {
            Err(FoldError::SeveralCommitFiles)
        } else {
            match target {
                Target::Unstaged => Ok(FoldOpKind::CommitFileToUnstaged),
                Target::Commit(_) => Ok(FoldOpKind::CommitFileToCommit),
                Target::Branch(_) => Err(FoldError::CommitFileIntoBranch),
                _ => Err(FoldError::CommitFileIntoFile),
            }
        }
    } else if target is Unstaged {
        if some_file(sources) {
            Err(FoldError::FilesIntoUnstaged)
        } else if sources.len() > 1 {
            Err(FoldError::SeveralCommits)
        } else {
            Ok(FoldOpKind::CommitToUnstaged)
        }
    } else if some_file(sources) {
        match target {
            Target::Commit(_) => Ok(FoldOpKind::FilesIntoCommit),
            Target::Branch(_) => Err(FoldError::FilesIntoBranch),
            _ => Err(FoldError::IntoFile),
        }
    } else {
        match target {
            Target::Commit(_) => if sources.len() > 1 {
                Err(FoldError::SeveralCommits)
            } else {
                Ok(FoldOpKind::CommitIntoCommit)
            },
            Target::Branch(_) => Ok(FoldOpKind::CommitsToBranch),
            _ => Err(FoldError::IntoFile),
        }
    }
}

/// The kind of a [`FoldOp`], without its data.
#[derive(Debug, Clone, Copy, PartialEq, Eq)]
pub enum FoldOpKind {
    FilesIntoCommit,
    CommitIntoCommit,
    CommitsToBranch,
    CommitToUnstaged,
    CommitFileToUnstaged,
    CommitFileToCommit,
}

/// `op` is the fold of kind `kind` that carries the sources and the target.
pub open spec fn fold_op_carries(op: FoldOp, kind: FoldOpKind, sources: Seq<Target>, target: Target) -> bool {
    match kind {
        FoldOpKind::FilesIntoCommit => op matches FoldOp::FilesIntoCommit { files, commit }
            && files@ == file_paths(sources) && commit == target->Commit_0,
        FoldOpKind::CommitIntoCommit => op matches FoldOp::CommitIntoCommit { source, target: t }
            && source == sources[0]->Commit_0 && t == target->Commit_0,
        FoldOpKind::CommitsToBranch => op matches FoldOp::CommitsToBranch { commits, branch }
            && commits@ == commit_hashes(sources) && branch == target->Branch_0,
        FoldOpKind::CommitToUnstaged => op matches FoldOp::CommitToUnstaged { commit }
            && commit == sources[0]->Commit_0,
        FoldOpKind::CommitFileToUnstaged => op matches FoldOp::CommitFileToUnstaged { commit, path }
            && commit == sources[0]->CommitFile_commit && path == sources[0]->CommitFile_path,
        FoldOpKind::CommitFileToCommit => op matches FoldOp::CommitFileToCommit {
            source_commit,
            path,
            target_commit,
        } && source_commit == sources[0]->CommitFile_commit && path
            == sources[0]->CommitFile_path && target_commit == target->Commit_0,
    }
}

fn check_sources(sources: &[Target]) -> (r: (bool, bool, bool, bool))
    ensures
        r.0 == some_branch(sources@),
        r.1 == some_file(sources@),
        r.2 == some_commit(sources@),
        r.3 == some_commit_file(sources@),
{
    let mut branch = false;
    let mut file = false;
    let mut commit = false;
    let mut commit_file = false;
    let mut i: usize = 0;
    while i < sources.len()
        invariant
            i <= sources@.len(),
            branch == exists|k: int| 0 <= k < i && sources@[k] is Branch,
            file == exists|k: int| 0 <= k < i && sources@[k] is File,
            commit == exists|k: int| 0 <= k < i && sources@[k] is Commit,
            commit_file == exists|k: int| 0 <= k < i && sources@[k] is CommitFile,
        decreases sources.len() - i,
    {
        match &sources[i] {
            Target::Branch(_) => branch = true,
            Target::File(_) => file = true,
            Target::Commit(_) => commit = true,
            Target::CommitFile { .. } => commit_file = true,
            Target::Unstaged => {},
        }
        i = i + 1;
    }
    (branch, file, commit, commit_file)
}

/// Decide which fold `sources` into `target` is, or why it is none.
///
/// The sources are what the command line resolved before the target: never
/// the working directory itself (`zz` is expanded into its files first), and
/// never none.
pub fn classify(sources: &[Target], target: &Target) -> (r: Result<FoldOp, FoldError>)
    requires
        sources@.len() > 0,
        forall|i: int| 0 <= i < sources@.len() ==> !(sources@[i] is Unstaged),
    ensures
        match fold_for(sources@, *target) {
            Ok(kind) => r matches Ok(op) && fold_op_carries(op, kind, sources@, *target),
            Err(e) => r == Err::<FoldOp, FoldError>(e),
        },
{
    let (has_branch, has_files, has_commits, has_commit_files) = check_sources(sources);
    if has_branch {
        return Err(FoldError::BranchSource);
    }
    if matches!(target, Target::CommitFile { .. }) {
        return Err(FoldError::CommitFileTarget);
    }
    if (has_files && has_commits) || (has_files && has_commit_files) || (has_commits
        && has_commit_files) {
        return Err(FoldError::MixedSources);
    }
    if has_commit_files {
        if sources.len() > 1 {
            return Err(FoldError::SeveralCommitFiles);
        }
        proof {
            assert(sources@[0] is CommitFile) by {
                let k = choose|k: int| 0 <= k < sources@.len() && sources@[k] is CommitFile;
                assert(k == 0);
            }
        }
        let (commit, path) = match &sources[0] {
            Target::CommitFile { commit, path } => (commit.clone(), path.clone()),
            _ => {
                proof {
                    assert(false);
                }
                return Err(FoldError::SeveralCommitFiles);
            },
        };
        return match target {
            Target::Unstaged => Ok(FoldOp::CommitFileToUnstaged { commit, path }),
            Target::Commit(hash) => Ok(
                FoldOp::CommitFileToCommit { source_commit: commit, path, target_commit: hash.clone() },
            ),
            Target::Branch(_) => Err(FoldError::CommitFileIntoBranch),
            _ => Err(FoldError::CommitFileIntoFile),
        };
    }
    // Every source is now a file or every source is a commit.
    proof {
        assert(forall|k: int| 0 <= k < sources@.len() ==> (sources@[k] is File || sources@[k] is Commit));
        assert(has_files ==> forall|k: int| 0 <= k < sources@.len() ==> sources@[k] is File);
        assert(!has_files ==> forall|k: int| 0 <= k < sources@.len() ==> sources@[k] is Commit);
    }
    if matches!(target, Target::Unstaged) {
        if has_files {
            return Err(FoldError::FilesIntoUnstaged);
        }
        if sources.len() > 1 {
            return Err(FoldError::SeveralCommits);
        }
        let source_hash = match &sources[0] {
            Target::Commit(hash) => hash.clone(),
            _ => {
                proof {
                    assert(false);
                }
                return Err(FoldError::SeveralCommits);
            },
        };
        return Ok(FoldOp::CommitToUnstaged { commit: source_hash });
    }
    if has_files {
        match target {
            Target::Commit(hash) => {
                let mut files: Vec<String> = Vec::new();
                let mut i: usize = 0;
                while i < sources.len()
                    invariant
                        i <= sources@.len(),
                        forall|k: int| 0 <= k < sources@.len() ==> sources@[k] is File,
                        files@ == file_paths(sources@).take(i as int),
                    decreases sources.len() - i,
                {
                    match &sources[i] {
                        Target::File(path) => files.push(path.clone()),
                        _ => {
                            proof {
                                assert(false);
                            }
                        },
                    }
                    proof {
                        assert(file_paths(sources@).take(i + 1) =~= file_paths(sources@).take(
                            i as int,
                        ).push(sources@[i as int]->File_0));
                    }
                    i = i + 1;
                }
                proof {
                    assert(file_paths(sources@).take(sources@.len() as int) =~= file_paths(sources@));
                }
                Ok(FoldOp::FilesIntoCommit { files, commit: hash.clone() })
            },
            Target::Branch(_) => Err(FoldError::FilesIntoBranch),
            _ => Err(FoldError::IntoFile),
        }
    } else {
        match target {
            Target::Commit(hash) => {
                if sources.len() > 1 {
                    return Err(FoldError::SeveralCommits);
                }
                let source = match &sources[0] {
                    Target::Commit(h) => h.clone(),
                    _ => {
                        proof {
                            assert(false);
                        }
                        return Err(FoldError::SeveralCommits);
                    },
                };
                Ok(FoldOp::CommitIntoCommit { source, target: hash.clone() })
            },
            Target::Branch(name) => {
                let mut commits: Vec<String> = Vec::new();
                let mut i: usize = 0;
                while i < sources.len()
                    invariant
                        i <= sources@.len(),
                        forall|k: int| 0 <= k < sources@.len() ==> sources@[k] is Commit,
                        commits@ == commit_hashes(sources@).take(i as int),
                    decreases sources.len() - i,
                {
                    match &sources[i] {
                        Target::Commit(h) => commits.push(h.clone()),
                        _ => {
                            proof {
                                assert(false);
                            }
                        },
                    }
                    proof {
                        assert(commit_hashes(sources@).take(i + 1) =~= commit_hashes(sources@).take(
                            i as int,
                        ).push(sources@[i as int]->Commit_0));
                    }
                    i = i + 1;
                }
                proof {
                    assert(commit_hashes(sources@).take(sources@.len() as int) =~= commit_hashes(
                        sources@,
                    ));
                }
                Ok(FoldOp::CommitsToBranch { commits, branch: name.clone() })
            },
            _ => Err(FoldError::IntoFile),
        }
    }
}

} // verus!

verus! {

pub open spec fn usage_text() -> Seq<char> {
    "At least one argument required\nUsage: git-loom fold [<source>...] <target>"@
}

pub open spec fn no_git_args_text(what: Seq<char>) -> Seq<char> {
    what + " runs no `git commit`, so it takes no arguments after `--`"@
}

/// A fold that only rebases runs no `git commit`, so a forwarded argument
/// has nothing to reach. `what` names the operation.
pub fn no_git_args(git_opts: &[String], what: &str) -> (r: Result<(), LoomError>)
    ensures
        git_opts@.len() == 0 ==> r is Ok,
        git_opts@.len() > 0 ==> (r matches Err(e) && e.message@ == no_git_args_text(what@)),
{
    if git_opts.len() == 0 {
        return Ok(());
    }
    let mut m = owned(what);
    push_str(&mut m, " runs no `git commit`, so it takes no arguments after `--`");
    Err(LoomError::new(m))
}

/// Which kind of fold a command line asks for, before its arguments are
/// resolved.
pub enum FoldRoute {
    /// `--above`/`--below`: move the sources next to a commit.
    Relative { anchor: Anchor, args: Vec<String> },
    /// `--create`: move the sources into a new branch.
    Create { args: Vec<String> },
    /// `--patch`: fold hunks picked from the sources.
    Patch { args: Vec<String> },
    /// A single argument: fold what is staged into it.
    Staged { target: String },
    /// Sources, then the target. `all_changes` when a source is `zz`, which
    /// stands for every changed file and takes precedence over the rest.
    Sources { sources: Vec<String>, target: String, all_changes: bool },
}

/// Route a `fold` command line: `--above`/`--below` first, then
/// `--create`, then `--patch`; otherwise one argument folds what is staged,
/// and more name sources followed by the target. The routes that only
/// rebase refuse arguments forwarded after `--`.
pub fn run(create: bool, patch: bool, anchor: Option<Anchor>, args: Vec<String>, git_args: &[String]) -> (r:
    Result<FoldRoute, LoomError>)
    ensures
        args@.len() == 0 ==> (r matches Err(e) && e.message@ == usage_text()),
        args@.len() > 0 && anchor is Some ==> if git_args@.len() > 0 {
            r matches Err(e) && e.message@ == no_git_args_text("moving commits next to another"@)
        } else {
            r matches Ok(FoldRoute::Relative { anchor: a, args: v }) && Some(a) == anchor && v == args
        },
        args@.len() > 0 && anchor is None && create ==> if git_args@.len() > 0 {
            r matches Err(e) && e.message@ == no_git_args_text("moving commits to a new branch"@)
        } else {
            r matches Ok(FoldRoute::Create { args: v }) && v == args
        },
        args@.len() > 0 && anchor is None && !create && patch ==> (r matches Ok(FoldRoute::Patch { args: v }) && v == args),
        args@.len() == 1 && anchor is None && !create && !patch ==> (r matches Ok(FoldRoute::Staged { target: t }) && t == args@[0]),
        args@.len() > 1 && anchor is None && !create && !patch ==> (r matches Ok(FoldRoute::Sources { sources, target, all_changes })
            && sources@ == args@.drop_last() && target == args@.last()
            && all_changes == views(args@.drop_last()).contains("zz"@)),
{
    if args.len() == 0 {
        return Err(LoomError::new(owned("At least one argument required\nUsage: git-loom fold [<source>...] <target>")));
    }
    match anchor {
        Some(a) => {
            no_git_args(git_args, "moving commits next to another")?;
            return Ok(FoldRoute::Relative { anchor: a, args });
        },
        None => {},
    }
    if create {
        no_git_args(git_args, "moving commits to a new branch")?;
        return Ok(FoldRoute::Create { args });
    }
    if patch {
        return Ok(FoldRoute::Patch { args });
    }
    if args.len() == 1 {
        let t = args[0].clone();
        return Ok(FoldRoute::Staged { target: t });
    }
    let mut sources = args;
    let target = sources.pop().unwrap();
    let zz = owned("zz");
    let all_changes = contains_text(sources.as_slice(), &zz);
    Ok(FoldRoute::Sources { sources, target, all_changes })
}

pub open spec fn clean_tree_text() -> Seq<char> {
    "No changes to fold — working tree is clean"@
}

/// The sources `zz` stands for: every changed file, and a clean tree has
/// nothing to fold.
pub fn all_changed_files(files: Vec<String>) -> (r: Result<Vec<String>, LoomError>)
    ensures
        files@.len() == 0 ==> (r matches Err(e) && e.message@ == clean_tree_text()),
        files@.len() > 0 ==> r == Ok::<Vec<String>, LoomError>(files),
{
    if files.len() == 0 {
        return Err(LoomError::new(owned("No changes to fold — working tree is clean")));
    }
    Ok(files)
}

/// Refuse arguments forwarded after `--` to a fold that runs no `git
/// commit` of its own: fixing a commit up into another, moving commits to
/// a branch, and uncommitting a commit.
pub fn check_git_args(op: &FoldOp, git_args: &[String]) -> (r: Result<(), LoomError>)
    ensures
        match op {
            FoldOp::CommitIntoCommit { .. } => if git_args@.len() > 0 {
                r matches Err(e) && e.message@ == no_git_args_text("folding a commit into another"@)
            } else {
                r is Ok
            },
            FoldOp::CommitsToBranch { .. } => if git_args@.len() > 0 {
                r matches Err(e) && e.message@ == no_git_args_text("moving commits to a branch"@)
            } else {
                r is Ok
            },
            FoldOp::CommitToUnstaged { .. } => if git_args@.len() > 0 {
                r matches Err(e) && e.message@ == no_git_args_text("uncommitting a commit"@)
            } else {
                r is Ok
            },
            _ => r is Ok,
        },
{
    match op {
        FoldOp::CommitIntoCommit { .. } => no_git_args(git_args, "folding a commit into another"),
        FoldOp::CommitsToBranch { .. } => no_git_args(git_args, "moving commits to a branch"),
        FoldOp::CommitToUnstaged { .. } => no_git_args(git_args, "uncommitting a commit"),
        _ => Ok(()),
    }
}

} // verus!

verus! {

/// One hunk of a file in a `-p` selection: whether it was selected, and
/// whether it is text (a submodule or a deletion is shown as a whole-file
/// label instead, which no hunk patch can carry).
#[derive(Debug, Clone, Copy, PartialEq, Eq, Structural)]
pub struct PickedHunk {
    pub selected: bool,
    pub text: bool,
}

/// A file of a `-p` selection: its path, its status in the commit it was
/// picked from, and its hunks.
pub struct FileEntry {
    pub path: String,
    pub index_status: char,
    pub hunks: Vec<PickedHunk>,
}

/// Some hunk of the file was selected.
pub open spec fn any_selected(f: FileEntry) -> bool {
    exists|i: int| 0 <= i < f.hunks@.len() && f.hunks@[i].selected
}

/// Some selected hunk of the file is text, so it travels in the hunk patch.
pub open spec fn text_selected(f: FileEntry) -> bool {
    exists|i: int| 0 <= i < f.hunks@.len() && f.hunks@[i].selected && f.hunks@[i].text
}

/// Whether some hunk of the file was selected.
pub fn has_any_selected(f: &FileEntry) -> (r: bool)
    ensures
        r == any_selected(*f),
{
    has_selected(f, false)
}

fn has_selected(f: &FileEntry, text_only: bool) -> (r: bool)
    ensures
        !text_only ==> r == any_selected(*f),
        text_only ==> r == text_selected(*f),
{
    let mut i: usize = 0;
    while i < f.hunks.len()
        invariant
            i <= f.hunks@.len(),
            forall|k: int| 0 <= k < i ==> !(f.hunks@[k].selected && (!text_only || f.hunks@[k].text)),
        decreases f.hunks.len() - i,
    {
        let h = f.hunks[i];
        if h.selected && (!text_only || h.text) {
            return true;
        }
        i = i + 1;
    }
    false
}

/// How a whole-file pick has to be applied.
#[derive(Debug, Clone, Copy, PartialEq, Eq, Structural)]
pub enum WholeFileKind {
    /// A submodule: index only, so the 160000 entry never reaches the
    /// working tree. `removed` says whether the commit drops it.
    Gitlink { removed: bool },
    /// A file the commit deletes: working tree and index, like a hunk.
    Deletion,
}

/// A file a `-p` selection picked whole, carried by the commit's own diff of
/// it, which holds what a hunk patch cannot: a submodule's 160000 mode, or a
/// deletion's `deleted file mode`.
pub struct PickedWholeFile {
    pub path: String,
    pub diff: String,
    pub kind: WholeFileKind,
}

/// How a picked file moves whole, if it does: a file with nothing selected
/// does not move at all; a submodule of the commit (`gitlink`, whether the
/// commit removes it) moves whole, and so does a file the commit deletes.
pub fn picked_whole_kind(file: &FileEntry, gitlink: Option<bool>) -> (r: Option<WholeFileKind>)
    ensures
        !any_selected(*file) ==> r is None,
        any_selected(*file) ==> r == match gitlink {
            Some(removed) => Some(WholeFileKind::Gitlink { removed }),
            None => if file.index_status == 'D' {
                Some(WholeFileKind::Deletion)
            } else {
                None
            },
        },
{
    if !has_selected(file, false) {
        return None;
    }
    match gitlink {
        Some(removed) => Some(WholeFileKind::Gitlink { removed }),
        None => if file.index_status == 'D' {
            Some(WholeFileKind::Deletion)
        } else {
            None
        },
    }
}

/// Some whole-file pick is of `path`.
pub open spec fn whole(whole_files: Seq<PickedWholeFile>, path: Seq<char>) -> bool {
    exists|i: int| 0 <= i < whole_files.len() && whole_files[i].path@ == path
}

/// See [`whole`].
pub fn is_whole_file(whole_files: &[PickedWholeFile], path: &str) -> (r: bool)
    ensures
        r == whole(whole_files@, path@),
{
    let mut i: usize = 0;
    while i < whole_files.len()
        invariant
            i <= whole_files@.len(),
            forall|k: int| 0 <= k < i ==> whole_files@[k].path@ != path@,
        decreases whole_files.len() - i,
    {
        if crate::text::text_eq(whole_files[i].path.as_str(), path) {
            return true;
        }
        i = i + 1;
    }
    false
}

/// A picked file `-p` leaves behind: something of it was selected, but only
/// whole-file labels, and no whole-file diff carries it.
pub open spec fn left_behind(f: FileEntry, whole_files: Seq<PickedWholeFile>) -> bool {
    any_selected(f) && !text_selected(f) && !whole(whole_files, f.path@)
}

/// The paths of the files left behind, in order.
pub open spec fn unmovable(selections: Seq<FileEntry>, whole_files: Seq<PickedWholeFile>) -> Seq<
    Seq<char>,
>
    decreases selections.len(),
{
    if selections.len() == 0 {
        Seq::empty()
    } else {
        let rest = unmovable(selections.drop_last(), whole_files);
        if left_behind(selections.last(), whole_files) {
            rest.push(selections.last().path@)
        } else {
            rest
        }
    }
}

/// See [`unmovable`].
pub fn unmovable_picks(selections: &[FileEntry], whole_files: &[PickedWholeFile]) -> (r: Vec<String>)
    ensures
        views(r@) == unmovable(selections@, whole_files@),
{
    let mut r: Vec<String> = Vec::new();
    let mut i: usize = 0;
    while i < selections.len()
        invariant
            i <= selections@.len(),
            views(r@) == unmovable(selections@.take(i as int), whole_files@),
        decreases selections.len() - i,
    {
        proof {
            assert(selections@.take(i + 1).drop_last() =~= selections@.take(i as int));
        }
        let f = &selections[i];
        if has_selected(f, false) && !has_selected(f, true) && !is_whole_file(whole_files, f.path.as_str()) {
            let ghost before = views(r@);
            r.push(f.path.clone());
            proof {
                assert(views(r@) =~= before.push(f.path@));
            }
        }
        i = i + 1;
    }
    proof {
        assert(selections@.take(selections@.len() as int) =~= selections@);
    }
    r
}

pub open spec fn unmovable_text(left: Seq<Seq<char>>, destination: Seq<char>) -> Seq<char> {
    "Left behind, no hunk to move: "@ + crate::text::join(left, ", "@)
        + "\nTo move one whole, take its `<commit>:<index>` id from `loom status -f` and run `loom fold <id> "@
        + destination + "`"@
}

/// Says which files stayed put and how to move one whole instead — naming
/// where the id comes from, since a commit-file id resolves only through the
/// short-ID allocator.
pub fn unmovable_warning(left: &[String], destination: &str) -> (s: String)
    ensures
        s@ == unmovable_text(views(left@), destination@),
{
    let mut s = owned("Left behind, no hunk to move: ");
    push_str(&mut s, crate::text::join_texts(left, ", ").as_str());
    push_str(
        &mut s,
        "\nTo move one whole, take its `<commit>:<index>` id from `loom status -f` and run `loom fold <id> ",
    );
    push_str(&mut s, destination);
    push_str(&mut s, "`");
    s
}

pub open spec fn no_text_hunks_text() -> Seq<char> {
    "No text hunks selected — binary files are not supported with -p"@
}

/// The patch `fold -p` will apply (`patch`, the selected text hunks), refusing
/// a selection with nothing to move and naming any picked file left behind
/// rather than dropping it in silence.
pub fn build_movable_patch(
    patch: String,
    selections: &[FileEntry],
    whole_files: &[PickedWholeFile],
    destination: &str,
) -> (r: Result<(String, Option<String>), LoomError>)
    ensures
        patch@.len() == 0 && whole_files@.len() == 0 ==> (r matches Err(e) && e.message@
            == no_text_hunks_text()),
        !(patch@.len() == 0 && whole_files@.len() == 0) ==> (r matches Ok((p, w)) && p == patch
            && match w {
            Some(m) => unmovable(selections@, whole_files@).len() > 0 && m@ == unmovable_text(
                unmovable(selections@, whole_files@),
                destination@,
            ),
            None => unmovable(selections@, whole_files@).len() == 0,
        }),
{
    if patch.as_str().unicode_len() == 0 && whole_files.len() == 0 {
        return Err(LoomError::new(owned("No text hunks selected — binary files are not supported with -p")));
    }
    let left = unmovable_picks(selections, whole_files);
    let warning = if left.len() > 0 {
        Some(unmovable_warning(left.as_slice(), destination))
    } else {
        None
    };
    Ok((patch, warning))
}

fn copy_opts(v: &[String]) -> (r: Vec<String>)
    ensures
        r@ == v@,
{
    let mut r: Vec<String> = Vec::new();
    let mut i: usize = 0;
    while i < v.len()
        invariant
            i <= v@.len(),
            r@ == v@.take(i as int),
        decreases v.len() - i,
    {
        r.push(v[i].clone());
        proof {
            assert(r@ =~= v@.take(i + 1));
        }
        i = i + 1;
    }
    proof {
        assert(v@.take(v@.len() as int) =~= v@);
    }
    r
}

/// One step of an amend at a rebase's edit pause.
pub enum AmendStep {
    /// Run this apply.
    Apply(GitCommand),
    /// Stage this path ([`crate::git::git_commit::stage_path`], which leaves
    /// an already-staged deletion alone).
    StagePath(String),
    /// The amend itself, with these arguments forwarded, run and checked as
    /// [`crate::git::git_commit::amend_checked`] runs it.
    Amend(Vec<String>),
}

/// At a rebase edit pause: apply (or reverse-apply) a single-file patch,
/// stage the path, and amend, stopping at the first failure. A `gitlink`
/// patch goes to the index instead and its path is never staged: the
/// whole-file diff carries the 160000 mode, so `--cached` recreates or drops
/// the entry as a submodule.
pub fn apply_and_amend_path(patch: &str, path: &str, gitlink: bool, reverse: bool, git_opts: &[String]) -> (r:
    Vec<AmendStep>)
    ensures
        gitlink ==> r@.len() == 2,
        !gitlink ==> r@.len() == 3 && (r@[1] matches AmendStep::StagePath(p) && p@ == path@),
        r@[0] matches AmendStep::Apply(c) && crate::git::git_apply::applies(
            c,
            patch@,
            if gitlink {
                if reverse { seq!["--cached"@, "--reverse"@] } else { seq!["--cached"@] }
            } else {
                if reverse { seq!["--reverse"@] } else { seq![] }
            },
        ),
        r@.last() matches AmendStep::Amend(o) && o@ == git_opts@,
{
    let mut r: Vec<AmendStep> = Vec::new();
    let apply = if gitlink {
        if reverse {
            crate::git::git_apply::apply_cached_patch_reverse(patch)
        } else {
            crate::git::git_apply::apply_cached_patch(patch)
        }
    } else {
        if reverse {
            crate::git::git_apply::apply_patch_reverse(patch)
        } else {
            crate::git::git_apply::apply_patch(patch)
        }
    };
    r.push(AmendStep::Apply(apply));
    if !gitlink {
        r.push(AmendStep::StagePath(owned(path)));
    }
    r.push(AmendStep::Amend(copy_opts(git_opts)));
    r
}

/// Whether a selected file is staged by path after the amend's applies: it
/// has a selected text hunk, and no whole-file diff already carried it.
pub open spec fn staged_by_path(f: FileEntry, whole_files: Seq<PickedWholeFile>) -> bool {
    text_selected(f) && !whole(whole_files, f.path@)
}

/// The paths staged by path, in order.
pub open spec fn paths_to_stage(selections: Seq<FileEntry>, whole_files: Seq<PickedWholeFile>) -> Seq<
    Seq<char>,
>
    decreases selections.len(),
{
    if selections.len() == 0 {
        Seq::empty()
    } else {
        let rest = paths_to_stage(selections.drop_last(), whole_files);
        if staged_by_path(selections.last(), whole_files) {
            rest.push(selections.last().path@)
        } else {
            rest
        }
    }
}

/// The command moving one whole-file pick: a submodule to the index only, a
/// deletion to the working tree and the index at once.
pub open spec fn whole_file_move(c: GitCommand, w: PickedWholeFile, reverse: bool) -> bool {
    crate::git::git_apply::applies(
        c,
        w.diff@,
        match w.kind {
            WholeFileKind::Gitlink { .. } => if reverse {
                seq!["--cached"@, "--reverse"@]
            } else {
                seq!["--cached"@]
            },
            WholeFileKind::Deletion => if reverse {
                seq!["--index"@, "--reverse"@]
            } else {
                seq!["--index"@]
            },
        },
    )
}

/// At a rebase edit pause: apply (or reverse-apply) the hunk patch when it
/// holds anything, move each whole-file pick, stage the files the patch
/// touched, and amend — stopping at the first failure. A picked submodule
/// goes to the index instead of being staged by path: `git add` on one
/// stages whatever its checkout holds, not what the commit recorded.
pub fn apply_and_amend(
    selections: &[FileEntry],
    patch: &str,
    whole_files: &[PickedWholeFile],
    reverse: bool,
    git_opts: &[String],
) -> (r: Vec<AmendStep>)
    ensures
        ({
            let head = if patch@.len() > 0 { 1int } else { 0int };
            let n = whole_files@.len() as int;
            let staged = paths_to_stage(selections@, whole_files@);
            &&& r@.len() == head + n + staged.len() + 1
            &&& patch@.len() > 0 ==> (r@[0] matches AmendStep::Apply(c) && crate::git::git_apply::applies(
                c,
                patch@,
                if reverse { seq!["--reverse"@] } else { seq![] },
            ))
            &&& forall|k: int| 0 <= k < n ==> (#[trigger] r@[head + k] matches AmendStep::Apply(c) && whole_file_move(c, whole_files@[k], reverse))
            &&& forall|k: int| 0 <= k < staged.len() ==> (#[trigger] r@[head + n + k] matches AmendStep::StagePath(p) && p@ == staged[k])
            &&& r@.last() matches AmendStep::Amend(o) && o@ == git_opts@
        }),
{
    let mut r: Vec<AmendStep> = Vec::new();
    if patch.unicode_len() > 0 {
        let c = if reverse {
            crate::git::git_apply::apply_patch_reverse(patch)
        } else {
            crate::git::git_apply::apply_patch(patch)
        };
        r.push(AmendStep::Apply(c));
    }
    let ghost head = r@.len() as int;
    let mut i: usize = 0;
    while i < whole_files.len()
        invariant
            i <= whole_files@.len(),
            r@.len() == head + i,
            head == if patch@.len() > 0 { 1int } else { 0int },
            patch@.len() > 0 ==> (r@[0] matches AmendStep::Apply(c) && crate::git::git_apply::applies(
                c,
                patch@,
                if reverse { seq!["--reverse"@] } else { seq![] },
            )),
            forall|k: int| 0 <= k < i ==> (#[trigger] r@[head + k] matches AmendStep::Apply(c) && whole_file_move(c, whole_files@[k], reverse)),
        decreases whole_files.len() - i,
    {
        let w = &whole_files[i];
        let c = match w.kind {
            WholeFileKind::Gitlink { .. } => if reverse {
                crate::git::git_apply::apply_cached_patch_reverse(w.diff.as_str())
            } else {
                crate::git::git_apply::apply_cached_patch(w.diff.as_str())
            },
            WholeFileKind::Deletion => if reverse {
                crate::git::git_apply::apply_patch_with_index_reverse(w.diff.as_str())
            } else {
                crate::git::git_apply::apply_patch_with_index(w.diff.as_str())
            },
        };
        r.push(AmendStep::Apply(c));
        i = i + 1;
    }
    let ghost mid = r@.len() as int;
    let mut j: usize = 0;
    while j < selections.len()
        invariant
            j <= selections@.len(),
            mid == head + whole_files@.len(),
            head == if patch@.len() > 0 { 1int } else { 0int },
            r@.len() == mid + paths_to_stage(selections@.take(j as int), whole_files@).len(),
            patch@.len() > 0 ==> (r@[0] matches AmendStep::Apply(c) && crate::git::git_apply::applies(
                c,
                patch@,
                if reverse { seq!["--reverse"@] } else { seq![] },
            )),
            forall|k: int| 0 <= k < whole_files@.len() ==> (#[trigger] r@[head + k] matches AmendStep::Apply(c) && whole_file_move(c, whole_files@[k], reverse)),
            forall|k: int| 0 <= k < paths_to_stage(selections@.take(j as int), whole_files@).len() ==> (#[trigger] r@[mid + k] matches AmendStep::StagePath(p) && p@ == paths_to_stage(selections@.take(j as int), whole_files@)[k]),
        decreases selections.len() - j,
    {
        proof {
            assert(selections@.take(j + 1).drop_last() =~= selections@.take(j as int));
        }
        let f = &selections[j];
        if has_selected(f, true) && !is_whole_file(whole_files, f.path.as_str()) {
            r.push(AmendStep::StagePath(f.path.clone()));
        }
        j = j + 1;
    }
    proof {
        assert(selections@.take(selections@.len() as int) =~= selections@);
    }
    r.push(AmendStep::Amend(copy_opts(git_opts)));
    r
}

/// The patches that put a selection back in the working tree, unstaged, in
/// order: the hunk patch when it holds anything, then each picked deletion's
/// own diff, which removes the file over the index entry the amend restored.
pub open spec fn worktree_restores(patch: Seq<char>, whole_files: Seq<PickedWholeFile>) -> Seq<Seq<char>>
    decreases whole_files.len(),
{
    if whole_files.len() == 0 {
        if patch.len() > 0 { seq![patch] } else { Seq::empty() }
    } else {
        let rest = worktree_restores(patch, whole_files.drop_last());
        if whole_files.last().kind == WholeFileKind::Deletion {
            rest.push(whole_files.last().diff@)
        } else {
            rest
        }
    }
}

/// See [`worktree_restores`]: each goes through
/// [`crate::git::git_apply::apply_patch_to_worktree`], the first failure
/// ending the restore.
pub fn restore_to_worktree(patch: &str, whole_files: &[PickedWholeFile]) -> (r: Vec<String>)
    ensures
        views(r@) == worktree_restores(patch@, whole_files@),
{
    let mut r: Vec<String> = Vec::new();
    if patch.unicode_len() > 0 {
        r.push(owned(patch));
    }
    proof {
        assert(whole_files@.take(0) =~= Seq::<PickedWholeFile>::empty());
        if patch@.len() > 0 {
            assert(views(r@) =~= seq![patch@]);
        } else {
            assert(views(r@) =~= Seq::<Seq<char>>::empty());
        }
    }
    let mut i: usize = 0;
    while i < whole_files.len()
        invariant
            i <= whole_files@.len(),
            views(r@) == worktree_restores(patch@, whole_files@.take(i as int)),
        decreases whole_files.len() - i,
    {
        proof {
            assert(whole_files@.take(i + 1).drop_last() =~= whole_files@.take(i as int));
        }
        let w = &whole_files[i];
        if w.kind == WholeFileKind::Deletion {
            let ghost before = views(r@);
            r.push(w.diff.clone());
            proof {
                assert(views(r@) =~= before.push(w.diff@));
            }
        }
        i = i + 1;
    }
    proof {
        assert(whole_files@.take(whole_files@.len() as int) =~= whole_files@);
    }
    r
}

} // verus!

verus! {

/// Each hash once, in the order first given.
pub open spec fn first_occurrences(s: Seq<Seq<char>>) -> Seq<Seq<char>>
    decreases s.len(),
{
    if s.len() == 0 {
        s
    } else {
        let r = first_occurrences(s.drop_last());
        if r.contains(s.last()) {
            r
        } else {
            r.push(s.last())
        }
    }
}

/// The wanted commits in the order a walk meets them, each once: newest
/// first, as a topological walk yields them.
pub open spec fn met(walk: Seq<Seq<char>>, wanted: Seq<Seq<char>>) -> Seq<Seq<char>>
    decreases walk.len(),
{
    if walk.len() == 0 {
        Seq::empty()
    } else {
        let r = met(walk.drop_last(), wanted);
        let o = walk.last();
        if wanted.contains(o) && !r.contains(o) {
            r.push(o)
        } else {
            r
        }
    }
}

/// The first wanted commit, in order, that `got` lacks.
pub open spec fn first_missing(wanted: Seq<Seq<char>>, got: Seq<Seq<char>>) -> Option<Seq<char>>
    decreases wanted.len(),
{
    if wanted.len() == 0 {
        None
    } else if !got.contains(wanted[0]) {
        Some(wanted[0])
    } else {
        first_missing(wanted.drop_first(), got)
    }
}

/// The commits of a move, oldest first: the given hashes, each once, in
/// the reverse of the order the walk meets them.
pub open spec fn move_order(hashes: Seq<Seq<char>>, walk: Seq<Seq<char>>) -> Seq<Seq<char>> {
    met(walk, first_occurrences(hashes)).reverse()
}

/// What a move answers for a commit at or below the integration base.
pub open spec fn out_of_scope_text(hash: Seq<char>) -> Seq<char> {
    "Commit `"@ + short_hash_spec(hash)
        + "` is not in the integration scope\nOnly commits above the integration base can be moved"@
}

proof fn lemma_first_occurrences(s: Seq<Seq<char>>, x: Seq<char>)
    ensures
        first_occurrences(s).contains(x) <==> s.contains(x),
    decreases s.len(),
{
    if s.len() > 0 {
        let d = s.drop_last();
        lemma_first_occurrences(d, x);
        let r = first_occurrences(d);
        let f = first_occurrences(s);
        if s.contains(x) {
            let j = choose|j: int| 0 <= j < s.len() && s[j] == x;
            if j < s.len() - 1 {
                assert(d[j] == x);
                assert(d.contains(x));
                let k = choose|k: int| 0 <= k < r.len() && r[k] == x;
                assert(f[k] == x);
            } else if !r.contains(x) {
                assert(f[r.len() as int] == x);
            } else {
                let k = choose|k: int| 0 <= k < r.len() && r[k] == x;
                assert(f[k] == x);
            }
        }
        if f.contains(x) {
            let j = choose|j: int| 0 <= j < f.len() && f[j] == x;
            if j < r.len() {
                assert(r[j] == x);
                assert(r.contains(x));
                let k = choose|k: int| 0 <= k < d.len() && d[k] == x;
                assert(s[k] == x);
            } else {
                assert(s[s.len() - 1] == x);
            }
        }
    }
}

proof fn lemma_met(walk: Seq<Seq<char>>, wanted: Seq<Seq<char>>)
    ensures
        met(walk, wanted).no_duplicates(),
        forall|x: Seq<char>| #[trigger] met(walk, wanted).contains(x) ==> wanted.contains(x),
    decreases walk.len(),
{
    if walk.len() > 0 {
        lemma_met(walk.drop_last(), wanted);
        let r = met(walk.drop_last(), wanted);
        assert forall|x: Seq<char>| #[trigger] met(walk, wanted).contains(x) implies wanted.contains(x) by {
            let m = met(walk, wanted);
            let j = choose|j: int| 0 <= j < m.len() && m[j] == x;
            if j < r.len() {
                assert(r[j] == x);
                assert(r.contains(x));
            }
        }
    }
}

proof fn lemma_met_membership(walk: Seq<Seq<char>>, w1: Seq<Seq<char>>, w2: Seq<Seq<char>>)
    requires
        forall|x: Seq<char>| w1.contains(x) <==> w2.contains(x),
    ensures
        met(walk, w1) == met(walk, w2),
    decreases walk.len(),
{
    if walk.len() > 0 {
        lemma_met_membership(walk.drop_last(), w1, w2);
        assert(w1.contains(walk.last()) == w2.contains(walk.last()));
    }
}

proof fn lemma_met_from_walk(walk: Seq<Seq<char>>, wanted: Seq<Seq<char>>)
    ensures
        forall|x: Seq<char>| #[trigger] met(walk, wanted).contains(x) ==> walk.contains(x),
    decreases walk.len(),
{
    if walk.len() > 0 {
        let d = walk.drop_last();
        lemma_met_from_walk(d, wanted);
        let r = met(d, wanted);
        assert forall|x: Seq<char>| #[trigger] met(walk, wanted).contains(x) implies walk.contains(x) by {
            let m = met(walk, wanted);
            let j = choose|j: int| 0 <= j < m.len() && m[j] == x;
            if j < r.len() {
                assert(r[j] == x);
                assert(r.contains(x));
                let k = choose|k: int| 0 <= k < d.len() && d[k] == x;
                assert(walk[k] == x);
            } else {
                assert(walk[walk.len() - 1] == x);
            }
        }
    }
}

/// Whether no commit of `walk` is an ancestor (by `ancestor`) of one met
/// after it, as a newest-first topological walk guarantees.
pub open spec fn newest_first(walk: Seq<Seq<char>>, ancestor: spec_fn(Seq<char>, Seq<char>) -> bool) -> bool {
    forall|p: int, q: int| 0 <= p < q < walk.len() ==> !ancestor(#[trigger] walk[p], #[trigger] walk[q])
}

proof fn lemma_met_newest_first(walk: Seq<Seq<char>>, wanted: Seq<Seq<char>>, ancestor: spec_fn(Seq<char>, Seq<char>) -> bool)
    requires
        newest_first(walk, ancestor),
    ensures
        newest_first(met(walk, wanted), ancestor),
    decreases walk.len(),
{
    if walk.len() > 0 {
        let d = walk.drop_last();
        assert(newest_first(d, ancestor)) by {
            assert forall|p: int, q: int| 0 <= p < q < d.len() implies !ancestor(#[trigger] d[p], #[trigger] d[q]) by {
                assert(d[p] == walk[p] && d[q] == walk[q]);
            }
        }
        lemma_met_newest_first(d, wanted, ancestor);
        lemma_met_from_walk(d, wanted);
        let r = met(d, wanted);
        let m = met(walk, wanted);
        let o = walk.last();
        assert forall|p: int, q: int| 0 <= p < q < m.len() implies !ancestor(#[trigger] m[p], #[trigger] m[q]) by {
            if q < r.len() {
                assert(m[p] == r[p] && m[q] == r[q]);
            } else {
                assert(m[q] == o);
                assert(m[p] == r[p]);
                assert(r.contains(r[p]));
                let k = choose|k: int| 0 <= k < d.len() && d[k] == r[p];
                assert(walk[k] == m[p] && walk[walk.len() - 1] == o);
            }
        }
    }
}

/// The commits a move takes, and their order, do not depend on the order in
/// which they were named, nor on names given twice.
pub proof fn move_order_ignores_naming_order(h1: Seq<Seq<char>>, h2: Seq<Seq<char>>, walk: Seq<Seq<char>>)
    requires
        forall|x: Seq<char>| h1.contains(x) <==> h2.contains(x),
    ensures
        move_order(h1, walk) == move_order(h2, walk),
{
    assert forall|x: Seq<char>| first_occurrences(h1).contains(x) <==> first_occurrences(h2).contains(x) by {
        lemma_first_occurrences(h1, x);
        lemma_first_occurrences(h2, x);
    }
    lemma_met_membership(walk, first_occurrences(h1), first_occurrences(h2));
}

/// Given a newest-first topological walk, a move takes every commit after
/// its ancestors: no commit of the move is an ancestor of one before it.
pub proof fn move_order_puts_ancestors_first(hashes: Seq<Seq<char>>, walk: Seq<Seq<char>>, ancestor: spec_fn(Seq<char>, Seq<char>) -> bool)
    requires
        newest_first(walk, ancestor),
    ensures
        forall|a: int, b: int| 0 <= a < b < move_order(hashes, walk).len() ==> !ancestor(
            #[trigger] move_order(hashes, walk)[b],
            #[trigger] move_order(hashes, walk)[a],
        ),
{
    let m = met(walk, first_occurrences(hashes));
    lemma_met_newest_first(walk, first_occurrences(hashes), ancestor);
    let v = move_order(hashes, walk);
    assert forall|a: int, b: int| 0 <= a < b < v.len() implies !ancestor(#[trigger] v[b], #[trigger] v[a]) by {
        let n = m.len() as int;
        assert(v[a] == m[n - 1 - a] && v[b] == m[n - 1 - b]);
    }
}

proof fn lemma_first_missing(wanted: Seq<Seq<char>>, got: Seq<Seq<char>>)
    ensures
        first_missing(wanted, got) is None ==> forall|x: Seq<char>| wanted.contains(x) ==> #[trigger] got.contains(x),
        first_missing(wanted, got) matches Some(h) ==> wanted.contains(h),
    decreases wanted.len(),
{
    if wanted.len() > 0 {
        lemma_first_missing(wanted.drop_first(), got);
        if first_missing(wanted, got) is None {
            assert forall|x: Seq<char>| wanted.contains(x) implies #[trigger] got.contains(x) by {
                let j = choose|j: int| 0 <= j < wanted.len() && wanted[j] == x;
                if j > 0 {
                    assert(wanted.drop_first()[j - 1] == x);
                }
            }
        }
        if let Some(h) = first_missing(wanted, got) {
            if got.contains(wanted[0]) {
                let j = choose|j: int| 0 <= j < wanted.drop_first().len() && wanted.drop_first()[j] == h;
                assert(wanted[j + 1] == h);
            }
        }
    }
}

fn first_occurrences_of(hashes: &[String]) -> (r: Vec<String>)
    ensures
        views(r@) == first_occurrences(views(hashes@)),
{
    let mut r: Vec<String> = Vec::new();
    let mut i: usize = 0;
    while i < hashes.len()
        invariant
            i <= hashes@.len(),
            views(r@) == first_occurrences(views(hashes@).take(i as int)),
        decreases hashes.len() - i,
    {
        proof {
            assert(views(hashes@).take(i + 1).drop_last() =~= views(hashes@).take(i as int));
        }
        if !contains_text(&r, &hashes[i]) {
            let ghost before = views(r@);
            r.push(hashes[i].clone());
            proof {
                assert(views(r@) =~= before.push(hashes@[i as int]@));
            }
        }
        i = i + 1;
    }
    proof {
        assert(views(hashes@).take(hashes@.len() as int) =~= views(hashes@));
    }
    r
}

/// `oids` oldest first: the reverse of the order the topological `walk`
/// (newest first, stopped at the base) meets them. An oid the walk never
/// meets — one the base hid — is left out.
pub fn ordered_topologically(oids: &[String], walk: &[String]) -> (r: Vec<String>)
    ensures
        views(r@) == met(views(walk@), views(oids@)).reverse(),
{
    let mut newest: Vec<String> = Vec::new();
    let mut i: usize = 0;
    while i < walk.len()
        invariant
            i <= walk@.len(),
            views(newest@) == met(views(walk@).take(i as int), views(oids@)),
        decreases walk.len() - i,
    {
        proof {
            assert(views(walk@).take(i + 1).drop_last() =~= views(walk@).take(i as int));
        }
        if contains_text(oids, &walk[i]) && !contains_text(&newest, &walk[i]) {
            let ghost before = views(newest@);
            newest.push(walk[i].clone());
            proof {
                assert(views(newest@) =~= before.push(walk@[i as int]@));
            }
        }
        i = i + 1;
    }
    proof {
        assert(views(walk@).take(walk@.len() as int) =~= views(walk@));
    }
    let n: usize = newest.len();
    let mut r: Vec<String> = Vec::new();
    let mut k: usize = 0;
    while k < n
        invariant
            n == newest@.len(),
            k <= n,
            r@.len() == k,
            forall|j: int| 0 <= j < k ==> #[trigger] r@[j]@ == newest@[n - 1 - j]@,
        decreases n - k,
    {
        r.push(newest[n - 1 - k].clone());
        k = k + 1;
    }
    proof {
        let m = met(views(walk@), views(oids@));
        if n > 0 {
            assert(views(r@) =~= m.reverse());
        } else {
            assert(views(r@) =~= m.reverse());
        }
    }
    r
}

fn first_missing_in(wanted: &[String], got: &[String]) -> (r: Option<usize>)
    ensures
        match r {
            Some(i) => i < wanted@.len() && first_missing(views(wanted@), views(got@)) == Some(wanted@[i as int]@),
            None => first_missing(views(wanted@), views(got@)) is None,
        },
{
    let ghost w = views(wanted@);
    let ghost g = views(got@);
    proof {
        assert(w.skip(0) =~= w);
    }
    let mut i: usize = 0;
    while i < wanted.len()
        invariant
            i <= wanted@.len(),
            w == views(wanted@),
            g == views(got@),
            first_missing(w, g) == first_missing(w.skip(i as int), g),
        decreases wanted.len() - i,
    {
        proof {
            assert(w.skip(i as int)[0] == wanted@[i as int]@);
            assert(w.skip(i as int).drop_first() =~= w.skip(i + 1));
        }
        if !contains_text(got, &wanted[i]) {
            return Some(i);
        }
        i = i + 1;
    }
    proof {
        assert(w.skip(i as int).len() == 0);
    }
    None
}

/// The commits a move relocates ([`move_order`]): each given hash once,
/// oldest first as the topological `walk` (newest first, stopped at the
/// integration base) orders them; refused, naming the first such hash, when
/// the walk never meets one — it sits at or below the base.
pub fn commits_to_move(hashes: &[String], walk: &[String]) -> (r: Result<Vec<String>, LoomError>)
    requires
        forall|i: int| 0 <= i < hashes@.len() ==> cuttable_hash(#[trigger] hashes@[i]@),
    ensures
        match first_missing(first_occurrences(views(hashes@)), move_order(views(hashes@), views(walk@))) {
            Some(h) => r matches Err(e) && e.message@ == out_of_scope_text(h) && e.replayed_empty is None
                && !e.not_started,
            None => r matches Ok(v) && views(v@) == move_order(views(hashes@), views(walk@)),
        },
        r matches Ok(v) ==> views(v@).no_duplicates(),
        r matches Ok(v) ==> forall|x: Seq<char>| #[trigger] views(v@).contains(x) <==> views(hashes@).contains(x),
{
    let wanted = first_occurrences_of(hashes);
    let ordered = ordered_topologically(&wanted, walk);
    let ghost hs = views(hashes@);
    let ghost w = first_occurrences(hs);
    let ghost m = met(views(walk@), w);
    match first_missing_in(&wanted, &ordered) {
        Some(i) => {
            proof {
                lemma_first_occurrences(hs, w[i as int]);
                assert(w.contains(w[i as int]));
                let j = choose|j: int| 0 <= j < hs.len() && hs[j] == w[i as int];
                assert(hashes@[j]@ == wanted@[i as int]@);
            }
            let mut m = owned("Commit `");
            push_str(&mut m, short_hash(wanted[i].as_str()).as_str());
            push_str(&mut m, "` is not in the integration scope\nOnly commits above the integration base can be moved");
            Err(LoomError::new(m))
        },
        None => {
            proof {
                lemma_met(views(walk@), w);
                lemma_first_missing(w, m.reverse());
                assert forall|x: Seq<char>| #[trigger] m.reverse().contains(x) <==> hs.contains(x) by {
                    lemma_first_occurrences(hs, x);
                    if m.reverse().contains(x) {
                        let j = choose|j: int| 0 <= j < m.reverse().len() && m.reverse()[j] == x;
                        assert(m[m.len() - 1 - j] == x);
                        assert(m.contains(x));
                    }
                }
                assert forall|a: int, b: int| 0 <= a < b < m.reverse().len() implies m.reverse()[a] != m.reverse()[b] by {
                    assert(m.reverse()[a] == m[m.len() - 1 - a]);
                    assert(m.reverse()[b] == m[m.len() - 1 - b]);
                }
            }
            Ok(ordered)
        },
    }
}

} // verus!

verus! {

/// What undoing a failed fold puts back: the commit HEAD was on, whether the
/// branch refs were recorded too, and the user's uncommitted changes as two
/// patches — HEAD to index, and HEAD to working tree.
pub struct FoldSnapshot {
    pub head: String,
    pub refs: bool,
    pub staged: String,
    pub worktree: String,
}

/// A patch handed to the user when it could not be put back.
#[derive(Debug, Clone, Copy, PartialEq, Eq, Structural)]
pub enum ParkPatch {
    /// The working-tree patch, saved as `unrestored` to replay with
    /// `git apply`.
    Worktree,
    /// The staged patch, saved as `unrestored-staged` to replay with
    /// `git apply --cached`.
    Staged,
}

/// Where undoing a failed fold has got to.
pub enum FoldRollback {
    /// Resetting hard to the recorded HEAD.
    Resetting,
    /// Putting the branch refs back.
    RestoringRefs,
    /// Re-staging the staged patch.
    Restaging,
    /// Re-applying the working-tree patch.
    Reapplying,
    Done,
}

/// What the last call of [`rollback_step`] answered.
pub enum RollbackEvent {
    /// The git command asked for.
    Ran(Result<(), GitFailure>),
    /// Putting the branch refs back, with the error's text when it failed.
    RefsRestored(Result<(), String>),
}

/// What to do next.
pub enum RollbackAction {
    /// Run this and answer with [`RollbackEvent::Ran`].
    Run(GitCommand),
    /// Put the recorded branch refs back ([`crate::repo::restore_plan`]) and
    /// answer with [`RollbackEvent::RefsRestored`].
    RestoreRefs,
    /// Nothing more.
    Finish,
}

/// One step: what to warn about, then which patches to park, then what to do.
pub struct RollbackStep {
    pub state: FoldRollback,
    pub warnings: Vec<String>,
    pub park: Vec<ParkPatch>,
    pub action: RollbackAction,
}

pub open spec fn reset_failed_text(head: Seq<char>, e: Seq<char>) -> Seq<char> {
    "could not reset back to "@ + short_hash_spec(head) + ": "@ + e
        + "\nHistory is NOT where it was — check `loom` before replaying anything"@
}

pub open spec fn refs_failed_text(e: Seq<char>) -> Seq<char> {
    "failed to restore branch refs: "@ + e
}

pub open spec fn restage_failed_text(e: Seq<char>) -> Seq<char> {
    "could not re-stage your staged changes: "@ + e
}

pub open spec fn reapply_failed_text(e: Seq<char>) -> Seq<char> {
    "could not restore your uncommitted changes: "@ + e
}

/// Whether `event` answers what `state` is waiting for.
pub open spec fn rollback_answers(state: FoldRollback, event: RollbackEvent) -> bool {
    match state {
        FoldRollback::RestoringRefs => event is RefsRestored,
        FoldRollback::Done => false,
        _ => event is Ran,
    }
}

/// Re-applying the working-tree patch when there is one, else done.
pub open spec fn from_worktree(s: RollbackStep, snap: FoldSnapshot) -> bool {
    if snap.worktree@.len() > 0 {
        s.state is Reapplying && (s.action matches RollbackAction::Run(c) && applies(c, snap.worktree@, seq![]))
    } else {
        s.state is Done && s.action is Finish
    }
}

/// Re-staging the staged patch when there is one, else [`from_worktree`].
pub open spec fn from_staged(s: RollbackStep, snap: FoldSnapshot) -> bool {
    if snap.staged@.len() > 0 {
        s.state is Restaging && (s.action matches RollbackAction::Run(c) && applies(
            c,
            snap.staged@,
            seq!["--cached"@],
        ))
    } else {
        from_worktree(s, snap)
    }
}

fn worktree_phase(snap: &FoldSnapshot, warnings: Vec<String>, park: Vec<ParkPatch>) -> (s: RollbackStep)
    ensures
        from_worktree(s, *snap),
        s.warnings == warnings,
        s.park == park,
{
    if snap.worktree.unicode_len() > 0 {
        RollbackStep {
            state: FoldRollback::Reapplying,
            warnings,
            park,
            action: RollbackAction::Run(apply_patch(snap.worktree.as_str())),
        }
    } else {
        RollbackStep { state: FoldRollback::Done, warnings, park, action: RollbackAction::Finish }
    }
}

fn staged_phase(snap: &FoldSnapshot, warnings: Vec<String>, park: Vec<ParkPatch>) -> (s: RollbackStep)
    ensures
        from_staged(s, *snap),
        s.warnings == warnings,
        s.park == park,
{
    if snap.staged.unicode_len() > 0 {
        RollbackStep {
            state: FoldRollback::Restaging,
            warnings,
            park,
            action: RollbackAction::Run(apply_cached_patch(snap.staged.as_str())),
        }
    } else {
        worktree_phase(snap, warnings, park)
    }
}

fn said_one(prefix: &str, e: &str) -> (r: Vec<String>)
    ensures
        views(r@) == seq![prefix@ + e@],
{
    let mut m = owned(prefix);
    push_str(&mut m, e);
    let mut r: Vec<String> = Vec::new();
    r.push(m);
    proof {
        assert(views(r@) =~= seq![prefix@ + e@]);
    }
    r
}

/// Undo a failed fold: reset hard to the recorded HEAD first, which clears
/// whatever the failed step left behind, conflict markers included.
pub fn rollback_fold(snap: &FoldSnapshot) -> (s: RollbackStep)
    ensures
        s.state is Resetting,
        s.warnings@.len() == 0,
        s.park@.len() == 0,
        s.action matches RollbackAction::Run(c) && captured(c, seq!["reset"@, "--hard"@, snap.head@]),
{
    RollbackStep {
        state: FoldRollback::Resetting,
        warnings: Vec::new(),
        park: Vec::new(),
        action: RollbackAction::Run(reset_hard(snap.head.as_str())),
    }
}

/// One step of [`rollback_fold`]. After the reset come the branch refs,
/// when recorded, then the staged patch into the index, then the
/// working-tree patch over the files. A failed reset leaves history
/// elsewhere, so nothing is replayed onto it and both patches go to the
/// user; a patch that does not go back goes to the user too. Nothing is
/// ever dropped: the caller is about to report the fold as undone.
pub fn rollback_step(state: FoldRollback, event: RollbackEvent, snap: &FoldSnapshot) -> (s: RollbackStep)
    requires
        rollback_answers(state, event),
        cuttable_hash(snap.head@),
    ensures
        match (state, event) {
            (FoldRollback::Resetting, RollbackEvent::Ran(Err(e))) => s.state is Done && s.action is Finish
                && views(s.warnings@) == seq![reset_failed_text(snap.head@, e.message@)]
                && s.park@ == seq![ParkPatch::Worktree, ParkPatch::Staged],
            (FoldRollback::Resetting, RollbackEvent::Ran(Ok(()))) => s.warnings@.len() == 0 && s.park@.len() == 0
                && if snap.refs {
                s.state is RestoringRefs && s.action is RestoreRefs
            } else {
                from_staged(s, *snap)
            },
            (FoldRollback::RestoringRefs, RollbackEvent::RefsRestored(r)) => s.park@.len() == 0 && from_staged(s, *snap)
                && views(s.warnings@) == match r {
                Ok(()) => Seq::<Seq<char>>::empty(),
                Err(e) => seq![refs_failed_text(e@)],
            },
            (FoldRollback::Restaging, RollbackEvent::Ran(Err(e))) => from_worktree(s, *snap)
                && views(s.warnings@) == seq![restage_failed_text(e.message@)]
                && s.park@ == seq![ParkPatch::Staged],
            (FoldRollback::Restaging, RollbackEvent::Ran(Ok(()))) => from_worktree(s, *snap) && s.warnings@.len() == 0
                && s.park@.len() == 0,
            (FoldRollback::Reapplying, RollbackEvent::Ran(Err(e))) => s.state is Done && s.action is Finish
                && views(s.warnings@) == seq![reapply_failed_text(e.message@)]
                && s.park@ == seq![ParkPatch::Worktree],
            (FoldRollback::Reapplying, RollbackEvent::Ran(Ok(()))) => s.state is Done && s.action is Finish
                && s.warnings@.len() == 0 && s.park@.len() == 0,
            _ => false,
        },
{
    match (state, event) {
        (FoldRollback::Resetting, RollbackEvent::Ran(Err(e))) => {
            let mut m = owned("could not reset back to ");
            push_str(&mut m, short_hash(snap.head.as_str()).as_str());
            push_str(&mut m, ": ");
            push_str(&mut m, e.message.as_str());
            push_str(&mut m, "\nHistory is NOT where it was — check `loom` before replaying anything");
            let mut warnings: Vec<String> = Vec::new();
            warnings.push(m);
            let mut park: Vec<ParkPatch> = Vec::new();
            park.push(ParkPatch::Worktree);
            park.push(ParkPatch::Staged);
            proof {
                assert(views(warnings@) =~= seq![reset_failed_text(snap.head@, e.message@)]);
                assert(park@ =~= seq![ParkPatch::Worktree, ParkPatch::Staged]);
            }
            RollbackStep { state: FoldRollback::Done, warnings, park, action: RollbackAction::Finish }
        },
        (FoldRollback::Resetting, RollbackEvent::Ran(Ok(()))) => {
            if snap.refs {
                RollbackStep {
                    state: FoldRollback::RestoringRefs,
                    warnings: Vec::new(),
                    park: Vec::new(),
                    action: RollbackAction::RestoreRefs,
                }
            } else {
                staged_phase(snap, Vec::new(), Vec::new())
            }
        },
        (FoldRollback::RestoringRefs, RollbackEvent::RefsRestored(r)) => {
            let warnings = match r {
                Ok(()) => {
                    let w: Vec<String> = Vec::new();
                    proof {
                        assert(views(w@) =~= Seq::<Seq<char>>::empty());
                    }
                    w
                },
                Err(e) => said_one("failed to restore branch refs: ", e.as_str()),
            };
            staged_phase(snap, warnings, Vec::new())
        },
        (FoldRollback::Restaging, RollbackEvent::Ran(Err(e))) => {
            let mut park: Vec<ParkPatch> = Vec::new();
            park.push(ParkPatch::Staged);
            proof {
                assert(park@ =~= seq![ParkPatch::Staged]);
            }
            worktree_phase(snap, said_one("could not re-stage your staged changes: ", e.message.as_str()), park)
        },
        (FoldRollback::Restaging, RollbackEvent::Ran(Ok(()))) => worktree_phase(snap, Vec::new(), Vec::new()),
        (FoldRollback::Reapplying, RollbackEvent::Ran(Err(e))) => {
            let mut park: Vec<ParkPatch> = Vec::new();
            park.push(ParkPatch::Worktree);
            proof {
                assert(park@ =~= seq![ParkPatch::Worktree]);
            }
            RollbackStep {
                state: FoldRollback::Done,
                warnings: said_one("could not restore your uncommitted changes: ", e.message.as_str()),
                park,
                action: RollbackAction::Finish,
            }
        },
        (_, _) => RollbackStep {
            state: FoldRollback::Done,
            warnings: Vec::new(),
            park: Vec::new(),
            action: RollbackAction::Finish,
        },
    }
}

} // verus!
