//! The changed files of a comparison and the diff of one file in it.
//!
//! A comparison has a "before" tree and an "after" side: the tree of a
//! commit, or the working tree with the index. For one commit the "before"
//! tree is that of its first parent, the empty tree where it has none. For
//! a range of commits it is that of the first parent of the oldest commit,
//! and the "after" tree is that of the newest.

use crate::backend::{
    delta_kind, diff_get_delta, diff_len, diff_options, diff_options_include_untracked,
    diff_options_pathspec, diff_paths, diff_stats, patch_from_diff, patch_hunks,
    reference_peel_to_tree, repo_diff_trees, repo_diff_workdir, repo_head,
};
use crate::error::{failure_of, ErrorKind, GitError};
use crate::history::{
    find_commit, id_checked, lookup_commit, open_at, parent_tree_of, parse_id, tree_of,
};
use crate::model::{
    ChangedFile, ChangedFileView, DiffHunk, DiffHunkView, FileDiff, FileDiffView, FileStatus,
};
use crate::patch::{counts_of_patch, hunks_of, lemma_hunks_of_wf, read_hunks};
use crate::raw::{is_oid_text, DeltaInfo, DeltaInfoView};
use crate::status::{status_of_delta, DeltaKind};
use crate::text::has_nul;
use vstd::prelude::*;

verus! {

/// The path under which a file with the two paths `paths`, the old and
/// the new, is reported: the new one, else the old one, else the empty
/// path.
pub open spec fn shown_path(paths: (Option<Seq<char>>, Option<Seq<char>>)) -> Seq<char> {
    match paths.1 {
        Some(p) => p,
        None => match paths.0 {
            Some(p) => p,
            None => Seq::empty(),
        },
    }
}

impl DeltaInfoView {
    /// The path under which the file is reported: that of the new side,
    /// else that of the old side, else the empty path.
    pub open spec fn display_path(self) -> Seq<char> {
        shown_path((self.old_path, self.new_path))
    }

    /// The path before a rename, and before a copy too where `with_copies`
    /// holds; none for any other kind of change.
    pub open spec fn previous_path(self, with_copies: bool) -> Option<Seq<char>> {
        if self.kind == DeltaKind::Renamed || (with_copies && self.kind == DeltaKind::Copied) {
            self.old_path
        } else {
            None
        }
    }

    /// Whether either side is binary.
    pub open spec fn is_binary(self) -> bool {
        self.new_binary || self.old_binary
    }
}

/// The entry of the list of changed files for one file of a diff.
pub open spec fn changed_file_of(delta: DeltaInfoView, counts: (u32, u32)) -> ChangedFileView {
    ChangedFileView {
        path: delta.display_path(),
        status: status_of_delta(delta.kind),
        additions: counts.0,
        deletions: counts.1,
        old_path: delta.previous_path(false),
    }
}

/// The diff of one file: without hunks and marked binary where either side
/// is binary, with the given hunks otherwise.
pub open spec fn file_diff_of(delta: DeltaInfoView, hunks: Seq<DiffHunkView>) -> FileDiffView {
    FileDiffView {
        old_path: delta.previous_path(true),
        new_path: delta.display_path(),
        hunks: if delta.is_binary() {
            Seq::empty()
        } else {
            hunks
        },
        is_binary: delta.is_binary(),
    }
}

/// A file that is binary on either side has a diff without hunks that is
/// marked binary, whatever hunks a patch would give.
pub proof fn lemma_binary_diff(delta: DeltaInfoView, hunks: Seq<DiffHunkView>)
    requires
        delta.old_binary || delta.new_binary,
    ensures
        file_diff_of(delta, hunks).is_binary,
        file_diff_of(delta, hunks).hunks.len() == 0,
        file_diff_of(delta, hunks).wf(),
{
}

impl DeltaInfo {
    /// Computes the path under which the file is reported.
    pub fn display_path(&self) -> (path: String)
        ensures
            path@ == self@.display_path(),
    {
        match &self.new_path {
            Some(p) => p.clone(),
            None => match &self.old_path {
                Some(p) => p.clone(),
                None => String::new(),
            },
        }
    }

    /// Computes the path before a rename, or before a rename or copy.
    pub fn previous_path(&self, with_copies: bool) -> (path: Option<String>)
        ensures
            path.deep_view() == self@.previous_path(with_copies),
    {
        if self.kind == DeltaKind::Renamed || (with_copies && self.kind == DeltaKind::Copied) {
            match &self.old_path {
                Some(p) => Some(p.clone()),
                None => None,
            }
        } else {
            None
        }
    }

    /// Computes whether either side is binary.
    pub fn is_binary(&self) -> (binary: bool)
        ensures
            binary == self@.is_binary(),
    {
        self.new_binary || self.old_binary
    }
}

/// What holds of every entry of a list of the changed files of a
/// comparison of trees: its status is one that a change kind gives, and it
/// carries a previous path only where it is a rename.
pub open spec fn is_tree_change(file: ChangedFileView) -> bool {
    &&& file.status != FileStatus::Untracked
    &&& file.old_path is Some ==> file.status == FileStatus::Renamed
}

/// Makes the entry of the list of changed files for one file of a diff.
pub fn make_changed_file(delta: &DeltaInfo, counts: (u32, u32)) -> (file: ChangedFile)
    ensures
        file@ == changed_file_of(delta@, counts),
        is_tree_change(file@),
{
    ChangedFile {
        path: delta.display_path(),
        status: FileStatus::from(delta.kind),
        additions: counts.0,
        deletions: counts.1,
        old_path: delta.previous_path(false),
    }
}

/// Makes the diff of one file from its entry in a diff and its hunks.
pub fn make_file_diff(delta: &DeltaInfo, hunks: Vec<DiffHunk>) -> (diff: FileDiff)
    ensures
        diff@ == file_diff_of(delta@, hunks.deep_view()),
{
    let is_binary = delta.is_binary();
    let kept = if is_binary {
        Vec::new()
    } else {
        hunks
    };
    proof {
        if is_binary {
            assert(kept.deep_view() =~= Seq::<DiffHunkView>::empty());
        }
    }
    FileDiff {
        old_path: delta.previous_path(true),
        new_path: delta.display_path(),
        hunks: kept,
        is_binary,
    }
}

/// Reads the entry of the file at `index` of a diff: none at an index
/// that is no file's; else the entry with the paths that the diff lists
/// there, and with the kind of change and the binary flags as the backend
/// has them now.
fn read_delta(diff: &git2::Diff<'_>, index: usize) -> (info: Option<DeltaInfo>)
    ensures
        info is Some <==> index < diff_paths(*diff).len(),
        info matches Some(i) ==> (i@.old_path, i@.new_path) == diff_paths(*diff)[index as int],
{
    match diff_get_delta(diff, index) {
        Some(listed) => Some(
            DeltaInfo {
                kind: delta_kind(listed.status),
                old_path: listed.old_path,
                new_path: listed.new_path,
                old_binary: listed.old_binary,
                new_binary: listed.new_binary,
            },
        ),
        None => None,
    }
}

/// The diff of one file from its entry in a diff and its patch: the hunks
/// of the patch, unless either side is binary.
pub fn file_diff_of_patch(delta: &DeltaInfo, patch: &git2::Patch<'_>) -> (res: Result<
    FileDiff,
    GitError,
>)
    ensures
        res matches Ok(diff) && diff@ == file_diff_of(delta@, hunks_of(patch_hunks(*patch)))
            && diff@.wf(),
{
    let hunks = match read_hunks(patch) {
        Ok(h) => h,
        Err(e) => {
            return Err(e);
        },
    };
    proof {
        lemma_hunks_of_wf(patch_hunks(*patch));
    }
    Ok(make_file_diff(delta, hunks))
}

/// The kinds of failure of a comparison that a commit id names.
pub open spec fn is_comparison_failure(kind: ErrorKind) -> bool {
    kind == ErrorKind::RepositoryNotFound || kind == ErrorKind::InvalidRevisionId || kind
        == ErrorKind::CommitNotFound || kind == ErrorKind::Backend
}

/// The kinds of failure of the diff of one file.
pub open spec fn is_file_diff_failure(kind: ErrorKind) -> bool {
    is_comparison_failure(kind) || kind == ErrorKind::FileNotInComparison
}

/// Whether `diff` is a diff of the file with the two paths `paths`: it is
/// reported under the path that is shown for them, and the path that it
/// carries as the previous one, if any, is the old one.
pub open spec fn is_diff_of(diff: FileDiffView, paths: (Option<Seq<char>>, Option<Seq<char>>))
    -> bool {
    &&& diff.new_path == shown_path(paths)
    &&& diff.old_path is Some ==> diff.old_path == paths.0
}

/// The diff of the file at the head of `diff`, which was made for that
/// file alone and lists it. The kind of change
/// and the paths are read as the diff lists them. The backend learns
/// whether a side is binary when it loads the content, which it does for
/// the patch: so the patch is made before the binary flags are read. A
/// binary file has no hunks, whatever became of the patch.
fn first_file_diff(diff: &git2::Diff<'_>) -> (res: Result<FileDiff, GitError>)
    requires
        diff_paths(*diff).len() > 0,
    ensures
        res matches Ok(d) ==> is_diff_of(d@, diff_paths(*diff)[0]) && d@.wf(),
        res matches Err(e) ==> e.kind == ErrorKind::Backend,
{
    let listed = match read_delta(diff, 0) {
        Some(info) => info,
        None => {
            return Err(GitError::new(ErrorKind::Backend, "Delta should exist"));
        },
    };
    let made = patch_from_diff(diff, 0);
    let info = match read_delta(diff, 0) {
        Some(loaded) => DeltaInfo {
            kind: listed.kind,
            old_path: listed.old_path,
            new_path: listed.new_path,
            old_binary: loaded.old_binary,
            new_binary: loaded.new_binary,
        },
        None => listed,
    };
    if info.is_binary() {
        let binary = make_file_diff(&info, Vec::new());
        proof {
            lemma_binary_diff(info@, Seq::empty());
        }
        return Ok(binary);
    }
    match made {
        Ok(Some(patch)) => file_diff_of_patch(&info, &patch),
        Ok(None) => Err(GitError::new(ErrorKind::Backend, "Failed to create patch for file")),
        Err(e) => Err(GitError::from_backend(ErrorKind::Backend, "Failed to create patch", &e)),
    }
}

/// The additions and deletions of the file at `index` of a diff; zero
/// for both where no patch can be made of it.
fn counts_at(diff: &git2::Diff<'_>, index: usize) -> (counts: (u32, u32)) {
    match patch_from_diff(diff, index) {
        Ok(patch) => counts_of_patch(patch.as_ref()),
        Err(_) => counts_of_patch(None),
    }
}

/// Whether `file` is the entry of the list of changed files for the file
/// with the two paths `paths`: it is reported under the path that is shown
/// for them, the path that it carries as the previous one, if any, is the
/// old one, and it is a change of trees.
pub open spec fn is_change_of(file: ChangedFileView, paths: (Option<Seq<char>>, Option<Seq<char>>))
    -> bool {
    &&& file.path == shown_path(paths)
    &&& file.old_path is Some ==> file.old_path == paths.0
    &&& is_tree_change(file)
}

/// The list of the changed files of a diff: one entry for each file that
/// the diff lists, in the order of the diff and under the path of that
/// file.
fn changed_files_of(diff: &git2::Diff<'_>) -> (res: Result<Vec<ChangedFile>, GitError>)
    ensures
        res matches Ok(files) ==> files.len() == diff_paths(*diff).len() && forall|i: int|
            0 <= i < files.len() ==> is_change_of((#[trigger] files[i])@, diff_paths(*diff)[i]),
        res matches Err(e) ==> e.kind == ErrorKind::Backend,
{
    match diff_stats(diff) {
        Ok(_) => {},
        Err(e) => {
            return Err(GitError::from_backend(ErrorKind::Backend, "Failed to get diff stats", &e));
        },
    }
    let count: usize = diff_len(diff);
    let mut files: Vec<ChangedFile> = Vec::new();
    let mut index: usize = 0;
    while index < count
        invariant
            count == diff_paths(*diff).len(),
            index <= count,
            files.len() == index,
            forall|i: int|
                0 <= i < files.len() ==> is_change_of((#[trigger] files[i])@, diff_paths(*diff)[i]),
        decreases count - index,
    {
        let info = match read_delta(diff, index) {
            Some(info) => info,
            None => {
                return Err(GitError::new(ErrorKind::Backend, "Delta should exist"));
            },
        };
        let counts = counts_at(diff, index);
        files.push(make_changed_file(&info, counts));
        index = index + 1;
    }
    Ok(files)
}

/// The two trees of the comparison that one commit names: before, the
/// tree of its first parent, or none; after, its own tree.
pub(crate) fn commit_comparison<'r>(repo: &'r git2::Repository, commit_id: &str) -> (res: Result<
    (Option<git2::Tree<'r>>, git2::Tree<'r>),
    GitError,
>)
    ensures
        !is_oid_text(commit_id@) <==> (res matches Err(e) && e.kind
            == ErrorKind::InvalidRevisionId),
        res matches Err(e) ==> is_comparison_failure(e.kind) && e.kind
            != ErrorKind::RepositoryNotFound && e.worded() && e.says_invalid_id(commit_id@),
{
    let commit = match find_commit(repo, commit_id) {
        Ok(c) => c,
        Err(e) => {
            return Err(e);
        },
    };
    let after = match tree_of(&commit) {
        Ok(t) => t,
        Err(e) => {
            return Err(e);
        },
    };
    match parent_tree_of(&commit) {
        Ok(before) => Ok((before, after)),
        Err(e) => Err(e),
    }
}

/// Whether `commit_ids` is a range that can be compared: it is not empty
/// and its first and last entries can be object ids.
pub open spec fn is_range(commit_ids: Seq<String>) -> bool {
    commit_ids.len() > 0 && is_oid_text(commit_ids[0]@) && is_oid_text(commit_ids.last()@)
}

/// Where the two ends of a range of commits stand in it.
#[derive(Debug, Clone, Copy, PartialEq, Eq, Structural)]
pub struct RangeEnds {
    /// The place of the newest commit.
    pub newest: usize,
    /// The place of the oldest commit.
    pub oldest: usize,
}

/// The ends of a range of `count` commits. A range is ordered as a history
/// listing is, newest first: so the newest commit is the first and the
/// oldest the last. An empty range has no ends.
pub open spec fn spec_range_ends(count: usize) -> Option<RangeEnds> {
    if count > 0 {
        Some(RangeEnds { newest: 0, oldest: (count - 1) as usize })
    } else {
        None
    }
}

/// Picks the ends of a range of `count` commits, which is ordered newest
/// first.
pub fn range_ends(count: usize) -> (ends: Option<RangeEnds>)
    ensures
        ends == spec_range_ends(count),
{
    if count > 0 {
        Some(RangeEnds { newest: 0, oldest: count - 1 })
    } else {
        None
    }
}

/// What holds of the failure of an operation on a range of commits in a
/// repository that is opened first: a range that cannot be compared makes
/// the operation fail, as an invalid id unless the repository does not
/// open; and nothing else fails as an invalid id.
pub open spec fn range_checked(failure: Option<ErrorKind>, commit_ids: Seq<String>) -> bool {
    &&& !is_range(commit_ids) ==> failure == Some(ErrorKind::RepositoryNotFound) || failure
        == Some(ErrorKind::InvalidRevisionId)
    &&& failure == Some(ErrorKind::InvalidRevisionId) ==> !is_range(commit_ids)
}

/// The two trees of the comparison that a range of commits names, which
/// is ordered newest first: before is the tree of the first parent of its
/// oldest commit, or none; after, the tree of its newest commit. An empty
/// range is refused, and so is one with an end that is no object id, before
/// the repository is asked.
pub(crate) fn range_comparison<'r>(repo: &'r git2::Repository, commit_ids: &[String]) -> (res:
    Result<(Option<git2::Tree<'r>>, git2::Tree<'r>), GitError>)
    ensures
        !is_range(commit_ids@) <==> (res matches Err(e) && e.kind
            == ErrorKind::InvalidRevisionId),
        res matches Err(e) ==> is_comparison_failure(e.kind) && e.kind
            != ErrorKind::RepositoryNotFound && e.worded(),
{
    let ends = match range_ends(commit_ids.len()) {
        Some(ends) => ends,
        None => {
            return Err(GitError::new(ErrorKind::InvalidRevisionId, "No commits in the range"));
        },
    };
    let newest_id = match parse_id(commit_ids[ends.newest].as_str()) {
        Ok(oid) => oid,
        Err(e) => {
            return Err(e);
        },
    };
    let oldest_id = match parse_id(commit_ids[ends.oldest].as_str()) {
        Ok(oid) => oid,
        Err(e) => {
            return Err(e);
        },
    };
    let newest = match lookup_commit(repo, newest_id) {
        Ok(c) => c,
        Err(e) => {
            return Err(e);
        },
    };
    let after = match tree_of(&newest) {
        Ok(t) => t,
        Err(e) => {
            return Err(e);
        },
    };
    let oldest = match lookup_commit(repo, oldest_id) {
        Ok(c) => c,
        Err(e) => {
            return Err(e);
        },
    };
    match parent_tree_of(&oldest) {
        Ok(before) => Ok((before, after)),
        Err(e) => Err(e),
    }
}

/// The changed files between two trees.
fn tree_changes(
    repo: &git2::Repository,
    before: Option<&git2::Tree<'_>>,
    after: &git2::Tree<'_>,
) -> (res: Result<Vec<ChangedFile>, GitError>)
    ensures
        res matches Ok(files) ==> forall|i: int|
            0 <= i < files.len() ==> is_tree_change((#[trigger] files[i])@),
        res matches Err(e) ==> e.kind == ErrorKind::Backend,
{
    let mut options = diff_options();
    let diff = match repo_diff_trees(repo, before, after, &mut options) {
        Ok(d) => d,
        Err(e) => {
            return Err(GitError::from_backend(ErrorKind::Backend, "Failed to create diff", &e));
        },
    };
    changed_files_of(&diff)
}

/// What a file is compared in.
#[derive(Debug, Clone, Copy, PartialEq, Eq, Structural)]
pub enum Comparison {
    /// Two trees: that of a commit and the tree before it.
    Trees,
    /// The head and the working tree with the index.
    WorkingTree,
}

/// The message for a path without a change in a comparison.
pub open spec fn not_compared_text(comparison: Comparison, file_path: Seq<char>) -> Seq<char> {
    match comparison {
        Comparison::Trees => "File '"@ + file_path + "' not found in commit"@,
        Comparison::WorkingTree => "File '"@ + file_path + "' has no changes"@,
    }
}

/// Whether `e` is the failure that reports the path `file_path` as
/// without a change in a comparison, where it is of that kind at all.
pub open spec fn says_not_compared(e: GitError, comparison: Comparison, file_path: Seq<char>)
    -> bool {
    e.kind == ErrorKind::FileNotInComparison ==> e.text@ == not_compared_text(
        comparison,
        file_path,
    )
}

/// The failure that reports a path without a change in a comparison.
pub fn not_compared(comparison: Comparison, file_path: &str) -> (e: GitError)
    ensures
        e.kind == ErrorKind::FileNotInComparison,
        e.text@ == not_compared_text(comparison, file_path@),
{
    match comparison {
        Comparison::Trees => GitError::about(
            ErrorKind::FileNotInComparison,
            "File '",
            file_path,
            "' not found in commit",
        ),
        Comparison::WorkingTree => GitError::about(
            ErrorKind::FileNotInComparison,
            "File '",
            file_path,
            "' has no changes",
        ),
    }
}

/// The diff of the file `file_path` from a diff that was made for that
/// path alone. A diff that lists no file means that the path has no
/// change in the comparison, which is refused; nothing else is refused so.
/// Otherwise the diff is that of the first file that is listed.
pub fn diff_of_listed_file(diff: &git2::Diff<'_>, comparison: Comparison, file_path: &str) -> (res:
    Result<FileDiff, GitError>)
    ensures
        diff_paths(*diff).len() == 0 <==> (res matches Err(e) && e.kind
            == ErrorKind::FileNotInComparison),
        res matches Ok(d) ==> is_diff_of(d@, diff_paths(*diff)[0]) && d@.wf(),
        res matches Err(e) ==> (e.kind == ErrorKind::Backend || e.kind
            == ErrorKind::FileNotInComparison) && says_not_compared(e, comparison, file_path@),
{
    if diff_len(diff) == 0 {
        return Err(not_compared(comparison, file_path));
    }
    first_file_diff(diff)
}

/// The diff of one file between two trees.
fn tree_file_diff(
    repo: &git2::Repository,
    before: Option<&git2::Tree<'_>>,
    after: &git2::Tree<'_>,
    file_path: &str,
) -> (res: Result<FileDiff, GitError>)
    ensures
        res matches Ok(d) ==> d@.wf(),
        res matches Err(e) ==> (e.kind == ErrorKind::Backend || e.kind
            == ErrorKind::FileNotInComparison) && says_not_compared(
            e,
            Comparison::Trees,
            file_path@,
        ),
        file_path@.contains('\0') ==> (res matches Err(e) && e.kind
            == ErrorKind::FileNotInComparison),
{
    if has_nul(file_path) {
        return Err(not_compared(Comparison::Trees, file_path));
    }
    let mut options = diff_options();
    diff_options_pathspec(&mut options, file_path);
    let diff = match repo_diff_trees(repo, before, after, &mut options) {
        Ok(d) => d,
        Err(e) => {
            return Err(GitError::from_backend(ErrorKind::Backend, "Failed to create diff", &e));
        },
    };
    diff_of_listed_file(&diff, Comparison::Trees, file_path)
}

/// Lists the files that the commit `commit_id` changed against its first
/// parent, each with its status and its counts of added and deleted
/// lines. Every file of a commit without a parent is compared with the
/// empty tree.
pub fn get_commit_files(repo_path: &str, commit_id: &str) -> (res: Result<
    Vec<ChangedFile>,
    GitError,
>)
    ensures
        res matches Ok(files) ==> forall|i: int|
            0 <= i < files.len() ==> is_tree_change((#[trigger] files[i])@),
        res matches Err(e) ==> is_comparison_failure(e.kind) && e.worded() && e.says_invalid_id(
            commit_id@,
        ),
        id_checked(failure_of(res), commit_id@),
{
    let repo = match open_at(repo_path) {
        Ok(r) => r,
        Err(e) => {
            return Err(e);
        },
    };
    let (before, after) = match commit_comparison(&repo, commit_id) {
        Ok(trees) => trees,
        Err(e) => {
            return Err(e);
        },
    };
    tree_changes(&repo, before.as_ref(), &after)
}

/// Lists the files that a range of commits changed as a whole: one
/// comparison from before the oldest commit to the newest. The range is
/// ordered newest first.
pub fn get_commit_range_files(repo_path: &str, commit_ids: &[String]) -> (res: Result<
    Vec<ChangedFile>,
    GitError,
>)
    ensures
        res matches Ok(files) ==> forall|i: int|
            0 <= i < files.len() ==> is_tree_change((#[trigger] files[i])@),
        res matches Err(e) ==> is_comparison_failure(e.kind) && e.worded(),
        range_checked(failure_of(res), commit_ids@),
{
    let repo = match open_at(repo_path) {
        Ok(r) => r,
        Err(e) => {
            return Err(e);
        },
    };
    let (before, after) = match range_comparison(&repo, commit_ids) {
        Ok(trees) => trees,
        Err(e) => {
            return Err(e);
        },
    };
    tree_changes(&repo, before.as_ref(), &after)
}

/// The diff of the file `file_path` in the commit `commit_id`, against
/// the first parent of the commit. A binary file has no hunks. A path that
/// the commit did not change is refused.
pub fn get_file_diff(repo_path: &str, commit_id: &str, file_path: &str) -> (res: Result<
    FileDiff,
    GitError,
>)
    ensures
        res matches Ok(d) ==> d@.wf(),
        res matches Err(e) ==> is_file_diff_failure(e.kind) && e.worded() && e.says_invalid_id(
            commit_id@,
        ) && says_not_compared(e, Comparison::Trees, file_path@),
        id_checked(failure_of(res), commit_id@),
        file_path@.contains('\0') ==> res is Err,
{
    let repo = match open_at(repo_path) {
        Ok(r) => r,
        Err(e) => {
            return Err(e);
        },
    };
    let (before, after) = match commit_comparison(&repo, commit_id) {
        Ok(trees) => trees,
        Err(e) => {
            return Err(e);
        },
    };
    tree_file_diff(&repo, before.as_ref(), &after, file_path)
}

/// The diff of the file `file_path` over a range of commits, ordered
/// newest first: from before the oldest commit to the newest.
pub fn get_commit_range_file_diff(repo_path: &str, commit_ids: &[String], file_path: &str) -> (res:
    Result<FileDiff, GitError>)
    ensures
        res matches Ok(d) ==> d@.wf(),
        res matches Err(e) ==> is_file_diff_failure(e.kind) && e.worded() && says_not_compared(
            e,
            Comparison::Trees,
            file_path@,
        ),
        range_checked(failure_of(res), commit_ids@),
        file_path@.contains('\0') ==> res is Err,
{
    let repo = match open_at(repo_path) {
        Ok(r) => r,
        Err(e) => {
            return Err(e);
        },
    };
    let (before, after) = match range_comparison(&repo, commit_ids) {
        Ok(trees) => trees,
        Err(e) => {
            return Err(e);
        },
    };
    tree_file_diff(&repo, before.as_ref(), &after, file_path)
}

/// The tree of the head of the repository; none where the repository has
/// no head yet.
pub(crate) fn head_tree<'r>(repo: &'r git2::Repository) -> (res: Result<
    Option<git2::Tree<'r>>,
    GitError,
>)
    ensures
        res matches Err(e) ==> e.kind == ErrorKind::Backend,
{
    match repo_head(repo) {
        Ok(head) => match reference_peel_to_tree(&head) {
            Ok(tree) => Ok(Some(tree)),
            Err(e) => Err(GitError::from_backend(ErrorKind::Backend, "Failed to get HEAD tree", &e)),
        },
        Err(_) => Ok(None),
    }
}

/// The kinds of failure of the diff of one file of the working tree.
pub open spec fn is_working_diff_failure(kind: ErrorKind) -> bool {
    kind == ErrorKind::RepositoryNotFound || kind == ErrorKind::Backend || kind
        == ErrorKind::FileNotInComparison
}

/// The diff of the file `file_path` between the head of the repository and
/// the working tree with the index; untracked files count. A path without
/// a change is refused.
pub fn get_working_file_diff(repo_path: &str, file_path: &str) -> (res: Result<FileDiff, GitError>)
    ensures
        res matches Ok(d) ==> d@.wf(),
        res matches Err(e) ==> is_working_diff_failure(e.kind) && e.worded() && says_not_compared(
            e,
            Comparison::WorkingTree,
            file_path@,
        ),
        file_path@.contains('\0') ==> res is Err,
{
    let repo = match open_at(repo_path) {
        Ok(r) => r,
        Err(e) => {
            return Err(e);
        },
    };
    let head = match head_tree(&repo) {
        Ok(t) => t,
        Err(e) => {
            return Err(e);
        },
    };
    if has_nul(file_path) {
        return Err(not_compared(Comparison::WorkingTree, file_path));
    }
    let mut options = diff_options();
    diff_options_pathspec(&mut options, file_path);
    diff_options_include_untracked(&mut options, true);
    let diff = match repo_diff_workdir(&repo, head.as_ref(), &mut options) {
        Ok(d) => d,
        Err(e) => {
            return Err(GitError::from_backend(ErrorKind::Backend, "Failed to create diff", &e));
        },
    };
    diff_of_listed_file(&diff, Comparison::WorkingTree, file_path)
}

} // verus!
