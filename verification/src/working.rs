//! The uncommitted changes of the working tree: the list of changed paths,
//! and the test that guards a checkout.
//!
//! The list and the guard read the same status entries and judge them
//! differently. The list reports every path that is new, deleted, modified
//! or renamed, in the index or in the working tree. The guard stops a
//! checkout only for a path that is modified or deleted: a new file cannot
//! be lost by switching to another tree.

use crate::backend::{
    commit_tree, diff_options, diff_options_include_untracked, diff_options_pathspec, diff_stats,
    reference_peel_to_commit, repo_diff_workdir, repo_head, repo_statuses, status_entries,
    statuses_get, statuses_len,
};
use crate::history::open_at;
use crate::error::{ErrorKind, GitError};
use crate::model::{ChangedFile, ChangedFileView, FileStatus};
use crate::patch::line_counts_of;
use crate::raw::StatusItemView;
use crate::text::has_nul;
use vstd::prelude::*;

verus! {

/// The path and status under which a status entry is listed, if it is
/// listed: the status that its flags give, and its path, empty where the
/// path is no valid UTF-8.
pub open spec fn listed_entry(item: StatusItemView) -> Option<(Seq<char>, FileStatus)> {
    match item.flags.spec_working_status() {
        Some(status) => Some(
            (
                match item.path {
                    Some(p) => p,
                    None => Seq::empty(),
                },
                status,
            ),
        ),
        None => None,
    }
}

/// The paths and statuses that are listed for a sequence of status
/// entries: those of the entries that are listed, in their order.
pub open spec fn listed(entries: Seq<StatusItemView>) -> Seq<(Seq<char>, FileStatus)> {
    entries.filter_map(|item: StatusItemView| listed_entry(item))
}

/// The paths and statuses of a list of changed files.
pub open spec fn listing_of(files: Seq<ChangedFileView>) -> Seq<(Seq<char>, FileStatus)> {
    files.map_values(|f: ChangedFileView| (f.path, f.status))
}

/// Whether some entry keeps a branch from being checked out.
pub open spec fn blocks_checkout(entries: Seq<StatusItemView>) -> bool {
    exists|i: int| 0 <= i < entries.len() && (#[trigger] entries[i]).flags.spec_blocks_checkout()
}

/// Every listed status is one of untracked, added, deleted, modified and
/// renamed.
pub open spec fn is_working_status(status: FileStatus) -> bool {
    status == FileStatus::Untracked || status == FileStatus::Added || status == FileStatus::Deleted
        || status == FileStatus::Modified || status == FileStatus::Renamed
}

/// What holds of every file of a list of working changes: its status is a
/// working status and it carries no previous path.
pub open spec fn is_working_change(file: ChangedFileView) -> bool {
    is_working_status(file.status) && file.old_path is None
}

/// The entry of the list for a path with its status and its counts.
pub fn make_working_change(path: String, status: FileStatus, counts: (u32, u32)) -> (file:
    ChangedFile)
    ensures
        file@ == (ChangedFileView {
            path: path@,
            status,
            additions: counts.0,
            deletions: counts.1,
            old_path: None,
        }),
{
    ChangedFile { path, status, additions: counts.0, deletions: counts.1, old_path: None }
}

/// The counts of added and deleted lines of the path `path` between a
/// tree and the working tree with the index. Both are zero where there is
/// no tree to compare with, for a path with a NUL, which no comparison can
/// be asked for, and where the backend fails.
pub fn counts_against(repo: &git2::Repository, tree: Option<&git2::Tree<'_>>, path: &str) -> (counts:
    (u32, u32))
    ensures
        tree is None || path@.contains('\0') ==> counts == (0u32, 0u32),
{
    let tree = match tree {
        Some(tree) => tree,
        None => {
            return (0, 0);
        },
    };
    if has_nul(path) {
        return (0, 0);
    }
    let mut options = diff_options();
    diff_options_pathspec(&mut options, path);
    diff_options_include_untracked(&mut options, true);
    let diff = match repo_diff_workdir(repo, Some(tree), &mut options) {
        Ok(d) => d,
        Err(_) => {
            return (0, 0);
        },
    };
    match diff_stats(&diff) {
        Ok(stats) => line_counts_of(Some((0, stats.0, stats.1))),
        Err(_) => line_counts_of(None),
    }
}

/// The tree of the commit at the head of the repository, none where the
/// head cannot be resolved.
fn head_commit_tree<'r>(repo: &'r git2::Repository) -> (tree: Option<git2::Tree<'r>>) {
    let head = match repo_head(repo) {
        Ok(h) => h,
        Err(_) => {
            return None;
        },
    };
    let commit = match reference_peel_to_commit(&head) {
        Ok(c) => c,
        Err(_) => {
            return None;
        },
    };
    match commit_tree(&commit) {
        Ok(t) => Some(t),
        Err(_) => None,
    }
}

/// The counts of added and deleted lines of the path `path` between the
/// head and the working tree with the index; zero for both where the head
/// cannot be resolved, where the backend fails, and for a path with a NUL.
fn working_counts(repo: &git2::Repository, path: &str) -> (counts: (u32, u32))
    ensures
        path@.contains('\0') ==> counts == (0u32, 0u32),
{
    let tree = head_commit_tree(repo);
    counts_against(repo, tree.as_ref(), path)
}

/// Lists the changes that a status list holds: for each entry that is
/// listed, in the order of the list, its path and status, with its counts
/// of added and deleted lines against the head.
pub fn changes_of(repo: &git2::Repository, statuses: &git2::Statuses<'_>) -> (files: Vec<
    ChangedFile,
>)
    ensures
        listing_of(files.deep_view()) == listed(status_entries(*statuses)),
        forall|i: int| 0 <= i < files.len() ==> is_working_change((#[trigger] files[i])@),
{
    let count: usize = statuses_len(statuses);
    let ghost entries = status_entries(*statuses);
    let ghost pick = |item: StatusItemView| listed_entry(item);
    let mut files: Vec<ChangedFile> = Vec::new();
    let mut index: usize = 0;
    while index < count
        invariant
            entries == status_entries(*statuses),
            pick == |item: StatusItemView| listed_entry(item),
            count == entries.len(),
            index <= count,
            listing_of(files.deep_view()) == entries.take(index as int).filter_map(pick),
            forall|i: int| 0 <= i < files.len() ==> is_working_change((#[trigger] files[i])@),
        decreases count - index,
    {
        proof {
            entries.lemma_filter_map_take_succ(pick, index as int);
        }
        match statuses_get(statuses, index) {
            Some(item) => {
                match item.flags.working_status() {
                    Some(status) => {
                        let path = match item.path {
                            Some(p) => p,
                            None => String::new(),
                        };
                        let counts = working_counts(repo, path.as_str());
                        files.push(make_working_change(path, status, counts));
                    },
                    None => {},
                }
            },
            None => {},
        }
        index = index + 1;
    }
    proof {
        assert(entries.take(index as int) =~= entries);
    }
    files
}

/// Whether a status list holds a change that keeps a branch from being
/// checked out: a path that is modified or deleted, staged or not.
pub fn has_blocking_change(statuses: &git2::Statuses<'_>) -> (blocked: bool)
    ensures
        blocked == blocks_checkout(status_entries(*statuses)),
{
    let count: usize = statuses_len(statuses);
    let mut index: usize = 0;
    while index < count
        invariant
            count == status_entries(*statuses).len(),
            index <= count,
            forall|i: int|
                0 <= i < index ==> !(#[trigger] status_entries(*statuses)[i]).flags.spec_blocks_checkout(),
        decreases count - index,
    {
        match statuses_get(statuses, index) {
            Some(item) => {
                if item.flags.blocks_checkout() {
                    return true;
                }
            },
            None => {},
        }
        index = index + 1;
    }
    false
}

/// A status list whose entries are all new files, staged or not, and
/// nothing else, holds nothing that blocks a checkout, while each of its
/// entries is listed.
pub proof fn lemma_new_files_listed_not_blocking(entries: Seq<StatusItemView>)
    requires
        forall|i: int|
            0 <= i < entries.len() ==> {
                let f = (#[trigger] entries[i]).flags;
                (f.wt_new || f.index_new) && !f.wt_modified && !f.wt_deleted && !f.index_modified
                    && !f.index_deleted
            },
    ensures
        !blocks_checkout(entries),
        forall|i: int| 0 <= i < entries.len() ==> listed_entry(#[trigger] entries[i]) is Some,
{
}

/// A status list with a path that is modified or deleted, staged or not,
/// blocks a checkout, and that path is listed.
pub proof fn lemma_modified_blocks(entries: Seq<StatusItemView>, i: int)
    requires
        0 <= i < entries.len(),
        entries[i].flags.wt_modified || entries[i].flags.wt_deleted
            || entries[i].flags.index_modified || entries[i].flags.index_deleted,
    ensures
        blocks_checkout(entries),
        listed_entry(entries[i]) is Some,
{
}

/// The kinds of failure of the list of working changes.
pub open spec fn is_working_changes_failure(kind: ErrorKind) -> bool {
    kind == ErrorKind::RepositoryNotFound || kind == ErrorKind::Backend
}

/// Lists the uncommitted changes of the repository at `repo_path`: every
/// path that is new, deleted, modified or renamed in the index or in the
/// working tree, with its status. A path that is new in the working tree
/// alone is untracked. No entry carries a previous path.
pub fn get_working_changes(repo_path: &str) -> (res: Result<Vec<ChangedFile>, GitError>)
    ensures
        res matches Ok(files) ==> forall|i: int|
            0 <= i < files.len() ==> is_working_change((#[trigger] files[i])@),
        res matches Err(e) ==> is_working_changes_failure(e.kind) && e.worded(),
{
    let repo = match open_at(repo_path) {
        Ok(r) => r,
        Err(e) => {
            return Err(e);
        },
    };
    let statuses = match repo_statuses(&repo) {
        Ok(s) => s,
        Err(e) => {
            return Err(GitError::from_backend(ErrorKind::Backend, "Failed to get statuses", &e));
        },
    };
    Ok(changes_of(&repo, &statuses))
}

} // verus!
