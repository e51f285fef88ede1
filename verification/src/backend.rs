//! The boundary to `git2`: the types that are carried through, and one
//! function for each call that is made. None of the contracts in this file
//! is proved; each says what the called code is taken to do.

use crate::raw::{
    hunks_marked, is_full_oid, is_oid_text, AuthorInfo, BranchScope, HunkHeader, ListedDelta, RawHunkView,
    RawLine, StatusItem, StatusItemView,
};
use crate::status::{DeltaKind, StatusFlags};
use git2::Branch as GitBranch;
use git2::Commit as GitCommit;
use vstd::prelude::*;
use vstd::utf8::{decode_utf8, valid_utf8};

verus! {

/// `git2::Repository`: an open repository.
#[verifier::external_type_specification]
#[verifier::external_body]
pub struct ExRepository(git2::Repository);

/// `git2::Error`: a failure of the backend.
#[verifier::external_type_specification]
#[verifier::external_body]
pub struct ExError(git2::Error);

/// `git2::Oid`: an object id.
#[verifier::external_type_specification]
#[verifier::external_body]
pub struct ExOid(git2::Oid);

/// `git2::Commit`: a commit of a repository.
#[verifier::external_type_specification]
#[verifier::external_body]
pub struct ExGitCommit<'repo>(GitCommit<'repo>);

/// `git2::Tree`: a tree of a repository.
#[verifier::external_type_specification]
#[verifier::external_body]
pub struct ExTree<'repo>(git2::Tree<'repo>);

/// `git2::TreeEntry`: an entry of a tree.
#[verifier::external_type_specification]
#[verifier::external_body]
pub struct ExTreeEntry<'tree>(git2::TreeEntry<'tree>);

/// `git2::Object`: an object of a repository.
#[verifier::external_type_specification]
#[verifier::external_body]
pub struct ExObject<'repo>(git2::Object<'repo>);

/// `git2::Blob`: the content of a file.
#[verifier::external_type_specification]
#[verifier::external_body]
pub struct ExBlob<'repo>(git2::Blob<'repo>);

/// `git2::Revwalk`: a walk through the history.
#[verifier::external_type_specification]
#[verifier::external_body]
pub struct ExRevwalk<'repo>(git2::Revwalk<'repo>);

/// `git2::Reference`: a reference of a repository.
#[verifier::external_type_specification]
#[verifier::external_body]
pub struct ExReference<'repo>(git2::Reference<'repo>);

/// `git2::Branch`: a branch of a repository.
#[verifier::external_type_specification]
#[verifier::external_body]
pub struct ExGitBranch<'repo>(GitBranch<'repo>);

/// `git2::BranchType`: local or remote; it is what `Branches` yields beside a branch.
#[verifier::external_type_specification]
#[verifier::external_body]
pub struct ExBranchType(git2::BranchType);

/// `git2::Branches`: an iterator over branches.
#[verifier::external_type_specification]
#[verifier::external_body]
pub struct ExBranches<'repo>(git2::Branches<'repo>);

/// `git2::Statuses`: a status list.
#[verifier::external_type_specification]
#[verifier::external_body]
pub struct ExStatuses<'repo>(git2::Statuses<'repo>);

/// `git2::Diff`: the changed files of a comparison.
#[verifier::external_type_specification]
#[verifier::external_body]
pub struct ExDiff<'repo>(git2::Diff<'repo>);

/// `git2::DiffOptions`: the options of a comparison.
#[verifier::external_type_specification]
#[verifier::external_body]
pub struct ExDiffOptions(git2::DiffOptions);

/// `git2::Delta`: the kind of change of one file in a diff.
#[verifier::external_type_specification]
#[verifier::external_body]
pub struct ExDelta(git2::Delta);

/// `git2::Patch`: the hunks and lines of one file of a diff.
#[verifier::external_type_specification]
#[verifier::external_body]
pub struct ExPatch<'buffers>(git2::Patch<'buffers>);

/// `git2::build::CheckoutBuilder`: the options of a checkout.
#[verifier::external_type_specification]
#[verifier::external_body]
pub struct ExCheckoutBuilder<'cb>(git2::build::CheckoutBuilder<'cb>);

/// The hunks that a patch holds, in order, each with its header and with
/// its lines in order: what `Patch::num_hunks`, `Patch::hunk`,
/// `Patch::num_lines_in_hunk`, `Patch::line_in_hunk` and
/// `Patch::line_stats` read.
pub uninterp spec fn patch_hunks(patch: git2::Patch<'_>) -> Seq<RawHunkView>;

/// The last component of a path, as `Path::file_name` reads paths, where
/// the path has one.
pub uninterp spec fn file_name_of(path: Seq<char>) -> Option<Seq<char>>;

/// The ids of the parents that a commit holds, in order, in hex: what
/// `Commit::parent_count` counts and `Commit::parent` looks up.
pub uninterp spec fn commit_parents(commit: GitCommit<'_>) -> Seq<Seq<char>>;

/// The old path and the new path of each file that a diff lists, in
/// order: what `Diff::deltas` counts and `Diff::get_delta` reads. The kind
/// of change and the binary flags are no part of it: the backend may still
/// change them when it loads the content of a file.
pub uninterp spec fn diff_paths(diff: git2::Diff<'_>) -> Seq<(Option<Seq<char>>, Option<Seq<char>>)>;

/// The entries that a status list holds, in order: what `Statuses::len`
/// and `Statuses::get` read.
pub uninterp spec fn status_entries(statuses: git2::Statuses<'_>) -> Seq<StatusItemView>;

// ----- errors and text -----

/// `git2::Error`'s `Display`: the message of a backend error.
#[verifier::external_body]
pub(crate) fn error_text(e: &git2::Error) -> (text: String) {
    e.to_string()
}

/// `String::from_utf8`: succeeds exactly on valid UTF-8 and then gives the
/// decoded text.
#[verifier::external_body]
pub(crate) fn utf8_text(bytes: Vec<u8>) -> (text: Option<String>)
    ensures
        text is Some <==> valid_utf8(bytes@),
        text matches Some(s) ==> s@ == decode_utf8(bytes@),
{
    String::from_utf8(bytes).ok()
}

/// `Path::file_name`: the last component of a path, where it has one that
/// is valid UTF-8.
#[verifier::external_body]
pub(crate) fn path_file_name(path: &str) -> (name: Option<String>)
    ensures
        name.deep_view() == file_name_of(path@),
{
    std::path::Path::new(path).file_name().and_then(|n| n.to_str()).map(|n| n.to_string())
}

// ----- repository -----

/// `Repository::open`.
#[verifier::external_body]
pub(crate) fn open_repository(path: &str) -> (res: Result<git2::Repository, git2::Error>) {
    git2::Repository::open(path)
}

/// `Repository::workdir`: the working directory, none for a bare
/// repository.
#[verifier::external_body]
pub(crate) fn repo_workdir(repo: &git2::Repository) -> (dir: Option<String>) {
    repo.workdir().map(|p| p.to_string_lossy().to_string())
}

/// `Repository::head`.
#[verifier::external_body]
pub(crate) fn repo_head<'r>(repo: &'r git2::Repository) -> (res: Result<
    git2::Reference<'r>,
    git2::Error,
>) {
    repo.head()
}

/// `Repository::set_head`.
#[verifier::external_body]
pub(crate) fn repo_set_head(repo: &git2::Repository, refname: &str) -> (res: Result<
    (),
    git2::Error,
>) {
    repo.set_head(refname)
}

/// `Repository::checkout_tree`, on a tree.
#[verifier::external_body]
pub(crate) fn repo_checkout_tree(
    repo: &git2::Repository,
    tree: &git2::Tree<'_>,
    options: &mut git2::build::CheckoutBuilder<'_>,
) -> (res: Result<(), git2::Error>) {
    repo.checkout_tree(tree.as_object(), Some(options))
}

/// `Repository::find_commit`.
#[verifier::external_body]
pub(crate) fn repo_find_commit<'r>(repo: &'r git2::Repository, oid: git2::Oid) -> (res: Result<
    GitCommit<'r>,
    git2::Error,
>) {
    repo.find_commit(oid)
}

/// `Repository::find_branch`, among the local branches.
#[verifier::external_body]
pub(crate) fn repo_find_local_branch<'r>(repo: &'r git2::Repository, name: &str) -> (res: Result<
    GitBranch<'r>,
    git2::Error,
>) {
    repo.find_branch(name, git2::BranchType::Local)
}

/// `Repository::branches`, with a filter.
#[verifier::external_body]
pub(crate) fn repo_branches<'r>(repo: &'r git2::Repository, scope: BranchScope) -> (res: Result<
    git2::Branches<'r>,
    git2::Error,
>) {
    repo.branches(
        Some(
            match scope {
                BranchScope::Local => git2::BranchType::Local,
                BranchScope::Remote => git2::BranchType::Remote,
            },
        ),
    )
}

/// `Repository::statuses`, with the default options.
#[verifier::external_body]
pub(crate) fn repo_statuses<'r>(repo: &'r git2::Repository) -> (res: Result<
    git2::Statuses<'r>,
    git2::Error,
>) {
    repo.statuses(None)
}

/// `Repository::revwalk`.
#[verifier::external_body]
pub(crate) fn repo_revwalk<'r>(repo: &'r git2::Repository) -> (res: Result<
    git2::Revwalk<'r>,
    git2::Error,
>) {
    repo.revwalk()
}

/// `Repository::diff_tree_to_tree`; no old tree stands for the empty tree.
#[verifier::external_body]
pub(crate) fn repo_diff_trees<'r>(
    repo: &'r git2::Repository,
    old_tree: Option<&git2::Tree<'_>>,
    new_tree: &git2::Tree<'_>,
    options: &mut git2::DiffOptions,
) -> (res: Result<git2::Diff<'r>, git2::Error>) {
    repo.diff_tree_to_tree(old_tree, Some(new_tree), Some(options))
}

/// `Repository::diff_tree_to_workdir_with_index`.
#[verifier::external_body]
pub(crate) fn repo_diff_workdir<'r>(
    repo: &'r git2::Repository,
    old_tree: Option<&git2::Tree<'_>>,
    options: &mut git2::DiffOptions,
) -> (res: Result<git2::Diff<'r>, git2::Error>) {
    repo.diff_tree_to_workdir_with_index(old_tree, Some(options))
}

// ----- history -----

/// `Revwalk::push_head`.
#[verifier::external_body]
pub(crate) fn revwalk_push_head(walk: &mut git2::Revwalk<'_>) -> (res: Result<(), git2::Error>) {
    walk.push_head()
}

/// `Revwalk`'s `next`.
#[verifier::external_body]
pub(crate) fn revwalk_next(walk: &mut git2::Revwalk<'_>) -> (res: Option<
    Result<git2::Oid, git2::Error>,
>) {
    walk.next()
}

/// `Oid::from_str`: succeeds exactly on one to forty hexadecimal digits.
#[verifier::external_body]
pub(crate) fn parse_oid(text: &str) -> (res: Result<git2::Oid, git2::Error>)
    ensures
        res is Ok <==> is_oid_text(text@),
{
    git2::Oid::from_str(text)
}

/// `Oid`'s `Display`: the object id in hex, which is forty hexadecimal
/// digits in lower case.
#[verifier::external_body]
pub(crate) fn oid_hex(oid: &git2::Oid) -> (hex: String)
    ensures
        is_full_oid(hex@),
{
    oid.to_string()
}

/// `Commit::id`.
#[verifier::external_body]
pub(crate) fn commit_id(commit: &GitCommit<'_>) -> (oid: git2::Oid) {
    commit.id()
}

/// `Commit::message`: the message, where it is valid UTF-8.
#[verifier::external_body]
pub(crate) fn commit_message(commit: &GitCommit<'_>) -> (message: Option<String>) {
    commit.message().ok().map(|m| m.to_string())
}

/// `Commit::author`, with the name, the email and the time of the
/// signature.
#[verifier::external_body]
pub(crate) fn commit_author(commit: &GitCommit<'_>) -> (author: AuthorInfo) {
    let signature = commit.author();
    AuthorInfo {
        name: signature.name().ok().map(|n| n.to_string()),
        email: signature.email().ok().map(|e| e.to_string()),
        seconds: signature.when().seconds(),
    }
}

/// `Commit::tree`.
#[verifier::external_body]
pub(crate) fn commit_tree<'r>(commit: &GitCommit<'r>) -> (res: Result<
    git2::Tree<'r>,
    git2::Error,
>) {
    commit.tree()
}

/// `Commit::parent_count`: the number of the parents that the commit
/// holds.
#[verifier::external_body]
pub(crate) fn commit_parent_count(commit: &GitCommit<'_>) -> (count: usize)
    ensures
        count == commit_parents(*commit).len(),
{
    commit.parent_count()
}

/// `Commit::parent`: fails at an index that is no parent's. The call
/// takes the index as a 32-bit number, so it is kept to such numbers.
#[verifier::external_body]
pub(crate) fn commit_parent<'r>(commit: &GitCommit<'r>, index: usize) -> (res: Result<
    GitCommit<'r>,
    git2::Error,
>)
    requires
        index <= u32::MAX,
    ensures
        res is Ok ==> index < commit_parents(*commit).len(),
{
    commit.parent(index)
}

// ----- trees and blobs -----

/// `Tree::get_path`.
#[verifier::external_body]
pub(crate) fn tree_get_path(tree: &git2::Tree<'_>, path: &str) -> (res: Result<
    git2::TreeEntry<'static>,
    git2::Error,
>) {
    tree.get_path(std::path::Path::new(path))
}

/// `TreeEntry::to_object`.
#[verifier::external_body]
pub(crate) fn entry_to_object<'r>(
    entry: &git2::TreeEntry<'_>,
    repo: &'r git2::Repository,
) -> (res: Result<git2::Object<'r>, git2::Error>) {
    entry.to_object(repo)
}

/// `Object::as_blob`.
#[verifier::external_body]
pub(crate) fn object_as_blob<'a, 'r>(object: &'a git2::Object<'r>) -> (blob: Option<
    &'a git2::Blob<'r>,
>) {
    object.as_blob()
}

/// `Blob::is_binary`.
#[verifier::external_body]
pub(crate) fn blob_is_binary(blob: &git2::Blob<'_>) -> (binary: bool) {
    blob.is_binary()
}

/// `Blob::content`, copied.
#[verifier::external_body]
pub(crate) fn blob_content(blob: &git2::Blob<'_>) -> (bytes: Vec<u8>) {
    blob.content().to_vec()
}

// ----- references and branches -----

/// `Reference::is_branch`.
#[verifier::external_body]
pub(crate) fn reference_is_branch(reference: &git2::Reference<'_>) -> (is_branch: bool) {
    reference.is_branch()
}

/// `Reference::shorthand`: the short name, where it is valid UTF-8.
#[verifier::external_body]
pub(crate) fn reference_shorthand(reference: &git2::Reference<'_>) -> (name: Option<String>) {
    reference.shorthand().ok().map(|n| n.to_string())
}

/// `Reference::name`: the full name, where it is valid UTF-8.
#[verifier::external_body]
pub(crate) fn reference_name(reference: &git2::Reference<'_>) -> (name: Option<String>) {
    reference.name().ok().map(|n| n.to_string())
}

/// `Reference::target`.
#[verifier::external_body]
pub(crate) fn reference_target(reference: &git2::Reference<'_>) -> (oid: Option<git2::Oid>) {
    reference.target()
}

/// `Reference::peel_to_commit`.
#[verifier::external_body]
pub(crate) fn reference_peel_to_commit<'r>(reference: &git2::Reference<'r>) -> (res: Result<
    GitCommit<'r>,
    git2::Error,
>) {
    reference.peel_to_commit()
}

/// `Reference::peel_to_tree`.
#[verifier::external_body]
pub(crate) fn reference_peel_to_tree<'r>(reference: &git2::Reference<'r>) -> (res: Result<
    git2::Tree<'r>,
    git2::Error,
>) {
    reference.peel_to_tree()
}

/// `Branches`' `next`, without the branch type.
#[verifier::external_body]
pub(crate) fn branches_next<'r>(branches: &mut git2::Branches<'r>) -> (res: Option<
    Result<GitBranch<'r>, git2::Error>,
>) {
    branches.next().map(|item| item.map(|(branch, _)| branch))
}

/// `Branch::name`: the name; none inside where it is not valid UTF-8.
#[verifier::external_body]
pub(crate) fn branch_name(branch: &GitBranch<'_>) -> (res: Result<
    Option<String>,
    git2::Error,
>) {
    branch.name().map(|name| name.map(|n| n.to_string()))
}

/// `Branch::get`.
#[verifier::external_body]
pub(crate) fn branch_reference<'a, 'r>(branch: &'a GitBranch<'r>) -> (reference: &'a git2::Reference<
    'r,
>) {
    branch.get()
}

/// `Branch::into_reference`.
#[verifier::external_body]
pub(crate) fn branch_into_reference<'r>(branch: GitBranch<'r>) -> (reference: git2::Reference<
    'r,
>) {
    branch.into_reference()
}

/// `CheckoutBuilder::new`.
#[verifier::external_body]
pub(crate) fn checkout_options<'cb>() -> (options: git2::build::CheckoutBuilder<'cb>) {
    git2::build::CheckoutBuilder::new()
}

/// `CheckoutBuilder::force`.
#[verifier::external_body]
pub(crate) fn checkout_options_force(options: &mut git2::build::CheckoutBuilder<'_>) {
    options.force();
}

// ----- status lists -----

/// `Statuses::len`: the number of entries.
#[verifier::external_body]
pub(crate) fn statuses_len(statuses: &git2::Statuses<'_>) -> (len: usize)
    ensures
        len == status_entries(*statuses).len(),
{
    statuses.len()
}

/// `Statuses::get`: the entry at an index below the length, none at any
/// other; with `StatusEntry::path` and the flags of `StatusEntry::status`.
#[verifier::external_body]
pub(crate) fn statuses_get(statuses: &git2::Statuses<'_>, index: usize) -> (item: Option<
    StatusItem,
>)
    ensures
        item is Some <==> index < status_entries(*statuses).len(),
        item matches Some(it) ==> it@ == status_entries(*statuses)[index as int],
{
    let entry = statuses.get(index)?;
    let status = entry.status();
    let flags = StatusFlags {
        index_new: status.is_index_new(),
        index_modified: status.is_index_modified(),
        index_deleted: status.is_index_deleted(),
        index_renamed: status.is_index_renamed(),
        wt_new: status.is_wt_new(),
        wt_modified: status.is_wt_modified(),
        wt_deleted: status.is_wt_deleted(),
        wt_renamed: status.is_wt_renamed(),
    };
    Some(StatusItem { path: entry.path().ok().map(|p| p.to_string()), flags })
}

// ----- diffs -----

/// `DiffOptions::new`.
#[verifier::external_body]
pub(crate) fn diff_options() -> (options: git2::DiffOptions) {
    git2::DiffOptions::new()
}

/// `DiffOptions::pathspec`. The call panics on a path with a NUL.
#[verifier::external_body]
pub(crate) fn diff_options_pathspec(options: &mut git2::DiffOptions, path: &str)
    requires
        !path@.contains('\0'),
{
    options.pathspec(path);
}

/// `DiffOptions::include_untracked`.
#[verifier::external_body]
pub(crate) fn diff_options_include_untracked(options: &mut git2::DiffOptions, on: bool) {
    options.include_untracked(on);
}

/// `Diff::stats`, with `DiffStats::insertions` and `DiffStats::deletions`.
#[verifier::external_body]
pub(crate) fn diff_stats(diff: &git2::Diff<'_>) -> (res: Result<(usize, usize), git2::Error>) {
    diff.stats().map(|stats| (stats.insertions(), stats.deletions()))
}

/// `Diff::deltas`, for its length: the number of files that the diff
/// lists.
#[verifier::external_body]
pub(crate) fn diff_len(diff: &git2::Diff<'_>) -> (len: usize)
    ensures
        len == diff_paths(*diff).len(),
{
    diff.deltas().len()
}

/// `Diff::get_delta`: the entry at an index below the length, none at any
/// other; with `DiffDelta::status`, and of `DiffDelta::old_file` and
/// `DiffDelta::new_file` the `DiffFile::path`, as text, and
/// `DiffFile::is_binary`.
#[verifier::external_body]
pub(crate) fn diff_get_delta(diff: &git2::Diff<'_>, index: usize) -> (delta: Option<ListedDelta>)
    ensures
        delta is Some <==> index < diff_paths(*diff).len(),
        delta matches Some(d) ==> (d.old_path.deep_view(), d.new_path.deep_view()) == diff_paths(
            *diff,
        )[index as int],
{
    let delta = diff.get_delta(index)?;
    let (old_file, new_file) = (delta.old_file(), delta.new_file());
    Some(
        ListedDelta {
            status: delta.status(),
            old_path: old_file.path().map(|p| p.to_string_lossy().to_string()),
            new_path: new_file.path().map(|p| p.to_string_lossy().to_string()),
            old_binary: old_file.is_binary(),
            new_binary: new_file.is_binary(),
        },
    )
}

/// The variants of `git2::Delta`, one by one.
#[verifier::external_body]
pub(crate) fn delta_kind(status: git2::Delta) -> (kind: DeltaKind) {
    match status {
        git2::Delta::Unmodified => DeltaKind::Unmodified,
        git2::Delta::Added => DeltaKind::Added,
        git2::Delta::Deleted => DeltaKind::Deleted,
        git2::Delta::Modified => DeltaKind::Modified,
        git2::Delta::Renamed => DeltaKind::Renamed,
        git2::Delta::Copied => DeltaKind::Copied,
        git2::Delta::Ignored => DeltaKind::Ignored,
        git2::Delta::Untracked => DeltaKind::Untracked,
        git2::Delta::Typechange => DeltaKind::Typechange,
        git2::Delta::Unreadable => DeltaKind::Unreadable,
        git2::Delta::Conflicted => DeltaKind::Conflicted,
    }
}

// ----- patches -----

/// `Patch::from_diff`.
#[verifier::external_body]
pub(crate) fn patch_from_diff<'b>(diff: &git2::Diff<'b>, index: usize) -> (res: Result<
    Option<git2::Patch<'b>>,
    git2::Error,
>) {
    git2::Patch::from_diff(diff, index)
}

/// `Patch::line_stats`: the lines of context, the additions and the
/// deletions. The call counts the lines that the patch holds and never
/// fails. The additions are the lines marked `+` in all hunks, the
/// deletions those marked `-`.
#[verifier::external_body]
pub(crate) fn patch_line_stats(patch: &git2::Patch<'_>) -> (res: Result<
    (usize, usize, usize),
    git2::Error,
>)
    ensures
        res is Ok,
        res matches Ok(stats) ==> stats.1 == hunks_marked(patch_hunks(*patch), '+') && stats.2
            == hunks_marked(patch_hunks(*patch), '-'),
{
    patch.line_stats()
}

/// `Patch::num_hunks`: the number of hunks.
#[verifier::external_body]
pub(crate) fn patch_num_hunks(patch: &git2::Patch<'_>) -> (count: usize)
    ensures
        count == patch_hunks(*patch).len(),
{
    patch.num_hunks()
}

/// `Patch::hunk`: the header of the hunk at an index; fails exactly at
/// an index that is no hunk's.
#[verifier::external_body]
pub(crate) fn patch_hunk_header(patch: &git2::Patch<'_>, hunk: usize) -> (res: Result<
    HunkHeader,
    git2::Error,
>)
    ensures
        res is Ok <==> (hunk < patch_hunks(*patch).len()),
        res matches Ok(header) ==> header == patch_hunks(*patch)[hunk as int].header,
{
    let (h, _) = patch.hunk(hunk)?;
    Ok(
        HunkHeader {
            old_start: h.old_start(),
            old_lines: h.old_lines(),
            new_start: h.new_start(),
            new_lines: h.new_lines(),
        },
    )
}

/// `Patch::num_lines_in_hunk`: the number of lines of the hunk at an
/// index; fails only at an index that is no hunk's.
#[verifier::external_body]
pub(crate) fn patch_num_lines_in_hunk(patch: &git2::Patch<'_>, hunk: usize) -> (res: Result<
    usize,
    git2::Error,
>)
    ensures
        res is Ok <==> hunk < patch_hunks(*patch).len(),
        res matches Ok(count) ==> count == patch_hunks(*patch)[hunk as int].lines.len(),
{
    patch.num_lines_in_hunk(hunk)
}

/// `Patch::line_in_hunk`: the line at an index of a hunk, with its marker,
/// its text decoded leniently and its two line numbers; fails exactly at
/// an index that is no line's.
#[verifier::external_body]
pub(crate) fn patch_line(patch: &git2::Patch<'_>, hunk: usize, line: usize) -> (res: Result<
    RawLine,
    git2::Error,
>)
    ensures
        res is Ok <==> (hunk < patch_hunks(*patch).len() && line < patch_hunks(
            *patch,
        )[hunk as int].lines.len()),
        res matches Ok(raw) ==> raw@ == patch_hunks(*patch)[hunk as int].lines[line as int],
{
    let l = patch.line_in_hunk(hunk, line)?;
    Ok(
        RawLine {
            origin: l.origin(),
            content: String::from_utf8_lossy(l.content()).to_string(),
            old_lineno: l.old_lineno(),
            new_lineno: l.new_lineno(),
        },
    )
}

} // verus!
