//! Walking the history: the commits reachable from the head, newest first,
//! and the lookup of one commit with the trees of a comparison.

use crate::backend::{
    commit_parents, commit_author, commit_message, commit_parent, commit_parent_count, commit_tree, oid_hex,
    open_repository, parse_oid, repo_find_commit, repo_revwalk, revwalk_next, revwalk_push_head,
};
use crate::error::{ErrorKind, GitError};
use crate::model::{Commit, CommitView};
use crate::raw::{is_full_oid, is_oid_text, AuthorInfo};
use crate::text::{first_line, lemma_first_line_single, spec_first_line};
use git2::Commit as GitCommit;
use vstd::prelude::*;

verus! {

/// The number of commits that a listing holds at most when the caller
/// names no limit.
pub const DEFAULT_COMMIT_LIMIT: usize = 100;

/// The cap of a listing: the limit that the caller names, or the default.
pub open spec fn spec_commit_limit(limit: Option<usize>) -> usize {
    match limit {
        Some(n) => n,
        None => DEFAULT_COMMIT_LIMIT,
    }
}

/// The text of `value`, or `fallback` where there is none.
pub open spec fn text_or(value: Option<String>, fallback: Seq<char>) -> Seq<char> {
    match value {
        Some(s) => s@,
        None => fallback,
    }
}

/// The commit that is built from what the backend gives: the message cut
/// to its first line, the author's name `Unknown` and the email empty where
/// the backend has none.
pub open spec fn commit_of(id: Seq<char>, message: Option<String>, author: AuthorInfo)
    -> CommitView {
    CommitView {
        id,
        message: spec_first_line(text_or(message, Seq::empty())),
        author: text_or(author.name, "Unknown"@),
        email: text_or(author.email, Seq::empty()),
        timestamp: author.seconds,
    }
}

/// Builds a commit from what the backend gives.
pub fn make_commit(id: String, message: Option<String>, author: AuthorInfo) -> (c: Commit)
    ensures
        c@ == commit_of(id@, message, author),
        !c.message@.contains('\n'),
{
    let summary = match &message {
        Some(m) => first_line(m.as_str()),
        None => first_line(""),
    };
    proof {
        reveal_strlit("");
        lemma_first_line_single(text_or(message, Seq::empty()));
        assert(""@ =~= Seq::<char>::empty());
    }
    let name = match author.name {
        Some(n) => n,
        None => "Unknown".to_owned(),
    };
    let email = match author.email {
        Some(e) => e,
        None => String::new(),
    };
    Commit { id, message: summary, author: name, email, timestamp: author.seconds }
}

/// Opens the repository at `repo_path`. A repository that does not open
/// is reported as not found, with the backend's words.
pub(crate) fn open_at(repo_path: &str) -> (res: Result<git2::Repository, GitError>)
    ensures
        res matches Err(e) ==> e.kind == ErrorKind::RepositoryNotFound && e.worded(),
{
    match open_repository(repo_path) {
        Ok(r) => Ok(r),
        Err(e) => Err(
            GitError::from_backend(ErrorKind::RepositoryNotFound, "Failed to open repository", &e),
        ),
    }
}

/// What holds of every commit of a history listing: its id is an object
/// id written out in full, and its message is a single line.
pub open spec fn is_listed_commit(commit: CommitView) -> bool {
    is_full_oid(commit.id) && !commit.message.contains('\n')
}

/// The kinds of failure of a history listing.
pub open spec fn is_history_failure(kind: ErrorKind) -> bool {
    kind == ErrorKind::RepositoryNotFound || kind == ErrorKind::RevisionResolutionFailed || kind
        == ErrorKind::CommitNotFound || kind == ErrorKind::Backend
}

/// Lists the commits reachable from the head of the repository at
/// `repo_path`, newest first, at most `limit` of them (100 where no limit
/// is named). Each commit carries the first line of its message.
pub fn list_commits(repo_path: &str, limit: Option<usize>) -> (res: Result<Vec<Commit>, GitError>)
    ensures
        res matches Ok(commits) ==> commits.len() <= spec_commit_limit(limit) && forall|i: int|
            0 <= i < commits.len() ==> is_listed_commit((#[trigger] commits[i])@),
        res matches Err(e) ==> is_history_failure(e.kind) && e.worded(),
{
    let repo = match open_at(repo_path) {
        Ok(r) => r,
        Err(e) => {
            return Err(e);
        },
    };
    let mut walk = match repo_revwalk(&repo) {
        Ok(w) => w,
        Err(e) => {
            return Err(GitError::from_backend(ErrorKind::Backend, "Failed to create revwalk", &e));
        },
    };
    match revwalk_push_head(&mut walk) {
        Ok(()) => {},
        Err(e) => {
            return Err(
                GitError::from_backend(
                    ErrorKind::RevisionResolutionFailed,
                    "Failed to push HEAD",
                    &e,
                ),
            );
        },
    }
    let cap: usize = match limit {
        Some(n) => n,
        None => DEFAULT_COMMIT_LIMIT,
    };
    let mut commits: Vec<Commit> = Vec::new();
    while commits.len() < cap
        invariant
            cap == spec_commit_limit(limit),
            commits.len() <= cap,
            forall|i: int| 0 <= i < commits.len() ==> is_listed_commit((#[trigger] commits[i])@),
        decreases cap - commits.len(),
    {
        let oid = match revwalk_next(&mut walk) {
            None => {
                break ;
            },
            Some(Err(e)) => {
                return Err(
                    GitError::from_backend(ErrorKind::Backend, "Failed to get commit oid", &e),
                );
            },
            Some(Ok(oid)) => oid,
        };
        let commit = match repo_find_commit(&repo, oid) {
            Ok(c) => c,
            Err(e) => {
                return Err(
                    GitError::from_backend(ErrorKind::CommitNotFound, "Failed to find commit", &e),
                );
            },
        };
        let author = commit_author(&commit);
        let message = commit_message(&commit);
        commits.push(make_commit(oid_hex(&oid), message, author));
    }
    Ok(commits)
}

/// The kinds of failure of the lookup of a commit by its id.
pub open spec fn is_lookup_failure(kind: ErrorKind) -> bool {
    kind == ErrorKind::InvalidRevisionId || kind == ErrorKind::CommitNotFound
}

/// What holds of the failure of an operation on the commit with the id
/// `commit_id` in a repository that is opened first: an id that cannot be
/// an object id makes the operation fail, as an invalid id unless the
/// repository does not open; and nothing else fails as an invalid id.
pub open spec fn id_checked(failure: Option<ErrorKind>, commit_id: Seq<char>) -> bool {
    &&& !is_oid_text(commit_id) ==> failure == Some(ErrorKind::RepositoryNotFound) || failure
        == Some(ErrorKind::InvalidRevisionId)
    &&& failure == Some(ErrorKind::InvalidRevisionId) ==> !is_oid_text(commit_id)
}

/// Reads `commit_id` as an object id: one to forty hexadecimal digits.
/// Any other text is refused as an invalid id, under a context that names
/// it.
pub(crate) fn parse_id(commit_id: &str) -> (res: Result<git2::Oid, GitError>)
    ensures
        res is Ok <==> is_oid_text(commit_id@),
        res matches Err(e) ==> e.kind == ErrorKind::InvalidRevisionId && e.has_context(
            "Invalid commit ID '"@ + commit_id@ + "'"@,
        ),
{
    match parse_oid(commit_id) {
        Ok(oid) => Ok(oid),
        Err(e) => {
            let context = "Invalid commit ID '".to_owned().concat(commit_id).concat("'");
            Err(GitError::from_backend(ErrorKind::InvalidRevisionId, context.as_str(), &e))
        },
    }
}

/// Looks up the commit with the object id `oid`.
pub(crate) fn lookup_commit<'r>(repo: &'r git2::Repository, oid: git2::Oid) -> (res: Result<
    GitCommit<'r>,
    GitError,
>)
    ensures
        res matches Err(e) ==> e.kind == ErrorKind::CommitNotFound && e.has_context(
            "Failed to find commit"@,
        ),
{
    match repo_find_commit(repo, oid) {
        Ok(c) => Ok(c),
        Err(e) => Err(
            GitError::from_backend(ErrorKind::CommitNotFound, "Failed to find commit", &e),
        ),
    }
}

/// Looks up the commit with the id `commit_id`. A text that is no object
/// id is refused before the repository is asked.
pub(crate) fn find_commit<'r>(repo: &'r git2::Repository, commit_id: &str) -> (res: Result<
    GitCommit<'r>,
    GitError,
>)
    ensures
        !is_oid_text(commit_id@) <==> (res matches Err(e) && e.kind
            == ErrorKind::InvalidRevisionId),
        res matches Err(e) ==> is_lookup_failure(e.kind) && e.worded() && e.says_invalid_id(
            commit_id@,
        ),
{
    match parse_id(commit_id) {
        Ok(oid) => lookup_commit(repo, oid),
        Err(e) => Err(e),
    }
}

/// The tree of a commit.
pub(crate) fn tree_of<'r>(commit: &GitCommit<'r>) -> (res: Result<git2::Tree<'r>, GitError>)
    ensures
        res matches Err(e) ==> e.kind == ErrorKind::Backend,
{
    match commit_tree(commit) {
        Ok(t) => Ok(t),
        Err(e) => Err(GitError::from_backend(ErrorKind::Backend, "Failed to get commit tree", &e)),
    }
}

/// The parent that a commit is compared with: the first, or none for a
/// commit without parents, which is then compared with the empty tree.
pub open spec fn spec_comparison_parent(parent_count: usize) -> Option<usize> {
    if parent_count > 0 {
        Some(0usize)
    } else {
        None
    }
}

/// Picks the parent that a commit with `parent_count` parents is compared
/// with.
pub fn comparison_parent(parent_count: usize) -> (parent: Option<usize>)
    ensures
        parent == spec_comparison_parent(parent_count),
{
    if parent_count > 0 {
        Some(0)
    } else {
        None
    }
}

/// The tree that a commit is compared with: that of its first parent, or
/// none, which stands for the empty tree, where the commit has no parent.
pub(crate) fn parent_tree_of<'r>(commit: &GitCommit<'r>) -> (res: Result<Option<git2::Tree<'r>>, GitError>)
    ensures
        commit_parents(*commit).len() == 0 ==> res matches Ok(None),
        res matches Ok(None) ==> commit_parents(*commit).len() == 0,
        res matches Err(e) ==> e.kind == ErrorKind::Backend,
{
    match comparison_parent(commit_parent_count(commit)) {
        Some(index) => {
            let parent = match commit_parent(commit, index) {
                Ok(p) => p,
                Err(e) => {
                    return Err(
                        GitError::from_backend(
                            ErrorKind::Backend,
                            "Failed to get parent commit",
                            &e,
                        ),
                    );
                },
            };
            match commit_tree(&parent) {
                Ok(t) => Ok(Some(t)),
                Err(e) => Err(
                    GitError::from_backend(ErrorKind::Backend, "Failed to get parent tree", &e),
                ),
            }
        },
        None => Ok(None),
    }
}

} // verus!
