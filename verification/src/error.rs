//! The failures that an operation reports.

use crate::backend::error_text;
use vstd::prelude::*;

verus! {

/// The kinds of failure.
#[derive(Debug, Clone, Copy, PartialEq, Eq, Structural)]
pub enum ErrorKind {
    /// The path does not open as a repository.
    RepositoryNotFound,
    /// The path is no repository with a working directory.
    NotARepository,
    /// The starting reference cannot be resolved.
    RevisionResolutionFailed,
    /// No commit has the given id.
    CommitNotFound,
    /// The text is no object id.
    InvalidRevisionId,
    /// The path has no change in the comparison.
    FileNotInComparison,
    /// The path is absent on both sides of the comparison.
    FileNotFound,
    /// The content is not binary, yet no valid UTF-8 text.
    NonUtf8Content,
    /// Uncommitted changes would be overwritten.
    UncommittedChangesConflict,
    /// No local branch has the given name.
    BranchNotFound,
    /// Any other failure that the backend reports.
    Backend,
}

/// A failure: its kind and a message for people.
#[derive(Debug, Clone)]
pub struct GitError {
    pub kind: ErrorKind,
    pub text: String,
}

/// The message of a conflict with uncommitted changes.
pub open spec fn conflict_text() -> Seq<char> {
    "Cannot switch branches: you have uncommitted changes that would be overwritten"@
}

/// The context under which a repository that does not open is reported.
pub open spec fn not_opened_context() -> Seq<char> {
    "Failed to open repository"@
}

/// The kind of the failure of an operation, none where it succeeded.
pub open spec fn failure_of<T>(res: Result<T, GitError>) -> Option<ErrorKind> {
    match res {
        Ok(_) => None,
        Err(e) => Some(e.kind),
    }
}

impl GitError {
    /// Whether the message is `context`, a colon and further words.
    pub open spec fn has_context(self, context: Seq<char>) -> bool {
        (context + ": "@).is_prefix_of(self.text@)
    }

    /// What holds of the message of every failure the kind of which is
    /// worded alike in the whole library. A repository that does not open,
    /// a commit that is not found, a head that does not resolve and a path
    /// that is no repository are reported under their contexts, with the
    /// backend's words behind, or in a fixed sentence; a conflict with
    /// uncommitted changes and content that is no valid UTF-8 each in one
    /// sentence.
    pub open spec fn worded(self) -> bool {
        &&& self.kind == ErrorKind::RepositoryNotFound ==> self.has_context(not_opened_context())
        &&& self.kind == ErrorKind::UncommittedChangesConflict ==> self.text@ == conflict_text()
        &&& self.kind == ErrorKind::NonUtf8Content ==> self.text@ == "File is not valid UTF-8"@
        &&& self.kind == ErrorKind::CommitNotFound ==> self.has_context("Failed to find commit"@)
        &&& self.kind == ErrorKind::RevisionResolutionFailed ==> self.has_context(
            "Failed to push HEAD"@,
        ) || self.has_context("Failed to get HEAD"@) || self.text@ == "HEAD has no target"@
        &&& self.kind == ErrorKind::NotARepository ==> self.has_context(
            "Not a valid git repository"@,
        ) || self.text@ == "Repository has no working directory (bare repo)"@ || self.text@
            == "Repository has no working directory"@
    }

    /// Whether the failure names `commit_id` as the text that is no object
    /// id, where it is a failure of that kind at all.
    pub open spec fn says_invalid_id(self, commit_id: Seq<char>) -> bool {
        self.kind == ErrorKind::InvalidRevisionId ==> self.has_context(
            "Invalid commit ID '"@ + commit_id + "'"@,
        )
    }

    /// Whether the failure names `branch_name` as the branch that is not
    /// found, where it is a failure of that kind at all.
    pub open spec fn says_branch_not_found(self, branch_name: Seq<char>) -> bool {
        self.kind == ErrorKind::BranchNotFound ==> self.has_context(
            "Branch '"@ + branch_name + "' not found"@,
        )
    }

    /// A failure with a fixed message.
    pub fn new(kind: ErrorKind, text: &str) -> (e: GitError)
        ensures
            e.kind == kind,
            e.text@ == text@,
    {
        GitError { kind, text: text.to_owned() }
    }

    /// A failure whose message is `context`, a colon and `detail`.
    pub fn with_detail(kind: ErrorKind, context: &str, detail: &str) -> (e: GitError)
        ensures
            e.kind == kind,
            e.text@ == context@ + ": "@ + detail@,
    {
        let text = context.to_owned().concat(": ").concat(detail);
        GitError { kind, text }
    }

    /// A failure whose message names a subject between two fixed parts.
    pub fn about(kind: ErrorKind, before: &str, subject: &str, after: &str) -> (e: GitError)
        ensures
            e.kind == kind,
            e.text@ == before@ + subject@ + after@,
    {
        let text = before.to_owned().concat(subject).concat(after);
        GitError { kind, text }
    }

    /// A failure that the backend reported: the message is `context`, a
    /// colon and the backend's own words.
    pub fn from_backend(kind: ErrorKind, context: &str, cause: &git2::Error) -> (e: GitError)
        ensures
            e.kind == kind,
            e.has_context(context@),
    {
        let detail = error_text(cause);
        GitError::with_detail(kind, context, detail.as_str())
    }

    /// The message.
    pub fn message(&self) -> (s: String)
        ensures
            s@ == self.text@,
    {
        self.text.clone()
    }
}

} // verus!
