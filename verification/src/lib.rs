//! Inspection of a git repository: history, per-commit and working-tree
//! changes, line-level diffs, file contents at a revision, branches and a
//! guarded checkout.
//!
//! Every operation opens the repository anew from its path and keeps no
//! state. The backend is `git2`; what is taken of it without proof stands
//! in `backend`.

pub mod backend;
pub mod branches;
pub mod contents;
pub mod diff;
pub mod error;
pub mod history;
pub mod model;
pub mod patch;
pub mod raw;
pub mod status;
pub mod text;
pub mod working;

pub use branches::{checkout_branch, get_current_branch, list_branches, validate_repo};
pub use contents::{
    get_commit_range_file_contents, get_file_contents, get_working_file_contents, WorktreeFile,
};
pub use diff::{
    get_commit_files, get_commit_range_file_diff, get_commit_range_files, get_file_diff,
    get_working_file_diff,
};
pub use error::{ErrorKind, GitError};
pub use history::list_commits;
pub use model::{
    Branch, ChangedFile, Commit, DiffHunk, DiffLine, FileContents, FileDiff, FileStatus, LineType,
    RepoInfo,
};
pub use status::{DeltaKind, StatusFlags};
pub use working::get_working_changes;
