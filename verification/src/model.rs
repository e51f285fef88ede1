//! Value objects handed to callers, each with its mathematical view.
//!
//! Strings are viewed as `Seq<char>`, vectors as `Seq` of the element views.
//! The invariants that every value built by this crate satisfies are the
//! `wf` predicates.

use vstd::prelude::*;

verus! {

/// Classification of one file's change.
#[derive(Debug, Clone, Copy, PartialEq, Eq, Structural)]
pub enum FileStatus {
    Added,
    Modified,
    Deleted,
    Renamed,
    Copied,
    Unmodified,
    Untracked,
}

/// Classification of one line inside a hunk.
#[derive(Debug, Clone, Copy, PartialEq, Eq, Structural)]
pub enum LineType {
    Context,
    Addition,
    Deletion,
}

/// One file's change within a comparison.
#[derive(Debug, Clone)]
pub struct ChangedFile {
    /// Path of the file.
    pub path: String,
    /// Kind of change.
    pub status: FileStatus,
    /// Number of lines added.
    pub additions: u32,
    /// Number of lines deleted.
    pub deletions: u32,
    /// Path before a rename.
    pub old_path: Option<String>,
}

/// The view of a `ChangedFile`: its text as sequences of characters.
pub struct ChangedFileView {
    pub path: Seq<char>,
    pub status: FileStatus,
    pub additions: u32,
    pub deletions: u32,
    pub old_path: Option<Seq<char>>,
}

impl View for ChangedFile {
    type V = ChangedFileView;

    open spec fn view(&self) -> ChangedFileView {
        ChangedFileView {
            path: self.path@,
            status: self.status,
            additions: self.additions,
            deletions: self.deletions,
            old_path: self.old_path.deep_view(),
        }
    }
}

impl DeepView for ChangedFile {
    type V = ChangedFileView;

    open spec fn deep_view(&self) -> ChangedFileView {
        self@
    }
}

/// One line inside a hunk.
#[derive(Debug, Clone)]
pub struct DiffLine {
    /// Text of the line, without its leading marker.
    pub content: String,
    /// Kind of line.
    pub line_type: LineType,
    /// Line number in the old file; absent for an addition.
    pub old_line_no: Option<u32>,
    /// Line number in the new file; absent for a deletion.
    pub new_line_no: Option<u32>,
}

/// The view of a `DiffLine`: its text as sequences of characters.
pub struct DiffLineView {
    pub content: Seq<char>,
    pub line_type: LineType,
    pub old_line_no: Option<u32>,
    pub new_line_no: Option<u32>,
}

impl View for DiffLine {
    type V = DiffLineView;

    open spec fn view(&self) -> DiffLineView {
        DiffLineView {
            content: self.content@,
            line_type: self.line_type,
            old_line_no: self.old_line_no,
            new_line_no: self.new_line_no,
        }
    }
}

impl DeepView for DiffLine {
    type V = DiffLineView;

    open spec fn deep_view(&self) -> DiffLineView {
        self@
    }
}

impl DiffLineView {
    /// An addition has no place in the old file, a deletion none in the new.
    pub open spec fn wf(self) -> bool {
        &&& self.line_type == LineType::Addition ==> self.old_line_no is None
        &&& self.line_type == LineType::Deletion ==> self.new_line_no is None
    }
}

/// One contiguous region of change.
#[derive(Debug, Clone)]
pub struct DiffHunk {
    /// First line of the region in the old file.
    pub old_start: u32,
    /// Number of lines of the region in the old file.
    pub old_lines: u32,
    /// First line of the region in the new file.
    pub new_start: u32,
    /// Number of lines of the region in the new file.
    pub new_lines: u32,
    /// The lines, in order.
    pub lines: Vec<DiffLine>,
}

/// The view of a `DiffHunk`: its text as sequences of characters.
pub struct DiffHunkView {
    pub old_start: u32,
    pub old_lines: u32,
    pub new_start: u32,
    pub new_lines: u32,
    pub lines: Seq<DiffLineView>,
}

impl View for DiffHunk {
    type V = DiffHunkView;

    open spec fn view(&self) -> DiffHunkView {
        DiffHunkView {
            old_start: self.old_start,
            old_lines: self.old_lines,
            new_start: self.new_start,
            new_lines: self.new_lines,
            lines: self.lines.deep_view(),
        }
    }
}

impl DeepView for DiffHunk {
    type V = DiffHunkView;

    open spec fn deep_view(&self) -> DiffHunkView {
        self@
    }
}

impl DiffHunkView {
    /// Every line of the hunk is well formed.
    pub open spec fn wf(self) -> bool {
        forall|i: int| 0 <= i < self.lines.len() ==> (#[trigger] self.lines[i]).wf()
    }
}

/// The full diff of one file in one comparison.
#[derive(Debug, Clone)]
pub struct FileDiff {
    /// Path before a rename or copy.
    pub old_path: Option<String>,
    /// Current path.
    pub new_path: String,
    /// The hunks, in order.
    pub hunks: Vec<DiffHunk>,
    /// Whether the file is binary.
    pub is_binary: bool,
}

/// The view of a `FileDiff`: its text as sequences of characters.
pub struct FileDiffView {
    pub old_path: Option<Seq<char>>,
    pub new_path: Seq<char>,
    pub hunks: Seq<DiffHunkView>,
    pub is_binary: bool,
}

impl View for FileDiff {
    type V = FileDiffView;

    open spec fn view(&self) -> FileDiffView {
        FileDiffView {
            old_path: self.old_path.deep_view(),
            new_path: self.new_path@,
            hunks: self.hunks.deep_view(),
            is_binary: self.is_binary,
        }
    }
}

impl FileDiffView {
    /// Binary content is never diffed by lines.
    pub open spec fn wf(self) -> bool {
        &&& self.is_binary ==> self.hunks.len() == 0
        &&& forall|i: int| 0 <= i < self.hunks.len() ==> (#[trigger] self.hunks[i]).wf()
    }
}

/// The full text of one file before and after.
#[derive(Debug, Clone)]
pub struct FileContents {
    /// Text before; absent if the file did not exist then.
    pub old_content: Option<String>,
    /// Text after; absent if the file no longer exists.
    pub new_content: Option<String>,
    /// Whether the file is binary.
    pub is_binary: bool,
}

/// The view of a `FileContents`: its text as sequences of characters.
pub struct FileContentsView {
    pub old_content: Option<Seq<char>>,
    pub new_content: Option<Seq<char>>,
    pub is_binary: bool,
}

impl View for FileContents {
    type V = FileContentsView;

    open spec fn view(&self) -> FileContentsView {
        FileContentsView {
            old_content: self.old_content.deep_view(),
            new_content: self.new_content.deep_view(),
            is_binary: self.is_binary,
        }
    }
}

impl FileContentsView {
    /// Binary content carries no text; textual content exists on a side.
    pub open spec fn wf(self) -> bool {
        if self.is_binary {
            self.old_content is None && self.new_content is None
        } else {
            self.old_content is Some || self.new_content is Some
        }
    }
}

/// Summary of a validated repository.
#[derive(Debug, Clone)]
pub struct RepoInfo {
    /// Working directory of the repository.
    pub path: String,
    /// Name of that directory.
    pub name: String,
    /// Current branch, or the commit id when detached.
    pub branch: String,
}

/// One branch.
#[derive(Debug, Clone)]
pub struct Branch {
    /// Name of the branch.
    pub name: String,
    /// Whether it is the checked-out branch.
    pub is_current: bool,
    /// Whether it is a remote-tracking branch.
    pub is_remote: bool,
    /// Object id of its tip, in hex; empty if it could not be resolved.
    pub commit_id: String,
}

/// The view of a `Branch`: its text as sequences of characters.
pub struct BranchView {
    pub name: Seq<char>,
    pub is_current: bool,
    pub is_remote: bool,
    pub commit_id: Seq<char>,
}

impl View for Branch {
    type V = BranchView;

    open spec fn view(&self) -> BranchView {
        BranchView {
            name: self.name@,
            is_current: self.is_current,
            is_remote: self.is_remote,
            commit_id: self.commit_id@,
        }
    }
}

impl DeepView for Branch {
    type V = BranchView;

    open spec fn deep_view(&self) -> BranchView {
        self@
    }
}

/// One historical revision.
#[derive(Debug, Clone)]
pub struct Commit {
    /// Object id in hex.
    pub id: String,
    /// First line of the message.
    pub message: String,
    /// Name of the author.
    pub author: String,
    /// Email of the author.
    pub email: String,
    /// Author time in seconds since the epoch.
    pub timestamp: i64,
}

/// The view of a `Commit`: its text as sequences of characters.
pub struct CommitView {
    pub id: Seq<char>,
    pub message: Seq<char>,
    pub author: Seq<char>,
    pub email: Seq<char>,
    pub timestamp: i64,
}

impl View for Commit {
    type V = CommitView;

    open spec fn view(&self) -> CommitView {
        CommitView {
            id: self.id@,
            message: self.message@,
            author: self.author@,
            email: self.email@,
            timestamp: self.timestamp,
        }
    }
}

impl DeepView for Commit {
    type V = CommitView;

    open spec fn deep_view(&self) -> CommitView {
        self@
    }
}

} // verus!
