//! The change kinds and status flags that the backend reports, as plain
//! values, and the rules that turn them into a `FileStatus`.

use crate::model::FileStatus;
use vstd::prelude::*;
use vstd::std_specs::convert::FromSpecImpl;

verus! {

/// The kind of change that the backend reports for one file of a diff.
#[derive(Debug, Clone, Copy, PartialEq, Eq, Structural)]
pub enum DeltaKind {
    Unmodified,
    Added,
    Deleted,
    Modified,
    Renamed,
    Copied,
    Ignored,
    Untracked,
    Typechange,
    Unreadable,
    Conflicted,
}

/// The status of a change kind: the five kinds of change keep their name,
/// every other kind counts as unmodified.
pub open spec fn status_of_delta(kind: DeltaKind) -> FileStatus {
    match kind {
        DeltaKind::Added => FileStatus::Added,
        DeltaKind::Deleted => FileStatus::Deleted,
        DeltaKind::Modified => FileStatus::Modified,
        DeltaKind::Renamed => FileStatus::Renamed,
        DeltaKind::Copied => FileStatus::Copied,
        _ => FileStatus::Unmodified,
    }
}

impl From<DeltaKind> for FileStatus {
    fn from(kind: DeltaKind) -> (status: FileStatus) {
        match kind {
            DeltaKind::Added => FileStatus::Added,
            DeltaKind::Deleted => FileStatus::Deleted,
            DeltaKind::Modified => FileStatus::Modified,
            DeltaKind::Renamed => FileStatus::Renamed,
            DeltaKind::Copied => FileStatus::Copied,
            _ => FileStatus::Unmodified,
        }
    }
}

impl FromSpecImpl<DeltaKind> for FileStatus {
    open spec fn obeys_from_spec() -> bool {
        true
    }

    open spec fn from_spec(kind: DeltaKind) -> FileStatus {
        status_of_delta(kind)
    }
}

/// What the index and the working tree say of one path.
#[derive(Debug, Clone, Copy, PartialEq, Eq, Structural)]
pub struct StatusFlags {
    /// New in the index.
    pub index_new: bool,
    /// Modified in the index.
    pub index_modified: bool,
    /// Deleted in the index.
    pub index_deleted: bool,
    /// Renamed in the index.
    pub index_renamed: bool,
    /// New in the working tree.
    pub wt_new: bool,
    /// Modified in the working tree.
    pub wt_modified: bool,
    /// Deleted in the working tree.
    pub wt_deleted: bool,
    /// Renamed in the working tree.
    pub wt_renamed: bool,
}

impl StatusFlags {
    /// The status under which a path with these flags is listed, if it is
    /// listed at all. The first rule that applies decides: new in the
    /// working tree only; new anywhere; deleted; modified; renamed.
    pub open spec fn spec_working_status(self) -> Option<FileStatus> {
        if self.wt_new && !self.index_new {
            Some(FileStatus::Untracked)
        } else if self.wt_new || self.index_new {
            Some(FileStatus::Added)
        } else if self.wt_deleted || self.index_deleted {
            Some(FileStatus::Deleted)
        } else if self.wt_modified || self.index_modified {
            Some(FileStatus::Modified)
        } else if self.wt_renamed || self.index_renamed {
            Some(FileStatus::Renamed)
        } else {
            None
        }
    }

    /// Whether a path with these flags keeps a branch from being checked
    /// out: it is modified or deleted, staged or not. A new file does not.
    pub open spec fn spec_blocks_checkout(self) -> bool {
        self.wt_modified || self.wt_deleted || self.index_modified || self.index_deleted
    }

    /// Computes the status under which the path is listed.
    pub fn working_status(&self) -> (status: Option<FileStatus>)
        ensures
            status == self.spec_working_status(),
    {
        if self.wt_new || self.index_new {
            if self.wt_new && !self.index_new {
                Some(FileStatus::Untracked)
            } else {
                Some(FileStatus::Added)
            }
        } else if self.wt_deleted || self.index_deleted {
            Some(FileStatus::Deleted)
        } else if self.wt_modified || self.index_modified {
            Some(FileStatus::Modified)
        } else if self.wt_renamed || self.index_renamed {
            Some(FileStatus::Renamed)
        } else {
            None
        }
    }

    /// Computes whether the path keeps a branch from being checked out.
    pub fn blocks_checkout(&self) -> (blocks: bool)
        ensures
            blocks == self.spec_blocks_checkout(),
    {
        self.wt_modified || self.wt_deleted || self.index_modified || self.index_deleted
    }
}

/// A path that is new, in the index or in the working tree, is listed as
/// untracked or as added, whatever else is said of it: never as deleted.
pub proof fn lemma_new_is_never_deleted(flags: StatusFlags)
    requires
        flags.wt_new || flags.index_new,
    ensures
        flags.spec_working_status() == Some(FileStatus::Untracked) || flags.spec_working_status()
            == Some(FileStatus::Added),
{
}

/// The guard is narrower than the list: a path that keeps a branch from
/// being checked out is a path that is listed.
pub proof fn lemma_blocking_is_listed(flags: StatusFlags)
    requires
        flags.spec_blocks_checkout(),
    ensures
        flags.spec_working_status() is Some,
{
}

} // verus!
