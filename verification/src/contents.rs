//! The full text of a file on both sides of a comparison.
//!
//! Each side is looked up by itself. A side without the file is absent,
//! which is how an added or a deleted file shows. A binary side makes the
//! whole result binary, without text on either side.

use crate::backend::{
    blob_content, blob_is_binary, entry_to_object, error_text, object_as_blob, repo_workdir,
    tree_get_path, utf8_text,
};
use crate::diff::{
    commit_comparison, head_tree, is_comparison_failure, range_checked, range_comparison,
};
use crate::error::{failure_of, ErrorKind, GitError};
use crate::history::{id_checked, open_at};
use crate::model::{FileContents, FileContentsView};
use crate::text::{looks_binary, spec_looks_binary};
use vstd::prelude::*;
use vstd::utf8::{decode_utf8, valid_utf8};

verus! {

/// What the lookup of a path in a tree gives.
#[derive(Debug, Clone)]
pub enum BlobLookup {
    /// The tree does not hold the path.
    Absent,
    /// The path leads to binary content.
    Binary,
    /// The path leads to this text.
    Text(String),
    /// The path leads to content that is not binary, yet no valid UTF-8.
    NotUtf8,
    /// The path leads to something that is no file content.
    NotABlob,
    /// The backend failed to load what the path leads to; with its words.
    Failed(String),
}

impl BlobLookup {
    /// Whether the lookup failed.
    pub open spec fn is_failure(self) -> bool {
        self is NotUtf8 || self is NotABlob || self is Failed
    }

    /// The kind of failure that a failed lookup is reported as.
    pub open spec fn failure_kind(self) -> ErrorKind {
        if self is NotUtf8 {
            ErrorKind::NonUtf8Content
        } else {
            ErrorKind::Backend
        }
    }

    /// The text that the lookup found, if it found text.
    pub open spec fn text(self) -> Option<Seq<char>> {
        match self {
            BlobLookup::Text(s) => Some(s@),
            _ => None,
        }
    }

    /// The message under which a failed lookup is reported.
    pub open spec fn failure_text(self) -> Seq<char> {
        match self {
            BlobLookup::NotUtf8 => "File is not valid UTF-8"@,
            BlobLookup::Failed(words) => words@,
            _ => "Not a blob"@,
        }
    }

    /// The failure that a failed lookup is reported as.
    fn failure(self) -> (e: GitError)
        requires
            self.is_failure(),
        ensures
            e.kind == self.failure_kind(),
            e.text@ == self.failure_text(),
    {
        match self {
            BlobLookup::NotUtf8 => GitError::new(
                ErrorKind::NonUtf8Content,
                "File is not valid UTF-8",
            ),
            BlobLookup::Failed(words) => GitError::new(ErrorKind::Backend, words.as_str()),
            _ => GitError::new(ErrorKind::Backend, "Not a blob"),
        }
    }

    /// Takes the text out of a lookup that did not fail.
    fn into_text(self) -> (text: Option<String>)
        ensures
            text.deep_view() == self.text(),
    {
        match self {
            BlobLookup::Text(s) => Some(s),
            _ => None,
        }
    }
}

/// The contents that are binary: no text on either side.
pub open spec fn binary_contents() -> FileContentsView {
    FileContentsView { old_content: None, new_content: None, is_binary: true }
}

/// The contents of a file from the lookups of its two sides, or the kind
/// of failure. A binary side decides first; then a path that is absent on
/// both sides; then a failure of the old side, then of the new.
pub open spec fn contents_of(old: BlobLookup, new: BlobLookup) -> Result<
    FileContentsView,
    ErrorKind,
> {
    if new is Binary || old is Binary {
        Ok(binary_contents())
    } else if new is Absent && old is Absent {
        Err(ErrorKind::FileNotFound)
    } else if old.is_failure() {
        Err(old.failure_kind())
    } else if new.is_failure() {
        Err(new.failure_kind())
    } else {
        Ok(FileContentsView { old_content: old.text(), new_content: new.text(), is_binary: false })
    }
}

/// A path that is absent on both sides is not found. A path with text on
/// one side alone has that text there and nothing on the other side, and
/// is no failure.
pub proof fn lemma_contents_one_side(text: String)
    ensures
        contents_of(BlobLookup::Absent, BlobLookup::Absent) == Err::<FileContentsView, ErrorKind>(
            ErrorKind::FileNotFound,
        ),
        contents_of(BlobLookup::Absent, BlobLookup::Text(text)) == Ok::<
            FileContentsView,
            ErrorKind,
        >(FileContentsView { old_content: None, new_content: Some(text@), is_binary: false }),
        contents_of(BlobLookup::Text(text), BlobLookup::Absent) == Ok::<
            FileContentsView,
            ErrorKind,
        >(FileContentsView { old_content: Some(text@), new_content: None, is_binary: false }),
{
}

/// Contents that are no failure are well formed: binary without text, or
/// with text on a side.
pub proof fn lemma_contents_wf(old: BlobLookup, new: BlobLookup)
    ensures
        contents_of(old, new) matches Ok(c) ==> c.wf(),
{
}

/// The message of the failure of the contents of the file `file_path`
/// from the lookups of its two sides: that of a path that is not found in
/// the commit, or that of the side that failed, the old one first.
pub open spec fn contents_failure_text(old: BlobLookup, new: BlobLookup, file_path: Seq<char>)
    -> Seq<char> {
    if new is Absent && old is Absent {
        "File '"@ + file_path + "' not found in commit"@
    } else if old.is_failure() {
        old.failure_text()
    } else {
        new.failure_text()
    }
}

/// Whether `res` is what `spec` says: the contents with that view, or a
/// failure of that kind with the message `text`.
pub open spec fn meets(
    res: Result<FileContents, GitError>,
    spec: Result<FileContentsView, ErrorKind>,
    text: Seq<char>,
) -> bool {
    match spec {
        Ok(view) => res matches Ok(c) && c@ == view,
        Err(kind) => res matches Err(e) && e.kind == kind && e.text@ == text,
    }
}

/// What holds of the message of a failure of the contents of the file
/// `file_path`: a path that is not found is reported by its name, with the
/// words `ending` behind it, and content that is no valid UTF-8 in one
/// sentence.
pub open spec fn says_contents_failure(e: GitError, file_path: Seq<char>, ending: Seq<char>)
    -> bool {
    &&& e.kind == ErrorKind::FileNotFound ==> e.text@ == "File '"@ + file_path + ending
    &&& e.kind == ErrorKind::NonUtf8Content ==> e.text@ == "File is not valid UTF-8"@
}

/// Looks the content of a file in a tree up, where `binary` is whether
/// the backend takes it for binary and `bytes` are its bytes: binary
/// content is binary whatever its bytes; other content is the text that its
/// bytes encode, or no text where they are no valid UTF-8.
pub fn classify_blob(binary: bool, bytes: Vec<u8>) -> (found: BlobLookup)
    ensures
        binary ==> found is Binary,
        !binary && valid_utf8(bytes@) ==> (found matches BlobLookup::Text(s) && s@ == decode_utf8(
            bytes@,
        )),
        !binary && !valid_utf8(bytes@) ==> found is NotUtf8,
{
    if binary {
        BlobLookup::Binary
    } else {
        match utf8_text(bytes) {
            Some(text) => BlobLookup::Text(text),
            None => BlobLookup::NotUtf8,
        }
    }
}

/// Makes the contents of the file `file_path` from the lookups of its two
/// sides.
pub fn resolve_contents(old: BlobLookup, new: BlobLookup, file_path: &str) -> (res: Result<
    FileContents,
    GitError,
>)
    ensures
        meets(res, contents_of(old, new), contents_failure_text(old, new, file_path@)),
{
    let new_binary = match &new {
        BlobLookup::Binary => true,
        _ => false,
    };
    let old_binary = match &old {
        BlobLookup::Binary => true,
        _ => false,
    };
    if new_binary || old_binary {
        return Ok(FileContents { old_content: None, new_content: None, is_binary: true });
    }
    let new_absent = match &new {
        BlobLookup::Absent => true,
        _ => false,
    };
    let old_absent = match &old {
        BlobLookup::Absent => true,
        _ => false,
    };
    if new_absent && old_absent {
        return Err(
            GitError::about(ErrorKind::FileNotFound, "File '", file_path, "' not found in commit"),
        );
    }
    let old_content = match old {
        BlobLookup::NotUtf8 | BlobLookup::NotABlob | BlobLookup::Failed(_) => {
            return Err(old.failure());
        },
        _ => old.into_text(),
    };
    let new_content = match new {
        BlobLookup::NotUtf8 | BlobLookup::NotABlob | BlobLookup::Failed(_) => {
            return Err(new.failure());
        },
        _ => new.into_text(),
    };
    Ok(FileContents { old_content, new_content, is_binary: false })
}

/// A file of the working tree as it was read from disk.
#[derive(Debug, Clone)]
pub enum WorktreeFile {
    /// No such file exists.
    Missing,
    /// The file exists and could not be read; with the reason.
    Unreadable(String),
    /// The bytes of the file.
    Content(Vec<u8>),
}

impl WorktreeFile {
    /// Whether the file on disk counts as binary: it holds a zero byte
    /// among its leading bytes.
    pub open spec fn is_binary(self) -> bool {
        self matches WorktreeFile::Content(bytes) && spec_looks_binary(bytes@)
    }

    /// The text of the file on disk: its bytes decoded, none where no
    /// bytes were read.
    pub open spec fn text(self) -> Option<Seq<char>> {
        match self {
            WorktreeFile::Content(bytes) => Some(decode_utf8(bytes@)),
            _ => None,
        }
    }
}

/// The contents of a file of the working tree from the lookup in the head
/// and from the file on disk, or the kind of failure. The old side decides
/// first: binary, or failed. Then a repository without a working
/// directory fails. Then the file on disk decides: unreadable; binary by
/// its leading bytes; no valid UTF-8; text. A path that is absent in the
/// head and missing on disk is not found.
pub open spec fn working_contents_of(old: BlobLookup, has_workdir: bool, disk: WorktreeFile)
    -> Result<FileContentsView, ErrorKind> {
    if old is Binary {
        Ok(binary_contents())
    } else if old.is_failure() {
        Err(old.failure_kind())
    } else if !has_workdir {
        Err(ErrorKind::NotARepository)
    } else {
        match disk {
            WorktreeFile::Unreadable(_) => Err(ErrorKind::Backend),
            WorktreeFile::Content(bytes) => if spec_looks_binary(bytes@) {
                Ok(binary_contents())
            } else if !valid_utf8(bytes@) {
                Err(ErrorKind::NonUtf8Content)
            } else {
                Ok(
                    FileContentsView {
                        old_content: old.text(),
                        new_content: Some(decode_utf8(bytes@)),
                        is_binary: false,
                    },
                )
            },
            WorktreeFile::Missing => if old is Absent {
                Err(ErrorKind::FileNotFound)
            } else {
                Ok(FileContentsView { old_content: old.text(), new_content: None, is_binary: false })
            },
        }
    }
}

/// The message of the failure of the contents of the file `file_path` of
/// the working tree.
pub open spec fn working_failure_text(
    old: BlobLookup,
    has_workdir: bool,
    disk: WorktreeFile,
    file_path: Seq<char>,
) -> Seq<char> {
    if old.is_failure() {
        old.failure_text()
    } else if !has_workdir {
        "Repository has no working directory"@
    } else {
        match disk {
            WorktreeFile::Unreadable(reason) => "Failed to read file"@ + ": "@ + reason@,
            WorktreeFile::Content(_) => "File is not valid UTF-8"@,
            WorktreeFile::Missing => "File '"@ + file_path + "' not found"@,
        }
    }
}

/// Contents of the working tree that are no failure are well formed.
pub proof fn lemma_working_contents_wf(old: BlobLookup, has_workdir: bool, disk: WorktreeFile)
    ensures
        working_contents_of(old, has_workdir, disk) matches Ok(c) ==> c.wf(),
{
}

/// A file that is absent in the head and missing on disk is not found; a
/// file that is only on disk, as text, is new; a file that is only in the
/// head is deleted.
pub proof fn lemma_working_contents_one_side(text: String, bytes: Vec<u8>)
    requires
        !spec_looks_binary(bytes@),
        valid_utf8(bytes@),
    ensures
        working_contents_of(BlobLookup::Absent, true, WorktreeFile::Missing) == Err::<
            FileContentsView,
            ErrorKind,
        >(ErrorKind::FileNotFound),
        working_contents_of(BlobLookup::Absent, true, WorktreeFile::Content(bytes)) == Ok::<
            FileContentsView,
            ErrorKind,
        >(
            FileContentsView {
                old_content: None,
                new_content: Some(decode_utf8(bytes@)),
                is_binary: false,
            },
        ),
        working_contents_of(BlobLookup::Text(text), true, WorktreeFile::Missing) == Ok::<
            FileContentsView,
            ErrorKind,
        >(FileContentsView { old_content: Some(text@), new_content: None, is_binary: false }),
{
}

/// Makes the contents of the file `file_path` of the working tree from the
/// lookup in the head and from the file on disk.
pub fn resolve_working_contents(
    old: BlobLookup,
    has_workdir: bool,
    disk: WorktreeFile,
    file_path: &str,
) -> (res: Result<FileContents, GitError>)
    ensures
        meets(
            res,
            working_contents_of(old, has_workdir, disk),
            working_failure_text(old, has_workdir, disk, file_path@),
        ),
{
    let old_content = match old {
        BlobLookup::Binary => {
            return Ok(FileContents { old_content: None, new_content: None, is_binary: true });
        },
        BlobLookup::NotUtf8 | BlobLookup::NotABlob | BlobLookup::Failed(_) => {
            return Err(old.failure());
        },
        _ => old.into_text(),
    };
    if !has_workdir {
        return Err(
            GitError::new(ErrorKind::NotARepository, "Repository has no working directory"),
        );
    }
    let new_content = match disk {
        WorktreeFile::Unreadable(reason) => {
            return Err(
                GitError::with_detail(ErrorKind::Backend, "Failed to read file", reason.as_str()),
            );
        },
        WorktreeFile::Content(bytes) => {
            if looks_binary(bytes.as_slice()) {
                return Ok(FileContents { old_content: None, new_content: None, is_binary: true });
            }
            match utf8_text(bytes) {
                Some(text) => Some(text),
                None => {
                    return Err(
                        GitError::new(ErrorKind::NonUtf8Content, "File is not valid UTF-8"),
                    );
                },
            }
        },
        WorktreeFile::Missing => None,
    };
    if old_content.is_none() && new_content.is_none() {
        return Err(GitError::about(ErrorKind::FileNotFound, "File '", file_path, "' not found"));
    }
    Ok(FileContents { old_content, new_content, is_binary: false })
}

/// Looks up `file_path` in a tree.
fn lookup_blob(repo: &git2::Repository, tree: &git2::Tree<'_>, file_path: &str) -> (found:
    BlobLookup) {
    let entry = match tree_get_path(tree, file_path) {
        Ok(entry) => entry,
        Err(_) => {
            return BlobLookup::Absent;
        },
    };
    let object = match entry_to_object(&entry, repo) {
        Ok(object) => object,
        Err(e) => {
            let cause = error_text(&e);
            return BlobLookup::Failed("Failed to get object: ".to_owned().concat(cause.as_str()));
        },
    };
    match object_as_blob(&object) {
        Some(blob) => {
            let binary = blob_is_binary(blob);
            let bytes = if binary {
                Vec::new()
            } else {
                blob_content(blob)
            };
            classify_blob(binary, bytes)
        },
        None => BlobLookup::NotABlob,
    }
}

/// Looks up `file_path` in a tree that may be none, which holds nothing.
fn lookup_in(repo: &git2::Repository, tree: Option<&git2::Tree<'_>>, file_path: &str) -> (found:
    BlobLookup)
    ensures
        tree is None ==> found is Absent,
{
    match tree {
        Some(tree) => lookup_blob(repo, tree, file_path),
        None => BlobLookup::Absent,
    }
}

/// The kinds of failure of the contents of a file in a comparison that a
/// commit id names.
pub open spec fn is_contents_failure(kind: ErrorKind) -> bool {
    is_comparison_failure(kind) || kind == ErrorKind::FileNotFound || kind
        == ErrorKind::NonUtf8Content
}

/// The text of the file `file_path` before and after the commit
/// `commit_id`: in the tree of its first parent and in its own tree. A
/// side without the file is absent. A path that neither side holds is
/// refused.
pub fn get_file_contents(repo_path: &str, commit_id: &str, file_path: &str) -> (res: Result<
    FileContents,
    GitError,
>)
    ensures
        res matches Ok(c) ==> c@.wf(),
        res matches Err(e) ==> is_contents_failure(e.kind) && e.worded() && e.says_invalid_id(
            commit_id@,
        ) && says_contents_failure(e, file_path@, "' not found in commit"@),
        id_checked(failure_of(res), commit_id@),
{
    let repo = match open_at(repo_path) {
        Ok(r) => r,
        Err(e) => {
            return Err(e);
        },
    };
    let (before, after) = match commit_comparison(&repo, commit_id) {
        Ok(trees) => trees,
        Err(e) => {
            return Err(e);
        },
    };
    let new = lookup_blob(&repo, &after, file_path);
    let old = lookup_in(&repo, before.as_ref(), file_path);
    proof {
        lemma_contents_wf(old, new);
    }
    resolve_contents(old, new, file_path)
}

/// The text of the file `file_path` before and after a range of commits,
/// ordered newest first: before the oldest commit and in the newest.
pub fn get_commit_range_file_contents(repo_path: &str, commit_ids: &[String], file_path: &str)
    -> (res: Result<FileContents, GitError>)
    ensures
        res matches Ok(c) ==> c@.wf(),
        res matches Err(e) ==> is_contents_failure(e.kind) && e.worded() && says_contents_failure(
            e,
            file_path@,
            "' not found in commit"@,
        ),
        range_checked(failure_of(res), commit_ids@),
{
    let repo = match open_at(repo_path) {
        Ok(r) => r,
        Err(e) => {
            return Err(e);
        },
    };
    let (before, after) = match range_comparison(&repo, commit_ids) {
        Ok(trees) => trees,
        Err(e) => {
            return Err(e);
        },
    };
    let new = lookup_blob(&repo, &after, file_path);
    let old = lookup_in(&repo, before.as_ref(), file_path);
    proof {
        lemma_contents_wf(old, new);
    }
    resolve_contents(old, new, file_path)
}

/// The kinds of failure of the contents of a file of the working tree.
pub open spec fn is_working_contents_failure(kind: ErrorKind) -> bool {
    kind == ErrorKind::RepositoryNotFound || kind == ErrorKind::NotARepository || kind
        == ErrorKind::Backend || kind == ErrorKind::FileNotFound || kind
        == ErrorKind::NonUtf8Content
}

/// The text of the file `file_path` in the head of the repository and in
/// the working tree, where `disk` is that file as it was read from the
/// working directory. Text that is reported for the new side is the text
/// on disk.
pub fn get_working_file_contents(repo_path: &str, file_path: &str, disk: WorktreeFile) -> (res:
    Result<FileContents, GitError>)
    ensures
        res matches Ok(c) ==> c@.wf(),
        res matches Ok(c) ==> c.is_binary || c@.new_content == disk.text(),
        res matches Ok(c) ==> disk.is_binary() ==> c.is_binary,
        res matches Err(e) ==> is_working_contents_failure(e.kind) && e.worded()
            && says_contents_failure(e, file_path@, "' not found"@),
{
    let repo = match open_at(repo_path) {
        Ok(r) => r,
        Err(e) => {
            return Err(e);
        },
    };
    let head = match head_tree(&repo) {
        Ok(t) => t,
        Err(e) => {
            return Err(e);
        },
    };
    let old = lookup_in(&repo, head.as_ref(), file_path);
    let has_workdir = repo_workdir(&repo).is_some();
    proof {
        lemma_working_contents_wf(old, has_workdir, disk);
    }
    resolve_working_contents(old, has_workdir, disk, file_path)
}

} // verus!
