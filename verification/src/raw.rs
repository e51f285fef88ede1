//! What the backend hands out, as plain values, before any rule of this
//! crate is applied to it.

use crate::status::{DeltaKind, StatusFlags};
use vstd::prelude::*;

verus! {

/// One line of a patch as the backend gives it.
#[derive(Debug, Clone)]
pub struct RawLine {
    /// The marker character of the line.
    pub origin: char,
    /// The text of the line.
    pub content: String,
    /// Line number in the old file, if the backend gives one.
    pub old_lineno: Option<u32>,
    /// Line number in the new file, if the backend gives one.
    pub new_lineno: Option<u32>,
}

/// The view of a `RawLine`: its text as sequences of characters.
pub struct RawLineView {
    pub origin: char,
    pub content: Seq<char>,
    pub old_lineno: Option<u32>,
    pub new_lineno: Option<u32>,
}

impl View for RawLine {
    type V = RawLineView;

    open spec fn view(&self) -> RawLineView {
        RawLineView {
            origin: self.origin,
            content: self.content@,
            old_lineno: self.old_lineno,
            new_lineno: self.new_lineno,
        }
    }
}

/// The four numbers at the head of a hunk.
#[derive(Debug, Clone, Copy, PartialEq, Eq, Structural)]
pub struct HunkHeader {
    pub old_start: u32,
    pub old_lines: u32,
    pub new_start: u32,
    pub new_lines: u32,
}

/// One hunk of a patch as the backend holds it.
pub struct RawHunkView {
    pub header: HunkHeader,
    pub lines: Seq<RawLineView>,
}

/// The number of lines with the marker `marker` among `lines`.
pub open spec fn lines_marked(lines: Seq<RawLineView>, marker: char) -> nat {
    lines.filter(|l: RawLineView| l.origin == marker).len()
}

/// The number of lines with the marker `marker` in all of `hunks`.
pub open spec fn hunks_marked(hunks: Seq<RawHunkView>, marker: char) -> nat
    decreases hunks.len(),
{
    if hunks.len() == 0 {
        0
    } else {
        hunks_marked(hunks.drop_last(), marker) + lines_marked(hunks.last().lines, marker)
    }
}

/// One entry of a status list: the path, where it is valid UTF-8, and what
/// the index and the working tree say of it.
#[derive(Debug, Clone)]
pub struct StatusItem {
    pub path: Option<String>,
    pub flags: StatusFlags,
}

/// The view of a `StatusItem`: its text as sequences of characters.
pub struct StatusItemView {
    pub path: Option<Seq<char>>,
    pub flags: StatusFlags,
}

impl View for StatusItem {
    type V = StatusItemView;

    open spec fn view(&self) -> StatusItemView {
        StatusItemView { path: self.path.deep_view(), flags: self.flags }
    }
}

/// One file's entry in a diff: the kind of change, the path and binary
/// flag of each side.
#[derive(Debug, Clone)]
pub struct DeltaInfo {
    pub kind: DeltaKind,
    pub old_path: Option<String>,
    pub new_path: Option<String>,
    pub old_binary: bool,
    pub new_binary: bool,
}

/// The view of a `DeltaInfo`: its text as sequences of characters.
pub struct DeltaInfoView {
    pub kind: DeltaKind,
    pub old_path: Option<Seq<char>>,
    pub new_path: Option<Seq<char>>,
    pub old_binary: bool,
    pub new_binary: bool,
}

impl View for DeltaInfo {
    type V = DeltaInfoView;

    open spec fn view(&self) -> DeltaInfoView {
        DeltaInfoView {
            kind: self.kind,
            old_path: self.old_path.deep_view(),
            new_path: self.new_path.deep_view(),
            old_binary: self.old_binary,
            new_binary: self.new_binary,
        }
    }
}

/// One file's entry in a diff as it is read from the diff, with the kind
/// of change still in the backend's own terms.
pub struct ListedDelta {
    pub status: git2::Delta,
    pub old_path: Option<String>,
    pub new_path: Option<String>,
    pub old_binary: bool,
    pub new_binary: bool,
}

/// The author of a commit as the backend gives it.
#[derive(Debug, Clone)]
pub struct AuthorInfo {
    /// The name, where it is valid UTF-8.
    pub name: Option<String>,
    /// The email, where it is valid UTF-8.
    pub email: Option<String>,
    /// Author time in seconds since the epoch.
    pub seconds: i64,
}

/// Which branches to enumerate.
#[derive(Debug, Clone, Copy, PartialEq, Eq, Structural)]
pub enum BranchScope {
    Local,
    Remote,
}

/// Whether `c` is a hexadecimal digit, in either case.
pub open spec fn is_hex_digit(c: char) -> bool {
    ('0' <= c && c <= '9') || ('a' <= c && c <= 'f') || ('A' <= c && c <= 'F')
}

/// Whether `s` can be an object id: one to forty hexadecimal digits.
pub open spec fn is_oid_text(s: Seq<char>) -> bool {
    &&& 1 <= s.len() <= 40
    &&& forall|i: int| 0 <= i < s.len() ==> is_hex_digit(#[trigger] s[i])
}

/// Whether `s` is an object id written out in full: forty hexadecimal
/// digits in lower case.
pub open spec fn is_full_oid(s: Seq<char>) -> bool {
    &&& s.len() == 40
    &&& forall|i: int|
        0 <= i < s.len() ==> ('0' <= #[trigger] s[i] && s[i] <= '9') || ('a' <= s[i] && s[i] <= 'f')
}

/// An object id that is written out in full can be an object id.
pub proof fn lemma_full_oid_is_oid_text(s: Seq<char>)
    requires
        is_full_oid(s),
    ensures
        is_oid_text(s),
{
}

} // verus!
