//! From a patch to hunks and lines: how a line is classified by its marker,
//! how the hunks of a patch are read, and how its lines are counted.

use crate::backend::{
    patch_hunk_header, patch_hunks, patch_line, patch_line_stats, patch_num_hunks,
    patch_num_lines_in_hunk,
};
use crate::error::{ErrorKind, GitError};
use crate::model::{DiffHunk, DiffHunkView, DiffLine, DiffLineView, LineType};
use crate::raw::{hunks_marked, lines_marked, RawHunkView, RawLine, RawLineView};
use vstd::prelude::*;

verus! {

/// The kind of a line by its marker: `+` marks an addition, `-` a
/// deletion, anything else context.
pub open spec fn spec_line_type(origin: char) -> LineType {
    if origin == '+' {
        LineType::Addition
    } else if origin == '-' {
        LineType::Deletion
    } else {
        LineType::Context
    }
}

/// The line that is made of a line of the backend: classified by its
/// marker, with no number in the old file for an addition and none in the
/// new file for a deletion.
pub open spec fn line_of(raw: RawLineView) -> DiffLineView {
    let line_type = spec_line_type(raw.origin);
    DiffLineView {
        content: raw.content,
        line_type,
        old_line_no: if line_type == LineType::Addition {
            None
        } else {
            raw.old_lineno
        },
        new_line_no: if line_type == LineType::Deletion {
            None
        } else {
            raw.new_lineno
        },
    }
}

/// The lines that are made of the lines of the backend, in their order.
pub open spec fn lines_of(raw: Seq<RawLineView>) -> Seq<DiffLineView> {
    raw.map_values(|l: RawLineView| line_of(l))
}

/// The hunk that is made of a hunk of the backend.
pub open spec fn hunk_of(raw: RawHunkView) -> DiffHunkView {
    DiffHunkView {
        old_start: raw.header.old_start,
        old_lines: raw.header.old_lines,
        new_start: raw.header.new_start,
        new_lines: raw.header.new_lines,
        lines: lines_of(raw.lines),
    }
}

/// The hunks that are made of the hunks of the backend, in their order.
pub open spec fn hunks_of(raw: Seq<RawHunkView>) -> Seq<DiffHunkView> {
    raw.map_values(|h: RawHunkView| hunk_of(h))
}

/// The number of lines of the kind `kind` among `lines`.
pub open spec fn lines_of_type(lines: Seq<DiffLineView>, kind: LineType) -> nat {
    lines.filter(|l: DiffLineView| l.line_type == kind).len()
}

/// The number of lines of the kind `kind` in all of `hunks`.
pub open spec fn hunks_of_type(hunks: Seq<DiffHunkView>, kind: LineType) -> nat
    decreases hunks.len(),
{
    if hunks.len() == 0 {
        0
    } else {
        hunks_of_type(hunks.drop_last(), kind) + lines_of_type(hunks.last().lines, kind)
    }
}

/// Classifies a line by its marker.
pub fn classify_line(origin: char) -> (kind: LineType)
    ensures
        kind == spec_line_type(origin),
{
    if origin == '+' {
        LineType::Addition
    } else if origin == '-' {
        LineType::Deletion
    } else {
        LineType::Context
    }
}

/// Makes a line of a line of the backend.
pub fn make_line(raw: RawLine) -> (line: DiffLine)
    ensures
        line@ == line_of(raw@),
        line@.wf(),
{
    let line_type = classify_line(raw.origin);
    let old_line_no = match line_type {
        LineType::Addition => None,
        _ => raw.old_lineno,
    };
    let new_line_no = match line_type {
        LineType::Deletion => None,
        _ => raw.new_lineno,
    };
    DiffLine { content: raw.content, line_type, old_line_no, new_line_no }
}

/// Every line that is made of a line of the backend is well formed, and so
/// is every hunk.
pub proof fn lemma_hunks_of_wf(raw: Seq<RawHunkView>)
    ensures
        forall|i: int| 0 <= i < hunks_of(raw).len() ==> (#[trigger] hunks_of(raw)[i]).wf(),
{
}

/// Among the lines of one hunk, the additions are the lines marked `+` and
/// the deletions those marked `-`.
pub proof fn lemma_line_counts_agree(raw: Seq<RawLineView>)
    ensures
        lines_of_type(lines_of(raw), LineType::Addition) == lines_marked(raw, '+'),
        lines_of_type(lines_of(raw), LineType::Deletion) == lines_marked(raw, '-'),
    decreases raw.len(),
{
    reveal(Seq::filter);
    if raw.len() > 0 {
        lemma_line_counts_agree(raw.drop_last());
        assert(lines_of(raw).drop_last() =~= lines_of(raw.drop_last()));
    }
}

/// The line counts of a patch agree with its hunks: the additions among
/// the lines that are made of the hunks are the lines that the backend
/// marks `+`, the deletions those that it marks `-`.
pub proof fn lemma_counts_agree(raw: Seq<RawHunkView>)
    ensures
        hunks_of_type(hunks_of(raw), LineType::Addition) == hunks_marked(raw, '+'),
        hunks_of_type(hunks_of(raw), LineType::Deletion) == hunks_marked(raw, '-'),
    decreases raw.len(),
{
    if raw.len() > 0 {
        lemma_counts_agree(raw.drop_last());
        lemma_line_counts_agree(raw.last().lines);
        assert(hunks_of(raw).drop_last() =~= hunks_of(raw.drop_last()));
    }
}

/// Reads the lines of the hunk at `hunk` of a patch, which never fails
/// for a hunk of the patch.
fn read_lines(patch: &git2::Patch<'_>, hunk: usize) -> (res: Result<Vec<DiffLine>, GitError>)
    requires
        hunk < patch_hunks(*patch).len(),
    ensures
        res matches Ok(lines) && lines.deep_view() == lines_of(
            patch_hunks(*patch)[hunk as int].lines,
        ),
{
    let count: usize = match patch_num_lines_in_hunk(patch, hunk) {
        Ok(n) => n,
        Err(_) => 0,
    };
    let ghost raw = patch_hunks(*patch)[hunk as int].lines;
    let mut lines: Vec<DiffLine> = Vec::new();
    let mut index: usize = 0;
    while index < count
        invariant
            hunk < patch_hunks(*patch).len(),
            raw == patch_hunks(*patch)[hunk as int].lines,
            count == raw.len(),
            index <= count,
            lines.deep_view() == lines_of(raw.take(index as int)),
        decreases count - index,
    {
        let raw_line = match patch_line(patch, hunk, index) {
            Ok(l) => l,
            Err(e) => {
                return Err(GitError::from_backend(ErrorKind::Backend, "Failed to get line", &e));
            },
        };
        lines.push(make_line(raw_line));
        proof {
            assert(lines_of(raw.take(index + 1)) =~= lines_of(raw.take(index as int)).push(
                line_of(raw[index as int]),
            ));
        }
        index = index + 1;
    }
    Ok(lines)
}

/// Reads the hunks of a patch, in the order of the patch: each with the
/// four numbers of its header and with its lines classified. A patch holds
/// its hunks and lines in memory, so reading them never fails.
pub fn read_hunks(patch: &git2::Patch<'_>) -> (res: Result<Vec<DiffHunk>, GitError>)
    ensures
        res matches Ok(hunks) && hunks.deep_view() == hunks_of(patch_hunks(*patch)),
{
    let count: usize = patch_num_hunks(patch);
    let ghost raw = patch_hunks(*patch);
    let mut hunks: Vec<DiffHunk> = Vec::new();
    let mut index: usize = 0;
    while index < count
        invariant
            raw == patch_hunks(*patch),
            count == raw.len(),
            index <= count,
            hunks.deep_view() == hunks_of(raw.take(index as int)),
        decreases count - index,
    {
        let header = match patch_hunk_header(patch, index) {
            Ok(h) => h,
            Err(e) => {
                return Err(GitError::from_backend(ErrorKind::Backend, "Failed to get hunk", &e));
            },
        };
        let lines = match read_lines(patch, index) {
            Ok(l) => l,
            Err(e) => {
                return Err(e);
            },
        };
        hunks.push(
            DiffHunk {
                old_start: header.old_start,
                old_lines: header.old_lines,
                new_start: header.new_start,
                new_lines: header.new_lines,
                lines,
            },
        );
        proof {
            assert(hunks_of(raw.take(index + 1)) =~= hunks_of(raw.take(index as int)).push(
                hunk_of(raw[index as int]),
            ));
        }
        index = index + 1;
    }
    Ok(hunks)
}

/// The two counts that are reported for a file: the additions and the
/// deletions that the backend counted, cut to 32 bits, or zero for both
/// where it counted nothing.
pub open spec fn spec_line_counts(stats: Option<(usize, usize, usize)>) -> (u32, u32) {
    match stats {
        Some(s) => (s.1 as u32, s.2 as u32),
        None => (0u32, 0u32),
    }
}

/// Computes the two counts that are reported for a file.
pub fn line_counts_of(stats: Option<(usize, usize, usize)>) -> (counts: (u32, u32))
    ensures
        counts == spec_line_counts(stats),
{
    match stats {
        Some(s) => (#[verifier::truncate] (s.1 as u32), #[verifier::truncate] (s.2 as u32)),
        None => (0, 0),
    }
}

/// Counts the additions and deletions of a patch. The counts are those of
/// the lines that `read_hunks` classifies as additions and deletions, cut
/// to 32 bits.
pub fn count_lines(patch: &git2::Patch<'_>) -> (counts: (u32, u32))
    ensures
        counts == (
            hunks_of_type(hunks_of(patch_hunks(*patch)), LineType::Addition) as u32,
            hunks_of_type(hunks_of(patch_hunks(*patch)), LineType::Deletion) as u32,
        ),
{
    proof {
        lemma_counts_agree(patch_hunks(*patch));
    }
    match patch_line_stats(patch) {
        Ok(stats) => line_counts_of(Some(stats)),
        Err(_) => line_counts_of(None),
    }
}

/// The counts that are reported where a patch may be missing: those of
/// the patch, or zero for both where there is none.
pub open spec fn spec_counts_of_patch(patch: Option<&git2::Patch<'_>>) -> (u32, u32) {
    match patch {
        Some(p) => (
            hunks_of_type(hunks_of(patch_hunks(*p)), LineType::Addition) as u32,
            hunks_of_type(hunks_of(patch_hunks(*p)), LineType::Deletion) as u32,
        ),
        None => (0u32, 0u32),
    }
}

/// Counts the additions and deletions of a file from its patch. Where no
/// patch could be made of the file, both counts are zero.
pub fn counts_of_patch(patch: Option<&git2::Patch<'_>>) -> (counts: (u32, u32))
    ensures
        counts == spec_counts_of_patch(patch),
{
    match patch {
        Some(p) => count_lines(p),
        None => (0, 0),
    }
}

} // verus!
