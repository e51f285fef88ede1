//! The rules of the library on plain values, and on patches made of
//! buffers.

use recap_git::branches::{
    branch_precedes, head_name, make_branch, make_repo_info, sort_branches,
};
use recap_git::contents::{
    classify_blob, resolve_contents, resolve_working_contents, BlobLookup, WorktreeFile,
};
use recap_git::diff::{
    file_diff_of_patch, make_changed_file, make_file_diff, not_compared, range_ends, Comparison,
    RangeEnds,
};
use recap_git::history::{comparison_parent, make_commit};
use recap_git::patch::{
    classify_line, count_lines, counts_of_patch, line_counts_of, make_line, read_hunks,
};
use recap_git::raw::{AuthorInfo, DeltaInfo, RawLine};
use recap_git::text::{first_line, has_nul, looks_binary, name_precedes};
use recap_git::working::make_working_change;
use recap_git::{
    Branch, DeltaKind, DiffHunk, DiffLine, ErrorKind, FileStatus, GitError, LineType, StatusFlags,
};

fn flags() -> StatusFlags {
    StatusFlags {
        index_new: false,
        index_modified: false,
        index_deleted: false,
        index_renamed: false,
        wt_new: false,
        wt_modified: false,
        wt_deleted: false,
        wt_renamed: false,
    }
}

fn delta(kind: DeltaKind, old_path: Option<&str>, new_path: Option<&str>) -> DeltaInfo {
    DeltaInfo {
        kind,
        old_path: old_path.map(|p| p.to_string()),
        new_path: new_path.map(|p| p.to_string()),
        old_binary: false,
        new_binary: false,
    }
}

fn branch(name: &str, is_current: bool, is_remote: bool, commit_id: &str) -> Branch {
    Branch {
        name: name.to_string(),
        is_current,
        is_remote,
        commit_id: commit_id.to_string(),
    }
}

fn patch_of<'a>(old: &'a [u8], new: &'a [u8]) -> git2::Patch<'a> {
    git2::Patch::from_buffers(old, None, new, None, None).expect("patch")
}

fn shape(hunks: &[DiffHunk]) -> Vec<Vec<(LineType, String, Option<u32>, Option<u32>)>> {
    hunks
        .iter()
        .map(|h| {
            h.lines
                .iter()
                .map(|l| (l.line_type, l.content.clone(), l.old_line_no, l.new_line_no))
                .collect()
        })
        .collect()
}

// Status of a change kind.

#[test]
fn status_of_each_change_kind() {
    assert_eq!(FileStatus::from(DeltaKind::Added), FileStatus::Added);
    assert_eq!(FileStatus::from(DeltaKind::Deleted), FileStatus::Deleted);
    assert_eq!(FileStatus::from(DeltaKind::Modified), FileStatus::Modified);
    assert_eq!(FileStatus::from(DeltaKind::Renamed), FileStatus::Renamed);
    assert_eq!(FileStatus::from(DeltaKind::Copied), FileStatus::Copied);
    assert_eq!(FileStatus::from(DeltaKind::Unmodified), FileStatus::Unmodified);
    assert_eq!(FileStatus::from(DeltaKind::Ignored), FileStatus::Unmodified);
    assert_eq!(FileStatus::from(DeltaKind::Untracked), FileStatus::Unmodified);
    assert_eq!(FileStatus::from(DeltaKind::Typechange), FileStatus::Unmodified);
    assert_eq!(FileStatus::from(DeltaKind::Unreadable), FileStatus::Unmodified);
    assert_eq!(FileStatus::from(DeltaKind::Conflicted), FileStatus::Unmodified);
}

// Working status and the guard.

#[test]
fn working_status_follows_the_precedence() {
    assert_eq!(flags().working_status(), None);
    assert_eq!(StatusFlags { wt_new: true, ..flags() }.working_status(), Some(FileStatus::Untracked));
    assert_eq!(StatusFlags { index_new: true, ..flags() }.working_status(), Some(FileStatus::Added));
    assert_eq!(
        StatusFlags { index_new: true, wt_new: true, ..flags() }.working_status(),
        Some(FileStatus::Added)
    );
    assert_eq!(
        StatusFlags { index_new: true, wt_deleted: true, wt_modified: true, ..flags() }
            .working_status(),
        Some(FileStatus::Added)
    );
    assert_eq!(
        StatusFlags { wt_deleted: true, index_modified: true, ..flags() }.working_status(),
        Some(FileStatus::Deleted)
    );
    assert_eq!(
        StatusFlags { index_deleted: true, ..flags() }.working_status(),
        Some(FileStatus::Deleted)
    );
    assert_eq!(
        StatusFlags { wt_modified: true, index_renamed: true, ..flags() }.working_status(),
        Some(FileStatus::Modified)
    );
    assert_eq!(
        StatusFlags { index_modified: true, ..flags() }.working_status(),
        Some(FileStatus::Modified)
    );
    assert_eq!(
        StatusFlags { wt_renamed: true, ..flags() }.working_status(),
        Some(FileStatus::Renamed)
    );
    assert_eq!(
        StatusFlags { index_renamed: true, ..flags() }.working_status(),
        Some(FileStatus::Renamed)
    );
}

#[test]
fn guard_blocks_on_modifications_and_deletions_only() {
    assert!(!flags().blocks_checkout());
    assert!(StatusFlags { wt_modified: true, ..flags() }.blocks_checkout());
    assert!(StatusFlags { wt_deleted: true, ..flags() }.blocks_checkout());
    assert!(StatusFlags { index_modified: true, ..flags() }.blocks_checkout());
    assert!(StatusFlags { index_deleted: true, ..flags() }.blocks_checkout());
    assert!(!StatusFlags { wt_new: true, ..flags() }.blocks_checkout());
    assert!(!StatusFlags { index_new: true, ..flags() }.blocks_checkout());
    assert!(!StatusFlags { index_new: true, wt_new: true, ..flags() }.blocks_checkout());
    assert!(!StatusFlags { wt_renamed: true, index_renamed: true, ..flags() }.blocks_checkout());
    assert!(StatusFlags { index_new: true, wt_modified: true, ..flags() }.blocks_checkout());
}

// Text.

#[test]
fn first_line_of_a_message() {
    assert_eq!(first_line(""), "");
    assert_eq!(first_line("subject"), "subject");
    assert_eq!(first_line("subject\n"), "subject");
    assert_eq!(first_line("subject\n\nbody\nmore"), "subject");
    assert_eq!(first_line("subject\r\nbody"), "subject");
    assert_eq!(first_line("\nbody"), "");
    assert_eq!(first_line("\r\nbody"), "");
    assert_eq!(first_line("sub\rject\nbody"), "sub\rject");
    assert_eq!(first_line("subject\r"), "subject\r");
    assert_eq!(first_line("subject\r\r\nbody"), "subject\r");
    assert_eq!(first_line("héllo wörld ✓\nbody"), "héllo wörld ✓");
}

#[test]
fn first_line_agrees_with_the_lines_of_std() {
    for text in ["", "a", "a\n", "a\r\n", "a\nb", "a\r\nb", "\n", "\r\n", "a\r", "a\rb\nc", "é\r\n"] {
        assert_eq!(first_line(text), text.lines().next().unwrap_or(""));
    }
}

#[test]
fn nul_is_found_anywhere() {
    assert!(!has_nul(""));
    assert!(!has_nul("file.txt"));
    assert!(has_nul("\0"));
    assert!(has_nul("file\0.txt"));
    assert!(has_nul("file.txt\0"));
    assert!(!has_nul("fïle.txt"));
}

#[test]
fn names_are_ordered_by_code_point() {
    assert!(name_precedes("", ""));
    assert!(name_precedes("", "a"));
    assert!(!name_precedes("a", ""));
    assert!(name_precedes("a", "a"));
    assert!(name_precedes("a", "b"));
    assert!(!name_precedes("b", "a"));
    assert!(name_precedes("feature", "feature-a"));
    assert!(!name_precedes("feature-a", "feature"));
    assert!(name_precedes("Beta", "alpha"));
    assert!(name_precedes("main", "master"));
    assert!(name_precedes("z", "é"));
    assert!(name_precedes("é", "✓"));
}

#[test]
fn names_are_ordered_as_std_orders_strings() {
    let names = ["", "a", "A", "ab", "b", "feature/x", "feature-x", "é", "z", "zz", "\u{10000}", "\u{ffff}"];
    for a in names {
        for b in names {
            assert_eq!(name_precedes(a, b), a <= b, "{:?} {:?}", a, b);
        }
    }
}

#[test]
fn binary_content_has_a_zero_byte_among_its_first_8000() {
    assert!(!looks_binary(b""));
    assert!(!looks_binary(b"plain text\n"));
    assert!(looks_binary(&[0]));
    assert!(looks_binary(b"ab\0cd"));
    let mut bytes = vec![b'x'; 9000];
    assert!(!looks_binary(&bytes));
    bytes[8000] = 0;
    assert!(!looks_binary(&bytes));
    bytes[7999] = 0;
    assert!(looks_binary(&bytes));
    let mut short = vec![b'x'; 100];
    short[99] = 0;
    assert!(looks_binary(&short));
}

// Failures.

#[test]
fn failures_carry_their_kind_and_message() {
    let error = GitError::new(ErrorKind::FileNotFound, "gone");
    assert_eq!(error.kind, ErrorKind::FileNotFound);
    assert_eq!(error.message(), "gone");
    let error = GitError::with_detail(ErrorKind::Backend, "Failed to read file", "denied");
    assert_eq!(error.kind, ErrorKind::Backend);
    assert_eq!(error.message(), "Failed to read file: denied");
    let error = GitError::about(ErrorKind::FileNotInComparison, "File '", "a.txt", "' has no changes");
    assert_eq!(error.kind, ErrorKind::FileNotInComparison);
    assert_eq!(error.message(), "File 'a.txt' has no changes");
    let cause = git2::Error::from_str("no such thing");
    let error = GitError::from_backend(ErrorKind::CommitNotFound, "Failed to find commit", &cause);
    assert_eq!(error.kind, ErrorKind::CommitNotFound);
    assert_eq!(error.message(), format!("Failed to find commit: {}", cause));
}

// Commits.

#[test]
fn commit_defaults_for_a_missing_identity() {
    let author = AuthorInfo { name: None, email: None, seconds: 7 };
    let commit = make_commit("abc".to_string(), None, author);
    assert_eq!(commit.id, "abc");
    assert_eq!(commit.message, "");
    assert_eq!(commit.author, "Unknown");
    assert_eq!(commit.email, "");
    assert_eq!(commit.timestamp, 7);
}

#[test]
fn commit_keeps_the_first_line_and_the_identity() {
    let author = AuthorInfo {
        name: Some("Ada".to_string()),
        email: Some("ada@example.com".to_string()),
        seconds: -1,
    };
    let commit = make_commit("abc".to_string(), Some("Subject\n\nBody".to_string()), author);
    assert_eq!(commit.message, "Subject");
    assert_eq!(commit.author, "Ada");
    assert_eq!(commit.email, "ada@example.com");
    assert_eq!(commit.timestamp, -1);
}

#[test]
fn a_commit_is_compared_with_its_first_parent_or_with_nothing() {
    assert_eq!(comparison_parent(0), None);
    assert_eq!(comparison_parent(1), Some(0));
    assert_eq!(comparison_parent(2), Some(0));
    assert_eq!(comparison_parent(usize::MAX), Some(0));
}

// Lines and hunks.

#[test]
fn lines_are_classified_by_their_marker() {
    assert_eq!(classify_line('+'), LineType::Addition);
    assert_eq!(classify_line('-'), LineType::Deletion);
    assert_eq!(classify_line(' '), LineType::Context);
    assert_eq!(classify_line('='), LineType::Context);
    assert_eq!(classify_line('>'), LineType::Context);
    assert_eq!(classify_line('<'), LineType::Context);
    assert_eq!(classify_line('H'), LineType::Context);
}

#[test]
fn a_line_keeps_the_numbers_of_the_sides_it_is_on() {
    let raw = |origin| RawLine {
        origin,
        content: "text\n".to_string(),
        old_lineno: Some(3),
        new_lineno: Some(4),
    };
    let line: DiffLine = make_line(raw('+'));
    assert_eq!((line.line_type, line.old_line_no, line.new_line_no), (LineType::Addition, None, Some(4)));
    assert_eq!(line.content, "text\n");
    let line = make_line(raw('-'));
    assert_eq!((line.line_type, line.old_line_no, line.new_line_no), (LineType::Deletion, Some(3), None));
    let line = make_line(raw(' '));
    assert_eq!((line.line_type, line.old_line_no, line.new_line_no), (LineType::Context, Some(3), Some(4)));
    let line = make_line(RawLine { origin: '=', content: String::new(), old_lineno: None, new_lineno: None });
    assert_eq!((line.line_type, line.old_line_no, line.new_line_no), (LineType::Context, None, None));
}

#[test]
fn hunks_of_a_patch_are_read_in_order() {
    let old = b"one\ntwo\nthree\n";
    let new = b"one\n2\nthree\nfour\n";
    let patch = patch_of(old, new);
    let hunks = read_hunks(&patch).expect("hunks");
    assert_eq!(hunks.len(), 1);
    assert_eq!(
        (hunks[0].old_start, hunks[0].old_lines, hunks[0].new_start, hunks[0].new_lines),
        (1, 3, 1, 4)
    );
    assert_eq!(
        shape(&hunks),
        vec![vec![
            (LineType::Context, "one\n".to_string(), Some(1), Some(1)),
            (LineType::Deletion, "two\n".to_string(), Some(2), None),
            (LineType::Addition, "2\n".to_string(), None, Some(2)),
            (LineType::Context, "three\n".to_string(), Some(3), Some(3)),
            (LineType::Addition, "four\n".to_string(), None, Some(4)),
        ]]
    );
}

#[test]
fn hunks_of_a_patch_with_two_regions() {
    let mut old = String::new();
    let mut new = String::new();
    for i in 1..=30 {
        old.push_str(&format!("line {}\n", i));
        if i == 2 {
            new.push_str("line two\n");
        } else if i != 28 {
            new.push_str(&format!("line {}\n", i));
        }
    }
    let patch = patch_of(old.as_bytes(), new.as_bytes());
    let hunks = read_hunks(&patch).expect("hunks");
    assert_eq!(hunks.len(), 2);
    assert_eq!(
        (hunks[0].old_start, hunks[0].old_lines, hunks[0].new_start, hunks[0].new_lines),
        (1, 5, 1, 5)
    );
    assert_eq!(
        (hunks[1].old_start, hunks[1].old_lines, hunks[1].new_start, hunks[1].new_lines),
        (25, 6, 25, 5)
    );
    assert_eq!(hunks[0].lines.len(), 6);
    assert_eq!(hunks[1].lines.len(), 6);
    assert_eq!(hunks[1].lines[3].line_type, LineType::Deletion);
    assert_eq!(hunks[1].lines[3].content, "line 28\n");
    assert_eq!(hunks[1].lines[3].old_line_no, Some(28));
    assert!(hunks[0].old_start < hunks[1].old_start);
    assert_eq!(count_lines(&patch), (1, 2));
}

#[test]
fn hunks_of_equal_buffers_are_none() {
    let patch = patch_of(b"same\n", b"same\n");
    assert!(read_hunks(&patch).expect("hunks").is_empty());
    assert_eq!(count_lines(&patch), (0, 0));
}

#[test]
fn a_missing_final_newline_is_context() {
    let patch = patch_of(b"one\n", b"one\ntwo");
    let hunks = read_hunks(&patch).expect("hunks");
    assert_eq!(hunks.len(), 1);
    let kinds: Vec<LineType> = hunks[0].lines.iter().map(|l| l.line_type).collect();
    assert_eq!(kinds, vec![LineType::Context, LineType::Addition, LineType::Context]);
    assert_eq!(hunks[0].lines[1].content, "two");
    assert_eq!(hunks[0].lines[2].old_line_no, None);
    assert_eq!(count_lines(&patch), (1, 0));
}

#[test]
fn counts_of_a_patch_agree_with_its_hunks() {
    let old = b"a\nb\nc\nd\ne\n";
    let new = b"a\nB\nc\ne\nf\ng\n";
    let patch = patch_of(old, new);
    let hunks = read_hunks(&patch).expect("hunks");
    let mut additions = 0;
    let mut deletions = 0;
    for hunk in &hunks {
        for line in &hunk.lines {
            match line.line_type {
                LineType::Addition => additions += 1,
                LineType::Deletion => deletions += 1,
                LineType::Context => {}
            }
        }
    }
    assert_eq!(count_lines(&patch), (additions, deletions));
    assert_eq!((additions, deletions), (3, 2));
}

#[test]
fn counts_are_cut_to_32_bits_and_zero_without_statistics() {
    assert_eq!(line_counts_of(None), (0, 0));
    assert_eq!(line_counts_of(Some((9, 3, 4))), (3, 4));
    assert_eq!(line_counts_of(Some((0, 0, 0))), (0, 0));
    assert_eq!(line_counts_of(Some((1, u32::MAX as usize, 0))), (u32::MAX, 0));
    assert_eq!(line_counts_of(Some((1, u32::MAX as usize + 6, 1 << 32))), (5, 0));
}

// Changed files and file diffs.

#[test]
fn changed_file_of_each_kind() {
    let file = make_changed_file(&delta(DeltaKind::Added, Some("a.txt"), Some("a.txt")), (3, 0));
    assert_eq!(file.path, "a.txt");
    assert_eq!(file.status, FileStatus::Added);
    assert_eq!((file.additions, file.deletions), (3, 0));
    assert_eq!(file.old_path, None);

    let file = make_changed_file(&delta(DeltaKind::Renamed, Some("old.txt"), Some("new.txt")), (1, 2));
    assert_eq!(file.path, "new.txt");
    assert_eq!(file.status, FileStatus::Renamed);
    assert_eq!(file.old_path, Some("old.txt".to_string()));

    let file = make_changed_file(&delta(DeltaKind::Copied, Some("old.txt"), Some("new.txt")), (0, 0));
    assert_eq!(file.status, FileStatus::Copied);
    assert_eq!(file.old_path, None);

    let file = make_changed_file(&delta(DeltaKind::Deleted, Some("gone.txt"), None), (0, 4));
    assert_eq!(file.path, "gone.txt");
    assert_eq!(file.status, FileStatus::Deleted);

    let file = make_changed_file(&delta(DeltaKind::Typechange, None, None), (0, 0));
    assert_eq!(file.path, "");
    assert_eq!(file.status, FileStatus::Unmodified);
}

#[test]
fn file_diff_of_a_binary_file_has_no_hunks() {
    let hunk = DiffHunk { old_start: 1, old_lines: 1, new_start: 1, new_lines: 1, lines: Vec::new() };
    for (old_binary, new_binary) in [(true, false), (false, true), (true, true)] {
        let info = DeltaInfo {
            old_binary,
            new_binary,
            ..delta(DeltaKind::Modified, Some("image.png"), Some("image.png"))
        };
        let diff = make_file_diff(&info, vec![hunk.clone()]);
        assert!(diff.is_binary);
        assert!(diff.hunks.is_empty());
        assert_eq!(diff.new_path, "image.png");
        assert_eq!(diff.old_path, None);
    }
}

#[test]
fn file_diff_keeps_the_hunks_of_text_and_the_path_before_a_rename_or_copy() {
    let hunk = DiffHunk { old_start: 1, old_lines: 2, new_start: 3, new_lines: 4, lines: Vec::new() };
    let diff = make_file_diff(&delta(DeltaKind::Modified, Some("a"), Some("a")), vec![hunk.clone()]);
    assert!(!diff.is_binary);
    assert_eq!(diff.hunks.len(), 1);
    assert_eq!(diff.hunks[0].new_lines, 4);
    assert_eq!(diff.old_path, None);

    let diff = make_file_diff(&delta(DeltaKind::Renamed, Some("a"), Some("b")), Vec::new());
    assert_eq!(diff.new_path, "b");
    assert_eq!(diff.old_path, Some("a".to_string()));
    let diff = make_file_diff(&delta(DeltaKind::Copied, Some("a"), Some("b")), Vec::new());
    assert_eq!(diff.old_path, Some("a".to_string()));
}

#[test]
fn file_diff_of_a_patch() {
    let patch = patch_of(b"one\n", b"one\ntwo\n");
    let info = delta(DeltaKind::Modified, Some("a.txt"), Some("a.txt"));
    let diff = file_diff_of_patch(&info, &patch).expect("diff");
    assert!(!diff.is_binary);
    assert_eq!(diff.new_path, "a.txt");
    assert_eq!(
        shape(&diff.hunks),
        vec![vec![
            (LineType::Context, "one\n".to_string(), Some(1), Some(1)),
            (LineType::Addition, "two\n".to_string(), None, Some(2)),
        ]]
    );
    let binary = DeltaInfo { new_binary: true, ..info };
    let diff = file_diff_of_patch(&binary, &patch).expect("diff");
    assert!(diff.is_binary);
    assert!(diff.hunks.is_empty());
}

#[test]
fn working_change_carries_no_previous_path() {
    let file = make_working_change("a.txt".to_string(), FileStatus::Renamed, (1, 2));
    assert_eq!(file.path, "a.txt");
    assert_eq!(file.status, FileStatus::Renamed);
    assert_eq!((file.additions, file.deletions), (1, 2));
    assert_eq!(file.old_path, None);
}

// Contents.

fn text(s: &str) -> BlobLookup {
    BlobLookup::Text(s.to_string())
}

#[test]
fn contents_absent_on_both_sides_are_not_found() {
    let error = resolve_contents(BlobLookup::Absent, BlobLookup::Absent, "a.txt").unwrap_err();
    assert_eq!(error.kind, ErrorKind::FileNotFound);
    assert_eq!(error.message(), "File 'a.txt' not found in commit");
}

#[test]
fn contents_on_one_side_leave_the_other_absent() {
    let contents = resolve_contents(BlobLookup::Absent, text("new"), "a.txt").expect("contents");
    assert_eq!(contents.old_content, None);
    assert_eq!(contents.new_content, Some("new".to_string()));
    assert!(!contents.is_binary);
    let contents = resolve_contents(text("old"), BlobLookup::Absent, "a.txt").expect("contents");
    assert_eq!(contents.old_content, Some("old".to_string()));
    assert_eq!(contents.new_content, None);
    assert!(!contents.is_binary);
    let contents = resolve_contents(text(""), text("new"), "a.txt").expect("contents");
    assert_eq!(contents.old_content, Some(String::new()));
    assert_eq!(contents.new_content, Some("new".to_string()));
}

#[test]
fn a_binary_side_decides_before_anything_else() {
    let others = || {
        vec![
            BlobLookup::Absent,
            BlobLookup::Binary,
            text("text"),
            BlobLookup::NotUtf8,
            BlobLookup::NotABlob,
            BlobLookup::Failed("broken".to_string()),
        ]
    };
    for other in others() {
        let contents = resolve_contents(BlobLookup::Binary, other, "a").expect("contents");
        assert!(contents.is_binary);
        assert_eq!(contents.old_content, None);
        assert_eq!(contents.new_content, None);
    }
    for other in others() {
        let contents = resolve_contents(other, BlobLookup::Binary, "a").expect("contents");
        assert!(contents.is_binary);
        assert_eq!(contents.old_content, None);
        assert_eq!(contents.new_content, None);
    }
}

#[test]
fn a_failed_side_fails_the_contents_the_old_side_first() {
    let error = resolve_contents(BlobLookup::NotUtf8, text("new"), "a").unwrap_err();
    assert_eq!(error.kind, ErrorKind::NonUtf8Content);
    assert_eq!(error.message(), "File is not valid UTF-8");
    let error = resolve_contents(text("old"), BlobLookup::NotABlob, "a").unwrap_err();
    assert_eq!(error.kind, ErrorKind::Backend);
    assert_eq!(error.message(), "Not a blob");
    let error = resolve_contents(BlobLookup::Absent, BlobLookup::Failed("broken".to_string()), "a")
        .unwrap_err();
    assert_eq!(error.kind, ErrorKind::Backend);
    assert_eq!(error.message(), "broken");
    let error = resolve_contents(BlobLookup::NotABlob, BlobLookup::NotUtf8, "a").unwrap_err();
    assert_eq!(error.message(), "Not a blob");
    let error = resolve_contents(BlobLookup::NotUtf8, BlobLookup::NotABlob, "a").unwrap_err();
    assert_eq!(error.kind, ErrorKind::NonUtf8Content);
}

#[test]
fn working_contents_follow_the_file_on_disk() {
    let disk = || WorktreeFile::Content(b"on disk".to_vec());
    let contents = resolve_working_contents(text("old"), true, disk(), "a").expect("contents");
    assert_eq!(contents.old_content, Some("old".to_string()));
    assert_eq!(contents.new_content, Some("on disk".to_string()));
    assert!(!contents.is_binary);

    let contents = resolve_working_contents(BlobLookup::Absent, true, disk(), "a").expect("contents");
    assert_eq!(contents.old_content, None);
    assert_eq!(contents.new_content, Some("on disk".to_string()));

    let contents =
        resolve_working_contents(text("old"), true, WorktreeFile::Missing, "a").expect("contents");
    assert_eq!(contents.old_content, Some("old".to_string()));
    assert_eq!(contents.new_content, None);

    let contents = resolve_working_contents(
        BlobLookup::Absent,
        true,
        WorktreeFile::Content("héllo ✓".as_bytes().to_vec()),
        "a",
    )
    .expect("contents");
    assert_eq!(contents.new_content, Some("héllo ✓".to_string()));

    let contents =
        resolve_working_contents(BlobLookup::Absent, true, WorktreeFile::Content(Vec::new()), "a")
            .expect("contents");
    assert_eq!(contents.new_content, Some(String::new()));
}

#[test]
fn working_contents_fail_in_their_order() {
    let error =
        resolve_working_contents(BlobLookup::Absent, true, WorktreeFile::Missing, "a.txt").unwrap_err();
    assert_eq!(error.kind, ErrorKind::FileNotFound);
    assert_eq!(error.message(), "File 'a.txt' not found");

    let error = resolve_working_contents(
        BlobLookup::NotUtf8,
        false,
        WorktreeFile::Content(vec![0]),
        "a",
    )
    .unwrap_err();
    assert_eq!(error.kind, ErrorKind::NonUtf8Content);

    let error =
        resolve_working_contents(text("old"), false, WorktreeFile::Content(vec![0]), "a").unwrap_err();
    assert_eq!(error.kind, ErrorKind::NotARepository);
    assert_eq!(error.message(), "Repository has no working directory");

    let error = resolve_working_contents(
        text("old"),
        true,
        WorktreeFile::Unreadable("denied".to_string()),
        "a",
    )
    .unwrap_err();
    assert_eq!(error.kind, ErrorKind::Backend);
    assert_eq!(error.message(), "Failed to read file: denied");

    let error = resolve_working_contents(
        text("old"),
        true,
        WorktreeFile::Content(vec![b'a', 0xff, b'b']),
        "a",
    )
    .unwrap_err();
    assert_eq!(error.kind, ErrorKind::NonUtf8Content);
    let error = resolve_working_contents(
        text("old"),
        true,
        WorktreeFile::Content(vec![0xed, 0xa0, 0x80]),
        "a",
    )
    .unwrap_err();
    assert_eq!(error.kind, ErrorKind::NonUtf8Content);
}

#[test]
fn working_contents_are_binary_by_either_side() {
    let contents =
        resolve_working_contents(BlobLookup::Binary, false, WorktreeFile::Missing, "a").expect("contents");
    assert!(contents.is_binary);
    assert_eq!((contents.old_content, contents.new_content), (None, None));

    let contents = resolve_working_contents(text("old"), true, WorktreeFile::Content(vec![b'a', 0]), "a")
        .expect("contents");
    assert!(contents.is_binary);
    assert_eq!((contents.old_content, contents.new_content), (None, None));

    let mut late = vec![b'x'; 8001];
    late[8000] = 0;
    let contents =
        resolve_working_contents(text("old"), true, WorktreeFile::Content(late), "a").expect("contents");
    assert!(!contents.is_binary);
    assert_eq!(contents.new_content.map(|text| text.len()), Some(8001));
}

// Branches.

#[test]
fn branch_order_puts_current_then_local_then_remote() {
    let current = branch("zzz", true, false, "");
    let local = branch("bbb", false, false, "");
    let other = branch("ccc", false, false, "");
    let remote = branch("aaa", false, true, "");
    assert!(branch_precedes(&current, &local));
    assert!(!branch_precedes(&local, &current));
    assert!(branch_precedes(&local, &remote));
    assert!(!branch_precedes(&remote, &local));
    assert!(branch_precedes(&current, &remote));
    assert!(branch_precedes(&local, &other));
    assert!(!branch_precedes(&other, &local));
    assert!(branch_precedes(&local, &local));
}

#[test]
fn branches_are_sorted() {
    let listing = vec![
        branch("origin/main", false, true, "1"),
        branch("zeta", false, false, "2"),
        branch("main", true, false, "3"),
        branch("origin/dev", false, true, "4"),
        branch("alpha", false, false, "5"),
        branch("Beta", false, false, "6"),
    ];
    let sorted = sort_branches(listing);
    let names: Vec<&str> = sorted.iter().map(|b| b.name.as_str()).collect();
    assert_eq!(names, vec!["main", "Beta", "alpha", "zeta", "origin/dev", "origin/main"]);
    let ids: Vec<&str> = sorted.iter().map(|b| b.commit_id.as_str()).collect();
    assert_eq!(ids, vec!["3", "6", "5", "2", "4", "1"]);
    assert!(sorted[0].is_current);
}

#[test]
fn branches_that_are_equal_in_order_keep_their_order() {
    let listing = vec![
        branch("same", false, false, "first"),
        branch("other", false, false, "x"),
        branch("same", false, false, "second"),
        branch("same", false, false, "third"),
    ];
    let sorted = sort_branches(listing);
    let ids: Vec<&str> = sorted.iter().map(|b| b.commit_id.as_str()).collect();
    assert_eq!(ids, vec!["x", "first", "second", "third"]);
    assert!(sort_branches(Vec::new()).is_empty());
}

#[test]
fn branch_entry_is_current_by_name_among_the_local_ones() {
    let current = Some("main".to_string());
    let entry = make_branch("main".to_string(), false, &current, Some("abc".to_string()));
    assert_eq!(entry.name, "main");
    assert!(entry.is_current);
    assert!(!entry.is_remote);
    assert_eq!(entry.commit_id, "abc");
    let entry = make_branch("main".to_string(), true, &current, None);
    assert!(!entry.is_current);
    assert!(entry.is_remote);
    assert_eq!(entry.commit_id, "");
    let entry = make_branch("dev".to_string(), false, &current, None);
    assert!(!entry.is_current);
    let entry = make_branch("main".to_string(), false, &None, None);
    assert!(!entry.is_current);
}

#[test]
fn head_is_named_by_its_branch_or_its_commit() {
    let name = head_name(true, Some("main".to_string()), Some("abc".to_string())).expect("name");
    assert_eq!(name, "main");
    let name = head_name(false, Some("HEAD".to_string()), Some("abc".to_string())).expect("name");
    assert_eq!(name, "abc");
    let error = head_name(true, None, Some("abc".to_string())).unwrap_err();
    assert_eq!(error.kind, ErrorKind::Backend);
    assert_eq!(error.message(), "Branch name is not valid UTF-8");
    let error = head_name(false, Some("main".to_string()), None).unwrap_err();
    assert_eq!(error.kind, ErrorKind::RevisionResolutionFailed);
    assert_eq!(error.message(), "HEAD has no target");
}

#[test]
fn repo_info_names_the_directory_or_unknown() {
    let info = make_repo_info("/tmp/repo/".to_string(), Some("repo".to_string()), "main".to_string());
    assert_eq!(info.path, "/tmp/repo/");
    assert_eq!(info.name, "repo");
    assert_eq!(info.branch, "main");
    let info = make_repo_info("/".to_string(), None, "main".to_string());
    assert_eq!(info.name, "unknown");
}

// Pickers and classifiers.

#[test]
fn ends_of_a_range_are_its_first_and_last_commit() {
    assert_eq!(range_ends(0), None);
    assert_eq!(range_ends(1), Some(RangeEnds { newest: 0, oldest: 0 }));
    assert_eq!(range_ends(2), Some(RangeEnds { newest: 0, oldest: 1 }));
    assert_eq!(range_ends(5), Some(RangeEnds { newest: 0, oldest: 4 }));
    assert_eq!(
        range_ends(usize::MAX),
        Some(RangeEnds { newest: 0, oldest: usize::MAX - 1 })
    );
}

#[test]
fn a_blob_is_binary_or_text_or_no_text() {
    assert!(matches!(classify_blob(true, b"plain text".to_vec()), BlobLookup::Binary));
    assert!(matches!(classify_blob(true, vec![0xff]), BlobLookup::Binary));
    assert!(matches!(classify_blob(true, Vec::new()), BlobLookup::Binary));
    match classify_blob(false, "héllo ✓\n".as_bytes().to_vec()) {
        BlobLookup::Text(text) => assert_eq!(text, "héllo ✓\n"),
        other => panic!("{:?}", other),
    }
    match classify_blob(false, Vec::new()) {
        BlobLookup::Text(text) => assert_eq!(text, ""),
        other => panic!("{:?}", other),
    }
    assert!(matches!(classify_blob(false, vec![b'a', 0xe9]), BlobLookup::NotUtf8));
    assert!(matches!(classify_blob(false, vec![0xc0, 0x80]), BlobLookup::NotUtf8));
}

#[test]
fn counts_without_a_patch_are_zero() {
    assert_eq!(counts_of_patch(None), (0, 0));
    let patch = patch_of(b"a\nb\n", b"a\nc\nd\n");
    assert_eq!(counts_of_patch(Some(&patch)), (2, 1));
    assert_eq!(counts_of_patch(Some(&patch)), count_lines(&patch));
}

#[test]
fn a_path_without_a_change_is_reported_by_its_comparison() {
    let error = not_compared(Comparison::Trees, "a.txt");
    assert_eq!(error.kind, ErrorKind::FileNotInComparison);
    assert_eq!(error.message(), "File 'a.txt' not found in commit");
    let error = not_compared(Comparison::WorkingTree, "a.txt");
    assert_eq!(error.kind, ErrorKind::FileNotInComparison);
    assert_eq!(error.message(), "File 'a.txt' has no changes");
}
