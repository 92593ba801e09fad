use gitradar::infrastructure::git::status::{summarize_statuses, RenamePaths, StatusEntry};
use gitradar::infrastructure::git::commit::{new_commit, parse_commit_hash};
use gitradar::infrastructure::git::file::{
    build_commit_diff, build_commit_inline_diff, build_inline_builders, get_file_diff,
    merge_hunks_with_new_file,
    split_blob_lines, strip_line_ending, DeltaInfo, HunkHeader, HunkLine, PatchLine,
};
use gitradar::infrastructure::git::{ChangeType, DeltaKind, DiffLineType, InlineDiffLine};

fn delta(status: DeltaKind, old: Option<&str>, new: Option<&str>) -> DeltaInfo {
    DeltaInfo {
        status,
        old_path: old.map(|s| s.to_string()),
        new_path: new.map(|s| s.to_string()),
    }
}

fn line(
    d: &DeltaInfo,
    hunk: Option<HunkHeader>,
    origin: char,
    old: Option<u32>,
    new: Option<u32>,
    content: &str,
) -> PatchLine {
    PatchLine {
        status: d.status,
        old_path: d.old_path.clone(),
        new_path: d.new_path.clone(),
        hunk,
        origin,
        old_lineno: old,
        new_lineno: new,
        content: content.to_string(),
    }
}

fn sample() -> (Vec<DeltaInfo>, Vec<PatchLine>) {
    let a = delta(DeltaKind::Modified, Some("a.txt"), Some("a.txt"));
    let b = delta(DeltaKind::Added, None, Some("b.txt"));
    let nameless = delta(DeltaKind::Modified, None, None);
    let h1 = HunkHeader { old_start: 1, old_lines: 2, new_start: 1, new_lines: 2 };
    let h2 = HunkHeader { old_start: 10, old_lines: 1, new_start: 10, new_lines: 1 };
    let hb = HunkHeader { old_start: 0, old_lines: 0, new_start: 1, new_lines: 1 };
    let lines = vec![
        line(&a, None, 'F', None, None, "diff --git a/a.txt b/a.txt\n"),
        line(&a, Some(h1), 'H', None, None, "@@ -1,2 +1,2 @@\n"),
        line(&a, Some(h1), ' ', Some(1), Some(1), "keep\n"),
        line(&a, Some(h1), '-', Some(2), None, "old\n"),
        line(&a, Some(h1), '+', None, Some(2), "new\n"),
        line(&a, Some(h2), '+', None, Some(10), "more\n"),
        line(&b, Some(hb), '+', None, Some(1), "hello\n"),
    ];
    (vec![a, nameless, b], lines)
}

#[test]
fn commit_diff_groups_lines_into_files_and_hunks() {
    let (deltas, lines) = sample();
    let diff = build_commit_diff("abc".to_string(), &deltas, &lines);
    assert_eq!(diff.commit_hash, "abc");
    assert_eq!(diff.files.len(), 2);
    let a = &diff.files[0];
    assert_eq!(a.new_path, "a.txt");
    assert_eq!(a.old_path.as_deref(), Some("a.txt"));
    assert_eq!(a.change_type, ChangeType::Modified);
    assert_eq!((a.additions, a.deletions), (2, 1));
    assert_eq!(a.hunks.len(), 2);
    assert_eq!(a.hunks[0].lines.len(), 3);
    assert_eq!(a.hunks[0].lines[1].line_type, DiffLineType::Removed);
    assert_eq!(a.hunks[0].lines[1].old_line_number, Some(2));
    assert_eq!(a.hunks[1].old_start, 10);
    assert_eq!(a.hunks[1].lines[0].content, "more\n");
    let b = &diff.files[1];
    assert_eq!(b.new_path, "b.txt");
    assert_eq!(b.old_path, None);
    assert_eq!(b.change_type, ChangeType::Added);
    assert_eq!((b.additions, b.deletions), (1, 0));
}

#[test]
fn file_diff_is_found_by_new_or_old_path() {
    let (deltas, lines) = sample();
    let diff = build_commit_diff("abc".to_string(), &deltas, &lines);
    let f = get_file_diff(diff.clone(), "abc", "b.txt").unwrap();
    assert_eq!(f.new_path, "b.txt");
    let renamed = vec![delta(DeltaKind::Renamed, Some("old.rs"), Some("new.rs"))];
    let rdiff = build_commit_diff("def".to_string(), &renamed, &Vec::new());
    assert_eq!(get_file_diff(rdiff.clone(), "def", "old.rs").unwrap().new_path, "new.rs");
    assert_eq!(
        get_file_diff(diff, "abc", "zzz.txt").unwrap_err(),
        "File 'zzz.txt' was not changed by commit 'abc'"
    );
}

#[test]
fn inline_view_merges_context_around_hunks() {
    let (deltas, lines) = sample();
    let builders = build_inline_builders(&deltas, &lines);
    assert_eq!(builders.len(), 2);
    let mut it = builders.into_iter();
    let a = it.next().unwrap();
    let base: Vec<String> = (1..=11).map(|i| format!("line{}", i)).collect();
    let view = a.into_inline_file_diff(base);
    let added = view.lines.iter().filter(|l| l.line_type == DiffLineType::Added).count();
    let removed = view.lines.iter().filter(|l| l.line_type == DiffLineType::Removed).count();
    assert_eq!((added, removed), (2, 1));
    assert_eq!(view.lines[0].content, "keep");
    let b = it.next().unwrap();
    let bview = b.into_inline_file_diff(vec!["hello".to_string(), "world".to_string()]);
    assert_eq!(bview.change_type, ChangeType::Added);
    assert_eq!(bview.lines.len(), 2);
    assert_eq!(bview.lines[1].new_line_number, Some(2));
    assert_eq!(bview.lines[1].old_line_number, None);
    assert_eq!(bview.lines[1].line_type, DiffLineType::Added);
}

#[test]
fn blob_lines_decode_leniently() {
    let lines = split_blob_lines(b"one\r\ntwo\nthree");
    assert_eq!(lines, vec!["one", "two", "three"]);
    let bad = split_blob_lines(&[b'a', 0xff, b'b']);
    assert_eq!(bad, vec!["a\u{fffd}b"]);
    assert_eq!(strip_line_ending("text\r\n".to_string()), "text");
    assert_eq!(strip_line_ending("text\n".to_string()), "text");
}

#[test]
fn commit_hashes_are_read_as_object_ids() {
    let id = parse_commit_hash("abc123").unwrap();
    let oid = git2::Oid::from_bytes(&id).unwrap();
    assert_eq!(oid.to_string(), format!("abc123{}", "0".repeat(34)));
    let full = "0123456789abcdef0123456789abcdef01234567";
    let full_id = parse_commit_hash(full).unwrap();
    assert_eq!(git2::Oid::from_bytes(&full_id).unwrap().to_string(), full);
    let err = parse_commit_hash("xyz").unwrap_err();
    assert!(err.starts_with("Invalid commit hash 'xyz': "));
    assert!(parse_commit_hash("").is_err());
    assert!(parse_commit_hash(&"a".repeat(41)).is_err());
    let c = new_commit(full, None, None, None, None, None, Some("body".to_string()), 2, -5);
    assert_eq!(c.subject, "No subject");
    assert_eq!(c.committed_at, "-5");
    assert_eq!(c.parent_count, 2);
}

#[test]
fn working_tree_summary_sorts_paths_and_stops_at_first_failure() {
    let entry = |new: bool, deleted: bool, modified: bool, path: &str| StatusEntry {
        wt_renamed: false,
        wt_new: new,
        wt_deleted: deleted,
        wt_modified: modified,
        rename: None,
        path: Ok(path.to_string()),
    };
    let renamed = StatusEntry {
        wt_renamed: true,
        wt_new: false,
        wt_deleted: false,
        wt_modified: false,
        rename: Some(RenamePaths {
            old_path: Some("old.rs".to_string()),
            new_path: Some("new.rs".to_string()),
        }),
        path: Ok("new.rs".to_string()),
    };
    let entries = vec![
        entry(true, false, false, "a.txt"),
        entry(false, true, false, "b.txt"),
        entry(false, false, true, "c.txt"),
        entry(false, false, false, "ignored.txt"),
        renamed,
    ];
    let s = summarize_statuses(&entries).unwrap();
    assert_eq!(s.added, vec!["a.txt"]);
    assert_eq!(s.deleted, vec!["b.txt"]);
    assert_eq!(s.modified, vec!["c.txt"]);
    assert_eq!(s.renamed, vec![("old.rs".to_string(), "new.rs".to_string())]);

    let bad = vec![
        entry(true, false, false, "a.txt"),
        StatusEntry {
            wt_renamed: false,
            wt_new: true,
            wt_deleted: false,
            wt_modified: false,
            rename: None,
            path: Err("bad utf8".to_string()),
        },
        StatusEntry {
            wt_renamed: true,
            wt_new: false,
            wt_deleted: false,
            wt_modified: false,
            rename: None,
            path: Ok("x".to_string()),
        },
    ];
    assert_eq!(
        summarize_statuses(&bad).unwrap_err(),
        "Failed to read status path: bad utf8"
    );
}

#[test]
fn unchanged_file_shows_as_context() {
    let d = delta(DeltaKind::Modified, Some("c.txt"), Some("c.txt"));
    let builders = build_inline_builders(&vec![d], &Vec::new());
    let view = builders
        .into_iter()
        .next()
        .unwrap()
        .into_inline_file_diff(vec!["x".to_string(), "y".to_string()]);
    assert_eq!(view.lines.len(), 2);
    assert!(view.lines.iter().all(|l| l.line_type == DiffLineType::Context));
    assert_eq!(view.lines[1].old_line_number, Some(2));
    assert_eq!(view.lines[1].new_line_number, Some(2));
}

#[test]
fn both_views_list_the_same_files() {
    let (deltas, lines) = sample();
    let diff = build_commit_diff("abc".to_string(), &deltas, &lines);
    let builders = build_inline_builders(&deltas, &lines);
    let a_base: Vec<String> = (1..=11).map(|i| format!("line{}", i)).collect();
    let b_base = split_blob_lines(b"hello\nworld\n");
    let inline = build_commit_inline_diff("abc".to_string(), builders, vec![a_base, b_base]);
    assert_eq!(inline.commit_hash, diff.commit_hash);
    let patch: Vec<(Option<String>, String, ChangeType)> = diff
        .files
        .iter()
        .map(|f| (f.old_path.clone(), f.new_path.clone(), f.change_type))
        .collect();
    let whole: Vec<(Option<String>, String, ChangeType)> = inline
        .files
        .iter()
        .map(|f| (f.old_path.clone(), f.new_path.clone(), f.change_type))
        .collect();
    assert_eq!(whole, patch);
    assert_eq!(inline.files[0].lines.len(), 12);
    assert_eq!(inline.files[1].lines.len(), 2);
    for file in &inline.files {
        for l in &file.lines {
            assert!(!l.content.ends_with('\n'));
        }
    }
}

fn hunk_line(start: u32, len: u32, n: u32, t: DiffLineType, text: &str) -> HunkLine {
    let (old, new) = match t {
        DiffLineType::Removed => (Some(n), None),
        DiffLineType::Added => (None, Some(n)),
        DiffLineType::Context => (Some(n), Some(n)),
    };
    HunkLine {
        old_start: start,
        old_lines: len,
        new_start: start,
        new_lines: len,
        line: InlineDiffLine {
            old_line_number: old,
            new_line_number: new,
            content: text.to_string(),
            line_type: t,
        },
    }
}

#[test]
fn merge_shows_every_line_outside_the_hunks_once() {
    let base: Vec<String> = (1..=6).map(|i| format!("l{}", i)).collect();
    let hunks = vec![
        hunk_line(2, 1, 2, DiffLineType::Removed, "x2"),
        hunk_line(2, 1, 2, DiffLineType::Added, "l2"),
        hunk_line(5, 1, 5, DiffLineType::Added, "l5"),
    ];
    let merged = merge_hunks_with_new_file(base, hunks);
    let shape: Vec<(Option<u32>, DiffLineType, &str)> = merged
        .iter()
        .map(|l| (l.new_line_number, l.line_type, l.content.as_str()))
        .collect();
    assert_eq!(
        shape,
        vec![
            (Some(1), DiffLineType::Context, "l1"),
            (None, DiffLineType::Removed, "x2"),
            (Some(2), DiffLineType::Added, "l2"),
            (Some(3), DiffLineType::Context, "l3"),
            (Some(4), DiffLineType::Context, "l4"),
            (Some(5), DiffLineType::Added, "l5"),
            (Some(6), DiffLineType::Context, "l6"),
        ]
    );
}

#[test]
fn commit_hash_digits_become_id_bytes() {
    let mut expected = vec![0xabu8, 0xc1, 0x23];
    expected.resize(20, 0);
    assert_eq!(parse_commit_hash("abc123").unwrap(), expected);
    let mut odd = vec![0xf0u8];
    odd.resize(20, 0);
    assert_eq!(parse_commit_hash("F").unwrap(), odd);
    let full = parse_commit_hash("0123456789abcdef0123456789ABCDEF01234567").unwrap();
    assert_eq!(full[0], 0x01);
    assert_eq!(full[7], 0xef);
    assert_eq!(full[15], 0xef);
    assert_eq!(full[19], 0x67);
}
