//! Assembly of commit diffs from what Git reports: the files of a diff, and
//! the patch lines grouped into hunks per file; and the whole-file view of a
//! commit, with context lines from the file merged around its changed lines.
use vstd::prelude::*;

use super::{
    change_type, change_type_of, ChangeType, CommitDiff, CommitDiffView, CommitInlineDiff,
    CommitInlineView, DeltaKind,
    DiffHunk, DiffHunkView, DiffLine, DiffLineType, DiffLineView, FileDiff, FileDiffView,
    InlineDiffLine, InlineFileDiff, InlineFileView, InlineLineView, keeps_git_kind,
    law_change_type_keeps_git_kind,
};
use crate::text::{
    chars_of, copy_range, lemma_text_lines_free_of_newlines, opt_view, split_lines,
    string_from_chars, string_views, text_lines,
};

verus! {

/// The ranges of a hunk header as Git reports them.
#[derive(Debug, Clone, Copy, PartialEq, Eq, Structural)]
pub struct HunkHeader {
    pub old_start: u32,
    pub old_lines: u32,
    pub new_start: u32,
    pub new_lines: u32,
}

/// One file entry of a diff as Git lists it.
#[derive(Debug, Clone)]
pub struct DeltaInfo {
    pub status: DeltaKind,
    pub old_path: Option<String>,
    pub new_path: Option<String>,
}

/// One line of the patch text of a diff, as Git reports it, with the status
/// and paths of the file entry it belongs to and the header of its hunk.
#[derive(Debug, Clone)]
pub struct PatchLine {
    pub status: DeltaKind,
    pub old_path: Option<String>,
    pub new_path: Option<String>,
    pub hunk: Option<HunkHeader>,
    pub origin: char,
    pub old_lineno: Option<u32>,
    pub new_lineno: Option<u32>,
    pub content: String,
}

/// The text of an optional path, empty when absent.
pub open spec fn text_or_empty(o: Option<String>) -> Seq<char> {
    match o {
        Some(s) => s@,
        None => Seq::empty(),
    }
}

/// A file entry is identified by its status and its two paths (an absent
/// path reads as empty).
pub open spec fn same_key(d: DeltaInfo, l: PatchLine) -> bool {
    &&& d.status == l.status
    &&& text_or_empty(d.old_path) == text_or_empty(l.old_path)
    &&& text_or_empty(d.new_path) == text_or_empty(l.new_path)
}

/// A file entry with neither path is left out of the diff.
pub open spec fn has_path(d: DeltaInfo) -> bool {
    d.new_path is Some || d.old_path is Some
}

/// The path shown for a file entry: the new path, else the old one.
pub open spec fn display_path(d: DeltaInfo) -> Seq<char> {
    match d.new_path {
        Some(p) => p@,
        None => text_or_empty(d.old_path),
    }
}

/// The file entries that appear in the diff, in Git's order.
pub open spec fn kept(ds: Seq<DeltaInfo>) -> Seq<DeltaInfo>
    decreases ds.len(),
{
    if ds.len() == 0 {
        seq![]
    } else if has_path(ds.last()) {
        kept(ds.drop_last()).push(ds.last())
    } else {
        kept(ds.drop_last())
    }
}

/// The position of the file a patch line belongs to: the last kept entry with
/// the same identity, or -1 when there is none.
pub open spec fn target(ks: Seq<DeltaInfo>, l: PatchLine) -> int
    decreases ks.len(),
{
    if ks.len() == 0 {
        -1
    } else if same_key(ks.last(), l) {
        ks.len() - 1
    } else {
        target(ks.drop_last(), l)
    }
}

/// Context (` `), addition (`+`) and removal (`-`) lines; other origins are
/// not lines of a hunk.
pub open spec fn line_kind(origin: char) -> Option<DiffLineType> {
    if origin == ' ' {
        Some(DiffLineType::Context)
    } else if origin == '+' {
        Some(DiffLineType::Added)
    } else if origin == '-' {
        Some(DiffLineType::Removed)
    } else {
        None
    }
}

/// A patch line is recorded for file `i` when it has a hunk, is a hunk line
/// and belongs to file `i`.
pub open spec fn belongs(ks: Seq<DeltaInfo>, l: PatchLine, i: int) -> bool {
    l.hunk is Some && line_kind(l.origin) is Some && target(ks, l) == i
}

/// The patch lines recorded for file `i`, in order.
pub open spec fn lines_for(ks: Seq<DeltaInfo>, ls: Seq<PatchLine>, i: int) -> Seq<PatchLine>
    decreases ls.len(),
{
    if ls.len() == 0 {
        seq![]
    } else if belongs(ks, ls.last(), i) {
        lines_for(ks, ls.drop_last(), i).push(ls.last())
    } else {
        lines_for(ks, ls.drop_last(), i)
    }
}

/// The diff line a patch line becomes.
pub open spec fn line_view_of(l: PatchLine) -> DiffLineView {
    DiffLineView {
        line_type: line_kind(l.origin).unwrap(),
        old_line_number: l.old_lineno,
        new_line_number: l.new_lineno,
        content: l.content@,
    }
}

/// A hunk carries a header when its four ranges equal the header's, each
/// taken as an `i32`.
pub open spec fn header_matches(h: DiffHunkView, hh: HunkHeader) -> bool {
    &&& h.old_start == hh.old_start as i32
    &&& h.old_lines == hh.old_lines as i32
    &&& h.new_start == hh.new_start as i32
    &&& h.new_lines == hh.new_lines as i32
}

/// A new hunk for a header, holding one line.
pub open spec fn open_hunk(hh: HunkHeader, lv: DiffLineView) -> DiffHunkView {
    DiffHunkView {
        old_start: hh.old_start as i32,
        old_lines: hh.old_lines as i32,
        new_start: hh.new_start as i32,
        new_lines: hh.new_lines as i32,
        lines: seq![lv],
    }
}

/// Adds a line under a header: to the last hunk when it carries that header,
/// else to a new hunk.
pub open spec fn add_line(g: Seq<DiffHunkView>, hh: HunkHeader, lv: DiffLineView) -> Seq<
    DiffHunkView,
> {
    if g.len() > 0 && header_matches(g.last(), hh) {
        g.drop_last().push(DiffHunkView { lines: g.last().lines.push(lv), ..g.last() })
    } else {
        g.push(open_hunk(hh, lv))
    }
}

/// The hunks of a file: its lines, with each maximal run of consecutive lines
/// under one header gathered into one hunk.
pub open spec fn hunks_of(fl: Seq<PatchLine>) -> Seq<DiffHunkView>
    decreases fl.len(),
{
    if fl.len() == 0 {
        seq![]
    } else {
        add_line(hunks_of(fl.drop_last()), fl.last().hunk.unwrap(), line_view_of(fl.last()))
    }
}

/// The number of lines of kind `t`.
pub open spec fn count_kind(fl: Seq<PatchLine>, t: DiffLineType) -> nat
    decreases fl.len(),
{
    if fl.len() == 0 {
        0
    } else {
        count_kind(fl.drop_last(), t) + (if line_kind(fl.last().origin) == Some(t) {
            1nat
        } else {
            0nat
        })
    }
}

/// The diff of one file entry with the lines recorded for it.
pub open spec fn file_view_of(d: DeltaInfo, fl: Seq<PatchLine>) -> FileDiffView {
    FileDiffView {
        old_path: opt_view(d.old_path),
        new_path: display_path(d),
        change_type: change_type_of(d.status),
        additions: count_kind(fl, DiffLineType::Added) as i32,
        deletions: count_kind(fl, DiffLineType::Removed) as i32,
        hunks: hunks_of(fl),
    }
}

/// The diff of a commit: one file per kept file entry, each with the patch
/// lines that belong to it.
pub open spec fn commit_diff_view(hash: Seq<char>, ds: Seq<DeltaInfo>, ls: Seq<PatchLine>) -> CommitDiffView {
    let ks = kept(ds);
    CommitDiffView {
        commit_hash: hash,
        files: Seq::new(ks.len(), |i: int| file_view_of(ks[i], lines_for(ks, ls, i))),
    }
}

/// No file gets more than `i32::MAX` added or removed lines.
pub open spec fn counts_fit(ds: Seq<DeltaInfo>, ls: Seq<PatchLine>) -> bool {
    let ks = kept(ds);
    forall|i: int|
        0 <= i < ks.len() ==> count_kind(#[trigger] lines_for(ks, ls, i), DiffLineType::Added)
            <= i32::MAX && count_kind(lines_for(ks, ls, i), DiffLineType::Removed) <= i32::MAX
}

/// The kind of a patch line by its origin character.
pub fn diff_line_type(origin: char) -> (t: Option<DiffLineType>)
    ensures
        t == line_kind(origin),
{
    if origin == ' ' {
        Some(DiffLineType::Context)
    } else if origin == '+' {
        Some(DiffLineType::Added)
    } else if origin == '-' {
        Some(DiffLineType::Removed)
    } else {
        None
    }
}

/// Whether the hunk being filled carries the given header.
pub fn is_current_hunk(current: Option<&DiffHunk>, next: &HunkHeader) -> (b: bool)
    ensures
        b == (current matches Some(h) && header_matches(h@, *next)),
{
    match current {
        Some(hunk) => hunk.old_start == next.old_start as i32 && hunk.old_lines == next.old_lines as i32
            && hunk.new_start == next.new_start as i32 && hunk.new_lines == next.new_lines as i32,
        None => false,
    }
}

fn clone_opt(o: &Option<String>) -> (r: Option<String>)
    ensures
        r == *o,
{
    match o {
        Some(s) => Some(s.clone()),
        None => None,
    }
}

fn same_text_opt(a: &Option<String>, b: &Option<String>) -> (r: bool)
    ensures
        r == (text_or_empty(*a) == text_or_empty(*b)),
{
    match (a, b) {
        (Some(x), Some(y)) => *x == *y,
        (Some(x), None) => {
            let e = x.as_str().is_empty();
            assert(e ==> x@ =~= Seq::<char>::empty());
            e
        },
        (None, Some(y)) => {
            let e = y.as_str().is_empty();
            assert(e ==> y@ =~= Seq::<char>::empty());
            e
        },
        (None, None) => true,
    }
}

fn key_matches(d: &DeltaInfo, l: &PatchLine) -> (r: bool)
    ensures
        r == same_key(*d, *l),
{
    d.status == l.status && same_text_opt(&d.old_path, &l.old_path) && same_text_opt(
        &d.new_path,
        &l.new_path,
    )
}

/// The position of the file that a patch line belongs to, if any.
fn find_target(ks: &Vec<DeltaInfo>, l: &PatchLine) -> (r: Option<usize>)
    ensures
        r matches Some(i) ==> i < ks@.len() && i == target(ks@, *l),
        r is None ==> target(ks@, *l) == -1,
{
    let mut i = ks.len();
    assert(ks@.take(i as int) =~= ks@);
    while i > 0
        invariant
            i <= ks.len(),
            target(ks@, *l) == target(ks@.take(i as int), *l),
        decreases i,
    {
        assert(ks@.take(i as int).last() == ks@[i - 1]);
        assert(ks@.take(i as int).drop_last() =~= ks@.take(i - 1));
        if key_matches(&ks[i - 1], l) {
            return Some(i - 1);
        }
        i = i - 1;
    }
    None
}

proof fn lemma_lines_for_step(ks: Seq<DeltaInfo>, ls: Seq<PatchLine>, k: int, i: int)
    requires
        0 <= k < ls.len(),
    ensures
        lines_for(ks, ls.take(k + 1), i) == (if belongs(ks, ls[k], i) {
            lines_for(ks, ls.take(k), i).push(ls[k])
        } else {
            lines_for(ks, ls.take(k), i)
        }),
{
    assert(ls.take(k + 1).drop_last() =~= ls.take(k));
    assert(ls.take(k + 1).last() == ls[k]);
}

proof fn lemma_count_push(fl: Seq<PatchLine>, l: PatchLine, t: DiffLineType)
    ensures
        count_kind(fl.push(l), t) == count_kind(fl, t) + (if line_kind(l.origin) == Some(t) {
            1nat
        } else {
            0nat
        }),
{
    assert(fl.push(l).drop_last() =~= fl);
}

proof fn lemma_count_prefix(ks: Seq<DeltaInfo>, ls: Seq<PatchLine>, k: int, i: int, t: DiffLineType)
    requires
        0 <= k <= ls.len(),
    ensures
        count_kind(lines_for(ks, ls.take(k), i), t) <= count_kind(lines_for(ks, ls, i), t),
    decreases ls.len(),
{
    if k == ls.len() {
        assert(ls.take(k) =~= ls);
    } else {
        let rest = ls.drop_last();
        assert(ls.take(k) =~= rest.take(k));
        lemma_count_prefix(ks, rest, k, i, t);
        if belongs(ks, ls.last(), i) {
            lemma_count_push(lines_for(ks, rest, i), ls.last(), t);
        }
    }
}

/// The empty diff of a file entry that has a path.
fn file_skeleton(d: &DeltaInfo) -> (f: FileDiff)
    requires
        has_path(*d),
    ensures
        f@ == file_view_of(*d, seq![]),
{
    let new_path = match &d.new_path {
        Some(p) => p.clone(),
        None => match &d.old_path {
            Some(p) => p.clone(),
            None => {
                assert(false);
                String::new()
            },
        },
    };
    let f = FileDiff {
        old_path: clone_opt(&d.old_path),
        new_path,
        change_type: change_type(d.status),
        additions: 0,
        deletions: 0,
        hunks: Vec::new(),
    };
    assert(f.hunks@.map_values(|h: DiffHunk| h@) =~= hunks_of(seq![]));
    f
}

/// Records one hunk line into the diff of its file.
fn record_line(file: &mut FileDiff, hh: &HunkHeader, line: DiffLine)
    requires
        line.line_type == DiffLineType::Added ==> old(file).additions < i32::MAX,
        line.line_type == DiffLineType::Removed ==> old(file).deletions < i32::MAX,
    ensures
        final(file)@ == (FileDiffView {
            additions: if line.line_type == DiffLineType::Added {
                (old(file).additions + 1) as i32
            } else {
                old(file).additions
            },
            deletions: if line.line_type == DiffLineType::Removed {
                (old(file).deletions + 1) as i32
            } else {
                old(file).deletions
            },
            hunks: add_line(old(file)@.hunks, *hh, line@),
            ..old(file)@
        }),
{
    let ghost g = old(file)@.hunks;
    let n = file.hunks.len();
    let current = if n > 0 {
        is_current_hunk(Some(&file.hunks[n - 1]), hh)
    } else {
        false
    };
    assert(n > 0 ==> file.hunks@[n - 1]@ == g.last());
    if !current {
        file.hunks.push(
            DiffHunk {
                old_start: hh.old_start as i32,
                old_lines: hh.old_lines as i32,
                new_start: hh.new_start as i32,
                new_lines: hh.new_lines as i32,
                lines: Vec::new(),
            },
        );
    }
    match line.line_type {
        DiffLineType::Added => {
            file.additions = file.additions + 1;
        },
        DiffLineType::Removed => {
            file.deletions = file.deletions + 1;
        },
        DiffLineType::Context => {},
    }
    let last = file.hunks.len() - 1;
    let ghost before = file.hunks@;
    let ghost lv = line@;
    file.hunks[last].lines.push(line);
    proof {
        let after = file.hunks@;
        assert(after.len() == before.len());
        assert(forall|j: int| 0 <= j < last ==> after[j] == before[j]);
        assert(after[last as int].lines@.map_values(|l: DiffLine| l@) =~= before[last as int].lines@.map_values(
            |l: DiffLine| l@,
        ).push(lv));
        if current {
            assert(after.map_values(|h: DiffHunk| h@) =~= g.drop_last().push(
                DiffHunkView { lines: g.last().lines.push(lv), ..g.last() },
            ));
        } else {
            assert(before[last as int].lines@.map_values(|l: DiffLine| l@) =~= Seq::<
                DiffLineView,
            >::empty());
            assert(after.map_values(|h: DiffHunk| h@) =~= g.push(open_hunk(*hh, lv)));
        }
    }
}

/// The lines of a sequence of hunks, hunk after hunk.
pub open spec fn hunk_lines(hs: Seq<DiffHunkView>) -> Seq<DiffLineView>
    decreases hs.len(),
{
    if hs.len() == 0 {
        seq![]
    } else {
        hunk_lines(hs.drop_last()) + hs.last().lines
    }
}

/// The number of lines of kind `t`.
pub open spec fn lines_of_type(lines: Seq<DiffLineView>, t: DiffLineType) -> nat
    decreases lines.len(),
{
    if lines.len() == 0 {
        0
    } else {
        lines_of_type(lines.drop_last(), t) + (if lines.last().line_type == t {
            1nat
        } else {
            0nat
        })
    }
}

proof fn lemma_hunk_lines_add(g: Seq<DiffHunkView>, hh: HunkHeader, lv: DiffLineView)
    ensures
        hunk_lines(add_line(g, hh, lv)) == hunk_lines(g).push(lv),
{
    if g.len() > 0 && header_matches(g.last(), hh) {
        let h2 = DiffHunkView { lines: g.last().lines.push(lv), ..g.last() };
        let g2 = g.drop_last().push(h2);
        assert(g2.drop_last() =~= g.drop_last());
        assert(hunk_lines(g2) == hunk_lines(g.drop_last()) + h2.lines);
        assert(hunk_lines(g2) =~= hunk_lines(g).push(lv));
    } else {
        let g2 = g.push(open_hunk(hh, lv));
        assert(g2.drop_last() =~= g);
        assert(hunk_lines(g2) =~= hunk_lines(g).push(lv));
    }
}

/// Grouping lines into hunks keeps every line, in order: the lines of a
/// file's hunks, hunk after hunk, are its recorded lines.
pub proof fn law_hunks_keep_lines(fl: Seq<PatchLine>)
    ensures
        hunk_lines(hunks_of(fl)) == fl.map_values(|l: PatchLine| line_view_of(l)),
    decreases fl.len(),
{
    if fl.len() > 0 {
        law_hunks_keep_lines(fl.drop_last());
        lemma_hunk_lines_add(
            hunks_of(fl.drop_last()),
            fl.last().hunk.unwrap(),
            line_view_of(fl.last()),
        );
        assert(fl.map_values(|l: PatchLine| line_view_of(l)) =~= fl.drop_last().map_values(
            |l: PatchLine| line_view_of(l),
        ).push(line_view_of(fl.last())));
    } else {
        assert(fl.map_values(|l: PatchLine| line_view_of(l)) =~= seq![]);
    }
}

proof fn lemma_count_views(fl: Seq<PatchLine>, t: DiffLineType)
    requires
        forall|k: int| 0 <= k < fl.len() ==> (line_kind(#[trigger] fl[k].origin) is Some),
    ensures
        lines_of_type(fl.map_values(|l: PatchLine| line_view_of(l)), t) == count_kind(fl, t),
    decreases fl.len(),
{
    if fl.len() > 0 {
        let rest = fl.drop_last();
        assert forall|k: int| 0 <= k < rest.len() implies (line_kind(#[trigger] rest[k].origin) is Some) by {
            assert(rest[k] == fl[k]);
        }
        lemma_count_views(rest, t);
        let vs = fl.map_values(|l: PatchLine| line_view_of(l));
        assert(vs.drop_last() =~= rest.map_values(|l: PatchLine| line_view_of(l)));
        assert(line_kind(fl[fl.len() - 1].origin) is Some);
    }
}

proof fn lemma_recorded_lines_are_hunk_lines(ks: Seq<DeltaInfo>, ls: Seq<PatchLine>, i: int)
    ensures
        forall|k: int|
            0 <= k < lines_for(ks, ls, i).len() ==> (line_kind(
                #[trigger] lines_for(ks, ls, i)[k].origin,
            ) is Some),
    decreases ls.len(),
{
    if ls.len() > 0 {
        lemma_recorded_lines_are_hunk_lines(ks, ls.drop_last(), i);
        let prev = lines_for(ks, ls.drop_last(), i);
        if belongs(ks, ls.last(), i) {
            assert forall|k: int| 0 <= k < prev.push(ls.last()).len() implies (line_kind(
                #[trigger] prev.push(ls.last())[k].origin,
            ) is Some) by {
                if k < prev.len() {
                    assert(prev.push(ls.last())[k] == prev[k]);
                }
            }
        }
    }
}

/// In a commit diff, each file's counts of added and removed lines are the
/// numbers of added and removed lines among the lines of its hunks.
pub proof fn law_counts_match_hunks(hash: Seq<char>, ds: Seq<DeltaInfo>, ls: Seq<PatchLine>, i: int)
    requires
        counts_fit(ds, ls),
        0 <= i < commit_diff_view(hash, ds, ls).files.len(),
    ensures
        ({
            let f = commit_diff_view(hash, ds, ls).files[i];
            &&& f.additions == lines_of_type(hunk_lines(f.hunks), DiffLineType::Added)
            &&& f.deletions == lines_of_type(hunk_lines(f.hunks), DiffLineType::Removed)
        }),
{
    let ks = kept(ds);
    let fl = lines_for(ks, ls, i);
    law_hunks_keep_lines(fl);
    lemma_recorded_lines_are_hunk_lines(ks, ls, i);
    lemma_count_views(fl, DiffLineType::Added);
    lemma_count_views(fl, DiffLineType::Removed);
    assert(count_kind(lines_for(ks, ls, i), DiffLineType::Added) <= i32::MAX);
}

proof fn lemma_count_at_most_len(fl: Seq<PatchLine>, t: DiffLineType)
    ensures
        count_kind(fl, t) <= fl.len(),
    decreases fl.len(),
{
    if fl.len() > 0 {
        lemma_count_at_most_len(fl.drop_last(), t);
    }
}

proof fn lemma_lines_for_at_most(ks: Seq<DeltaInfo>, ls: Seq<PatchLine>, i: int)
    ensures
        lines_for(ks, ls, i).len() <= ls.len(),
    decreases ls.len(),
{
    if ls.len() > 0 {
        lemma_lines_for_at_most(ks, ls.drop_last(), i);
    }
}

/// No file counts more added or removed lines than the patch has lines, so
/// a patch of at most `i32::MAX` lines always fits the counters.
pub proof fn law_short_patches_fit(ds: Seq<DeltaInfo>, ls: Seq<PatchLine>)
    requires
        ls.len() <= i32::MAX,
    ensures
        counts_fit(ds, ls),
{
    let ks = kept(ds);
    assert forall|i: int| 0 <= i < ks.len() implies count_kind(
        #[trigger] lines_for(ks, ls, i),
        DiffLineType::Added,
    ) <= i32::MAX && count_kind(lines_for(ks, ls, i), DiffLineType::Removed) <= i32::MAX by {
        lemma_lines_for_at_most(ks, ls, i);
        lemma_count_at_most_len(lines_for(ks, ls, i), DiffLineType::Added);
        lemma_count_at_most_len(lines_for(ks, ls, i), DiffLineType::Removed);
    }
}

/// Builds the diff of a commit from the file entries Git lists and the patch
/// lines it prints, in the order Git reports them.
pub fn build_commit_diff(commit_hash: String, deltas: &Vec<DeltaInfo>, lines: &Vec<PatchLine>) -> (diff:
    CommitDiff)
    requires
        counts_fit(deltas@, lines@),
    ensures
        diff@ == commit_diff_view(commit_hash@, deltas@, lines@),
{
    let mut ks: Vec<DeltaInfo> = Vec::new();
    let mut files: Vec<FileDiff> = Vec::new();
    let mut j: usize = 0;
    assert(deltas@.take(0) =~= Seq::<DeltaInfo>::empty());
    while j < deltas.len()
        invariant
            j <= deltas.len(),
            ks@ == kept(deltas@.take(j as int)),
            files@.len() == ks@.len(),
            forall|i: int| 0 <= i < ks@.len() ==> (#[trigger] files@[i])@ == file_view_of(ks@[i], seq![]),
        decreases deltas.len() - j,
    {
        let d = &deltas[j];
        assert(deltas@.take(j + 1).drop_last() =~= deltas@.take(j as int));
        assert(deltas@.take(j + 1).last() == deltas@[j as int]);
        if d.new_path.is_some() || d.old_path.is_some() {
            files.push(file_skeleton(d));
            ks.push(DeltaInfo { status: d.status, old_path: clone_opt(&d.old_path), new_path: clone_opt(&d.new_path) });
        }
        j = j + 1;
    }
    assert(deltas@.take(deltas.len() as int) =~= deltas@);
    let ghost kseq = ks@;
    let mut k: usize = 0;
    proof {
        assert(lines@.take(0) =~= Seq::<PatchLine>::empty());
        assert forall|i: int| 0 <= i < kseq.len() implies (#[trigger] files@[i])@ == file_view_of(
            kseq[i],
            lines_for(kseq, lines@.take(0), i),
        ) by {}
    }
    while k < lines.len()
        invariant
            k <= lines.len(),
            ks@ == kseq,
            kseq == kept(deltas@),
            counts_fit(deltas@, lines@),
            files@.len() == kseq.len(),
            forall|i: int|
                0 <= i < kseq.len() ==> (#[trigger] files@[i])@ == file_view_of(
                    kseq[i],
                    lines_for(kseq, lines@.take(k as int), i),
                ),
        decreases lines.len() - k,
    {
        let l = &lines[k];
        proof {
            assert forall|i: int| 0 <= i < kseq.len() implies lines_for(kseq, lines@.take(k + 1), i)
                == (if belongs(kseq, lines@[k as int], i) {
                lines_for(kseq, lines@.take(k as int), i).push(lines@[k as int])
            } else {
                lines_for(kseq, lines@.take(k as int), i)
            }) by {
                lemma_lines_for_step(kseq, lines@, k as int, i);
            }
        }
        let ghost old_files = files@;
        match find_target(&ks, l) {
            None => {},
            Some(t) => {
                match &l.hunk {
                    None => {},
                    Some(hh) => {
                        match diff_line_type(l.origin) {
                            None => {},
                            Some(kind) => {
                                let ghost fl = lines_for(kseq, lines@.take(k as int), t as int);
                                proof {
                                    lemma_lines_for_step(kseq, lines@, k as int, t as int);
                                    lemma_count_prefix(kseq, lines@, k + 1, t as int, DiffLineType::Added);
                                    lemma_count_prefix(kseq, lines@, k + 1, t as int, DiffLineType::Removed);
                                    lemma_count_push(fl, lines@[k as int], DiffLineType::Added);
                                    lemma_count_push(fl, lines@[k as int], DiffLineType::Removed);
                                    lemma_count_prefix(kseq, lines@, k as int, t as int, DiffLineType::Added);
                                    lemma_count_prefix(kseq, lines@, k as int, t as int, DiffLineType::Removed);
                                }
                                let line = DiffLine {
                                    line_type: kind,
                                    old_line_number: l.old_lineno,
                                    new_line_number: l.new_lineno,
                                    content: l.content.clone(),
                                };
                                record_line(&mut files[t], hh, line);
                                proof {
                                    assert(fl.push(lines@[k as int]).drop_last() =~= fl);
                                }
                            },
                        }
                    },
                }
            },
        }
        k = k + 1;
    }
    assert(lines@.take(lines.len() as int) =~= lines@);
    let diff = CommitDiff { commit_hash, files };
    assert(diff@.files =~= commit_diff_view(commit_hash@, deltas@, lines@).files);
    diff
}


/// A content line with its line ending (`\n`, or `\r\n`) removed; a `\r`
/// that does not precede the final `\n` stays.
pub open spec fn strip_ending(s: Seq<char>) -> Seq<char> {
    if s.len() > 0 && s.last() == '\n' {
        let t = s.drop_last();
        if t.len() > 0 && t.last() == '\r' {
            t.drop_last()
        } else {
            t
        }
    } else {
        s
    }
}

/// Removes one trailing line ending from `content`.
pub fn strip_line_ending(content: String) -> (s: String)
    ensures
        s@ == strip_ending(content@),
{
    let v = chars_of(content.as_str());
    let mut end = v.len();
    if end > 0 && v[end - 1] == '\n' {
        end = end - 1;
        if end > 0 && v[end - 1] == '\r' {
            end = end - 1;
        }
    } else {
        return content;
    }
    let w = copy_range(&v, 0, end);
    proof {
        let t = v@.drop_last();
        assert(t =~= v@.subrange(0, v@.len() - 1));
        if t.len() > 0 && t.last() == '\r' {
            assert(t.drop_last() =~= v@.subrange(0, end as int));
        }
    }
    string_from_chars(&w)
}

/// A patch line together with the header of its hunk, for the whole-file view.
#[derive(Debug)]
pub struct HunkLine {
    pub old_start: u32,
    pub old_lines: u32,
    pub new_start: u32,
    pub new_lines: u32,
    pub line: InlineDiffLine,
}

/// The abstract content of a hunk line.
pub struct HunkLineView {
    pub old_start: u32,
    pub old_lines: u32,
    pub new_start: u32,
    pub new_lines: u32,
    pub line: InlineLineView,
}

impl View for HunkLine {
    type V = HunkLineView;

    open spec fn view(&self) -> HunkLineView {
        HunkLineView {
            old_start: self.old_start,
            old_lines: self.old_lines,
            new_start: self.new_start,
            new_lines: self.new_lines,
            line: self.line@,
        }
    }
}

/// A file of a commit with the hunk lines recorded for it, before the file's
/// content is read.
#[derive(Debug)]
pub struct InlineFileBuilder {
    pub old_path: Option<String>,
    pub new_path: String,
    pub change_type: ChangeType,
    pub hunk_lines: Vec<HunkLine>,
}

/// The abstract content of a file being built.
pub struct BuilderView {
    pub old_path: Option<Seq<char>>,
    pub new_path: Seq<char>,
    pub change_type: ChangeType,
    pub hunk_lines: Seq<HunkLineView>,
}

impl View for InlineFileBuilder {
    type V = BuilderView;

    open spec fn view(&self) -> BuilderView {
        BuilderView {
            old_path: opt_view(self.old_path),
            new_path: self.new_path@,
            change_type: self.change_type,
            hunk_lines: self.hunk_lines@.map_values(|h: HunkLine| h@),
        }
    }
}

/// The hunk line a patch line becomes; its content loses its line ending.
pub open spec fn hunk_line_of(l: PatchLine) -> HunkLineView {
    HunkLineView {
        old_start: l.hunk.unwrap().old_start,
        old_lines: l.hunk.unwrap().old_lines,
        new_start: l.hunk.unwrap().new_start,
        new_lines: l.hunk.unwrap().new_lines,
        line: InlineLineView {
            old_line_number: l.old_lineno,
            new_line_number: l.new_lineno,
            content: strip_ending(l.content@),
            line_type: line_kind(l.origin).unwrap(),
        },
    }
}

/// The file being built for a file entry and the lines recorded for it.
pub open spec fn builder_view_of(d: DeltaInfo, fl: Seq<PatchLine>) -> BuilderView {
    BuilderView {
        old_path: opt_view(d.old_path),
        new_path: display_path(d),
        change_type: change_type_of(d.status),
        hunk_lines: Seq::new(fl.len(), |j: int| hunk_line_of(fl[j])),
    }
}

/// Gathers, for every kept file entry, the hunk lines that belong to it.
pub fn build_inline_builders(deltas: &Vec<DeltaInfo>, lines: &Vec<PatchLine>) -> (out: Vec<
    InlineFileBuilder,
>)
    ensures
        out@.len() == kept(deltas@).len(),
        forall|i: int|
            0 <= i < out@.len() ==> (#[trigger] out@[i])@ == builder_view_of(
                kept(deltas@)[i],
                lines_for(kept(deltas@), lines@, i),
            ),
{
    let mut ks: Vec<DeltaInfo> = Vec::new();
    let mut out: Vec<InlineFileBuilder> = Vec::new();
    let mut j: usize = 0;
    assert(deltas@.take(0) =~= Seq::<DeltaInfo>::empty());
    while j < deltas.len()
        invariant
            j <= deltas.len(),
            ks@ == kept(deltas@.take(j as int)),
            out@.len() == ks@.len(),
            forall|i: int|
                0 <= i < ks@.len() ==> (#[trigger] out@[i])@ == builder_view_of(ks@[i], seq![]),
        decreases deltas.len() - j,
    {
        let d = &deltas[j];
        assert(deltas@.take(j + 1).drop_last() =~= deltas@.take(j as int));
        assert(deltas@.take(j + 1).last() == deltas@[j as int]);
        if d.new_path.is_some() || d.old_path.is_some() {
            let skeleton = file_skeleton(d);
            let b = InlineFileBuilder {
                old_path: skeleton.old_path,
                new_path: skeleton.new_path,
                change_type: skeleton.change_type,
                hunk_lines: Vec::new(),
            };
            assert(b@.hunk_lines =~= builder_view_of(*d, seq![]).hunk_lines);
            out.push(b);
            ks.push(
                DeltaInfo {
                    status: d.status,
                    old_path: clone_opt(&d.old_path),
                    new_path: clone_opt(&d.new_path),
                },
            );
        }
        j = j + 1;
    }
    assert(deltas@.take(deltas.len() as int) =~= deltas@);
    let ghost kseq = ks@;
    let mut k: usize = 0;
    assert(lines@.take(0) =~= Seq::<PatchLine>::empty());
    while k < lines.len()
        invariant
            k <= lines.len(),
            ks@ == kseq,
            kseq == kept(deltas@),
            out@.len() == kseq.len(),
            forall|i: int|
                0 <= i < kseq.len() ==> (#[trigger] out@[i])@ == builder_view_of(
                    kseq[i],
                    lines_for(kseq, lines@.take(k as int), i),
                ),
        decreases lines.len() - k,
    {
        let l = &lines[k];
        proof {
            assert forall|i: int| 0 <= i < kseq.len() implies lines_for(kseq, lines@.take(k + 1), i)
                == (if belongs(kseq, lines@[k as int], i) {
                lines_for(kseq, lines@.take(k as int), i).push(lines@[k as int])
            } else {
                lines_for(kseq, lines@.take(k as int), i)
            }) by {
                lemma_lines_for_step(kseq, lines@, k as int, i);
            }
        }
        match find_target(&ks, l) {
            None => {},
            Some(t) => {
                match &l.hunk {
                    None => {},
                    Some(hh) => {
                        match diff_line_type(l.origin) {
                            None => {},
                            Some(kind) => {
                                let ghost fl = lines_for(kseq, lines@.take(k as int), t as int);
                                proof {
                                    lemma_lines_for_step(kseq, lines@, k as int, t as int);
                                }
                                let hl = HunkLine {
                                    old_start: hh.old_start,
                                    old_lines: hh.old_lines,
                                    new_start: hh.new_start,
                                    new_lines: hh.new_lines,
                                    line: InlineDiffLine {
                                        old_line_number: l.old_lineno,
                                        new_line_number: l.new_lineno,
                                        content: strip_line_ending(l.content.clone()),
                                        line_type: kind,
                                    },
                                };
                                assert(hl@ == hunk_line_of(lines@[k as int]));
                                let ghost before = out@[t as int]@;
                                out[t].hunk_lines.push(hl);
                                proof {
                                    assert(out@[t as int]@.hunk_lines =~= before.hunk_lines.push(
                                        hunk_line_of(lines@[k as int]),
                                    ));
                                    assert(builder_view_of(kseq[t as int], fl.push(lines@[k as int])).hunk_lines
                                        =~= builder_view_of(kseq[t as int], fl).hunk_lines.push(
                                        hunk_line_of(lines@[k as int]),
                                    ));
                                }
                            },
                        }
                    },
                }
            },
        }
        k = k + 1;
    }
    assert(lines@.take(lines.len() as int) =~= lines@);
    out
}


/// The first line number of a context range that names a line (numbers start at 1).
pub open spec fn ctx_lo(new_start: u32) -> int {
    if new_start == 0 {
        1
    } else {
        new_start as int
    }
}

/// One past the last line number of a context range that names a line of the file.
pub open spec fn ctx_hi(base_len: int, new_end: u32) -> int {
    if new_end as int <= base_len + 1 {
        new_end as int
    } else {
        base_len + 1
    }
}

/// The context line for line `n` of the file: numbered `n` in the new file and
/// `old_start + (n - new_start)` in the old one.
pub open spec fn ctx_line(base: Seq<Seq<char>>, old_start: u32, new_start: u32, n: int) -> InlineLineView {
    InlineLineView {
        old_line_number: Some((old_start + (n - new_start)) as u32),
        new_line_number: Some(n as u32),
        content: base[n - 1],
        line_type: DiffLineType::Context,
    }
}

/// The context lines for the new-file line numbers `new_start..new_end` that
/// name a line of the file.
pub open spec fn context(base: Seq<Seq<char>>, old_start: u32, new_start: u32, new_end: u32) -> Seq<
    InlineLineView,
> {
    let lo = ctx_lo(new_start);
    let hi = ctx_hi(base.len() as int, new_end);
    if hi <= lo {
        seq![]
    } else {
        Seq::new((hi - lo) as nat, |j: int| ctx_line(base, old_start, new_start, lo + j))
    }
}

/// The old-file numbers of a context range stay within `u32`.
pub open spec fn context_fits(base_len: int, old_start: u32, new_start: u32, new_end: u32) -> bool {
    let lo = ctx_lo(new_start);
    let hi = ctx_hi(base_len, new_end);
    hi <= lo || old_start + (hi - 1 - new_start) <= u32::MAX
}

/// The views of inline lines.
pub open spec fn inline_views(v: Seq<InlineDiffLine>) -> Seq<InlineLineView> {
    v.map_values(|l: InlineDiffLine| l@)
}

/// Appends the context lines of `new_start..new_end` to `lines`.
fn append_context_lines(
    lines: &mut Vec<InlineDiffLine>,
    base_lines: &Vec<String>,
    old_start_line: u32,
    new_start_line: u32,
    new_end_line: u32,
)
    requires
        context_fits(base_lines@.len() as int, old_start_line, new_start_line, new_end_line),
    ensures
        inline_views(final(lines)@) == inline_views(old(lines)@) + context(
            string_views(base_lines@),
            old_start_line,
            new_start_line,
            new_end_line,
        ),
{
    let ghost base = string_views(base_lines@);
    let ghost start = inline_views(lines@);
    let mut n = new_start_line;
    if n >= new_end_line {
        assert(context(base, old_start_line, new_start_line, new_end_line) =~= seq![]);
        assert(inline_views(lines@) =~= start + seq![]);
        return;
    }
    assert(context(base, old_start_line, new_start_line, n) =~= seq![]);
    assert(inline_views(lines@) =~= start + seq![]);
    while n < new_end_line
        invariant
            new_start_line <= n <= new_end_line,
            base == string_views(base_lines@),
            context_fits(base_lines@.len() as int, old_start_line, new_start_line, new_end_line),
            inline_views(lines@) == start + context(base, old_start_line, new_start_line, n),
        decreases new_end_line - n,
    {
        let ghost before = inline_views(lines@);
        let ghost ctx = context(base, old_start_line, new_start_line, n);
        let ghost lo = ctx_lo(new_start_line);
        if n != 0 && ((n - 1) as usize) < base_lines.len() {
            let old_line_number = old_start_line + (n - new_start_line);
            let content = base_lines[(n - 1) as usize].clone();
            lines.push(
                InlineDiffLine {
                    old_line_number: Some(old_line_number),
                    new_line_number: Some(n),
                    content,
                    line_type: DiffLineType::Context,
                },
            );
            proof {
                let next = context(base, old_start_line, new_start_line, (n + 1) as u32);
                assert(ctx_hi(base.len() as int, (n + 1) as u32) == n + 1);
                assert(next =~= ctx.push(ctx_line(base, old_start_line, new_start_line, n as int)));
                assert(inline_views(lines@) =~= before.push(ctx_line(base, old_start_line, new_start_line, n as int)));
            }
        } else {
            proof {
                let next = context(base, old_start_line, new_start_line, (n + 1) as u32);
                assert(next =~= ctx);
            }
        }
        n = n + 1;
    }
}

/// The key of a hunk line: its four header ranges.
pub open spec fn hunk_key(h: HunkLineView) -> (u32, u32, u32, u32) {
    (h.old_start, h.old_lines, h.new_start, h.new_lines)
}

/// What has been merged so far: the lines, where the next context starts in
/// the old and new file, and the header of the current run of hunk lines.
pub struct MergeState {
    pub lines: Seq<InlineLineView>,
    pub old_cursor: u32,
    pub new_cursor: u32,
    pub current: Option<(u32, u32, u32, u32)>,
}

/// Merging hunk lines into a file: each run of lines under one header is
/// preceded by the file's lines from the end of the previous run's hunk (or
/// the file's start) up to the start of its own hunk; the end of a hunk is
/// its start plus its length, saturating at `u32::MAX`.
pub open spec fn merge_state(base: Seq<Seq<char>>, hls: Seq<HunkLineView>) -> MergeState
    decreases hls.len(),
{
    if hls.len() == 0 {
        MergeState { lines: seq![], old_cursor: 1, new_cursor: 1, current: None }
    } else {
        let st = merge_state(base, hls.drop_last());
        let h = hls.last();
        if st.current != Some(hunk_key(h)) {
            MergeState {
                lines: st.lines + context(base, st.old_cursor, st.new_cursor, h.new_start) + seq![
                    h.line,
                ],
                old_cursor: h.old_start.saturating_add(h.old_lines),
                new_cursor: h.new_start.saturating_add(h.new_lines),
                current: Some(hunk_key(h)),
            }
        } else {
            MergeState { lines: st.lines.push(h.line), ..st }
        }
    }
}

/// Every context range of the merge keeps its old-file numbers within `u32`.
pub open spec fn merge_fits(base: Seq<Seq<char>>, hls: Seq<HunkLineView>) -> bool
    decreases hls.len(),
{
    if hls.len() == 0 {
        true
    } else {
        let st = merge_state(base, hls.drop_last());
        let h = hls.last();
        merge_fits(base, hls.drop_last()) && (st.current != Some(hunk_key(h)) ==> context_fits(
            base.len() as int,
            st.old_cursor,
            st.new_cursor,
            h.new_start,
        ))
    }
}

/// The whole file with the hunk lines merged in, followed by the file's lines
/// after the last hunk.
pub open spec fn merged(base: Seq<Seq<char>>, hls: Seq<HunkLineView>) -> Seq<InlineLineView> {
    let st = merge_state(base, hls);
    st.lines + context(base, st.old_cursor, st.new_cursor, (base.len() + 1) as u32)
}

/// The merge of `hls` into the file stays within `u32` line numbers.
pub open spec fn merged_fits(base: Seq<Seq<char>>, hls: Seq<HunkLineView>) -> bool {
    let st = merge_state(base, hls);
    merge_fits(base, hls) && context_fits(
        base.len() as int,
        st.old_cursor,
        st.new_cursor,
        (base.len() + 1) as u32,
    )
}

/// The number of lines of kind `t`.
pub open spec fn inline_count(lines: Seq<InlineLineView>, t: DiffLineType) -> nat
    decreases lines.len(),
{
    if lines.len() == 0 {
        0
    } else {
        inline_count(lines.drop_last(), t) + (if lines.last().line_type == t {
            1nat
        } else {
            0nat
        })
    }
}

proof fn lemma_inline_count_add(a: Seq<InlineLineView>, b: Seq<InlineLineView>, t: DiffLineType)
    ensures
        inline_count(a + b, t) == inline_count(a, t) + inline_count(b, t),
    decreases b.len(),
{
    if b.len() == 0 {
        assert(a + b =~= a);
    } else {
        lemma_inline_count_add(a, b.drop_last(), t);
        assert((a + b).drop_last() =~= a + b.drop_last());
        assert((a + b).last() == b.last());
    }
}

proof fn lemma_context_has_no_changes(
    base: Seq<Seq<char>>,
    old_start: u32,
    new_start: u32,
    new_end: u32,
    t: DiffLineType,
)
    requires
        t != DiffLineType::Context,
    ensures
        inline_count(context(base, old_start, new_start, new_end), t) == 0,
{
    let c = context(base, old_start, new_start, new_end);
    lemma_all_context_count(c, t);
}

proof fn lemma_all_context_count(c: Seq<InlineLineView>, t: DiffLineType)
    requires
        t != DiffLineType::Context,
        forall|k: int| 0 <= k < c.len() ==> (#[trigger] c[k]).line_type == DiffLineType::Context,
    ensures
        inline_count(c, t) == 0,
    decreases c.len(),
{
    if c.len() > 0 {
        let rest = c.drop_last();
        assert forall|k: int| 0 <= k < rest.len() implies (#[trigger] rest[k]).line_type
            == DiffLineType::Context by {
            assert(rest[k] == c[k]);
        }
        lemma_all_context_count(rest, t);
        assert(c.last() == c[c.len() - 1]);
    }
}

proof fn lemma_merge_state_changes(base: Seq<Seq<char>>, hls: Seq<HunkLineView>, t: DiffLineType)
    requires
        t != DiffLineType::Context,
    ensures
        inline_count(merge_state(base, hls).lines, t) == inline_count(
            hls.map_values(|h: HunkLineView| h.line),
            t,
        ),
    decreases hls.len(),
{
    let ls = hls.map_values(|h: HunkLineView| h.line);
    if hls.len() == 0 {
        assert(ls =~= seq![]);
    } else {
        let prev = hls.drop_last();
        lemma_merge_state_changes(base, prev, t);
        let st = merge_state(base, prev);
        let h = hls.last();
        assert(ls.drop_last() =~= prev.map_values(|h: HunkLineView| h.line));
        assert(ls.last() == h.line);
        if st.current != Some(hunk_key(h)) {
            let ctx = context(base, st.old_cursor, st.new_cursor, h.new_start);
            lemma_context_has_no_changes(base, st.old_cursor, st.new_cursor, h.new_start, t);
            lemma_inline_count_add(st.lines, ctx, t);
            lemma_inline_count_add(st.lines + ctx, seq![h.line], t);
            assert(inline_count(seq![h.line], t) == (if h.line.line_type == t {
                1nat
            } else {
                0nat
            })) by {
                let one = seq![h.line];
                assert(one.drop_last() =~= Seq::<InlineLineView>::empty());
                assert(inline_count(Seq::<InlineLineView>::empty(), t) == 0);
                assert(one.last() == h.line);
                assert(inline_count(one, t) == inline_count(one.drop_last(), t) + (if one.last().line_type == t {
                    1nat
                } else {
                    0nat
                }));
            }
        } else {
            assert(st.lines.push(h.line).drop_last() =~= st.lines);
        }
    }
}

/// Merging hunk lines into the whole file keeps the changes: the whole-file
/// view has as many added lines, and as many removed lines, as the hunks;
/// every line it adds around them is unchanged context.
pub proof fn law_inline_keeps_changes(base: Seq<Seq<char>>, hls: Seq<HunkLineView>, t: DiffLineType)
    requires
        t != DiffLineType::Context,
    ensures
        inline_count(merged(base, hls), t) == inline_count(
            hls.map_values(|h: HunkLineView| h.line),
            t,
        ),
{
    let st = merge_state(base, hls);
    lemma_merge_state_changes(base, hls, t);
    lemma_context_has_no_changes(base, st.old_cursor, st.new_cursor, (base.len() + 1) as u32, t);
    lemma_inline_count_add(
        st.lines,
        context(base, st.old_cursor, st.new_cursor, (base.len() + 1) as u32),
        t,
    );
}

/// A file without hunk lines shows whole as unchanged context, line `n`
/// numbered `n` in both versions.
pub proof fn law_unchanged_file_is_context(base: Seq<Seq<char>>)
    requires
        base.len() < u32::MAX,
    ensures
        merged(base, seq![]).len() == base.len(),
        forall|i: int|
            0 <= i < base.len() ==> #[trigger] merged(base, seq![])[i] == (InlineLineView {
                old_line_number: Some((i + 1) as u32),
                new_line_number: Some((i + 1) as u32),
                content: base[i],
                line_type: DiffLineType::Context,
            }),
{
    let st = merge_state(base, seq![]);
    let c = context(base, 1, 1, (base.len() + 1) as u32);
    assert(merged(base, seq![]) =~= c);
}

/// Where the hunk lines stand among the merged lines, hunk line after hunk
/// line.
pub open spec fn hunk_positions(base: Seq<Seq<char>>, hls: Seq<HunkLineView>) -> Seq<int>
    decreases hls.len(),
{
    if hls.len() == 0 {
        seq![]
    } else {
        let st = merge_state(base, hls.drop_last());
        let h = hls.last();
        let at = if st.current != Some(hunk_key(h)) {
            (st.lines.len() + context(base, st.old_cursor, st.new_cursor, h.new_start).len()) as int
        } else {
            st.lines.len() as int
        };
        hunk_positions(base, hls.drop_last()).push(at)
    }
}

/// A line of the file shown unchanged: a context line numbered `n` in the
/// new file (a line of the file) holding the file's line `n`.
pub open spec fn is_file_line(base: Seq<Seq<char>>, l: InlineLineView) -> bool {
    &&& l.line_type == DiffLineType::Context
    &&& l.new_line_number matches Some(n)
    &&& 1 <= n <= base.len()
    &&& l.content == base[n - 1]
}

/// Whether position `i` holds a hunk line.
pub open spec fn at_hunk_position(pos: Seq<int>, i: int) -> bool {
    exists|j: int| 0 <= j < pos.len() && pos[j] == i
}

proof fn lemma_context_lines_are_file_lines(
    base: Seq<Seq<char>>,
    old_start: u32,
    new_start: u32,
    new_end: u32,
)
    requires
        base.len() <= u32::MAX,
    ensures
        forall|k: int|
            0 <= k < context(base, old_start, new_start, new_end).len() ==> is_file_line(
                base,
                #[trigger] context(base, old_start, new_start, new_end)[k],
            ),
{
}

proof fn lemma_merge_positions(base: Seq<Seq<char>>, hls: Seq<HunkLineView>)
    requires
        base.len() <= u32::MAX,
    ensures
        ({
            let lines = merge_state(base, hls).lines;
            let pos = hunk_positions(base, hls);
            &&& pos.len() == hls.len()
            &&& forall|j: int|
                0 <= j < pos.len() ==> 0 <= #[trigger] pos[j] < lines.len() && lines[pos[j]]
                    == hls[j].line
            &&& forall|j: int, k: int| 0 <= j < k < pos.len() ==> pos[j] < pos[k]
            &&& forall|i: int|
                0 <= i < lines.len() ==> at_hunk_position(pos, i) || is_file_line(
                    base,
                    #[trigger] lines[i],
                )
        }),
    decreases hls.len(),
{
    if hls.len() > 0 {
        let prev = hls.drop_last();
        lemma_merge_positions(base, prev);
        let st = merge_state(base, prev);
        let h = hls.last();
        let ppos = hunk_positions(base, prev);
        let lines = merge_state(base, hls).lines;
        let pos = hunk_positions(base, hls);
        assert(hls[hls.len() - 1] == h);
        if st.current != Some(hunk_key(h)) {
            let ctx = context(base, st.old_cursor, st.new_cursor, h.new_start);
            lemma_context_lines_are_file_lines(base, st.old_cursor, st.new_cursor, h.new_start);
            assert(lines == st.lines + ctx + seq![h.line]);
            assert forall|j: int| 0 <= j < pos.len() implies 0 <= #[trigger] pos[j] < lines.len()
                && lines[pos[j]] == hls[j].line by {
                if j < ppos.len() {
                    assert(pos[j] == ppos[j]);
                    assert(hls[j] == prev[j]);
                }
            }
            assert forall|i: int|
                0 <= i < lines.len() implies at_hunk_position(pos, i) || is_file_line(
                base,
                #[trigger] lines[i],
            ) by {
                if i < st.lines.len() {
                    assert(lines[i] == st.lines[i]);
                    if at_hunk_position(ppos, i) {
                        let j = choose|j: int| 0 <= j < ppos.len() && ppos[j] == i;
                        assert(pos[j] == i);
                    }
                } else if i < st.lines.len() + ctx.len() {
                    assert(lines[i] == ctx[i - st.lines.len()]);
                } else {
                    assert(pos[pos.len() - 1] == i);
                }
            }
        } else {
            assert(lines == st.lines.push(h.line));
            assert forall|j: int| 0 <= j < pos.len() implies 0 <= #[trigger] pos[j] < lines.len()
                && lines[pos[j]] == hls[j].line by {
                if j < ppos.len() {
                    assert(pos[j] == ppos[j]);
                    assert(hls[j] == prev[j]);
                }
            }
            assert forall|i: int|
                0 <= i < lines.len() implies at_hunk_position(pos, i) || is_file_line(
                base,
                #[trigger] lines[i],
            ) by {
                if i < st.lines.len() {
                    assert(lines[i] == st.lines[i]);
                    if at_hunk_position(ppos, i) {
                        let j = choose|j: int| 0 <= j < ppos.len() && ppos[j] == i;
                        assert(pos[j] == i);
                    }
                } else {
                    assert(pos[pos.len() - 1] == i);
                }
            }
        }
    }
}

/// The structure of the whole-file view: the hunk lines all appear in it,
/// in their order, each at its position from `hunk_positions`; every other
/// line is an unchanged line of the file, numbered in the new file and
/// holding that line's text. (For a file of more than `u32::MAX` lines the
/// line numbers themselves overflow.)
pub proof fn law_merge_structure(base: Seq<Seq<char>>, hls: Seq<HunkLineView>)
    requires
        base.len() <= u32::MAX,
    ensures
        ({
            let m = merged(base, hls);
            let pos = hunk_positions(base, hls);
            &&& pos.len() == hls.len()
            &&& forall|j: int|
                0 <= j < pos.len() ==> 0 <= #[trigger] pos[j] < m.len() && m[pos[j]]
                    == hls[j].line
            &&& forall|j: int, k: int| 0 <= j < k < pos.len() ==> pos[j] < pos[k]
            &&& forall|i: int|
                0 <= i < m.len() ==> at_hunk_position(pos, i) || is_file_line(base, #[trigger] m[i])
        }),
{
    lemma_merge_positions(base, hls);
    let st = merge_state(base, hls);
    let tail = context(base, st.old_cursor, st.new_cursor, (base.len() + 1) as u32);
    lemma_context_lines_are_file_lines(base, st.old_cursor, st.new_cursor, (base.len() + 1) as u32);
    let m = merged(base, hls);
    let pos = hunk_positions(base, hls);
    assert(m == st.lines + tail);
    assert forall|j: int| 0 <= j < pos.len() implies 0 <= #[trigger] pos[j] < m.len() && m[pos[j]]
        == hls[j].line by {
        assert(m[pos[j]] == st.lines[pos[j]]);
    }
    assert forall|i: int| 0 <= i < m.len() implies at_hunk_position(pos, i) || is_file_line(
        base,
        #[trigger] m[i],
    ) by {
        if i < st.lines.len() {
            assert(m[i] == st.lines[i]);
        } else {
            assert(m[i] == tail[i - st.lines.len()]);
        }
    }
}

/// The new-file number of a line, or 0 where it has none.
pub open spec fn new_number(l: InlineLineView) -> int {
    match l.new_line_number {
        Some(n) => n as int,
        None => 0,
    }
}

/// Whether the new-file range of hunk line `h`'s hunk holds line `n`.
pub open spec fn covers(h: HunkLineView, n: int) -> bool {
    h.new_start <= n < h.new_start + h.new_lines
}

/// The hunks come in order of their new-file ranges, which do not overlap:
/// a hunk line of one hunk ends, in the new file, where a later one of
/// another hunk starts or before.
pub open spec fn ordered_hunks(hls: Seq<HunkLineView>) -> bool {
    forall|j: int, k: int|
        0 <= j < k < hls.len() && hunk_key(#[trigger] hls[j]) != hunk_key(#[trigger] hls[k]) ==>
            hls[j].new_start + hls[j].new_lines <= hls[k].new_start
}

/// No hunk line's hunk holds line `n` of the new file.
pub open spec fn uncovered(hls: Seq<HunkLineView>, n: int) -> bool {
    forall|j: int| 0 <= j < hls.len() ==> !covers(#[trigger] hls[j], n)
}

/// Some line that is no hunk line, among `lines`, is numbered `n` in the new
/// file.
pub open spec fn shown(lines: Seq<InlineLineView>, pos: Seq<int>, n: int) -> bool {
    exists|i: int| 0 <= i < lines.len() && !at_hunk_position(pos, i) && new_number(#[trigger] lines[i]) == n
}

proof fn lemma_merge_uncovered(base: Seq<Seq<char>>, hls: Seq<HunkLineView>)
    requires
        base.len() < u32::MAX,
        ordered_hunks(hls),
    ensures
        ({
            let st = merge_state(base, hls);
            let lines = st.lines;
            let pos = hunk_positions(base, hls);
            &&& hls.len() == 0 ==> st.current == None::<(u32, u32, u32, u32)> && lines.len() == 0
                && st.new_cursor == 1
            &&& hls.len() > 0 ==> st.current == Some(hunk_key(hls.last())) && st.new_cursor
                == hls.last().new_start.saturating_add(hls.last().new_lines)
            &&& hls.len() > 0 ==> forall|i: int|
                0 <= i < lines.len() && !at_hunk_position(pos, i) ==> new_number(#[trigger] lines[i])
                    < hls.last().new_start
            &&& forall|i: int, i2: int|
                0 <= i < i2 < lines.len() && !at_hunk_position(pos, i) && !at_hunk_position(pos, i2)
                    ==> new_number(#[trigger] lines[i]) < new_number(#[trigger] lines[i2])
            &&& forall|i: int, j: int|
                0 <= i < lines.len() && !at_hunk_position(pos, i) && 0 <= j < hls.len() ==> !covers(
                    #[trigger] hls[j],
                    new_number(#[trigger] lines[i]),
                )
            &&& forall|n: int|
                1 <= n <= base.len() && n < st.new_cursor && #[trigger] uncovered(hls, n) ==> shown(
                    lines,
                    pos,
                    n,
                )
        }),
    decreases hls.len(),
{
    lemma_merge_positions(base, hls);
    if hls.len() > 0 {
        let prev = hls.drop_last();
        assert(ordered_hunks(prev)) by {
            assert forall|j: int, k: int|
                0 <= j < k < prev.len() && hunk_key(#[trigger] prev[j]) != hunk_key(
                    #[trigger] prev[k],
                ) implies prev[j].new_start + prev[j].new_lines <= prev[k].new_start by {
                assert(prev[j] == hls[j] && prev[k] == hls[k]);
            }
        }
        lemma_merge_uncovered(base, prev);
        lemma_merge_positions(base, prev);
        let st = merge_state(base, prev);
        let h = hls.last();
        let last = hls.len() - 1;
        assert(hls[last] == h);
        let ppos = hunk_positions(base, prev);
        let lines = merge_state(base, hls).lines;
        let pos = hunk_positions(base, hls);
        assert forall|j: int| 0 <= j < prev.len() implies #[trigger] prev[j] == hls[j] by {}
        if st.current != Some(hunk_key(h)) {
            let ctx = context(base, st.old_cursor, st.new_cursor, h.new_start);
            let lo = ctx_lo(st.new_cursor);
            let hi = ctx_hi(base.len() as int, h.new_start);
            let sl = st.lines.len() as int;
            assert(lines == st.lines + ctx + seq![h.line]);
            assert(pos[pos.len() - 1] == sl + ctx.len());
            assert forall|j: int| 0 <= j < ppos.len() implies pos[j] == #[trigger] ppos[j] && ppos[j]
                < sl by {}
            // Positions of the prefix keep their kind; those of the context are no hunk's.
            assert forall|i: int| 0 <= i < sl implies (at_hunk_position(pos, i)
                <==> at_hunk_position(ppos, i)) by {
                if at_hunk_position(pos, i) {
                    let j = choose|j: int| 0 <= j < pos.len() && pos[j] == i;
                    if j == pos.len() - 1 {
                        assert(false);
                    }
                    assert(ppos[j] == i);
                }
                if at_hunk_position(ppos, i) {
                    let j = choose|j: int| 0 <= j < ppos.len() && ppos[j] == i;
                    assert(pos[j] == i);
                }
            }
            assert forall|i: int| sl <= i < sl + ctx.len() implies !at_hunk_position(pos, i) by {
                if at_hunk_position(pos, i) {
                    let j = choose|j: int| 0 <= j < pos.len() && pos[j] == i;
                    if j < ppos.len() {
                        assert(ppos[j] < sl);
                    }
                }
            }
            assert forall|k: int| 0 <= k < ctx.len() implies new_number(#[trigger] ctx[k]) == lo + k
                && lo <= lo + k < hi by {}
            if prev.len() > 0 {
                let p = prev.last();
                assert(prev[prev.len() - 1] == p);
                assert(hunk_key(p) != hunk_key(h));
                assert(hls[prev.len() - 1] == p);
                assert(p.new_start + p.new_lines <= h.new_start);
                assert(st.new_cursor == p.new_start + p.new_lines);
            }
            assert forall|i: int|
                0 <= i < lines.len() && !at_hunk_position(pos, i) implies new_number(
                #[trigger] lines[i],
            ) < h.new_start by {
                if i < sl {
                    assert(lines[i] == st.lines[i]);
                } else {
                    assert(lines[i] == ctx[i - sl]);
                }
            }
            assert forall|i: int, i2: int|
                0 <= i < i2 < lines.len() && !at_hunk_position(pos, i) && !at_hunk_position(pos, i2)
                    implies new_number(#[trigger] lines[i]) < new_number(#[trigger] lines[i2]) by {
                if i2 < sl {
                    assert(lines[i] == st.lines[i] && lines[i2] == st.lines[i2]);
                } else if i < sl {
                    assert(lines[i] == st.lines[i] && lines[i2] == ctx[i2 - sl]);
                } else {
                    assert(lines[i] == ctx[i - sl] && lines[i2] == ctx[i2 - sl]);
                }
            }
            assert forall|i: int, j: int|
                0 <= i < lines.len() && !at_hunk_position(pos, i) && 0 <= j < hls.len() implies !covers(
                #[trigger] hls[j],
                new_number(#[trigger] lines[i]),
            ) by {
                let n = new_number(lines[i]);
                if i < sl {
                    assert(lines[i] == st.lines[i]);
                    if j < prev.len() {
                        assert(!covers(prev[j], n));
                    }
                } else {
                    assert(lines[i] == ctx[i - sl]);
                    if j < prev.len() {
                        let p = prev.last();
                        if hunk_key(hls[j]) != hunk_key(p) {
                            assert(hls[prev.len() - 1] == p);
                        }
                    }
                }
            }
            assert forall|n: int|
                1 <= n <= base.len() && n < h.new_start.saturating_add(h.new_lines) && #[trigger] uncovered(
                    hls,
                    n,
                ) implies shown(lines, pos, n) by {
                assert(!covers(hls[last], n));
                if n < st.new_cursor {
                    assert(uncovered(prev, n)) by {
                        assert forall|j: int| 0 <= j < prev.len() implies !covers(#[trigger] prev[j], n) by {
                            assert(!covers(hls[j], n));
                        }
                    }
                    let i = choose|i: int|
                        0 <= i < st.lines.len() && !at_hunk_position(ppos, i) && new_number(
                            #[trigger] st.lines[i],
                        ) == n;
                    assert(lines[i] == st.lines[i]);
                } else {
                    let i = sl + (n - lo);
                    assert(lines[i] == ctx[n - lo]);
                }
            }
        } else {
            assert(lines == st.lines.push(h.line));
            let sl = st.lines.len() as int;
            let p = prev.last();
            assert(prev[prev.len() - 1] == p);
            assert(hunk_key(p) == hunk_key(h));
            assert(pos[pos.len() - 1] == sl);
            assert forall|j: int| 0 <= j < ppos.len() implies pos[j] == #[trigger] ppos[j] && ppos[j]
                < sl by {}
            assert forall|i: int| 0 <= i < sl implies (at_hunk_position(pos, i)
                <==> at_hunk_position(ppos, i)) by {
                if at_hunk_position(pos, i) {
                    let j = choose|j: int| 0 <= j < pos.len() && pos[j] == i;
                    if j == pos.len() - 1 {
                        assert(false);
                    }
                    assert(ppos[j] == i);
                }
                if at_hunk_position(ppos, i) {
                    let j = choose|j: int| 0 <= j < ppos.len() && ppos[j] == i;
                    assert(pos[j] == i);
                }
            }
            assert(at_hunk_position(pos, sl));
            assert forall|i: int|
                0 <= i < lines.len() && !at_hunk_position(pos, i) implies new_number(
                #[trigger] lines[i],
            ) < h.new_start by {
                assert(lines[i] == st.lines[i]);
            }
            assert forall|i: int, i2: int|
                0 <= i < i2 < lines.len() && !at_hunk_position(pos, i) && !at_hunk_position(pos, i2)
                    implies new_number(#[trigger] lines[i]) < new_number(#[trigger] lines[i2]) by {
                assert(lines[i] == st.lines[i] && lines[i2] == st.lines[i2]);
            }
            assert forall|i: int, j: int|
                0 <= i < lines.len() && !at_hunk_position(pos, i) && 0 <= j < hls.len() implies !covers(
                #[trigger] hls[j],
                new_number(#[trigger] lines[i]),
            ) by {
                assert(lines[i] == st.lines[i]);
                if j < prev.len() {
                    assert(!covers(prev[j], new_number(st.lines[i])));
                } else {
                    assert(!covers(prev[prev.len() - 1], new_number(st.lines[i])));
                }
            }
            assert forall|n: int|
                1 <= n <= base.len() && n < st.new_cursor && #[trigger] uncovered(hls, n) implies shown(
                lines,
                pos,
                n,
            ) by {
                assert(uncovered(prev, n)) by {
                    assert forall|j: int| 0 <= j < prev.len() implies !covers(#[trigger] prev[j], n) by {
                        assert(!covers(hls[j], n));
                    }
                }
                let i = choose|i: int|
                    0 <= i < st.lines.len() && !at_hunk_position(ppos, i) && new_number(
                        #[trigger] st.lines[i],
                    ) == n;
                assert(lines[i] == st.lines[i]);
            }
        }
    }
}

/// For hunks in order that do not overlap, the lines of the whole-file view
/// that are no hunk lines are exactly the file's lines outside every hunk:
/// each is such a line, numbered in the new file and holding its text; they
/// come in increasing order of their numbers, so none is shown twice; and
/// each line of the file that no hunk holds is shown.
pub proof fn law_context_is_uncovered_lines(base: Seq<Seq<char>>, hls: Seq<HunkLineView>)
    requires
        base.len() < u32::MAX,
        ordered_hunks(hls),
    ensures
        ({
            let m = merged(base, hls);
            let pos = hunk_positions(base, hls);
            &&& forall|i: int|
                0 <= i < m.len() && !at_hunk_position(pos, i) ==> is_file_line(base, #[trigger] m[i])
                    && uncovered(hls, new_number(m[i]))
            &&& forall|i: int, i2: int|
                0 <= i < i2 < m.len() && !at_hunk_position(pos, i) && !at_hunk_position(pos, i2)
                    ==> new_number(#[trigger] m[i]) < new_number(#[trigger] m[i2])
            &&& forall|n: int| 1 <= n <= base.len() && #[trigger] uncovered(hls, n) ==> shown(m, pos, n)
        }),
{
    law_merge_structure(base, hls);
    lemma_merge_positions(base, hls);
    lemma_merge_uncovered(base, hls);
    let st = merge_state(base, hls);
    let tail = context(base, st.old_cursor, st.new_cursor, (base.len() + 1) as u32);
    let lo = ctx_lo(st.new_cursor);
    let sl = st.lines.len() as int;
    let m = merged(base, hls);
    let pos = hunk_positions(base, hls);
    assert(m == st.lines + tail);
    assert forall|k: int| 0 <= k < tail.len() implies new_number(#[trigger] tail[k]) == lo + k by {}
    assert forall|i: int| sl <= i < m.len() implies !at_hunk_position(pos, i) by {
        if at_hunk_position(pos, i) {
            let j = choose|j: int| 0 <= j < pos.len() && pos[j] == i;
        }
    }
    if hls.len() > 0 {
        let p = hls.last();
        assert(hls[hls.len() - 1] == p);
    }
    assert forall|i: int|
        0 <= i < m.len() && !at_hunk_position(pos, i) implies is_file_line(base, #[trigger] m[i])
            && uncovered(hls, new_number(m[i])) by {
        if i < sl {
            assert(m[i] == st.lines[i]);
            assert forall|j: int| 0 <= j < hls.len() implies !covers(#[trigger] hls[j], new_number(m[i])) by {}
        } else {
            assert(m[i] == tail[i - sl]);
            assert forall|j: int| 0 <= j < hls.len() implies !covers(#[trigger] hls[j], new_number(m[i])) by {
                let p = hls.last();
                if hunk_key(hls[j]) != hunk_key(p) && j != hls.len() - 1 {
                    assert(hls[j].new_start + hls[j].new_lines <= p.new_start);
                }
            }
        }
    }
    assert forall|i: int, i2: int|
        0 <= i < i2 < m.len() && !at_hunk_position(pos, i) && !at_hunk_position(pos, i2) implies new_number(
        #[trigger] m[i],
    ) < new_number(#[trigger] m[i2]) by {
        if i2 < sl {
            assert(m[i] == st.lines[i] && m[i2] == st.lines[i2]);
        } else if i < sl {
            assert(m[i] == st.lines[i] && m[i2] == tail[i2 - sl]);
        } else {
            assert(m[i] == tail[i - sl] && m[i2] == tail[i2 - sl]);
        }
    }
    assert forall|n: int| 1 <= n <= base.len() && #[trigger] uncovered(hls, n) implies shown(m, pos, n) by {
        if n < st.new_cursor {
            let i = choose|i: int|
                0 <= i < st.lines.len() && !at_hunk_position(pos, i) && new_number(#[trigger] st.lines[i])
                    == n;
            assert(m[i] == st.lines[i]);
        } else {
            let i = sl + (n - lo);
            assert(m[i] == tail[n - lo]);
        }
    }
}

/// Position `j` holds the last hunk line before position `i` among the
/// merged lines (`pos` lists where the hunk lines stand, in order).
pub open spec fn last_hunk_before(pos: Seq<int>, i: int, j: int) -> bool {
    &&& 0 <= j < pos.len()
    &&& pos[j] < i
    &&& (j + 1 == pos.len() || i < pos[j + 1])
}

/// No hunk line stands before position `i`.
pub open spec fn no_hunk_before(pos: Seq<int>, i: int) -> bool {
    pos.len() == 0 || i < pos[0]
}

/// The old-file number of the file's line `n` after the hunk of `h`: the
/// hunk's old range ends where its new range ends, and from there the two
/// files run in step (each end is its start plus its length, saturating at
/// `u32::MAX`).
pub open spec fn old_number_after(h: HunkLineView, n: int) -> int {
    h.old_start.saturating_add(h.old_lines) + (n - h.new_start.saturating_add(h.new_lines))
}

proof fn lemma_merge_old_numbers(base: Seq<Seq<char>>, hls: Seq<HunkLineView>)
    requires
        base.len() < u32::MAX,
    ensures
        ({
            let st = merge_state(base, hls);
            let lines = st.lines;
            let pos = hunk_positions(base, hls);
            &&& hls.len() == 0 ==> st.old_cursor == 1 && st.new_cursor == 1
            &&& hls.len() > 0 ==> st.old_cursor == hls.last().old_start.saturating_add(
                hls.last().old_lines,
            ) && st.new_cursor == hls.last().new_start.saturating_add(hls.last().new_lines)
            &&& forall|i: int, j: int|
                0 <= i < lines.len() && !at_hunk_position(pos, i) && last_hunk_before(pos, i, j)
                    ==> (#[trigger] lines[i]).old_line_number == Some(
                    old_number_after(#[trigger] hls[j], new_number(lines[i])) as u32,
                )
            &&& forall|i: int|
                0 <= i < lines.len() && !at_hunk_position(pos, i) && no_hunk_before(pos, i)
                    ==> (#[trigger] lines[i]).old_line_number == lines[i].new_line_number
        }),
    decreases hls.len(),
{
    lemma_merge_positions(base, hls);
    if hls.len() > 0 {
        let prev = hls.drop_last();
        lemma_merge_old_numbers(base, prev);
        lemma_merge_positions(base, prev);
        let st = merge_state(base, prev);
        let h = hls.last();
        let last = hls.len() - 1;
        assert(hls[last] == h);
        let ppos = hunk_positions(base, prev);
        let lines = merge_state(base, hls).lines;
        let pos = hunk_positions(base, hls);
        let sl = st.lines.len() as int;
        assert forall|j: int| 0 <= j < prev.len() implies #[trigger] prev[j] == hls[j] by {}
        assert forall|j: int| 0 <= j < ppos.len() implies pos[j] == #[trigger] ppos[j] && ppos[j]
            < sl by {}
        if prev.len() > 0 {
            assert(prev[prev.len() - 1] == prev.last());
        }
        // For a position of the prefix, the hunk lines before it are those
        // of the prefix.
        assert forall|i: int, j: int|
            0 <= i < sl && last_hunk_before(pos, i, j) implies last_hunk_before(ppos, i, j) by {
            if j == pos.len() - 1 {
                assert(pos[j] >= sl);
            }
        }
        assert forall|i: int| 0 <= i < sl && no_hunk_before(pos, i) implies no_hunk_before(
            ppos,
            i,
        ) by {}
        assert forall|i: int| 0 <= i < sl && !at_hunk_position(pos, i) implies !at_hunk_position(
            ppos,
            i,
        ) by {
            if at_hunk_position(ppos, i) {
                let j = choose|j: int| 0 <= j < ppos.len() && ppos[j] == i;
                assert(pos[j] == i);
            }
        }
        if st.current != Some(hunk_key(h)) {
            let ctx = context(base, st.old_cursor, st.new_cursor, h.new_start);
            let lo = ctx_lo(st.new_cursor);
            assert(lines == st.lines + ctx + seq![h.line]);
            assert(pos[pos.len() - 1] == sl + ctx.len());
            assert forall|k: int| 0 <= k < ctx.len() implies new_number(#[trigger] ctx[k]) == lo + k
                && ctx[k].old_line_number == Some(
                (st.old_cursor + ((lo + k) - st.new_cursor)) as u32,
            ) && ctx[k].new_line_number == Some((lo + k) as u32) by {}
            assert forall|i: int, j: int|
                0 <= i < lines.len() && !at_hunk_position(pos, i) && last_hunk_before(pos, i, j)
                    implies (#[trigger] lines[i]).old_line_number == Some(
                old_number_after(#[trigger] hls[j], new_number(lines[i])) as u32,
            ) by {
                if i < sl {
                    assert(lines[i] == st.lines[i]);
                    assert(last_hunk_before(ppos, i, j));
                    assert(hls[j] == prev[j]);
                } else if i < sl + ctx.len() {
                    assert(lines[i] == ctx[i - sl]);
                    if j < ppos.len() - 1 {
                        assert(ppos[j + 1] < sl);
                    }
                    assert(j == prev.len() - 1);
                    assert(hls[j] == prev.last());
                } else {
                    assert(at_hunk_position(pos, i)) by {
                        assert(pos[pos.len() - 1] == i);
                    }
                }
            }
            assert forall|i: int|
                0 <= i < lines.len() && !at_hunk_position(pos, i) && no_hunk_before(pos, i)
                    implies (#[trigger] lines[i]).old_line_number == lines[i].new_line_number by {
                if i < sl {
                    assert(lines[i] == st.lines[i]);
                } else if i < sl + ctx.len() {
                    assert(lines[i] == ctx[i - sl]);
                    if ppos.len() > 0 {
                        assert(ppos[0] < sl);
                    }
                } else {
                    assert(at_hunk_position(pos, i)) by {
                        assert(pos[pos.len() - 1] == i);
                    }
                }
            }
        } else {
            let p = prev.last();
            assert(hunk_key(p) == hunk_key(h));
            assert(lines == st.lines.push(h.line));
            assert(pos[pos.len() - 1] == sl);
            assert forall|i: int, j: int|
                0 <= i < lines.len() && !at_hunk_position(pos, i) && last_hunk_before(pos, i, j)
                    implies (#[trigger] lines[i]).old_line_number == Some(
                old_number_after(#[trigger] hls[j], new_number(lines[i])) as u32,
            ) by {
                if i < sl {
                    assert(lines[i] == st.lines[i]);
                    assert(last_hunk_before(ppos, i, j));
                    assert(hls[j] == prev[j]);
                } else {
                    assert(at_hunk_position(pos, i)) by {
                        assert(pos[pos.len() - 1] == i);
                    }
                }
            }
            assert forall|i: int|
                0 <= i < lines.len() && !at_hunk_position(pos, i) && no_hunk_before(pos, i)
                    implies (#[trigger] lines[i]).old_line_number == lines[i].new_line_number by {
                if i < sl {
                    assert(lines[i] == st.lines[i]);
                } else {
                    assert(at_hunk_position(pos, i)) by {
                        assert(pos[pos.len() - 1] == i);
                    }
                }
            }
        }
    }
}

/// The old-file numbers of the whole-file view follow the hunk headers: a
/// line of the file shown unchanged before any hunk line has the same number
/// in both files, and one shown after a hunk line is numbered in the old
/// file from where that hunk's old range ends, as far past it as the line is
/// past the end of the hunk's new range. So a hunk that adds or removes
/// lines shifts the old numbers after it by exactly the difference of its
/// two lengths. (Line numbers are `u32`, so the file has fewer than
/// `u32::MAX` lines.)
pub proof fn law_context_old_numbers(base: Seq<Seq<char>>, hls: Seq<HunkLineView>)
    requires
        base.len() < u32::MAX,
    ensures
        ({
            let m = merged(base, hls);
            let pos = hunk_positions(base, hls);
            &&& forall|i: int, j: int|
                0 <= i < m.len() && !at_hunk_position(pos, i) && last_hunk_before(pos, i, j)
                    ==> (#[trigger] m[i]).old_line_number == Some(
                    old_number_after(#[trigger] hls[j], new_number(m[i])) as u32,
                )
            &&& forall|i: int|
                0 <= i < m.len() && !at_hunk_position(pos, i) && no_hunk_before(pos, i)
                    ==> (#[trigger] m[i]).old_line_number == m[i].new_line_number
        }),
{
    lemma_merge_old_numbers(base, hls);
    lemma_merge_positions(base, hls);
    let st = merge_state(base, hls);
    let tail = context(base, st.old_cursor, st.new_cursor, (base.len() + 1) as u32);
    let lo = ctx_lo(st.new_cursor);
    let sl = st.lines.len() as int;
    let m = merged(base, hls);
    let pos = hunk_positions(base, hls);
    assert(m == st.lines + tail);
    assert forall|k: int| 0 <= k < tail.len() implies new_number(#[trigger] tail[k]) == lo + k
        && tail[k].old_line_number == Some((st.old_cursor + ((lo + k) - st.new_cursor)) as u32)
        && tail[k].new_line_number == Some((lo + k) as u32) by {}
    if hls.len() > 0 {
        assert(hls[hls.len() - 1] == hls.last());
    }
    assert forall|i: int, j: int|
        0 <= i < m.len() && !at_hunk_position(pos, i) && last_hunk_before(pos, i, j) implies (
        #[trigger] m[i]).old_line_number == Some(
        old_number_after(#[trigger] hls[j], new_number(m[i])) as u32,
    ) by {
        if i < sl {
            assert(m[i] == st.lines[i]);
        } else {
            assert(m[i] == tail[i - sl]);
            if j < pos.len() - 1 {
                assert(pos[j + 1] < sl);
            }
        }
    }
    assert forall|i: int|
        0 <= i < m.len() && !at_hunk_position(pos, i) && no_hunk_before(pos, i) implies (
        #[trigger] m[i]).old_line_number == m[i].new_line_number by {
        if i < sl {
            assert(m[i] == st.lines[i]);
        } else {
            assert(m[i] == tail[i - sl]);
            if pos.len() > 0 {
                assert(pos[0] < sl);
            }
        }
    }
}

fn clone_inline_line(l: &InlineDiffLine) -> (r: InlineDiffLine)
    ensures
        r@ == l@,
{
    InlineDiffLine {
        old_line_number: l.old_line_number,
        new_line_number: l.new_line_number,
        content: l.content.clone(),
        line_type: l.line_type,
    }
}

proof fn lemma_merge_fits_prefix(base: Seq<Seq<char>>, hls: Seq<HunkLineView>, k: int)
    requires
        0 <= k <= hls.len(),
        merge_fits(base, hls),
    ensures
        merge_fits(base, hls.take(k)),
    decreases hls.len(),
{
    if k == hls.len() {
        assert(hls.take(k) =~= hls);
    } else {
        assert(hls.take(k) =~= hls.drop_last().take(k));
        lemma_merge_fits_prefix(base, hls.drop_last(), k);
    }
}

/// Shows a changed file whole: its lines, with the hunk lines of the commit
/// merged in at their places.
pub fn merge_hunks_with_new_file(base_lines: Vec<String>, hunk_lines: Vec<HunkLine>) -> (lines:
    Vec<InlineDiffLine>)
    requires
        base_lines@.len() < usize::MAX,
        merged_fits(string_views(base_lines@), hunk_lines@.map_values(|h: HunkLine| h@)),
    ensures
        inline_views(lines@) == merged(
            string_views(base_lines@),
            hunk_lines@.map_values(|h: HunkLine| h@),
        ),
{
    let ghost base = string_views(base_lines@);
    let ghost hls = hunk_lines@.map_values(|h: HunkLine| h@);
    let mut lines: Vec<InlineDiffLine> = Vec::new();
    let mut old_cursor: u32 = 1;
    let mut new_cursor: u32 = 1;
    let mut current_hunk: Option<(u32, u32, u32, u32)> = None;
    let mut k: usize = 0;
    assert(hls.take(0) =~= Seq::<HunkLineView>::empty());
    assert(inline_views(lines@) =~= Seq::<InlineLineView>::empty());
    while k < hunk_lines.len()
        invariant
            k <= hunk_lines@.len(),
            hls == hunk_lines@.map_values(|h: HunkLine| h@),
            base == string_views(base_lines@),
            merged_fits(base, hls),
            merge_fits(base, hls.take(k as int)),
            ({
                let st = merge_state(base, hls.take(k as int));
                &&& inline_views(lines@) == st.lines
                &&& old_cursor == st.old_cursor
                &&& new_cursor == st.new_cursor
                &&& current_hunk == st.current
            }),
        decreases hunk_lines@.len() - k,
    {
        let hunk_line = &hunk_lines[k];
        proof {
            assert(hls.take(k + 1).drop_last() =~= hls.take(k as int));
            assert(hls.take(k + 1).last() == hunk_line@);
            lemma_merge_fits_prefix(base, hls, k + 1);
        }
        let hunk_key = (hunk_line.old_start, hunk_line.old_lines, hunk_line.new_start, hunk_line.new_lines);
        let is_same = match current_hunk {
            Some(key) => key.0 == hunk_key.0 && key.1 == hunk_key.1 && key.2 == hunk_key.2 && key.3 == hunk_key.3,
            None => false,
        };
        if !is_same {
            append_context_lines(&mut lines, &base_lines, old_cursor, new_cursor, hunk_line.new_start);
            old_cursor = hunk_line.old_start.saturating_add(hunk_line.old_lines);
            new_cursor = hunk_line.new_start.saturating_add(hunk_line.new_lines);
            current_hunk = Some(hunk_key);
        }
        let ghost before = inline_views(lines@);
        let ghost lv = hunk_line.line@;
        lines.push(clone_inline_line(&hunk_line.line));
        assert(inline_views(lines@) =~= before.push(lv));
        k = k + 1;
        proof {
            if !is_same {
                let st = merge_state(base, hls.take(k - 1));
                assert(st.lines + context(base, st.old_cursor, st.new_cursor, hunk_line.new_start)
                    + seq![lv] =~= before.push(lv));
            }
        }
    }
    assert(hls.take(k as int) =~= hls);
    append_context_lines(&mut lines, &base_lines, old_cursor, new_cursor, (base_lines.len() + 1) as u32);
    lines
}


fn context_fits_check(base_len: usize, old_start: u32, new_start: u32, new_end: u32) -> (b: bool)
    ensures
        b == context_fits(base_len as int, old_start, new_start, new_end),
{
    let lo: u128 = if new_start == 0 {
        1
    } else {
        new_start as u128
    };
    let cap: u128 = base_len as u128 + 1;
    let hi: u128 = if (new_end as u128) <= cap {
        new_end as u128
    } else {
        cap
    };
    if hi <= lo {
        true
    } else {
        old_start as u128 + (hi - 1 - new_start as u128) <= u32::MAX as u128
    }
}

/// Whether merging `hunk_lines` into the whole file keeps every line number
/// within `u32`, as `merge_hunks_with_new_file` needs.
pub fn inline_merge_fits(base_lines: &Vec<String>, hunk_lines: &Vec<HunkLine>) -> (b: bool)
    requires
        base_lines@.len() < usize::MAX,
    ensures
        b == merged_fits(string_views(base_lines@), hunk_lines@.map_values(|h: HunkLine| h@)),
{
    let ghost base = string_views(base_lines@);
    let ghost hls = hunk_lines@.map_values(|h: HunkLine| h@);
    let mut old_cursor: u32 = 1;
    let mut new_cursor: u32 = 1;
    let mut current_hunk: Option<(u32, u32, u32, u32)> = None;
    let mut ok = true;
    let mut k: usize = 0;
    assert(hls.take(0) =~= Seq::<HunkLineView>::empty());
    while k < hunk_lines.len()
        invariant
            k <= hunk_lines@.len(),
            hls == hunk_lines@.map_values(|h: HunkLine| h@),
            base == string_views(base_lines@),
            base.len() == base_lines@.len(),
            base_lines@.len() < usize::MAX,
            ok == merge_fits(base, hls.take(k as int)),
            ({
                let st = merge_state(base, hls.take(k as int));
                &&& old_cursor == st.old_cursor
                &&& new_cursor == st.new_cursor
                &&& current_hunk == st.current
            }),
        decreases hunk_lines@.len() - k,
    {
        let hunk_line = &hunk_lines[k];
        proof {
            assert(hls.take(k + 1).drop_last() =~= hls.take(k as int));
            assert(hls.take(k + 1).last() == hunk_line@);
        }
        let hunk_key = (hunk_line.old_start, hunk_line.old_lines, hunk_line.new_start, hunk_line.new_lines);
        let is_same = match current_hunk {
            Some(key) => key.0 == hunk_key.0 && key.1 == hunk_key.1 && key.2 == hunk_key.2 && key.3 == hunk_key.3,
            None => false,
        };
        if !is_same {
            let fits = context_fits_check(base_lines.len(), old_cursor, new_cursor, hunk_line.new_start);
            ok = ok && fits;
            old_cursor = hunk_line.old_start.saturating_add(hunk_line.old_lines);
            new_cursor = hunk_line.new_start.saturating_add(hunk_line.new_lines);
            current_hunk = Some(hunk_key);
        }
        k = k + 1;
    }
    assert(hls.take(k as int) =~= hls);
    let end: u32 = (base_lines.len() + 1) as u32;
    ok && context_fits_check(base_lines.len(), old_cursor, new_cursor, end)
}

/// Every line of an added file, numbered in the new file.
pub open spec fn added_lines(base: Seq<Seq<char>>) -> Seq<InlineLineView> {
    Seq::new(
        base.len(),
        |i: int|
            InlineLineView {
                old_line_number: None,
                new_line_number: Some((i + 1) as u32),
                content: base[i],
                line_type: DiffLineType::Added,
            },
    )
}

/// Every line of a deleted file, numbered in the old file.
pub open spec fn removed_lines(base: Seq<Seq<char>>) -> Seq<InlineLineView> {
    Seq::new(
        base.len(),
        |i: int|
            InlineLineView {
                old_line_number: Some((i + 1) as u32),
                new_line_number: None,
                content: base[i],
                line_type: DiffLineType::Removed,
            },
    )
}

/// The lines of a file shown whole: an added file is all additions, a deleted
/// file all removals, any other file has its hunk lines merged in.
pub open spec fn inline_lines(t: ChangeType, base: Seq<Seq<char>>, hls: Seq<HunkLineView>) -> Seq<
    InlineLineView,
> {
    match t {
        ChangeType::Added => added_lines(base),
        ChangeType::Deleted => removed_lines(base),
        _ => merged(base, hls),
    }
}

/// A file shown whole: the paths and change type of the file being built,
/// with the lines `inline_lines` gives for the file's lines `base`.
pub open spec fn inline_view_of(b: BuilderView, base: Seq<Seq<char>>) -> InlineFileView {
    InlineFileView {
        old_path: b.old_path,
        new_path: b.new_path,
        change_type: b.change_type,
        lines: inline_lines(b.change_type, base, b.hunk_lines),
    }
}

/// Which file a diff entry is about: its old path, new path and change type.
pub open spec fn diff_file_identity(f: FileDiffView) -> (Option<Seq<char>>, Seq<char>, ChangeType) {
    (f.old_path, f.new_path, f.change_type)
}

/// Which file a whole-file view is about: its old path, new path and change
/// type.
pub open spec fn inline_file_identity(f: InlineFileView) -> (Option<Seq<char>>, Seq<char>, ChangeType) {
    (f.old_path, f.new_path, f.change_type)
}

/// The whole-file view of a commit: its hash, and each file built shown
/// whole with the lines it is read with.
pub open spec fn commit_inline_view(hash: Seq<char>, bs: Seq<BuilderView>, bases: Seq<Seq<Seq<char>>>) -> CommitInlineView {
    CommitInlineView {
        commit_hash: hash,
        files: Seq::new(bs.len(), |i: int| inline_view_of(bs[i], bases[i])),
    }
}

/// Whether the file built as `b` can be shown whole with the lines `base`.
pub open spec fn inline_ready(b: BuilderView, base: Seq<Seq<char>>) -> bool {
    &&& base.len() < usize::MAX
    &&& b.change_type != ChangeType::Added && b.change_type != ChangeType::Deleted ==> merged_fits(
        base,
        b.hunk_lines,
    )
}

/// Shows every file built whole, each with the lines it is read with (of the
/// commit's version, or of the parent's version for a deleted file), under
/// the commit's hash.
pub fn build_commit_inline_diff(
    commit_hash: String,
    builders: Vec<InlineFileBuilder>,
    bases: Vec<Vec<String>>,
) -> (d: CommitInlineDiff)
    requires
        builders@.len() == bases@.len(),
        forall|i: int|
            0 <= i < builders@.len() ==> inline_ready(
                (#[trigger] builders@[i])@,
                string_views(bases@[i]@),
            ),
    ensures
        d@ == commit_inline_view(
            commit_hash@,
            builders@.map_values(|b: InlineFileBuilder| b@),
            bases@.map_values(|v: Vec<String>| string_views(v@)),
        ),
{
    let ghost bs0 = builders@;
    let ghost vs0 = bases@;
    let ghost want = commit_inline_view(
        commit_hash@,
        bs0.map_values(|b: InlineFileBuilder| b@),
        vs0.map_values(|v: Vec<String>| string_views(v@)),
    );
    let mut builders = builders;
    let mut bases = bases;
    let mut files: Vec<InlineFileDiff> = Vec::new();
    while builders.len() > 0
        invariant
            builders@.len() == bases@.len(),
            files@.len() + builders@.len() == bs0.len(),
            bs0.len() == vs0.len(),
            builders@ == bs0.skip(files@.len() as int),
            bases@ == vs0.skip(files@.len() as int),
            want == commit_inline_view(
                commit_hash@,
                bs0.map_values(|b: InlineFileBuilder| b@),
                vs0.map_values(|v: Vec<String>| string_views(v@)),
            ),
            want.files.len() == bs0.len(),
            forall|i: int|
                0 <= i < bs0.len() ==> inline_ready((#[trigger] bs0[i])@, string_views(vs0[i]@)),
            forall|i: int| 0 <= i < files@.len() ==> (#[trigger] files@[i])@ == want.files[i],
        decreases builders@.len(),
    {
        let ghost k = files@.len() as int;
        let b = builders.remove(0);
        let base = bases.remove(0);
        assert(b == bs0[k] && base == vs0[k]);
        assert(builders@ =~= bs0.skip(k + 1));
        assert(bases@ =~= vs0.skip(k + 1));
        let f = b.into_inline_file_diff(base);
        assert(f@ == want.files[k]);
        let ghost before = files@;
        files.push(f);
        assert forall|i: int| 0 <= i < files@.len() implies (#[trigger] files@[i])@ == want.files[i] by {
            if i < k {
                assert(files@[i] == before[i]);
            }
        }
    }
    let d = CommitInlineDiff { commit_hash, files };
    assert(d@.files =~= want.files);
    d
}

/// The patch view and the whole-file view of one commit agree on the commit
/// and list the same files: for the same hash, file entries and patch lines,
/// and whatever lines each file is read with, the whole-file view of the
/// files from `build_inline_builders` carries the hash of `build_commit_diff`
/// and names, in order, the same old path, new path and change type as its
/// files.
pub proof fn law_views_list_same_files(
    hash: Seq<char>,
    ds: Seq<DeltaInfo>,
    ls: Seq<PatchLine>,
    bases: Seq<Seq<Seq<char>>>,
)
    requires
        bases.len() == kept(ds).len(),
    ensures
        ({
            let bs = Seq::new(
                kept(ds).len(),
                |i: int| builder_view_of(kept(ds)[i], lines_for(kept(ds), ls, i)),
            );
            let v = commit_inline_view(hash, bs, bases);
            let d = commit_diff_view(hash, ds, ls);
            &&& v.commit_hash == d.commit_hash
            &&& v.files.map_values(|f: InlineFileView| inline_file_identity(f)) == d.files.map_values(
                |f: FileDiffView| diff_file_identity(f),
            )
        }),
{
    let ks = kept(ds);
    let bs = Seq::new(ks.len(), |i: int| builder_view_of(ks[i], lines_for(ks, ls, i)));
    let v = commit_inline_view(hash, bs, bases);
    assert(v.files.map_values(|f: InlineFileView| inline_file_identity(f)) =~= commit_diff_view(
        hash,
        ds,
        ls,
    ).files.map_values(|f: FileDiffView| diff_file_identity(f)));
}

/// Both views keep Git's kind of change for every file: the `i`-th file of
/// the patch view, and the file built from the `i`-th kept entry for the
/// whole-file view, are added, deleted, renamed or copied exactly when Git
/// reports that entry so, and modified otherwise.
pub proof fn law_files_keep_git_kind(hash: Seq<char>, ds: Seq<DeltaInfo>, ls: Seq<PatchLine>)
    ensures
        commit_diff_view(hash, ds, ls).files.len() == kept(ds).len(),
        forall|i: int|
            0 <= i < kept(ds).len() ==> keeps_git_kind(
                kept(ds)[i].status,
                #[trigger] commit_diff_view(hash, ds, ls).files[i].change_type,
            ),
        forall|i: int|
            0 <= i < kept(ds).len() ==> keeps_git_kind(
                kept(ds)[i].status,
                #[trigger] builder_view_of(kept(ds)[i], lines_for(kept(ds), ls, i)).change_type,
            ),
{
    assert forall|i: int| 0 <= i < kept(ds).len() implies keeps_git_kind(
        kept(ds)[i].status,
        #[trigger] commit_diff_view(hash, ds, ls).files[i].change_type,
    ) by {
        law_change_type_keeps_git_kind(kept(ds)[i].status);
    }
    assert forall|i: int| 0 <= i < kept(ds).len() implies keeps_git_kind(
        kept(ds)[i].status,
        #[trigger] builder_view_of(kept(ds)[i], lines_for(kept(ds), ls, i)).change_type,
    ) by {
        law_change_type_keeps_git_kind(kept(ds)[i].status);
    }
}

/// An added file is shown whole as additions: line `i` (from 1) is numbered
/// `i` in the new file, has no old number, and holds the file's line.
pub proof fn law_added_file_numbered(b: BuilderView, base: Seq<Seq<char>>)
    requires
        b.change_type == ChangeType::Added,
        base.len() < u32::MAX,
    ensures
        inline_view_of(b, base).lines.len() == base.len(),
        forall|i: int|
            0 <= i < base.len() ==> #[trigger] inline_view_of(b, base).lines[i] == (InlineLineView {
                old_line_number: None,
                new_line_number: Some((i + 1) as u32),
                content: base[i],
                line_type: DiffLineType::Added,
            }),
{
}

/// Whether `s` ends with a line feed.
pub open spec fn ends_with_newline(s: Seq<char>) -> bool {
    s.len() > 0 && s.last() == '\n'
}

/// Whether `s` holds one line as Git reports it in a patch: a line feed, if
/// any, only as its last character.
pub open spec fn one_patch_line(s: Seq<char>) -> bool {
    forall|j: int| 0 <= j < s.len() - 1 ==> s[j] != '\n'
}

proof fn lemma_strip_ending_one_line(s: Seq<char>)
    requires
        one_patch_line(s),
    ensures
        !ends_with_newline(strip_ending(s)),
{
    if s.len() > 0 && s.last() == '\n' {
        let t = s.drop_last();
        if t.len() > 0 {
            assert(t.last() == s[s.len() - 2]);
        }
        if t.len() > 0 && t.last() == '\r' {
            let u = t.drop_last();
            if u.len() > 0 {
                assert(u.last() == s[s.len() - 3]);
            }
        }
    }
}

proof fn lemma_lines_for_one_line(ks: Seq<DeltaInfo>, ls: Seq<PatchLine>, i: int)
    requires
        forall|k: int| 0 <= k < ls.len() ==> one_patch_line(#[trigger] ls[k].content@),
    ensures
        forall|j: int|
            0 <= j < lines_for(ks, ls, i).len() ==> one_patch_line(
                #[trigger] lines_for(ks, ls, i)[j].content@,
            ),
    decreases ls.len(),
{
    if ls.len() > 0 {
        let prev = ls.drop_last();
        assert forall|k: int| 0 <= k < prev.len() implies one_patch_line(#[trigger] prev[k].content@) by {
            assert(prev[k] == ls[k]);
        }
        lemma_lines_for_one_line(ks, prev, i);
        assert(ls.last() == ls[ls.len() - 1]);
    }
}

/// The whole-file view holds lines, not line endings: where the file's lines
/// are split from its text and each patch line holds one line, no line of a
/// file's whole-file view ends with a line feed. (Line numbers are `u32`, so
/// the file has at most `u32::MAX` lines.)
pub proof fn law_no_line_ends_with_newline(ds: Seq<DeltaInfo>, ls: Seq<PatchLine>, i: int, text: Seq<char>)
    requires
        0 <= i < kept(ds).len(),
        text_lines(text).len() <= u32::MAX,
        forall|k: int| 0 <= k < ls.len() ==> one_patch_line(#[trigger] ls[k].content@),
    ensures
        ({
            let v = inline_view_of(
                builder_view_of(kept(ds)[i], lines_for(kept(ds), ls, i)),
                text_lines(text),
            );
            forall|k: int| 0 <= k < v.lines.len() ==> !ends_with_newline(#[trigger] v.lines[k].content)
        }),
{
    let ks = kept(ds);
    let fl = lines_for(ks, ls, i);
    let b = builder_view_of(ks[i], fl);
    let base = text_lines(text);
    let v = inline_view_of(b, base);
    lemma_text_lines_free_of_newlines(text);
    lemma_lines_for_one_line(ks, ls, i);
    assert forall|n: int| 0 <= n < base.len() implies !ends_with_newline(#[trigger] base[n]) by {
        if base[n].len() > 0 {
            assert(base[n][base[n].len() - 1] != '\n');
        }
    }
    assert forall|j: int| 0 <= j < b.hunk_lines.len() implies !ends_with_newline(
        #[trigger] b.hunk_lines[j].line.content,
    ) by {
        assert(b.hunk_lines[j] == hunk_line_of(fl[j]));
        lemma_strip_ending_one_line(fl[j].content@);
    }
    if b.change_type != ChangeType::Added && b.change_type != ChangeType::Deleted {
        law_merge_structure(base, b.hunk_lines);
        let pos = hunk_positions(base, b.hunk_lines);
        assert forall|k: int| 0 <= k < v.lines.len() implies !ends_with_newline(
            #[trigger] v.lines[k].content,
        ) by {
            if at_hunk_position(pos, k) {
                let j = choose|j: int| 0 <= j < pos.len() && pos[j] == k;
                assert(v.lines[k] == b.hunk_lines[j].line);
            } else {
                assert(is_file_line(base, v.lines[k]));
                let n = v.lines[k].new_line_number.unwrap();
                assert(v.lines[k].content == base[n - 1]);
            }
        }
    }
}

impl InlineFileBuilder {
    /// Shows the file whole, given its lines (of the commit's version, or of
    /// the parent's version for a deleted file).
    pub fn into_inline_file_diff(self, base_lines: Vec<String>) -> (d: InlineFileDiff)
        requires
            base_lines@.len() < usize::MAX,
            self.change_type != ChangeType::Added && self.change_type != ChangeType::Deleted
                ==> merged_fits(string_views(base_lines@), self@.hunk_lines),
        ensures
            d@ == inline_view_of(self@, string_views(base_lines@)),
    {
        let ghost base = string_views(base_lines@);
        let lines = match self.change_type {
            ChangeType::Added => numbered_lines(&base_lines, false),
            ChangeType::Deleted => numbered_lines(&base_lines, true),
            ChangeType::Modified | ChangeType::Renamed | ChangeType::Copied => {
                merge_hunks_with_new_file(base_lines, self.hunk_lines)
            },
        };
        InlineFileDiff {
            old_path: self.old_path,
            new_path: self.new_path,
            change_type: self.change_type,
            lines,
        }
    }
}

/// Every line of a file as an addition numbered in the new file, or as a
/// removal numbered in the old file.
fn numbered_lines(base_lines: &Vec<String>, removed: bool) -> (lines: Vec<InlineDiffLine>)
    ensures
        inline_views(lines@) == (if removed {
            removed_lines(string_views(base_lines@))
        } else {
            added_lines(string_views(base_lines@))
        }),
{
    let ghost base = string_views(base_lines@);
    let mut lines: Vec<InlineDiffLine> = Vec::new();
    let mut i: usize = 0;
    while i < base_lines.len()
        invariant
            i <= base_lines@.len(),
            base == string_views(base_lines@),
            inline_views(lines@) == (if removed {
                removed_lines(base)
            } else {
                added_lines(base)
            }).take(i as int),
        decreases base_lines@.len() - i,
    {
        let number = (i + 1) as u32;
        let content = base_lines[i].clone();
        let line = if removed {
            InlineDiffLine {
                old_line_number: Some(number),
                new_line_number: None,
                content,
                line_type: DiffLineType::Removed,
            }
        } else {
            InlineDiffLine {
                old_line_number: None,
                new_line_number: Some(number),
                content,
                line_type: DiffLineType::Added,
            }
        };
        let ghost before = inline_views(lines@);
        lines.push(line);
        proof {
            let all = if removed {
                removed_lines(base)
            } else {
                added_lines(base)
            };
            assert(all.take(i + 1) =~= all.take(i as int).push(all[i as int]));
            assert(inline_views(lines@) =~= before.push(line@));
        }
        i = i + 1;
    }
    proof {
        let all = if removed {
            removed_lines(base)
        } else {
            added_lines(base)
        };
        assert(all.take(i as int) =~= all);
    }
    lines
}

/// The text of bytes decoded as UTF-8, each invalid sequence replaced by
/// U+FFFD (what `String::from_utf8_lossy` yields).
pub uninterp spec fn lossy_text(bytes: Seq<u8>) -> Seq<char>;

/// `String::from_utf8_lossy`: the text of `bytes` with invalid sequences
/// replaced; its documentation states that valid UTF-8 decodes unchanged, the
/// one fact claimed beyond naming the result.
#[verifier::external_body]
fn utf8_lossy(bytes: &[u8]) -> (s: String)
    ensures
        s@ == lossy_text(bytes@),
        vstd::utf8::valid_utf8(bytes@) ==> s@ == vstd::utf8::decode_utf8(bytes@),
{
    String::from_utf8_lossy(bytes).into_owned()
}

/// The lines of a file's content, decoded leniently from UTF-8.
pub fn split_blob_lines(content: &[u8]) -> (lines: Vec<String>)
    ensures
        string_views(lines@) == text_lines(lossy_text(content@)),
{
    let text = utf8_lossy(content);
    split_lines(&chars_of(text.as_str()))
}

/// Whether a file diff concerns `path`, as its new path or its old one.
pub open spec fn touches_path(f: FileDiffView, path: Seq<char>) -> bool {
    f.new_path == path || f.old_path == Some(path)
}

/// The message for a file that a commit did not change.
pub open spec fn unchanged_file_text(file_path: Seq<char>, commit_hash: Seq<char>) -> Seq<char> {
    "File '"@ + file_path + "' was not changed by commit '"@ + commit_hash + "'"@
}

/// The diff of one file out of a commit's diff: the first file diff whose
/// new or old path is `file_path`, or an error naming the file and the commit
/// where no file diff concerns it.
pub fn get_file_diff(diff: CommitDiff, commit_hash: &str, file_path: &str) -> (r: Result<
    FileDiff,
    String,
>)
    ensures
        match r {
            Ok(f) => exists|i: int|
                0 <= i < diff@.files.len() && touches_path(diff@.files[i], file_path@) && (forall|
                    j: int,
                | 0 <= j < i ==> !touches_path(#[trigger] diff@.files[j], file_path@))
                    && f@ == diff@.files[i],
            Err(msg) => (forall|j: int|
                0 <= j < diff@.files.len() ==> !touches_path(#[trigger] diff@.files[j], file_path@))
                && msg@ == unchanged_file_text(file_path@, commit_hash@),
        },
{
    let p = file_path.to_owned();
    let mut files = diff.files;
    let ghost all = files@;
    let ghost views = diff@.files;
    assert(forall|j: int| 0 <= j < all.len() ==> views[j] == (#[trigger] all[j])@);
    let mut i: usize = 0;
    while i < files.len()
        invariant
            files@ == all,
            i <= all.len(),
            p@ == file_path@,
            views == diff@.files,
            views.len() == all.len(),
            forall|j: int| 0 <= j < all.len() ==> views[j] == (#[trigger] all[j])@,
            forall|j: int| 0 <= j < i ==> !touches_path(#[trigger] views[j], file_path@),
        decreases all.len() - i,
    {
        let hit = files[i].new_path == p || match &files[i].old_path {
            Some(o) => *o == p,
            None => false,
        };
        if hit {
            proof {
                assert(views[i as int] == all[i as int]@);
                assert(touches_path(views[i as int], file_path@));
            }
            let f = files.remove(i);
            assert(f@ == views[i as int]);
            return Ok(f);
        }
        proof {
            assert(views[i as int] == all[i as int]@);
        }
        i = i + 1;
    }
    let mut msg = "File '".to_owned();
    msg.append(file_path);
    msg.append("' was not changed by commit '");
    msg.append(commit_hash);
    msg.append("'");
    Err(msg)
}

} // verus!
