//! Character-level text helpers with exact contracts over `Seq<char>`.
use vstd::prelude::*;

verus! {

/// The Unicode `White_Space` property, as `char::is_whitespace` documents it.
pub open spec fn is_ws(c: char) -> bool {
    let u = c as u32;
    ||| 0x9 <= u <= 0xd
    ||| u == 0x20
    ||| u == 0x85
    ||| u == 0xa0
    ||| u == 0x1680
    ||| 0x2000 <= u <= 0x200a
    ||| u == 0x2028
    ||| u == 0x2029
    ||| u == 0x202f
    ||| u == 0x205f
    ||| u == 0x3000
}

/// Whether `c` is a Unicode white-space character.
pub fn is_whitespace_char(c: char) -> (b: bool)
    ensures
        b == is_ws(c),
{
    let u = c as u32;
    (0x9 <= u && u <= 0xd) || u == 0x20 || u == 0x85 || u == 0xa0 || u == 0x1680 || (0x2000 <= u
        && u <= 0x200a) || u == 0x2028 || u == 0x2029 || u == 0x202f || u == 0x205f || u == 0x3000
}

/// `String::push` appends one character.
pub assume_specification[ String::push ](s: &mut String, ch: char)
    ensures
        final(s)@ == old(s)@.push(ch),
;

/// The characters of `s`, in order.
pub fn chars_of(s: &str) -> (v: Vec<char>)
    ensures
        v@ == s@,
{
    broadcast use vstd::string::axiom_spec_iter;

    let mut v: Vec<char> = Vec::new();
    for c in it: s.chars()
        invariant
            it.seq() == s@,
            v@ == it.seq().take(it.index() as int),
    {
        v.push(c);
    }
    v
}

} // verus!

verus! {

/// The text of an optional string.
pub open spec fn opt_view(o: Option<String>) -> Option<Seq<char>> {
    match o {
        Some(s) => Some(s@),
        None => None,
    }
}

/// `p` is a prefix of `s`.
pub open spec fn is_prefix(p: Seq<char>, s: Seq<char>) -> bool {
    p.len() <= s.len() && s.subrange(0, p.len() as int) == p
}

/// The `n` characters of `s` that start at position `i`.
pub open spec fn window(s: Seq<char>, i: int, n: int) -> Seq<char> {
    s.subrange(i, i + n)
}

/// `needle` occurs somewhere in `hay` as a contiguous run.
pub open spec fn occurs_in(needle: Seq<char>, hay: Seq<char>) -> bool {
    exists|i: int|
        0 <= i && i + needle.len() <= hay.len() && #[trigger] window(hay, i, needle.len() as int)
            == needle
}

/// Whether `a` and `b` hold the same characters.
pub fn same_chars(a: &Vec<char>, b: &Vec<char>) -> (r: bool)
    ensures
        r == (a@ == b@),
{
    if a.len() != b.len() {
        return false;
    }
    let mut i: usize = 0;
    while i < a.len()
        invariant
            a.len() == b.len(),
            i <= a.len(),
            a@.subrange(0, i as int) == b@.subrange(0, i as int),
        decreases a.len() - i,
    {
        if a[i] != b[i] {
            assert(a@[i as int] != b@[i as int]);
            return false;
        }
        assert(a@.subrange(0, i + 1) == a@.subrange(0, i as int).push(a@[i as int]));
        assert(b@.subrange(0, i + 1) == b@.subrange(0, i as int).push(b@[i as int]));
        i = i + 1;
    }
    assert(a@ == a@.subrange(0, a.len() as int));
    assert(b@ == b@.subrange(0, b.len() as int));
    true
}

/// Whether `p` is a prefix of `s`.
pub fn has_prefix(s: &Vec<char>, p: &Vec<char>) -> (r: bool)
    ensures
        r == is_prefix(p@, s@),
{
    if p.len() > s.len() {
        return false;
    }
    let mut i: usize = 0;
    while i < p.len()
        invariant
            p.len() <= s.len(),
            i <= p.len(),
            s@.subrange(0, i as int) == p@.subrange(0, i as int),
        decreases p.len() - i,
    {
        if s[i] != p[i] {
            assert(s@.subrange(0, p.len() as int)[i as int] != p@[i as int]);
            return false;
        }
        assert(s@.subrange(0, i + 1) == s@.subrange(0, i as int).push(s@[i as int]));
        assert(p@.subrange(0, i + 1) == p@.subrange(0, i as int).push(p@[i as int]));
        i = i + 1;
    }
    assert(p@ == p@.subrange(0, p.len() as int));
    true
}

/// Whether `needle` matches `hay` at position `at`.
fn matches_at(hay: &Vec<char>, needle: &Vec<char>, at: usize) -> (r: bool)
    requires
        at + needle.len() <= hay.len(),
    ensures
        r == (hay@.subrange(at as int, at + needle.len()) == needle@),
{
    let mut i: usize = 0;
    while i < needle.len()
        invariant
            at + needle.len() <= hay.len(),
            i <= needle.len(),
            hay@.subrange(at as int, at + i) == needle@.subrange(0, i as int),
        decreases needle.len() - i,
    {
        if hay[at + i] != needle[i] {
            assert(hay@.subrange(at as int, at + needle.len())[i as int] != needle@[i as int]);
            return false;
        }
        assert(hay@.subrange(at as int, at + i + 1) == hay@.subrange(at as int, at + i).push(
            hay@[at + i],
        ));
        assert(needle@.subrange(0, i + 1) == needle@.subrange(0, i as int).push(needle@[i as int]));
        i = i + 1;
    }
    assert(needle@ == needle@.subrange(0, needle.len() as int));
    true
}

/// Whether `needle` occurs in `hay`.
pub fn contains_run(hay: &Vec<char>, needle: &Vec<char>) -> (r: bool)
    ensures
        r == occurs_in(needle@, hay@),
{
    if needle.len() > hay.len() {
        return false;
    }
    let last = hay.len() - needle.len();
    let mut at: usize = 0;
    loop
        invariant
            last + needle.len() == hay.len(),
            at <= last,
            forall|j: int|
                0 <= j < at ==> #[trigger] window(hay@, j, needle.len() as int) != needle@,
        decreases last - at,
    {
        if matches_at(hay, needle, at) {
            assert(window(hay@, at as int, needle.len() as int) == needle@);
            return true;
        }
        if at == last {
            return false;
        }
        at = at + 1;
    }
}

/// The decimal digit character for `d` in `0..10`.
pub open spec fn digit(d: int) -> char {
    if d == 0 {
        '0'
    } else if d == 1 {
        '1'
    } else if d == 2 {
        '2'
    } else if d == 3 {
        '3'
    } else if d == 4 {
        '4'
    } else if d == 5 {
        '5'
    } else if d == 6 {
        '6'
    } else if d == 7 {
        '7'
    } else if d == 8 {
        '8'
    } else {
        '9'
    }
}

/// The decimal notation of `n`, without leading zeros.
pub open spec fn decimal(n: nat) -> Seq<char>
    decreases n,
{
    if n < 10 {
        seq![digit(n as int)]
    } else {
        decimal(n / 10).push(digit((n % 10) as int))
    }
}

/// The decimal notation of a signed integer, with a leading `-` when negative.
pub open spec fn signed_decimal(n: int) -> Seq<char> {
    if n < 0 {
        seq!['-'] + decimal((-n) as nat)
    } else {
        decimal(n as nat)
    }
}

fn digit_char(d: u64) -> (c: char)
    requires
        d < 10,
    ensures
        c == digit(d as int),
{
    if d == 0 {
        '0'
    } else if d == 1 {
        '1'
    } else if d == 2 {
        '2'
    } else if d == 3 {
        '3'
    } else if d == 4 {
        '4'
    } else if d == 5 {
        '5'
    } else if d == 6 {
        '6'
    } else if d == 7 {
        '7'
    } else if d == 8 {
        '8'
    } else {
        '9'
    }
}

/// Appends the decimal notation of `n` to `s`.
pub fn push_decimal(s: &mut String, n: u64)
    ensures
        final(s)@ == old(s)@ + decimal(n as nat),
    decreases n,
{
    if n >= 10 {
        push_decimal(s, n / 10);
    }
    s.push(digit_char(n % 10));
}

/// Appends the decimal notation of the signed integer `n` to `s`.
pub fn push_signed_decimal(s: &mut String, n: i64)
    ensures
        final(s)@ == old(s)@ + signed_decimal(n as int),
{
    if n < 0 {
        s.push('-');
        let m: u64 = (0i128 - (n as i128)) as u64;
        push_decimal(s, m);
    } else {
        push_decimal(s, n as u64);
    }
}

/// A `String` holding exactly the characters of `v`.
pub fn string_from_chars(v: &Vec<char>) -> (s: String)
    ensures
        s@ == v@,
{
    let mut s = String::new();
    let mut i: usize = 0;
    while i < v.len()
        invariant
            i <= v.len(),
            s@ == v@.subrange(0, i as int),
        decreases v.len() - i,
    {
        s.push(v[i]);
        assert(v@.subrange(0, i + 1) == v@.subrange(0, i as int).push(v@[i as int]));
        i = i + 1;
    }
    assert(v@ == v@.subrange(0, v.len() as int));
    s
}

} // verus!

verus! {

/// What separates the runs that `split_runs` cuts a text into.
#[derive(Clone, Copy, Debug)]
pub enum Separator {
    Whitespace,
    Char(char),
}

/// Whether `c` is a separator under `sep`.
pub open spec fn separates(sep: Separator, c: char) -> bool {
    match sep {
        Separator::Whitespace => is_ws(c),
        Separator::Char(d) => c == d,
    }
}

/// The maximal non-empty runs of non-separator characters of `s`, in order
/// (what `split_whitespace`, or `split(d)` with empty pieces dropped, yields).
pub open spec fn runs(s: Seq<char>, sep: Separator) -> Seq<Seq<char>>
    decreases s.len(),
{
    if s.len() == 0 {
        seq![]
    } else {
        let w = runs(s.drop_last(), sep);
        let c = s.last();
        if separates(sep, c) {
            w
        } else if s.len() >= 2 && !separates(sep, s[s.len() - 2]) {
            w.drop_last().push(w.last().push(c))
        } else {
            w.push(seq![c])
        }
    }
}

/// The views of a sequence of character vectors.
pub open spec fn views(v: Seq<Vec<char>>) -> Seq<Seq<char>> {
    Seq::new(v.len(), |i: int| v[i]@)
}

/// The views of a sequence of strings.
pub open spec fn string_views(v: Seq<String>) -> Seq<Seq<char>> {
    Seq::new(v.len(), |i: int| v[i]@)
}

fn is_separator(sep: Separator, c: char) -> (b: bool)
    ensures
        b == separates(sep, c),
{
    match sep {
        Separator::Whitespace => is_whitespace_char(c),
        Separator::Char(d) => c == d,
    }
}

/// Cuts `s` into its maximal runs of non-separator characters.
pub fn split_runs(s: &Vec<char>, sep: Separator) -> (out: Vec<Vec<char>>)
    ensures
        views(out@) == runs(s@, sep),
{
    let mut out: Vec<Vec<char>> = Vec::new();
    let mut cur: Vec<char> = Vec::new();
    let mut i: usize = 0;
    assert(s@.take(0) =~= Seq::<char>::empty());
    assert(views(out@) =~= Seq::<Seq<char>>::empty());
    while i < s.len()
        invariant
            i <= s.len(),
            cur@.len() > 0 <==> (i > 0 && !separates(sep, s@[i - 1])),
            runs(s@.take(i as int), sep) == (if cur@.len() == 0 {
                views(out@)
            } else {
                views(out@).push(cur@)
            }),
        decreases s.len() - i,
    {
        let c = s[i];
        let ghost before = s@.take(i as int);
        assert(s@.take(i + 1).drop_last() =~= before);
        assert(s@.take(i + 1).last() == c);
        if is_separator(sep, c) {
            if cur.len() > 0 {
                let ghost old_out = out@;
                out.push(cur);
                assert(views(out@) =~= views(old_out).push(cur@));
                cur = Vec::new();
            }
        } else {
            let ghost w = runs(before, sep);
            if cur.len() > 0 {
                assert(s@.take(i + 1)[i - 1] == s@[i - 1]);
                assert(w.drop_last() =~= views(out@));
                assert(w.last() == cur@);
            } else {
                assert(w == views(out@));
            }
            cur.push(c);
            if cur.len() == 1 {
                assert(cur@ =~= seq![c]);
            }
        }
        i = i + 1;
    }
    assert(s@.take(s.len() as int) =~= s@);
    if cur.len() > 0 {
        let ghost old_out = out@;
        out.push(cur);
        assert(views(out@) =~= views(old_out).push(cur@));
    }
    out
}

/// Each run is non-empty and holds no separator.
pub proof fn law_runs_are_clean(s: Seq<char>, sep: Separator)
    ensures
        forall|i: int|
            0 <= i < runs(s, sep).len() ==> (#[trigger] runs(s, sep)[i]).len() > 0 && (forall|
                k: int,
            | 0 <= k < runs(s, sep)[i].len() ==> !separates(sep, #[trigger] runs(s, sep)[i][k])),
    decreases s.len(),
{
    if s.len() > 0 {
        law_runs_are_clean(s.drop_last(), sep);
        let w = runs(s.drop_last(), sep);
        let c = s.last();
        let r = runs(s, sep);
        if !separates(sep, c) {
            if s.len() >= 2 && !separates(sep, s[s.len() - 2]) {
                assert(w.len() > 0) by {
                    lemma_runs_end(s.drop_last(), sep);
                }
                assert forall|i: int| 0 <= i < r.len() implies (#[trigger] r[i]).len() > 0 && (
                forall|k: int| 0 <= k < r[i].len() ==> !separates(sep, #[trigger] r[i][k])) by {
                    if i < r.len() - 1 {
                        assert(r[i] == w[i]);
                    } else {
                        assert(r[i] == w.last().push(c));
                        assert forall|k: int| 0 <= k < r[i].len() implies !separates(
                            sep,
                            #[trigger] r[i][k],
                        ) by {
                            if k < w.last().len() {
                                assert(r[i][k] == w[w.len() - 1][k]);
                            }
                        }
                    }
                }
            } else {
                assert forall|i: int| 0 <= i < r.len() implies (#[trigger] r[i]).len() > 0 && (
                forall|k: int| 0 <= k < r[i].len() ==> !separates(sep, #[trigger] r[i][k])) by {
                    if i < r.len() - 1 {
                        assert(r[i] == w[i]);
                    }
                }
            }
        }
    }
}

/// A text that ends in a non-separator has at least one run.
proof fn lemma_runs_end(s: Seq<char>, sep: Separator)
    requires
        s.len() > 0,
        !separates(sep, s.last()),
    ensures
        runs(s, sep).len() > 0,
    decreases s.len(),
{
    let w = runs(s.drop_last(), sep);
    if s.len() >= 2 && !separates(sep, s[s.len() - 2]) {
        lemma_runs_end(s.drop_last(), sep);
    }
}

/// A separator in front of a text does not change its runs.
proof fn lemma_runs_after_separator(c: char, t: Seq<char>, sep: Separator)
    requires
        separates(sep, c),
    ensures
        runs(seq![c] + t, sep) == runs(t, sep),
    decreases t.len(),
{
    let ct = seq![c] + t;
    if t.len() == 0 {
        assert(ct =~= seq![c]);
        assert(ct.drop_last() =~= Seq::<char>::empty());
        assert(ct.last() == c);
        assert(runs(ct.drop_last(), sep) =~= Seq::<Seq<char>>::empty());
    } else {
        lemma_runs_after_separator(c, t.drop_last(), sep);
        assert(ct.drop_last() =~= seq![c] + t.drop_last());
        assert(ct.last() == t.last());
        let w = runs(t.drop_last(), sep);
        assert(runs(ct.drop_last(), sep) == w);
        if t.len() >= 2 {
            assert(ct[ct.len() - 2] == t[t.len() - 2]);
        } else {
            assert(ct[ct.len() - 2] == c);
            assert(t.drop_last() =~= Seq::<char>::empty());
            assert(w =~= Seq::<Seq<char>>::empty());
        }
    }
}

/// `s` without its leading white space.
pub open spec fn trim_start(s: Seq<char>) -> Seq<char>
    decreases s.len(),
{
    if s.len() > 0 && is_ws(s[0]) {
        trim_start(s.drop_first())
    } else {
        s
    }
}

/// `s` without its trailing white space.
pub open spec fn trim_end(s: Seq<char>) -> Seq<char>
    decreases s.len(),
{
    if s.len() > 0 && is_ws(s.last()) {
        trim_end(s.drop_last())
    } else {
        s
    }
}

/// `s` without leading and trailing white space (what `str::trim` yields).
pub open spec fn trim(s: Seq<char>) -> Seq<char> {
    trim_end(trim_start(s))
}

/// Surrounding white space does not change the words of a text: trimming
/// keeps its runs of non-white-space characters.
pub proof fn law_trim_keeps_words(s: Seq<char>)
    ensures
        runs(trim(s), Separator::Whitespace) == runs(s, Separator::Whitespace),
{
    lemma_trim_start_keeps_words(s);
    lemma_trim_end_keeps_words(trim_start(s));
}

proof fn lemma_trim_start_keeps_words(s: Seq<char>)
    ensures
        runs(trim_start(s), Separator::Whitespace) == runs(s, Separator::Whitespace),
    decreases s.len(),
{
    if s.len() > 0 && is_ws(s[0]) {
        lemma_trim_start_keeps_words(s.drop_first());
        assert(s =~= seq![s[0]] + s.drop_first());
        lemma_runs_after_separator(s[0], s.drop_first(), Separator::Whitespace);
    }
}

proof fn lemma_trim_end_keeps_words(s: Seq<char>)
    ensures
        runs(trim_end(s), Separator::Whitespace) == runs(s, Separator::Whitespace),
    decreases s.len(),
{
    if s.len() > 0 && is_ws(s.last()) {
        lemma_trim_end_keeps_words(s.drop_last());
    }
}

/// Copies `s[from..to]`.
pub fn copy_range(s: &Vec<char>, from: usize, to: usize) -> (out: Vec<char>)
    requires
        from <= to <= s.len(),
    ensures
        out@ == s@.subrange(from as int, to as int),
{
    let mut out: Vec<char> = Vec::new();
    let mut i = from;
    while i < to
        invariant
            from <= i <= to <= s.len(),
            out@ == s@.subrange(from as int, i as int),
        decreases to - i,
    {
        out.push(s[i]);
        assert(s@.subrange(from as int, i + 1) =~= s@.subrange(from as int, i as int).push(
            s@[i as int],
        ));
        i = i + 1;
    }
    out
}

/// `s` with leading and trailing white space removed.
pub fn trim_chars(s: &Vec<char>) -> (out: Vec<char>)
    ensures
        out@ == trim(s@),
{
    let n = s.len();
    let mut a: usize = 0;
    assert(s@.subrange(0, n as int) =~= s@);
    while a < n && is_whitespace_char(s[a])
        invariant
            a <= n == s.len(),
            trim_start(s@) == trim_start(s@.subrange(a as int, n as int)),
        decreases n - a,
    {
        assert(s@.subrange(a as int, n as int).drop_first() =~= s@.subrange(a + 1, n as int));
        a = a + 1;
    }
    assert(trim_start(s@) == s@.subrange(a as int, n as int));
    let mut b: usize = n;
    while b > a && is_whitespace_char(s[b - 1])
        invariant
            a <= b <= n == s.len(),
            trim_start(s@) == s@.subrange(a as int, n as int),
            trim(s@) == trim_end(s@.subrange(a as int, b as int)),
        decreases b - a,
    {
        assert(s@.subrange(a as int, b as int).drop_last() =~= s@.subrange(a as int, b - 1));
        b = b - 1;
    }
    copy_range(s, a, b)
}

/// The pieces of `s` between occurrences of `d` (what `split(d)` yields,
/// empty pieces included).
pub open spec fn pieces(s: Seq<char>, d: char) -> Seq<Seq<char>>
    decreases s.len(),
{
    if s.len() == 0 {
        seq![seq![]]
    } else {
        let p = pieces(s.drop_last(), d);
        if s.last() == d {
            p.push(seq![])
        } else {
            p.drop_last().push(p.last().push(s.last()))
        }
    }
}

/// A line with one trailing carriage return removed.
pub open spec fn strip_cr(p: Seq<char>) -> Seq<char> {
    if p.len() > 0 && p.last() == '\r' {
        p.drop_last()
    } else {
        p
    }
}

/// The lines of `s` as `str::lines` yields them: split at `\n`, a `\r` that
/// stands just before a `\n` dropped, and no empty last line after a final `\n`.
pub open spec fn text_lines(s: Seq<char>) -> Seq<Seq<char>> {
    let p = pieces(s, '\n');
    let k = p.len() - 1;
    Seq::new(k as nat, |i: int| strip_cr(p[i])) + (if p[k].len() > 0 {
        seq![p[k]]
    } else {
        seq![]
    })
}

proof fn lemma_pieces_free_of(s: Seq<char>, d: char)
    ensures
        forall|i: int, j: int|
            0 <= i < pieces(s, d).len() && 0 <= j < pieces(s, d)[i].len() ==> #[trigger] pieces(s, d)[i][j]
                != d,
    decreases s.len(),
{
    if s.len() > 0 {
        lemma_pieces_free_of(s.drop_last(), d);
        lemma_pieces_nonempty(s.drop_last(), d);
        let p = pieces(s.drop_last(), d);
        let q = pieces(s, d);
        if s.last() != d {
            assert forall|i: int, j: int| 0 <= i < q.len() && 0 <= j < q[i].len() implies #[trigger] q[i][j]
                != d by {
                if i < q.len() - 1 {
                    assert(q[i] == p[i]);
                } else {
                    assert(q[i] == p.last().push(s.last()));
                    if j < p.last().len() {
                        assert(p.last() == p[p.len() - 1]);
                        assert(q[i][j] == p[p.len() - 1][j]);
                    }
                }
            }
        } else {
            assert forall|i: int, j: int| 0 <= i < q.len() && 0 <= j < q[i].len() implies #[trigger] q[i][j]
                != d by {
                if i < q.len() - 1 {
                    assert(q[i] == p[i]);
                }
            }
        }
    }
}

/// No line of `text_lines(s)` holds a `\n`.
pub proof fn lemma_text_lines_free_of_newlines(s: Seq<char>)
    ensures
        forall|i: int, j: int|
            0 <= i < text_lines(s).len() && 0 <= j < text_lines(s)[i].len() ==> #[trigger] text_lines(s)[i][j]
                != '\n',
{
    lemma_pieces_free_of(s, '\n');
    lemma_pieces_nonempty(s, '\n');
    let p = pieces(s, '\n');
    let k = p.len() - 1;
    let t = text_lines(s);
    assert forall|i: int, j: int| 0 <= i < t.len() && 0 <= j < t[i].len() implies #[trigger] t[i][j] != '\n' by {
        if i < k {
            assert(t[i] == strip_cr(p[i]));
            assert(t[i][j] == p[i][j]);
        } else {
            assert(t[i] == p[k]);
        }
    }
}

proof fn lemma_pieces_nonempty(s: Seq<char>, d: char)
    ensures
        pieces(s, d).len() >= 1,
    decreases s.len(),
{
    if s.len() > 0 {
        lemma_pieces_nonempty(s.drop_last(), d);
    }
}

/// Splits `s` at every `d`, keeping empty pieces.
pub fn split_pieces(s: &Vec<char>, d: char) -> (out: Vec<Vec<char>>)
    ensures
        views(out@) == pieces(s@, d),
{
    let mut done: Vec<Vec<char>> = Vec::new();
    let mut cur: Vec<char> = Vec::new();
    let mut i: usize = 0;
    assert(s@.take(0) =~= Seq::<char>::empty());
    assert(views(done@).push(cur@) =~= seq![seq![]]);
    while i < s.len()
        invariant
            i <= s.len(),
            pieces(s@.take(i as int), d) == views(done@).push(cur@),
        decreases s.len() - i,
    {
        let c = s[i];
        assert(s@.take(i + 1).drop_last() =~= s@.take(i as int));
        assert(s@.take(i + 1).last() == c);
        if c == d {
            let ghost old_done = done@;
            done.push(cur);
            assert(views(done@) =~= views(old_done).push(cur@));
            cur = Vec::new();
        } else {
            cur.push(c);
        }
        i = i + 1;
    }
    assert(s@.take(s.len() as int) =~= s@);
    let ghost old_done = done@;
    done.push(cur);
    assert(views(done@) =~= views(old_done).push(cur@));
    done
}

/// Splits `s` into its lines.
pub fn split_lines(s: &Vec<char>) -> (out: Vec<String>)
    ensures
        string_views(out@) == text_lines(s@),
{
    let ps = split_pieces(s, '\n');
    proof {
        lemma_pieces_nonempty(s@, '\n');
    }
    let k = ps.len() - 1;
    let mut out: Vec<String> = Vec::new();
    let mut j: usize = 0;
    while j < k
        invariant
            j <= k,
            k == ps@.len() - 1,
            pieces(s@, '\n') == views(ps@),
            string_views(out@) =~= Seq::new(j as nat, |i: int| strip_cr(views(ps@)[i])),
        decreases k - j,
    {
        let piece = &ps[j];
        let mut end = piece.len();
        if end > 0 && piece[end - 1] == '\r' {
            end = end - 1;
        }
        let line = copy_range(piece, 0, end);
        assert(line@ == strip_cr(piece@));
        let ghost old_out = out@;
        out.push(string_from_chars(&line));
        assert(string_views(out@) =~= string_views(old_out).push(line@));
        j = j + 1;
    }
    if ps[k].len() > 0 {
        let ghost old_out = out@;
        out.push(string_from_chars(&ps[k]));
        assert(string_views(out@) =~= string_views(old_out).push(ps@[k as int]@));
    }
    out
}

} // verus!

verus! {

/// The number of bytes of the UTF-8 encoding of `s`, as `str::len` returns
/// it (a `usize`; a string in memory never has more bytes than that holds).
pub open spec fn byte_len(s: Seq<char>) -> nat {
    (vstd::utf8::encode_utf8(s).len() as usize) as nat
}

/// The byte length of a string.
pub fn str_byte_len(s: &str) -> (n: usize)
    ensures
        n == byte_len(s@),
{
    s.len()
}

/// The first `n` characters of `s`, or all of them when it is shorter.
pub open spec fn take_chars(s: Seq<char>, n: nat) -> Seq<char> {
    if s.len() <= n {
        s
    } else {
        s.take(n as int)
    }
}

/// A string holding the first `n` characters of `s`.
pub fn first_chars(s: &str, n: usize) -> (out: String)
    ensures
        out@ == take_chars(s@, n as nat),
{
    let v = chars_of(s);
    let end = if v.len() <= n {
        v.len()
    } else {
        n
    };
    let w = copy_range(&v, 0, end);
    assert(v@.len() <= n ==> v@.subrange(0, end as int) =~= v@);
    string_from_chars(&w)
}

} // verus!

verus! {

/// The parts joined with `sep` between consecutive parts.
pub open spec fn join_with(parts: Seq<Seq<char>>, sep: Seq<char>) -> Seq<char>
    decreases parts.len(),
{
    if parts.len() == 0 {
        Seq::empty()
    } else if parts.len() == 1 {
        parts[0]
    } else {
        join_with(parts.drop_last(), sep) + sep + parts.last()
    }
}

/// Joins strings with a separator.
pub fn join_strings(parts: &Vec<String>, sep: &str) -> (s: String)
    ensures
        s@ == join_with(string_views(parts@), sep@),
{
    let ghost all = string_views(parts@);
    let mut s = String::new();
    let mut i: usize = 0;
    assert(all.take(0) =~= Seq::<Seq<char>>::empty());
    while i < parts.len()
        invariant
            i <= parts.len(),
            all == string_views(parts@),
            s@ == join_with(all.take(i as int), sep@),
        decreases parts.len() - i,
    {
        let ghost before = s@;
        if i > 0 {
            s.append(sep);
        }
        s.append(parts[i].as_str());
        proof {
            assert(all.take(i + 1).drop_last() =~= all.take(i as int));
            assert(all.take(i + 1).last() == parts@[i as int]@);
            if i == 0 {
                assert(s@ =~= all.take(1)[0]);
            }
        }
        i = i + 1;
    }
    assert(all.take(parts.len() as int) =~= all);
    s
}

/// A string that is `a`, `b` and `c` in turn.
pub fn concat3(a: &str, b: &str, c: &str) -> (s: String)
    ensures
        s@ == a@ + b@ + c@,
{
    let mut s = a.to_owned();
    s.append(b);
    s.append(c);
    s
}

} // verus!
