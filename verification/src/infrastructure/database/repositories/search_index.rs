//! The cross-entity text search: from a user query to a full-text MATCH
//! expression of prefix terms.
use vstd::prelude::*;

use crate::text::{chars_of, law_trim_keeps_words, runs, split_runs, trim, trim_chars, Separator};

verus! {

/// `t` with every `"` doubled, as a quoted full-text term needs it.
pub open spec fn escape_quotes(t: Seq<char>) -> Seq<char>
    decreases t.len(),
{
    if t.len() == 0 {
        Seq::empty()
    } else {
        escape_quotes(t.drop_last()) + (if t.last() == '"' {
            seq!['"', '"']
        } else {
            seq![t.last()]
        })
    }
}

/// The prefix term for a query word: the escaped word followed by `*`.
pub open spec fn prefix_term(word: Seq<char>) -> Seq<char> {
    escape_quotes(word).push('*')
}

/// The parts joined with single spaces.
pub open spec fn join_space(parts: Seq<Seq<char>>) -> Seq<char>
    decreases parts.len(),
{
    if parts.len() == 0 {
        Seq::empty()
    } else if parts.len() == 1 {
        parts[0]
    } else {
        join_space(parts.drop_last()) + seq![' '] + parts.last()
    }
}

/// The MATCH expression for a query: one prefix term per whitespace-separated
/// word, in order, separated by spaces (terms are implicitly AND-ed).
pub open spec fn match_expression(query: Seq<char>) -> Seq<char> {
    let words = runs(query, Separator::Whitespace);
    join_space(Seq::new(words.len(), |i: int| prefix_term(words[i])))
}

fn push_escaped(out: &mut String, word: &Vec<char>)
    ensures
        final(out)@ == old(out)@ + escape_quotes(word@),
{
    let mut i: usize = 0;
    assert(word@.take(0) =~= Seq::<char>::empty());
    assert(old(out)@ + escape_quotes(Seq::<char>::empty()) =~= old(out)@);
    while i < word.len()
        invariant
            i <= word.len(),
            out@ == old(out)@ + escape_quotes(word@.take(i as int)),
        decreases word.len() - i,
    {
        let ghost before = out@;
        let c = word[i];
        assert(word@.take(i + 1).drop_last() =~= word@.take(i as int));
        assert(word@.take(i + 1).last() == c);
        if c == '"' {
            out.push('"');
            out.push('"');
        } else {
            out.push(c);
        }
        assert(out@ =~= old(out)@ + escape_quotes(word@.take(i + 1)));
        i = i + 1;
    }
    assert(word@.take(word.len() as int) =~= word@);
}

/// Builds the full-text MATCH expression for a user query: every word becomes
/// a prefix term, so the search matches entries with words starting that way.
pub fn build_match_expression(query: &str) -> (m: String)
    ensures
        m@ == match_expression(query@),
{
    let words = split_runs(&chars_of(query), Separator::Whitespace);
    let ghost ws = runs(query@, Separator::Whitespace);
    let ghost terms = Seq::new(ws.len(), |i: int| prefix_term(ws[i]));
    let mut out = String::new();
    let mut i: usize = 0;
    assert(terms.take(0) =~= Seq::<Seq<char>>::empty());
    while i < words.len()
        invariant
            i <= words.len(),
            crate::text::views(words@) == ws,
            terms == Seq::new(ws.len(), |i: int| prefix_term(ws[i])),
            out@ == join_space(terms.take(i as int)),
        decreases words.len() - i,
    {
        let ghost before = out@;
        assert(words@[i as int]@ == ws[i as int]);
        if i > 0 {
            out.push(' ');
        }
        push_escaped(&mut out, &words[i]);
        out.push('*');
        proof {
            assert(terms.take(i + 1).drop_last() =~= terms.take(i as int));
            assert(terms.take(i + 1).last() == prefix_term(ws[i as int]));
            if i == 0 {
                assert(terms.take(1)[0] == prefix_term(ws[0]));
                assert(out@ =~= prefix_term(ws[0]));
            } else {
                assert(out@ =~= before + seq![' '] + prefix_term(ws[i as int]));
            }
        }
        i = i + 1;
    }
    assert(terms.take(words.len() as int) =~= terms);
    out
}

/// White space around a query changes nothing: a query and its trimmed form
/// give the same MATCH expression.
pub proof fn law_search_ignores_surrounding_space(query: Seq<char>)
    ensures
        match_expression(trim(query)) == match_expression(query),
{
    law_trim_keeps_words(query);
}

/// The MATCH expression to search for, or `None` when the query holds nothing
/// but white space (such a search finds nothing).
pub fn search_match_expression(query: &str) -> (m: Option<String>)
    ensures
        trim(query@).len() == 0 ==> m is None,
        trim(query@).len() > 0 ==> (m matches Some(e) && e@ == match_expression(trim(query@))),
{
    let trimmed = trim_chars(&chars_of(query));
    if trimmed.len() == 0 {
        return None;
    }
    let t = crate::text::string_from_chars(&trimmed);
    Some(build_match_expression(t.as_str()))
}

} // verus!
