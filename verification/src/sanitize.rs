//! Cleaning of the text that the remote service proposes as a commit message.

use crate::text::{all_whitespace, lemma_trimmed_cuts, tight, trim, trim_end, trim_start, trimmed, whitespace};
use vstd::prelude::*;

verus! {

/// A straight quote, double or single.
pub open spec fn is_quote(c: char) -> bool {
    c == '"' || c == '\''
}

/// `s` starts with a straight quote and ends with the same one.
pub open spec fn quoted(s: Seq<char>) -> bool {
    s.len() >= 2 && is_quote(s.first()) && s.last() == s.first()
}

/// `s` without the pair of quotes that encloses it, if one does.
pub open spec fn unquoted(s: Seq<char>) -> Seq<char> {
    if quoted(s) {
        s.subrange(1, s.len() - 1)
    } else {
        s
    }
}

/// The commit message made of a proposed text: surrounding whitespace goes,
/// then one enclosing pair of quotes, then whitespace again.
pub open spec fn sanitized(s: Seq<char>) -> Seq<char> {
    trimmed(unquoted(trimmed(s)))
}

/// Cleans a proposed commit message.
pub fn sanitize(text: &str) -> (clean: String)
    ensures
        clean@ == sanitized(text@),
{
    let outer = trim(text);
    let n = outer.unicode_len();
    let mut inner = outer;
    if n >= 2 {
        let first = outer.get_char(0);
        let last = outer.get_char(n - 1);
        if (first == '"' || first == '\'') && last == first {
            inner = outer.substring_char(1, n - 1);
        }
    }
    String::from_str(trim(inner))
}

/// What is left of a text after its leading whitespace went does not start
/// with whitespace, and is the end of that text.
pub proof fn lemma_trim_start_shape(s: Seq<char>)
    ensures
        trim_start(s).len() <= s.len(),
        trim_start(s) == s.subrange(s.len() - trim_start(s).len(), s.len() as int),
        all_whitespace(s.subrange(0, s.len() - trim_start(s).len())),
        trim_start(s).len() > 0 ==> !whitespace(trim_start(s).first()),
    decreases s.len(),
{
    if s.len() > 0 && whitespace(s.first()) {
        let rest = s.drop_first();
        lemma_trim_start_shape(rest);
        let k = rest.len() - trim_start(rest).len();
        assert(rest.subrange(k, rest.len() as int) =~= s.subrange(k + 1, s.len() as int));
        assert forall|i: int| 0 <= i < k + 1 implies whitespace(#[trigger] s.subrange(0, k + 1)[i]) by {
            if i > 0 {
                assert(s.subrange(0, k + 1)[i] == rest.subrange(0, k)[i - 1]);
            }
        }
    } else {
        assert(s.subrange(0, s.len() as int) =~= s);
    }
}

/// What is left of a text after its trailing whitespace went does not end
/// with whitespace, and is the start of that text.
pub proof fn lemma_trim_end_shape(s: Seq<char>)
    ensures
        trim_end(s).len() <= s.len(),
        trim_end(s) == s.subrange(0, trim_end(s).len() as int),
        all_whitespace(s.subrange(trim_end(s).len() as int, s.len() as int)),
        trim_end(s).len() > 0 ==> !whitespace(trim_end(s).last()),
    decreases s.len(),
{
    if s.len() > 0 && whitespace(s.last()) {
        let rest = s.drop_last();
        lemma_trim_end_shape(rest);
        let k = trim_end(rest).len() as int;
        assert(rest.subrange(0, k) =~= s.subrange(0, k));
        let tail = s.subrange(k, s.len() as int);
        assert forall|i: int| 0 <= i < tail.len() implies whitespace(#[trigger] tail[i]) by {
            if i < tail.len() - 1 {
                assert(tail[i] == rest.subrange(k, rest.len() as int)[i]);
            }
        }
    } else {
        assert(s.subrange(0, s.len() as int) =~= s);
    }
}

/// A trimmed text neither starts nor ends with whitespace.
pub proof fn lemma_trimmed_is_tight(s: Seq<char>)
    ensures
        tight(trimmed(s)),
{
    let t = trim_start(s);
    lemma_trim_start_shape(s);
    lemma_trim_end_shape(t);
    let r = trim_end(t);
    if r.len() > 0 {
        assert(r.first() == t.subrange(0, r.len() as int)[0]);
    }
}

/// Trimming leaves a text alone that neither starts nor ends with whitespace.
pub proof fn lemma_tight_is_trimmed(s: Seq<char>)
    requires
        tight(s),
    ensures
        trimmed(s) == s,
{
    assert(s.subrange(0, s.len() as int) =~= s);
    lemma_trimmed_cuts(s, 0, s.len() as int);
}

/// A message wrapped in one matching pair of straight quotes, with any
/// whitespace around the pair, comes out without that pair and without the
/// whitespace around it and just inside it; quotes further in stay.
pub proof fn law_sanitize_strips_one_pair(
    lead: Seq<char>,
    quote: char,
    inner: Seq<char>,
    trail: Seq<char>,
)
    requires
        all_whitespace(lead),
        all_whitespace(trail),
        is_quote(quote),
    ensures
        sanitized(lead + seq![quote] + inner + seq![quote] + trail) == trimmed(inner),
        tight(inner) ==> sanitized(lead + seq![quote] + inner + seq![quote] + trail) == inner,
{
    let s = lead + seq![quote] + inner + seq![quote] + trail;
    let i = lead.len() as int;
    let j = i + inner.len() + 2;
    let core = seq![quote] + inner + seq![quote];
    assert(s.subrange(0, i) =~= lead);
    assert(s.subrange(j, s.len() as int) =~= trail);
    assert(s.subrange(i, j) =~= core);
    assert(core.first() == quote && core.last() == quote);
    assert(!whitespace(quote));
    lemma_trimmed_cuts(s, i, j);
    assert(quoted(core));
    assert(core.subrange(1, core.len() - 1) =~= inner);
    if tight(inner) {
        lemma_tight_is_trimmed(inner);
    }
}

/// A message that, once trimmed, is not wrapped in a matching pair of straight
/// quotes comes out trimmed and otherwise unchanged.
pub proof fn law_sanitize_keeps_unquoted(s: Seq<char>)
    requires
        !quoted(trimmed(s)),
    ensures
        sanitized(s) == trimmed(s),
{
    lemma_trimmed_is_tight(s);
    lemma_tight_is_trimmed(trimmed(s));
}

/// A cleaned message neither starts nor ends with whitespace.
pub proof fn law_sanitized_is_tight(s: Seq<char>)
    ensures
        tight(sanitized(s)),
{
    lemma_trimmed_is_tight(unquoted(trimmed(s)));
}

} // verus!
