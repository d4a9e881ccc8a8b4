//! Text helpers: whitespace, trimming and lossy decoding of command output.

use vstd::prelude::*;

verus! {

/// The characters that count as whitespace: the code points that carry the
/// Unicode `White_Space` property.
pub open spec fn whitespace(c: char) -> bool {
    let n = c as u32;
    ||| 0x09 <= n <= 0x0D
    ||| n == 0x20
    ||| n == 0x85
    ||| n == 0xA0
    ||| n == 0x1680
    ||| 0x2000 <= n <= 0x200A
    ||| n == 0x2028
    ||| n == 0x2029
    ||| n == 0x202F
    ||| n == 0x205F
    ||| n == 0x3000
}

/// Tells whether `c` is whitespace.
pub fn is_whitespace(c: char) -> (b: bool)
    ensures
        b == whitespace(c),
{
    let n: u32 = c as u32;
    (0x09 <= n && n <= 0x0D) || n == 0x20 || n == 0x85 || n == 0xA0 || n == 0x1680 || (0x2000 <= n
        && n <= 0x200A) || n == 0x2028 || n == 0x2029 || n == 0x202F || n == 0x205F || n == 0x3000
}

/// `s` without its leading whitespace.
pub open spec fn trim_start(s: Seq<char>) -> Seq<char>
    decreases s.len(),
{
    if s.len() > 0 && whitespace(s.first()) {
        trim_start(s.drop_first())
    } else {
        s
    }
}

/// `s` without its trailing whitespace.
pub open spec fn trim_end(s: Seq<char>) -> Seq<char>
    decreases s.len(),
{
    if s.len() > 0 && whitespace(s.last()) {
        trim_end(s.drop_last())
    } else {
        s
    }
}

/// `s` without its leading and trailing whitespace.
pub open spec fn trimmed(s: Seq<char>) -> Seq<char> {
    trim_end(trim_start(s))
}

/// Every character of `s` is whitespace.
pub open spec fn all_whitespace(s: Seq<char>) -> bool {
    forall|i: int| 0 <= i < s.len() ==> whitespace(#[trigger] s[i])
}

/// `s` neither starts nor ends with whitespace.
pub open spec fn tight(s: Seq<char>) -> bool {
    s.len() > 0 ==> !whitespace(s.first()) && !whitespace(s.last())
}

/// Leading whitespace followed by text that starts with none is cut off whole.
pub proof fn lemma_trim_start_cuts(s: Seq<char>, i: int)
    requires
        0 <= i <= s.len(),
        all_whitespace(s.subrange(0, i)),
        i < s.len() ==> !whitespace(s[i]),
    ensures
        trim_start(s) == s.subrange(i, s.len() as int),
    decreases i,
{
    if i == 0 {
        assert(s.subrange(0, s.len() as int) =~= s);
    } else {
        assert(s.subrange(0, i)[0] == s[0]);
        let rest = s.drop_first();
        assert forall|k: int| 0 <= k < i - 1 implies whitespace(#[trigger] rest.subrange(0, i - 1)[k]) by {
            assert(rest.subrange(0, i - 1)[k] == s.subrange(0, i)[k + 1]);
        }
        lemma_trim_start_cuts(rest, i - 1);
        assert(rest.subrange(i - 1, rest.len() as int) =~= s.subrange(i, s.len() as int));
    }
}

/// Trailing whitespace preceded by text that ends with none is cut off whole.
pub proof fn lemma_trim_end_cuts(s: Seq<char>, j: int)
    requires
        0 <= j <= s.len(),
        all_whitespace(s.subrange(j, s.len() as int)),
        j > 0 ==> !whitespace(s[j - 1]),
    ensures
        trim_end(s) == s.subrange(0, j),
    decreases s.len() - j,
{
    if j == s.len() {
        assert(s.subrange(0, j) =~= s);
    } else {
        assert(s.subrange(j, s.len() as int)[s.len() - j - 1] == s.last());
        let rest = s.drop_last();
        assert forall|k: int| 0 <= k < rest.len() - j implies whitespace(
            #[trigger] rest.subrange(j, rest.len() as int)[k],
        ) by {
            assert(rest.subrange(j, rest.len() as int)[k] == s.subrange(j, s.len() as int)[k]);
        }
        lemma_trim_end_cuts(rest, j);
        assert(rest.subrange(0, j) =~= s.subrange(0, j));
    }
}

/// Trimming keeps exactly the stretch between the first and the last
/// character that is not whitespace.
pub proof fn lemma_trimmed_cuts(s: Seq<char>, i: int, j: int)
    requires
        0 <= i <= j <= s.len(),
        all_whitespace(s.subrange(0, i)),
        all_whitespace(s.subrange(j, s.len() as int)),
        tight(s.subrange(i, j)),
    ensures
        trimmed(s) == s.subrange(i, j),
{
    let mid = s.subrange(i, j);
    if i < j {
        assert(mid.first() == s[i]);
        assert(mid.last() == s[j - 1]);
        lemma_trim_start_cuts(s, i);
        let t = s.subrange(i, s.len() as int);
        assert(t.subrange(j - i, t.len() as int) =~= s.subrange(j, s.len() as int));
        assert(t[j - i - 1] == s[j - 1]);
        lemma_trim_end_cuts(t, j - i);
        assert(t.subrange(0, j - i) =~= mid);
    } else {
        // nothing but whitespace
        assert forall|k: int| 0 <= k < s.len() implies whitespace(#[trigger] s[k]) by {
            if k < i {
                assert(s.subrange(0, i)[k] == s[k]);
            } else {
                assert(s.subrange(j, s.len() as int)[k - j] == s[k]);
            }
        }
        assert(s.subrange(0, s.len() as int) =~= s);
        lemma_trim_start_cuts(s, s.len() as int);
        assert(s.subrange(s.len() as int, s.len() as int) =~= Seq::<char>::empty());
        assert(mid =~= Seq::<char>::empty());
    }
}

/// `text` without its leading and trailing whitespace.
pub fn trim(text: &str) -> (out: &str)
    ensures
        out@ == trimmed(text@),
{
    let len = text.unicode_len();
    let mut start: usize = 0;
    while start < len && is_whitespace(text.get_char(start))
        invariant
            start <= len,
            len == text@.len(),
            all_whitespace(text@.subrange(0, start as int)),
        decreases len - start,
    {
        proof {
            let grown = text@.subrange(0, start + 1);
            assert forall|k: int| 0 <= k < grown.len() implies whitespace(#[trigger] grown[k]) by {
                if k < start {
                    assert(grown[k] == text@.subrange(0, start as int)[k]);
                }
            }
        }
        start += 1;
    }
    let mut end: usize = len;
    while end > start && is_whitespace(text.get_char(end - 1))
        invariant
            start <= end <= len,
            len == text@.len(),
            all_whitespace(text@.subrange(end as int, len as int)),
        decreases end,
    {
        proof {
            let grown = text@.subrange(end - 1, len as int);
            assert forall|k: int| 0 <= k < grown.len() implies whitespace(#[trigger] grown[k]) by {
                if k > 0 {
                    assert(grown[k] == text@.subrange(end as int, len as int)[k - 1]);
                }
            }
        }
        end -= 1;
    }
    proof {
        let mid = text@.subrange(start as int, end as int);
        if start < end {
            assert(mid.first() == text@[start as int]);
            assert(mid.last() == text@[end - 1]);
        } else if start < len {
            assert(text@.subrange(end as int, len as int)[0] == text@[start as int]);
        }
        if start == end && start < len {
            // the first loop stopped at a character that the second calls whitespace
            assert(false);
        }
        lemma_trimmed_cuts(text@, start as int, end as int);
    }
    text.substring_char(start, end)
}

/// The text that lossy decoding makes of `bytes`: the characters that the
/// bytes encode, with U+FFFD in place of whatever is not valid UTF-8.
pub uninterp spec fn lossy_utf8(bytes: Seq<u8>) -> Seq<char>;

/// Decodes command output with `String::from_utf8_lossy`.
///
/// Not proved: that the result is a function of the bytes alone, named
/// `lossy_utf8`, and that bytes which are valid UTF-8 decode to the
/// characters they encode.
#[verifier::external_body]
pub(crate) fn decode_lossy(bytes: &[u8]) -> (text: String)
    ensures
        text@ == lossy_utf8(bytes@),
        vstd::utf8::valid_utf8(bytes@) ==> text@ == vstd::utf8::decode_utf8(bytes@),
{
    String::from_utf8_lossy(bytes).into_owned()
}

/// `prefix` followed by `detail`.
pub fn prefixed(prefix: &str, detail: &str) -> (out: String)
    ensures
        out@ == prefix@ + detail@,
{
    let mut out = String::from_str(prefix);
    out.append(detail);
    out
}

} // verus!
