//! The summary of pending changes that is sent to the remote service.

use crate::text::{decode_lossy, lossy_utf8};
use vstd::prelude::*;
use vstd::utf8::{
    decode_utf8, encode_scalar, encode_utf8, encode_utf8_first_scalar, encode_utf8_valid_utf8,
    is_char_boundary, pop_first_scalar, valid_utf8,
};

verus! {

/// The largest number of characters of a detailed diff that is forwarded.
pub const DIFF_BUDGET: usize = 10000;

/// The part of a detailed diff that is forwarded: all of it where it fits the
/// budget, else its first `DIFF_BUDGET` characters.
pub open spec fn truncated(body: Seq<char>) -> Seq<char> {
    if body.len() > DIFF_BUDGET {
        body.subrange(0, DIFF_BUDGET as int)
    } else {
        body
    }
}

/// The text forwarded for a short summary `stat` and a detailed diff `body`.
pub open spec fn forwarded(stat: Seq<char>, body: Seq<char>) -> Seq<char> {
    stat + "\n\n"@ + truncated(body)
}

/// The mathematical value of a [`DiffSummary`].
pub struct SummaryView {
    /// The short summary, whole.
    pub stat: Seq<char>,
    /// The detailed diff, cut to the budget.
    pub body: Seq<char>,
}

/// A short summary of the staged changes and their detailed diff, the latter
/// never longer than [`DIFF_BUDGET`] characters.
#[derive(Debug, PartialEq, Eq)]
pub struct DiffSummary {
    stat: String,
    body: String,
}

impl View for DiffSummary {
    type V = SummaryView;

    closed spec fn view(&self) -> SummaryView {
        SummaryView { stat: self.stat@, body: self.body@ }
    }
}

impl Clone for DiffSummary {
    fn clone(&self) -> (copy: DiffSummary)
        ensures
            copy@ == self@,
    {
        proof {
            use_type_invariant(self);
        }
        DiffSummary { stat: self.stat.clone(), body: self.body.clone() }
    }
}

impl DiffSummary {
    #[verifier::type_invariant]
    spec fn within_budget(&self) -> bool {
        self.body@.len() <= DIFF_BUDGET
    }

    /// Summarises a short summary and a detailed diff given as text. The cut,
    /// where there is one, falls between two characters.
    pub fn new(stat: &str, body: &str) -> (summary: DiffSummary)
        ensures
            summary@.stat == stat@,
            summary@.body == truncated(body@),
            body@.len() > DIFF_BUDGET ==> summary@.body == body@.subrange(0, DIFF_BUDGET as int),
            body@.len() <= DIFF_BUDGET ==> summary@.body == body@,
    {
        let kept = if body.unicode_len() > DIFF_BUDGET {
            body.substring_char(0, DIFF_BUDGET)
        } else {
            body
        };
        DiffSummary { stat: String::from_str(stat), body: String::from_str(kept) }
    }

    /// Summarises the raw output of the two diff commands.
    pub fn from_output(stat: &[u8], body: &[u8]) -> (summary: DiffSummary)
        ensures
            summary@.stat == lossy_utf8(stat@),
            summary@.body == truncated(lossy_utf8(body@)),
            valid_utf8(stat@) ==> summary@.stat == decode_utf8(stat@),
            valid_utf8(body@) ==> summary@.body == truncated(decode_utf8(body@)),
    {
        let stat_text = decode_lossy(stat);
        let body_text = decode_lossy(body);
        DiffSummary::new(stat_text.as_str(), body_text.as_str())
    }

    /// The short summary.
    pub fn stat(&self) -> (stat: &str)
        ensures
            stat@ == self@.stat,
    {
        self.stat.as_str()
    }

    /// The detailed diff, as far as it is forwarded.
    pub fn body(&self) -> (body: &str)
        ensures
            body@ == self@.body,
            body@.len() <= DIFF_BUDGET,
    {
        proof {
            use_type_invariant(self);
        }
        self.body.as_str()
    }

    /// The text that is forwarded: the short summary, an empty line, and the
    /// detailed diff as far as it is kept.
    pub fn text(&self) -> (text: String)
        ensures
            text@ == self@.stat + "\n\n"@ + self@.body,
            text@.len() <= self@.stat.len() + "\n\n"@.len() + DIFF_BUDGET,
    {
        proof {
            use_type_invariant(self);
        }
        let mut text = self.stat.clone();
        text.append("\n\n");
        text.append(self.body.as_str());
        text
    }
}

/// The start of a text, encoded, is the start of the encoded text, and ends
/// on a character boundary of it.
pub proof fn lemma_prefix_ends_on_boundary(chars: Seq<char>, n: int)
    requires
        0 <= n <= chars.len(),
    ensures
        encode_utf8(chars.subrange(0, n)).len() <= encode_utf8(chars).len(),
        encode_utf8(chars.subrange(0, n)) == encode_utf8(chars).subrange(
            0,
            encode_utf8(chars.subrange(0, n)).len() as int,
        ),
        is_char_boundary(encode_utf8(chars), encode_utf8(chars.subrange(0, n)).len() as int),
    decreases n,
{
    let bytes = encode_utf8(chars);
    encode_utf8_valid_utf8(chars);
    if n == 0 {
        assert(chars.subrange(0, 0) =~= Seq::<char>::empty());
        assert(bytes.subrange(0, 0) =~= Seq::<u8>::empty());
    } else {
        let head = encode_scalar(chars[0] as u32);
        let rest = chars.drop_first();
        let prefix = chars.subrange(0, n);
        assert(prefix.drop_first() =~= rest.subrange(0, n - 1));
        lemma_prefix_ends_on_boundary(rest, n - 1);
        let kept = encode_utf8(rest.subrange(0, n - 1));
        let k = kept.len() as int;
        assert(encode_utf8(prefix) =~= head + kept);
        assert(head + kept =~= bytes.subrange(0, head.len() + k));
        encode_utf8_first_scalar(chars);
        assert(pop_first_scalar(bytes) =~= encode_utf8(rest));
    }
}

/// Of a diff that is longer than the budget, what is forwarded is the short
/// summary, an empty line, and the first `DIFF_BUDGET` characters of the
/// diff. The cut never falls inside the encoding of a character: the bytes of
/// what is kept are the first bytes of the diff, up to a character boundary.
pub proof fn law_long_diff_is_cut_between_characters(stat: Seq<char>, body: Seq<char>)
    requires
        body.len() > DIFF_BUDGET,
    ensures
        forwarded(stat, body) == stat + "\n\n"@ + body.subrange(0, DIFF_BUDGET as int),
        truncated(body).len() == DIFF_BUDGET,
        encode_utf8(truncated(body)) == encode_utf8(body).subrange(
            0,
            encode_utf8(truncated(body)).len() as int,
        ),
        is_char_boundary(encode_utf8(body), encode_utf8(truncated(body)).len() as int),
{
    lemma_prefix_ends_on_boundary(body, DIFF_BUDGET as int);
}

/// A diff within the budget is forwarded whole.
pub proof fn law_short_diff_is_forwarded_whole(stat: Seq<char>, body: Seq<char>)
    requires
        body.len() <= DIFF_BUDGET,
    ensures
        forwarded(stat, body) == stat + "\n\n"@ + body,
{
}

} // verus!
