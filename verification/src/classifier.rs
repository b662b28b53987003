//! Deciding from an edit summary whether the edit reverted vandalism.
//!
//! A summary is first normalized: its structured comments (`/* ... */`, the
//! section names that the wiki puts into summaries) are taken out and its
//! ASCII capitals are folded. The verdict then rests on two fixed lists of
//! keywords, of which the list against vandalism has the last word.

use crate::matcher::Patterns;
use crate::text::{chars_of, contains, fold_case, has_part, lowered, string_of};
use vstd::prelude::*;

verus! {

/// Words that mark a revert of vandalism.
pub const VANDALISM_KEYWORDS: [&'static str; 8] = [
    "revert",
    "rv ",
    "long-term abuse",
    "long term abuse",
    "lta",
    "abuse",
    "rvv ",
    "undid",
];

/// Words that mark an edit as something other than a revert of vandalism.
pub const NOT_VANDALISM_KEYWORDS: [&'static str; 12] = [
    "uaa",
    "good faith",
    "agf",
    "unsourced",
    "unreferenced",
    "self",
    "speculat",
    "original research",
    "rv tag",
    "typo",
    "incorrect",
    "format",
];

/// The texts of a list of keywords.
pub open spec fn texts(keywords: Seq<&'static str>) -> Seq<Seq<char>> {
    Seq::new(keywords.len(), |k: int| keywords[k]@)
}

/// The texts of [`VANDALISM_KEYWORDS`].
pub open spec fn vandalism_keywords() -> Seq<Seq<char>> {
    texts(VANDALISM_KEYWORDS@)
}

/// The texts of [`NOT_VANDALISM_KEYWORDS`].
pub open spec fn not_vandalism_keywords() -> Seq<Seq<char>> {
    texts(NOT_VANDALISM_KEYWORDS@)
}

/// `text` holds at least one of `keywords`.
pub open spec fn contains_any(text: Seq<char>, keywords: Seq<Seq<char>>) -> bool {
    exists|k: int| 0 <= k < keywords.len() && contains(text, #[trigger] keywords[k])
}

/// The verdict on a normalized summary: a keyword against vandalism settles
/// it; failing that, a vandalism keyword is needed.
pub open spec fn is_revert(normalized: Seq<char>) -> bool {
    !contains_any(normalized, not_vandalism_keywords()) && contains_any(
        normalized,
        vandalism_keywords(),
    )
}

/// The normalized form of a raw summary: structured comments taken out, then
/// ASCII capitals folded to lower case.
pub open spec fn normalized(patterns: Patterns, raw: Seq<char>) -> Seq<char> {
    lowered(patterns.stripped(raw))
}

/// Tells whether `text` holds at least one of `keywords`.
pub fn holds_any(text: &[char], keywords: &[&'static str]) -> (r: bool)
    ensures
        r == contains_any(text@, texts(keywords@)),
{
    let mut k: usize = 0;
    while k < keywords.len()
        invariant
            k <= keywords.len(),
            forall|j: int| 0 <= j < k ==> !contains(text@, #[trigger] texts(keywords@)[j]),
        decreases keywords.len() - k,
    {
        let keyword = chars_of(keywords[k]);
        if has_part(text, keyword.as_slice()) {
            assert(contains(text@, texts(keywords@)[k as int]));
            return true;
        }
        k += 1;
    }
    false
}

/// Classifies a summary that is already normalized.
///
/// A keyword against vandalism makes the verdict `false` whatever else the
/// summary holds; without one, a vandalism keyword makes it `true`.
pub fn classify(normalized: &[char]) -> (r: bool)
    ensures
        r == is_revert(normalized@),
        contains_any(normalized@, not_vandalism_keywords()) ==> !r,
        !contains_any(normalized@, not_vandalism_keywords()) && contains_any(
            normalized@,
            vandalism_keywords(),
        ) ==> r,
{
    if holds_any(normalized, &NOT_VANDALISM_KEYWORDS) {
        return false;
    }
    holds_any(normalized, &VANDALISM_KEYWORDS)
}

/// Classifies a summary whose structured comments are already taken out.
pub fn classify_stripped(stripped: &str) -> (r: bool)
    ensures
        r == is_revert(lowered(stripped@)),
{
    let chars = chars_of(stripped);
    let folded = fold_case(chars.as_slice());
    classify(folded.as_slice())
}

/// Normalizes a raw edit summary.
pub fn normalize(patterns: &Patterns, raw: &str) -> (r: String)
    ensures
        r@ == normalized(*patterns, raw@),
{
    let stripped = patterns.strip_comments(raw);
    let chars = chars_of(stripped.as_str());
    let folded = fold_case(chars.as_slice());
    string_of(folded.as_slice())
}

/// Tells whether an edit summary describes a revert of vandalism.
///
/// The verdict is that of [`is_revert`] on the normalized summary. So a
/// keyword that stands only inside a structured comment has no say, and
/// capitals make no difference.
pub fn is_revert_of_vandalism(patterns: &Patterns, edit_summary: &str) -> (r: bool)
    ensures
        r == is_revert(normalized(*patterns, edit_summary@)),
        contains_any(normalized(*patterns, edit_summary@), not_vandalism_keywords()) ==> !r,
        !contains_any(normalized(*patterns, edit_summary@), not_vandalism_keywords())
            && contains_any(normalized(*patterns, edit_summary@), vandalism_keywords()) ==> r,
{
    let stripped = patterns.strip_comments(edit_summary);
    classify_stripped(stripped.as_str())
}

/// A normalized summary that holds any keyword against vandalism is not a
/// revert of vandalism, whatever vandalism keywords it holds besides.
pub proof fn lemma_keyword_against_wins(normalized: Seq<char>, k: int)
    requires
        0 <= k < not_vandalism_keywords().len(),
        contains(normalized, not_vandalism_keywords()[k]),
    ensures
        !is_revert(normalized),
{
}

/// A normalized summary that holds a vandalism keyword and no keyword against
/// vandalism is a revert of vandalism.
pub proof fn lemma_vandalism_keyword_decides(normalized: Seq<char>, k: int)
    requires
        0 <= k < vandalism_keywords().len(),
        contains(normalized, vandalism_keywords()[k]),
        !contains_any(normalized, not_vandalism_keywords()),
    ensures
        is_revert(normalized),
{
}

/// A normalized summary that holds no vandalism keyword is not a revert of
/// vandalism.
pub proof fn lemma_no_keyword_no_revert(normalized: Seq<char>)
    requires
        !contains_any(normalized, vandalism_keywords()),
    ensures
        !is_revert(normalized),
{
}

/// Every vandalism keyword is in lower case, so that folding a summary can
/// hide none of them.
pub proof fn lemma_vandalism_keywords_are_lower_case()
    ensures
        forall|k: int|
            0 <= k < vandalism_keywords().len() ==> lowered(#[trigger] vandalism_keywords()[k])
                == vandalism_keywords()[k],
{
    reveal_strlit("revert");
    reveal_strlit("rv ");
    reveal_strlit("long-term abuse");
    reveal_strlit("long term abuse");
    reveal_strlit("lta");
    reveal_strlit("abuse");
    reveal_strlit("rvv ");
    reveal_strlit("undid");
    assert(lowered(vandalism_keywords()[0]) =~= vandalism_keywords()[0]);
    assert(lowered(vandalism_keywords()[1]) =~= vandalism_keywords()[1]);
    assert(lowered(vandalism_keywords()[2]) =~= vandalism_keywords()[2]);
    assert(lowered(vandalism_keywords()[3]) =~= vandalism_keywords()[3]);
    assert(lowered(vandalism_keywords()[4]) =~= vandalism_keywords()[4]);
    assert(lowered(vandalism_keywords()[5]) =~= vandalism_keywords()[5]);
    assert(lowered(vandalism_keywords()[6]) =~= vandalism_keywords()[6]);
    assert(lowered(vandalism_keywords()[7]) =~= vandalism_keywords()[7]);
}

/// Every keyword against vandalism is in lower case, so that folding a
/// summary can hide none of them.
pub proof fn lemma_not_vandalism_keywords_are_lower_case()
    ensures
        forall|k: int|
            0 <= k < not_vandalism_keywords().len() ==> lowered(
                #[trigger] not_vandalism_keywords()[k],
            ) == not_vandalism_keywords()[k],
{
    reveal_strlit("uaa");
    reveal_strlit("good faith");
    reveal_strlit("agf");
    reveal_strlit("unsourced");
    reveal_strlit("unreferenced");
    reveal_strlit("self");
    reveal_strlit("speculat");
    reveal_strlit("original research");
    reveal_strlit("rv tag");
    reveal_strlit("typo");
    reveal_strlit("incorrect");
    reveal_strlit("format");
    assert(lowered(not_vandalism_keywords()[0]) =~= not_vandalism_keywords()[0]);
    assert(lowered(not_vandalism_keywords()[1]) =~= not_vandalism_keywords()[1]);
    assert(lowered(not_vandalism_keywords()[2]) =~= not_vandalism_keywords()[2]);
    assert(lowered(not_vandalism_keywords()[3]) =~= not_vandalism_keywords()[3]);
    assert(lowered(not_vandalism_keywords()[4]) =~= not_vandalism_keywords()[4]);
    assert(lowered(not_vandalism_keywords()[5]) =~= not_vandalism_keywords()[5]);
    assert(lowered(not_vandalism_keywords()[6]) =~= not_vandalism_keywords()[6]);
    assert(lowered(not_vandalism_keywords()[7]) =~= not_vandalism_keywords()[7]);
    assert(lowered(not_vandalism_keywords()[8]) =~= not_vandalism_keywords()[8]);
    assert(lowered(not_vandalism_keywords()[9]) =~= not_vandalism_keywords()[9]);
    assert(lowered(not_vandalism_keywords()[10]) =~= not_vandalism_keywords()[10]);
    assert(lowered(not_vandalism_keywords()[11]) =~= not_vandalism_keywords()[11]);
}

/// Capitals make no difference: two summaries that are the same but for the
/// case of their ASCII letters get the same verdict.
pub proof fn lemma_verdict_ignores_case(one: Seq<char>, other: Seq<char>)
    requires
        lowered(one) == lowered(other),
    ensures
        is_revert(lowered(one)) == is_revert(lowered(other)),
{
}

} // verus!
