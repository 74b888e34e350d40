//! Facts about sequences of characters that the request contracts rest on.

use vstd::prelude::*;

verus! {

/// A list of string pairs, each string taken by its characters.
pub open spec fn pairs(list: Seq<(String, String)>) -> Seq<(Seq<char>, Seq<char>)> {
    Seq::new(list.len(), |i: int| (list[i].0@, list[i].1@))
}

/// The characters of an optional string.
pub open spec fn optional_text(value: Option<String>) -> Option<Seq<char>> {
    match value {
        Some(s) => Some(s@),
        None => None,
    }
}

/// `needle` occurs in `hay` as a contiguous run of characters.
pub open spec fn contains(hay: Seq<char>, needle: Seq<char>) -> bool {
    exists|at: int|
        0 <= at && at + needle.len() <= hay.len() && #[trigger] hay.subrange(
            at,
            at + needle.len(),
        ) == needle
}

/// A text that is written as `before + needle + after` contains `needle`.
pub proof fn lemma_contains_middle(before: Seq<char>, needle: Seq<char>, after: Seq<char>)
    ensures
        contains(before + needle + after, needle),
{
    let hay = before + needle + after;
    let at = before.len() as int;
    assert(hay.subrange(at, at + needle.len()) =~= needle);
}

/// Containment carries over to a longer text that has `hay` inside.
pub proof fn lemma_contains_widen(
    before: Seq<char>,
    hay: Seq<char>,
    after: Seq<char>,
    needle: Seq<char>,
)
    requires
        contains(hay, needle),
    ensures
        contains(before + hay + after, needle),
{
    let at = choose|at: int|
        0 <= at && at + needle.len() <= hay.len() && #[trigger] hay.subrange(
            at,
            at + needle.len(),
        ) == needle;
    let wide = before + hay + after;
    let shifted = before.len() + at;
    assert(wide.subrange(shifted, shifted + needle.len()) =~= hay.subrange(
        at,
        at + needle.len(),
    ));
}

} // verus!
