//! Texts as contracts see them, and the two questions about a text that are
//! put to the standard library.

use vstd::prelude::*;

verus! {

/// The texts that a sequence of strings holds, in order.
pub open spec fn texts(lines: Seq<String>) -> Seq<Seq<char>> {
    Seq::new(lines.len(), |i: int| lines[i]@)
}

/// Whether `needle` occurs in `haystack` as one unbroken run. The empty
/// text occurs in every text.
pub open spec fn occurs_in(needle: Seq<char>, haystack: Seq<char>) -> bool {
    exists|at: int|
        0 <= at <= haystack.len() - needle.len() && #[trigger] haystack.subrange(
            at,
            at + needle.len(),
        ) == needle
}

/// The empty text occurs in every text.
pub proof fn lemma_empty_occurs(needle: Seq<char>, haystack: Seq<char>)
    requires
        needle.len() == 0,
    ensures
        occurs_in(needle, haystack),
{
    assert(haystack.subrange(0, 0int + needle.len()) =~= needle);
}

/// `text` in lower case, as `str::to_lowercase` gives it.
pub uninterp spec fn lowercase(text: Seq<char>) -> Seq<char>;

/// Calls `str::to_lowercase`.
///
/// Trusted: that the outcome depends on the text alone, and that the empty
/// text stays empty. Nothing is claimed about which character becomes
/// which.
#[verifier::external_body]
pub(crate) fn to_lowercase(text: &str) -> (lowered: String)
    ensures
        lowered@ == lowercase(text@),
        text@.len() == 0 ==> lowered@.len() == 0,
{
    text.to_lowercase()
}

/// Calls `str::contains` with a text as the pattern.
///
/// Trusted: that it answers whether the pattern occurs in the text as one
/// unbroken run of characters.
#[verifier::external_body]
pub(crate) fn contains(haystack: &str, needle: &str) -> (found: bool)
    ensures
        found == occurs_in(needle@, haystack@),
{
    haystack.contains(needle)
}

} // verus!
