//! Choosing between two borrowed text views by length.
use vstd::prelude::*;
use vstd::string::StringSliceAdditionalSpecFns;
use vstd::utf8::encode_utf8;

verus! {

/// The number of elements of a text view: the length of its UTF-8 encoding,
/// which is what `str::len` reports.
pub open spec fn text_len(s: Seq<char>) -> nat {
    encode_utf8(s).len()
}

/// The view chosen out of two: the first when it is strictly longer, the
/// second otherwise, so that a tie goes to the second.
pub open spec fn longer_of(first: Seq<char>, second: Seq<char>) -> Seq<char> {
    if text_len(first) > text_len(second) {
        first
    } else {
        second
    }
}

/// Returns whichever of the two views is longer, preferring `second` on a tie.
/// The result borrows from both inputs, so it cannot outlive either of them.
/// Nothing is copied or allocated.
pub fn longest_name<'a>(first: &'a str, second: &'a str) -> (r: &'a str)
    ensures
        r@ == longer_of(first@, second@),
{
    if first.as_bytes().len() > second.as_bytes().len() {
        first
    } else {
        second
    }
}

/// When one view is strictly longer than the other, it is chosen whichever
/// position it is passed in.
pub proof fn lemma_longer_chosen_in_either_order(a: Seq<char>, b: Seq<char>)
    requires
        text_len(a) > text_len(b),
    ensures
        longer_of(a, b) == a,
        longer_of(b, a) == a,
{
}

/// When the two views have the same length, the second one is chosen.
pub proof fn lemma_tie_goes_to_second(a: Seq<char>, b: Seq<char>)
    requires
        text_len(a) == text_len(b),
    ensures
        longer_of(a, b) == b,
{
}

/// Two empty views give an empty view.
pub proof fn lemma_both_empty(a: Seq<char>, b: Seq<char>)
    requires
        a.len() == 0,
        b.len() == 0,
    ensures
        longer_of(a, b) == b,
        longer_of(a, b).len() == 0,
{
    assert(a =~= b);
}

} // verus!
