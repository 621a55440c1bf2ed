//! Text, character by character.

use vstd::prelude::*;
use vstd::string::*;

verus! {

/// Whether two texts are the same.
pub fn same_text(left: &str, right: &str) -> (same: bool)
    ensures
        same == (left@ == right@),
{
    let length = left.unicode_len();
    if length != right.unicode_len() {
        return false;
    }
    let mut lefts = left.chars();
    let mut rights = right.chars();
    let mut seen: usize = 0;
    while seen < length
        invariant
            seen <= length,
            left@.len() == length,
            right@.len() == length,
            vstd::std_specs::iter::IteratorSpec::remaining(&lefts) == left@.skip(seen as int),
            vstd::std_specs::iter::IteratorSpec::remaining(&rights) == right@.skip(seen as int),
            left@.take(seen as int) == right@.take(seen as int),
        decreases length - seen,
    {
        if lefts.next() != rights.next() {
            return false;
        }
        assert(left@.skip(seen as int).drop_first() =~= left@.skip(seen + 1));
        assert(right@.skip(seen as int).drop_first() =~= right@.skip(seen + 1));
        assert(left@.take(seen + 1) =~= left@.take(seen as int).push(left@[seen as int]));
        assert(right@.take(seen + 1) =~= right@.take(seen as int).push(right@[seen as int]));
        seen = seen + 1;
    }
    assert(left@.take(length as int) =~= left@);
    assert(right@.take(length as int) =~= right@);
    true
}

} // verus!
