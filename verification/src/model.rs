//! The sequence model that the contracts of the list are stated over.

use vstd::prelude::*;

verus! {

/// `index` is the lowest position of `s` that holds `value`.
pub open spec fn is_first_index(s: Seq<char>, value: char, index: int) -> bool {
    &&& 0 <= index < s.len()
    &&& s[index] == value
    &&& forall|j: int| 0 <= j < index ==> s[j] != value
}

/// `index` is the highest position of `s` that holds `value`.
pub open spec fn is_last_index(s: Seq<char>, value: char, index: int) -> bool {
    &&& 0 <= index < s.len()
    &&& s[index] == value
    &&& forall|j: int| index < j < s.len() ==> s[j] != value
}

/// The test that a character is another one than `value`.
pub open spec fn other_than(value: char) -> spec_fn(char) -> bool {
    |c: char| c != value
}

/// `s` with every occurrence of `value` left out and the other elements in
/// their order.
pub open spec fn without(s: Seq<char>, value: char) -> Seq<char> {
    s.filter(other_than(value))
}

} // verus!
