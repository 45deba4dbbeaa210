//! What holds between the operations of a list, proved over the sequences
//! that their contracts speak of.
//!
//! In each statement `s` is the view of a list before the operations that the
//! statement names; `insert`, `remove`, `push`, `reverse` and `+` are what
//! `List::insert`, `List::delete`, `List::append`, `List::reverse` and
//! `List::extend` do to that view, and `s[i]` is what `List::get` reads.

use crate::model::{is_first_index, is_last_index, other_than, without};
use vstd::prelude::*;

verus! {

/// After `elem` has been inserted at a valid `index`, the list is one longer
/// and reading `index` gives `elem`.
pub proof fn insert_then_get(s: Seq<char>, elem: char, index: int)
    requires
        0 <= index <= s.len(),
    ensures
        s.insert(index, elem).len() == s.len() + 1,
        s.insert(index, elem)[index] == elem,
{
}

/// An insert leaves the elements before `index` where they were and moves
/// those from `index` on by one place.
pub proof fn insert_keeps_others(s: Seq<char>, elem: char, index: int, i: int)
    requires
        0 <= index <= s.len(),
        0 <= i < s.len(),
    ensures
        i < index ==> s.insert(index, elem)[i] == s[i],
        i >= index ==> s.insert(index, elem)[i + 1] == s[i],
{
}

/// Deleting the element at `index` and inserting it again at `index` gives
/// the list back.
pub proof fn delete_then_insert(s: Seq<char>, index: int)
    requires
        0 <= index < s.len(),
    ensures
        s.remove(index).insert(index, s[index]) == s,
{
}

/// Inserting at `index` and deleting at `index` gives the list back.
pub proof fn insert_then_delete(s: Seq<char>, elem: char, index: int)
    requires
        0 <= index <= s.len(),
    ensures
        s.insert(index, elem).remove(index) == s,
{
}

/// Inserting at the position one past the last element is appending.
pub proof fn insert_at_length_is_append(s: Seq<char>, elem: char)
    ensures
        s.insert(s.len() as int, elem) == s.push(elem),
{
}

/// A delete makes the list one shorter, leaves the elements before `index`
/// where they were and moves those behind it by one place.
pub proof fn delete_keeps_others(s: Seq<char>, index: int, i: int)
    requires
        0 <= index < s.len(),
        0 <= i < s.len() - 1,
    ensures
        s.remove(index).len() == s.len() - 1,
        i < index ==> s.remove(index)[i] == s[i],
        i >= index ==> s.remove(index)[i] == s[i + 1],
{
}

/// Reversing puts the element of position `i` at the position that is as far
/// from the back as `i` is from the front.
pub proof fn reverse_mirrors(s: Seq<char>, i: int)
    requires
        0 <= i < s.len(),
    ensures
        s.reverse().len() == s.len(),
        s.reverse()[i] == s[s.len() - 1 - i],
{
}

/// Reversing twice gives the list back.
pub proof fn reverse_twice(s: Seq<char>)
    ensures
        s.reverse().reverse() == s,
{
}

/// No two positions are both the first occurrence, and where there is one
/// the element occurs.
pub proof fn first_index_is_unique(s: Seq<char>, elem: char, i: int, j: int)
    requires
        is_first_index(s, elem, i),
        is_first_index(s, elem, j),
    ensures
        i == j,
        s.contains(elem),
{
}

/// No two positions are both the last occurrence, and where there is one
/// the element occurs.
pub proof fn last_index_is_unique(s: Seq<char>, elem: char, i: int, j: int)
    requires
        is_last_index(s, elem, i),
        is_last_index(s, elem, j),
    ensures
        i == j,
        s.contains(elem),
{
}

/// Searching from the back is searching from the front in the reversed
/// list.
pub proof fn last_is_first_of_reverse(s: Seq<char>, elem: char, index: int)
    ensures
        is_last_index(s, elem, index) <==> is_first_index(
            s.reverse(),
            elem,
            s.len() - 1 - index,
        ),
{
    let r = s.reverse();
    let mirrored = s.len() - 1 - index;
    if is_first_index(r, elem, mirrored) {
        assert forall|j: int| index < j < s.len() implies s[j] != elem by {
            assert(r[s.len() - 1 - j] == s[j]);
        }
    }
}

/// Nothing equal to `elem` is left once all of its occurrences are deleted.
pub proof fn without_has_none(s: Seq<char>, elem: char)
    ensures
        !without(s, elem).contains(elem),
{
    if without(s, elem).contains(elem) {
        let i = choose|i: int| 0 <= i < without(s, elem).len() && without(s, elem)[i] == elem;
        s.lemma_filter_pred(other_than(elem), i);
    }
}

/// Every other element is still there.
pub proof fn without_keeps_others(s: Seq<char>, elem: char, other: char)
    requires
        other != elem,
    ensures
        without(s, elem).contains(other) <==> s.contains(other),
{
    if without(s, elem).contains(other) {
        s.lemma_filter_contains_rev(other_than(elem), other);
    }
    if s.contains(other) {
        let i = choose|i: int| 0 <= i < s.len() && s[i] == other;
        s.lemma_filter_contains(other_than(elem), i);
    }
}

/// Deleting all occurrences of an element that does not occur changes
/// nothing.
pub proof fn without_absent(s: Seq<char>, elem: char)
    requires
        !s.contains(elem),
    ensures
        without(s, elem) == s,
    decreases s.len(),
{
    reveal(Seq::filter);
    if s.len() > 0 {
        without_absent(s.drop_last(), elem);
    }
}

/// Deleting all occurrences goes part by part, so what stays keeps its
/// order.
pub proof fn without_concat(a: Seq<char>, b: Seq<char>, elem: char)
    ensures
        without(a + b, elem) == without(a, elem) + without(b, elem),
{
    Seq::filter_distributes_over_add(a, b, other_than(elem));
}

/// Of one element, deleting all occurrences of `elem` keeps it exactly if it
/// is not `elem`.
pub proof fn without_single(c: char, elem: char)
    ensures
        without(seq![c], elem) == (if c == elem {
            Seq::<char>::empty()
        } else {
            seq![c]
        }),
{
    reveal(Seq::filter);
    let one = seq![c];
    assert(one.drop_last().filter(other_than(elem)) =~= Seq::<char>::empty());
}

/// Extending puts the elements of the other list, in their order, behind
/// those that were there.
pub proof fn extend_places(a: Seq<char>, b: Seq<char>, i: int)
    requires
        0 <= i < a.len() + b.len(),
    ensures
        (a + b).len() == a.len() + b.len(),
        i < a.len() ==> (a + b)[i] == a[i],
        i >= a.len() ==> (a + b)[i] == b[i - a.len()],
{
}

} // verus!
