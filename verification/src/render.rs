//! The text form of a list: its elements between square brackets, front to
//! back, each written the way `{:?}` writes a character.

use vstd::prelude::*;
use vstd::string::StringExecFns;

verus! {

/// The text that the standard library's `Debug` formatting gives for `c`.
pub uninterp spec fn char_debug_text(c: char) -> Seq<char>;

/// Calls `<char as core::fmt::Debug>::fmt` through `format!`. The contract
/// claims only that the text depends on the character alone; what the text
/// is, the quotes and the escapes, is left to the standard library.
#[verifier::external_body]
pub(crate) fn char_debug(c: char) -> (text: String)
    ensures
        text@ == char_debug_text(c),
{
    format!("{:?}", c)
}

/// The debug text of each element of `s`.
pub open spec fn debug_texts(s: Seq<char>) -> Seq<Seq<char>> {
    Seq::new(s.len(), |i: int| char_debug_text(s[i]))
}

/// The items one after the other with a comma and a blank between
/// neighbours.
pub open spec fn joined(items: Seq<Seq<char>>) -> Seq<char>
    decreases items.len(),
{
    if items.len() == 0 {
        Seq::empty()
    } else if items.len() == 1 {
        items[0]
    } else {
        joined(items.drop_last()) + seq![',', ' '] + items.last()
    }
}

/// The joined items between square brackets.
pub open spec fn bracketed(items: Seq<Seq<char>>) -> Seq<char> {
    seq!['['] + joined(items) + seq![']']
}

/// Writes `items` as a bracketed list: `[`, the items with `, ` between
/// them, `]`.
pub fn bracket(items: &Vec<String>) -> (text: String)
    ensures
        text@ == bracketed(items.deep_view()),
{
    let ghost texts = items.deep_view();
    let mut text = String::new();
    text.append("[");
    proof {
        reveal_strlit("[");
        reveal_strlit(", ");
        reveal_strlit("]");
    }
    let mut i: usize = 0;
    while i < items.len()
        invariant
            i <= items.len(),
            texts == items.deep_view(),
            texts.len() == items.len(),
            text@ == seq!['['] + joined(texts.take(i as int)),
            ", "@ == seq![',', ' '],
        decreases items.len() - i,
    {
        if i > 0 {
            text.append(", ");
        }
        text.append(items[i].as_str());
        proof {
            let before = texts.take(i as int);
            let now = texts.take(i + 1);
            assert(now.drop_last() =~= before);
        }
        i = i + 1;
    }
    text.append("]");
    proof {
        assert(texts.take(i as int) =~= texts);
    }
    text
}

} // verus!
