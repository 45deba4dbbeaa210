//! The list container.
//!
//! A [`List`] stands for a sequence of characters, its view. Every operation
//! says how it changes or reads that sequence. The chain of nodes behind it is
//! kept consistent by the type itself, so no operation asks its caller for
//! anything about the state of the list.

use crate::chain::Chain;
use crate::laws::{without_absent, without_has_none};
use crate::model::{is_first_index, is_last_index, without};
use crate::render::{bracket, bracketed, char_debug, char_debug_text, debug_texts};
use vstd::prelude::*;

verus! {

/// The text of the one error: an index outside the range of the operation.
pub const OUT_OF_BOUNDS: &'static str = "Index out of bounds";

/// A doubly linked list of characters.
///
/// The list owns its nodes: two lists never share one, and a copy made by
/// `clone` has nodes of its own.
pub struct List {
    chain: Chain,
}

impl View for List {
    type V = Seq<char>;

    /// The characters of the list, front to back.
    closed spec fn view(&self) -> Seq<char> {
        self.chain@
    }
}

impl List {
    /// What holds of every list between any two operations: its chain is
    /// well formed.
    #[verifier::type_invariant]
    spec fn consistent(self) -> bool {
        self.chain.wf()
    }

    /// Moves the chain out to be worked on and leaves an empty one in its
    /// place until the result is put back.
    fn take_chain(&mut self) -> (chain: Chain)
        ensures
            chain.wf(),
            chain@ == old(self)@,
    {
        proof {
            use_type_invariant(&*self);
        }
        let mut chain = Chain::new();
        std::mem::swap(&mut chain, &mut self.chain);
        chain
    }

    /// Creates an empty list.
    pub fn new() -> (list: Self)
        ensures
            list@ == Seq::<char>::empty(),
    {
        List { chain: Chain::new() }
    }

    /// Returns the length of the list.
    pub fn length(&self) -> (n: usize)
        ensures
            n == self@.len(),
    {
        proof {
            use_type_invariant(self);
        }
        self.chain.len()
    }

    /// Appends `elem` to the back of the list.
    pub fn append(&mut self, elem: char)
        ensures
            final(self)@ == old(self)@.push(elem),
            final(self)@.len() == old(self)@.len() + 1,
    {
        let mut chain = self.take_chain();
        chain.push_back(elem);
        self.chain = chain;
    }

    /// Inserts `elem` so that it becomes the element at position `index`.
    /// The elements from `index` on move one place towards the back.
    ///
    /// Fails, and leaves the list as it is, if `index` is greater than the
    /// length.
    pub fn insert(&mut self, elem: char, index: usize) -> (res: Result<(), String>)
        ensures
            match res {
                Ok(_) => {
                    &&& index <= old(self)@.len()
                    &&& final(self)@ == old(self)@.insert(index as int, elem)
                    &&& final(self)@.len() == old(self)@.len() + 1
                },
                Err(message) => {
                    &&& index > old(self)@.len()
                    &&& final(self)@ == old(self)@
                    &&& message@ == OUT_OF_BOUNDS@
                },
            },
    {
        if index > self.length() {
            return Err(OUT_OF_BOUNDS.to_owned());
        }
        let mut chain = self.take_chain();
        chain.insert_at(elem, index);
        self.chain = chain;
        Ok(())
    }

    /// Removes the element at position `index` and returns it. The elements
    /// behind it move one place towards the front.
    ///
    /// Fails, and leaves the list as it is, if `index` is not less than the
    /// length.
    pub fn delete(&mut self, index: usize) -> (res: Result<char, String>)
        ensures
            match res {
                Ok(elem) => {
                    &&& index < old(self)@.len()
                    &&& elem == old(self)@[index as int]
                    &&& final(self)@ == old(self)@.remove(index as int)
                    &&& final(self)@.len() == old(self)@.len() - 1
                },
                Err(message) => {
                    &&& index >= old(self)@.len()
                    &&& final(self)@ == old(self)@
                    &&& message@ == OUT_OF_BOUNDS@
                },
            },
    {
        if index >= self.length() {
            return Err(OUT_OF_BOUNDS.to_owned());
        }
        let mut chain = self.take_chain();
        let elem = chain.remove_at(index);
        self.chain = chain;
        Ok(elem)
    }

    /// Deletes every occurrence of `elem`. The other elements keep their
    /// order; a list without `elem` stays as it is.
    pub fn delete_all(&mut self, elem: char)
        ensures
            final(self)@ == without(old(self)@, elem),
            !final(self)@.contains(elem),
            !old(self)@.contains(elem) ==> final(self)@ == old(self)@,
    {
        let mut chain = self.take_chain();
        chain.remove_all(elem);
        self.chain = chain;
        proof {
            without_has_none(old(self)@, elem);
            if !old(self)@.contains(elem) {
                without_absent(old(self)@, elem);
            }
        }
    }

    /// Returns the element at position `index`.
    ///
    /// Fails if `index` is not less than the length.
    pub fn get(&self, index: usize) -> (res: Result<char, String>)
        ensures
            match res {
                Ok(elem) => index < self@.len() && elem == self@[index as int],
                Err(message) => index >= self@.len() && message@ == OUT_OF_BOUNDS@,
            },
    {
        proof {
            use_type_invariant(self);
        }
        if index >= self.chain.len() {
            return Err(OUT_OF_BOUNDS.to_owned());
        }
        Ok(self.chain.value_at(index))
    }

    /// Reverses the order of the elements.
    pub fn reverse(&mut self)
        ensures
            final(self)@ == old(self)@.reverse(),
    {
        let mut chain = self.take_chain();
        chain.reverse();
        self.chain = chain;
    }

    /// The position of the first occurrence of `elem`, or `None` if there is
    /// none.
    pub fn position_first(&self, elem: char) -> (found: Option<usize>)
        ensures
            match found {
                Some(index) => is_first_index(self@, elem, index as int),
                None => !self@.contains(elem),
            },
    {
        proof {
            use_type_invariant(self);
        }
        self.chain.position_first(elem)
    }

    /// The position of the last occurrence of `elem`, or `None` if there is
    /// none.
    pub fn position_last(&self, elem: char) -> (found: Option<usize>)
        ensures
            match found {
                Some(index) => is_last_index(self@, elem, index as int),
                None => !self@.contains(elem),
            },
    {
        proof {
            use_type_invariant(self);
        }
        self.chain.position_last(elem)
    }

    /// Returns the position of the first occurrence of `elem` in the list,
    /// or `-1` if there is none.
    ///
    /// The positions of the list have to fit the result type.
    pub fn find_first(&self, elem: char) -> (found: i64)
        requires
            self@.len() <= i64::MAX,
        ensures
            found == -1 <==> !self@.contains(elem),
            found != -1 ==> is_first_index(self@, elem, found as int),
    {
        match self.position_first(elem) {
            Some(index) => index as i64,
            None => -1,
        }
    }

    /// Returns the position of the last occurrence of `elem` in the list,
    /// or `-1` if there is none.
    ///
    /// The positions of the list have to fit the result type.
    pub fn find_last(&self, elem: char) -> (found: i64)
        requires
            self@.len() <= i64::MAX,
        ensures
            found == -1 <==> !self@.contains(elem),
            found != -1 ==> is_last_index(self@, elem, found as int),
    {
        match self.position_last(elem) {
            Some(index) => index as i64,
            None => -1,
        }
    }

    /// Removes all elements from the list.
    pub fn clear(&mut self)
        ensures
            final(self)@ == Seq::<char>::empty(),
            final(self)@.len() == 0,
    {
        let mut chain = self.take_chain();
        chain.clear();
        self.chain = chain;
    }

    /// Copies all elements of `other`, in order, to the end of the list.
    pub fn extend(&mut self, other: &List)
        ensures
            final(self)@ == old(self)@ + other@,
            final(self)@.len() == old(self)@.len() + other@.len(),
    {
        proof {
            use_type_invariant(other);
        }
        let mut chain = self.take_chain();
        chain.append_all(&other.chain);
        self.chain = chain;
    }

    /// The elements of the list, front to back.
    pub fn to_vec(&self) -> (elems: Vec<char>)
        ensures
            elems@ == self@,
    {
        proof {
            use_type_invariant(self);
        }
        self.chain.to_vec()
    }

    /// The list as text for diagnostics: the elements between square
    /// brackets, front to back, each as `{:?}` writes it.
    pub fn render(&self) -> (text: String)
        ensures
            text@ == bracketed(debug_texts(self@)),
    {
        let elems = self.to_vec();
        let mut items: Vec<String> = Vec::new();
        let mut i: usize = 0;
        while i < elems.len()
            invariant
                elems@ == self@,
                i <= elems.len(),
                items@.len() == i,
                forall|j: int| 0 <= j < i ==> (#[trigger] items@[j])@ == char_debug_text(self@[j]),
            decreases elems.len() - i,
        {
            items.push(char_debug(elems[i]));
            i = i + 1;
        }
        assert(items.deep_view() =~= debug_texts(self@));
        bracket(&items)
    }
}

impl Clone for List {
    /// Returns a copy of the list that shares nothing with it.
    fn clone(&self) -> (copy: Self)
        ensures
            copy@ == self@,
    {
        proof {
            use_type_invariant(self);
        }
        let mut chain = Chain::new();
        chain.append_all(&self.chain);
        List { chain }
    }
}

} // verus!
