//! The node chain behind a list: an arena of nodes that name their neighbours
//! by slot number.
//!
//! Every slot of the arena holds exactly one node of the chain, so the arena
//! is as long as the list and nothing in it is ever unreachable. Two ghost
//! sequences record which slot holds the element at each position and, the
//! other way round, the position of the element that each slot holds.

use crate::model::{is_first_index, is_last_index, other_than, without};
use vstd::prelude::*;

verus! {

/// One element of a list with the slots of its two neighbours.
#[derive(Clone, Copy)]
pub(crate) struct Node {
    pub(crate) value: char,
    /// Slot of the node before this one; `None` at the front.
    pub(crate) prev: Option<usize>,
    /// Slot of the node after this one; `None` at the back.
    pub(crate) next: Option<usize>,
}

pub(crate) struct Chain {
    pub(crate) nodes: Vec<Node>,
    pub(crate) front: Option<usize>,
    pub(crate) back: Option<usize>,
    pub(crate) length: usize,
    /// `order[i]` is the slot of the element at position `i`.
    pub(crate) order: Ghost<Seq<usize>>,
    /// `place[s]` is the position of the element in slot `s`.
    pub(crate) place: Ghost<Seq<int>>,
}

impl Chain {
    /// The links of the node at position `i` name its neighbours in `order`.
    pub(crate) closed spec fn linked_at(&self, i: int) -> bool {
        let node = self.nodes@[self.order@[i] as int];
        &&& node.prev == (if i == 0 {
            None
        } else {
            Some(self.order@[i - 1])
        })
        &&& node.next == (if i + 1 == self.order@.len() {
            None
        } else {
            Some(self.order@[i + 1])
        })
    }

    /// The chain is consistent: `order` and `place` are inverse to each other
    /// and cover the arena, `front` and `back` are the slots of the first and
    /// the last position (or `None` in the empty chain), and every node is
    /// linked to the nodes of the positions next to its own. So no node
    /// precedes the front or follows the back, a chain of one has one node
    /// at both ends, and `b` follows `a` exactly if `a` precedes `b`.
    ///
    /// `hole`, if there is one, is the single slot of the arena that has been
    /// taken out of the chain and not yet given back.
    pub(crate) closed spec fn linked(&self, hole: Option<usize>) -> bool {
        let n = self.order@.len();
        let slots = self.nodes@.len();
        &&& self.length == n
        &&& slots == n + (if hole is Some { 1int } else { 0int })
        &&& self.place@.len() == slots
        &&& hole matches Some(h) ==> h < slots
        &&& forall|i: int|
            0 <= i < n ==> (#[trigger] self.order@[i]) < slots && Some(self.order@[i]) != hole
                && self.place@[self.order@[i] as int] == i
        &&& forall|s: int|
            0 <= s < slots && Some(s as usize) != hole ==> 0 <= (#[trigger] self.place@[s]) < n
                && self.order@[self.place@[s]] == s
        &&& self.front == (if n == 0 {
            None
        } else {
            Some(self.order@[0])
        })
        &&& self.back == (if n == 0 {
            None
        } else {
            Some(self.order@[n - 1])
        })
        &&& forall|i: int| 0 <= i < n ==> #[trigger] self.linked_at(i)
    }

    /// Well-formedness: a consistent chain that fills its arena.
    pub(crate) open spec fn wf(&self) -> bool {
        self.linked(None)
    }

    /// The characters of the chain, front to back.
    pub(crate) closed spec fn view(&self) -> Seq<char> {
        Seq::new(self.order@.len(), |i: int| self.nodes@[self.order@[i] as int].value)
    }

    /// The empty chain.
    pub(crate) fn new() -> (chain: Chain)
        ensures
            chain.wf(),
            chain@ == Seq::<char>::empty(),
    {
        Chain {
            nodes: Vec::new(),
            front: None,
            back: None,
            length: 0,
            order: Ghost(Seq::empty()),
            place: Ghost(Seq::empty()),
        }
    }

    /// The number of elements.
    pub(crate) fn len(&self) -> (n: usize)
        requires
            self.wf(),
        ensures
            n == self@.len(),
    {
        self.length
    }

    /// Rewrites the forward link of the node in `slot`.
    fn set_next(&mut self, slot: usize, next: Option<usize>)
        requires
            slot < old(self).nodes@.len(),
        ensures
            final(self).nodes@ == old(self).nodes@.update(
                slot as int,
                with_next(old(self).nodes@[slot as int], next),
            ),
            final(self).front == old(self).front,
            final(self).back == old(self).back,
            final(self).length == old(self).length,
            final(self).order == old(self).order,
            final(self).place == old(self).place,
    {
        let node = self.nodes[slot];
        self.nodes.set(slot, Node { value: node.value, prev: node.prev, next });
    }

    /// Rewrites the backward link of the node in `slot`.
    fn set_prev(&mut self, slot: usize, prev: Option<usize>)
        requires
            slot < old(self).nodes@.len(),
        ensures
            final(self).nodes@ == old(self).nodes@.update(
                slot as int,
                with_prev(old(self).nodes@[slot as int], prev),
            ),
            final(self).front == old(self).front,
            final(self).back == old(self).back,
            final(self).length == old(self).length,
            final(self).order == old(self).order,
            final(self).place == old(self).place,
    {
        let node = self.nodes[slot];
        self.nodes.set(slot, Node { value: node.value, prev, next: node.next });
    }

    /// Adds `value` behind the last element.
    pub(crate) fn push_back(&mut self, value: char)
        requires
            old(self).wf(),
        ensures
            final(self).wf(),
            final(self)@ == old(self)@.push(value),
    {
        let slot = self.nodes.len();
        self.nodes.push(Node { value, prev: self.back, next: None });
        match self.back {
            Some(b) => {
                self.set_next(b, Some(slot));
            },
            None => {
                self.front = Some(slot);
            },
        }
        self.back = Some(slot);
        assert(self.nodes.len() == self.length + 1);
        self.length = self.length + 1;
        proof {
            let n = old(self).order@.len() as int;
            self.order@ = old(self).order@.push(slot);
            self.place@ = old(self).place@.push(n);
            assert forall|i: int| 0 <= i < n + 1 implies #[trigger] self.linked_at(i) by {
                if i < n {
                    assert(old(self).linked_at(i));
                }
            }
        }
    }

    /// Adds `value` before the first element.
    pub(crate) fn push_front(&mut self, value: char)
        requires
            old(self).wf(),
        ensures
            final(self).wf(),
            final(self)@ == old(self)@.insert(0, value),
    {
        let slot = self.nodes.len();
        self.nodes.push(Node { value, prev: None, next: self.front });
        match self.front {
            Some(f) => {
                self.set_prev(f, Some(slot));
            },
            None => {
                self.back = Some(slot);
            },
        }
        self.front = Some(slot);
        assert(self.nodes.len() == self.length + 1);
        self.length = self.length + 1;
        proof {
            let n = old(self).order@.len() as int;
            let place = old(self).place@;
            self.order@ = old(self).order@.insert(0, slot);
            self.place@ = Seq::new((n + 1) as nat, |s: int| if s == n { 0 } else { place[s] + 1 });
            assert forall|i: int| 0 <= i < n + 1 implies #[trigger] self.linked_at(i) by {
                if i > 0 {
                    assert(old(self).linked_at(i - 1));
                }
            }
        }
    }

    /// The slot of the element at position `index`, found by walking from the
    /// front.
    pub(crate) fn slot_at(&self, index: usize) -> (slot: usize)
        requires
            self.wf(),
            index < self@.len(),
        ensures
            slot == self.order@[index as int],
            slot < self.nodes@.len(),
    {
        let mut slot = self.front.unwrap();
        let mut i: usize = 0;
        while i < index
            invariant
                self.wf(),
                i <= index < self.order@.len(),
                slot == self.order@[i as int],
            decreases index - i,
        {
            assert(self.linked_at(i as int));
            slot = self.nodes[slot].next.unwrap();
            i = i + 1;
        }
        slot
    }

    /// Puts `value` at position `index`, moving the elements from there on
    /// one place towards the back.
    pub(crate) fn insert_at(&mut self, value: char, index: usize)
        requires
            old(self).wf(),
            index <= old(self)@.len(),
        ensures
            final(self).wf(),
            final(self)@ == old(self)@.insert(index as int, value),
    {
        if index == 0 {
            self.push_front(value);
        } else if index == self.length {
            self.push_back(value);
        } else {
            let after = self.slot_at(index);
            assert(self.linked_at(index as int));
            let before = self.nodes[after].prev.unwrap();
            let slot = self.nodes.len();
            self.nodes.push(Node { value, prev: Some(before), next: Some(after) });
            self.set_next(before, Some(slot));
            self.set_prev(after, Some(slot));
            assert(self.nodes.len() == self.length + 1);
            self.length = self.length + 1;
            proof {
                let n = old(self).order@.len() as int;
                let place = old(self).place@;
                let at = index as int;
                self.order@ = old(self).order@.insert(at, slot);
                self.place@ = Seq::new(
                    (n + 1) as nat,
                    |s: int|
                        if s == n {
                            at
                        } else if place[s] >= at {
                            place[s] + 1
                        } else {
                            place[s]
                        },
                );
                assert forall|i: int| 0 <= i < n + 1 implies #[trigger] self.linked_at(i) by {
                    if i < at {
                        assert(old(self).linked_at(i));
                    } else if i > at {
                        assert(old(self).linked_at(i - 1));
                    }
                }
            }
        }
    }

    /// The element at position `index`.
    pub(crate) fn value_at(&self, index: usize) -> (value: char)
        requires
            self.wf(),
            index < self@.len(),
        ensures
            value == self@[index as int],
    {
        let slot = self.slot_at(index);
        self.nodes[slot].value
    }

    /// Takes the node at position `index` out of the chain by joining its
    /// neighbours. Its slot stays behind as the hole of the arena.
    fn unlink(&mut self, slot: usize, Ghost(index): Ghost<int>)
        requires
            old(self).wf(),
            0 <= index < old(self).order@.len(),
            slot == old(self).order@[index],
        ensures
            final(self).linked(Some(slot)),
            final(self)@ == old(self)@.remove(index),
            final(self).order@ == old(self).order@.remove(index),
            final(self).nodes@.len() == old(self).nodes@.len(),
            final(self).nodes@[slot as int] == old(self).nodes@[slot as int],
    {
        assert(self.linked_at(index));
        let node = self.nodes[slot];
        match node.prev {
            Some(before) => {
                self.set_next(before, node.next);
            },
            None => {
                self.front = node.next;
            },
        }
        match node.next {
            Some(after) => {
                self.set_prev(after, node.prev);
            },
            None => {
                self.back = node.prev;
            },
        }
        self.length = self.length - 1;
        proof {
            let n = old(self).order@.len() as int;
            let place = old(self).place@;
            self.order@ = old(self).order@.remove(index);
            self.place@ = Seq::new(
                place.len(),
                |s: int|
                    if place[s] > index {
                        place[s] - 1
                    } else {
                        place[s]
                    },
            );
            assert forall|i: int| 0 <= i < n - 1 implies #[trigger] self.linked_at(i) by {
                if i < index {
                    assert(old(self).linked_at(i));
                } else {
                    assert(old(self).linked_at(i + 1));
                }
            }
        }
    }

    /// Gives the slot `hole` back to the allocator. The arena stays dense:
    /// the node in its last slot moves into the hole, its neighbours are told
    /// so, and the arena shrinks by one.
    fn fill_hole(&mut self, hole: usize)
        requires
            old(self).linked(Some(hole)),
        ensures
            final(self).wf(),
            final(self)@ == old(self)@,
            final(self).order@.len() == old(self).order@.len(),
            forall|i: int|
                0 <= i < old(self).order@.len() ==> #[trigger] final(self).order@[i] == moved_slot(
                    old(self).order@[i],
                    (old(self).nodes@.len() - 1) as usize,
                    hole,
                ),
    {
        let last = self.nodes.len() - 1;
        if hole != last {
            let moved = self.nodes[last];
            assert(self.linked_at(self.place@[last as int]));
            match moved.prev {
                Some(before) => {
                    self.set_next(before, Some(hole));
                },
                None => {
                    self.front = Some(hole);
                },
            }
            match moved.next {
                Some(after) => {
                    self.set_prev(after, Some(hole));
                },
                None => {
                    self.back = Some(hole);
                },
            }
        }
        self.nodes.swap_remove(hole);
        proof {
            let n = old(self).order@.len() as int;
            let order = old(self).order@;
            let place = old(self).place@;
            self.order@ = Seq::new(n as nat, |i: int| moved_slot(order[i], last, hole));
            self.place@ = place.update(hole as int, place[last as int]).drop_last();
            assert forall|i: int| 0 <= i < n implies #[trigger] self.linked_at(i) by {
                assert(old(self).linked_at(i));
            }
        }
    }

    /// Removes the element at position `index` and returns it.
    pub(crate) fn remove_at(&mut self, index: usize) -> (value: char)
        requires
            old(self).wf(),
            index < old(self)@.len(),
        ensures
            final(self).wf(),
            final(self)@ == old(self)@.remove(index as int),
            value == old(self)@[index as int],
    {
        let slot = self.slot_at(index);
        let value = self.nodes[slot].value;
        self.unlink(slot, Ghost(index as int));
        self.fill_hole(slot);
        value
    }

    /// Removes every element equal to `value`. The cursor walks the chain
    /// once; where a node is removed, the cursor follows the node that the
    /// arena moved into the freed slot.
    pub(crate) fn remove_all(&mut self, value: char)
        requires
            old(self).wf(),
        ensures
            final(self).wf(),
            final(self)@ == without(old(self)@, value),
    {
        let ghost keep = other_than(value);
        let ghost orig = self@;
        let ghost mut at: int = 0;
        let ghost mut seen: int = 0;
        let mut cursor = self.front;
        proof {
            assert(orig.take(0).filter(keep) =~= Seq::<char>::empty()) by {
                reveal(Seq::filter);
            }
        }
        while cursor.is_some()
            invariant
                self.wf(),
                orig == old(self)@,
                keep == other_than(value),
                0 <= seen <= orig.len(),
                at == orig.take(seen).filter(keep).len(),
                self@ == orig.take(seen).filter(keep) + orig.skip(seen),
                cursor == (if at < self.order@.len() {
                    Some(self.order@[at])
                } else {
                    None
                }),
            decreases orig.len() - seen,
        {
            let slot = cursor.unwrap();
            let node = self.nodes[slot];
            proof {
                assert(self.linked_at(at));
                assert(self@[at] == orig.skip(seen)[0]);
                assert(orig.take(seen + 1).drop_last() =~= orig.take(seen));
                reveal(Seq::filter);
            }
            if node.value == value {
                let last = self.nodes.len() - 1;
                self.unlink(slot, Ghost(at));
                self.fill_hole(slot);
                cursor = match node.next {
                    Some(after) if after == last => Some(slot),
                    next => next,
                };
            } else {
                cursor = node.next;
                proof {
                    at = at + 1;
                }
            }
            proof {
                seen = seen + 1;
            }
        }
        proof {
            assert(orig.take(seen) =~= orig);
        }
    }

    /// Turns the chain round: every node stays in its slot and exchanges its
    /// two links, and the chain exchanges its two ends.
    pub(crate) fn reverse(&mut self)
        requires
            old(self).wf(),
        ensures
            final(self).wf(),
            final(self)@ == old(self)@.reverse(),
            final(self).nodes@.len() == old(self).nodes@.len(),
            forall|s: int|
                0 <= s < old(self).nodes@.len() ==> #[trigger] final(self).nodes@[s] == flipped(
                    old(self).nodes@[s],
                ),
    {
        let slots = self.nodes.len();
        let mut slot: usize = 0;
        while slot < slots
            invariant
                slot <= slots,
                slots == self.nodes@.len(),
                slots == old(self).nodes@.len(),
                forall|s: int| 0 <= s < slot ==> #[trigger] self.nodes@[s] == flipped(old(self).nodes@[s]),
                forall|s: int| slot <= s < slots ==> #[trigger] self.nodes@[s] == old(self).nodes@[s],
                self.front == old(self).front,
                self.back == old(self).back,
                self.length == old(self).length,
                self.order == old(self).order,
                self.place == old(self).place,
            decreases slots - slot,
        {
            let node = self.nodes[slot];
            self.nodes.set(slot, Node { value: node.value, prev: node.next, next: node.prev });
            slot = slot + 1;
        }
        let front = self.front;
        self.front = self.back;
        self.back = front;
        proof {
            let n = old(self).order@.len() as int;
            let place = old(self).place@;
            self.order@ = old(self).order@.reverse();
            self.place@ = Seq::new(n as nat, |s: int| n - 1 - place[s]);
            assert forall|i: int| 0 <= i < n implies #[trigger] self.linked_at(i) by {
                assert(old(self).linked_at(n - 1 - i));
            }
        }
    }

    /// The lowest position that holds `value`, found by walking from the
    /// front.
    pub(crate) fn position_first(&self, value: char) -> (found: Option<usize>)
        requires
            self.wf(),
        ensures
            match found {
                Some(index) => is_first_index(self@, value, index as int),
                None => !self@.contains(value),
            },
    {
        let mut cursor = self.front;
        let mut index: usize = 0;
        while cursor.is_some()
            invariant
                self.wf(),
                index <= self.order@.len(),
                cursor == (if index < self.order@.len() {
                    Some(self.order@[index as int])
                } else {
                    None
                }),
                forall|j: int| 0 <= j < index ==> self@[j] != value,
            decreases self.order@.len() - index,
        {
            let node = self.nodes[cursor.unwrap()];
            if node.value == value {
                return Some(index);
            }
            assert(self.linked_at(index as int));
            cursor = node.next;
            index = index + 1;
        }
        None
    }

    /// The highest position that holds `value`, found by walking from the
    /// back.
    pub(crate) fn position_last(&self, value: char) -> (found: Option<usize>)
        requires
            self.wf(),
        ensures
            match found {
                Some(index) => is_last_index(self@, value, index as int),
                None => !self@.contains(value),
            },
    {
        let mut cursor = self.back;
        let mut rest: usize = self.length;
        while cursor.is_some()
            invariant
                self.wf(),
                rest <= self.order@.len(),
                cursor == (if rest > 0 {
                    Some(self.order@[rest - 1])
                } else {
                    None
                }),
                forall|j: int| rest <= j < self.order@.len() ==> self@[j] != value,
            decreases rest,
        {
            let node = self.nodes[cursor.unwrap()];
            if node.value == value {
                return Some(rest - 1);
            }
            assert(self.linked_at(rest - 1));
            cursor = node.prev;
            rest = rest - 1;
        }
        None
    }

    /// Removes every node and leaves the empty chain.
    pub(crate) fn clear(&mut self)
        ensures
            final(self).wf(),
            final(self)@ == Seq::<char>::empty(),
    {
        self.nodes.clear();
        self.front = None;
        self.back = None;
        self.length = 0;
        proof {
            self.order@ = Seq::empty();
            self.place@ = Seq::empty();
        }
    }

    /// Adds a copy of every element of `other`, in order, behind the last
    /// element.
    pub(crate) fn append_all(&mut self, other: &Chain)
        requires
            old(self).wf(),
            other.wf(),
        ensures
            final(self).wf(),
            final(self)@ == old(self)@ + other@,
    {
        let mut cursor = other.front;
        let ghost mut index: int = 0;
        while cursor.is_some()
            invariant
                self.wf(),
                other.wf(),
                0 <= index <= other.order@.len(),
                cursor == (if index < other.order@.len() {
                    Some(other.order@[index])
                } else {
                    None
                }),
                self@ == old(self)@ + other@.take(index),
            decreases other.order@.len() - index,
        {
            let node = other.nodes[cursor.unwrap()];
            assert(other.linked_at(index));
            self.push_back(node.value);
            cursor = node.next;
            proof {
                index = index + 1;
            }
        }
    }

    /// The elements, front to back, in a vector.
    pub(crate) fn to_vec(&self) -> (values: Vec<char>)
        requires
            self.wf(),
        ensures
            values@ == self@,
    {
        let mut values: Vec<char> = Vec::new();
        let mut cursor = self.front;
        while cursor.is_some()
            invariant
                self.wf(),
                values@.len() <= self.order@.len(),
                cursor == (if values@.len() < self.order@.len() {
                    Some(self.order@[values@.len() as int])
                } else {
                    None
                }),
                values@ == self@.take(values@.len() as int),
            decreases self.order@.len() - values@.len(),
        {
            let node = self.nodes[cursor.unwrap()];
            assert(self.linked_at(values@.len() as int));
            values.push(node.value);
            cursor = node.next;
        }
        values
    }
}

/// `node` with another forward link.
pub(crate) open spec fn with_next(node: Node, next: Option<usize>) -> Node {
    Node { value: node.value, prev: node.prev, next }
}

/// `node` with another backward link.
pub(crate) open spec fn with_prev(node: Node, prev: Option<usize>) -> Node {
    Node { value: node.value, prev, next: node.next }
}

/// `node` with its two links exchanged.
pub(crate) open spec fn flipped(node: Node) -> Node {
    Node { value: node.value, prev: node.next, next: node.prev }
}

/// Where the node of slot `slot` is found once the node of slot `from` has
/// moved to slot `to`.
pub(crate) open spec fn moved_slot(slot: usize, from: usize, to: usize) -> usize {
    if slot == from {
        to
    } else {
        slot
    }
}

} // verus!
