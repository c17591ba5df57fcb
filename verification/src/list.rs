//! Persistent singly-linked list with structural sharing.
//!
//! A list is either `Empty` or a `Node` holding one value and a shared
//! reference to the rest. `prepend` never mutates or copies the existing
//! list: the new head holds a reference-counted handle to the old one, so
//! many lists may share a common tail.

use std::rc::Rc;
use vstd::prelude::*;

verus! {

/// An immutable cons list. The tail of a node is held behind `Rc`, so
/// prepending is O(1) and the original list stays valid and unchanged.
pub enum PersistentList<T> {
    Empty,
    Node(Rc<ListNode<T>>),
}

/// One cell of a [`PersistentList`]: the front value and the rest of the
/// list. Cells are never mutated after construction, which keeps every
/// list acyclic and makes sharing a tail between lists safe.
pub struct ListNode<T> {
    pub value: T,
    pub rest: PersistentList<T>,
}

impl<T> View for PersistentList<T> {
    type V = Seq<T>;

    open spec fn view(&self) -> Seq<T>
        decreases self,
    {
        match self {
            PersistentList::Empty => Seq::empty(),
            PersistentList::Node(node) => seq![node.value] + node.rest.view(),
        }
    }
}

/// Relies on `std::rc::Rc::clone`: it returns a new handle to the same
/// allocation, so the value behind the result equals the value behind the
/// argument. `vstd` gives `Rc::clone` no specification of its own.
#[verifier::external_body]
fn rc_share<T>(rc: &Rc<T>) -> (r: Rc<T>)
    ensures
        r == *rc,
{
    Rc::clone(rc)
}

impl<T> Clone for PersistentList<T> {
    /// Duplicates the list handle without touching any node: `Empty` is
    /// rebuilt, and a `Node` handle is shared through its `Rc`.
    fn clone(&self) -> (r: Self)
        ensures
            r == *self,
    {
        match self {
            PersistentList::Empty => PersistentList::Empty,
            PersistentList::Node(node) => PersistentList::Node(rc_share(node)),
        }
    }
}

impl<T> PersistentList<T> {
    /// The terminal list, holding no elements.
    pub fn empty() -> (r: Self)
        ensures
            r@ == Seq::<T>::empty(),
    {
        PersistentList::Empty
    }

    /// A new list whose head is `value` and whose tail shares this list.
    /// O(1): the receiver is not copied and stays valid and unchanged.
    pub fn prepend(&self, value: T) -> (r: Self)
        ensures
            r@ == seq![value] + self@,
    {
        PersistentList::Node(Rc::new(ListNode { value, rest: self.clone() }))
    }

    /// A borrow of the front value, or `None` for the terminal list.
    pub fn head(&self) -> (r: Option<&T>)
        ensures
            match r {
                Some(v) => self@.len() > 0 && *v == self@[0],
                None => self@.len() == 0,
            },
    {
        match self {
            PersistentList::Empty => None,
            PersistentList::Node(node) => {
                proof {
                    assert(self@ == seq![node.value] + node.rest@);
                    assert(self@[0] == node.value);
                }
                Some(&node.value)
            },
        }
    }

    /// A borrow of the rest of the list, or `None` for the terminal list.
    /// The result is the very list that was prepended onto, not a copy.
    pub fn tail(&self) -> (r: Option<&PersistentList<T>>)
        ensures
            match r {
                Some(t) => self@.len() > 0 && t@ == self@.drop_first(),
                None => self@.len() == 0,
            },
    {
        match self {
            PersistentList::Empty => None,
            PersistentList::Node(node) => {
                proof {
                    assert(node.rest@ =~= self@.drop_first());
                }
                Some(&node.rest)
            },
        }
    }

    /// A fresh cursor anchored at this node. Iterating never consumes or
    /// changes the list; a second cursor yields the full sequence again.
    pub fn iter<'a>(&'a self) -> (r: ListCursor<'a, T>)
        ensures
            r@ == self@,
    {
        ListCursor { remaining: self }
    }
}

/// A lazy, forward-only, non-restartable cursor over a [`PersistentList`].
/// Its view is the sequence of elements not yet produced; `next` shrinks
/// that sequence from the front and, once it is empty, keeps yielding
/// `None` forever.
pub struct ListCursor<'a, T> {
    remaining: &'a PersistentList<T>,
}

impl<'a, T> View for ListCursor<'a, T> {
    type V = Seq<T>;

    closed spec fn view(&self) -> Seq<T> {
        self.remaining.view()
    }
}

impl<'a, T> ListCursor<'a, T> {
    /// Emits a borrow of the next unvisited element and advances, or emits
    /// `None` once exhausted. An exhausted cursor stays exhausted: further
    /// calls keep returning `None`.
    pub fn next(&mut self) -> (r: Option<&'a T>)
        ensures
            old(self)@.len() == 0 ==> r is None && final(self)@ == old(self)@,
            old(self)@.len() > 0 ==> match r {
                Some(v) => *v == old(self)@[0] && final(self)@ == old(self)@.drop_first(),
                None => false,
            },
    {
        match self.remaining {
            PersistentList::Empty => None,
            PersistentList::Node(node) => {
                proof {
                    assert(self.remaining@ == seq![node.value] + node.rest@);
                    assert(self.remaining@[0] == node.value);
                    assert(node.rest@ =~= self.remaining@.drop_first());
                }
                self.remaining = &node.rest;
                Some(&node.value)
            },
        }
    }
}

/// Law: prepending shares rather than copies. For any list contents `l`
/// and value `v`, the list built by `prepend` (whose contents are
/// `seq![v] + l` by its contract) has exactly `l` as its tail, so `tail`
/// after `prepend` gives back the original contents; and since `prepend`
/// only borrows its receiver, the original list itself is unchanged.
pub proof fn lemma_prepend_shares_tail<T>(l: Seq<T>, v: T)
    ensures
        (seq![v] + l).drop_first() == l,
        (seq![v] + l)[0] == v,
{
    assert((seq![v] + l).drop_first() =~= l);
}

/// The contents of the list obtained by prepending each element of `vs`,
/// first to last, onto a list whose contents are `init`.
pub open spec fn after_prepends<T>(init: Seq<T>, vs: Seq<T>) -> Seq<T>
    decreases vs.len(),
{
    if vs.len() == 0 {
        init
    } else {
        after_prepends(seq![vs[0]] + init, vs.drop_first())
    }
}

proof fn lemma_after_prepends_reverses<T>(init: Seq<T>, vs: Seq<T>)
    ensures
        after_prepends(init, vs) == vs.reverse() + init,
    decreases vs.len(),
{
    if vs.len() == 0 {
        assert(after_prepends(init, vs) =~= vs.reverse() + init);
    } else {
        lemma_after_prepends_reverses(seq![vs[0]] + init, vs.drop_first());
        assert(vs.reverse() =~= vs.drop_first().reverse() + seq![vs[0]]);
        assert(vs.drop_first().reverse() + (seq![vs[0]] + init) =~= vs.reverse() + init);
    }
}

/// Law: iteration agrees with construction. A list built by one `prepend`
/// per element of `vs` (starting from the terminal list) holds exactly
/// `vs.len()` elements, and a cursor over it — whose contract yields the
/// list's contents front to back — produces them in last-prepended-first
/// order.
pub proof fn lemma_iteration_counts_prepends<T>(vs: Seq<T>)
    ensures
        after_prepends(Seq::empty(), vs).len() == vs.len(),
        forall|i: int|
            0 <= i < vs.len() ==> after_prepends(Seq::empty(), vs)[i] == vs[vs.len() - 1 - i],
{
    lemma_after_prepends_reverses(Seq::empty(), vs);
    assert(after_prepends(Seq::empty(), vs) =~= vs.reverse());
}

} // verus!
