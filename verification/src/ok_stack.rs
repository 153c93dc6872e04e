//! A generic last-in-first-out stack built from a chain of boxed nodes, with
//! a consuming, a read-only and an exclusive view over its elements.

use vstd::prelude::*;
use crate::stack_model::{popped, pushed};

verus! {

/// An owned link to the following node, or the end of the chain.
pub type Link<T> = Option<Box<Node<T>>>;

/// One element of the chain together with the link to the rest of it.
pub struct Node<T> {
    pub elem: T,
    pub next: Link<T>,
}

/// A stack whose top element sits in the first node of the chain.
pub struct List<T> {
    pub head: Link<T>,
}

/// A view that owns the stack and hands its elements out by value.
pub struct IntoIter<T> {
    list: List<T>,
}

/// A view that hands out shared references to the elements of a stack.
pub struct Iter<'a, T> {
    next: Option<&'a Node<T>>,
}

/// A view that hands out exclusive references to the elements of a stack.
///
/// `next` is the exclusive borrow of the node whose element is yielded next,
/// or `None` once the view is exhausted. The contracts speak of what that
/// borrow holds when it ends, which is what the stack then holds from that
/// node on.
pub struct IterMut<'a, T> {
    pub next: Option<&'a mut Node<T>>,
}

/// The elements reachable through `link`, nearest node first.
pub open spec fn chain<T>(link: Link<T>) -> Seq<T>
    decreases link,
{
    match link {
        None => Seq::empty(),
        Some(node) => seq![node.elem] + chain(node.next),
    }
}

/// The element of `node` followed by those of every node after it.
pub open spec fn node_seq<T>(node: Node<T>) -> Seq<T> {
    seq![node.elem] + chain(node.next)
}

impl<T> View for List<T> {
    type V = Seq<T>;

    /// The stack as a sequence, top element at index 0.
    open spec fn view(&self) -> Seq<T> {
        chain(self.head)
    }
}

impl<T> View for IntoIter<T> {
    type V = Seq<T>;

    /// The elements still to be yielded, next one at index 0.
    closed spec fn view(&self) -> Seq<T> {
        self.list@
    }
}

impl<'a, T> View for Iter<'a, T> {
    type V = Seq<T>;

    /// The elements still to be yielded, next one at index 0.
    closed spec fn view(&self) -> Seq<T> {
        match self.next {
            None => Seq::empty(),
            Some(node) => node_seq(*node),
        }
    }
}

impl<'a, T> View for IterMut<'a, T> {
    type V = Seq<T>;

    /// The elements still to be yielded, as they stand now, next one at
    /// index 0.
    open spec fn view(&self) -> Seq<T> {
        match self.next {
            None => Seq::empty(),
            Some(node) => node_seq(*node),
        }
    }
}

/// Moves the link out of `slot` and leaves the end of the chain in its place,
/// so that the chain never has two owners. Unlike `Option::take` it is known
/// not to unwind, which teardown needs.
fn detach<T>(slot: &mut Link<T>) -> (held: Link<T>)
    ensures
        held == *old(slot),
        *final(slot) == None::<Box<Node<T>>>,
    opens_invariants none
    no_unwind
{
    let mut held: Link<T> = None;
    core::mem::swap(&mut held, slot);
    held
}

impl<T> List<T> {
    /// Creates an empty stack.
    pub fn new() -> (list: Self)
        ensures
            list@ == Seq::<T>::empty(),
    {
        List { head: None }
    }

    /// Puts `elem` on top of the stack.
    pub fn push(&mut self, elem: T)
        ensures
            final(self)@ == pushed(old(self)@, elem),
    {
        let link = self.head.take();
        let new_node = Box::new(Node { elem, next: link });
        self.head = Some(new_node);
    }

    /// Removes the top element and returns it; an empty stack yields `None`
    /// and stays empty.
    pub fn pop(&mut self) -> (top: Option<T>)
        ensures
            (top, final(self)@) == popped(old(self)@),
    {
        let head = self.head.take();
        match head {
            None => None,
            Some(node) => {
                let node = *node;
                self.head = node.next;
                Some(node.elem)
            },
        }
    }

    /// Returns a shared reference to the top element, or `None` when the
    /// stack is empty: what a removal would yield, with the stack left as it
    /// is.
    pub fn peek(&self) -> (top: Option<&T>)
        ensures
            match top {
                None => popped(self@).0 is None,
                Some(r) => popped(self@).0 == Some(*r),
            },
    {
        match &self.head {
            None => None,
            Some(node) => Some(&node.elem),
        }
    }

    /// Returns an exclusive reference to the top element, or `None` when the
    /// stack is empty. Whatever the reference holds when the borrow ends is
    /// the new top element; the elements below it are untouched.
    pub fn peek_mut(&mut self) -> (top: Option<&mut T>)
        ensures
            match top {
                None => old(self)@.len() == 0 && final(self)@ == old(self)@,
                Some(r) => old(self)@.len() > 0 && *r == old(self)@[0]
                    && final(self)@ == old(self)@.update(0, *final(r)),
            },
    {
        match &mut self.head {
            None => None,
            Some(node) => Some(&mut node.elem),
        }
    }

    /// Turns the stack into a view that yields its elements by value, top
    /// first.
    pub fn into_iter(self) -> (it: IntoIter<T>)
        ensures
            it@ == self@,
    {
        IntoIter { list: self }
    }

    /// Returns a view that yields shared references to the elements, top
    /// first.
    pub fn iter<'a>(&'a self) -> (it: Iter<'a, T>)
        ensures
            it@ == self@,
    {
        let next = match &self.head {
            None => None,
            Some(node) => Some(&**node),
        };
        Iter { next }
    }

    /// Returns a view that yields exclusive references to the elements, top
    /// first. When the borrow ends the stack holds what the chain behind the
    /// view's first node holds then.
    pub fn iter_mut<'a>(&'a mut self) -> (it: IterMut<'a, T>)
        ensures
            it@ == old(self)@,
            final(self)@ == match it.next {
                None => Seq::empty(),
                Some(node) => node_seq(*final(node)),
            },
    {
        let next = match &mut self.head {
            None => None,
            Some(node) => Some(&mut **node),
        };
        IterMut { next }
    }
}

impl<T> IntoIter<T> {
    /// Yields the next element by value, as a removal from the stack does;
    /// `None` once the view is exhausted, and from then on.
    pub fn next(&mut self) -> (item: Option<T>)
        ensures
            (item, final(self)@) == popped(old(self)@),
    {
        self.list.pop()
    }
}

impl<'a, T> Iter<'a, T> {
    /// Yields a shared reference to the next element and moves on to the
    /// node after it; `None` once the view is exhausted, and from then on.
    pub fn next(&mut self) -> (item: Option<&'a T>)
        ensures
            match item {
                None => popped(old(self)@).0 is None,
                Some(r) => popped(old(self)@).0 == Some(*r),
            },
            final(self)@ == popped(old(self)@).1,
    {
        match self.next {
            None => None,
            Some(node) => {
                self.next = match &node.next {
                    None => None,
                    Some(following) => Some(&**following),
                };
                Some(&node.elem)
            },
        }
    }
}

impl<'a, T> IterMut<'a, T> {
    /// Yields an exclusive reference to the next element and moves on to the
    /// node after it; `None` once the view is exhausted, and from then on.
    ///
    /// The borrow of the node that the view held is split in two: in the end
    /// that node's chain holds what the yielded reference holds then,
    /// followed by what the chain behind the view's new node holds then.
    pub fn next(&mut self) -> (item: Option<&'a mut T>)
        ensures
            match item {
                None => old(self).next is None && final(self).next is None,
                Some(r) => {
                    &&& old(self).next is Some
                    &&& *r == old(self)@[0]
                    &&& final(self)@ == popped(old(self)@).1
                    &&& node_seq(*final(old(self).next->0)) == pushed(
                        match final(self).next {
                            None => Seq::empty(),
                            Some(node) => node_seq(*final(node)),
                        },
                        *final(r),
                    )
                },
            },
    {
        match self.next.take() {
            None => None,
            Some(node) => {
                self.next = match &mut node.next {
                    None => None,
                    Some(following) => Some(&mut **following),
                };
                Some(&mut node.elem)
            },
        }
    }
}

impl<T> Drop for List<T> {
    /// Releases the chain one node at a time. Each node is cut off from the
    /// rest of the chain before it is released, so that releasing it reaches
    /// no further than that one node, however long the chain is.
    fn drop(&mut self)
        ensures
            final(self)@ == Seq::<T>::empty(),
        opens_invariants none
        no_unwind
    {
        let mut link = detach(&mut self.head);
        loop
            invariant
                self@ == Seq::<T>::empty(),
            decreases chain(link).len(),
        {
            match link {
                None => {
                    break;
                },
                Some(mut boxed_node) => {
                    link = detach(&mut boxed_node.next);
                    // The node released here has nothing left behind it.
                    assert(boxed_node.next is None);
                },
            }
        }
    }
}

} // verus!
