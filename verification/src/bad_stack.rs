//! A last-in-first-out stack of `i32` built from a chain of boxed nodes.

use vstd::prelude::*;
use crate::stack_model::{popped, pushed};

verus! {

/// A stack whose top element sits in the first node of the chain.
pub struct List {
    pub head: Link,
}

/// An owned link to the following node, or the end of the chain.
pub enum Link {
    Empty,
    Node(Box<Node>),
}

/// One element of the chain together with the link to the rest of it.
pub struct Node {
    pub elem: i32,
    pub next: Link,
}

/// The elements reachable through `link`, nearest node first.
pub open spec fn chain(link: Link) -> Seq<i32>
    decreases link,
{
    match link {
        Link::Empty => Seq::empty(),
        Link::Node(node) => seq![node.elem] + chain(node.next),
    }
}

impl View for List {
    type V = Seq<i32>;

    /// The stack as a sequence, top element at index 0.
    open spec fn view(&self) -> Seq<i32> {
        chain(self.head)
    }
}

/// Moves the link out of `slot` and leaves the end-of-chain marker in its
/// place, so that the chain never has two owners.
fn detach(slot: &mut Link) -> (held: Link)
    ensures
        held == *old(slot),
        *final(slot) == Link::Empty,
    opens_invariants none
    no_unwind
{
    let mut held = Link::Empty;
    core::mem::swap(&mut held, slot);
    held
}

impl List {
    /// Creates an empty stack.
    pub fn new() -> (list: Self)
        ensures
            list@ == Seq::<i32>::empty(),
    {
        List { head: Link::Empty }
    }

    /// Puts `elem` on top of the stack.
    pub fn push(&mut self, elem: i32)
        ensures
            final(self)@ == pushed(old(self)@, elem),
    {
        let link = detach(&mut self.head);
        let new_node = Box::new(Node { elem, next: link });
        self.head = Link::Node(new_node);
    }

    /// Removes the top element and returns it; an empty stack yields `None`
    /// and stays empty.
    pub fn pop(&mut self) -> (top: Option<i32>)
        ensures
            (top, final(self)@) == popped(old(self)@),
    {
        let head = detach(&mut self.head);
        match head {
            Link::Empty => None,
            Link::Node(node) => {
                let node = *node;
                self.head = node.next;
                Some(node.elem)
            },
        }
    }
}

impl Drop for List {
    /// Releases the chain one node at a time. Each node is cut off from the
    /// rest of the chain before it is released, so that releasing it reaches
    /// no further than that one node, however long the chain is.
    fn drop(&mut self)
        ensures
            final(self)@ == Seq::<i32>::empty(),
        opens_invariants none
        no_unwind
    {
        let mut link = detach(&mut self.head);
        loop
            invariant
                self@ == Seq::<i32>::empty(),
            decreases chain(link).len(),
        {
            match link {
                Link::Empty => {
                    break;
                },
                Link::Node(mut boxed_node) => {
                    link = detach(&mut boxed_node.next);
                    // The node released here has nothing left behind it.
                    assert(boxed_node.next is Empty);
                },
            }
        }
    }
}

} // verus!
