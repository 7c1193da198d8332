//! A stack of `i32` values, kept as a singly linked chain of boxed nodes.

use crate::model::{front, pop_front, push_front};
use vstd::prelude::*;

verus! {

/// A singly linked list of `i32`, with insertion and removal at the head.
pub struct List {
    head: Link,
}

/// What follows a list's head or a node: nothing, or the next node, owned.
enum Link {
    Empty,
    More(Box<Node>),
}

/// One element, and the link to the rest of the chain.
struct Node {
    elem: i32,
    next: Link,
}

impl Link {
    /// The elements reachable through this link, nearest first.
    spec fn elems(self) -> Seq<i32>
        decreases self,
    {
        match self {
            Link::Empty => Seq::empty(),
            Link::More(node) => push_front(node.next.elems(), node.elem),
        }
    }
}

impl View for List {
    type V = Seq<i32>;

    /// The elements of the list, head first.
    closed spec fn view(&self) -> Seq<i32> {
        self.head.elems()
    }
}

impl List {
    /// Creates an empty list.
    pub fn new() -> (list: Self)
        ensures
            list@ == Seq::<i32>::empty(),
    {
        List { head: Link::Empty }
    }

    /// Puts `elem` in front of all the elements already in the list.
    pub fn push(&mut self, elem: i32)
        ensures
            final(self)@ == push_front(old(self)@, elem),
    {
        let mut rest = Link::Empty;
        core::mem::swap(&mut self.head, &mut rest);
        let new_node = Box::new(Node { elem: elem, next: rest });
        self.head = Link::More(new_node);
    }

    /// Removes the head element and returns it; on an empty list, returns
    /// `None` and leaves the list empty.
    pub fn pop(&mut self) -> (popped: Option<i32>)
        ensures
            popped == front(old(self)@),
            final(self)@ == pop_front(old(self)@),
    {
        let mut taken = Link::Empty;
        core::mem::swap(&mut self.head, &mut taken);
        match taken {
            Link::Empty => None,
            Link::More(node) => {
                let node = *node;
                proof {
                    assert(push_front(node.next.elems(), node.elem).skip(1)
                        =~= node.next.elems());
                }
                self.head = node.next;
                Some(node.elem)
            },
        }
    }
}

impl Drop for List {
    /// Takes the chain apart one node at a time, so that the depth of the
    /// call stack does not grow with the length of the list.
    fn drop(&mut self)
        ensures
            final(self)@ == Seq::<i32>::empty(),
        opens_invariants none
        no_unwind
    {
        let mut cur_link = Link::Empty;
        core::mem::swap(&mut self.head, &mut cur_link);
        loop
            invariant
                self@ == Seq::<i32>::empty(),
            decreases cur_link.elems().len(),
        {
            match cur_link {
                Link::Empty => {
                    break ;
                },
                Link::More(mut boxed_node) => {
                    let mut next = Link::Empty;
                    core::mem::swap(&mut boxed_node.next, &mut next);
                    proof {
                        assert(cur_link.elems().len() == 1 + next.elems().len());
                    }
                    cur_link = next;
                },
            }
        }
    }
}

} // verus!
