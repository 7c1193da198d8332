//! A generic stack kept as a singly linked chain of boxed nodes, with three
//! ways to walk it: by value, by shared reference and by mutable reference.

use crate::model::{front, pop_front, push_front};
use vstd::prelude::*;

verus! {

/// A singly linked list, with insertion and removal at the head.
pub struct List<T> {
    head: Link<T>,
}

/// What follows a list's head or a node: nothing, or the next node, owned.
type Link<T> = Option<Box<Node<T>>>;

/// One element, and the link to the rest of the chain. A node owns every
/// node behind it. The type is visible because the contracts of `IterMut`
/// speak of the node that the iterator points to; its fields are not.
pub struct Node<T> {
    elem: T,
    next: Link<T>,
}

impl<T> Node<T> {
    /// The element of this node, followed by those of the nodes behind it.
    spec fn elems(self) -> Seq<T>
        decreases self,
    {
        push_front(
            match self.next {
                None => Seq::empty(),
                Some(node) => node.elems(),
            },
            self.elem,
        )
    }
}

impl<T> View for Node<T> {
    type V = Seq<T>;

    /// The elements of the chain that starts at this node, nearest first.
    closed spec fn view(&self) -> Seq<T> {
        self.elems()
    }
}

/// The elements reachable through a link, nearest first.
spec fn link_view<T>(link: Link<T>) -> Seq<T> {
    match link {
        None => Seq::empty(),
        Some(node) => node@,
    }
}

impl<T> View for List<T> {
    type V = Seq<T>;

    /// The elements of the list, head first.
    closed spec fn view(&self) -> Seq<T> {
        link_view(self.head)
    }
}

impl<T> List<T> {
    /// Creates an empty list.
    pub fn new() -> (list: Self)
        ensures
            list@ == Seq::<T>::empty(),
    {
        List { head: None }
    }

    /// Puts `elem` in front of all the elements already in the list.
    pub fn push(&mut self, elem: T)
        ensures
            final(self)@ == push_front(old(self)@, elem),
    {
        let new_node = Box::new(Node { elem: elem, next: self.head.take() });
        self.head = Some(new_node);
    }

    /// Removes the head element and returns it; on an empty list, returns
    /// `None` and leaves the list empty.
    pub fn pop(&mut self) -> (popped: Option<T>)
        ensures
            popped == front(old(self)@),
            final(self)@ == pop_front(old(self)@),
    {
        match self.head.take() {
            None => None,
            Some(node) => {
                let node = *node;
                proof {
                    assert(push_front(link_view(node.next), node.elem).skip(1) =~= link_view(
                        node.next,
                    ));
                }
                self.head = node.next;
                Some(node.elem)
            },
        }
    }

    /// Borrows the head element, the one that `pop` would remove next.
    pub fn peek(&self) -> (head: Option<&T>)
        ensures
            head.is_none() <==> self@.len() == 0,
            head matches Some(elem) ==> front(self@) == Some(*elem),
    {
        match self.head.as_ref() {
            None => None,
            Some(node) => Some(&node.elem),
        }
    }

    /// Borrows the head element mutably: what the caller leaves in it is the
    /// list's head element afterwards, and nothing else changes.
    pub fn peek_mut(&mut self) -> (head: Option<&mut T>)
        ensures
            head.is_none() <==> old(self)@.len() == 0,
            head matches Some(elem) ==> front(old(self)@) == Some(*elem)
                && final(self)@ == old(self)@.update(0, *final(elem)),
            head.is_none() ==> final(self)@ == old(self)@,
    {
        match self.head.as_mut() {
            None => None,
            Some(node) => {
                proof {
                    assert forall|e: T| #[trigger]
                        push_front(link_view(node.next), e) =~= node@.update(0, e) by {}
                }
                Some(&mut node.elem)
            },
        }
    }

    /// Turns the list into an iterator that owns it and hands the elements
    /// out by value, head first.
    pub fn into_iter(self) -> (iter: IntoIter<T>)
        ensures
            iter@ == self@,
    {
        IntoIter(self)
    }

    /// An iterator over shared references to the elements, head first. The
    /// list is left as it is.
    pub fn iter(&self) -> (iter: Iter<'_, T>)
        ensures
            iter@ == self@,
    {
        Iter {
            next: match self.head.as_ref() {
                None => None,
                Some(node) => Some(&**node),
            },
        }
    }

    /// An iterator over mutable references to the elements, head first.
    /// What the caller leaves in the elements is what the list holds once
    /// the iterator is gone; the chain itself stays as it is.
    pub fn iter_mut(&mut self) -> (iter: IterMut<'_, T>)
        ensures
            iter@ == old(self)@,
            final(self)@ == (match iter.next {
                None => Seq::empty(),
                Some(node) => final(node)@,
            }),
    {
        IterMut {
            next: match self.head.as_mut() {
                None => None,
                Some(node) => Some(&mut **node),
            },
        }
    }
}

impl<T> Drop for List<T> {
    /// Takes the chain apart one node at a time, so that the depth of the
    /// call stack does not grow with the length of the list.
    fn drop(&mut self)
        ensures
            final(self)@ == Seq::<T>::empty(),
        opens_invariants none
        no_unwind
    {
        let mut cur_link = None;
        core::mem::swap(&mut self.head, &mut cur_link);
        loop
            invariant
                self@ == Seq::<T>::empty(),
            decreases link_view(cur_link).len(),
        {
            match cur_link {
                None => {
                    break ;
                },
                Some(mut boxed_node) => {
                    let mut next = None;
                    core::mem::swap(&mut boxed_node.next, &mut next);
                    proof {
                        assert(link_view(cur_link).len() == 1 + link_view(next).len());
                    }
                    cur_link = next;
                },
            }
        }
    }
}

/// An iterator that owns a list and removes its elements one by one.
pub struct IntoIter<T>(List<T>);

impl<T> View for IntoIter<T> {
    type V = Seq<T>;

    /// The elements still to come, next first.
    closed spec fn view(&self) -> Seq<T> {
        self.0@
    }
}

impl<T> IntoIter<T> {
    /// Hands out the next element by value; `None` once the list is empty,
    /// and from then on.
    pub fn next(&mut self) -> (item: Option<T>)
        ensures
            item == front(old(self)@),
            final(self)@ == pop_front(old(self)@),
    {
        self.0.pop()
    }
}

/// An iterator over shared references to the elements of a list.
pub struct Iter<'a, T> {
    next: Option<&'a Node<T>>,
}

impl<'a, T> View for Iter<'a, T> {
    type V = Seq<T>;

    /// The elements still to come, next first.
    closed spec fn view(&self) -> Seq<T> {
        match self.next {
            None => Seq::empty(),
            Some(node) => node@,
        }
    }
}

impl<'a, T> Iter<'a, T> {
    /// Hands out a reference to the next element and moves on to the node
    /// behind it; `None` at the end of the chain, and from then on.
    pub fn next(&mut self) -> (item: Option<&'a T>)
        ensures
            item.is_none() <==> old(self)@.len() == 0,
            item matches Some(elem) ==> front(old(self)@) == Some(*elem),
            final(self)@ == pop_front(old(self)@),
    {
        match self.next {
            None => None,
            Some(node) => {
                proof {
                    assert(push_front(link_view(node.next), node.elem).skip(1) =~= link_view(
                        node.next,
                    ));
                }
                self.next = match node.next.as_ref() {
                    None => None,
                    Some(node) => Some(&**node),
                };
                Some(&node.elem)
            },
        }
    }
}

/// An iterator over mutable references to the elements of a list.
pub struct IterMut<'a, T> {
    /// The node whose element comes next, if there is one.
    pub next: Option<&'a mut Node<T>>,
}

impl<'a, T> View for IterMut<'a, T> {
    type V = Seq<T>;

    /// The elements still to come, next first, as they are now.
    open spec fn view(&self) -> Seq<T> {
        match self.next {
            None => Seq::empty(),
            Some(node) => node@,
        }
    }
}

impl<'a, T> IterMut<'a, T> {
    /// Hands out a mutable reference to the next element and moves on to
    /// the node behind it; `None` at the end of the chain, and from then on.
    ///
    /// The last clause says what becomes of the node that was next: in the
    /// end it holds what the caller leaves in the element handed out,
    /// followed by what the nodes behind it hold in the end.
    pub fn next(&mut self) -> (item: Option<&'a mut T>)
        ensures
            item.is_none() <==> old(self)@.len() == 0,
            item matches Some(elem) ==> front(old(self)@) == Some(*elem),
            final(self)@ == pop_front(old(self)@),
            match old(self).next {
                None => item.is_none() && final(self).next.is_none(),
                Some(node) => item.is_some() && final(node)@ == push_front(
                    match final(self).next {
                        None => Seq::empty(),
                        Some(behind) => final(behind)@,
                    },
                    *final(item.unwrap()),
                ),
            },
    {
        match self.next.take() {
            None => None,
            Some(node) => {
                proof {
                    assert(push_front(link_view(node.next), node.elem).skip(1) =~= link_view(
                        node.next,
                    ));
                }
                self.next = match node.next.as_mut() {
                    None => None,
                    Some(node) => Some(&mut **node),
                };
                Some(&mut node.elem)
            },
        }
    }
}

} // verus!
