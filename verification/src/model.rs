//! The mathematical model of a list: the sequence of its elements, head
//! first. The head is index 0, so the element pushed last comes first.

use vstd::prelude::*;

verus! {

/// The sequence `s` with `x` put in front of it.
pub open spec fn push_front<T>(s: Seq<T>, x: T) -> Seq<T> {
    seq![x] + s
}

/// The first element of `s`, if it has one.
pub open spec fn front<T>(s: Seq<T>) -> Option<T> {
    if s.len() > 0 {
        Some(s[0])
    } else {
        None
    }
}

/// The sequence `s` without its first element; an empty `s` stays empty.
pub open spec fn pop_front<T>(s: Seq<T>) -> Seq<T> {
    if s.len() > 0 {
        s.skip(1)
    } else {
        s
    }
}

/// The sequence that results from putting the elements of `xs` in front of
/// `s` one after the other, `xs[0]` first.
pub open spec fn push_all<T>(s: Seq<T>, xs: Seq<T>) -> Seq<T>
    decreases xs.len(),
{
    if xs.len() == 0 {
        s
    } else {
        push_all(push_front(s, xs[0]), xs.skip(1))
    }
}

/// What `n` successive removals from the front of `s` return, in the order
/// in which they are made.
pub open spec fn drain<T>(s: Seq<T>, n: nat) -> Seq<Option<T>>
    decreases n,
{
    if n == 0 {
        Seq::empty()
    } else {
        seq![front(s)] + drain(pop_front(s), (n - 1) as nat)
    }
}

/// What is left of `s` after `n` successive removals from its front.
pub open spec fn drained<T>(s: Seq<T>, n: nat) -> Seq<T>
    decreases n,
{
    if n == 0 {
        s
    } else {
        drained(pop_front(s), (n - 1) as nat)
    }
}

} // verus!
