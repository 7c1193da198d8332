//! What holds of every list, proved over the model: the order in which
//! elements come back, what an exhausted list does, and what a change to
//! the head element leaves in place.

use crate::model::{drain, drained, front, pop_front, push_all, push_front};
use vstd::prelude::*;

verus! {

/// Elements pushed one after the other lie in front of what was there
/// before, the one pushed last first.
pub proof fn push_all_reverses<T>(s: Seq<T>, xs: Seq<T>)
    ensures
        push_all(s, xs) == xs.reverse() + s,
    decreases xs.len(),
{
    if xs.len() > 0 {
        let rest = xs.skip(1);
        push_all_reverses(push_front(s, xs[0]), rest);
        assert(rest.reverse() + push_front(s, xs[0]) =~= xs.reverse() + s);
    } else {
        assert(xs.reverse() + s =~= s);
    }
}

/// Successive removals hand out the elements in the order in which the
/// list holds them, head first, and `None` from the moment the list is
/// empty; what is left is the list without the elements handed out.
pub proof fn drain_walks_front_to_back<T>(s: Seq<T>, n: nat)
    ensures
        drain(s, n).len() == n,
        forall|i: int| 0 <= i < n && i < s.len() ==> drain(s, n)[i] == Some(s[i]),
        forall|i: int| 0 <= i < n && i >= s.len() ==> drain(s, n)[i].is_none(),
        n <= s.len() ==> drained(s, n) == s.skip(n as int),
        n >= s.len() ==> drained(s, n) == Seq::<T>::empty(),
    decreases n,
{
    if n > 0 {
        let rest = pop_front(s);
        let m = (n - 1) as nat;
        drain_walks_front_to_back(rest, m);
        assert forall|i: int| 0 <= i < n && i < s.len() implies drain(s, n)[i] == Some(s[i]) by {
            if i > 0 {
                assert(drain(s, n)[i] == drain(rest, m)[i - 1]);
                assert(rest[i - 1] == s[i]);
            }
        }
        assert forall|i: int| 0 <= i < n && i >= s.len() implies drain(s, n)[i].is_none() by {
            if i > 0 {
                assert(drain(s, n)[i] == drain(rest, m)[i - 1]);
            }
        }
        if n <= s.len() {
            assert(rest.skip(m as int) =~= s.skip(n as int));
        }
        if n >= s.len() {
            assert(drained(s, n) =~= Seq::<T>::empty());
        }
    } else {
        assert(s.skip(0) =~= s);
        if s.len() == 0 {
            assert(s =~= Seq::<T>::empty());
        }
    }
}

/// Last in, first out: after the elements of `xs` have been pushed in
/// order, as many removals return them in the opposite order and leave the
/// list as it was before the pushes.
pub proof fn pops_return_pushes_in_reverse<T>(s: Seq<T>, xs: Seq<T>)
    ensures
        drain(push_all(s, xs), xs.len()) == xs.reverse().map_values(|x: T| Some(x)),
        drained(push_all(s, xs), xs.len()) == s,
{
    let full = push_all(s, xs);
    let n = xs.len();
    push_all_reverses(s, xs);
    drain_walks_front_to_back(full, n);
    assert(full.skip(n as int) =~= s);
    assert(drain(full, n) =~= xs.reverse().map_values(|x: T| Some(x)));
}

/// An empty list stays empty under removal: every one of `n` removals
/// returns `None`, and the list is the same afterwards.
pub proof fn pop_on_empty_repeats<T>(s: Seq<T>, n: nat)
    requires
        s.len() == 0,
    ensures
        drain(s, n) == Seq::new(n, |i: int| None::<T>),
        drained(s, n) == s,
{
    drain_walks_front_to_back(s, n);
    assert(drain(s, n) =~= Seq::new(n, |i: int| None::<T>));
    assert(s =~= Seq::<T>::empty());
}

/// A list that has been drained stays drained: once as many elements have
/// been removed as the list held, every further removal returns `None`.
pub proof fn drained_list_stays_empty<T>(s: Seq<T>, n: nat, i: int)
    requires
        s.len() <= i < n,
    ensures
        drain(s, n)[i].is_none(),
        front(drained(s, i as nat)).is_none(),
{
    drain_walks_front_to_back(s, n);
    drain_walks_front_to_back(s, i as nat);
}

/// A look at the head shows the first element, the one that the next
/// removal returns, and takes nothing away: the list is still that element
/// followed by what the removal would leave, and writing the element back
/// as it was changes nothing. An empty list shows nothing.
pub proof fn peek_shows_what_pop_removes<T>(s: Seq<T>)
    ensures
        s.len() == 0 ==> front(s).is_none(),
        s.len() > 0 ==> front(s) == Some(s[0]),
        s.len() > 0 ==> s == push_front(pop_front(s), s[0]),
        s.len() > 0 ==> s.update(0, s[0]) == s,
{
    if s.len() > 0 {
        assert(s =~= push_front(pop_front(s), s[0]));
        assert(s.update(0, s[0]) =~= s);
    }
}

/// A value written into the head element is what the next look and the
/// next removal find there, and the elements behind the head are as they
/// were.
pub proof fn head_update_is_seen<T>(s: Seq<T>, value: T)
    requires
        s.len() > 0,
    ensures
        front(s.update(0, value)) == Some(value),
        pop_front(s.update(0, value)) == pop_front(s),
        s.update(0, value) == push_front(pop_front(s), value),
{
    assert(s.update(0, value).skip(1) =~= s.skip(1));
    assert(s.update(0, value) =~= push_front(s.skip(1), value));
}

/// Removal undoes insertion: the element pushed last is the one that comes
/// back, and the list is then as it was before the push.
pub proof fn pop_undoes_push<T>(s: Seq<T>, x: T)
    ensures
        front(push_front(s, x)) == Some(x),
        pop_front(push_front(s, x)) == s,
{
    assert(push_front(s, x).skip(1) =~= s);
}

} // verus!
