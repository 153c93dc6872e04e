//! The mathematical model of a stack: a sequence whose index 0 is the top.

use vstd::prelude::*;

verus! {

/// The stack `s` with `elem` put on top.
pub open spec fn pushed<T>(s: Seq<T>, elem: T) -> Seq<T> {
    seq![elem] + s
}

/// What one removal from `s` yields, and the stack that is left.
pub open spec fn popped<T>(s: Seq<T>) -> (Option<T>, Seq<T>) {
    if s.len() == 0 {
        (None, s)
    } else {
        (Some(s[0]), s.skip(1))
    }
}

/// The stack that is left of `s` after `n` removals.
pub open spec fn popped_n<T>(s: Seq<T>, n: nat) -> Seq<T>
    decreases n,
{
    if n == 0 {
        s
    } else {
        popped_n(popped(s).1, (n - 1) as nat)
    }
}

/// Last in, first out: removing from a stack right after `elem` was put on it
/// yields `elem` and leaves the stack as it was before.
pub proof fn lemma_pop_after_push<T>(s: Seq<T>, elem: T)
    ensures
        popped(pushed(s, elem)) == (Some(elem), s),
{
    assert(pushed(s, elem).skip(1) =~= s);
}

/// Overwriting the top element in place changes what the next removal yields
/// and nothing else.
pub proof fn lemma_pop_after_overwrite<T>(s: Seq<T>, elem: T)
    requires
        s.len() > 0,
    ensures
        popped(s.update(0, elem)) == (Some(elem), popped(s).1),
{
    assert(s.update(0, elem).skip(1) =~= s.skip(1));
}

/// An empty stack stays empty: however many removals came before, the stack
/// is still empty and one more removal yields nothing.
pub proof fn lemma_empty_stays_empty<T>(s: Seq<T>, n: nat)
    requires
        s.len() == 0,
    ensures
        popped_n(s, n) == s,
        popped(popped_n(s, n)) == (None::<T>, s),
    decreases n,
{
    if n > 0 {
        lemma_empty_stays_empty(s, (n - 1) as nat);
    }
}

/// Removals walk a stack from the top down: after `n` removals what was at
/// index `n` is on top.
pub proof fn lemma_popped_n_is_skip<T>(s: Seq<T>, n: nat)
    requires
        n <= s.len(),
    ensures
        popped_n(s, n) == s.skip(n as int),
    decreases n,
{
    if n == 0 {
        assert(s.skip(0) =~= s);
    } else {
        lemma_popped_n_is_skip(s.skip(1), (n - 1) as nat);
        assert(s.skip(1).skip(n - 1) =~= s.skip(n as int));
    }
}

/// Draining yields the stack's elements in order, top first, and then
/// nothing: the removal that follows `n` earlier ones yields the element at
/// index `n`; after as many removals as the stack is long the stack is empty
/// and the next removal yields nothing.
pub proof fn lemma_drain_order<T>(s: Seq<T>, n: nat)
    requires
        n <= s.len(),
    ensures
        n < s.len() ==> popped(popped_n(s, n)).0 == Some(s[n as int]),
        n == s.len() ==> popped_n(s, n) == Seq::<T>::empty(),
        n == s.len() ==> popped(popped_n(s, n)).0 == None::<T>,
        popped(popped_n(s, n)).1 == popped_n(s, n + 1),
{
    lemma_popped_n_is_skip(s, n);
    lemma_popped_n_unfold_last(s, n);
    if n == s.len() {
        assert(s.skip(n as int) =~= Seq::<T>::empty());
    }
}

/// One more removal after `n` is the same as `n + 1` removals.
pub proof fn lemma_popped_n_unfold_last<T>(s: Seq<T>, n: nat)
    ensures
        popped_n(s, n + 1) == popped(popped_n(s, n)).1,
    decreases n,
{
    if n == 0 {
        assert(popped_n(s, 1) == popped_n(popped(s).1, 0));
    } else {
        lemma_popped_n_unfold_last(popped(s).1, (n - 1) as nat);
        assert(popped_n(s, n + 1) == popped_n(popped(s).1, n));
    }
}

} // verus!
