//! Properties of the store that involve more than one call, stated over the
//! model functions that the methods' contracts use.

use vstd::prelude::*;
use crate::pot::{popped, pushed, top};

verus! {

/// The contents after `vs` is pushed, one value after another in order, onto
/// a store of capacity `cap` holding `s`.
pub open spec fn pushed_all<T>(s: Seq<T>, vs: Seq<T>, cap: nat) -> Seq<T>
    decreases vs.len(),
{
    if vs.len() == 0 {
        s
    } else {
        pushed(pushed_all(s, vs.drop_last(), cap), vs.last(), cap)
    }
}

/// The values that popping a store holding `s` hands out, in order, until a
/// pop finds it empty.
pub open spec fn drained<T>(s: Seq<T>) -> Seq<T>
    decreases s.len(),
{
    match top(s) {
        None => Seq::empty(),
        Some(v) => seq![v] + drained(popped(s)),
    }
}

/// A fresh store is empty, and it is not full unless its capacity is zero.
pub proof fn lemma_fresh_store_is_empty<T>(cap: nat)
    ensures
        Seq::<T>::empty().len() == 0,
        cap > 0 ==> Seq::<T>::empty().len() != cap,
{
}

/// Pushing at most `cap` values onto an empty store of capacity `cap`:
/// every push finds room, and the store ends up holding the values in the
/// order they were pushed.
pub proof fn lemma_pushes_keep_order<T>(vs: Seq<T>, cap: nat)
    requires
        vs.len() <= cap,
    ensures
        pushed_all(Seq::<T>::empty(), vs, cap) == vs,
        forall|i: int|
            0 <= i < vs.len() ==> #[trigger] pushed_all(Seq::<T>::empty(), vs.take(i), cap).len()
                < cap,
{
    lemma_pushed_all_fits(vs, cap);
    assert forall|i: int| 0 <= i < vs.len() implies #[trigger] pushed_all(
        Seq::<T>::empty(),
        vs.take(i),
        cap,
    ).len() < cap by {
        lemma_pushed_all_fits(vs.take(i), cap);
    }
}

/// Pushing at most `cap` values onto an empty store of capacity `cap`
/// leaves it holding those values in order.
proof fn lemma_pushed_all_fits<T>(vs: Seq<T>, cap: nat)
    requires
        vs.len() <= cap,
    ensures
        pushed_all(Seq::<T>::empty(), vs, cap) == vs,
    decreases vs.len(),
{
    if vs.len() > 0 {
        lemma_pushed_all_fits(vs.drop_last(), cap);
        assert(vs.drop_last().push(vs.last()) =~= vs);
    }
}

/// A push onto a full store leaves its contents as they were.
pub proof fn lemma_push_when_full_changes_nothing<T>(s: Seq<T>, v: T, cap: nat)
    requires
        s.len() >= cap,
    ensures
        pushed(s, v, cap) == s,
{
}

/// Popping a store until it is empty hands out its values in the reverse of
/// the order they were pushed; after that a pop hands out nothing and the
/// store stays empty.
pub proof fn lemma_pops_reverse_order<T>(s: Seq<T>)
    ensures
        drained(s) == s.reverse(),
        top(popped(Seq::<T>::empty())) == None::<T>,
        popped(Seq::<T>::empty()) == Seq::<T>::empty(),
    decreases s.len(),
{
    if s.len() > 0 {
        lemma_pops_reverse_order(s.drop_last());
        assert(drained(s) =~= s.reverse());
    } else {
        assert(drained(s) =~= s.reverse());
    }
}

/// A push onto a store with room, followed by a pop, hands the pushed value
/// back and leaves the store as it was.
pub proof fn lemma_push_then_pop<T>(s: Seq<T>, v: T, cap: nat)
    requires
        s.len() < cap,
    ensures
        top(pushed(s, v, cap)) == Some(v),
        popped(pushed(s, v, cap)) == s,
{
    assert(s.push(v).drop_last() =~= s);
}

} // verus!
