//! Laws of the stack contracts, stated over the sequence model that `Stack::items` gives.
use crate::stack::{rest_of, top_of};
use vstd::prelude::*;

verus! {

/// The items of a stack after each of `xs` is pushed in turn onto a stack holding `s`, as
/// `Stack::s_push` describes each push.
pub open spec fn pushed_all<T>(s: Seq<T>, xs: Seq<T>) -> Seq<T>
    decreases xs.len(),
{
    if xs.len() == 0 {
        s
    } else {
        pushed_all(s, xs.drop_last()).push(xs.last())
    }
}

/// Pushing the items in turn lays them on top of what was there, in the order pushed.
pub proof fn lemma_pushed_all_appends<T>(s: Seq<T>, xs: Seq<T>)
    ensures
        pushed_all(s, xs) == s + xs,
    decreases xs.len(),
{
    if xs.len() > 0 {
        lemma_pushed_all_appends(s, xs.drop_last());
        assert(s + xs =~= (s + xs.drop_last()).push(xs.last()));
    }
}

/// After any sequence of pushes, a pop returns the item pushed last and leaves the stack as it
/// was before that push: the item popped after that is the one pushed before it, and so on.
pub proof fn lemma_pop_after_pushes<T>(s: Seq<T>, xs: Seq<T>)
    requires
        xs.len() > 0,
    ensures
        top_of(pushed_all(s, xs)) == Some(xs.last()),
        rest_of(pushed_all(s, xs)) == pushed_all(s, xs.drop_last()),
{
}

/// A stack is empty exactly when a checked pop finds nothing to return.
pub proof fn lemma_empty_iff_pop_absent<T>(s: Seq<T>)
    ensures
        s.len() == 0 <==> top_of(s) is None,
{
}

/// On an empty stack the checked pop and the checked top query both find nothing, and the pop
/// leaves the stack as it was.
pub proof fn lemma_empty_signals_absence<T>(s: Seq<T>)
    requires
        s.len() == 0,
    ensures
        top_of(s) is None,
        rest_of(s) == s,
{
}

/// On a stack that is not empty, the unchecked pop returns what the checked pop returns, and
/// leaves the same items behind.
pub proof fn lemma_unchecked_agree<T>(s: Seq<T>)
    requires
        s.len() > 0,
    ensures
        top_of(s) == Some(s.last()),
        rest_of(s) == s.drop_last(),
{
}

/// Popping the entry that a push returned gives back the pushed item and the stack as it was
/// before the push.
pub proof fn lemma_push_entry_then_pop<T>(s: Seq<T>, x: T)
    ensures
        s.push(x).len() > 0,
        s.push(x).last() == x,
        s.push(x).drop_last() == s,
{
    assert(s.push(x).drop_last() =~= s);
}

} // verus!
