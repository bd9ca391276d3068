use crate::stack::Stack;
use vstd::prelude::*;

verus! {

/// An "entry" object corresponding to the top item of a stack, which it borrows exclusively.
///
/// An entry is made only over a stack that is not empty (`wf`), and while it lives nothing else
/// can reach the stack, so the top item can be read, written and popped without checking again.
///
/// In a vector, this is an object representing the last element.
pub struct LIFOEntry<'a, C: ?Sized>(pub(crate) &'a mut C);

impl<'a, C: ?Sized> LIFOEntry<'a, C> {
    /// The borrowed stack: its value now, and through `final` its value once the entry is gone.
    pub open(crate) spec fn borrowed(&self) -> &'a mut C {
        self.0
    }
}

impl<'a, C: ?Sized + Stack> LIFOEntry<'a, C> {
    /// The items of the borrowed stack as they are now.
    pub open spec fn current(&self) -> Seq<C::Item> {
        self.borrowed().items()
    }

    /// The borrowed stack is not empty.
    pub open spec fn wf(&self) -> bool {
        self.current().len() > 0
    }

    /// Once an entry is done with (dropped, not popped), the stack holds what the entry last saw.
    pub proof fn lemma_released(&self)
        requires
            has_resolved(*self),
        ensures
            final(self.borrowed()).items() == self.current(),
    {
    }

    /// Writing `v` through `deref_mut` of an entry over a stack that is not empty, then dropping
    /// the entry, leaves the stack with its length unchanged and `v` on top.
    pub proof fn lemma_write_then_release(&self, after: &Self, v: C::Item)
        requires
            self.wf(),
            after.current() == self.current().update(self.current().len() - 1, v),
            has_resolved(*after),
        ensures
            final(after.borrowed()).items().len() == self.current().len(),
            final(after.borrowed()).items().last() == v,
    {
        after.lemma_released();
    }

    /// Creates a new "entry" object from the mutable reference to a stack that is not empty.
    pub fn new(stack: &'a mut C) -> (e: Self)
        requires
            old(stack).items().len() > 0,
        ensures
            e.wf(),
            e.current() == old(stack).items(),
            final(e.borrowed()).items() == final(stack).items(),
    {
        LIFOEntry(stack)
    }

    /// Pops the top item from the stack, ending the borrow.
    pub fn pop(self) -> (r: C::Item)
        requires
            self.wf(),
        ensures
            r == self.current().last(),
            final(self.borrowed()).items() == self.current().drop_last(),
    {
        let LIFOEntry(stack) = self;
        stack.s_pop_unchecked()
    }

    /// Reads the top item.
    ///
    /// This and `deref_mut` stand in for `Deref` and `DerefMut`, whose methods cannot carry the
    /// precondition `wf`.
    pub fn deref(&self) -> (r: &C::Item)
        requires
            self.wf(),
        ensures
            *r == self.current().last(),
    {
        self.0.lifo_ref_unchecked()
    }

    /// A mutable reference to the top item: what is written through it becomes the top item,
    /// and the stack keeps its length.
    pub fn deref_mut(&mut self) -> (r: &mut C::Item)
        requires
            old(self).wf(),
        ensures
            *r == old(self).current().last(),
            final(self).current() == old(self).current().update(
                old(self).current().len() - 1,
                *final(r),
            ),
            final(final(self).borrowed()).items() == final(old(self).borrowed()).items(),
    {
        let LIFOEntry(stack) = self;
        stack.lifo_mut_unchecked()
    }
}

} // verus!
