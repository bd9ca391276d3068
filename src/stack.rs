use crate::entry::LIFOEntry;
use vstd::prelude::*;

verus! {

/// The top item of a sequence, if there is one.
pub open spec fn top_of<T>(s: Seq<T>) -> Option<T> {
    if s.len() == 0 {
        None
    } else {
        Some(s.last())
    }
}

/// What is left of a sequence once its top item is taken off; an empty one stays as it is.
pub open spec fn rest_of<T>(s: Seq<T>) -> Seq<T> {
    if s.len() == 0 {
        s
    } else {
        s.drop_last()
    }
}

/// Implementors of this trait can be used as a stack: the last item pushed is the first one
/// popped.
///
/// Each checked operation has an unchecked twin for callers that already know the stack is not
/// empty; the twin states that knowledge as its precondition.
pub trait Stack {
    /// The type of the items stored in the stack.
    type Item;

    /// The items of the stack, bottom first: the top is the last one.
    spec fn items(&self) -> Seq<Self::Item>;

    /// Returns `true` if the stack is empty.
    fn s_is_empty(&self) -> (r: bool)
        ensures
            r <==> self.items().len() == 0,
    ;

    /// Pushes an item to the stack.
    fn s_push(&mut self, item: Self::Item)
        ensures
            final(self).items() == old(self).items().push(item),
    ;

    /// Pushes an item to the stack, or returns `None` and leaves the stack as it was.
    ///
    /// A growable stack always succeeds, as this default does; a stack of fixed capacity
    /// overrides it to refuse the item when it is full.
    fn s_push_checked(&mut self, item: Self::Item) -> (r: Option<()>)
        ensures
            r is Some ==> final(self).items() == old(self).items().push(item),
            r is None ==> final(self).items() == old(self).items(),
    {
        self.s_push(item);
        Some(())
    }

    /// Pushes an item to the stack and returns the entry of the pushed item.
    fn lifo_push(&mut self, item: Self::Item) -> (e: LIFOEntry<'_, Self>)
        ensures
            e.borrowed().items() == old(self).items().push(item),
            final(e.borrowed()).items() == final(self).items(),
    ;

    /// Pops an item from the stack: `None` when it is empty.
    fn s_pop(&mut self) -> (r: Option<Self::Item>)
        ensures
            r == top_of(old(self).items()),
            final(self).items() == rest_of(old(self).items()),
    ;

    /// Pops an item from a stack that is not empty.
    fn s_pop_unchecked(&mut self) -> (r: Self::Item)
        requires
            old(self).items().len() > 0,
        ensures
            r == old(self).items().last(),
            final(self).items() == old(self).items().drop_last(),
    {
        self.s_pop().unwrap()
    }

    /// Returns the entry of the top item, or `None` when the stack is empty.
    ///
    /// The entry can be read, written through, and popped without checking again.
    fn lifo(&mut self) -> (r: Option<LIFOEntry<'_, Self>>)
        ensures
            r is None <==> old(self).items().len() == 0,
            r is None ==> final(self).items() == old(self).items(),
            r is Some ==> r.unwrap().borrowed().items() == old(self).items()
                && final(r.unwrap().borrowed()).items() == final(self).items(),
    {
        if self.s_is_empty() {
            None
        } else {
            Some(LIFOEntry(self))
        }
    }

    /// Returns the entry of the top item of a stack that is not empty.
    fn lifo_unchecked(&mut self) -> (e: LIFOEntry<'_, Self>)
        requires
            old(self).items().len() > 0,
        ensures
            e.borrowed().items() == old(self).items(),
            final(e.borrowed()).items() == final(self).items(),
    {
        self.lifo().unwrap()
    }

    /// Returns a shared reference to the top item, or `None` when the stack is empty.
    fn lifo_ref(&self) -> (r: Option<&Self::Item>)
        ensures
            r is Some <==> self.items().len() > 0,
            r is Some ==> *r.unwrap() == self.items().last(),
    ;

    /// Returns a shared reference to the top item of a stack that is not empty.
    fn lifo_ref_unchecked(&self) -> (r: &Self::Item)
        requires
            self.items().len() > 0,
        ensures
            *r == self.items().last(),
    {
        self.lifo_ref().unwrap()
    }

    /// Returns a mutable reference to the top item, or `None` when the stack is empty.
    ///
    /// What is written through the reference becomes the top item.
    fn lifo_mut(&mut self) -> (r: Option<&mut Self::Item>)
        ensures
            old(self).items().len() == 0 ==> r is None && final(self).items() == old(self).items(),
            old(self).items().len() > 0 ==> r is Some && *r.unwrap() == old(self).items().last()
                && final(self).items() == old(self).items().update(
                old(self).items().len() - 1,
                *final(r.unwrap()),
            ),
    ;

    /// Returns a mutable reference to the top item of a stack that is not empty.
    fn lifo_mut_unchecked(&mut self) -> (r: &mut Self::Item)
        requires
            old(self).items().len() > 0,
        ensures
            *r == old(self).items().last(),
            final(self).items() == old(self).items().update(
                old(self).items().len() - 1,
                *final(r),
            ),
    {
        self.lifo_mut().unwrap()
    }
}

impl<T> Stack for Vec<T> {
    type Item = T;

    open spec fn items(&self) -> Seq<T> {
        self@
    }

    fn s_is_empty(&self) -> (r: bool) {
        self.is_empty()
    }

    fn s_push(&mut self, item: T) {
        self.push(item);
    }

    /// A vector grows as needed, so the checked push always succeeds.
    fn s_push_checked(&mut self, item: T) -> (r: Option<()>)
        ensures
            r == Some(()),
            final(self)@ == old(self)@.push(item),
    {
        self.s_push(item);
        Some(())
    }

    fn lifo_push(&mut self, item: T) -> (e: LIFOEntry<'_, Self>) {
        self.push(item);
        self.lifo_unchecked()
    }

    fn s_pop(&mut self) -> (r: Option<T>) {
        self.pop()
    }

    fn lifo_ref(&self) -> (r: Option<&T>) {
        self.last()
    }

    fn lifo_mut(&mut self) -> (r: Option<&mut T>) {
        self.as_mut_slice().last_mut()
    }
}

} // verus!
