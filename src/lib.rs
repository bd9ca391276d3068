//! A stack abstraction over LIFO containers, and an entry object whose existence certifies that
//! the stack it borrows is not empty.

mod entry;
mod laws;
mod stack;

pub use entry::LIFOEntry;
pub use laws::{
    lemma_empty_iff_pop_absent, lemma_empty_signals_absence, lemma_pop_after_pushes,
    lemma_push_entry_then_pop, lemma_pushed_all_appends, lemma_unchecked_agree, pushed_all,
};
pub use stack::{rest_of, top_of, Stack};
