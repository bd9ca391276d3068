use lifo_stack::{LIFOEntry, Stack};

#[test]
fn get_or_insert() {
    let mut stack = vec![1, 2, 3];
    let mut entry = stack.lifo_push(4);
    assert_eq!(*entry.deref(), 4);
    *entry.deref_mut() = 5;
    assert_eq!(*entry.deref(), 5);
    drop(entry);
    assert_eq!(stack, vec![1, 2, 3, 5]);
    let entry = stack.lifo().unwrap();
    assert_eq!(entry.pop(), 5);
    assert_eq!(stack, vec![1, 2, 3]);
}

#[test]
fn empty_stack_signals_absence() {
    let mut stack: Vec<i32> = Vec::new();
    assert!(stack.s_is_empty());
    assert!(stack.lifo_ref().is_none());
    assert!(stack.lifo_mut().is_none());
    assert!(stack.lifo().is_none());
    assert_eq!(stack.s_pop(), None);
    assert!(stack.is_empty());
}

#[test]
fn pops_come_back_in_reverse_push_order() {
    let mut stack: Vec<u32> = Vec::new();
    for i in 0..5u32 {
        stack.s_push(i * 10);
    }
    assert_eq!(stack.s_pop(), Some(40));
    assert_eq!(stack.s_pop(), Some(30));
    stack.s_push(7);
    assert_eq!(stack.s_pop(), Some(7));
    assert_eq!(stack.s_pop(), Some(20));
    assert_eq!(stack.s_pop(), Some(10));
    assert_eq!(stack.s_pop(), Some(0));
    assert_eq!(stack.s_pop(), None);
}

#[test]
fn is_empty_agrees_with_checked_pop() {
    let mut stack = vec!['a'];
    assert!(!stack.s_is_empty());
    assert_eq!(stack.s_pop(), Some('a'));
    assert!(stack.s_is_empty());
    assert_eq!(stack.s_pop(), None);
}

#[test]
fn unchecked_matches_checked() {
    let mut stack = vec![3, 1, 4, 1, 5];
    assert_eq!(stack.lifo_ref(), Some(&5));
    assert_eq!(*stack.lifo_ref_unchecked(), 5);
    assert_eq!(stack.lifo_mut().map(|r| *r), Some(5));
    *stack.lifo_mut_unchecked() = 9;
    assert_eq!(stack, vec![3, 1, 4, 1, 9]);
    let mut other = stack.clone();
    assert_eq!(stack.s_pop_unchecked(), 9);
    assert_eq!(other.s_pop(), Some(9));
    assert_eq!(stack, other);
    assert_eq!(stack, vec![3, 1, 4, 1]);
}

#[test]
fn writing_through_entry_keeps_length() {
    let mut stack = vec![10, 20, 30];
    let mut entry = stack.lifo().unwrap();
    *entry.deref_mut() = 99;
    *entry.deref_mut() += 1;
    drop(entry);
    assert_eq!(stack.len(), 3);
    assert_eq!(stack.last(), Some(&100));
    assert_eq!(stack, vec![10, 20, 100]);
}

#[test]
fn push_entry_then_pop_restores_stack() {
    let mut stack = vec![String::from("x")];
    let entry = stack.lifo_push(String::from("y"));
    assert_eq!(entry.deref().as_str(), "y");
    assert_eq!(entry.pop(), "y");
    assert_eq!(stack, vec![String::from("x")]);
    let entry = stack.lifo_push(String::from("z"));
    drop(entry);
    assert_eq!(stack.len(), 2);
}

#[test]
fn push_checked_pushes_on_growable_stack() {
    let mut stack: Vec<u8> = vec![1];
    assert_eq!(stack.s_push_checked(2), Some(()));
    assert_eq!(stack, vec![1, 2]);
}

#[test]
fn unchecked_entry_on_known_non_empty_stack() {
    let mut stack = vec![1, 2];
    let entry = stack.lifo_unchecked();
    assert_eq!(*entry.deref(), 2);
    drop(entry);
    let entry = LIFOEntry::new(&mut stack);
    assert_eq!(entry.pop(), 2);
    assert_eq!(stack, vec![1]);
}
