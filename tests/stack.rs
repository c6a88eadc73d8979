use chip8::stack::{Stack, StackOverflowError};

#[test]
fn seventeenth_push_overflows_a_stack_of_sixteen() {
    let mut s: Stack<usize> = Stack::with_capacity(16);
    for k in 0..16usize {
        assert_eq!(s.push(k).ok(), Some(k + 1));
    }
    assert!(matches!(s.push(16), Err(StackOverflowError)));
    assert_eq!(s.len(), 16);
    assert_eq!(s.capacity(), 16);
}

#[test]
fn pop_on_empty_stack_is_none() {
    let mut s: Stack<usize> = Stack::with_capacity(16);
    assert_eq!(s.pop(), None);
    assert_eq!(s.len(), 0);
}

#[test]
fn stack_is_last_in_first_out() {
    let mut s: Stack<usize> = Stack::with_capacity(4);
    assert!(s.push(7).is_ok());
    assert!(s.push(9).is_ok());
    assert_eq!(s.items(), &vec![7, 9]);
    assert_eq!(s.pop(), Some(9));
    assert_eq!(s.pop(), Some(7));
    assert_eq!(s.pop(), None);
}

#[test]
fn zero_capacity_stack_refuses_every_push() {
    let mut s: Stack<u8> = Stack::with_capacity(0);
    assert!(s.push(1).is_err());
    assert_eq!(s.len(), 0);
}
