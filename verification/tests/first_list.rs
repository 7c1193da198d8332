use linked_list::first::List;

#[test]
fn first_basics() {
    let mut list = List::new();

    // An empty list has nothing to give.
    assert_eq!(list.pop(), None);

    // Fill the list.
    list.push(1);
    list.push(2);
    list.push(3);

    // Removal returns the newest element first.
    assert_eq!(list.pop(), Some(3));
    assert_eq!(list.pop(), Some(2));

    // Pushing goes on where the removals stopped.
    list.push(4);
    list.push(5);

    // The new elements come back before the old one.
    assert_eq!(list.pop(), Some(5));
    assert_eq!(list.pop(), Some(4));

    // The oldest element is the last one out.
    assert_eq!(list.pop(), Some(1));
    assert_eq!(list.pop(), None);
}

#[test]
fn first_pops_come_back_in_reverse() {
    let mut list = List::new();
    for x in 0..50 {
        list.push(x * 3 - 7);
    }
    for x in (0..50).rev() {
        assert_eq!(list.pop(), Some(x * 3 - 7));
    }
    assert_eq!(list.pop(), None);
}

#[test]
fn first_pop_on_empty_repeats() {
    let mut list = List::new();
    for _ in 0..5 {
        assert_eq!(list.pop(), None);
    }
    list.push(i32::MIN);
    list.push(i32::MAX);
    assert_eq!(list.pop(), Some(i32::MAX));
    assert_eq!(list.pop(), Some(i32::MIN));
    for _ in 0..5 {
        assert_eq!(list.pop(), None);
    }
}

#[test]
fn first_push_after_exhaustion() {
    let mut list = List::new();
    list.push(1);
    assert_eq!(list.pop(), Some(1));
    assert_eq!(list.pop(), None);
    list.push(2);
    assert_eq!(list.pop(), Some(2));
    assert_eq!(list.pop(), None);
}

#[test]
fn first_long_list_is_dropped() {
    let mut list = List::new();
    for x in 0..100_000 {
        list.push(x);
    }
    drop(list);
}

#[test]
fn first_long_list_is_dropped_after_some_pops() {
    let mut list = List::new();
    for x in 0..100_000 {
        list.push(x);
    }
    assert_eq!(list.pop(), Some(99_999));
    assert_eq!(list.pop(), Some(99_998));
}
