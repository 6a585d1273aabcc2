use linked_lists::first::List;

#[test]
fn first_test_basics() {
    let mut list = List::new();
    assert_eq!(list.pop(), None);

    for x in [1, 2, 3] {
        list.push(x);
    }
    assert_eq!(list.pop(), Some(3));
    assert_eq!(list.pop(), Some(2));
    for x in [4, 5] {
        list.push(x);
    }
    assert_eq!(list.pop(), Some(5));
    assert_eq!(list.pop(), Some(4));
}

#[test]
fn first_pops_in_reverse_push_order() {
    let mut list = List::new();
    for x in 1..=5 {
        list.push(x);
    }
    for x in (1..=5).rev() {
        assert_eq!(list.pop(), Some(x));
    }
    assert_eq!(list.pop(), None);
}

#[test]
fn first_empty_pop_is_repeatable() {
    let mut list: List<u32> = List::new();
    assert_eq!(list.pop(), None);
    assert_eq!(list.pop(), None);
    assert_eq!(list.next(), None);
    list.push(7);
    assert_eq!(list.pop(), Some(7));
    assert_eq!(list.pop(), None);
}

#[test]
fn first_iter_borrows_head_to_tail() {
    let mut list = List::new();
    list.push(1);
    list.push(2);
    list.push(3);
    let mut it = list.iter();
    assert_eq!(it.next(), Some(&3));
    assert_eq!(it.next(), Some(&2));
    assert_eq!(it.next(), Some(&1));
    assert_eq!(it.next(), None);
    assert_eq!(it.next(), None);
    let mut again = list.iter();
    assert_eq!(again.next(), Some(&3));
    assert_eq!(list.pop(), Some(3));
}

#[test]
fn first_consuming_next_empties_the_list() {
    let mut list = List::new();
    list.push(1);
    list.push(2);
    assert_eq!(list.next(), Some(2));
    assert_eq!(list.next(), Some(1));
    assert_eq!(list.next(), None);
    assert_eq!(list.pop(), None);
}

#[test]
fn first_long_chain_drops() {
    let mut list = List::new();
    for x in 0..200_000u32 {
        list.push(x);
    }
    assert_eq!(list.pop(), Some(199_999));
    drop(list);
}
