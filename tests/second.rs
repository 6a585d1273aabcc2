use linked_lists::second::List;

fn drain<T>(list: List<T>) -> Vec<T> {
    let mut it = list.into_iter();
    let mut out = Vec::new();
    while let Some(x) = it.next() {
        out.push(x);
    }
    out
}

#[test]
fn test_iter_mut() {
    let mut list = List::new();
    list.push(3);
    list.push(2);
    list.push(1);
    let mut it = list.iter_mut();
    while let Some(x) = it.next() {
        *x *= 10;
    }
    let xs = drain(list);
    assert_eq!(xs, vec![10, 20, 30]);
}

#[test]
fn second_test_basics() {
    let mut list = List::new();
    list.push(1);
    list.push(2);
    assert_eq!(list.pop(), Some(2));
    list.push(3);
    assert_eq!(list.peek(), Some(&3));
    list.peek_mut().map(|x| *x *= 10);
    list.push(4);
    assert_eq!(drain(list.clone()), vec![4, 30, 1]);
    {
        let mut list = list.clone();
        assert_eq!(list.pop(), Some(4));
        assert_eq!(list.pop(), Some(30));
        assert_eq!(list.pop(), Some(1));
        assert_eq!(list.pop(), None);
    }
    let mut it = list.iter();
    let mut xs = Vec::new();
    while let Some(x) = it.next() {
        xs.push(x);
    }
    assert_eq!(xs, vec![&4, &30, &1]);
}

#[test]
fn second_pops_in_reverse_push_order() {
    let mut list = List::new();
    for x in ["a", "b", "c"] {
        list.push(x.to_string());
    }
    assert_eq!(list.pop(), Some("c".to_string()));
    assert_eq!(list.pop(), Some("b".to_string()));
    assert_eq!(list.pop(), Some("a".to_string()));
    assert_eq!(list.pop(), None);
}

#[test]
fn second_empty_is_absent_repeatably() {
    let mut list: List<i32> = List::new();
    assert_eq!(list.peek(), None);
    assert_eq!(list.peek_mut(), None);
    assert_eq!(list.pop(), None);
    assert_eq!(list.pop(), None);
    assert_eq!(list.peek(), None);
    assert!(list.iter().next().is_none());
    assert!(list.iter_mut().next().is_none());
}

#[test]
fn second_clone_is_independent() {
    let mut list = List::new();
    list.push(1);
    list.push(2);
    list.push(3);
    let copy = list.clone();
    if let Some(x) = list.peek_mut() {
        *x = 99;
    }
    assert_eq!(list.peek(), Some(&99));
    assert_eq!(copy.peek(), Some(&3));
    assert_eq!(drain(copy), vec![3, 2, 1]);
    assert_eq!(drain(list), vec![99, 2, 1]);
}

#[test]
fn second_peek_mut_writes_the_head() {
    let mut list = List::new();
    list.push(5);
    list.push(6);
    if let Some(x) = list.peek_mut() {
        *x += 1;
    }
    assert_eq!(list.pop(), Some(7));
    assert_eq!(list.pop(), Some(5));
}

#[test]
fn second_long_chain_drops() {
    let mut list = List::new();
    for x in 0..200_000u64 {
        list.push(x);
    }
    assert_eq!(list.peek(), Some(&199_999));
    drop(list);
}

#[test]
fn second_long_chain_clones() {
    let mut list = List::new();
    for x in 0..100_000u64 {
        list.push(x);
    }
    let copy = list.clone();
    assert_eq!(copy.peek(), Some(&99_999));
    drop(list);
    drop(copy);
}
