use linked_lists::third::List;

#[test]
fn iter() {
    let list = List::new().prepend(1).prepend(2).prepend(3);
    let mut iter = list.iter();
    assert_eq!(iter.next(), Some(&3));
    assert_eq!(iter.next(), Some(&2));
    assert_eq!(iter.next(), Some(&1));
}

#[test]
fn third_test_basics() {
    let list = List::new();
    assert_eq!(list.head(), None);

    let list = list.prepend(1).prepend(2).prepend(3);
    assert_eq!(list.head(), Some(&3));

    let list = list.tail();
    assert_eq!(list.head(), Some(&2));

    let list = list.tail();
    assert_eq!(list.head(), Some(&1));

    let list = list.tail();
    assert_eq!(list.head(), None);

    let list = list.tail();
    assert_eq!(list.head(), None);
}

fn elems(list: &List<i32>) -> Vec<i32> {
    let mut it = list.iter();
    let mut out = Vec::new();
    while let Some(x) = it.next() {
        out.push(*x);
    }
    out
}

#[test]
fn third_tail_of_empty_is_empty() {
    let list: List<i32> = List::new();
    let t = list.tail();
    assert_eq!(t.head(), None);
    assert!(t.iter().next().is_none());
    assert_eq!(t.tail().head(), None);
}

#[test]
fn third_prepend_shares_tail() {
    let a = List::new().prepend(1).prepend(2);
    let b = a.prepend(3);
    assert_eq!(elems(&b.tail()), elems(&a));
    assert_eq!(elems(&b), vec![3, 2, 1]);
    drop(a);
    assert_eq!(elems(&b), vec![3, 2, 1]);
    let c = b.tail();
    drop(b);
    assert_eq!(elems(&c), vec![2, 1]);
}

#[test]
fn third_iter_is_restartable() {
    let list = List::new().prepend(5).prepend(6);
    assert_eq!(elems(&list), vec![6, 5]);
    assert_eq!(elems(&list), vec![6, 5]);
    let mut it = list.iter();
    it.next();
    it.next();
    assert_eq!(it.next(), None);
    assert_eq!(it.next(), None);
}

#[test]
fn third_long_chain_drops() {
    let mut list = List::new();
    for x in 0..200_000u32 {
        list = list.prepend(x);
    }
    let shared = list.tail();
    assert_eq!(shared.head(), Some(&199_998));
    drop(list);
    assert_eq!(shared.head(), Some(&199_998));
    drop(shared);
}
