use linked_lists::fifth::List;

#[test]
fn fifth_push_keeps_order() {
    let mut list = List::new();
    for x in [1, 2, 3, 4] {
        list.push(x);
    }
    assert_eq!(list.len(), 4);
    assert_eq!(list.get(0), Some(&1));
    assert_eq!(list.get(1), Some(&2));
    assert_eq!(list.get(2), Some(&3));
    assert_eq!(list.get(3), Some(&4));
    assert_eq!(list.get(4), None);
}

#[test]
fn fifth_empty_queue() {
    let list: List<u8> = List::new();
    assert_eq!(list.len(), 0);
    assert_eq!(list.get(0), None);
    assert_eq!(list.get(usize::MAX), None);
}

#[test]
fn fifth_single_push_is_head_and_tail() {
    let mut list = List::new();
    list.push("only");
    assert_eq!(list.len(), 1);
    assert_eq!(list.get(0), Some(&"only"));
    list.push("next");
    assert_eq!(list.get(0), Some(&"only"));
    assert_eq!(list.get(1), Some(&"next"));
}
