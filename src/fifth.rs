//! An append-only queue that links each new node behind the last one.
//!
//! Nodes live in one vector and link to each other by position, so that the
//! queue can hold both a head link and a tail link without aliasing.

use crate::laws::push_back;
use vstd::prelude::*;

verus! {

/// A queue with links to its first and to its last node.
pub struct List<T> {
    nodes: Vec<Node<T>>,
    head: Link,
    tail: Link,
}

/// The position of a node in the queue's storage, or none.
type Link = Option<usize>;

struct Node<T> {
    elem: T,
    next: Link,
}

impl<T> List<T> {
    /// The head link reaches the first node, each node links to the one
    /// pushed after it, and the tail link reaches the last node; both links
    /// are empty exactly when the queue is.
    pub closed spec fn well_formed(&self) -> bool {
        let n = self.nodes@.len();
        &&& n == 0 ==> self.head is None && self.tail is None
        &&& n > 0 ==> self.head == Some(0usize) && self.tail == Some((n - 1) as usize)
        &&& forall|i: int| 0 <= i < n - 1 ==> #[trigger] self.nodes@[i].next == Some((i + 1) as usize)
        &&& n > 0 ==> self.nodes@[n - 1].next is None
    }
}

impl<T> View for List<T> {
    type V = Seq<T>;

    /// The elements in storage order. Under `well_formed` this is the order
    /// in which the links lead from the head to the tail.
    closed spec fn view(&self) -> Seq<T> {
        self.nodes@.map_values(|node: Node<T>| node.elem)
    }
}

impl<T> List<T> {
    /// An empty queue.
    pub fn new() -> (r: Self)
        ensures
            r.well_formed(),
            r@ == Seq::<T>::empty(),
    {
        List { nodes: Vec::new(), head: None, tail: None }
    }

    /// The number of elements.
    pub fn len(&self) -> (r: usize)
        ensures
            r == self@.len(),
    {
        self.nodes.len()
    }

    /// Links a new node holding `elem` behind the current tail, or makes it
    /// both head and tail when the queue is empty.
    pub fn push(&mut self, elem: T)
        requires
            old(self).well_formed(),
            old(self)@.len() < usize::MAX,
        ensures
            final(self).well_formed(),
            final(self)@ == push_back(old(self)@, elem),
    {
        let new_tail = self.nodes.len();
        self.nodes.push(Node { elem, next: None });
        match self.tail {
            Some(old_tail) => {
                self.nodes[old_tail].next = Some(new_tail);
            },
            None => {
                self.head = Some(new_tail);
            },
        }
        self.tail = Some(new_tail);
        assert(self@ =~= old(self)@.push(elem));
    }

    /// The element `i` links away from the head, or `None` when the queue
    /// is not that long.
    pub fn get(&self, i: usize) -> (r: Option<&T>)
        requires
            self.well_formed(),
        ensures
            i < self@.len() ==> (r matches Some(e) && *e == self@[i as int]),
            i >= self@.len() ==> r.is_none(),
    {
        let mut cur: Link = self.head;
        let mut k: usize = 0;
        while k < i
            invariant
                self.well_formed(),
                k <= i,
                k < self@.len() ==> cur == Some(k),
                k >= self@.len() ==> cur is None,
            decreases i - k,
        {
            match cur {
                Some(c) => {
                    cur = self.nodes[c].next;
                },
                None => {
                    return None;
                },
            }
            k = k + 1;
        }
        match cur {
            Some(c) => Some(&self.nodes[c].elem),
            None => None,
        }
    }
}

} // verus!
