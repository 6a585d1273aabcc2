//! A stack of exclusively owned nodes: push and pop at the head.

use crate::laws::{pop_front, push_front};
use vstd::prelude::*;

verus! {

/// A stack whose nodes each have exactly one owner.
pub struct List<T> {
    head: Link<T>,
}

enum Link<T> {
    Empty,
    More(Box<Node<T>>),
}

struct Node<T> {
    elem: T,
    next: Link<T>,
}

impl<T> Link<T> {
    /// The elements reachable from this link, head first.
    closed spec fn elems(self) -> Seq<T>
        decreases self,
    {
        match self {
            Link::Empty => Seq::empty(),
            Link::More(node) => seq![node.elem] + node.next.elems(),
        }
    }
}

/// Detaches the chain behind `link`, leaving it empty.
fn take_link<T>(link: &mut Link<T>) -> (r: Link<T>)
    ensures
        r == *old(link),
        *final(link) == Link::<T>::Empty,
    opens_invariants none
    no_unwind
{
    let mut out = Link::Empty;
    std::mem::swap(link, &mut out);
    out
}

impl<T> View for List<T> {
    type V = Seq<T>;

    /// The elements of the stack, from the head (most recently pushed) down.
    closed spec fn view(&self) -> Seq<T> {
        self.head.elems()
    }
}

impl<T> List<T> {
    /// An empty stack.
    pub fn new() -> (r: Self)
        ensures
            r@ == Seq::<T>::empty(),
    {
        List { head: Link::Empty }
    }

    /// Puts `val` on top of the stack.
    pub fn push(&mut self, val: T)
        ensures
            final(self)@ == push_front(old(self)@, val),
    {
        let next = take_link(&mut self.head);
        self.head = Link::More(Box::new(Node { elem: val, next }));
    }

    /// A fresh traversal of the elements by reference, from the head down.
    pub fn iter<'a>(&'a self) -> (r: ListIter<'a, T>)
        ensures
            r@ == self@,
    {
        ListIter { link: &self.head }
    }

    /// Removes the top element; `None`, with the stack unchanged, when it is empty.
    pub fn pop(&mut self) -> (r: Option<T>)
        ensures
            (r, final(self)@) == pop_front(old(self)@),
    {
        match take_link(&mut self.head) {
            Link::Empty => None,
            Link::More(node) => {
                let node = *node;
                self.head = node.next;
                Some(node.elem)
            },
        }
    }
}

/// Releases the nodes of a chain one at a time, front to back, so that the
/// depth of the call stack does not grow with the length of the chain.
fn release<T>(link: Link<T>)
    opens_invariants none
    no_unwind
{
    let mut cur = link;
    loop
        decreases cur.elems().len(),
    {
        match cur {
            Link::Empty => break,
            Link::More(mut node) => {
                cur = take_link(&mut node.next);
            },
        }
    }
}

impl<T> List<T> {
    /// Consuming traversal: hands out the top element and unlinks it, so the
    /// stack is empty once this has returned `None`.
    pub fn next(&mut self) -> (r: Option<T>)
        ensures
            (r, final(self)@) == pop_front(old(self)@),
    {
        match take_link(&mut self.head) {
            Link::Empty => None,
            Link::More(mut node) => {
                self.head = take_link(&mut node.next);
                Some(node.elem)
            },
        }
    }
}

/// A traversal of a stack's elements by shared reference.
pub struct ListIter<'a, T> {
    link: &'a Link<T>,
}

impl<'a, T> View for ListIter<'a, T> {
    type V = Seq<T>;

    /// The elements not yet handed out, in order.
    closed spec fn view(&self) -> Seq<T> {
        self.link.elems()
    }
}

impl<'a, T> ListIter<'a, T> {
    /// The next element; `None` once every element has been handed out.
    pub fn next(&mut self) -> (r: Option<&'a T>)
        ensures
            old(self)@.len() == 0 ==> r.is_none() && final(self)@ == old(self)@,
            old(self)@.len() > 0 ==> (r matches Some(e) && *e == old(self)@[0]
                && final(self)@ == old(self)@.drop_first()),
    {
        match self.link {
            Link::Empty => None,
            Link::More(node) => {
                self.link = &node.next;
                Some(&node.elem)
            },
        }
    }
}

impl<T> Drop for List<T> {
    fn drop(&mut self)
        ensures
            final(self)@ == Seq::<T>::empty(),
        opens_invariants none
        no_unwind
    {
        release(take_link(&mut self.head));
    }
}

} // verus!
