//! A stack of exclusively owned nodes with peeking, borrowing and mutable
//! traversals, and deep cloning.

use crate::laws::{pop_front, push_front};
use vstd::prelude::*;

verus! {

/// A stack whose nodes each have exactly one owner.
pub struct List<T> {
    head: Link<T>,
}

type Link<T> = Option<Box<Node<T>>>;

/// A link of the chain: one element and the rest of the chain.
pub struct Node<T> {
    elem: T,
    next: Link<T>,
}

/// The elements reachable from `link`, head first.
closed spec fn link_elems<T>(link: Link<T>) -> Seq<T>
    decreases link,
{
    match link {
        None => Seq::empty(),
        Some(node) => seq![node.elem] + link_elems(node.next),
    }
}

/// The elements of the chain that starts at `node`.
pub closed spec fn node_elems<T>(node: Node<T>) -> Seq<T> {
    seq![node.elem] + link_elems(node.next)
}

/// Detaches the chain behind `link`, leaving it empty.
fn take_link<T>(link: &mut Link<T>) -> (r: Link<T>)
    ensures
        r == *old(link),
        final(link).is_none(),
    opens_invariants none
    no_unwind
{
    let mut out = None;
    std::mem::swap(link, &mut out);
    out
}

/// Borrows the node behind `link` mutably, if there is one.
fn link_as_mut<'a, T>(link: &'a mut Link<T>) -> (r: Option<&'a mut Node<T>>)
    ensures
        old(link).is_none() ==> r.is_none() && final(link).is_none(),
        old(link).is_some() ==> (r matches Some(n) && node_elems(*n) == link_elems(*old(link))
            && link_elems(*final(link)) == node_elems(*final(n))),
{
    match link {
        Some(b) => Some(&mut **b),
        None => None,
    }
}

impl<T> View for List<T> {
    type V = Seq<T>;

    /// The elements of the stack, from the head (most recently pushed) down.
    closed spec fn view(&self) -> Seq<T> {
        link_elems(self.head)
    }
}

impl<T> List<T> {
    /// An empty stack.
    pub fn new() -> (r: Self)
        ensures
            r@ == Seq::<T>::empty(),
    {
        List { head: None }
    }

    /// The top element, or `None` when the stack is empty.
    pub fn peek(&self) -> (r: Option<&T>)
        ensures
            self@.len() == 0 ==> r.is_none(),
            self@.len() > 0 ==> (r matches Some(e) && *e == self@[0]),
    {
        match &self.head {
            Some(node) => Some(&node.elem),
            None => None,
        }
    }

    /// Borrows the top element mutably, or `None` when the stack is empty;
    /// what is written through the borrow becomes the new top element.
    pub fn peek_mut(&mut self) -> (r: Option<&mut T>)
        ensures
            old(self)@.len() == 0 ==> r.is_none() && final(self)@ == old(self)@,
            old(self)@.len() > 0 ==> (r matches Some(e) && *e == old(self)@[0]
                && final(self)@ == old(self)@.update(0, *final(e))),
    {
        match &mut self.head {
            Some(node) => Some(&mut node.elem),
            None => None,
        }
    }

    /// Puts `val` on top of the stack.
    pub fn push(&mut self, val: T)
        ensures
            final(self)@ == push_front(old(self)@, val),
    {
        let next = self.head.take();
        self.head = Some(Box::new(Node { elem: val, next }));
    }

    /// Removes the top element; `None`, with the stack unchanged, when it is empty.
    pub fn pop(&mut self) -> (r: Option<T>)
        ensures
            (r, final(self)@) == pop_front(old(self)@),
    {
        match self.head.take() {
            None => None,
            Some(mut node) => {
                self.head = node.next.take();
                Some(node.elem)
            },
        }
    }
}

impl<T> List<T> {
    /// A fresh traversal of the elements by shared reference, from the head down.
    pub fn iter(&self) -> (r: Iter<'_, T>)
        ensures
            r@ == self@,
    {
        Iter(&self.head)
    }

    /// A traversal of the elements by mutable reference, from the head down.
    /// The stack ends up holding whatever was last written through each
    /// handed-out reference.
    pub fn iter_mut(&mut self) -> (r: IterMut<'_, T>)
        ensures
            r@ == old(self)@,
            r.cursor() is None <==> r@.len() == 0,
            r.cursor() is None ==> final(self)@ == old(self)@,
            r.cursor() matches Some(n) ==> final(self)@ == node_elems(*final(n)),
    {
        IterMut(link_as_mut(&mut self.head))
    }

    /// Turns the stack into a traversal that hands out its elements by value.
    pub fn into_iter(self) -> (r: IntoIter<T>)
        ensures
            r@ == self@,
    {
        IntoIter(self)
    }
}

impl<T: Clone> Clone for List<T> {
    /// A deep copy: a new chain of new nodes, each holding a clone of the
    /// element at the same position.
    fn clone(&self) -> (r: Self)
        ensures
            r@.len() == self@.len(),
            forall|i: int| 0 <= i < self@.len() ==> cloned(self@[i], #[trigger] r@[i]),
    {
        let mut copies: Vec<T> = Vec::new();
        let mut cur: &Link<T> = &self.head;
        loop
            invariant
                copies@.len() + link_elems(*cur).len() == self@.len(),
                link_elems(*cur) == self@.subrange(copies@.len() as int, self@.len() as int),
                forall|i: int| 0 <= i < copies@.len() ==> cloned(self@[i], #[trigger] copies@[i]),
            ensures
                copies@.len() == self@.len(),
                forall|i: int| 0 <= i < copies@.len() ==> cloned(self@[i], #[trigger] copies@[i]),
            decreases link_elems(*cur).len(),
        {
            match cur {
                None => break,
                Some(node) => {
                    let ghost k = copies@.len() as int;
                    assert(link_elems(*cur) == seq![node.elem] + link_elems(node.next));
                    assert(link_elems(node.next) =~= link_elems(*cur).drop_first());
                    assert(link_elems(*cur)[0] == self@[k]);
                    assert(link_elems(node.next) =~= self@.subrange(k + 1, self@.len() as int));
                    copies.push(node.elem.clone());
                    cur = &node.next;
                },
            }
        }
        let mut out = List::new();
        while copies.len() > 0
            invariant
                out@.len() + copies@.len() == self@.len(),
                forall|i: int| 0 <= i < copies@.len() ==> cloned(self@[i], #[trigger] copies@[i]),
                forall|i: int|
                    0 <= i < out@.len() ==> cloned(
                        self@[copies@.len() + i],
                        #[trigger] out@[i],
                    ),
            decreases copies@.len(),
        {
            let x = copies.pop().unwrap();
            out.push(x);
        }
        out
    }
}

/// A traversal of a stack's elements by shared reference.
pub struct Iter<'a, T>(&'a Link<T>);

impl<'a, T> View for Iter<'a, T> {
    type V = Seq<T>;

    /// The elements not yet handed out, in order.
    closed spec fn view(&self) -> Seq<T> {
        link_elems(*self.0)
    }
}

impl<'a, T> Iter<'a, T> {
    /// The next element; `None` once every element has been handed out.
    pub fn next(&mut self) -> (r: Option<&'a T>)
        ensures
            old(self)@.len() == 0 ==> r.is_none() && final(self)@ == old(self)@,
            old(self)@.len() > 0 ==> (r matches Some(e) && *e == old(self)@[0]
                && final(self)@ == old(self)@.drop_first()),
    {
        match self.0 {
            None => None,
            Some(node) => {
                self.0 = &node.next;
                Some(&node.elem)
            },
        }
    }
}

/// A traversal of a stack's elements by mutable reference; at most one of
/// the references it hands out can be in use at a time.
pub struct IterMut<'a, T>(Option<&'a mut Node<T>>);

impl<'a, T> View for IterMut<'a, T> {
    type V = Seq<T>;

    /// The elements not yet handed out, in order, as they are now.
    closed spec fn view(&self) -> Seq<T> {
        match self.0 {
            None => Seq::empty(),
            Some(node) => node_elems(*node),
        }
    }
}

impl<'a, T> IterMut<'a, T> {
    /// The borrowed node whose element comes next, if any; contracts speak
    /// through it of what each node will hold once its borrow has ended.
    pub closed spec fn cursor(&self) -> Option<&'a mut Node<T>> {
        self.0
    }

    /// Borrows the next element mutably; `None` once every element has been
    /// handed out. What is last written through the borrow is what the list
    /// holds at that position.
    pub fn next(&mut self) -> (r: Option<&'a mut T>)
        ensures
            old(self)@.len() == 0 ==> r.is_none() && final(self)@ == old(self)@,
            old(self)@.len() > 0 ==> (r matches Some(e) && *e == old(self)@[0]
                && final(self)@ == old(self)@.drop_first()),
            final(self).cursor() is None <==> final(self)@.len() == 0,
            old(self).cursor() matches Some(n) ==> (r matches Some(e) && (final(self).cursor() matches Some(m)
                ==> node_elems(*final(n)) == seq![*final(e)] + node_elems(*final(m)))
                && (final(self).cursor() is None ==> node_elems(*final(n)) == seq![*final(e)])),
    {
        match self.0.take() {
            None => None,
            Some(node) => {
                self.0 = link_as_mut(&mut node.next);
                Some(&mut node.elem)
            },
        }
    }
}

/// A traversal that takes a stack's elements out by value, from the head down.
pub struct IntoIter<T>(List<T>);

impl<T> View for IntoIter<T> {
    type V = Seq<T>;

    /// The elements not yet handed out, in order.
    closed spec fn view(&self) -> Seq<T> {
        self.0@
    }
}

impl<T> IntoIter<T> {
    /// Takes out the next element; `None` once none is left.
    pub fn next(&mut self) -> (r: Option<T>)
        ensures
            (r, final(self)@) == pop_front(old(self)@),
    {
        self.0.pop()
    }
}

/// Releases the nodes of a chain one at a time, front to back, so that the
/// depth of the call stack does not grow with the length of the chain.
fn release<T>(link: Link<T>)
    opens_invariants none
    no_unwind
{
    let mut cur = link;
    loop
        decreases link_elems(cur).len(),
    {
        match cur {
            None => break,
            Some(mut node) => {
                cur = take_link(&mut node.next);
            },
        }
    }
}

impl<T> Drop for List<T> {
    fn drop(&mut self)
        ensures
            final(self)@ == Seq::<T>::empty(),
        opens_invariants none
        no_unwind
    {
        release(take_link(&mut self.head));
    }
}

} // verus!
