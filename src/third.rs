//! A persistent list: values never change, and lists share their tails
//! through reference-counted links.

use std::rc::Rc;
use vstd::prelude::*;

verus! {

/// An immutable list whose nodes may be shared with other lists.
pub struct List<T> {
    head: Link<T>,
}

type Link<T> = Option<Rc<Node<T>>>;

struct Node<T> {
    elem: T,
    next: Link<T>,
}

/// The elements reachable from `link`, head first.
closed spec fn link_elems<T>(link: Link<T>) -> Seq<T>
    decreases link,
{
    match link {
        None => Seq::empty(),
        Some(node) => seq![node.elem] + link_elems(node.next),
    }
}

/// Relies on `Rc::clone`: the new handle points to the same allocation, so
/// it holds the same node.
#[verifier::external_body]
fn share<T>(rc: &Rc<Node<T>>) -> (r: Rc<Node<T>>)
    ensures
        r == *rc,
{
    Rc::clone(rc)
}

/// Relies on `Rc::try_unwrap`: the node itself when this is its last handle,
/// else the handle back, unchanged. It does not panic.
#[verifier::external_body]
fn try_reclaim<T>(rc: Rc<Node<T>>) -> (r: Result<Node<T>, Rc<Node<T>>>)
    ensures
        match r {
            Ok(node) => node == *rc,
            Err(back) => back == rc,
        },
    opens_invariants none
    no_unwind
{
    Rc::try_unwrap(rc)
}

/// A second handle on the chain behind `link`.
fn share_link<T>(link: &Link<T>) -> (r: Link<T>)
    ensures
        r == *link,
{
    match link {
        None => None,
        Some(rc) => Some(share(rc)),
    }
}

/// Detaches the chain behind `link`, leaving it empty.
fn take_link<T>(link: &mut Link<T>) -> (r: Link<T>)
    ensures
        r == *old(link),
        final(link).is_none(),
    opens_invariants none
    no_unwind
{
    let mut out = None;
    std::mem::swap(link, &mut out);
    out
}

impl<T> View for List<T> {
    type V = Seq<T>;

    /// The elements of the list, head first.
    closed spec fn view(&self) -> Seq<T> {
        link_elems(self.head)
    }
}

/// The elements of the list that `prepend` makes from a list holding `s`.
pub open spec fn prepended<T>(s: Seq<T>, elem: T) -> Seq<T> {
    seq![elem] + s
}

/// The elements of the list that `tail` makes from a list holding `s`: all
/// but the first, and none when there are none.
pub open spec fn tail_of<T>(s: Seq<T>) -> Seq<T> {
    if s.len() == 0 {
        s
    } else {
        s.drop_first()
    }
}

/// The tail of a list made by `prepend` holds exactly the elements of the
/// list it was made from.
pub proof fn lemma_tail_of_prepended<T>(s: Seq<T>, elem: T)
    ensures
        tail_of(prepended(s, elem)) == s,
{
    assert(prepended(s, elem).drop_first() =~= s);
}

impl<T> List<T> {
    /// An empty list.
    pub fn new() -> (r: Self)
        ensures
            r@ == Seq::<T>::empty(),
    {
        List { head: None }
    }

    /// A new list with `elem` in front of this one's elements; the two lists
    /// share every node of this one.
    pub fn prepend(&self, elem: T) -> (r: Self)
        ensures
            r@ == prepended(self@, elem),
    {
        List { head: Some(Rc::new(Node { elem, next: share_link(&self.head) })) }
    }

    /// A new list of all but the first element, sharing its nodes with this
    /// one; the empty list when this one is empty.
    pub fn tail(&self) -> (r: Self)
        ensures
            r@ == tail_of(self@),
    {
        match &self.head {
            None => List { head: None },
            Some(node) => List { head: share_link(&node.next) },
        }
    }

    /// The first element, or `None` when the list is empty.
    pub fn head(&self) -> (r: Option<&T>)
        ensures
            self@.len() == 0 ==> r.is_none(),
            self@.len() > 0 ==> (r matches Some(e) && *e == self@[0]),
    {
        match &self.head {
            Some(node) => Some(&node.elem),
            None => None,
        }
    }

    /// A fresh traversal of the elements by shared reference, head first.
    pub fn iter(&self) -> (r: Iter<'_, T>)
        ensures
            r@ == self@,
    {
        match &self.head {
            Some(node) => Iter { next: Some(&**node) },
            None => Iter { next: None },
        }
    }
}

/// A traversal of a list's elements by shared reference.
pub struct Iter<'a, T> {
    next: Option<&'a Node<T>>,
}

impl<'a, T> View for Iter<'a, T> {
    type V = Seq<T>;

    /// The elements not yet handed out, in order.
    closed spec fn view(&self) -> Seq<T> {
        match self.next {
            None => Seq::empty(),
            Some(node) => seq![node.elem] + link_elems(node.next),
        }
    }
}

impl<'a, T> Iter<'a, T> {
    /// The next element; `None` once every element has been handed out.
    pub fn next(&mut self) -> (r: Option<&'a T>)
        ensures
            old(self)@.len() == 0 ==> r.is_none() && final(self)@ == old(self)@,
            old(self)@.len() > 0 ==> (r matches Some(e) && *e == old(self)@[0]
                && final(self)@ == old(self)@.drop_first()),
    {
        match self.next {
            None => None,
            Some(node) => {
                self.next = match &node.next {
                    Some(rc) => Some(&**rc),
                    None => None,
                };
                Some(&node.elem)
            },
        }
    }
}

impl<T> Drop for List<T> {
    /// Reclaims nodes front to back for as long as this list holds their
    /// last handle, and stops at the first node that another list shares.
    /// The depth of the call stack does not grow with the length of the chain.
    fn drop(&mut self)
        ensures
            final(self)@ == Seq::<T>::empty(),
        opens_invariants none
        no_unwind
    {
        let mut cur = take_link(&mut self.head);
        loop
            decreases link_elems(cur).len(),
        {
            match cur {
                None => break,
                Some(rc) => match try_reclaim(rc) {
                    Ok(mut node) => {
                        cur = take_link(&mut node.next);
                    },
                    Err(_) => break,
                },
            }
        }
    }
}

} // verus!
