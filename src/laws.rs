//! What one call of `push` or `pop` does to the elements of a stack or a
//! queue, and the laws that follow for sequences of such calls.

use vstd::prelude::*;

verus! {

/// The elements of a stack holding `s` after one `push` of `x`: the new
/// element goes in front.
pub open spec fn push_front<T>(s: Seq<T>, x: T) -> Seq<T> {
    seq![x] + s
}

/// What one `pop` returns from a stack holding `s`, and the elements left:
/// the front element and the rest, or `None` and the stack unchanged when it
/// is empty.
pub open spec fn pop_front<T>(s: Seq<T>) -> (Option<T>, Seq<T>) {
    if s.len() == 0 {
        (None, s)
    } else {
        (Some(s[0]), s.drop_first())
    }
}

/// The elements of a queue holding `s` after one `push` of `x`: the new
/// element goes behind the last one.
pub open spec fn push_back<T>(s: Seq<T>, x: T) -> Seq<T> {
    s.push(x)
}

/// The elements of a stack holding `s` after the elements of `ps` are
/// pushed onto it one by one, first element of `ps` first.
pub open spec fn pushed_all<T>(s: Seq<T>, ps: Seq<T>) -> Seq<T>
    decreases ps.len(),
{
    if ps.len() == 0 {
        s
    } else {
        pushed_all(push_front(s, ps[0]), ps.drop_first())
    }
}

/// What `n` successive pops return from a stack holding `s`.
pub open spec fn popped<T>(s: Seq<T>, n: nat) -> Seq<Option<T>>
    decreases n,
{
    if n == 0 {
        Seq::empty()
    } else {
        seq![pop_front(s).0] + popped(pop_front(s).1, (n - 1) as nat)
    }
}

/// The elements of a stack holding `s` after `n` successive pops.
pub open spec fn left_after_pops<T>(s: Seq<T>, n: nat) -> Seq<T>
    decreases n,
{
    if n == 0 {
        s
    } else {
        left_after_pops(pop_front(s).1, (n - 1) as nat)
    }
}

/// The elements of a queue holding `s` after the elements of `ps` are
/// pushed onto it one by one, first element of `ps` first.
pub open spec fn appended_all<T>(s: Seq<T>, ps: Seq<T>) -> Seq<T>
    decreases ps.len(),
{
    if ps.len() == 0 {
        s
    } else {
        appended_all(push_back(s, ps[0]), ps.drop_first())
    }
}

/// One more push after the pushes of `ps` acts as `push`'s contract says on
/// the stack that those pushes left.
pub proof fn lemma_pushed_all_step<T>(s: Seq<T>, ps: Seq<T>, x: T)
    ensures
        pushed_all(s, ps.push(x)) == push_front(pushed_all(s, ps), x),
    decreases ps.len(),
{
    let qs = ps.push(x);
    if ps.len() > 0 {
        lemma_pushed_all_step(push_front(s, ps[0]), ps.drop_first(), x);
        assert(qs.drop_first() =~= ps.drop_first().push(x));
        assert(qs[0] == ps[0]);
        assert(pushed_all(s, qs) == pushed_all(push_front(s, ps[0]), qs.drop_first()));
    } else {
        assert(qs.drop_first() =~= Seq::<T>::empty());
        assert(pushed_all(s, qs) == pushed_all(push_front(s, x), qs.drop_first()));
    }
}

/// One more pop after `n` pops returns what `pop`'s contract says of the
/// stack that those pops left.
pub proof fn lemma_popped_step<T>(s: Seq<T>, n: nat)
    ensures
        popped(s, n + 1) == popped(s, n).push(pop_front(left_after_pops(s, n)).0),
        left_after_pops(s, n + 1) == pop_front(left_after_pops(s, n)).1,
    decreases n,
{
    let t = pop_front(s).1;
    if n > 0 {
        lemma_popped_step(t, (n - 1) as nat);
        assert(left_after_pops(s, n) == left_after_pops(t, (n - 1) as nat));
        assert(left_after_pops(s, n + 1) == left_after_pops(t, n));
        assert(popped(s, n) == seq![pop_front(s).0] + popped(t, (n - 1) as nat));
        assert(popped(s, n + 1) == seq![pop_front(s).0] + popped(t, n));
        assert(popped(s, n + 1) =~= popped(s, n).push(pop_front(left_after_pops(s, n)).0));
    } else {
        assert(popped(t, 0) == Seq::<Option<T>>::empty());
        assert(popped(s, 1) == seq![pop_front(s).0] + popped(t, 0));
        assert(popped(s, 1) =~= seq![pop_front(s).0]);
        assert(popped(s, 0) == Seq::<Option<T>>::empty());
        assert(left_after_pops(s, 1) == left_after_pops(t, 0));
    }
}

/// One more push after the pushes of `ps` acts as `push`'s contract says on
/// the queue that those pushes left.
pub proof fn lemma_appended_all_step<T>(s: Seq<T>, ps: Seq<T>, x: T)
    ensures
        appended_all(s, ps.push(x)) == push_back(appended_all(s, ps), x),
    decreases ps.len(),
{
    let qs = ps.push(x);
    if ps.len() > 0 {
        lemma_appended_all_step(push_back(s, ps[0]), ps.drop_first(), x);
        assert(qs.drop_first() =~= ps.drop_first().push(x));
        assert(qs[0] == ps[0]);
        assert(appended_all(s, qs) == appended_all(push_back(s, ps[0]), qs.drop_first()));
    } else {
        assert(qs.drop_first() =~= Seq::<T>::empty());
        assert(appended_all(s, qs) == appended_all(push_back(s, x), qs.drop_first()));
    }
}

proof fn lemma_pushed_all_reverses<T>(s: Seq<T>, ps: Seq<T>)
    ensures
        pushed_all(s, ps).len() == ps.len() + s.len(),
        forall|i: int| 0 <= i < ps.len() ==> #[trigger] pushed_all(s, ps)[i] == ps[ps.len() - 1 - i],
        pushed_all(s, ps).skip(ps.len() as int) == s,
    decreases ps.len(),
{
    if ps.len() > 0 {
        let s2 = seq![ps[0]] + s;
        let ps2 = ps.drop_first();
        lemma_pushed_all_reverses(s2, ps2);
        let r = pushed_all(s, ps);
        assert(r == pushed_all(s2, ps2));
        assert forall|i: int| 0 <= i < ps.len() implies #[trigger] r[i] == ps[ps.len() - 1 - i] by {
            if i < ps2.len() {
                assert(r[i] == ps2[ps2.len() - 1 - i]);
            } else {
                assert(r[i] == r.skip(ps2.len() as int)[0]);
            }
        }
        assert(r.skip(ps.len() as int) =~= r.skip(ps2.len() as int).drop_first());
    }
}

proof fn lemma_popped_drains<T>(s: Seq<T>)
    ensures
        popped(s, s.len() + 1).len() == s.len() + 1,
        forall|i: int| 0 <= i < s.len() ==> #[trigger] popped(s, s.len() + 1)[i] == Some(s[i]),
        popped(s, s.len() + 1)[s.len() as int] == None::<T>,
        left_after_pops(s, s.len()) == Seq::<T>::empty(),
    decreases s.len(),
{
    if s.len() == 0 {
        assert(popped(s, 0) == Seq::<Option<T>>::empty());
        assert(popped(s, 1) == seq![None::<T>] + popped(s, 0));
        assert(s =~= Seq::<T>::empty());
    } else {
        let t = s.drop_first();
        lemma_popped_drains(t);
        assert(popped(s, s.len() + 1) == seq![Some(s[0])] + popped(t, t.len() + 1));
        assert(left_after_pops(s, s.len()) == left_after_pops(t, t.len()));
    }
}

/// Pushing `ps` onto an empty stack and then popping once more than `ps`
/// has elements returns the elements of `ps` last first, and then `None`;
/// the pops that return elements leave the stack empty.
pub proof fn lemma_stack_is_lifo<T>(ps: Seq<T>)
    ensures
        popped(pushed_all(Seq::empty(), ps), ps.len() + 1).len() == ps.len() + 1,
        forall|i: int|
            0 <= i < ps.len() ==> #[trigger] popped(pushed_all(Seq::empty(), ps), ps.len() + 1)[i]
                == Some(ps[ps.len() - 1 - i]),
        popped(pushed_all(Seq::empty(), ps), ps.len() + 1)[ps.len() as int] == None::<T>,
        left_after_pops(pushed_all(Seq::empty(), ps), ps.len()) == Seq::<T>::empty(),
{
    let s = pushed_all(Seq::<T>::empty(), ps);
    lemma_pushed_all_reverses(Seq::<T>::empty(), ps);
    lemma_popped_drains(s);
    assert forall|i: int| 0 <= i < ps.len() implies #[trigger] popped(s, ps.len() + 1)[i] == Some(
        ps[ps.len() - 1 - i],
    ) by {
        assert(s[i] == ps[ps.len() - 1 - i]);
    }
}

/// Popping an empty stack any number of times returns `None` each time.
pub proof fn lemma_empty_stays_absent<T>(n: nat)
    ensures
        popped(Seq::<T>::empty(), n).len() == n,
        forall|i: int| 0 <= i < n ==> #[trigger] popped(Seq::<T>::empty(), n)[i] == None::<T>,
    decreases n,
{
    if n > 0 {
        lemma_empty_stays_absent::<T>((n - 1) as nat);
        assert(popped(Seq::<T>::empty(), n) == seq![None::<T>] + popped(
            Seq::<T>::empty(),
            (n - 1) as nat,
        ));
    }
}

proof fn lemma_appended_all_extends<T>(s: Seq<T>, ps: Seq<T>)
    ensures
        appended_all(s, ps) == s + ps,
    decreases ps.len(),
{
    if ps.len() > 0 {
        lemma_appended_all_extends(s.push(ps[0]), ps.drop_first());
        assert(s.push(ps[0]) + ps.drop_first() =~= s + ps);
    } else {
        assert(s + ps =~= s);
    }
}

/// Pushing `ps` onto an empty queue leaves its elements, head to tail, in
/// the order in which they were pushed.
pub proof fn lemma_queue_keeps_push_order<T>(ps: Seq<T>)
    ensures
        appended_all(Seq::empty(), ps) == ps,
{
    lemma_appended_all_extends(Seq::<T>::empty(), ps);
    assert(Seq::<T>::empty() + ps =~= ps);
}

} // verus!
