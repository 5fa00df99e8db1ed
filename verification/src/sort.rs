//! Stable sorting of a vector by an order that its items define.

use vstd::prelude::*;

verus! {

/// Items that come in an order: of two items, one comes no later than the
/// other, and what comes no later than an item that comes no later than a
/// third comes no later than the third.
pub trait Ordered: Sized {
    /// Whether `self` comes no later than `other`.
    spec fn comes_before(&self, other: &Self) -> bool;

    /// Whether `self` comes no later than `other`.
    fn le(&self, other: &Self) -> (r: bool)
        ensures
            r == self.comes_before(other),
    ;

    /// Of two items one comes no later than the other.
    proof fn lemma_total(a: &Self, b: &Self)
        ensures
            a.comes_before(b) || b.comes_before(a),
    ;

    /// The order is transitive.
    proof fn lemma_transitive(a: &Self, b: &Self, c: &Self)
        requires
            a.comes_before(b),
            b.comes_before(c),
        ensures
            a.comes_before(c),
    ;
}

/// `s` with `x` put behind the last item that comes no later than `x`.
pub open spec fn insert_sorted<T: Ordered>(s: Seq<T>, x: T) -> Seq<T>
    decreases s.len(),
{
    if s.len() == 0 {
        seq![x]
    } else if s.last().comes_before(&x) {
        s.push(x)
    } else {
        insert_sorted(s.drop_last(), x).push(s.last())
    }
}

/// The items of `s` in order, items that come no later than each other in
/// the order they have in `s`.
pub open spec fn sorted<T: Ordered>(s: Seq<T>) -> Seq<T>
    decreases s.len(),
{
    if s.len() == 0 {
        Seq::empty()
    } else {
        insert_sorted(sorted(s.drop_last()), s.last())
    }
}

/// Whether each item of `s` comes no later than every item behind it.
pub open spec fn in_order<T: Ordered>(s: Seq<T>) -> bool {
    forall|i: int, j: int| 0 <= i < j < s.len() ==> s[i].comes_before(&s[j])
}

/// Putting `x` behind the last item that comes no later than it means
/// putting it at position `j`, where every item from `j` on comes later than `x`
/// and the item before `j`, if there is one, does not.
pub proof fn lemma_insert_position<T: Ordered>(s: Seq<T>, x: T, j: int)
    requires
        0 <= j <= s.len(),
        forall|k: int| j <= k < s.len() ==> !s[k].comes_before(&x),
        j > 0 ==> s[j - 1].comes_before(&x),
    ensures
        insert_sorted(s, x) == s.insert(j, x),
    decreases s.len() - j,
{
    if s.len() == 0 {
        assert(s.insert(0, x) =~= seq![x]);
    } else if j == s.len() {
        assert(s.insert(j, x) =~= s.push(x));
    } else {
        lemma_insert_position(s.drop_last(), x, j);
        assert(s.drop_last().insert(j, x).push(s.last()) =~= s.insert(j, x));
    }
}

/// Putting an item into a sequence that is in order leaves it in order, and
/// adds that item and no other.
pub proof fn lemma_insert_sorted<T: Ordered>(s: Seq<T>, x: T)
    requires
        in_order(s),
    ensures
        in_order(insert_sorted(s, x)),
        insert_sorted(s, x).to_multiset() == s.to_multiset().insert(x),
        insert_sorted(s, x).len() == s.len() + 1,
    decreases s.len(),
{
    broadcast use vstd::seq_lib::group_to_multiset_ensures;

    let r = insert_sorted(s, x);
    if s.len() == 0 {
        assert(s =~= Seq::<T>::empty());
        assert(r =~= Seq::<T>::empty().push(x));
    } else if s.last().comes_before(&x) {
        assert forall|i: int, j: int| 0 <= i < j < r.len() implies r[i].comes_before(&r[j]) by {
            if j == s.len() {
                if i < s.len() - 1 {
                    T::lemma_transitive(&s[i], &s.last(), &x);
                }
            }
        }
    } else {
        let front = s.drop_last();
        let inner = insert_sorted(front, x);
        assert(in_order(front));
        lemma_insert_sorted(front, x);
        T::lemma_total(&s.last(), &x);
        assert(front.push(s.last()) =~= s);
        assert forall|i: int, j: int| 0 <= i < j < r.len() implies r[i].comes_before(&r[j]) by {
            if j == inner.len() {
                // every item of `inner` is `x` or an item of `front`
                assert(inner.to_multiset().count(inner[i]) > 0);
                if inner[i] == x {
                } else {
                    assert(front.to_multiset().count(inner[i]) > 0);
                    let k = choose|k: int| 0 <= k < front.len() && front[k] == inner[i];
                    assert(s[k].comes_before(&s[s.len() - 1]));
                }
            }
        }
        assert(r.to_multiset() =~= s.to_multiset().insert(x));
    }
}

/// The sorted sequence is in order and holds the items of `s`,
/// each as often as `s` does.
pub proof fn law_sorted_is_ordered_permutation<T: Ordered>(s: Seq<T>)
    ensures
        in_order(sorted(s)),
        sorted(s).to_multiset() == s.to_multiset(),
        sorted(s).len() == s.len(),
    decreases s.len(),
{
    broadcast use vstd::seq_lib::group_to_multiset_ensures;

    if s.len() == 0 {
        assert(s =~= Seq::<T>::empty());
    } else {
        law_sorted_is_ordered_permutation(s.drop_last());
        lemma_insert_sorted(sorted(s.drop_last()), s.last());
        assert(s.drop_last().push(s.last()) =~= s);
    }
}

/// Sorts `v` by the order of its items. The sort is stable: items that come
/// no later than each other keep the order they had.
pub fn sort<T: Ordered>(v: Vec<T>) -> (r: Vec<T>)
    ensures
        r@ == sorted(v@),
        in_order(r@),
        r@.to_multiset() == v@.to_multiset(),
        r@.len() == v@.len(),
{
    proof {
        law_sorted_is_ordered_permutation(v@);
    }
    let mut rest = v;
    let mut stack: Vec<T> = Vec::new();
    while rest.len() > 0
        invariant
            rest@ + stack@.reverse() == v@,
        decreases rest@.len(),
    {
        let ghost before = rest@;
        let ghost stack_before = stack@;
        let x = rest.pop().unwrap();
        stack.push(x);
        proof {
            assert(stack@.reverse() =~= seq![x] + stack_before.reverse());
            assert(rest@ + stack@.reverse() =~= before + stack_before.reverse());
        }
    }
    proof {
        assert(stack@.reverse() =~= v@);
    }
    let mut out: Vec<T> = Vec::new();
    let ghost mut done: int = 0;
    while stack.len() > 0
        invariant
            0 <= done <= v@.len(),
            stack@.len() == v@.len() - done,
            stack@.reverse() == v@.subrange(done, v@.len() as int),
            out@ == sorted(v@.subrange(0, done)),
        decreases stack@.len(),
    {
        let ghost stack_before = stack@;
        let x = stack.pop().unwrap();
        proof {
            assert(stack_before.reverse()[0] == x);
            assert(x == v@[done]);
            assert(stack@ =~= stack_before.drop_last());
            assert forall|i: int| 0 <= i < stack@.len() implies stack@.reverse()[i] == v@[done + 1
                + i] by {
                assert(stack@.reverse()[i] == stack_before.reverse()[i + 1]);
            }
            assert(stack@.reverse() =~= v@.subrange(done + 1, v@.len() as int));
        }
        let mut j = out.len();
        while j > 0 && !out[j - 1].le(&x)
            invariant
                j <= out@.len(),
                forall|k: int| j <= k < out@.len() ==> !out@[k].comes_before(&x),
            decreases j,
        {
            j -= 1;
        }
        proof {
            lemma_insert_position(out@, x, j as int);
            assert(v@.subrange(0, done + 1).drop_last() =~= v@.subrange(0, done));
            assert(v@.subrange(0, done + 1).last() == x);
            done = done + 1;
        }
        out.insert(j, x);
    }
    proof {
        assert(v@.subrange(0, v@.len() as int) =~= v@);
    }
    out
}

} // verus!
