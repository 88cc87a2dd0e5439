//! Stable ordering of sequences.

use vstd::prelude::*;

verus! {

/// `leq` is reflexive, total and transitive; two distinct items may still tie.
pub open spec fn total_preorder<T>(leq: spec_fn(T, T) -> bool) -> bool {
    &&& forall|a: T, b: T| #[trigger] leq(a, b) || leq(b, a)
    &&& forall|a: T, b: T, c: T| #[trigger] leq(a, b) && #[trigger] leq(b, c) ==> leq(a, c)
}

/// The order that an integer rank gives, smallest rank first.
pub open spec fn by_rank<T>(rank: spec_fn(T) -> int) -> spec_fn(T, T) -> bool {
    |a: T, b: T| rank(a) <= rank(b)
}

/// The order that an integer rank gives, largest rank first.
pub open spec fn by_rank_descending<T>(rank: spec_fn(T) -> int) -> spec_fn(T, T) -> bool {
    |a: T, b: T| rank(b) <= rank(a)
}

/// `s` with `x` placed in front of the first item that it may precede.
pub open spec fn insert_ordered<T>(s: Seq<T>, x: T, leq: spec_fn(T, T) -> bool) -> Seq<T>
    decreases s.len(),
{
    if s.len() == 0 || leq(x, s[0]) {
        seq![x] + s
    } else {
        seq![s[0]] + insert_ordered(s.skip(1), x, leq)
    }
}

/// The items of `s` in the order of `leq`, ties in the order they had in `s`.
pub open spec fn stable_sorted<T>(s: Seq<T>, leq: spec_fn(T, T) -> bool) -> Seq<T>
    decreases s.len(),
{
    if s.len() == 0 {
        s
    } else {
        insert_ordered(stable_sorted(s.skip(1), leq), s[0], leq)
    }
}

/// Each item may precede every later one.
pub open spec fn is_ordered<T>(s: Seq<T>, leq: spec_fn(T, T) -> bool) -> bool {
    forall|i: int, j: int| 0 <= i <= j < s.len() ==> leq(#[trigger] s[i], #[trigger] s[j])
}

/// The items of `s` that tie with `c`, in their order.
pub open spec fn ties_with<T>(s: Seq<T>, c: T, leq: spec_fn(T, T) -> bool) -> Seq<T> {
    s.filter(|x: T| leq(x, c) && leq(c, x))
}

proof fn lemma_insert_at<T>(s: Seq<T>, x: T, leq: spec_fn(T, T) -> bool, i: int)
    requires
        0 <= i <= s.len(),
        forall|j: int| 0 <= j < i ==> !leq(x, #[trigger] s[j]),
        i < s.len() ==> leq(x, s[i]),
    ensures
        s.insert(i, x) == insert_ordered(s, x, leq),
    decreases s.len(),
{
    if i == 0 {
        assert(s.insert(0, x) =~= seq![x] + s);
    } else {
        assert(!leq(x, s[0]));
        let rest = s.skip(1);
        assert forall|j: int| 0 <= j < i - 1 implies !leq(x, #[trigger] rest[j]) by {
            assert(rest[j] == s[j + 1]);
        }
        lemma_insert_at(rest, x, leq, i - 1);
        assert(s.insert(i, x) =~= seq![s[0]] + rest.insert(i - 1, x));
    }
}

proof fn lemma_insert_items<T>(s: Seq<T>, x: T, leq: spec_fn(T, T) -> bool)
    ensures
        insert_ordered(s, x, leq).to_multiset() == s.to_multiset().insert(x),
        insert_ordered(s, x, leq).len() == s.len() + 1,
        forall|i: int|
            0 <= i < insert_ordered(s, x, leq).len() ==> {
                ||| #[trigger] insert_ordered(s, x, leq)[i] == x
                ||| s.contains(insert_ordered(s, x, leq)[i])
            },
    decreases s.len(),
{
    broadcast use vstd::seq_lib::group_to_multiset_ensures;

    let out = insert_ordered(s, x, leq);
    if s.len() == 0 || leq(x, s[0]) {
        vstd::seq_lib::lemma_multiset_commutative(seq![x], s);
        assert(seq![x] =~= Seq::<T>::empty().push(x));
        assert(out.to_multiset() =~= s.to_multiset().insert(x));
        assert forall|i: int| 0 <= i < out.len() implies #[trigger] out[i] == x || s.contains(
            out[i],
        ) by {
            if i > 0 {
                assert(out[i] == s[i - 1]);
            }
        }
    } else {
        let rest = s.skip(1);
        let tail = insert_ordered(rest, x, leq);
        lemma_insert_items(rest, x, leq);
        vstd::seq_lib::lemma_multiset_commutative(seq![s[0]], tail);
        vstd::seq_lib::lemma_multiset_commutative(seq![s[0]], rest);
        assert(s =~= seq![s[0]] + rest);
        assert(out.to_multiset() =~= s.to_multiset().insert(x));
        assert forall|i: int| 0 <= i < out.len() implies #[trigger] out[i] == x || s.contains(
            out[i],
        ) by {
            if i == 0 {
                assert(out[0] == s[0]);
            } else {
                assert(out[i] == tail[i - 1]);
                if tail[i - 1] != x {
                    let k = choose|k: int| 0 <= k < rest.len() && rest[k] == tail[i - 1];
                    assert(s[k + 1] == out[i]);
                }
            }
        }
    }
}

/// Sorting neither drops, adds nor changes an item.
pub proof fn stable_sort_keeps_items<T>(s: Seq<T>, leq: spec_fn(T, T) -> bool)
    ensures
        stable_sorted(s, leq).to_multiset() == s.to_multiset(),
        stable_sorted(s, leq).len() == s.len(),
    decreases s.len(),
{
    broadcast use vstd::seq_lib::group_to_multiset_ensures;

    if s.len() > 0 {
        let rest = s.skip(1);
        stable_sort_keeps_items(rest, leq);
        lemma_insert_items(stable_sorted(rest, leq), s[0], leq);
        vstd::seq_lib::lemma_multiset_commutative(seq![s[0]], rest);
        assert(seq![s[0]] =~= Seq::<T>::empty().push(s[0]));
        assert(s =~= seq![s[0]] + rest);
        assert(stable_sorted(s, leq).to_multiset() =~= s.to_multiset());
    }
}

proof fn lemma_insert_orders<T>(s: Seq<T>, x: T, leq: spec_fn(T, T) -> bool)
    requires
        total_preorder(leq),
        is_ordered(s, leq),
    ensures
        is_ordered(insert_ordered(s, x, leq), leq),
    decreases s.len(),
{
    let out = insert_ordered(s, x, leq);
    if s.len() == 0 || leq(x, s[0]) {
        assert forall|i: int, j: int| 0 <= i <= j < out.len() implies leq(
            #[trigger] out[i],
            #[trigger] out[j],
        ) by {
            if i == 0 {
                if j == 0 {
                    assert(leq(x, x));
                } else {
                    assert(out[j] == s[j - 1]);
                    assert(leq(s[0], s[j - 1]));
                }
            } else {
                assert(out[i] == s[i - 1] && out[j] == s[j - 1]);
            }
        }
    } else {
        let rest = s.skip(1);
        let tail = insert_ordered(rest, x, leq);
        assert(is_ordered(rest, leq)) by {
            assert forall|i: int, j: int| 0 <= i <= j < rest.len() implies leq(
                #[trigger] rest[i],
                #[trigger] rest[j],
            ) by {
                assert(rest[i] == s[i + 1] && rest[j] == s[j + 1]);
            }
        }
        lemma_insert_orders(rest, x, leq);
        lemma_insert_items(rest, x, leq);
        assert(leq(s[0], x));
        assert forall|i: int, j: int| 0 <= i <= j < out.len() implies leq(
            #[trigger] out[i],
            #[trigger] out[j],
        ) by {
            if i > 0 {
                assert(out[i] == tail[i - 1] && out[j] == tail[j - 1]);
            } else if j > 0 {
                assert(out[j] == tail[j - 1]);
                if tail[j - 1] != x {
                    let k = choose|k: int| 0 <= k < rest.len() && rest[k] == tail[j - 1];
                    assert(leq(s[0], s[k + 1]));
                }
            } else {
                assert(leq(s[0], s[0]));
            }
        }
    }
}

/// The sorted sequence is in order.
pub proof fn stable_sort_orders<T>(s: Seq<T>, leq: spec_fn(T, T) -> bool)
    requires
        total_preorder(leq),
    ensures
        is_ordered(stable_sorted(s, leq), leq),
    decreases s.len(),
{
    if s.len() > 0 {
        stable_sort_orders(s.skip(1), leq);
        lemma_insert_orders(stable_sorted(s.skip(1), leq), s[0], leq);
    }
}

proof fn lemma_filter_first<T>(s: Seq<T>, p: spec_fn(T) -> bool)
    requires
        s.len() > 0,
    ensures
        s.filter(p) == if p(s[0]) {
            seq![s[0]] + s.skip(1).filter(p)
        } else {
            s.skip(1).filter(p)
        },
{
    assert(s =~= seq![s[0]] + s.skip(1));
    Seq::filter_distributes_over_add(seq![s[0]], s.skip(1), p);
    reveal_with_fuel(Seq::filter, 2);
    let one = seq![s[0]];
    assert(one.drop_last() =~= Seq::<T>::empty());
    assert(one.filter(p) =~= if p(s[0]) {
        one
    } else {
        Seq::<T>::empty()
    });
    assert(Seq::<T>::empty() + s.skip(1).filter(p) =~= s.skip(1).filter(p));
}

proof fn lemma_insert_ties<T>(s: Seq<T>, x: T, c: T, leq: spec_fn(T, T) -> bool)
    requires
        total_preorder(leq),
        is_ordered(s, leq),
    ensures
        ties_with(insert_ordered(s, x, leq), c, leq) == if leq(x, c) && leq(c, x) {
            seq![x] + ties_with(s, c, leq)
        } else {
            ties_with(s, c, leq)
        },
    decreases s.len(),
{
    let p = |y: T| leq(y, c) && leq(c, y);
    let out = insert_ordered(s, x, leq);
    lemma_filter_first(out, p);
    if s.len() == 0 || leq(x, s[0]) {
        assert(out.skip(1) =~= s);
    } else {
        let rest = s.skip(1);
        assert(is_ordered(rest, leq)) by {
            assert forall|i: int, j: int| 0 <= i <= j < rest.len() implies leq(
                #[trigger] rest[i],
                #[trigger] rest[j],
            ) by {
                assert(rest[i] == s[i + 1] && rest[j] == s[j + 1]);
            }
        }
        lemma_insert_ties(rest, x, c, leq);
        assert(out.skip(1) =~= insert_ordered(rest, x, leq));
        lemma_filter_first(s, p);
        if p(x) && p(s[0]) {
            assert(leq(x, c) && leq(c, s[0]));
            assert(leq(x, s[0]));
        }
    }
}

/// Items that tie stay in the order they had.
pub proof fn stable_sort_keeps_ties<T>(s: Seq<T>, c: T, leq: spec_fn(T, T) -> bool)
    requires
        total_preorder(leq),
    ensures
        ties_with(stable_sorted(s, leq), c, leq) == ties_with(s, c, leq),
    decreases s.len(),
{
    if s.len() > 0 {
        let p = |y: T| leq(y, c) && leq(c, y);
        stable_sort_keeps_ties(s.skip(1), c, leq);
        stable_sort_orders(s.skip(1), leq);
        lemma_insert_ties(stable_sorted(s.skip(1), leq), s[0], c, leq);
        lemma_filter_first(s, p);
    }
}

/// Sorts `items` by `le`, leaving ties in their original order.
pub(crate) fn stable_sort<T, F: Fn(&T, &T) -> bool>(
    items: Vec<T>,
    le: F,
    Ghost(leq): Ghost<spec_fn(T, T) -> bool>,
) -> (out: Vec<T>)
    requires
        forall|a: T, b: T| #[trigger] call_requires(le, (&a, &b)),
        forall|a: T, b: T, r: bool| #[trigger] call_ensures(le, (&a, &b), r) ==> r == leq(a, b),
    ensures
        out@ == stable_sorted(items@, leq),
{
    let ghost all = items@;
    let mut pending = items;
    let mut out: Vec<T> = Vec::new();
    assert(all.skip(all.len() as int) =~= Seq::<T>::empty());
    while pending.len() > 0
        invariant
            pending@ == all.take(pending@.len() as int),
            pending@.len() <= all.len(),
            out@ == stable_sorted(all.skip(pending@.len() as int), leq),
            forall|a: T, b: T| #[trigger] call_requires(le, (&a, &b)),
            forall|a: T, b: T, r: bool| #[trigger] call_ensures(le, (&a, &b), r) ==> r == leq(a, b),
        decreases pending@.len(),
    {
        let ghost n = pending@.len() as int;
        let x: T = pending.pop().unwrap();
        let mut i: usize = 0;
        let mut found: bool = false;
        while i < out.len() && !found
            invariant
                i <= out@.len(),
                forall|j: int| 0 <= j < i ==> !leq(x, #[trigger] out@[j]),
                found ==> i < out@.len() && leq(x, out@[i as int]),
                forall|a: T, b: T| #[trigger] call_requires(le, (&a, &b)),
                forall|a: T, b: T, r: bool|
                    #[trigger] call_ensures(le, (&a, &b), r) ==> r == leq(a, b),
            decreases out@.len() - i, if found { 0int } else { 1int },
        {
            if le(&x, &out[i]) {
                found = true;
            } else {
                i = i + 1;
            }
        }
        proof {
            lemma_insert_at(out@, x, leq, i as int);
            assert(all.skip(n - 1).skip(1) =~= all.skip(n));
            assert(all.skip(n - 1)[0] == x);
            assert(all.take(n).subrange(0, n - 1) =~= all.take(n - 1));
        }
        out.insert(i, x);
    }
    assert(all.skip(0) =~= all);
    out
}

} // verus!
