//! Ordering items by a key that is absent or a position: a stable sort where
//! the items without position come first, then the items by increasing
//! position, items with equal keys keeping their order.

use vstd::prelude::*;

verus! {

/// The items of `s` whose key is `k`, in order.
pub open spec fn keep_key<T>(s: Seq<(Option<usize>, T)>, k: Option<usize>) -> Seq<(Option<usize>, T)>
    decreases s.len(),
{
    if s.len() == 0 {
        seq![]
    } else if s.last().0 == k {
        keep_key(s.drop_last(), k).push(s.last())
    } else {
        keep_key(s.drop_last(), k)
    }
}

/// The items of `s` whose key is not `k`, in order.
pub open spec fn drop_key<T>(s: Seq<(Option<usize>, T)>, k: Option<usize>) -> Seq<(Option<usize>, T)>
    decreases s.len(),
{
    if s.len() == 0 {
        seq![]
    } else if s.last().0 != k {
        drop_key(s.drop_last(), k).push(s.last())
    } else {
        drop_key(s.drop_last(), k)
    }
}

/// The items with positions `p`, `p + 1`, ..., `m - 1`, position by position.
pub open spec fn by_positions<T>(s: Seq<(Option<usize>, T)>, p: nat, m: nat) -> Seq<(Option<usize>, T)>
    decreases m - p,
{
    if p >= m {
        seq![]
    } else {
        keep_key(s, Some(p as usize)) + by_positions(s, p + 1, m)
    }
}

/// `s` ordered by key: the items without position, then those at positions
/// `0 .. m`, each group in its original order.
pub open spec fn ordered_by_key<T>(s: Seq<(Option<usize>, T)>, m: nat) -> Seq<(Option<usize>, T)> {
    keep_key(s, None) + by_positions(s, 0, m)
}

/// Every key of `s` is absent or a position below `m`.
pub open spec fn keys_below<T>(s: Seq<(Option<usize>, T)>, m: nat) -> bool {
    forall|i: int| 0 <= i < s.len() ==> ((#[trigger] s[i]).0 matches Some(p) ==> p < m)
}

proof fn lemma_keep_append<T>(a: Seq<(Option<usize>, T)>, b: Seq<(Option<usize>, T)>, k: Option<usize>)
    ensures
        keep_key(a + b, k) == keep_key(a, k) + keep_key(b, k),
        drop_key(a + b, k) == drop_key(a, k) + drop_key(b, k),
    decreases b.len(),
{
    if b.len() == 0 {
        assert(a + b =~= a);
        assert(keep_key(a, k) + keep_key(b, k) =~= keep_key(a, k));
        assert(drop_key(a, k) + drop_key(b, k) =~= drop_key(a, k));
    } else {
        assert((a + b).drop_last() =~= a + b.drop_last());
        assert((a + b).last() == b.last());
        lemma_keep_append(a, b.drop_last(), k);
        assert(keep_key(a, k) + keep_key(b.drop_last(), k).push(b.last()) =~= (keep_key(a, k)
            + keep_key(b.drop_last(), k)).push(b.last()));
        assert(drop_key(a, k) + drop_key(b.drop_last(), k).push(b.last()) =~= (drop_key(a, k)
            + drop_key(b.drop_last(), k)).push(b.last()));
    }
}

/// Keeping key `k2` after dropping another key `k1` keeps the same items.
proof fn lemma_keep_after_drop<T>(s: Seq<(Option<usize>, T)>, k1: Option<usize>, k2: Option<usize>)
    requires
        k1 != k2,
    ensures
        keep_key(drop_key(s, k1), k2) == keep_key(s, k2),
    decreases s.len(),
{
    if s.len() > 0 {
        lemma_keep_after_drop(s.drop_last(), k1, k2);
        if s.last().0 != k1 {
            let d = drop_key(s.drop_last(), k1).push(s.last());
            assert(d.drop_last() =~= drop_key(s.drop_last(), k1));
        }
    }
}

proof fn lemma_keep_of_keep<T>(s: Seq<(Option<usize>, T)>, k: Option<usize>)
    ensures
        keep_key(keep_key(s, k), k) == keep_key(s, k),
        drop_key(keep_key(s, k), k) == Seq::<(Option<usize>, T)>::empty(),
    decreases s.len(),
{
    if s.len() > 0 {
        lemma_keep_of_keep(s.drop_last(), k);
        if s.last().0 == k {
            let t = keep_key(s.drop_last(), k).push(s.last());
            assert(t.drop_last() =~= keep_key(s.drop_last(), k));
        }
    }
}

/// Keeping any key of items that all lack some other key: positions at or
/// after `p` are untouched by dropping earlier positions.
proof fn lemma_by_positions_after_drop<T>(s: Seq<(Option<usize>, T)>, k: Option<usize>, p: nat, m: nat)
    requires
        k is None || k->0 < p,
        m <= usize::MAX,
    ensures
        by_positions(drop_key(s, k), p, m) == by_positions(s, p, m),
    decreases m - p,
{
    if p < m {
        lemma_keep_after_drop(s, k, Some(p as usize));
        lemma_by_positions_after_drop(s, k, p + 1, m);
    }
}

/// One pass of the sort: moves the items with key `k` from `rest` to the end of `out`.
fn extract_key<T>(rest: &mut Vec<(Option<usize>, T)>, out: &mut Vec<(Option<usize>, T)>, k: Option<usize>)
    ensures
        final(rest)@ == drop_key(old(rest)@, k),
        final(out)@ == old(out)@ + keep_key(old(rest)@, k),
{
    let ghost before = rest@;
    let ghost out0 = out@;
    let mut i: usize = 0;
    let ghost mut j: int = 0;
    assert(before.take(0) =~= Seq::<(Option<usize>, T)>::empty());
    assert(before.skip(0) =~= before);
    assert(out0 + keep_key(before.take(0), k) =~= out0);
    assert(drop_key(before.take(0), k) + before.skip(0) =~= before);
    while i < rest.len()
        invariant
            0 <= j <= before.len(),
            rest@ == drop_key(before.take(j), k) + before.skip(j),
            out@ == out0 + keep_key(before.take(j), k),
            i == drop_key(before.take(j), k).len(),
        decreases before.len() - j,
    {
        let ghost d = drop_key(before.take(j), k);
        assert(rest@[i as int] == before[j]);
        assert(before.take(j + 1).drop_last() =~= before.take(j));
        assert(before.take(j + 1).last() == before[j]);
        if rest[i].0 == k {
            let item = rest.remove(i);
            out.push(item);
            assert(rest@ =~= d + before.skip(j + 1));
            assert(out@ =~= out0 + keep_key(before.take(j + 1), k));
        } else {
            assert(rest@ =~= d.push(before[j]) + before.skip(j + 1));
            i = i + 1;
        }
        proof {
            j = j + 1;
        }
    }
    assert(before.skip(j) =~= Seq::<(Option<usize>, T)>::empty()) by {
        assert(rest@.len() == i);
    }
    assert(before.take(j) =~= before);
    assert(rest@ =~= drop_key(before, k));
}

proof fn lemma_drop_key_keeps<T>(s: Seq<(Option<usize>, T)>, k: Option<usize>, p: nat)
    requires
        forall|i: int| 0 <= i < s.len() ==> (#[trigger] s[i]).0 is Some && s[i].0->0 >= p,
        k == Some(p as usize),
    ensures
        forall|i: int|
            0 <= i < drop_key(s, k).len() ==> (#[trigger] drop_key(s, k)[i]).0 is Some && drop_key(s, k)[i].0->0
                >= p + 1,
    decreases s.len(),
{
    if s.len() > 0 {
        let prev = s.drop_last();
        assert forall|i: int| 0 <= i < prev.len() implies (#[trigger] prev[i]).0 is Some && prev[i].0->0 >= p by {
            assert(prev[i] == s[i]);
        }
        lemma_drop_key_keeps(prev, k, p);
    }
}

proof fn lemma_drop_none<T>(s: Seq<(Option<usize>, T)>)
    ensures
        forall|i: int| 0 <= i < drop_key(s, None).len() ==> (#[trigger] drop_key(s, None)[i]).0 is Some,
    decreases s.len(),
{
    if s.len() > 0 {
        lemma_drop_none(s.drop_last());
    }
}

proof fn lemma_drop_key_subset<T>(s: Seq<(Option<usize>, T)>, k: Option<usize>, m: nat)
    requires
        keys_below(s, m),
    ensures
        keys_below(drop_key(s, k), m),
    decreases s.len(),
{
    if s.len() > 0 {
        let prev = s.drop_last();
        assert(keys_below(prev, m)) by {
            assert forall|i: int| 0 <= i < prev.len() implies ((#[trigger] prev[i]).0 matches Some(q) ==> q < m) by {
                assert(prev[i] == s[i]);
            }
        }
        lemma_drop_key_subset(prev, k, m);
    }
}

/// Orders `items` by their keys, stably: those without position first, then
/// by increasing position below `m`.
pub fn order_by_key<T>(items: Vec<(Option<usize>, T)>, m: usize) -> (out: Vec<(Option<usize>, T)>)
    requires
        keys_below(items@, m as nat),
    ensures
        out@ == ordered_by_key(items@, m as nat),
        out@.to_multiset() == items@.to_multiset(),
{
    broadcast use vstd::seq_lib::group_to_multiset_ensures;

    let ghost all = items@;
    let mut rest = items;
    let mut out: Vec<(Option<usize>, T)> = Vec::new();
    extract_key(&mut rest, &mut out, None);
    proof {
        lemma_split_multiset(all, None);
        assert(out@ =~= keep_key(all, None));
        assert(out@.to_multiset().add(rest@.to_multiset()) =~= all.to_multiset());
        lemma_drop_none(all);
        lemma_drop_key_subset(all, None, m as nat);
        lemma_by_positions_after_drop(all, None, 0, m as nat);
        assert(Seq::<(Option<usize>, T)>::empty() + keep_key(all, None) =~= keep_key(all, None));
    }
    let mut p: usize = 0;
    while p < m
        invariant
            p <= m,
            keys_below(rest@, m as nat),
            forall|i: int| 0 <= i < rest@.len() ==> (#[trigger] rest@[i]).0 is Some && rest@[i].0->0 >= p,
            by_positions(rest@, p as nat, m as nat) == by_positions(all, p as nat, m as nat),
            out@ + by_positions(all, p as nat, m as nat) == ordered_by_key(all, m as nat),
            out@.to_multiset().add(rest@.to_multiset()) == all.to_multiset(),
        decreases m - p,
    {
        let ghost r0 = rest@;
        let ghost o0 = out@;
        extract_key(&mut rest, &mut out, Some(p));
        proof {
            lemma_split_multiset(r0, Some(p));
            vstd::seq_lib::lemma_multiset_commutative(o0, keep_key(r0, Some(p)));
            assert(out@.to_multiset() =~= o0.to_multiset().add(keep_key(r0, Some(p)).to_multiset()));
            lemma_drop_key_keeps(r0, Some(p), p as nat);
            lemma_drop_key_subset(r0, Some(p), m as nat);
            lemma_by_positions_after_drop(r0, Some(p), (p + 1) as nat, m as nat);
            assert(by_positions(r0, p as nat, m as nat) == keep_key(r0, Some(p)) + by_positions(
                r0,
                (p + 1) as nat,
                m as nat,
            ));
            assert(by_positions(all, p as nat, m as nat) == keep_key(all, Some(p)) + by_positions(
                all,
                (p + 1) as nat,
                m as nat,
            ));
            assert(keep_key(r0, Some(p)) + by_positions(r0, (p + 1) as nat, m as nat) == keep_key(
                all,
                Some(p),
            ) + by_positions(all, (p + 1) as nat, m as nat));
            lemma_keep_prefix_split(r0, all, p as nat, m as nat);
            assert(out@ + by_positions(all, (p + 1) as nat, m as nat) =~= o0 + by_positions(
                all,
                p as nat,
                m as nat,
            ));
        }
        p = p + 1;
    }
    assert(by_positions(all, m as nat, m as nat) =~= Seq::<(Option<usize>, T)>::empty());
    assert(out@ =~= ordered_by_key(all, m as nat));
    if rest.len() > 0 {
        assert(rest@[0].0 is Some && rest@[0].0->0 >= m);
        assert(false);
    }
    assert(rest@ =~= Seq::<(Option<usize>, T)>::empty());
    out
}

/// Splitting by a key keeps every item exactly once.
proof fn lemma_split_multiset<T>(s: Seq<(Option<usize>, T)>, k: Option<usize>)
    ensures
        keep_key(s, k).to_multiset().add(drop_key(s, k).to_multiset()) == s.to_multiset(),
    decreases s.len(),
{
    broadcast use vstd::seq_lib::group_to_multiset_ensures;

    if s.len() == 0 {
        assert(keep_key(s, k) =~= Seq::<(Option<usize>, T)>::empty());
        assert(drop_key(s, k) =~= Seq::<(Option<usize>, T)>::empty());
    } else {
        lemma_split_multiset(s.drop_last(), k);
        assert(s =~= s.drop_last().push(s.last()));
    }
}

/// The rank of a key in the order: items without position first.
pub open spec fn key_rank(k: Option<usize>) -> int {
    match k {
        None => 0,
        Some(p) => p + 1,
    }
}

proof fn lemma_keep_keys<T>(s: Seq<(Option<usize>, T)>, k: Option<usize>)
    ensures
        forall|i: int| 0 <= i < keep_key(s, k).len() ==> (#[trigger] keep_key(s, k)[i]).0 == k,
    decreases s.len(),
{
    if s.len() > 0 {
        lemma_keep_keys(s.drop_last(), k);
    }
}

proof fn lemma_by_positions_sorted<T>(s: Seq<(Option<usize>, T)>, p: nat, m: nat)
    requires
        m <= usize::MAX,
    ensures
        forall|i: int|
            0 <= i < by_positions(s, p, m).len() ==> key_rank((#[trigger] by_positions(s, p, m)[i]).0) >= p + 1,
        forall|i: int, j: int|
            0 <= i < j < by_positions(s, p, m).len() ==> key_rank((#[trigger] by_positions(s, p, m)[i]).0)
                <= key_rank((#[trigger] by_positions(s, p, m)[j]).0),
    decreases m - p,
{
    if p < m {
        let k = Some(p as usize);
        let a = keep_key(s, k);
        let b = by_positions(s, p + 1, m);
        lemma_keep_keys(s, k);
        lemma_by_positions_sorted(s, p + 1, m);
        assert(by_positions(s, p, m) == a + b);
        assert forall|i: int| 0 <= i < (a + b).len() implies key_rank((#[trigger] (a + b)[i]).0) >= p + 1 by {
            if i < a.len() {
                assert((a + b)[i] == a[i]);
            } else {
                assert((a + b)[i] == b[i - a.len()]);
            }
        }
        assert forall|i: int, j: int|
            0 <= i < j < (a + b).len() implies key_rank((#[trigger] (a + b)[i]).0) <= key_rank(
                (#[trigger] (a + b)[j]).0,
            ) by {
            if j < a.len() {
                assert((a + b)[i] == a[i] && (a + b)[j] == a[j]);
            } else if i < a.len() {
                assert((a + b)[i] == a[i] && (a + b)[j] == b[j - a.len()]);
            } else {
                assert((a + b)[i] == b[i - a.len()] && (a + b)[j] == b[j - a.len()]);
            }
        }
    }
}

/// Ordering by key sorts: the ranks of the keys never decrease along the result.
pub proof fn lemma_ordered_by_key_sorted<T>(s: Seq<(Option<usize>, T)>, m: nat)
    requires
        m <= usize::MAX,
    ensures
        forall|i: int, j: int|
            0 <= i < j < ordered_by_key(s, m).len() ==> key_rank((#[trigger] ordered_by_key(s, m)[i]).0)
                <= key_rank((#[trigger] ordered_by_key(s, m)[j]).0),
{
    let a = keep_key(s, None);
    let b = by_positions(s, 0, m);
    lemma_keep_keys(s, None);
    lemma_by_positions_sorted(s, 0, m);
    assert forall|i: int, j: int|
        0 <= i < j < (a + b).len() implies key_rank((#[trigger] (a + b)[i]).0) <= key_rank(
            (#[trigger] (a + b)[j]).0,
        ) by {
        if j < a.len() {
            assert((a + b)[i] == a[i] && (a + b)[j] == a[j]);
        } else if i < a.len() {
            assert((a + b)[i] == a[i] && (a + b)[j] == b[j - a.len()]);
        } else {
            assert((a + b)[i] == b[i - a.len()] && (a + b)[j] == b[j - a.len()]);
        }
    }
}

/// In the concatenation `keep(r, p) + by_positions(r, p + 1)`, equal to that of
/// `all`, the first parts are equal (they are the only items keyed `p`).
proof fn lemma_keep_prefix_split<T>(r: Seq<(Option<usize>, T)>, all: Seq<(Option<usize>, T)>, p: nat, m: nat)
    requires
        p < m,
        m <= usize::MAX,
        by_positions(r, p, m) == by_positions(all, p, m),
    ensures
        keep_key(r, Some(p as usize)) == keep_key(all, Some(p as usize)),
        by_positions(r, p + 1, m) == by_positions(all, p + 1, m),
{
    let k = Some(p as usize);
    lemma_keep_by_positions(r, p, m);
    lemma_keep_by_positions(all, p, m);
    lemma_keep_by_positions_later(r, p + 1, m, p);
    lemma_keep_by_positions_later(all, p + 1, m, p);
    lemma_keep_of_keep(r, k);
    lemma_keep_of_keep(all, k);
    lemma_keep_append(keep_key(r, k), by_positions(r, p + 1, m), k);
    lemma_keep_append(keep_key(all, k), by_positions(all, p + 1, m), k);
    lemma_keep_append(keep_key(r, k), by_positions(r, p + 1, m), k);
    lemma_keep_append(keep_key(all, k), by_positions(all, p + 1, m), k);
    assert(keep_key(r, k) + Seq::<(Option<usize>, T)>::empty() =~= keep_key(r, k));
    assert(keep_key(all, k) + Seq::<(Option<usize>, T)>::empty() =~= keep_key(all, k));
    assert(Seq::<(Option<usize>, T)>::empty() + by_positions(r, p + 1, m) =~= by_positions(r, p + 1, m));
    assert(Seq::<(Option<usize>, T)>::empty() + by_positions(all, p + 1, m) =~= by_positions(
        all,
        p + 1,
        m,
    ));
}

/// `by_positions(s, p, m)` is `keep(s, p)` then the later positions.
proof fn lemma_keep_by_positions<T>(s: Seq<(Option<usize>, T)>, p: nat, m: nat)
    requires
        p < m,
    ensures
        by_positions(s, p, m) == keep_key(s, Some(p as usize)) + by_positions(s, p + 1, m),
{
}

/// The later positions hold no item keyed `q < p`.
proof fn lemma_keep_by_positions_later<T>(s: Seq<(Option<usize>, T)>, p: nat, m: nat, q: nat)
    requires
        q < p,
        m <= usize::MAX,
    ensures
        keep_key(by_positions(s, p, m), Some(q as usize)) == Seq::<(Option<usize>, T)>::empty(),
        drop_key(by_positions(s, p, m), Some(q as usize)) == by_positions(s, p, m),
    decreases m - p,
{
    if p < m {
        lemma_keep_by_positions_later(s, p + 1, m, q);
        lemma_keep_other(s, Some(p as usize), Some(q as usize));
        lemma_keep_append(keep_key(s, Some(p as usize)), by_positions(s, p + 1, m), Some(q as usize));
        assert(Seq::<(Option<usize>, T)>::empty() + Seq::<(Option<usize>, T)>::empty() =~= Seq::<
            (Option<usize>, T),
        >::empty());
    } else {
        assert(by_positions(s, p, m) =~= Seq::<(Option<usize>, T)>::empty());
    }
}

/// The items kept for key `k1` hold none with another key `k2`.
proof fn lemma_keep_other<T>(s: Seq<(Option<usize>, T)>, k1: Option<usize>, k2: Option<usize>)
    requires
        k1 != k2,
    ensures
        keep_key(keep_key(s, k1), k2) == Seq::<(Option<usize>, T)>::empty(),
        drop_key(keep_key(s, k1), k2) == keep_key(s, k1),
    decreases s.len(),
{
    if s.len() > 0 {
        lemma_keep_other(s.drop_last(), k1, k2);
        if s.last().0 == k1 {
            let t = keep_key(s.drop_last(), k1).push(s.last());
            assert(t.drop_last() =~= keep_key(s.drop_last(), k1));
        }
    }
}

} // verus!
