//! Deterministic ordering by text keys: the lexicographic order of key
//! tuples and a stable insertion sort that yields the order as indices.
use vstd::prelude::*;

use crate::text::{
    append, chars_lt, chars_of, lemma_text_lt_asymmetric, lemma_text_lt_total,
    lemma_text_lt_transitive, opt_view, str_eq, text_lt, views,
};

verus! {

/// Strict lexicographic order of key tuples, each key compared as text.
pub open spec fn keys_lt(a: Seq<Seq<char>>, b: Seq<Seq<char>>) -> bool
    decreases a.len(),
{
    if a.len() == 0 {
        b.len() > 0
    } else if b.len() == 0 {
        false
    } else if a[0] != b[0] {
        text_lt(a[0], b[0])
    } else {
        keys_lt(a.drop_first(), b.drop_first())
    }
}

/// The key of an optional text: absent sorts before every present text,
/// present texts sort by their text.
pub open spec fn opt_key(o: Option<Seq<char>>) -> Seq<char> {
    match o {
        Some(s) => seq!['+'] + s,
        None => Seq::empty(),
    }
}

/// The key of a flag: `false` sorts before `true`.
pub open spec fn flag_key(b: bool) -> Seq<char> {
    if b {
        seq!['+']
    } else {
        Seq::empty()
    }
}

/// Stable insertion of position `x` into an order: after the last
/// position whose key is not greater.
pub open spec fn key_insert(keys: Seq<Seq<Seq<char>>>, order: Seq<int>, x: int) -> Seq<int>
    decreases order.len(),
{
    if order.len() == 0 {
        seq![x]
    } else if !keys_lt(keys[x], keys[order.last()]) {
        order.push(x)
    } else {
        key_insert(keys, order.drop_last(), x).push(order.last())
    }
}

/// The stable sorted order of the first `n` positions by key.
pub open spec fn key_sort(keys: Seq<Seq<Seq<char>>>, n: int) -> Seq<int>
    decreases n,
{
    if n <= 0 {
        Seq::empty()
    } else {
        key_insert(keys, key_sort(keys, n - 1), n - 1)
    }
}

/// The positions of a vector of indices as integers.
pub open spec fn index_seq(v: Seq<usize>) -> Seq<int> {
    v.map_values(|i: usize| i as int)
}

/// The views of a sequence of key tuples.
pub open spec fn keys_view(v: Seq<Vec<String>>) -> Seq<Seq<Seq<char>>> {
    v.map_values(|k: Vec<String>| views(k@))
}

/// The shape of an insertion at the position the scan stops at.
pub proof fn lemma_key_insert_at(keys: Seq<Seq<Seq<char>>>, order: Seq<int>, x: int, j: int)
    requires
        0 <= j <= order.len(),
        forall|m: int| j <= m < order.len() ==> keys_lt(keys[x], #[trigger] keys[order[m]]),
        j == 0 || !keys_lt(keys[x], keys[order[j - 1]]),
    ensures
        key_insert(keys, order, x) == order.take(j).push(x) + order.skip(j),
    decreases order.len(),
{
    if order.len() == 0 {
        assert(order.take(j).push(x) + order.skip(j) =~= seq![x]);
    } else if !keys_lt(keys[x], keys[order.last()]) {
        assert(j == order.len());
        assert(order.take(j).push(x) + order.skip(j) =~= order.push(x));
    } else {
        let t = order.drop_last();
        lemma_key_insert_at(keys, t, x, j);
        assert((t.take(j).push(x) + t.skip(j)).push(order.last()) =~= order.take(j).push(x)
            + order.skip(j));
    }
}

/// `keys_lt` on key tuples.
pub fn keys_less(a: &Vec<String>, b: &Vec<String>) -> (r: bool)
    ensures
        r == keys_lt(views(a@), views(b@)),
{
    let ghost va = views(a@);
    let ghost vb = views(b@);
    let mut i: usize = 0;
    assert(va.skip(0) =~= va);
    assert(vb.skip(0) =~= vb);
    while i < a.len() && i < b.len()
        invariant
            i <= a.len(),
            i <= b.len(),
            va == views(a@),
            vb == views(b@),
            keys_lt(va, vb) == keys_lt(va.skip(i as int), vb.skip(i as int)),
        decreases a.len() - i,
    {
        let ca = chars_of(a[i].as_str());
        let cb = chars_of(b[i].as_str());
        proof {
            assert(va.skip(i as int)[0] == a@[i as int]@);
            assert(vb.skip(i as int)[0] == b@[i as int]@);
        }
        if !str_eq(a[i].as_str(), b[i].as_str()) {
            return chars_lt(&ca, &cb);
        }
        proof {
            assert(va.skip(i as int).drop_first() =~= va.skip(i as int + 1));
            assert(vb.skip(i as int).drop_first() =~= vb.skip(i as int + 1));
        }
        i = i + 1;
    }
    i == a.len() && i < b.len()
}

/// The stable sorted order of positions by key tuple (see `key_sort`).
pub fn sort_order(keys: &Vec<Vec<String>>) -> (r: Vec<usize>)
    ensures
        index_seq(r@) == key_sort(keys_view(keys@), keys.len() as int),
        r.len() == keys.len(),
        forall|k: int| 0 <= k < r.len() ==> #[trigger] r@[k] < keys.len(),
{
    let ghost kv = keys_view(keys@);
    let mut order: Vec<usize> = Vec::new();
    let mut i: usize = 0;
    while i < keys.len()
        invariant
            i <= keys.len(),
            kv == keys_view(keys@),
            index_seq(order@) == key_sort(kv, i as int),
            order.len() == i,
            forall|k: int| 0 <= k < order.len() ==> #[trigger] order@[k] < i,
        decreases keys.len() - i,
    {
        let ghost before = index_seq(order@);
        let mut j: usize = order.len();
        while j > 0 && keys_less(&keys[i], &keys[order[j - 1]])
            invariant
                j <= order.len(),
                i < keys.len(),
                kv == keys_view(keys@),
                before == index_seq(order@),
                forall|k: int| 0 <= k < order.len() ==> #[trigger] order@[k] < i,
                forall|m: int| j <= m < order.len() ==> keys_lt(kv[i as int], #[trigger] kv[before[m]]),
            decreases j,
        {
            proof {
                assert(kv[order@[j - 1] as int] == views(keys@[order@[j - 1] as int]@));
                assert(before[j - 1] == order@[j - 1] as int);
            }
            j = j - 1;
        }
        proof {
            if j > 0 {
                assert(before[j - 1] == order@[j - 1] as int);
            }
            assert(kv[i as int] == views(keys@[i as int]@));
            lemma_key_insert_at(kv, before, i as int, j as int);
        }
        let ghost prev = order@;
        order.insert(j, i);
        proof {
            assert(index_seq(order@) =~= before.take(j as int).push(i as int) + before.skip(j as int));
            assert forall|k: int| 0 <= k < order.len() implies #[trigger] order@[k] < i + 1 by {
                if k < j {
                } else if k > j {
                    assert(order@[k] == prev[k - 1]);
                }
            }
        }
        i = i + 1;
    }
    order
}


/// The key text of an optional string (see `opt_key`).
pub fn opt_key_string(o: &Option<String>) -> (r: String)
    ensures
        r@ == opt_key(opt_view(*o)),
{
    match o {
        Some(s) => {
            let mut r = String::new();
            r.push('+');
            append(&mut r, s.as_str());
            assert(r@ =~= opt_key(opt_view(*o)));
            r
        },
        None => {
            let r = String::new();
            assert(r@ =~= opt_key(opt_view(*o)));
            r
        },
    }
}

/// The key text of a flag (see `flag_key`).
pub fn flag_key_string(b: bool) -> (r: String)
    ensures
        r@ == flag_key(b),
{
    let mut r = String::new();
    if b {
        r.push('+');
    }
    assert(r@ =~= flag_key(b));
    r
}


// ---------------------------------------------------------------------------
// The order is total, and the sort is a stable sort
// ---------------------------------------------------------------------------

/// `keys_lt` is irreflexive.
pub proof fn lemma_keys_lt_irreflexive(a: Seq<Seq<char>>)
    ensures
        !keys_lt(a, a),
    decreases a.len(),
{
    if a.len() > 0 {
        lemma_keys_lt_irreflexive(a.drop_first());
    }
}

/// `keys_lt` is transitive.
pub proof fn lemma_keys_lt_transitive(a: Seq<Seq<char>>, b: Seq<Seq<char>>, c: Seq<Seq<char>>)
    requires
        keys_lt(a, b),
        keys_lt(b, c),
    ensures
        keys_lt(a, c),
    decreases a.len(),
{
    if a.len() > 0 && b.len() > 0 && c.len() > 0 {
        if a[0] != b[0] && b[0] != c[0] {
            lemma_text_lt_transitive(a[0], b[0], c[0]);
            if a[0] == c[0] {
                lemma_text_lt_asymmetric(a[0], b[0]);
            }
        } else if a[0] != b[0] {
            // b[0] == c[0]
        } else if b[0] != c[0] {
            // a[0] == b[0]
        } else {
            lemma_keys_lt_transitive(a.drop_first(), b.drop_first(), c.drop_first());
        }
    }
}

/// Two different key tuples are ordered one way or the other.
pub proof fn lemma_keys_lt_total(a: Seq<Seq<char>>, b: Seq<Seq<char>>)
    ensures
        a == b || keys_lt(a, b) || keys_lt(b, a),
    decreases a.len(),
{
    if a.len() == 0 && b.len() == 0 {
        assert(a =~= b);
    } else if a.len() > 0 && b.len() > 0 {
        if a[0] != b[0] {
            lemma_text_lt_total(a[0], b[0]);
        } else {
            lemma_keys_lt_total(a.drop_first(), b.drop_first());
            if a.drop_first() == b.drop_first() {
                assert(a =~= seq![a[0]] + a.drop_first());
                assert(b =~= seq![b[0]] + b.drop_first());
            }
        }
    }
}

/// An order of positions that is sorted by key and keeps positions with
/// equal keys in their original order.
pub open spec fn stable_sorted(keys: Seq<Seq<Seq<char>>>, order: Seq<int>) -> bool {
    forall|i: int, j: int|
        0 <= i < j < order.len() ==> keys_lt(keys[#[trigger] order[i]], keys[#[trigger] order[j]]) || (
        keys[order[i]] == keys[order[j]] && order[i] < order[j])
}

proof fn lemma_key_insert_sorted(keys: Seq<Seq<Seq<char>>>, order: Seq<int>, x: int)
    requires
        stable_sorted(keys, order),
        forall|i: int| 0 <= i < order.len() ==> #[trigger] order[i] < x,
    ensures
        stable_sorted(keys, key_insert(keys, order, x)),
        key_insert(keys, order, x).len() == order.len() + 1,
        forall|y: int| #[trigger] key_insert(keys, order, x).contains(y) <==> (order.contains(y) || y == x),
    decreases order.len(),
{
    let r = key_insert(keys, order, x);
    if order.len() == 0 {
        assert(r =~= seq![x]);
        assert forall|y: int| #[trigger] r.contains(y) <==> (order.contains(y) || y == x) by {
            if r.contains(y) {
                assert(r[0] == x);
            }
            if y == x {
                assert(r[0] == y);
            }
        }
    } else {
        let last = order.last();
        if !keys_lt(keys[x], keys[last]) {
            assert(r == order.push(x));
            lemma_keys_lt_total(keys[x], keys[last]);
            assert forall|i: int, j: int| 0 <= i < j < r.len() implies keys_lt(
                keys[#[trigger] r[i]],
                keys[#[trigger] r[j]],
            ) || (keys[r[i]] == keys[r[j]] && r[i] < r[j]) by {
                if j == r.len() - 1 {
                    assert(r[j] == x);
                    assert(r[i] == order[i]);
                    if i < order.len() - 1 {
                        let e = order[i];
                        assert(keys_lt(keys[order[i]], keys[order[order.len() - 1]]) || (keys[order[i]]
                            == keys[order[order.len() - 1]] && order[i] < order[order.len() - 1]));
                        if keys_lt(keys[e], keys[last]) && keys_lt(keys[last], keys[x]) {
                            lemma_keys_lt_transitive(keys[e], keys[last], keys[x]);
                        }
                    }
                    assert(order[i] < x);
                } else {
                    assert(r[i] == order[i]);
                    assert(r[j] == order[j]);
                }
            }
            assert forall|y: int| #[trigger] r.contains(y) <==> (order.contains(y) || y == x) by {
                if r.contains(y) {
                    let k = choose|k: int| 0 <= k < r.len() && r[k] == y;
                    if k < order.len() {
                        assert(order[k] == y);
                    }
                }
                if order.contains(y) {
                    let k = choose|k: int| 0 <= k < order.len() && order[k] == y;
                    assert(r[k] == y);
                }
                if y == x {
                    assert(r[order.len() as int] == y);
                }
            }
        } else {
            let t = order.drop_last();
            assert forall|i: int, j: int| 0 <= i < j < t.len() implies keys_lt(
                keys[#[trigger] t[i]],
                keys[#[trigger] t[j]],
            ) || (keys[t[i]] == keys[t[j]] && t[i] < t[j]) by {
                assert(t[i] == order[i]);
                assert(t[j] == order[j]);
            }
            assert forall|i: int| 0 <= i < t.len() implies #[trigger] t[i] < x by {
                assert(t[i] == order[i]);
            }
            lemma_key_insert_sorted(keys, t, x);
            let inner = key_insert(keys, t, x);
            assert(r == inner.push(last));
            assert forall|i: int, j: int| 0 <= i < j < r.len() implies keys_lt(
                keys[#[trigger] r[i]],
                keys[#[trigger] r[j]],
            ) || (keys[r[i]] == keys[r[j]] && r[i] < r[j]) by {
                if j == r.len() - 1 {
                    assert(r[j] == last);
                    assert(r[i] == inner[i]);
                    assert(inner.contains(inner[i]));
                    if inner[i] == x {
                    } else {
                        assert(t.contains(inner[i]));
                        let k = choose|k: int| 0 <= k < t.len() && t[k] == inner[i];
                        assert(t[k] == order[k]);
                        assert(keys_lt(keys[order[k]], keys[order[order.len() - 1]]) || (keys[order[k]]
                            == keys[order[order.len() - 1]] && order[k] < order[order.len() - 1]));
                    }
                } else {
                    assert(r[i] == inner[i]);
                    assert(r[j] == inner[j]);
                }
            }
            assert forall|y: int| #[trigger] r.contains(y) <==> (order.contains(y) || y == x) by {
                if r.contains(y) {
                    let k = choose|k: int| 0 <= k < r.len() && r[k] == y;
                    if k < inner.len() {
                        assert(inner[k] == y);
                        assert(inner.contains(y));
                        if t.contains(y) {
                            let m = choose|m: int| 0 <= m < t.len() && t[m] == y;
                            assert(order[m] == y);
                        }
                    } else {
                        assert(order[order.len() - 1] == y);
                    }
                }
                if order.contains(y) {
                    let k = choose|k: int| 0 <= k < order.len() && order[k] == y;
                    if k < t.len() {
                        assert(t[k] == y);
                        assert(t.contains(y));
                        assert(inner.contains(y));
                        let m = choose|m: int| 0 <= m < inner.len() && inner[m] == y;
                        assert(r[m] == y);
                    } else {
                        assert(r[r.len() - 1] == y);
                    }
                }
                if y == x {
                    assert(inner.contains(x));
                    let m = choose|m: int| 0 <= m < inner.len() && inner[m] == x;
                    assert(r[m] == y);
                }
            }
        }
    }
}

/// The sorted order of the first `n` positions lists each of them once,
/// sorted by key, and positions with equal keys keep their original order.
pub proof fn lemma_key_sort_stable(keys: Seq<Seq<Seq<char>>>, n: int)
    requires
        0 <= n,
    ensures
        key_sort(keys, n).len() == n,
        forall|y: int| #[trigger] key_sort(keys, n).contains(y) <==> 0 <= y < n,
        stable_sorted(keys, key_sort(keys, n)),
    decreases n,
{
    if n == 0 {
        assert forall|y: int| #[trigger] key_sort(keys, n).contains(y) <==> 0 <= y < n by {
            if key_sort(keys, n).contains(y) {
                let k = choose|k: int| 0 <= k < key_sort(keys, n).len() && key_sort(keys, n)[k] == y;
            }
        }
    } else {
        lemma_key_sort_stable(keys, n - 1);
        let prev = key_sort(keys, n - 1);
        assert forall|i: int| 0 <= i < prev.len() implies #[trigger] prev[i] < n - 1 by {
            assert(prev.contains(prev[i]));
        }
        lemma_key_insert_sorted(keys, prev, n - 1);
    }
}


// ---------------------------------------------------------------------------
// The sorted keys do not depend on the input order
// ---------------------------------------------------------------------------

/// The keys at the given positions, in order.
pub open spec fn pick_keys(keys: Seq<Seq<Seq<char>>>, order: Seq<int>) -> Seq<Seq<Seq<char>>> {
    order.map_values(|i: int| keys[i])
}

/// `a` does not come after `b` in key order.
pub open spec fn keys_le(a: Seq<Seq<char>>, b: Seq<Seq<char>>) -> bool {
    !keys_lt(b, a)
}

proof fn lemma_keys_le_total_order()
    ensures
        vstd::relations::total_ordering(|a: Seq<Seq<char>>, b: Seq<Seq<char>>| keys_le(a, b)),
{
    let leq = |a: Seq<Seq<char>>, b: Seq<Seq<char>>| keys_le(a, b);
    assert forall|x: Seq<Seq<char>>| #[trigger] leq(x, x) by {
        lemma_keys_lt_irreflexive(x);
    }
    assert forall|x: Seq<Seq<char>>, y: Seq<Seq<char>>| #[trigger] leq(x, y) && #[trigger] leq(y, x) implies x == y by {
        lemma_keys_lt_total(x, y);
    }
    assert forall|x: Seq<Seq<char>>, y: Seq<Seq<char>>, z: Seq<Seq<char>>|
        #[trigger] leq(x, y) && #[trigger] leq(y, z) implies leq(x, z) by {
        lemma_keys_lt_total(x, y);
        lemma_keys_lt_total(y, z);
        if keys_lt(z, x) {
            if keys_lt(x, y) {
                lemma_keys_lt_transitive(z, x, y);
            }
        }
    }
    assert forall|x: Seq<Seq<char>>, y: Seq<Seq<char>>| #[trigger] leq(x, y) || #[trigger] leq(y, x) by {
        if keys_lt(x, y) && keys_lt(y, x) {
            lemma_keys_lt_transitive(x, y, x);
            lemma_keys_lt_irreflexive(x);
        }
    }
}

proof fn lemma_key_insert_multiset(keys: Seq<Seq<Seq<char>>>, order: Seq<int>, x: int)
    ensures
        pick_keys(keys, key_insert(keys, order, x)).to_multiset() == pick_keys(keys, order).to_multiset().insert(
            keys[x],
        ),
    decreases order.len(),
{
    broadcast use vstd::seq_lib::group_to_multiset_ensures;
    broadcast use vstd::multiset::group_multiset_axioms;

    let r = key_insert(keys, order, x);
    if order.len() == 0 {
        assert(pick_keys(keys, r) =~= Seq::<Seq<Seq<char>>>::empty().push(keys[x]));
        assert(pick_keys(keys, order) =~= Seq::<Seq<Seq<char>>>::empty());
    } else if !keys_lt(keys[x], keys[order.last()]) {
        assert(pick_keys(keys, r) =~= pick_keys(keys, order).push(keys[x]));
    } else {
        let t = order.drop_last();
        lemma_key_insert_multiset(keys, t, x);
        let inner = key_insert(keys, t, x);
        assert(pick_keys(keys, r) =~= pick_keys(keys, inner).push(keys[order.last()]));
        assert(pick_keys(keys, order) =~= pick_keys(keys, t).push(keys[order.last()]));
        assert(pick_keys(keys, r).to_multiset() =~= pick_keys(keys, order).to_multiset().insert(keys[x]));
    }
}

proof fn lemma_key_sort_multiset(keys: Seq<Seq<Seq<char>>>, n: int)
    requires
        0 <= n <= keys.len(),
    ensures
        pick_keys(keys, key_sort(keys, n)).to_multiset() == keys.take(n).to_multiset(),
    decreases n,
{
    broadcast use vstd::seq_lib::group_to_multiset_ensures;

    if n == 0 {
        assert(pick_keys(keys, key_sort(keys, n)) =~= Seq::<Seq<Seq<char>>>::empty());
        assert(keys.take(0) =~= Seq::<Seq<Seq<char>>>::empty());
    } else {
        lemma_key_sort_multiset(keys, n - 1);
        lemma_key_insert_multiset(keys, key_sort(keys, n - 1), n - 1);
        assert(keys.take(n) =~= keys.take(n - 1).push(keys[n - 1]));
    }
}

/// Sorting by key does not depend on the order of the input: key tuples
/// with the same occurrences come out as the same sequence.
pub proof fn lemma_sorted_keys_order_free(a: Seq<Seq<Seq<char>>>, b: Seq<Seq<Seq<char>>>)
    requires
        a.to_multiset() == b.to_multiset(),
    ensures
        pick_keys(a, key_sort(a, a.len() as int)) == pick_keys(b, key_sort(b, b.len() as int)),
{
    let leq = |x: Seq<Seq<char>>, y: Seq<Seq<char>>| keys_le(x, y);
    lemma_keys_le_total_order();
    lemma_key_sort_multiset(a, a.len() as int);
    lemma_key_sort_multiset(b, b.len() as int);
    assert(a.take(a.len() as int) =~= a);
    assert(b.take(b.len() as int) =~= b);
    lemma_key_sort_stable(a, a.len() as int);
    lemma_key_sort_stable(b, b.len() as int);
    let pa = pick_keys(a, key_sort(a, a.len() as int));
    let pb = pick_keys(b, key_sort(b, b.len() as int));
    let oa = key_sort(a, a.len() as int);
    let ob = key_sort(b, b.len() as int);
    assert forall|i: int, j: int| 0 <= i < j < pa.len() implies #[trigger] leq(pa[i], pa[j]) by {
        assert(keys_lt(a[oa[i]], a[oa[j]]) || (a[oa[i]] == a[oa[j]] && oa[i] < oa[j]));
        if keys_lt(a[oa[i]], a[oa[j]]) {
            if keys_lt(a[oa[j]], a[oa[i]]) {
                lemma_keys_lt_transitive(a[oa[i]], a[oa[j]], a[oa[i]]);
                lemma_keys_lt_irreflexive(a[oa[i]]);
            }
        } else {
            lemma_keys_lt_irreflexive(a[oa[i]]);
        }
    }
    assert forall|i: int, j: int| 0 <= i < j < pb.len() implies #[trigger] leq(pb[i], pb[j]) by {
        assert(keys_lt(b[ob[i]], b[ob[j]]) || (b[ob[i]] == b[ob[j]] && ob[i] < ob[j]));
        if keys_lt(b[ob[i]], b[ob[j]]) {
            if keys_lt(b[ob[j]], b[ob[i]]) {
                lemma_keys_lt_transitive(b[ob[i]], b[ob[j]], b[ob[i]]);
                lemma_keys_lt_irreflexive(b[ob[i]]);
            }
        } else {
            lemma_keys_lt_irreflexive(b[ob[i]]);
        }
    }
    vstd::seq_lib::lemma_sorted_unique(pa, pb, leq);
}

} // verus!
