//! Choosing and ordering by key: which items of a list pass a test, and in
//! which order items come when they are sorted by a key and equal keys keep
//! the order in which they were found.

use vstd::prelude::*;

verus! {

/// Whether position `i` is listed in `order`.
pub open spec fn occurs_in(order: Seq<usize>, i: int) -> bool {
    exists|a: int| 0 <= a < order.len() && #[trigger] order[a] == i
}

/// The positions below `n` at which `pass` holds, in rising order.
pub open spec fn indices_where(pass: spec_fn(int) -> bool, n: nat) -> Seq<usize>
    decreases n,
{
    if n == 0 {
        Seq::empty()
    } else if pass(n - 1) {
        indices_where(pass, (n - 1) as nat).push((n - 1) as usize)
    } else {
        indices_where(pass, (n - 1) as nat)
    }
}

/// `indices_where` holds exactly the positions that pass, each once, rising.
pub proof fn lemma_indices_where(pass: spec_fn(int) -> bool, n: nat)
    requires
        n <= usize::MAX,
    ensures
        indices_where(pass, n).len() <= n,
        forall|k: int|
            0 <= k < indices_where(pass, n).len() ==> (#[trigger] indices_where(pass, n)[k]) < n
                && pass(indices_where(pass, n)[k] as int),
        forall|a: int, b: int|
            0 <= a < b < indices_where(pass, n).len() ==> indices_where(pass, n)[a]
                < indices_where(pass, n)[b],
        forall|i: int| 0 <= i < n && pass(i) ==> #[trigger] occurs_in(indices_where(pass, n), i),
    decreases n,
{
    if n > 0 {
        lemma_indices_where(pass, (n - 1) as nat);
        let prev = indices_where(pass, (n - 1) as nat);
        let cur = indices_where(pass, n);
        assert forall|i: int| 0 <= i < n && pass(i) implies #[trigger] occurs_in(cur, i) by {
            if i < n - 1 {
                assert(occurs_in(prev, i));
                let k = choose|k: int| 0 <= k < prev.len() && #[trigger] prev[k] == i;
                assert(cur[k] == i);
            } else {
                assert(cur[cur.len() - 1] == i);
            }
        }
    }
}

/// Whether item `i` comes before item `j` when items are ordered by key and
/// items of equal key keep the order in which they were found.
pub open spec fn comes_before(keys: Seq<u64>, i: int, j: int) -> bool {
    keys[i] < keys[j] || (keys[i] == keys[j] && i < j)
}

/// Where an item with key `key` that was found after all items of `order`
/// goes into `order`: behind the last item whose key is not greater.
pub open spec fn insert_point(keys: Seq<u64>, order: Seq<usize>, key: u64) -> int
    decreases order.len(),
{
    if order.len() == 0 {
        0
    } else if keys[order.last() as int] > key {
        insert_point(keys, order.drop_last(), key)
    } else {
        order.len() as int
    }
}

/// The first `n` items in the order of their keys, items of equal key in
/// the order in which they were found. The result lists positions.
pub open spec fn stable_order(keys: Seq<u64>, n: nat) -> Seq<usize>
    decreases n,
{
    if n == 0 {
        Seq::empty()
    } else {
        let prev = stable_order(keys, (n - 1) as nat);
        prev.insert(insert_point(keys, prev, keys[n - 1]), (n - 1) as usize)
    }
}

/// Whether `order` lists each of the first `n` positions once, every listed
/// item before all that the ordering puts behind it.
pub open spec fn is_stable_ordering(keys: Seq<u64>, n: nat, order: Seq<usize>) -> bool {
    &&& order.len() == n
    &&& forall|a: int| 0 <= a < order.len() ==> (#[trigger] order[a]) < n
    &&& forall|a: int, b: int|
        0 <= a < b < order.len() ==> comes_before(keys, order[a] as int, order[b] as int)
    &&& forall|i: int| 0 <= i < n ==> #[trigger] occurs_in(order, i)
}

/// Behind the insert point every key is greater; just before it, none is.
pub proof fn lemma_insert_point(keys: Seq<u64>, order: Seq<usize>, key: u64)
    ensures
        0 <= insert_point(keys, order, key) <= order.len(),
        forall|j: int|
            insert_point(keys, order, key) <= j < order.len() ==> keys[(#[trigger] order[j]) as int]
                > key,
        insert_point(keys, order, key) > 0 ==> keys[order[insert_point(keys, order, key)
            - 1] as int] <= key,
    decreases order.len(),
{
    if order.len() > 0 && keys[order.last() as int] > key {
        let shorter = order.drop_last();
        lemma_insert_point(keys, shorter, key);
        let p = insert_point(keys, order, key);
        assert forall|j: int| p <= j < order.len() implies keys[(#[trigger] order[j]) as int]
            > key by {
            if j < order.len() - 1 {
                assert(order[j] == shorter[j]);
            }
        }
        if p > 0 {
            assert(order[p - 1] == shorter[p - 1]);
        }
    }
}

/// Sorting by key with ties in the order found puts every item before all
/// that come after it, and loses and repeats none.
pub proof fn lemma_stable_order(keys: Seq<u64>, n: nat)
    requires
        n <= keys.len(),
        n <= usize::MAX,
    ensures
        is_stable_ordering(keys, n, stable_order(keys, n)),
    decreases n,
{
    if n > 0 {
        let m = (n - 1) as nat;
        lemma_stable_order(keys, m);
        let prev = stable_order(keys, m);
        let key = keys[n - 1];
        let p = insert_point(keys, prev, key);
        lemma_insert_point(keys, prev, key);
        let cur = stable_order(keys, n);
        assert(cur == prev.insert(p, m as usize));
        assert(cur.len() == n);
        assert forall|a: int| 0 <= a < cur.len() implies (#[trigger] cur[a]) < n by {
            if a < p {
                assert(cur[a] == prev[a]);
            } else if a > p {
                assert(cur[a] == prev[a - 1]);
            }
        }
        // every item before the insert point has a key that is not greater
        assert forall|j: int| 0 <= j < p implies keys[(#[trigger] prev[j]) as int] <= key by {
            if j < p - 1 {
                assert(comes_before(keys, prev[j] as int, prev[p - 1] as int));
            }
        }
        assert forall|a: int, b: int| 0 <= a < b < cur.len() implies comes_before(
            keys,
            cur[a] as int,
            cur[b] as int,
        ) by {
            if b < p {
                assert(cur[a] == prev[a] && cur[b] == prev[b]);
            } else if b == p {
                assert(cur[a] == prev[a]);
                assert(prev[a] < m);
            } else if a < p {
                assert(cur[a] == prev[a] && cur[b] == prev[b - 1]);
            } else if a == p {
                assert(cur[b] == prev[b - 1]);
            } else {
                assert(cur[a] == prev[a - 1] && cur[b] == prev[b - 1]);
            }
        }
        assert forall|i: int| 0 <= i < n implies #[trigger] occurs_in(cur, i) by {
            if i == m {
                assert(cur[p] == i);
            } else {
                assert(occurs_in(prev, i));
                let a = choose|a: int| 0 <= a < prev.len() && #[trigger] prev[a] == i;
                if a < p {
                    assert(cur[a] == i);
                } else {
                    assert(cur[a + 1] == i);
                }
            }
        }
    }
}

/// The positions of the items of `keys` in the order of their keys; items
/// of equal key stay in the order in which they stand in `keys`.
pub fn stable_order_by_key(keys: &Vec<u64>) -> (order: Vec<usize>)
    ensures
        order@ == stable_order(keys@, keys@.len()),
        is_stable_ordering(keys@, keys@.len(), order@),
{
    let mut order: Vec<usize> = Vec::new();
    let mut n: usize = 0;
    while n < keys.len()
        invariant
            n <= keys.len(),
            order@ == stable_order(keys@, n as nat),
            order@.len() == n,
            forall|a: int| 0 <= a < order@.len() ==> (#[trigger] order@[a]) < n,
        decreases keys.len() - n,
    {
        let key = keys[n];
        let mut p: usize = order.len();
        proof {
            assert(order@.subrange(0, p as int) =~= order@);
        }
        while p > 0 && keys[order[p - 1]] > key
            invariant
                p <= order@.len(),
                n < keys.len(),
                key == keys@[n as int],
                forall|a: int| 0 <= a < order@.len() ==> (#[trigger] order@[a]) < n,
                insert_point(keys@, order@, key) == insert_point(
                    keys@,
                    order@.subrange(0, p as int),
                    key,
                ),
            decreases p,
        {
            proof {
                assert(order@.subrange(0, p as int).drop_last() =~= order@.subrange(0, p - 1));
            }
            p -= 1;
        }
        proof {
            lemma_stable_order(keys@, (n + 1) as nat);
            assert(insert_point(keys@, order@.subrange(0, p as int), key) == p);
        }
        order.insert(p, n);
        n += 1;
    }
    proof {
        lemma_stable_order(keys@, keys@.len());
    }
    order
}

/// The test that item `i` passes when it is marked in `pass`.
pub open spec fn marked(pass: Seq<bool>) -> spec_fn(int) -> bool {
    |i: int| 0 <= i < pass.len() && pass[i]
}

/// The keys of the chosen items, in the order in which the items were found.
pub open spec fn keys_of(keys: Seq<u64>, chosen: Seq<usize>) -> Seq<u64> {
    Seq::new(chosen.len(), |k: int| keys[chosen[k] as int])
}

/// The positions of the items that are marked in `pass`, in the order of
/// their keys; marked items of equal key stay in the order in which they
/// stand.
pub open spec fn spec_select_in_order(pass: Seq<bool>, keys: Seq<u64>) -> Seq<usize> {
    let chosen = indices_where(marked(pass), pass.len());
    let order = stable_order(keys_of(keys, chosen), chosen.len());
    Seq::new(order.len(), |k: int| chosen[order[k] as int])
}

/// Whether `listed` holds exactly the marked positions, each once, every
/// listed item before all that the ordering puts behind it.
pub open spec fn is_selection_in_order(pass: Seq<bool>, keys: Seq<u64>, listed: Seq<usize>)
    -> bool {
    &&& listed.len() <= pass.len()
    &&& forall|k: int|
        0 <= k < listed.len() ==> (#[trigger] listed[k]) < pass.len() && pass[listed[k] as int]
    &&& forall|a: int, b: int|
        0 <= a < b < listed.len() ==> comes_before(keys, listed[a] as int, listed[b] as int)
    &&& forall|i: int| 0 <= i < pass.len() && pass[i] ==> #[trigger] occurs_in(listed, i)
}

/// Choosing the marked items and sorting them by key loses none of them,
/// takes no other, and puts each before all that come after it.
pub proof fn lemma_select_in_order(pass: Seq<bool>, keys: Seq<u64>)
    requires
        pass.len() == keys.len(),
        pass.len() <= usize::MAX,
    ensures
        is_selection_in_order(pass, keys, spec_select_in_order(pass, keys)),
        spec_select_in_order(pass, keys).len() == indices_where(marked(pass), pass.len()).len(),
{
    let chosen = indices_where(marked(pass), pass.len());
    lemma_indices_where(marked(pass), pass.len());
    let chosen_keys = keys_of(keys, chosen);
    lemma_stable_order(chosen_keys, chosen.len());
    let order = stable_order(chosen_keys, chosen.len());
    let listed = spec_select_in_order(pass, keys);
    assert forall|k: int| 0 <= k < listed.len() implies (#[trigger] listed[k]) < pass.len()
        && pass[listed[k] as int] by {
        assert(order[k] < chosen.len());
        assert(chosen[order[k] as int] < pass.len());
    }
    assert forall|a: int, b: int| 0 <= a < b < listed.len() implies comes_before(
        keys,
        listed[a] as int,
        listed[b] as int,
    ) by {
        assert(order[a] < chosen.len() && order[b] < chosen.len());
        assert(comes_before(chosen_keys, order[a] as int, order[b] as int));
    }
    assert forall|i: int| 0 <= i < pass.len() && pass[i] implies #[trigger] occurs_in(
        listed,
        i,
    ) by {
        assert(marked(pass)(i));
        assert(occurs_in(chosen, i));
        let c = choose|c: int| 0 <= c < chosen.len() && #[trigger] chosen[c] == i;
        assert(occurs_in(order, c));
        let k = choose|k: int| 0 <= k < order.len() && #[trigger] order[k] == c;
        assert(listed[k] == i);
    }
}

/// For each item, whether it is marked.
pub open spec fn marks_of(items: Seq<(bool, u64)>) -> Seq<bool> {
    Seq::new(items.len(), |i: int| items[i].0)
}

/// For each item, its key.
pub open spec fn all_keys_of(items: Seq<(bool, u64)>) -> Seq<u64> {
    Seq::new(items.len(), |i: int| items[i].1)
}

/// Lists the items that are marked in the order of their keys. Each item
/// is a mark and a key. Marked items of equal key stay in the order in which
/// they stand.
pub fn select_in_order(items: &Vec<(bool, u64)>) -> (listed: Vec<usize>)
    ensures
        listed@ == spec_select_in_order(marks_of(items@), all_keys_of(items@)),
        is_selection_in_order(marks_of(items@), all_keys_of(items@), listed@),
{
    let ghost pass = marks_of(items@);
    let ghost keys = all_keys_of(items@);
    let mut chosen: Vec<usize> = Vec::new();
    let mut chosen_keys: Vec<u64> = Vec::new();
    let mut i: usize = 0;
    while i < items.len()
        invariant
            i <= items@.len(),
            pass == marks_of(items@),
            keys == all_keys_of(items@),
            chosen@ == indices_where(marked(pass), i as nat),
            chosen_keys@ == keys_of(keys, chosen@),
        decreases items.len() - i,
    {
        proof {
            lemma_indices_where(marked(pass), i as nat);
        }
        if items[i].0 {
            let ghost before = chosen@;
            chosen.push(i);
            chosen_keys.push(items[i].1);
            proof {
                assert(chosen_keys@ =~= keys_of(keys, chosen@));
            }
        }
        i += 1;
    }
    let order = stable_order_by_key(&chosen_keys);
    proof {
        lemma_indices_where(marked(pass), pass.len());
        lemma_select_in_order(pass, keys);
    }
    let mut listed: Vec<usize> = Vec::new();
    let mut k: usize = 0;
    while k < order.len()
        invariant
            k <= order@.len(),
            order@.len() == chosen@.len(),
            forall|a: int| 0 <= a < order@.len() ==> (#[trigger] order@[a]) < chosen@.len(),
            listed@.len() == k,
            forall|a: int| 0 <= a < k ==> listed@[a] == chosen@[order@[a] as int],
        decreases order.len() - k,
    {
        listed.push(chosen[order[k]]);
        k += 1;
    }
    proof {
        assert(listed@ =~= spec_select_in_order(pass, keys));
    }
    listed
}

} // verus!
