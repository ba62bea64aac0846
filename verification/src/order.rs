//! Stable ordering by composite keys.
//!
//! Every list the library orders (documents by date, name or size, search
//! hits by score, directory entries by class and name) is ordered the same
//! way: each entry gets a key, a sequence of integers compared
//! lexicographically, smaller keys come first, and entries with equal keys
//! keep the order in which they stood. An entry without a key is left out.

use vstd::prelude::*;

verus! {

/// `a` and `b` agree on their first `k` places and at place `k` the key `a`
/// has ended while `b` goes on, or holds the smaller number.
pub open spec fn below_at(a: Seq<i128>, b: Seq<i128>, k: int) -> bool {
    &&& 0 <= k <= a.len()
    &&& k < b.len()
    &&& a.take(k) == b.take(k)
    &&& k < a.len() ==> a[k] < b[k]
}

/// Lexicographic order on keys: `a` comes strictly before `b`.
pub open spec fn key_less(a: Seq<i128>, b: Seq<i128>) -> bool {
    exists|k: int| below_at(a, b, k)
}

/// How two keys compare.
#[derive(PartialEq, Eq, Structural, Clone, Copy, Debug)]
pub enum KeyOrder {
    Before,
    Same,
    After,
}

/// No key comes before itself, and of two keys at most one comes before the
/// other.
pub proof fn key_less_asymmetric(a: Seq<i128>, b: Seq<i128>)
    ensures
        !(key_less(a, b) && key_less(b, a)),
        a == b ==> !key_less(a, b),
{
    if key_less(a, b) && key_less(b, a) {
        let k1 = choose|k: int| below_at(a, b, k);
        let k2 = choose|k: int| below_at(b, a, k);
        if k1 < k2 {
            assert(b.take(k2)[k1] == a.take(k2)[k1]);
        } else if k2 < k1 {
            assert(a.take(k1)[k2] == b.take(k1)[k2]);
        }
    }
    if a == b && key_less(a, b) {
        let k = choose|k: int| below_at(a, b, k);
    }
}

/// The order on keys is transitive.
pub proof fn key_less_transitive(a: Seq<i128>, b: Seq<i128>, c: Seq<i128>)
    requires
        key_less(a, b),
        key_less(b, c),
    ensures
        key_less(a, c),
{
    let k1 = choose|k: int| below_at(a, b, k);
    let k2 = choose|k: int| below_at(b, c, k);
    if k1 <= k2 {
        assert(a.take(k1) =~= c.take(k1)) by {
            assert forall|i: int| 0 <= i < k1 implies a[i] == c[i] by {
                assert(a.take(k1)[i] == b.take(k1)[i]);
                assert(b.take(k2)[i] == c.take(k2)[i]);
            }
        }
        if k1 < k2 {
            assert(b.take(k2)[k1] == c.take(k2)[k1]);
        }
        assert(below_at(a, c, k1));
    } else {
        assert(a.take(k2) =~= c.take(k2)) by {
            assert forall|i: int| 0 <= i < k2 implies a[i] == c[i] by {
                assert(a.take(k1)[i] == b.take(k1)[i]);
                assert(b.take(k2)[i] == c.take(k2)[i]);
            }
        }
        assert(a.take(k1)[k2] == b.take(k1)[k2]);
        assert(below_at(a, c, k2));
    }
}

/// Compares two keys lexicographically.
pub fn compare_keys(a: &Vec<i128>, b: &Vec<i128>) -> (r: KeyOrder)
    ensures
        r == KeyOrder::Before <==> key_less(a@, b@),
        r == KeyOrder::Same <==> a@ == b@,
        r == KeyOrder::After <==> key_less(b@, a@),
{
    let mut k: usize = 0;
    while k < a.len() && k < b.len()
        invariant
            k <= a.len(),
            k <= b.len(),
            a@.take(k as int) == b@.take(k as int),
        decreases a.len() - k,
    {
        if a[k] < b[k] {
            proof {
                assert(below_at(a@, b@, k as int));
                key_less_asymmetric(a@, b@);
            }
            return KeyOrder::Before;
        }
        if b[k] < a[k] {
            proof {
                assert(below_at(b@, a@, k as int));
                key_less_asymmetric(b@, a@);
            }
            return KeyOrder::After;
        }
        k = k + 1;
    }
    proof {
        key_less_asymmetric(a@, b@);
        key_less_asymmetric(b@, a@);
    }
    if k < b.len() {
        assert(below_at(a@, b@, k as int));
        KeyOrder::Before
    } else if k < a.len() {
        assert(below_at(b@, a@, k as int));
        KeyOrder::After
    } else {
        assert(a@ == a@.take(k as int));
        assert(b@ == b@.take(k as int));
        KeyOrder::Same
    }
}

/// Entry `i` is placed before entry `j`: its key is smaller, or the keys are
/// equal and `i` came first.
pub open spec fn precedes(keys: Seq<Option<Seq<i128>>>, i: int, j: int) -> bool {
    key_less(keys[i]->0, keys[j]->0) || (keys[i]->0 == keys[j]->0 && i < j)
}

/// `order` lists the positions of exactly the entries that have a key, each
/// once, smaller keys first and equal keys in the order in which they stood.
pub open spec fn is_ranking(order: Seq<int>, keys: Seq<Option<Seq<i128>>>) -> bool {
    &&& forall|a: int|
        0 <= a < order.len() ==> 0 <= #[trigger] order[a] < keys.len() && keys[order[a]] is Some
    &&& forall|i: int| 0 <= i < keys.len() && #[trigger] keys[i] is Some ==> order.contains(i)
    &&& forall|a: int, b: int|
        0 <= a < b < order.len() ==> precedes(keys, #[trigger] order[a], #[trigger] order[b])
}

/// The ranking of `keys`; there is exactly one (see [`ranking_is_unique`]).
pub open spec fn ranking(keys: Seq<Option<Seq<i128>>>) -> Seq<int> {
    choose|order: Seq<int>| is_ranking(order, keys)
}

/// `source` rearranged by the ranking of `keys`.
pub open spec fn ranked<T>(source: Seq<T>, keys: Seq<Option<Seq<i128>>>) -> Seq<T> {
    ranking(keys).map_values(|i: int| source[i])
}

/// Placement is transitive.
pub proof fn precedes_transitive(keys: Seq<Option<Seq<i128>>>, i: int, j: int, k: int)
    requires
        precedes(keys, i, j),
        precedes(keys, j, k),
    ensures
        precedes(keys, i, k),
{
    let a = keys[i]->0;
    let b = keys[j]->0;
    let c = keys[k]->0;
    if key_less(a, b) && key_less(b, c) {
        key_less_transitive(a, b, c);
    }
}

/// Of two entries at most one is placed before the other, and none before
/// itself.
pub proof fn precedes_asymmetric(keys: Seq<Option<Seq<i128>>>, i: int, j: int)
    ensures
        !(precedes(keys, i, j) && precedes(keys, j, i)),
{
    key_less_asymmetric(keys[i]->0, keys[j]->0);
    key_less_asymmetric(keys[j]->0, keys[i]->0);
}

/// Two orderings that place the same entries by the same rule are equal.
proof fn sorted_with_same_entries_equal(o1: Seq<int>, o2: Seq<int>, keys: Seq<Option<Seq<i128>>>)
    requires
        forall|a: int, b: int|
            0 <= a < b < o1.len() ==> precedes(keys, #[trigger] o1[a], #[trigger] o1[b]),
        forall|a: int, b: int|
            0 <= a < b < o2.len() ==> precedes(keys, #[trigger] o2[a], #[trigger] o2[b]),
        forall|x: int| o1.contains(x) <==> o2.contains(x),
    ensures
        o1 == o2,
    decreases o1.len(),
{
    if o1.len() == 0 {
        if o2.len() > 0 {
            assert(o2.contains(o2[0]));
        }
        assert(o1 =~= o2);
    } else {
        assert(o1.contains(o1[0]));
        let p = choose|p: int| 0 <= p < o2.len() && o2[p] == o1[0];
        if p > 0 {
            assert(o2.contains(o2[0]));
            let q = choose|q: int| 0 <= q < o1.len() && o1[q] == o2[0];
            precedes_asymmetric(keys, o1[0], o2[0]);
            assert(precedes(keys, o2[0], o2[p]));
            if q > 0 {
                assert(precedes(keys, o1[0], o1[q]));
            }
        }
        let t1 = o1.drop_first();
        let t2 = o2.drop_first();
        assert forall|x: int| t1.contains(x) <==> t2.contains(x) by {
            if t1.contains(x) {
                let a = choose|a: int| 0 <= a < t1.len() && t1[a] == x;
                assert(o1[a + 1] == x);
                assert(precedes(keys, o1[0], o1[a + 1]));
                precedes_asymmetric(keys, o1[0], x);
                assert(o1.contains(x));
                let b = choose|b: int| 0 <= b < o2.len() && o2[b] == x;
                assert(b > 0);
                assert(t2[b - 1] == x);
            }
            if t2.contains(x) {
                let a = choose|a: int| 0 <= a < t2.len() && t2[a] == x;
                assert(o2[a + 1] == x);
                assert(precedes(keys, o2[0], o2[a + 1]));
                precedes_asymmetric(keys, o2[0], x);
                assert(o2.contains(x));
                let b = choose|b: int| 0 <= b < o1.len() && o1[b] == x;
                assert(b > 0);
                assert(t1[b - 1] == x);
            }
        }
        assert forall|a: int, b: int| 0 <= a < b < t1.len() implies precedes(
            keys,
            #[trigger] t1[a],
            #[trigger] t1[b],
        ) by {
            assert(precedes(keys, o1[a + 1], o1[b + 1]));
        }
        assert forall|a: int, b: int| 0 <= a < b < t2.len() implies precedes(
            keys,
            #[trigger] t2[a],
            #[trigger] t2[b],
        ) by {
            assert(precedes(keys, o2[a + 1], o2[b + 1]));
        }
        sorted_with_same_entries_equal(t1, t2, keys);
        assert(o1 =~= seq![o1[0]] + t1);
        assert(o2 =~= seq![o2[0]] + t2);
    }
}

/// A list of keys has at most one ranking.
pub proof fn ranking_is_unique(o1: Seq<int>, o2: Seq<int>, keys: Seq<Option<Seq<i128>>>)
    requires
        is_ranking(o1, keys),
        is_ranking(o2, keys),
    ensures
        o1 == o2,
{
    assert forall|x: int| o1.contains(x) <==> o2.contains(x) by {
        if o1.contains(x) {
            let a = choose|a: int| 0 <= a < o1.len() && o1[a] == x;
            assert(keys[o1[a]] is Some);
        }
        if o2.contains(x) {
            let a = choose|a: int| 0 <= a < o2.len() && o2[a] == x;
            assert(keys[o2[a]] is Some);
        }
    }
    sorted_with_same_entries_equal(o1, o2, keys);
}

/// In a ranking no position occurs twice.
pub proof fn ranking_has_no_duplicates(order: Seq<int>, keys: Seq<Option<Seq<i128>>>)
    requires
        is_ranking(order, keys),
    ensures
        order.no_duplicates(),
{
    assert forall|a: int, b: int| 0 <= a < order.len() && 0 <= b < order.len() && a != b implies order[a]
        != order[b] by {
        precedes_asymmetric(keys, order[a], order[a]);
        if a < b {
            assert(precedes(keys, order[a], order[b]));
        } else {
            assert(precedes(keys, order[b], order[a]));
        }
    }
}

/// Two keys that agree on their first `k` places are equal or one comes
/// before the other.
proof fn keys_comparable_from(a: Seq<i128>, b: Seq<i128>, k: int)
    requires
        0 <= k <= a.len(),
        k <= b.len(),
        a.take(k) == b.take(k),
    ensures
        key_less(a, b) || a == b || key_less(b, a),
    decreases a.len() - k,
{
    if k == a.len() {
        if k == b.len() {
            assert(a.take(k) == a);
            assert(b.take(k) == b);
        } else {
            assert(below_at(a, b, k));
        }
    } else if k == b.len() {
        assert(below_at(b, a, k));
    } else if a[k] < b[k] {
        assert(below_at(a, b, k));
    } else if b[k] < a[k] {
        assert(below_at(b, a, k));
    } else {
        assert(a.take(k + 1) =~= a.take(k).push(a[k]));
        assert(b.take(k + 1) =~= b.take(k).push(b[k]));
        keys_comparable_from(a, b, k + 1);
    }
}

/// Any two keys are equal or one comes before the other.
pub proof fn key_order_total(a: Seq<i128>, b: Seq<i128>)
    ensures
        key_less(a, b) || a == b || key_less(b, a),
{
    assert(a.take(0) =~= b.take(0));
    keys_comparable_from(a, b, 0);
}

/// How many entries at the end of `order` have a key after `key`.
spec fn later_entries(order: Seq<int>, keys: Seq<Option<Seq<i128>>>, key: Seq<i128>) -> nat
    decreases order.len(),
{
    if order.len() > 0 && key_less(key, keys[order.last()]->0) {
        1 + later_entries(order.drop_last(), keys, key)
    } else {
        0
    }
}

proof fn later_entries_are_later(order: Seq<int>, keys: Seq<Option<Seq<i128>>>, key: Seq<i128>)
    ensures
        later_entries(order, keys, key) <= order.len(),
        forall|q: int|
            order.len() - later_entries(order, keys, key) <= q < order.len() ==> key_less(
                key,
                keys[#[trigger] order[q]]->0,
            ),
        later_entries(order, keys, key) < order.len() ==> !key_less(
            key,
            keys[order[order.len() - later_entries(order, keys, key) - 1]]->0,
        ),
    decreases order.len(),
{
    if order.len() > 0 && key_less(key, keys[order.last()]->0) {
        later_entries_are_later(order.drop_last(), keys, key);
        let rest = order.drop_last();
        assert forall|q: int|
            order.len() - later_entries(order, keys, key) <= q < order.len() implies key_less(
            key,
            keys[#[trigger] order[q]]->0,
        ) by {
            if q < order.len() - 1 {
                assert(rest[q] == order[q]);
            }
        }
        if later_entries(order, keys, key) < order.len() {
            assert(rest[rest.len() - later_entries(rest, keys, key) - 1] == order[order.len()
                - later_entries(order, keys, key) - 1]);
        }
    }
}

/// Every list of keys has a ranking.
pub proof fn ranking_exists(keys: Seq<Option<Seq<i128>>>)
    ensures
        is_ranking(ranking(keys), keys),
    decreases keys.len(),
{
    if keys.len() == 0 {
        assert(is_ranking(Seq::<int>::empty(), keys));
    } else {
        let seen = keys.drop_last();
        ranking_exists(seen);
        let before = ranking(seen);
        let i = keys.len() - 1;
        if keys.last() is None {
            assert forall|x: int| 0 <= x < keys.len() && #[trigger] keys[x] is Some implies before.contains(
                x,
            ) by {
                assert(seen[x] is Some);
            }
            assert forall|a: int, b: int| 0 <= a < b < before.len() implies precedes(
                keys,
                #[trigger] before[a],
                #[trigger] before[b],
            ) by {
                assert(precedes(seen, before[a], before[b]));
            }
            assert(is_ranking(before, keys));
        } else {
            let key = keys.last()->0;
            later_entries_are_later(before, keys, key);
            let p = before.len() - later_entries(before, keys, key);
            let after = before.insert(p, i);
            assert forall|a: int| 0 <= a < after.len() implies 0 <= #[trigger] after[a] < keys.len()
                && keys[after[a]] is Some by {
                if a < p {
                    assert(after[a] == before[a]);
                    assert(seen[before[a]] is Some);
                } else if a > p {
                    assert(after[a] == before[a - 1]);
                    assert(seen[before[a - 1]] is Some);
                }
            }
            assert forall|x: int| 0 <= x < keys.len() && #[trigger] keys[x] is Some implies after.contains(
                x,
            ) by {
                if x < i {
                    assert(seen[x] is Some);
                    let a = choose|a: int| 0 <= a < before.len() && before[a] == x;
                    if a < p {
                        assert(after[a] == x);
                    } else {
                        assert(after[a + 1] == x);
                    }
                } else {
                    assert(after[p] == x);
                }
            }
            assert forall|a: int, b: int| 0 <= a < b < after.len() implies precedes(
                keys,
                #[trigger] after[a],
                #[trigger] after[b],
            ) by {
                let ia = if a < p { a } else { a - 1 };
                let ib = if b < p { b } else { b - 1 };
                if a != p && b != p {
                    assert(precedes(seen, before[ia], before[ib]));
                } else if b == p {
                    assert(seen[before[a]] is Some);
                    assert(seen[before[p - 1]] is Some);
                    key_order_total(key, keys[before[p - 1]]->0);
                    assert(precedes(keys, before[p - 1], i));
                    if a < p - 1 {
                        assert(precedes(seen, before[a], before[p - 1]));
                        precedes_transitive(keys, before[a], before[p - 1], i);
                    }
                } else {
                    assert(key_less(key, keys[before[b - 1]]->0));
                    assert(seen[before[b - 1]] is Some);
                }
            }
            assert(is_ranking(after, keys));
        }
    }
}

/// Keys of one number are ordered as their numbers are.
pub proof fn single_keys_compare_as_numbers(a: i128, b: i128)
    ensures
        key_less(seq![a], seq![b]) <==> a < b,
{
    if a < b {
        assert(seq![a].take(0) =~= seq![b].take(0));
        assert(below_at(seq![a], seq![b], 0));
    }
    if key_less(seq![a], seq![b]) {
        let k = choose|k: int| below_at(seq![a], seq![b], k);
        assert(k == 0);
    }
}

/// The ranking lists entries by ascending key: of two listed entries the
/// later one never has the smaller key, and where their keys are equal the
/// later one came later in the input.
pub proof fn ranking_ascends(keys: Seq<Option<Seq<i128>>>, a: int, b: int)
    requires
        0 <= a < b < ranking(keys).len(),
    ensures
        !key_less(keys[ranking(keys)[b]]->0, keys[ranking(keys)[a]]->0),
        keys[ranking(keys)[a]]->0 == keys[ranking(keys)[b]]->0 ==> ranking(keys)[a] < ranking(
            keys,
        )[b],
{
    ranking_exists(keys);
    let order = ranking(keys);
    assert(precedes(keys, order[a], order[b]));
    key_less_asymmetric(keys[order[a]]->0, keys[order[b]]->0);
    key_less_asymmetric(keys[order[b]]->0, keys[order[a]]->0);
}

/// The ranking lists exactly the entries that have a key, each once.
pub proof fn ranking_lists_the_keyed(keys: Seq<Option<Seq<i128>>>)
    ensures
        ranking(keys).no_duplicates(),
        forall|k: int|
            0 <= k < ranking(keys).len() ==> 0 <= #[trigger] ranking(keys)[k] < keys.len()
                && keys[ranking(keys)[k]] is Some,
        forall|i: int|
            0 <= i < keys.len() && #[trigger] keys[i] is Some ==> ranking(keys).contains(i),
{
    ranking_exists(keys);
    ranking_has_no_duplicates(ranking(keys), keys);
}

/// The keys of a list as sequences.
pub open spec fn key_views(keys: Seq<Option<Vec<i128>>>) -> Seq<Option<Seq<i128>>> {
    keys.map_values(
        |k: Option<Vec<i128>>|
            match k {
                Some(v) => Some(v@),
                None => None,
            },
    )
}

/// Positions as mathematical integers.
pub open spec fn positions(order: Seq<usize>) -> Seq<int> {
    order.map_values(|i: usize| i as int)
}

/// Computes the ranking of `keys`: the positions of the entries that have a
/// key, smallest key first, equal keys in input order.
pub fn stable_order(keys: &Vec<Option<Vec<i128>>>) -> (order: Vec<usize>)
    ensures
        is_ranking(positions(order@), key_views(keys@)),
        positions(order@) == ranking(key_views(keys@)),
{
    let ghost kv = key_views(keys@);
    let mut order: Vec<usize> = Vec::new();
    let mut i: usize = 0;
    while i < keys.len()
        invariant
            i <= keys.len(),
            kv == key_views(keys@),
            is_ranking(positions(order@), kv.take(i as int)),
        decreases keys.len() - i,
    {
        let ghost before = positions(order@);
        let ghost seen = kv.take(i as int);
        let ghost next = kv.take(i + 1);
        match &keys[i] {
            None => {
                proof {
                    assert forall|x: int|
                        0 <= x < next.len() && #[trigger] next[x] is Some implies before.contains(
                        x,
                    ) by {
                        assert(seen[x] is Some);
                    }
                    assert forall|a: int, b: int| 0 <= a < b < before.len() implies precedes(
                        next,
                        #[trigger] before[a],
                        #[trigger] before[b],
                    ) by {
                        assert(precedes(seen, before[a], before[b]));
                    }
                }
            },
            Some(key) => {
                let mut p: usize = order.len();
                while p > 0
                    invariant
                        p <= order.len(),
                        i < keys.len(),
                        keys@[i as int] == Some(*key),
                        kv == key_views(keys@),
                        before == positions(order@),
                        is_ranking(before, kv.take(i as int)),
                        forall|q: int|
                            p <= q < order.len() ==> key_less(key@, kv[#[trigger] before[q]]->0),
                    ensures
                        p > 0 ==> key@ == kv[before[p - 1]]->0 || key_less(
                            kv[before[p - 1]]->0,
                            key@,
                        ),
                    decreases p,
                {
                    let other = order[p - 1];
                    assert(before[p - 1] == other);
                    assert(kv.take(i as int)[other as int] is Some);
                    let r = match &keys[other] {
                        Some(k) => compare_keys(key, k),
                        None => KeyOrder::Same,
                    };
                    if r != KeyOrder::Before {
                        break ;
                    }
                    p = p - 1;
                }
                order.insert(p, i);
                proof {
                    let after = positions(order@);
                    assert(after =~= before.insert(p as int, i as int));
                    assert forall|a: int| 0 <= a < after.len() implies 0 <= #[trigger] after[a]
                        < next.len() && next[after[a]] is Some by {
                        if a < p {
                            assert(after[a] == before[a]);
                            assert(seen[before[a]] is Some);
                        } else if a > p {
                            assert(after[a] == before[a - 1]);
                            assert(seen[before[a - 1]] is Some);
                        }
                    }
                    assert forall|x: int|
                        0 <= x < next.len() && #[trigger] next[x] is Some implies after.contains(
                        x,
                    ) by {
                        if x < i {
                            assert(seen[x] is Some);
                            let a = choose|a: int| 0 <= a < before.len() && before[a] == x;
                            if a < p {
                                assert(after[a] == x);
                            } else {
                                assert(after[a + 1] == x);
                            }
                        } else {
                            assert(after[p as int] == x);
                        }
                    }
                    assert forall|a: int, b: int| 0 <= a < b < after.len() implies precedes(
                        next,
                        #[trigger] after[a],
                        #[trigger] after[b],
                    ) by {
                        let ia = if a < p { a } else { a - 1 };
                        let ib = if b < p { b } else { b - 1 };
                        if a != p && b != p {
                            assert(precedes(seen, before[ia], before[ib]));
                        } else if b == p {
                            // an earlier entry against the new one
                            assert(seen[before[a]] is Some);
                            assert(seen[before[p - 1]] is Some);
                            assert(precedes(next, before[p - 1], i as int));
                            if a < p - 1 {
                                assert(precedes(seen, before[a], before[p - 1]));
                                precedes_transitive(next, before[a], before[p - 1], i as int);
                            }
                        } else {
                            // the new entry against a later one
                            assert(key_less(key@, kv[before[b - 1]]->0));
                            assert(seen[before[b - 1]] is Some);
                        }
                    }
                }
            },
        }
        i = i + 1;
    }
    proof {
        assert(kv.take(keys.len() as int) == kv);
        ranking_is_unique(positions(order@), ranking(kv), kv);
    }
    order
}

} // verus!
