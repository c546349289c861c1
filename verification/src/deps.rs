//! Ordered dependency maps and the override/merge algebra.
//!
//! A dependency map is an `indexmap::IndexMap` from a package name to its
//! constraint, both kept as strings.  Its mathematical model is the ordered
//! sequence of its entries, [`dep_entries`].  The merge rule that the whole
//! library rests on is *overwrite-preserving-first-position*: inserting a
//! key that already exists replaces its value in place, inserting a new key
//! appends it at the end.  [`upsert`] states that rule for one entry and
//! [`merge_entries`] folds it over a whole layer.

use vstd::prelude::*;
use indexmap::IndexMap;
use std::collections::hash_map::RandomState;

verus! {

#[verifier::external_type_specification]
#[verifier::external_body]
#[verifier::reject_recursive_types(K)]
#[verifier::reject_recursive_types(V)]
#[verifier::reject_recursive_types(S)]
pub struct ExIndexMap<K, V, S>(IndexMap<K, V, S>);

/// One modelled entry: a package name and its constraint.
pub type DepEntry = (Seq<char>, Seq<char>);

/// The ordered entries a dependency map holds: for each entry the package
/// name and the constraint, in the map's iteration order.
pub uninterp spec fn dep_entries(m: IndexMap<String, String, RandomState>) -> Seq<DepEntry>;

/// The position of the first entry with key `k`, or `es.len()` if no entry
/// has that key.
pub open spec fn find_key<K, V>(es: Seq<(K, V)>, k: K) -> int
    decreases es.len(),
{
    if es.len() == 0 {
        0
    } else if es[0].0 == k {
        0
    } else {
        1 + find_key(es.drop_first(), k)
    }
}

/// Whether some entry has key `k`.
pub open spec fn has_key<K, V>(es: Seq<(K, V)>, k: K) -> bool {
    exists|i: int| 0 <= i < es.len() && es[i].0 == k
}

/// The constraint stored for key `k` (meaningful only when `has_key`).
pub open spec fn value_of<K, V>(es: Seq<(K, V)>, k: K) -> V {
    es[find_key(es, k)].1
}

/// No two entries share a key.
pub open spec fn unique_keys<K, V>(es: Seq<(K, V)>) -> bool {
    forall|i: int, j: int| 0 <= i < j < es.len() ==> es[i].0 != es[j].0
}

/// Overwrite-preserving-first-position insertion of one entry: an existing
/// key keeps its position and takes the new value, a new key is appended.
pub open spec fn upsert<K, V>(es: Seq<(K, V)>, k: K, v: V) -> Seq<(K, V)> {
    let i = find_key(es, k);
    if i < es.len() {
        es.update(i, (k, v))
    } else {
        es.push((k, v))
    }
}

/// Fold a whole layer into an accumulator, entry by entry, with
/// overwrite-preserving-first-position semantics.
pub open spec fn merge_entries<K, V>(acc: Seq<(K, V)>, layer: Seq<(K, V)>) -> Seq<(K, V)>
    decreases layer.len(),
{
    if layer.len() == 0 {
        acc
    } else {
        merge_entries(upsert(acc, layer[0].0, layer[0].1), layer.drop_first())
    }
}

/// Relies on `indexmap::IndexMap::new`: creates an empty map.
#[verifier::external_body]
pub(crate) fn dep_map_new() -> (m: IndexMap<String, String>)
    ensures
        dep_entries(m) == Seq::<DepEntry>::empty(),
{
    IndexMap::new()
}

/// Relies on `indexmap::IndexMap::len`: the number of entries.
#[verifier::external_body]
pub(crate) fn dep_map_len(m: &IndexMap<String, String>) -> (n: usize)
    ensures
        n == dep_entries(*m).len(),
{
    m.len()
}

/// Relies on `indexmap::IndexMap::get_index`: the key-value pair at a
/// position in the map's order, `None` past the end.
#[verifier::external_body]
pub(crate) fn dep_map_get_index<'a>(m: &'a IndexMap<String, String>, i: usize) -> (r: Option<(&'a String, &'a String)>)
    ensures
        r is Some <==> i < dep_entries(*m).len(),
        r matches Some(p) ==> p.0@ == dep_entries(*m)[i as int].0 && p.1@ == dep_entries(
            *m,
        )[i as int].1,
{
    m.get_index(i)
}

/// Relies on `indexmap::IndexMap::insert`: if an equivalent key already
/// exists it keeps its place in the order, its value is replaced and the
/// old value returned; a new key is appended last and `None` returned.
#[verifier::external_body]
pub(crate) fn dep_map_insert(m: &mut IndexMap<String, String>, k: String, v: String) -> (prev: Option<String>)
    ensures
        dep_entries(*final(m)) == upsert(dep_entries(*old(m)), k@, v@),
        ({
            let es = dep_entries(*old(m));
            let i = find_key(es, k@);
            if i < es.len() {
                prev matches Some(p) && p@ == es[i].1
            } else {
                prev is None
            }
        }),
{
    m.insert(k, v)
}

/// `find_key` stays in range, points at `k` when in range, no earlier entry
/// has key `k`, and it is in range exactly when `k` occurs at all.
pub proof fn lemma_find_key<K, V>(es: Seq<(K, V)>, k: K)
    ensures
        0 <= find_key(es, k) <= es.len(),
        find_key(es, k) < es.len() ==> es[find_key(es, k)].0 == k,
        forall|i: int| 0 <= i < find_key(es, k) ==> es[i].0 != k,
        (find_key(es, k) < es.len()) <==> has_key(es, k),
    decreases es.len(),
{
    if es.len() == 0 {
    } else if es[0].0 == k {
    } else {
        let rest = es.drop_first();
        lemma_find_key(rest, k);
        assert forall|i: int| 0 <= i < find_key(es, k) implies es[i].0 != k by {
            if i > 0 {
                assert(es[i] == rest[i - 1]);
            }
        }
        if has_key(es, k) {
            let w = choose|i: int| 0 <= i < es.len() && es[i].0 == k;
            assert(rest[w - 1].0 == k);
            assert(has_key(rest, k));
        }
        if has_key(rest, k) {
            let w = choose|i: int| 0 <= i < rest.len() && rest[i].0 == k;
            assert(es[w + 1].0 == k);
        }
    }
}

/// With unique keys, `find_key` finds exactly the position a key stands at.
pub proof fn lemma_find_key_at<K, V>(es: Seq<(K, V)>, k: K, i: int)
    requires
        unique_keys(es),
        0 <= i < es.len(),
        es[i].0 == k,
    ensures
        find_key(es, k) == i,
{
    lemma_find_key(es, k);
    assert(has_key(es, k));
}

/// A position whose key is `k`, with no earlier occurrence of `k`, is the
/// position `find_key` names.
pub proof fn lemma_find_key_first<K, V>(es: Seq<(K, V)>, k: K, i: int)
    requires
        0 <= i < es.len(),
        es[i].0 == k,
        forall|j: int| 0 <= j < i ==> es[j].0 != k,
    ensures
        find_key(es, k) == i,
{
    lemma_find_key(es, k);
    assert(has_key(es, k));
}

/// A key occurs in a non-empty sequence exactly when it is the head's key
/// or occurs in the tail.
pub proof fn lemma_has_key_cons<K, V>(es: Seq<(K, V)>, q: K)
    requires
        es.len() > 0,
    ensures
        has_key(es, q) <==> (es[0].0 == q || has_key(es.drop_first(), q)),
{
    let rest = es.drop_first();
    if has_key(es, q) && es[0].0 != q {
        let w = choose|i: int| 0 <= i < es.len() && es[i].0 == q;
        assert(rest[w - 1].0 == q);
    }
    if has_key(rest, q) {
        let w = choose|i: int| 0 <= i < rest.len() && rest[i].0 == q;
        assert(es[w + 1].0 == q);
    }
}

/// Dropping a head with a different key does not change a key's value.
pub proof fn lemma_value_of_cons<K, V>(es: Seq<(K, V)>, q: K)
    requires
        es.len() > 0,
        es[0].0 != q,
        has_key(es.drop_first(), q),
    ensures
        value_of(es, q) == value_of(es.drop_first(), q),
{
    let rest = es.drop_first();
    lemma_find_key(rest, q);
    assert(es[find_key(es, q)] == rest[find_key(rest, q)]);
}

/// `upsert` keeps keys unique, changes the length only for a new key, and
/// afterwards a key occurs exactly when it occurred before or is the one
/// inserted.
pub proof fn lemma_upsert<K, V>(es: Seq<(K, V)>, k: K, v: V)
    requires
        unique_keys(es),
    ensures
        unique_keys(upsert(es, k, v)),
        upsert(es, k, v).len() == if has_key(es, k) {
            es.len()
        } else {
            es.len() + 1
        },
        forall|q: K| has_key(upsert(es, k, v), q) <==> (has_key(es, q) || q == k),
{
    lemma_find_key(es, k);
    let up = upsert(es, k, v);
    assert forall|q: K| has_key(up, q) <==> (has_key(es, q) || q == k) by {
        if has_key(up, q) {
            let w = choose|i: int| 0 <= i < up.len() && up[i].0 == q;
            if w < es.len() && up[w] == es[w] {
                assert(has_key(es, q));
            }
        }
        if has_key(es, q) {
            let w = choose|i: int| 0 <= i < es.len() && es[i].0 == q;
            if q == k {
                assert(up[find_key(es, k)].0 == k);
            } else {
                assert(up[w].0 == q);
            }
        }
        if q == k {
            if find_key(es, k) < es.len() {
                assert(up[find_key(es, k)].0 == k);
            } else {
                assert(up[es.len() as int].0 == k);
            }
        }
    }
}

/// Merging keeps the accumulator's keys unique, and a key occurs in the
/// merged sequence exactly when it occurs in the accumulator or the layer.
pub proof fn lemma_merge_keys<K, V>(acc: Seq<(K, V)>, layer: Seq<(K, V)>)
    requires
        unique_keys(acc),
    ensures
        unique_keys(merge_entries(acc, layer)),
        forall|q: K|
            has_key(merge_entries(acc, layer), q) <==> (has_key(acc, q) || has_key(layer, q)),
    decreases layer.len(),
{
    if layer.len() == 0 {
    } else {
        let k0 = layer[0].0;
        let v0 = layer[0].1;
        let acc1 = upsert(acc, k0, v0);
        lemma_upsert(acc, k0, v0);
        lemma_merge_keys(acc1, layer.drop_first());
        assert forall|q: K|
            has_key(merge_entries(acc, layer), q) <==> (has_key(acc, q) || has_key(
                layer,
                q,
            )) by {
            lemma_has_key_cons(layer, q);
        }
    }
}

/// The positions and keys of the accumulator survive a merge unchanged;
/// each surviving entry carries the layer's value if the layer knows the
/// key, and the accumulator's value otherwise.
pub proof fn lemma_merge_positions<K, V>(acc: Seq<(K, V)>, layer: Seq<(K, V)>)
    requires
        unique_keys(acc),
        unique_keys(layer),
    ensures
        acc.len() <= merge_entries(acc, layer).len(),
        forall|i: int|
            0 <= i < acc.len() ==> #[trigger] merge_entries(acc, layer)[i].0 == acc[i].0,
        forall|i: int|
            0 <= i < acc.len() ==> #[trigger] merge_entries(acc, layer)[i].1 == (if has_key(
                layer,
                acc[i].0,
            ) {
                value_of(layer, acc[i].0)
            } else {
                acc[i].1
            }),
    decreases layer.len(),
{
    let merged = merge_entries(acc, layer);
    if layer.len() == 0 {
    } else {
        let k0 = layer[0].0;
        let v0 = layer[0].1;
        let rest = layer.drop_first();
        let acc1 = upsert(acc, k0, v0);
        lemma_find_key(acc, k0);
        lemma_upsert(acc, k0, v0);
        lemma_merge_positions(acc1, rest);
        assert(merged == merge_entries(acc1, rest));
        assert(!has_key(rest, k0)) by {
            if has_key(rest, k0) {
                let w = choose|i: int| 0 <= i < rest.len() && rest[i].0 == k0;
                assert(layer[w + 1].0 == k0);
            }
        }
        assert forall|i: int|
            0 <= i < acc.len() implies #[trigger] merge_entries(acc, layer)[i].0 == acc[i].0 by {
            assert(merge_entries(acc, layer)[i] == merged[i]);
            assert(acc1[i].0 == acc[i].0);
        }
        assert forall|i: int|
            0 <= i < acc.len() implies #[trigger] merge_entries(acc, layer)[i].1 == (if has_key(
            layer,
            acc[i].0,
        ) {
            value_of(layer, acc[i].0)
        } else {
            acc[i].1
        }) by {
            assert(merge_entries(acc, layer)[i] == merged[i]);
            assert(acc1[i].0 == acc[i].0);
            lemma_has_key_cons(layer, acc[i].0);
            if acc[i].0 == k0 {
                lemma_find_key_at(acc, k0, i);
                assert(acc1[i].1 == v0);
                assert(!has_key(rest, acc1[i].0));
                assert(merged[i].1 == acc1[i].1);
                lemma_find_key_at(layer, k0, 0);
                assert(value_of(layer, k0) == v0);
            } else {
                assert(acc1[i].1 == acc[i].1);
                assert(merged[i].1 == (if has_key(rest, acc1[i].0) {
                    value_of(rest, acc1[i].0)
                } else {
                    acc1[i].1
                }));
                if has_key(rest, acc[i].0) {
                    lemma_value_of_cons(layer, acc[i].0);
                }
            }
        }
    }
}

/// A layer whose keys are all new is appended behind the accumulator as it
/// stands, in its own order.
pub proof fn lemma_merge_disjoint<K, V>(acc: Seq<(K, V)>, layer: Seq<(K, V)>)
    requires
        unique_keys(layer),
        forall|i: int| 0 <= i < layer.len() ==> !has_key(acc, #[trigger] layer[i].0),
    ensures
        merge_entries(acc, layer) == acc + layer,
    decreases layer.len(),
{
    if layer.len() == 0 {
        assert(acc + layer =~= acc);
    } else {
        let k0 = layer[0].0;
        let v0 = layer[0].1;
        let rest = layer.drop_first();
        lemma_find_key(acc, k0);
        let acc1 = acc.push(layer[0]);
        assert(upsert(acc, k0, v0) =~= acc1);
        assert forall|i: int| 0 <= i < rest.len() implies !has_key(acc1, #[trigger] rest[i].0) by {
            assert(rest[i] == layer[i + 1]);
            if has_key(acc1, rest[i].0) {
                let w = choose|j: int| 0 <= j < acc1.len() && acc1[j].0 == rest[i].0;
                if w < acc.len() {
                    assert(has_key(acc, layer[i + 1].0));
                } else {
                    assert(layer[0].0 == layer[i + 1].0);
                }
            }
        }
        lemma_merge_disjoint(acc1, rest);
        assert(acc1 + rest =~= acc + layer);
    }
}

/// When a key occurs in the first part of a concatenation, `find_key`
/// finds it there.
pub proof fn lemma_find_key_append_left<K, V>(a: Seq<(K, V)>, b: Seq<(K, V)>, k: K)
    requires
        has_key(a, k),
    ensures
        has_key(a + b, k),
        find_key(a + b, k) == find_key(a, k),
        value_of(a + b, k) == value_of(a, k),
    decreases a.len(),
{
    lemma_find_key(a, k);
    if a[0].0 == k {
        assert((a + b)[0] == a[0]);
    } else {
        lemma_has_key_cons(a, k);
        assert((a + b).drop_first() =~= a.drop_first() + b);
        lemma_find_key_append_left(a.drop_first(), b, k);
        lemma_find_key(a + b, k);
        assert((a + b)[find_key(a + b, k)] == a[find_key(a, k)]);
    }
}

/// A key the layer does not know keeps the accumulator's value.
pub proof fn lemma_merge_value_acc<K, V>(acc: Seq<(K, V)>, layer: Seq<(K, V)>, k: K)
    requires
        unique_keys(acc),
        unique_keys(layer),
        has_key(acc, k),
        !has_key(layer, k),
    ensures
        has_key(merge_entries(acc, layer), k),
        value_of(merge_entries(acc, layer), k) == value_of(acc, k),
{
    lemma_merge_keys(acc, layer);
    lemma_merge_positions(acc, layer);
    lemma_find_key(acc, k);
    let i = find_key(acc, k);
    assert(merge_entries(acc, layer)[i].0 == k);
    lemma_find_key_at(merge_entries(acc, layer), k, i);
}

/// A key the layer knows takes the layer's value in the merge.
pub proof fn lemma_merge_value_layer<K, V>(acc: Seq<(K, V)>, layer: Seq<(K, V)>, k: K)
    requires
        unique_keys(acc),
        unique_keys(layer),
        has_key(layer, k),
    ensures
        has_key(merge_entries(acc, layer), k),
        value_of(merge_entries(acc, layer), k) == value_of(layer, k),
    decreases layer.len(),
{
    lemma_find_key(layer, k);
    let k0 = layer[0].0;
    let v0 = layer[0].1;
    let rest = layer.drop_first();
    let acc1 = upsert(acc, k0, v0);
    lemma_find_key(acc, k0);
    lemma_upsert(acc, k0, v0);
    assert(unique_keys(rest)) by {
        assert forall|i: int, j: int| 0 <= i < j < rest.len() implies rest[i].0 != rest[j].0 by {
            assert(rest[i] == layer[i + 1]);
            assert(rest[j] == layer[j + 1]);
        }
    }
    lemma_has_key_cons(layer, k);
    if k == k0 {
        assert(!has_key(rest, k0)) by {
            if has_key(rest, k0) {
                let w = choose|i: int| 0 <= i < rest.len() && rest[i].0 == k0;
                assert(layer[w + 1].0 == k0);
            }
        }
        let fk = find_key(acc, k0);
        if fk < acc.len() {
            lemma_find_key_at(acc1, k0, fk);
        } else {
            lemma_find_key_at(acc1, k0, acc.len() as int);
        }
        assert(value_of(acc1, k0) == v0);
        assert(has_key(acc1, k0));
        lemma_merge_value_acc(acc1, rest, k0);
        lemma_find_key_at(layer, k0, 0);
    } else {
        assert(has_key(rest, k));
        lemma_merge_value_layer(acc1, rest, k);
        lemma_value_of_cons(layer, k);
    }
}

/// Merging a uniquely-keyed layer into an empty accumulator reproduces the
/// layer exactly.
pub proof fn lemma_merge_empty<K, V>(layer: Seq<(K, V)>)
    requires
        unique_keys(layer),
    ensures
        merge_entries(Seq::<(K, V)>::empty(), layer) == layer,
{
    lemma_merge_disjoint(Seq::<(K, V)>::empty(), layer);
    assert(Seq::<(K, V)>::empty() + layer =~= layer);
}

/// Merging distributes over splitting the layer at any point.
pub proof fn lemma_merge_append<K, V>(acc: Seq<(K, V)>, l1: Seq<(K, V)>, l2: Seq<(K, V)>)
    ensures
        merge_entries(acc, l1 + l2) == merge_entries(merge_entries(acc, l1), l2),
    decreases l1.len(),
{
    if l1.len() == 0 {
        assert(l1 + l2 =~= l2);
    } else {
        let acc1 = upsert(acc, l1[0].0, l1[0].1);
        assert((l1 + l2)[0] == l1[0]);
        assert((l1 + l2).drop_first() =~= l1.drop_first() + l2);
        lemma_merge_append(acc1, l1.drop_first(), l2);
    }
}

/// Fold one layer into an accumulator map, entry by entry, with
/// overwrite-preserving-first-position semantics.
pub fn merge_into(acc: &mut IndexMap<String, String>, layer: &IndexMap<String, String>)
    ensures
        dep_entries(*final(acc)) == merge_entries(dep_entries(*old(acc)), dep_entries(*layer)),
{
    let ghost base = dep_entries(*old(acc));
    let ghost les = dep_entries(*layer);
    let n = dep_map_len(layer);
    let mut idx: usize = 0;
    while idx < n
        invariant
            n == les.len(),
            les == dep_entries(*layer),
            idx <= n,
            dep_entries(*acc) == merge_entries(base, les.take(idx as int)),
        decreases n - idx,
    {
        let pair = dep_map_get_index(layer, idx);
        match pair {
            Some((k, v)) => {
                let _prev = dep_map_insert(acc, k.clone(), v.clone());
                proof {
                    let e = les[idx as int];
                    let m0 = merge_entries(base, les.take(idx as int));
                    assert(les.take(idx as int + 1) =~= les.take(idx as int) + seq![e]);
                    lemma_merge_append(base, les.take(idx as int), seq![e]);
                    assert(seq![e].drop_first() =~= Seq::<DepEntry>::empty());
                    assert(merge_entries(upsert(m0, e.0, e.1), Seq::<DepEntry>::empty())
                        == upsert(m0, e.0, e.1));
                    assert(merge_entries(m0, seq![e]) == upsert(m0, e.0, e.1));
                    assert(dep_entries(*acc) == upsert(m0, e.0, e.1));
                }
            },
            None => {
                proof {
                    assert(false);
                }
            },
        }
        idx = idx + 1;
    }
    proof {
        assert(les.take(n as int) =~= les);
    }
}


} // verus!
