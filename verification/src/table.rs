//! Tables of records with keys: what it means that no key occurs twice, and
//! how records are added to a table without ever recording a key twice.

use vstd::prelude::*;

verus! {

/// The keys of the records of a table, in the table's order.
pub open spec fn keys<T, K>(rows: Seq<T>, key: spec_fn(T) -> K) -> Seq<K> {
    Seq::new(rows.len(), |i: int| key(rows[i]))
}

/// No key occurs twice.
pub open spec fn distinct<K>(keys: Seq<K>) -> bool {
    forall|i: int, j: int| 0 <= i < j < keys.len() ==> keys[i] != keys[j]
}

/// Every record that a filter leaves was in the table and passes the filter,
/// and the records left have distinct keys if the table had.
pub proof fn lemma_filter_keeps_distinct<T, K>(
    rows: Seq<T>,
    keep: spec_fn(T) -> bool,
    key: spec_fn(T) -> K,
)
    requires
        distinct(keys(rows, key)),
    ensures
        distinct(keys(rows.filter(keep), key)),
        forall|i: int|
            0 <= i < rows.filter(keep).len() ==> keep(#[trigger] rows.filter(keep)[i])
                && rows.contains(rows.filter(keep)[i]),
    decreases rows.len(),
{
    reveal(Seq::filter);
    if rows.len() > 0 {
        let head = rows.drop_last();
        let last = rows.last();
        assert forall|i: int, j: int| 0 <= i < j < head.len() implies keys(head, key)[i] != keys(
            head,
            key,
        )[j] by {
            assert(keys(rows, key)[i] != keys(rows, key)[j]);
        }
        lemma_filter_keeps_distinct(head, keep, key);
        let left = head.filter(keep);
        assert forall|i: int| 0 <= i < left.len() implies rows.contains(#[trigger] left[i]) && key(
            left[i],
        ) != key(last) by {
            assert(head.contains(left[i]));
            let j = choose|j: int| 0 <= j < head.len() && head[j] == left[i];
            assert(rows[j] == left[i]);
            assert(keys(rows, key)[j] != keys(rows, key)[rows.len() - 1]);
        }
        if keep(last) {
            assert(rows[rows.len() - 1] == last);
            let all = rows.filter(keep);
            assert(all =~= left.push(last));
            assert forall|i: int, j: int| 0 <= i < j < all.len() implies keys(all, key)[i] != keys(
                all,
                key,
            )[j] by {
                if j < left.len() {
                    assert(keys(left, key)[i] != keys(left, key)[j]);
                }
            }
        }
    }
}

/// The places of the records that are kept: the first record of each key.
pub open spec fn kept_places<K>(keys: Seq<K>) -> Seq<int> {
    new_positions(Seq::<K>::empty(), keys)
}

/// The incoming key at place `k` is new: the table does not hold it, and no
/// incoming key before it equals it.
pub open spec fn is_new<K>(existing: Seq<K>, incoming: Seq<K>, k: int) -> bool {
    &&& 0 <= k < incoming.len()
    &&& !existing.contains(incoming[k])
    &&& forall|j: int| 0 <= j < k ==> incoming[j] != incoming[k]
}

/// The places of the incoming keys that are new, in rising order.
pub open spec fn new_positions<K>(existing: Seq<K>, incoming: Seq<K>) -> Seq<int>
    decreases incoming.len(),
{
    if incoming.len() == 0 {
        Seq::empty()
    } else {
        let rest = new_positions(existing, incoming.drop_last());
        if is_new(existing, incoming, incoming.len() - 1) {
            rest.push(incoming.len() - 1)
        } else {
            rest
        }
    }
}

/// The incoming keys at the given places.
pub open spec fn picked<K>(incoming: Seq<K>, places: Seq<int>) -> Seq<K> {
    Seq::new(places.len(), |j: int| incoming[places[j]])
}

/// The keys of the table once the new incoming keys were added at its end.
pub open spec fn merged<K>(existing: Seq<K>, incoming: Seq<K>) -> Seq<K> {
    existing + picked(incoming, new_positions(existing, incoming))
}

/// Every place that `new_positions` names is a place of a new key.
pub proof fn lemma_new_positions_are_new<K>(existing: Seq<K>, incoming: Seq<K>)
    ensures
        new_positions(existing, incoming).len() <= incoming.len(),
        forall|j: int|
            0 <= j < new_positions(existing, incoming).len() ==> is_new(
                existing,
                incoming,
                #[trigger] new_positions(existing, incoming)[j],
            ),
    decreases incoming.len(),
{
    if incoming.len() > 0 {
        let head = incoming.drop_last();
        lemma_new_positions_are_new(existing, head);
        let rest = new_positions(existing, head);
        assert forall|j: int| 0 <= j < new_positions(existing, incoming).len() implies is_new(
            existing,
            incoming,
            #[trigger] new_positions(existing, incoming)[j],
        ) by {
            if j < rest.len() {
                let p = rest[j];
                assert(is_new(existing, head, p));
                assert(head[p] == incoming[p]);
                assert forall|i: int| 0 <= i < p implies incoming[i] != incoming[p] by {
                    assert(head[i] == incoming[i]);
                }
            }
        }
    }
}

/// Reading one more incoming key: the places found so far stay, and the
/// place of the key read joins them if the key is new.
pub proof fn lemma_new_positions_step<K>(existing: Seq<K>, incoming: Seq<K>, n: int)
    requires
        0 <= n < incoming.len(),
    ensures
        new_positions(existing, incoming.take(n + 1)) == if is_new(existing, incoming, n) {
            new_positions(existing, incoming.take(n)).push(n)
        } else {
            new_positions(existing, incoming.take(n))
        },
{
    let upto = incoming.take(n + 1);
    assert(upto.drop_last() =~= incoming.take(n));
    assert(upto[n] == incoming[n]);
    if is_new(existing, incoming, n) {
        assert forall|j: int| 0 <= j < n implies upto[j] != upto[n] by {
            assert(upto[j] == incoming[j]);
        }
        assert(is_new(existing, upto, n));
    } else {
        if is_new(existing, upto, n) {
            assert forall|j: int| 0 <= j < n implies incoming[j] != incoming[n] by {
                assert(upto[j] == incoming[j]);
            }
        }
    }
}

/// After the merge the table holds a key exactly if it held it before or the
/// key came in.
pub proof fn lemma_merged_contains<K>(existing: Seq<K>, incoming: Seq<K>, key: K)
    ensures
        merged(existing, incoming).contains(key) <==> existing.contains(key) || incoming.contains(
            key,
        ),
    decreases incoming.len(),
{
    let places = new_positions(existing, incoming);
    let added = picked(incoming, places);
    let all = merged(existing, incoming);
    lemma_new_positions_are_new(existing, incoming);
    if all.contains(key) {
        let i = choose|i: int| 0 <= i < all.len() && all[i] == key;
        if i < existing.len() {
            assert(existing[i] == key);
        } else {
            let j = i - existing.len();
            assert(added[j] == key);
            assert(is_new(existing, incoming, places[j]));
            assert(incoming[places[j]] == key);
        }
    }
    if existing.contains(key) {
        let i = choose|i: int| 0 <= i < existing.len() && existing[i] == key;
        assert(all[i] == key);
    } else if incoming.contains(key) {
        let head = incoming.drop_last();
        let last = incoming.len() - 1;
        let head_places = new_positions(existing, head);
        if head.contains(key) {
            lemma_merged_contains(existing, head, key);
            let before = merged(existing, head);
            let i = choose|i: int| 0 <= i < before.len() && before[i] == key;
            assert(i >= existing.len());
            let j = i - existing.len();
            assert(picked(head, head_places)[j] == key);
            lemma_new_positions_are_new(existing, head);
            assert(is_new(existing, head, head_places[j]));
            assert(places[j] == head_places[j]);
            assert(added[j] == incoming[places[j]]);
            assert(head[head_places[j]] == incoming[head_places[j]]);
            assert(all[existing.len() + j] == key);
        } else {
            let i = choose|i: int| 0 <= i < incoming.len() && incoming[i] == key;
            if i < last {
                assert(head[i] == key);
            }
            assert(i == last);
            assert forall|j: int| 0 <= j < last implies incoming[j] != incoming[last] by {
                assert(head[j] == incoming[j]);
            }
            assert(is_new(existing, incoming, last));
            assert(places == head_places.push(last));
            assert(added[places.len() - 1] == key);
            assert(all[existing.len() + places.len() - 1] == key);
        }
    }
}

/// A table without a repeated key has none after the merge.
pub proof fn lemma_merged_distinct<K>(existing: Seq<K>, incoming: Seq<K>)
    requires
        distinct(existing),
    ensures
        distinct(merged(existing, incoming)),
    decreases incoming.len(),
{
    if incoming.len() > 0 {
        let head = incoming.drop_last();
        let last = incoming.len() - 1;
        lemma_merged_distinct(existing, head);
        lemma_new_positions_are_new(existing, head);
        let head_places = new_positions(existing, head);
        let before = merged(existing, head);
        let all = merged(existing, incoming);
        assert forall|j: int| 0 <= j < head_places.len() implies picked(head, head_places)[j]
            == picked(incoming, head_places)[j] by {
            assert(is_new(existing, head, head_places[j]));
        }
        assert(picked(head, head_places) =~= picked(incoming, head_places));
        if is_new(existing, incoming, last) {
            assert(all =~= before.push(incoming[last]));
            lemma_merged_contains(existing, head, incoming[last]);
            if head.contains(incoming[last]) {
                let j = choose|j: int| 0 <= j < head.len() && head[j] == incoming[last];
                assert(incoming[j] == incoming[last]);
            }
            assert(!before.contains(incoming[last]));
        } else {
            assert(all =~= before);
        }
    }
}

/// Merging the same keys a second time adds nothing.
pub proof fn lemma_merge_again_adds_nothing<K>(existing: Seq<K>, incoming: Seq<K>, again: Seq<K>)
    requires
        forall|k: int| 0 <= k < again.len() ==> incoming.contains(#[trigger] again[k]),
    ensures
        new_positions(merged(existing, incoming), again) == Seq::<int>::empty(),
    decreases again.len(),
{
    if again.len() > 0 {
        let head = again.drop_last();
        assert forall|k: int| 0 <= k < head.len() implies incoming.contains(#[trigger] head[k]) by {
            assert(head[k] == again[k]);
        }
        lemma_merge_again_adds_nothing(existing, incoming, head);
        lemma_merged_contains(existing, incoming, again[again.len() - 1]);
    }
}

/// One step of a merge that reads the incoming keys in order. `current` is
/// the table after the first `n` of them: the next key is new exactly if
/// `current` does not hold it, and only then does it join the table.
pub proof fn lemma_merge_step<K>(existing: Seq<K>, incoming: Seq<K>, n: int, current: Seq<K>)
    requires
        0 <= n < incoming.len(),
        current == merged(existing, incoming.take(n)),
    ensures
        is_new(existing, incoming, n) <==> !current.contains(incoming[n]),
        new_positions(existing, incoming.take(n + 1)) == if is_new(existing, incoming, n) {
            new_positions(existing, incoming.take(n)).push(n)
        } else {
            new_positions(existing, incoming.take(n))
        },
        merged(existing, incoming.take(n + 1)) == if is_new(existing, incoming, n) {
            current.push(incoming[n])
        } else {
            current
        },
{
    let head = incoming.take(n);
    let upto = incoming.take(n + 1);
    lemma_new_positions_step(existing, incoming, n);
    lemma_merged_contains(existing, head, incoming[n]);
    lemma_new_positions_are_new(existing, head);
    if head.contains(incoming[n]) {
        let j = choose|j: int| 0 <= j < head.len() && head[j] == incoming[n];
        assert(incoming[j] == incoming[n]);
    }
    if !is_new(existing, incoming, n) && !existing.contains(incoming[n]) {
        let j = choose|j: int| 0 <= j < n && incoming[j] == incoming[n];
        assert(head[j] == incoming[n]);
    }
    let places = new_positions(existing, head);
    assert forall|j: int| 0 <= j < places.len() implies picked(head, places)[j] == picked(
        upto,
        places,
    )[j] by {
        assert(is_new(existing, head, places[j]));
    }
    assert(picked(head, places) =~= picked(upto, places));
    if is_new(existing, incoming, n) {
        assert(picked(upto, places.push(n)) =~= picked(upto, places).push(incoming[n]));
        assert(merged(existing, upto) =~= current.push(incoming[n]));
    } else {
        assert(merged(existing, upto) =~= current);
    }
}

} // verus!
