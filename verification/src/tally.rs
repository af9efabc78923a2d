//! Counting how often each key occurs in a sequence, keys kept in the order
//! in which they first occur.

use vstd::prelude::*;

verus! {

/// How often `k` occurs in `keys`.
pub open spec fn occurrences<K>(keys: Seq<K>, k: K) -> nat
    decreases keys.len(),
{
    if keys.len() == 0 {
        0
    } else {
        occurrences(keys.drop_last(), k) + if keys.last() == k {
            1nat
        } else {
            0nat
        }
    }
}

/// The distinct keys of `keys`, in the order in which they first occur.
pub open spec fn first_seen<K>(keys: Seq<K>) -> Seq<K>
    decreases keys.len(),
{
    if keys.len() == 0 {
        Seq::empty()
    } else {
        let before = first_seen(keys.drop_last());
        if before.contains(keys.last()) {
            before
        } else {
            before.push(keys.last())
        }
    }
}

/// Each distinct key of `keys` with the number of times it occurs, in the
/// order in which the keys first occur.
pub open spec fn tally<K>(keys: Seq<K>) -> Seq<(K, usize)> {
    first_seen(keys).map_values(|k: K| (k, occurrences(keys, k) as usize))
}

/// A key cannot occur more often than the sequence is long.
pub proof fn lemma_occurrences_bound<K>(keys: Seq<K>, k: K)
    ensures
        occurrences(keys, k) <= keys.len(),
    decreases keys.len(),
{
    if keys.len() > 0 {
        lemma_occurrences_bound(keys.drop_last(), k);
    }
}

/// A key occurs at least once exactly when the sequence holds it.
pub proof fn lemma_occurrences_positive<K>(keys: Seq<K>, k: K)
    ensures
        occurrences(keys, k) > 0 <==> keys.contains(k),
    decreases keys.len(),
{
    broadcast use vstd::seq_lib::lemma_seq_contains_after_push;

    if keys.len() > 0 {
        let head = keys.drop_last();
        assert(keys =~= head.push(keys.last()));
        lemma_occurrences_positive(head, k);
    }
}

/// The keys first seen are the keys of the sequence, each once.
pub proof fn lemma_first_seen<K>(keys: Seq<K>)
    ensures
        first_seen(keys).no_duplicates(),
        forall|k: K| #[trigger] first_seen(keys).contains(k) <==> keys.contains(k),
        first_seen(keys).len() <= keys.len(),
    decreases keys.len(),
{
    broadcast use vstd::seq_lib::lemma_seq_contains_after_push;

    if keys.len() > 0 {
        let head = keys.drop_last();
        assert(keys =~= head.push(keys.last()));
        lemma_first_seen(head);
    }
}

/// Every entry of a tally pairs a key of the sequence with its number of
/// occurrences; no key has two entries, and every key has one.
pub proof fn lemma_tally<K>(keys: Seq<K>)
    requires
        keys.len() <= usize::MAX,
    ensures
        tally(keys).len() == first_seen(keys).len(),
        forall|i: int|
            0 <= i < tally(keys).len() ==> (#[trigger] tally(keys)[i]).0 == first_seen(keys)[i]
                && tally(keys)[i].1 == occurrences(keys, tally(keys)[i].0) && tally(keys)[i].1
                > 0,
        forall|i: int, j: int|
            0 <= i < j < tally(keys).len() ==> tally(keys)[i].0 != tally(keys)[j].0,
        forall|k: K|
            keys.contains(k) <==> exists|i: int|
                0 <= i < tally(keys).len() && (#[trigger] tally(keys)[i]).0 == k,
{
    lemma_first_seen(keys);
    let seen = first_seen(keys);
    let t = tally(keys);
    assert forall|i: int| 0 <= i < t.len() implies (#[trigger] t[i]).0 == seen[i] && t[i].1
        == occurrences(keys, t[i].0) && t[i].1 > 0 by {
        assert(seen.contains(seen[i]));
        lemma_occurrences_bound(keys, seen[i]);
        lemma_occurrences_positive(keys, seen[i]);
    }
    assert forall|k: K|
        keys.contains(k) <==> exists|i: int| 0 <= i < t.len() && (#[trigger] t[i]).0 == k by {
        if keys.contains(k) {
            assert(seen.contains(k));
            let i = choose|i: int| 0 <= i < seen.len() && seen[i] == k;
            assert(t[i].0 == k);
        }
        if exists|i: int| 0 <= i < t.len() && (#[trigger] t[i]).0 == k {
            assert(seen.contains(k));
        }
    }
}

/// What one more key does to a tally: the count of its entry goes up by
/// one, or a new entry with count one is appended.
pub proof fn lemma_tally_step<K>(keys: Seq<K>, n: int)
    requires
        0 <= n < keys.len(),
        keys.len() <= usize::MAX,
    ensures
        forall|j: int|
            0 <= j < tally(keys.take(n)).len() && (#[trigger] tally(keys.take(n))[j]).0
                == keys[n] ==> tally(keys.take(n + 1)) == tally(keys.take(n)).update(
                j,
                (keys[n], (tally(keys.take(n))[j].1 + 1) as usize),
            ),
        (forall|j: int|
            0 <= j < tally(keys.take(n)).len() ==> (#[trigger] tally(keys.take(n))[j]).0
                != keys[n]) ==> tally(keys.take(n + 1)) == tally(keys.take(n)).push(
            (keys[n], 1usize),
        ),
{
    let before = keys.take(n);
    let after = keys.take(n + 1);
    assert(after.drop_last() =~= before);
    lemma_tally(before);
    lemma_tally(after);
    lemma_first_seen(before);
    lemma_occurrences_positive(before, keys[n]);
    assert forall|k: K| #[trigger] occurrences(after, k) <= n + 1 by {
        lemma_occurrences_bound(after, k);
    }
    if !before.contains(keys[n]) {
        assert(tally(after) =~= tally(before).push((keys[n], 1usize)));
    }
}

/// The sum of the counts of a count table.
pub open spec fn total_count<K>(table: Seq<(K, usize)>) -> nat
    decreases table.len(),
{
    if table.len() == 0 {
        0
    } else {
        total_count(table.drop_last()) + table.last().1 as nat
    }
}

/// Changing the count of one entry changes the sum by the difference.
proof fn lemma_total_count_update<K>(table: Seq<(K, usize)>, j: int, entry: (K, usize))
    requires
        0 <= j < table.len(),
    ensures
        total_count(table.update(j, entry)) + table[j].1 == total_count(table) + entry.1,
    decreases table.len(),
{
    let changed = table.update(j, entry);
    if j == table.len() - 1 {
        assert(changed.drop_last() =~= table.drop_last());
    } else {
        assert(changed.drop_last() =~= table.drop_last().update(j, entry));
        lemma_total_count_update(table.drop_last(), j, entry);
    }
}

/// The counts of a tally add up to the length of the sequence: every
/// element is counted once.
pub proof fn lemma_tally_total<K>(keys: Seq<K>)
    requires
        keys.len() <= usize::MAX,
    ensures
        total_count(tally(keys)) == keys.len(),
    decreases keys.len(),
{
    if keys.len() == 0 {
        assert(tally(keys) =~= Seq::<(K, usize)>::empty());
    } else {
        let n = keys.len() - 1;
        let head = keys.take(n);
        assert(keys.take(n + 1) =~= keys);
        assert(head =~= keys.drop_last());
        lemma_tally_total(head);
        lemma_tally(head);
        lemma_tally_step(keys, n);
        let before = tally(head);
        if exists|j: int| 0 <= j < before.len() && (#[trigger] before[j]).0 == keys[n] {
            let j = choose|j: int| 0 <= j < before.len() && (#[trigger] before[j]).0 == keys[n];
            lemma_occurrences_bound(head, keys[n]);
            lemma_total_count_update(before, j, (keys[n], (before[j].1 + 1) as usize));
        } else {
            assert(tally(keys).drop_last() =~= before);
        }
    }
}

} // verus!
