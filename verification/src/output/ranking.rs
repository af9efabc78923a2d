//! Ordering of count tables, most frequent entry first.

use crate::analyzer::instructions::named_counts;
use vstd::prelude::*;

verus! {

/// An entry of a count table: a name and how often it occurs.
pub type Entry = (Seq<char>, usize);

/// Whether the counts never increase along the sequence.
pub open spec fn descending(entries: Seq<Entry>) -> bool {
    forall|i: int, j: int| 0 <= i < j < entries.len() ==> entries[i].1 >= entries[j].1
}

/// `ranked` with `e` put behind the entries that occur more often and
/// ahead of all others; meant for a descending `ranked`.
pub open spec fn rank_insert(ranked: Seq<Entry>, e: Entry) -> Seq<Entry>
    decreases ranked.len(),
{
    if ranked.len() == 0 {
        seq![e]
    } else if ranked.last().1 > e.1 {
        ranked.push(e)
    } else {
        rank_insert(ranked.drop_last(), e).push(ranked.last())
    }
}

/// The entries ordered by count, most frequent first; among entries with
/// equal counts the one that comes later in `entries` goes first.
pub open spec fn ranked_by_count(entries: Seq<Entry>) -> Seq<Entry>
    decreases entries.len(),
{
    if entries.len() == 0 {
        Seq::empty()
    } else {
        rank_insert(ranked_by_count(entries.drop_last()), entries.last())
    }
}

/// Where an entry goes: behind position `i` everything occurs at most as
/// often, and the entry before `i` occurs more often.
pub proof fn lemma_rank_position(ranked: Seq<Entry>, e: Entry, i: int)
    requires
        0 <= i <= ranked.len(),
        forall|j: int| i <= j < ranked.len() ==> ranked[j].1 <= e.1,
        i > 0 ==> ranked[i - 1].1 > e.1,
    ensures
        rank_insert(ranked, e) == ranked.insert(i, e),
    decreases ranked.len(),
{
    if i < ranked.len() {
        lemma_rank_position(ranked.drop_last(), e, i);
    }
}

/// Ranking one more entry keeps the order descending and adds exactly that
/// entry.
pub proof fn lemma_rank_insert(ranked: Seq<Entry>, e: Entry)
    requires
        descending(ranked),
    ensures
        descending(rank_insert(ranked, e)),
        rank_insert(ranked, e).len() == ranked.len() + 1,
        rank_insert(ranked, e).to_multiset() == ranked.to_multiset().insert(e),
    decreases ranked.len(),
{
    broadcast use vstd::seq_lib::group_to_multiset_ensures;

    if ranked.len() > 0 && ranked.last().1 <= e.1 {
        let head = ranked.drop_last();
        let inner = rank_insert(head, e);
        assert(ranked =~= head.push(ranked.last()));
        lemma_rank_insert(head, e);
        assert forall|i: int| 0 <= i < inner.len() implies inner[i].1 >= ranked.last().1 by {
            assert(inner.to_multiset().count(inner[i]) > 0);
            if inner[i] != e {
                let k = choose|k: int| 0 <= k < head.len() && head[k] == inner[i];
                assert(ranked[k].1 >= ranked[ranked.len() - 1].1);
            }
        }
    }
}

/// A ranked table holds the entries of the table it was made from, each as
/// often, with counts that never increase.
pub proof fn lemma_ranked_by_count(entries: Seq<Entry>)
    ensures
        descending(ranked_by_count(entries)),
        ranked_by_count(entries).len() == entries.len(),
        ranked_by_count(entries).to_multiset() == entries.to_multiset(),
    decreases entries.len(),
{
    broadcast use vstd::seq_lib::group_to_multiset_ensures;

    if entries.len() > 0 {
        let head = entries.drop_last();
        assert(entries =~= head.push(entries.last()));
        lemma_ranked_by_count(head);
        lemma_rank_insert(ranked_by_count(head), entries.last());
    }
}

/// Orders a count table by count, most frequent entry first.
pub fn rank_by_count(entries: &Vec<(String, usize)>) -> (ranked: Vec<(String, usize)>)
    ensures
        named_counts(ranked@) == ranked_by_count(named_counts(entries@)),
{
    let ghost table = named_counts(entries@);
    let mut ranked: Vec<(String, usize)> = Vec::new();
    let n: usize = entries.len();
    let mut i: usize = 0;
    while i < n
        invariant
            n == entries@.len(),
            table == named_counts(entries@),
            0 <= i <= n,
            named_counts(ranked@) == ranked_by_count(table.take(i as int)),
            descending(named_counts(ranked@)),
        decreases n - i,
    {
        let count: usize = entries[i].1;
        let ghost before = named_counts(ranked@);
        let ghost e: Entry = (entries@[i as int].0@, count);
        let mut at: usize = ranked.len();
        while at > 0 && ranked[at - 1].1 <= count
            invariant
                0 <= at <= ranked@.len(),
                before == named_counts(ranked@),
                forall|j: int| at <= j < before.len() ==> before[j].1 <= count,
            decreases at,
        {
            at = at - 1;
        }
        proof {
            lemma_rank_position(before, e, at as int);
            lemma_rank_insert(before, e);
            assert(table.take(i + 1).drop_last() =~= table.take(i as int));
        }
        ranked.insert(at, (entries[i].0.clone(), count));
        assert(named_counts(ranked@) =~= before.insert(at as int, e));
        i = i + 1;
    }
    assert(table.take(n as int) =~= table);
    ranked
}

} // verus!
