//! Strictly increasing sequences of addresses, used as ordered sets.

use vstd::prelude::*;

verus! {

/// Whether each element is strictly smaller than every later one.
pub open spec fn strictly_increasing(s: Seq<u64>) -> bool {
    forall|i: int, j: int| 0 <= i < j < s.len() ==> s[i] < s[j]
}

/// `s` with `x` put in its place, or `s` itself when it already holds `x`;
/// meant for a strictly increasing `s`.
pub open spec fn insert_ascending(s: Seq<u64>, x: u64) -> Seq<u64>
    decreases s.len(),
{
    if s.len() == 0 {
        seq![x]
    } else if s.last() < x {
        s.push(x)
    } else if s.last() == x {
        s
    } else {
        insert_ascending(s.drop_last(), x).push(s.last())
    }
}

/// Inserting keeps a strictly increasing sequence strictly increasing and
/// adds exactly `x` to what it holds.
pub proof fn lemma_insert_ascending(s: Seq<u64>, x: u64)
    requires
        strictly_increasing(s),
    ensures
        strictly_increasing(insert_ascending(s, x)),
        forall|a: u64| #[trigger]
            insert_ascending(s, x).contains(a) <==> (s.contains(a) || a == x),
        s.len() > 0 ==> insert_ascending(s, x).len() > 0 && insert_ascending(s, x)[0] == (if x
            < s[0] {
            x
        } else {
            s[0]
        }),
    decreases s.len(),
{
    broadcast use vstd::seq_lib::lemma_seq_contains_after_push;

    if s.len() == 0 {
        assert(insert_ascending(s, x) =~= s.push(x));
    } else if s.last() == x {
        assert(s.contains(s.last()));
    } else if s.last() > x {
        let head = s.drop_last();
        let inner = insert_ascending(head, x);
        assert(s =~= head.push(s.last()));
        lemma_insert_ascending(head, x);
        assert forall|i: int| 0 <= i < inner.len() implies inner[i] < s.last() by {
            assert(inner.contains(inner[i]));
            if head.contains(inner[i]) {
                let m = choose|m: int| 0 <= m < head.len() && head[m] == inner[i];
                assert(s[m] < s[s.len() - 1]);
            }
        }
    }
}

/// Where `x` goes: if everything from `i` on is larger and the element
/// before `i` is smaller, `x` is inserted at `i`; if the element before `i`
/// is `x`, nothing changes.
pub proof fn lemma_insert_position(s: Seq<u64>, x: u64, i: int)
    requires
        0 <= i <= s.len(),
        forall|j: int| i <= j < s.len() ==> s[j] > x,
        i > 0 ==> s[i - 1] <= x,
    ensures
        i > 0 && s[i - 1] == x ==> insert_ascending(s, x) == s,
        !(i > 0 && s[i - 1] == x) ==> insert_ascending(s, x) == s.insert(i, x),
    decreases s.len(),
{
    if 0 < s.len() && i < s.len() {
        lemma_insert_position(s.drop_last(), x, i);
    }
}

/// Puts `x` into the strictly increasing `v`, unless it is there already.
pub fn insert_sorted(v: &mut Vec<u64>, x: u64)
    requires
        strictly_increasing(old(v)@),
    ensures
        final(v)@ == insert_ascending(old(v)@, x),
        strictly_increasing(final(v)@),
{
    let mut i: usize = v.len();
    while i > 0 && v[i - 1] > x
        invariant
            v@ == old(v)@,
            0 <= i <= v@.len(),
            forall|j: int| i <= j < v@.len() ==> v@[j] > x,
        decreases i,
    {
        i = i - 1;
    }
    proof {
        lemma_insert_position(v@, x, i as int);
        lemma_insert_ascending(v@, x);
    }
    if i > 0 && v[i - 1] == x {
        return ;
    }
    v.insert(i, x);
}

/// The distinct elements of `keys` in ascending order.
pub open spec fn ascending_of(keys: Seq<u64>) -> Seq<u64>
    decreases keys.len(),
{
    if keys.len() == 0 {
        Seq::empty()
    } else {
        insert_ascending(ascending_of(keys.drop_last()), keys.last())
    }
}

/// The ascending sequence of `keys` is strictly increasing and holds
/// exactly the elements of `keys`.
pub proof fn lemma_ascending_of(keys: Seq<u64>)
    ensures
        strictly_increasing(ascending_of(keys)),
        forall|a: u64| #[trigger] ascending_of(keys).contains(a) <==> keys.contains(a),
    decreases keys.len(),
{
    broadcast use vstd::seq_lib::lemma_seq_contains_after_push;

    if keys.len() > 0 {
        let head = keys.drop_last();
        assert(keys =~= head.push(keys.last()));
        lemma_ascending_of(head);
        lemma_insert_ascending(ascending_of(head), keys.last());
    }
}

} // verus!
