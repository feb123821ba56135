//! Merging of keyed counts that several shards returned.

use vstd::prelude::*;

verus! {

/// Sum of the counts that `rows` report for key `k`.
pub open spec fn key_total(rows: Seq<(i64, u64)>, k: i64) -> nat
    decreases rows.len(),
{
    if rows.len() == 0 {
        0
    } else {
        key_total(rows.drop_last(), k) + if rows.last().0 == k {
            rows.last().1 as nat
        } else {
            0
        }
    }
}

/// Some row of `s` has key `k`.
pub open spec fn has_key(s: Seq<(i64, u64)>, k: i64) -> bool {
    exists|p: int| 0 <= p < s.len() && (#[trigger] s[p]).0 == k
}

/// No key occurs twice in `s`.
pub open spec fn keys_unique(s: Seq<(i64, u64)>) -> bool {
    forall|p: int, q: int| 0 <= p < q < s.len() ==> (#[trigger] s[p]).0 != (#[trigger] s[q]).0
}

/// A prefix of the rows reports no more for a key than all of them.
proof fn lemma_key_total_prefix(rows: Seq<(i64, u64)>, j: int, k: i64)
    requires
        0 <= j <= rows.len(),
    ensures
        key_total(rows.take(j), k) <= key_total(rows, k),
    decreases rows.len() - j,
{
    if j < rows.len() {
        assert(rows.take(j + 1).drop_last() =~= rows.take(j));
        lemma_key_total_prefix(rows, j + 1, k);
    } else {
        assert(rows.take(j) =~= rows);
    }
}

/// Position of key `k` in `out`, if it is there.
fn find_key(out: &Vec<(i64, u64)>, k: i64) -> (r: Option<usize>)
    ensures
        r matches Some(p) ==> p < out@.len() && out@[p as int].0 == k,
        r is None ==> !has_key(out@, k),
{
    let mut p: usize = 0;
    while p < out.len()
        invariant
            p <= out@.len(),
            forall|q: int| 0 <= q < p ==> (#[trigger] out@[q]).0 != k,
        decreases out@.len() - p,
    {
        if out[p].0 == k {
            return Some(p);
        }
        p = p + 1;
    }
    None
}

/// One line per key, each holding the sum of the counts reported for that
/// key: what shards that each grouped their rows by key add up to together.
/// Every key of the input appears once in the result, and no other key.
pub fn sum_by_key(rows: &Vec<(i64, u64)>) -> (r: Vec<(i64, u64)>)
    requires
        forall|k: i64| #[trigger] key_total(rows@, k) <= u64::MAX,
    ensures
        keys_unique(r@),
        forall|p: int| 0 <= p < r@.len() ==> (#[trigger] r@[p]).1 == key_total(rows@, r@[p].0),
        forall|k: i64| has_key(rows@, k) <==> has_key(r@, k),
{
    let mut out: Vec<(i64, u64)> = Vec::new();
    let mut i: usize = 0;
    while i < rows.len()
        invariant
            i <= rows@.len(),
            forall|k: i64| #[trigger] key_total(rows@, k) <= u64::MAX,
            keys_unique(out@),
            forall|p: int|
                0 <= p < out@.len() ==> (#[trigger] out@[p]).1 == key_total(rows@.take(i as int), out@[p].0),
            forall|j: int| 0 <= j < i ==> has_key(out@, (#[trigger] rows@[j]).0),
            forall|p: int| 0 <= p < out@.len() ==> has_key(rows@.take(i as int), (#[trigger] out@[p]).0),
            forall|k: i64| !has_key(out@, k) ==> #[trigger] key_total(rows@.take(i as int), k) == 0,
        decreases rows@.len() - i,
    {
        let (k, n) = rows[i];
        let ghost before = out@;
        let ghost prefix = rows@.take(i as int);
        let ghost next = rows@.take(i + 1);
        proof {
            assert(next.drop_last() =~= prefix);
            assert(next.last() == rows@[i as int]);
            assert forall|x: i64| #[trigger] key_total(next, x) == key_total(prefix, x) + (if x == k { n as nat } else { 0 }) by {}
            lemma_key_total_prefix(rows@, i + 1, k);
            assert forall|x: i64| has_key(prefix, x) implies has_key(next, x) by {
                let w = choose|q: int| 0 <= q < prefix.len() && (#[trigger] prefix[q]).0 == x;
                assert(next[w] == prefix[w]);
            }
            assert(next[i as int] == rows@[i as int]);
            assert(has_key(next, k));
        }
        match find_key(&out, k) {
            Some(p) => {
                let (_, m) = out[p];
                out.set(p, (k, m + n));
                proof {
                    assert forall|x: i64| has_key(before, x) implies has_key(out@, x) by {
                        let w = choose|q: int| 0 <= q < before.len() && (#[trigger] before[q]).0 == x;
                        assert(out@[w].0 == x);
                    }
                    assert forall|x: i64| has_key(out@, x) implies has_key(before, x) by {
                        let w = choose|q: int| 0 <= q < out@.len() && (#[trigger] out@[q]).0 == x;
                        assert(before[w].0 == x);
                    }
                    assert forall|q: int| 0 <= q < out@.len() implies has_key(next, (#[trigger] out@[q]).0) by {
                        assert(before[q].0 == out@[q].0);
                        assert(has_key(prefix, before[q].0));
                    }
                    assert forall|a: int, b: int| 0 <= a < b < out@.len() implies (#[trigger] out@[a]).0 != (#[trigger] out@[b]).0 by {
                        assert(before[a].0 == out@[a].0 && before[b].0 == out@[b].0);
                    }
                    assert forall|q: int| 0 <= q < out@.len() implies (#[trigger] out@[q]).1 == key_total(next, out@[q].0) by {
                        if q != p {
                            assert(out@[q] == before[q]);
                            assert(before[q].0 != k);
                        }
                    }
                }
            },
            None => {
                out.push((k, n));
                proof {
                    assert forall|x: i64| has_key(before, x) implies has_key(out@, x) by {
                        let w = choose|q: int| 0 <= q < before.len() && (#[trigger] before[q]).0 == x;
                        assert(out@[w] == before[w]);
                    }
                    assert(out@[before.len() as int].0 == k);
                    assert forall|x: i64| has_key(out@, x) && x != k implies has_key(before, x) by {
                        let w = choose|q: int| 0 <= q < out@.len() && (#[trigger] out@[q]).0 == x;
                        assert(w < before.len());
                        assert(before[w] == out@[w]);
                    }
                    assert forall|q: int| 0 <= q < out@.len() implies has_key(next, (#[trigger] out@[q]).0) by {
                        if q < before.len() {
                            assert(before[q] == out@[q]);
                            assert(has_key(prefix, before[q].0));
                        }
                    }
                    assert forall|a: int, b: int| 0 <= a < b < out@.len() implies (#[trigger] out@[a]).0 != (#[trigger] out@[b]).0 by {
                        if b == before.len() {
                            assert(out@[a] == before[a]);
                        } else {
                            assert(out@[a] == before[a] && out@[b] == before[b]);
                        }
                    }
                    assert forall|q: int| 0 <= q < out@.len() implies (#[trigger] out@[q]).1 == key_total(next, out@[q].0) by {
                        if q < before.len() {
                            assert(out@[q] == before[q]);
                            assert(before[q].0 != k);
                        } else {
                            assert(key_total(prefix, k) == 0);
                        }
                    }
                }
            },
        }
        proof {
            assert forall|j: int| 0 <= j < i + 1 implies has_key(out@, (#[trigger] rows@[j]).0) by {
                if j < i {
                    assert(has_key(before, rows@[j].0));
                }
            }
        }
        i = i + 1;
    }
    proof {
        assert(rows@.take(i as int) =~= rows@);
        assert forall|k: i64| has_key(rows@, k) implies has_key(out@, k) by {
            let w = choose|q: int| 0 <= q < rows@.len() && (#[trigger] rows@[q]).0 == k;
        }
    }
    out
}

} // verus!
