//! Laws about summing a partitioned work sequence.
//!
//! The cursor hands every item of the work sequence to exactly one worker
//! (one [`crate::cursor::SharedCursor::next`] call per item), so a run of the
//! engine induces an assignment of item positions to workers. These lemmas
//! state that the total over the per-worker parts equals the sum over the
//! whole sequence, for every such assignment — whether a worker adds each
//! item straight into a shared accumulator or keeps a local sum that is
//! folded in at cleanup, the grand total is the same — and that for the
//! sequence `0, 1, ..., n-1` that total is `n * (n - 1) / 2`.

use vstd::prelude::*;

verus! {

/// The sum of a sequence of integers.
pub open spec fn seq_sum(s: Seq<int>) -> int
    decreases s.len(),
{
    if s.len() == 0 {
        0
    } else {
        seq_sum(s.drop_last()) + s.last()
    }
}

/// The sequence `0, 1, ..., n - 1`.
pub open spec fn range_seq(n: nat) -> Seq<int> {
    Seq::new(n, |i: int| i)
}

/// The subsequence of `items` assigned to worker `j`, in delivery order,
/// where `owner[i]` names the worker that pulled `items[i]`.
pub open spec fn owner_part(items: Seq<int>, owner: Seq<int>, j: int) -> Seq<int>
    decreases items.len(),
{
    if items.len() == 0 {
        Seq::empty()
    } else {
        let rest = owner_part(items.drop_last(), owner.drop_last(), j);
        if owner.last() == j {
            rest.push(items.last())
        } else {
            rest
        }
    }
}

/// The grand total over `k` workers: each worker's part summed locally, then
/// folded together.
pub open spec fn parts_total(items: Seq<int>, owner: Seq<int>, k: int) -> int
    decreases k,
{
    if k <= 0 {
        0
    } else {
        parts_total(items, owner, k - 1) + seq_sum(owner_part(items, owner, k - 1))
    }
}

proof fn lemma_seq_sum_push(s: Seq<int>, x: int)
    ensures
        seq_sum(s.push(x)) == seq_sum(s) + x,
{
    assert(s.push(x).drop_last() =~= s);
}

proof fn lemma_parts_total_empty(items: Seq<int>, owner: Seq<int>, k: int)
    requires
        items.len() == 0,
    ensures
        parts_total(items, owner, k) == 0,
    decreases k,
{
    if k > 0 {
        lemma_parts_total_empty(items, owner, k - 1);
    }
}

proof fn lemma_owner_part_push(s: Seq<int>, o: Seq<int>, x: int, w: int, j: int)
    requires
        o.len() == s.len(),
    ensures
        seq_sum(owner_part(s.push(x), o.push(w), j)) == seq_sum(owner_part(s, o, j)) + if w == j {
            x
        } else {
            0
        },
{
    assert(s.push(x).drop_last() =~= s);
    assert(o.push(w).drop_last() =~= o);
    if w == j {
        lemma_seq_sum_push(owner_part(s, o, j), x);
    }
}

proof fn lemma_parts_total_push(s: Seq<int>, o: Seq<int>, x: int, w: int, k: int)
    requires
        o.len() == s.len(),
        0 <= w,
    ensures
        parts_total(s.push(x), o.push(w), k) == parts_total(s, o, k) + if w < k {
            x
        } else {
            0
        },
    decreases k,
{
    if k > 0 {
        lemma_parts_total_push(s, o, x, w, k - 1);
        lemma_owner_part_push(s, o, x, w, k - 1);
    }
}

/// Correctness under partition: however the cursor distributed the items —
/// `owner[i]` being the worker that pulled `items[i]`, each item going to
/// exactly one of the `k` workers — the per-worker sums fold into the sum of
/// the whole sequence. In particular, a local accumulation merged at worker
/// cleanup yields the same total as adding every item directly into one
/// shared accumulator.
pub proof fn lemma_partition_preserves_sum(items: Seq<int>, owner: Seq<int>, k: int)
    requires
        owner.len() == items.len(),
        forall|i: int| 0 <= i < owner.len() ==> 0 <= #[trigger] owner[i] < k,
    ensures
        parts_total(items, owner, k) == seq_sum(items),
    decreases items.len(),
{
    if items.len() == 0 {
        lemma_parts_total_empty(items, owner, k);
    } else {
        let s = items.drop_last();
        let o = owner.drop_last();
        let x = items.last();
        let w = owner.last();
        assert(s.push(x) =~= items);
        assert(o.push(w) =~= owner);
        lemma_partition_preserves_sum(s, o, k);
        lemma_parts_total_push(s, o, x, w, k);
    }
}

/// The sum of `0, 1, ..., n - 1` is `n * (n - 1) / 2`.
pub proof fn lemma_range_sum(n: nat)
    ensures
        2 * seq_sum(range_seq(n)) == n * (n - 1),
        seq_sum(range_seq(n)) == n * (n - 1) / 2,
    decreases n,
{
    if n == 0 {
    } else {
        let m = (n - 1) as nat;
        lemma_range_sum(m);
        assert(range_seq(n).drop_last() =~= range_seq(m));
        assert(2 * seq_sum(range_seq(n)) == m * (m - 1) + 2 * m);
        assert(m * (m - 1) + 2 * m == n * (n - 1)) by (nonlinear_arith)
            requires
                m == n - 1,
                n >= 1,
        ;
    }
    assert(seq_sum(range_seq(n)) == 2 * seq_sum(range_seq(n)) / 2);
}

/// Correctness of the summing run: distributing the items `0 .. n` among `k`
/// workers in any way and folding the per-worker sums yields
/// `n * (n - 1) / 2`, for every `n` and every worker count.
pub proof fn lemma_partitioned_range_sum(n: nat, owner: Seq<int>, k: int)
    requires
        owner.len() == n,
        forall|i: int| 0 <= i < owner.len() ==> 0 <= #[trigger] owner[i] < k,
    ensures
        parts_total(range_seq(n), owner, k) == n * (n - 1) / 2,
{
    lemma_partition_preserves_sum(range_seq(n), owner, k);
    lemma_range_sum(n);
}

} // verus!
