//! Round-robin work partitioning.
//!
//! The input targets are split across a fixed number of workers: target `i`
//! goes to worker `i mod worker_count`, keeping input order within each
//! worker's slice. The split is total — every target lands in exactly one
//! slice, so the slices together hold as many targets as came in.

use crate::target::Target;
use vstd::prelude::*;

verus! {

/// The slice that round-robin assignment gives worker `w`: the targets whose
/// index is congruent to `w` modulo `k`, in input order.
pub open spec fn rr_slice(ts: Seq<Target>, k: int, w: int) -> Seq<Target>
    decreases ts.len(),
{
    if ts.len() == 0 {
        Seq::empty()
    } else {
        let rest = rr_slice(ts.drop_last(), k, w);
        if (ts.len() - 1) % k == w {
            rest.push(ts.last())
        } else {
            rest
        }
    }
}

/// The total number of targets held across all slices.
pub open spec fn flat_len(slices: Seq<Seq<Target>>) -> int
    decreases slices.len(),
{
    if slices.len() == 0 {
        0
    } else {
        flat_len(slices.drop_last()) + slices.last().len()
    }
}

/// Split the targets across `worker_count` slices, assigning target `i` to
/// worker `i mod worker_count` and preserving input order within each slice.
pub fn partition(targets: Vec<Target>, worker_count: usize) -> (r: Vec<Vec<Target>>)
    requires
        worker_count >= 1,
    ensures
        r@.len() == worker_count,
        forall|w: int|
            0 <= w < worker_count ==> #[trigger] r@[w]@ == rr_slice(
                targets@,
                worker_count as int,
                w,
            ),
{
    let ghost ts = targets@;
    let mut targets = targets;
    let mut r: Vec<Vec<Target>> = Vec::new();
    let mut j: usize = 0;
    while j < worker_count
        invariant
            j <= worker_count,
            r@.len() == j,
            forall|w: int| 0 <= w < j ==> #[trigger] r@[w]@.len() == 0,
        decreases worker_count - j,
    {
        r.push(Vec::new());
        j = j + 1;
    }
    let n = targets.len();
    let mut i: usize = 0;
    let mut w: usize = 0;
    proof {
        assert(ts.len() == n);
        assert(forall|v: int|
            0 <= v < worker_count ==> #[trigger] r@[v]@ =~= rr_slice(
                ts.take(0),
                worker_count as int,
                v,
            ));
        assert(targets@ =~= ts.skip(0));
    }
    while targets.len() > 0
        invariant
            worker_count >= 1,
            ts.len() == n,
            i <= ts.len(),
            w == (i as int) % (worker_count as int),
            targets@ == ts.skip(i as int),
            r@.len() == worker_count,
            forall|v: int|
                0 <= v < worker_count ==> #[trigger] r@[v]@ == rr_slice(
                    ts.take(i as int),
                    worker_count as int,
                    v,
                ),
        decreases targets@.len(),
    {
        let t = targets.remove(0);
        proof {
            assert(ts.skip(i as int).len() > 0);
            assert(t == ts[i as int]);
            assert(ts.skip(i as int).remove(0) =~= ts.skip(i + 1));
            assert(ts.take(i + 1).drop_last() =~= ts.take(i as int));
            assert(ts.take(i + 1).last() == ts[i as int]);
        }
        let ghost old_r = r@;
        let mut slice = r.remove(w);
        slice.push(t);
        r.insert(w, slice);
        proof {
            assert(r@ =~= old_r.update(w as int, r@[w as int]));
            assert(forall|v: int|
                0 <= v < worker_count && v != w ==> #[trigger] r@[v]@ == rr_slice(
                    ts.take(i + 1),
                    worker_count as int,
                    v,
                ));
            assert(r@[w as int]@ =~= rr_slice(ts.take(i + 1), worker_count as int, w as int));
        }
        let ghost oi = i as int;
        let ghost ow = w as int;
        i = i + 1;
        w = w + 1;
        if w == worker_count {
            w = 0;
        }
        proof {
            let ki = worker_count as int;
            vstd::arithmetic::div_mod::lemma_fundamental_div_mod(oi, ki);
            assert((oi / ki + 1) * ki == ki * (oi / ki) + ki) by (nonlinear_arith);
            assert((oi / ki) * ki == ki * (oi / ki)) by (nonlinear_arith);
            if ow + 1 == ki {
                vstd::arithmetic::div_mod::lemma_fundamental_div_mod_converse(
                    oi + 1,
                    ki,
                    oi / ki + 1,
                    0,
                );
            } else {
                vstd::arithmetic::div_mod::lemma_fundamental_div_mod_converse(
                    oi + 1,
                    ki,
                    oi / ki,
                    ow + 1,
                );
            }
        }
    }
    proof {
        assert(ts.skip(i as int).len() == 0);
        assert(i == ts.len());
        assert(ts.take(i as int) =~= ts);
    }
    r
}

/// Round-robin assignment loses nothing and invents nothing: the slices for
/// workers `0` to `k - 1` together hold exactly the input targets' count.
pub proof fn lemma_round_robin_conserves(ts: Seq<Target>, k: int)
    requires
        k >= 1,
    ensures
        flat_len(Seq::new(k as nat, |w: int| rr_slice(ts, k, w))) == ts.len(),
    decreases ts.len(),
{
    let slices = Seq::new(k as nat, |w: int| rr_slice(ts, k, w));
    if ts.len() == 0 {
        lemma_flat_len_all_empty(slices);
    } else {
        let prev = Seq::new(k as nat, |w: int| rr_slice(ts.drop_last(), k, w));
        lemma_round_robin_conserves(ts.drop_last(), k);
        let hit = (ts.len() - 1) % k;
        assert(0 <= hit < k) by {
            vstd::arithmetic::div_mod::lemma_mod_bound(ts.len() - 1, k);
        }
        assert(slices =~= prev.update(hit, prev[hit].push(ts.last())));
        lemma_flat_len_update(prev, hit, prev[hit].push(ts.last()));
    }
}

/// A family of empty slices holds no target.
proof fn lemma_flat_len_all_empty(slices: Seq<Seq<Target>>)
    requires
        forall|w: int| 0 <= w < slices.len() ==> #[trigger] slices[w].len() == 0,
    ensures
        flat_len(slices) == 0,
    decreases slices.len(),
{
    if slices.len() > 0 {
        lemma_flat_len_all_empty(slices.drop_last());
    }
}

/// The total count is never negative.
pub proof fn lemma_flat_len_nonneg(slices: Seq<Seq<Target>>)
    ensures
        flat_len(slices) >= 0,
    decreases slices.len(),
{
    if slices.len() > 0 {
        lemma_flat_len_nonneg(slices.drop_last());
    }
}

/// The total count is at least any one slice's length.
pub proof fn lemma_flat_len_lower(slices: Seq<Seq<Target>>, i: int)
    requires
        0 <= i < slices.len(),
    ensures
        flat_len(slices) >= slices[i].len(),
    decreases slices.len(),
{
    lemma_flat_len_nonneg(slices.drop_last());
    if i < slices.len() - 1 {
        lemma_flat_len_lower(slices.drop_last(), i);
    }
}

/// Replacing one slice changes the total count by the difference of that
/// slice's length.
pub proof fn lemma_flat_len_update(slices: Seq<Seq<Target>>, i: int, q: Seq<Target>)
    requires
        0 <= i < slices.len(),
    ensures
        flat_len(slices.update(i, q)) == flat_len(slices) - slices[i].len() + q.len(),
    decreases slices.len(),
{
    if i == slices.len() - 1 {
        assert(slices.update(i, q).drop_last() =~= slices.drop_last());
    } else {
        assert(slices.update(i, q).drop_last() =~= slices.drop_last().update(i, q));
        lemma_flat_len_update(slices.drop_last(), i, q);
    }
}

} // verus!
