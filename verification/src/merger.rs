//! K-way time-ordered merger.
//!
//! Every input stream is a per-file hit sequence in its own time order; the
//! merger repeatedly takes the earliest head-of-stream hit (breaking
//! timestamp ties by the lower stream index) until all streams are drained.

use vstd::prelude::*;
use vstd::multiset::Multiset;

use crate::hit::Hit;

verus! {

/// Total number of hits left across all streams.
pub open spec fn spec_total_len(ss: Seq<Seq<Hit>>) -> int
    decreases ss.len(),
{
    if ss.len() == 0 {
        0
    } else {
        ss.last().len() + spec_total_len(ss.drop_last())
    }
}

proof fn lemma_total_len_nonneg(ss: Seq<Seq<Hit>>)
    ensures
        spec_total_len(ss) >= 0,
    decreases ss.len(),
{
    if ss.len() > 0 {
        lemma_total_len_nonneg(ss.drop_last());
    }
}

proof fn lemma_total_len_update(ss: Seq<Seq<Hit>>, p: int, v: Seq<Hit>)
    requires
        0 <= p < ss.len(),
    ensures
        spec_total_len(ss.update(p, v)) == spec_total_len(ss) - ss[p].len() + v.len(),
    decreases ss.len(),
{
    let u = ss.update(p, v);
    if p == ss.len() - 1 {
        assert(u.drop_last() =~= ss.drop_last());
        assert(u.last() == v);
    } else {
        assert(u.drop_last() =~= ss.drop_last().update(p, v));
        assert(u.last() == ss.last());
        lemma_total_len_update(ss.drop_last(), p, v);
    }
}

/// The stream whose head merges next, considering only streams `0..n`:
/// the lowest-index non-empty stream with the minimal head timestamp, or
/// `-1` when all of them are empty.
pub open spec fn spec_best_upto(ss: Seq<Seq<Hit>>, n: int) -> int
    decreases n,
{
    if n <= 0 {
        -1
    } else {
        let b = spec_best_upto(ss, n - 1);
        if ss[n - 1].len() == 0 {
            b
        } else if b == -1 {
            n - 1
        } else if ss[n - 1][0].timestamp_ps < ss[b][0].timestamp_ps {
            n - 1
        } else {
            b
        }
    }
}

proof fn lemma_best_upto_props(ss: Seq<Seq<Hit>>, n: int)
    requires
        0 <= n <= ss.len(),
    ensures
        -1 <= spec_best_upto(ss, n) < n,
        spec_best_upto(ss, n) == -1 ==> forall|j: int| 0 <= j < n ==> (#[trigger] ss[j]).len() == 0,
        spec_best_upto(ss, n) != -1 ==> ss[spec_best_upto(ss, n)].len() > 0,
        spec_best_upto(ss, n) != -1 ==> forall|j: int|
            0 <= j < n && (#[trigger] ss[j]).len() > 0 ==> ss[spec_best_upto(
                ss,
                n,
            )][0].timestamp_ps <= ss[j][0].timestamp_ps,
        spec_best_upto(ss, n) != -1 ==> forall|j: int|
            0 <= j < n && (#[trigger] ss[j]).len() > 0 && ss[j][0].timestamp_ps
                == ss[spec_best_upto(ss, n)][0].timestamp_ps ==> spec_best_upto(ss, n) <= j,
    decreases n,
{
    if n > 0 {
        lemma_best_upto_props(ss, n - 1);
    }
}

/// Removes the merged head of stream `p`.
pub open spec fn spec_advance(ss: Seq<Seq<Hit>>, p: int) -> Seq<Seq<Hit>> {
    ss.update(p, ss[p].skip(1))
}

/// The merged output: repeatedly take the head of the best stream.
pub open spec fn spec_merge(ss: Seq<Seq<Hit>>) -> Seq<Hit>
    decreases spec_total_len(ss) via merge_decreases
{
    let p = spec_best_upto(ss, ss.len() as int);
    if p == -1 {
        Seq::empty()
    } else {
        seq![ss[p][0]] + spec_merge(spec_advance(ss, p))
    }
}

#[via_fn]
proof fn merge_decreases(ss: Seq<Seq<Hit>>) {
    let p = spec_best_upto(ss, ss.len() as int);
    lemma_best_upto_props(ss, ss.len() as int);
    if p != -1 {
        lemma_total_len_update(ss, p, ss[p].skip(1));
        lemma_total_len_nonneg(spec_advance(ss, p));
    }
}

/// Merges the per-file streams into a single sequence, earliest hit first,
/// ties broken by the lower stream index.
pub fn merge_streams(streams: &Vec<Vec<Hit>>) -> (r: Vec<Hit>)
    ensures
        r@ == spec_merge(streams@.map_values(|v: Vec<Hit>| v@)),
{
    let ghost full = streams@.map_values(|v: Vec<Hit>| v@);
    let k = streams.len();
    let mut idx: Vec<usize> = Vec::new();
    let mut j: usize = 0;
    while j < k
        invariant
            0 <= j <= k,
            idx@.len() == j,
            forall|t: int| 0 <= t < j ==> idx@[t] == 0,
        decreases k - j,
    {
        idx.push(0);
        j = j + 1;
    }
    let mut r: Vec<Hit> = Vec::new();
    let ghost rem0 = Seq::new(full.len(), |i: int| full[i].skip(idx@[i] as int));
    proof {
        assert(rem0 =~~= full) by {
            assert forall|i: int| 0 <= i < full.len() implies rem0[i] =~= full[i] by {
                assert(full[i].skip(0) =~= full[i]);
            }
        }
        lemma_total_len_nonneg(full);
    }
    loop
        invariant
            streams@.map_values(|v: Vec<Hit>| v@) == full,
            k == streams@.len(),
            idx@.len() == k,
            forall|t: int| 0 <= t < k ==> 0 <= #[trigger] idx@[t] <= full[t].len(),
            spec_merge(full) == r@ + spec_merge(
                Seq::new(full.len(), |i: int| full[i].skip(idx@[i] as int)),
            ),
        ensures
            spec_merge(full) == r@ + spec_merge(
                Seq::new(full.len(), |i: int| full[i].skip(idx@[i] as int)),
            ),
            spec_best_upto(
                Seq::new(full.len(), |i: int| full[i].skip(idx@[i] as int)),
                full.len() as int,
            ) == -1,
        decreases spec_total_len(Seq::new(full.len(), |i: int| full[i].skip(idx@[i] as int))),
    {
        let ghost rem = Seq::new(full.len(), |i: int| full[i].skip(idx@[i] as int));
        let mut best: usize = k;
        let mut s: usize = 0;
        while s < k
            invariant
                0 <= s <= k,
                k == streams@.len(),
                streams@.map_values(|v: Vec<Hit>| v@) == full,
                idx@.len() == k,
                forall|t: int| 0 <= t < k ==> 0 <= #[trigger] idx@[t] <= full[t].len(),
                rem == Seq::new(full.len(), |i: int| full[i].skip(idx@[i] as int)),
                best <= k,
                spec_best_upto(rem, s as int) == -1 ==> best == k,
                spec_best_upto(rem, s as int) != -1 ==> best == spec_best_upto(rem, s as int),
                best < k ==> idx@[best as int] < full[best as int].len(),
            decreases k - s,
        {
            proof {
                lemma_best_upto_props(rem, s as int);
                assert(full[s as int] == streams@[s as int]@);
                assert(rem[s as int] == full[s as int].skip(idx@[s as int] as int));
            }
            if idx[s] < streams[s].len() {
                if best == k {
                    best = s;
                } else {
                    proof {
                        assert(full[best as int] == streams@[best as int]@);
                    }
                    let hs = streams[s][idx[s]];
                    let hb = streams[best][idx[best]];
                    proof {
                        assert(rem[s as int][0] == full[s as int][idx@[s as int] as int]);
                        assert(rem[best as int][0] == full[best as int][idx@[best as int] as int]);
                    }
                    if hs.timestamp_ps < hb.timestamp_ps {
                        best = s;
                    }
                }
            }
            proof {
                let b = spec_best_upto(rem, s as int);
                assert(spec_best_upto(rem, s as int + 1) == (if rem[s as int].len() == 0 {
                    b
                } else if b == -1 {
                    s as int
                } else if rem[s as int][0].timestamp_ps < rem[b][0].timestamp_ps {
                    s as int
                } else {
                    b
                }));
            }
            s = s + 1;
        }
        proof {
            lemma_best_upto_props(rem, k as int);
        }
        if best == k {
            proof {
                assert(spec_best_upto(rem, full.len() as int) == -1);
            }
            break;
        }
        proof {
            assert(full[best as int] == streams@[best as int]@);
            assert(rem[best as int][0] == full[best as int][idx@[best as int] as int]);
        }
        let lb = streams[best].len();
        let cur = idx[best];
        let h = streams[best][cur];
        r.push(h);
        let ghost old_idx = idx@;
        let next = cur + 1;
        idx.set(best, next);
        proof {
            let rem2 = Seq::new(full.len(), |i: int| full[i].skip(idx@[i] as int));
            assert(rem2 =~= spec_advance(rem, best as int)) by {
                assert forall|i: int| 0 <= i < full.len() implies rem2[i] == spec_advance(
                    rem,
                    best as int,
                )[i] by {
                    if i == best as int {
                        assert(rem2[i] =~= rem[i].skip(1));
                    } else {
                        assert(idx@[i] == old_idx[i]);
                    }
                }
            }
            assert(seq![rem[best as int][0]] + spec_merge(spec_advance(rem, best as int))
                == spec_merge(rem));
            assert(r@ + spec_merge(rem2) =~= spec_merge(full)) by {
                assert(r@ =~= r@.drop_last().push(h));
                assert(r@.drop_last() + (seq![h] + spec_merge(rem2)) =~= r@ + spec_merge(rem2));
            }
            lemma_total_len_update(rem, best as int, rem[best as int].skip(1));
            lemma_total_len_nonneg(rem2);
        }
    }
    proof {
        let rem = Seq::new(full.len(), |i: int| full[i].skip(idx@[i] as int));
        assert(rem.len() == full.len());
        assert(spec_merge(rem) =~= Seq::<Hit>::empty());
        assert(r@ + Seq::<Hit>::empty() =~= r@);
    }
    r
}

/// A sequence is in non-decreasing timestamp order.
pub open spec fn sorted_by_timestamp(hits: Seq<Hit>) -> bool {
    forall|j: int|
        0 <= j < hits.len() - 1 ==> (#[trigger] hits[j]).timestamp_ps <= hits[j + 1].timestamp_ps
}

/// If the merged output is non-empty, its first hit is the head of the best
/// stream.
proof fn lemma_merge_head(ss: Seq<Seq<Hit>>)
    requires
        spec_best_upto(ss, ss.len() as int) != -1,
    ensures
        spec_merge(ss).len() > 0,
        spec_merge(ss)[0] == ss[spec_best_upto(ss, ss.len() as int)][0],
{
}

/// The merger's ordering guarantee: when every input stream is in
/// non-decreasing timestamp order, so is the merged output.
#[verifier::rlimit(100)]
pub proof fn lemma_merge_sorted(ss: Seq<Seq<Hit>>)
    requires
        forall|i: int| 0 <= i < ss.len() ==> sorted_by_timestamp(#[trigger] ss[i]),
    ensures
        sorted_by_timestamp(spec_merge(ss)),
    decreases spec_total_len(ss),
{
    let n = ss.len() as int;
    let p = spec_best_upto(ss, n);
    lemma_best_upto_props(ss, n);
    if p != -1 {
        let adv = spec_advance(ss, p);
        let m = ss[p][0];
        let tail = spec_merge(adv);
        proof_total_decrease(ss, p);
        assert forall|i: int| 0 <= i < adv.len() implies sorted_by_timestamp(#[trigger] adv[i]) by {
            if i == p {
                assert forall|j: int|
                    0 <= j < adv[i].len() - 1 implies (#[trigger] adv[i][j]).timestamp_ps
                    <= adv[i][j + 1].timestamp_ps by {
                    assert(adv[i][j] == ss[p][j + 1] && adv[i][j + 1] == ss[p][j + 2]);
                    assert(sorted_by_timestamp(ss[p]));
                }
            }
        }
        lemma_merge_sorted(adv);
        if tail.len() > 0 {
            let q = spec_best_upto(adv, n);
            lemma_best_upto_props(adv, n);
            if q == -1 {
                assert(tail =~= Seq::<Hit>::empty());
            }
            lemma_merge_head(adv);
            assert(tail[0] == adv[q][0]);
            assert(m.timestamp_ps <= adv[q][0].timestamp_ps) by {
                if q == p {
                    assert(adv[q][0] == ss[p][1]);
                    assert(sorted_by_timestamp(ss[p]));
                } else {
                    assert(adv[q] == ss[q]);
                }
            }
        }
        let whole = spec_merge(ss);
        assert(whole == seq![m] + tail);
        assert forall|j: int| 0 <= j < whole.len() - 1 implies (#[trigger] whole[j]).timestamp_ps
            <= whole[j + 1].timestamp_ps by {
            if j == 0 {
                assert(whole[0] == m && whole[1] == tail[0]);
            } else {
                assert(whole[j] == tail[j - 1] && whole[j + 1] == tail[(j - 1) + 1]);
                assert(tail[j - 1].timestamp_ps <= tail[(j - 1) + 1].timestamp_ps);
            }
        }
    }
}

proof fn proof_total_decrease(ss: Seq<Seq<Hit>>, p: int)
    requires
        0 <= p < ss.len(),
        ss[p].len() > 0,
    ensures
        spec_total_len(spec_advance(ss, p)) == spec_total_len(ss) - 1,
        spec_total_len(ss) >= 1,
{
    lemma_total_len_update(ss, p, ss[p].skip(1));
    lemma_total_len_nonneg(spec_advance(ss, p));
}

/// Sum of the multisets of all streams.
pub open spec fn spec_streams_multiset(ss: Seq<Seq<Hit>>) -> Multiset<Hit>
    decreases ss.len(),
{
    if ss.len() == 0 {
        Multiset::empty()
    } else {
        spec_streams_multiset(ss.drop_last()).add(ss.last().to_multiset())
    }
}

proof fn lemma_streams_multiset_update(ss: Seq<Seq<Hit>>, p: int, v: Seq<Hit>)
    requires
        0 <= p < ss.len(),
    ensures
        spec_streams_multiset(ss.update(p, v)).add(ss[p].to_multiset()) == spec_streams_multiset(
            ss,
        ).add(v.to_multiset()),
    decreases ss.len(),
{
    broadcast use vstd::multiset::group_multiset_axioms;

    let u = ss.update(p, v);
    if p == ss.len() - 1 {
        assert(u.drop_last() =~= ss.drop_last());
        assert(u.last() == v);
        assert(spec_streams_multiset(u) == spec_streams_multiset(ss.drop_last()).add(
            v.to_multiset(),
        ));
        assert(spec_streams_multiset(ss) == spec_streams_multiset(ss.drop_last()).add(
            ss[p].to_multiset(),
        ));
        assert(spec_streams_multiset(u).add(ss[p].to_multiset()) =~= spec_streams_multiset(ss).add(
            v.to_multiset(),
        ));
    } else {
        assert(u.drop_last() =~= ss.drop_last().update(p, v));
        assert(u.last() == ss.last());
        lemma_streams_multiset_update(ss.drop_last(), p, v);
        assert(spec_streams_multiset(u) == spec_streams_multiset(ss.drop_last().update(p, v)).add(
            ss.last().to_multiset(),
        ));
        assert(spec_streams_multiset(ss) == spec_streams_multiset(ss.drop_last()).add(
            ss.last().to_multiset(),
        ));
        assert(ss.drop_last()[p] == ss[p]);
        assert forall|x: Hit|
            spec_streams_multiset(u).add(ss[p].to_multiset()).count(x) == spec_streams_multiset(
                ss,
            ).add(v.to_multiset()).count(x) by {
            assert(spec_streams_multiset(ss.drop_last().update(p, v)).add(
                ss.drop_last()[p].to_multiset(),
            ).count(x) == spec_streams_multiset(ss.drop_last()).add(v.to_multiset()).count(x));
        }
        assert(spec_streams_multiset(u).add(ss[p].to_multiset()) =~= spec_streams_multiset(ss).add(
            v.to_multiset(),
        ));
    }
}

/// Hit conservation: the merged output holds exactly the hits of the input
/// streams, each as often as it occurs there.
pub proof fn lemma_merge_multiset(ss: Seq<Seq<Hit>>)
    ensures
        spec_merge(ss).to_multiset() == spec_streams_multiset(ss),
    decreases spec_total_len(ss),
{
    broadcast use vstd::seq_lib::group_to_multiset_ensures;
    broadcast use vstd::multiset::group_multiset_axioms;

    let n = ss.len() as int;
    let p = spec_best_upto(ss, n);
    lemma_best_upto_props(ss, n);
    if p == -1 {
        assert(spec_merge(ss).to_multiset() =~= Multiset::<Hit>::empty());
        lemma_streams_multiset_all_empty(ss);
    } else {
        let adv = spec_advance(ss, p);
        let m = ss[p][0];
        let sk = ss[p].skip(1);
        proof_total_decrease(ss, p);
        lemma_merge_multiset(adv);
        lemma_streams_multiset_update(ss, p, sk);
        vstd::seq_lib::lemma_multiset_commutative(seq![m], spec_merge(adv));
        assert(spec_merge(ss) == seq![m] + spec_merge(adv));
        assert(spec_merge(ss).to_multiset() == seq![m].to_multiset().add(
            spec_merge(adv).to_multiset(),
        ));
        assert(ss[p] =~= seq![m] + sk);
        vstd::seq_lib::lemma_multiset_commutative(seq![m], sk);
        assert(ss[p].to_multiset() == seq![m].to_multiset().add(sk.to_multiset()));
        assert forall|x: Hit|
            spec_merge(ss).to_multiset().count(x) == spec_streams_multiset(ss).count(x) by {
            assert(spec_streams_multiset(adv).add(ss[p].to_multiset()).count(x)
                == spec_streams_multiset(ss).add(sk.to_multiset()).count(x));
        }
        assert(spec_merge(ss).to_multiset() =~= spec_streams_multiset(ss));
    }
}

proof fn lemma_streams_multiset_all_empty(ss: Seq<Seq<Hit>>)
    requires
        forall|j: int| 0 <= j < ss.len() ==> (#[trigger] ss[j]).len() == 0,
    ensures
        spec_streams_multiset(ss) == Multiset::<Hit>::empty(),
    decreases ss.len(),
{
    broadcast use vstd::seq_lib::group_to_multiset_ensures;
    broadcast use vstd::multiset::group_multiset_axioms;

    if ss.len() > 0 {
        lemma_streams_multiset_all_empty(ss.drop_last());
        assert(ss.last().to_multiset().len() == 0);
        assert(spec_streams_multiset(ss) =~= Multiset::<Hit>::empty());
    }
}

} // verus!
