//! Coincidence event builder.
//!
//! Hits arrive in time order from the merger; a sliding coincidence window
//! groups them into events. The first hit of an event opens the window; every
//! later hit that lands within `window_ps` of the previously accepted hit
//! extends the event (and the window), and the first hit that does not closes
//! the event and opens a new one.

use vstd::prelude::*;

use crate::hit::Hit;

verus! {

/// `next` falls inside the coincidence window opened by `prev`.
pub open spec fn in_window(prev: Hit, next: Hit, window_ps: u64) -> bool {
    next.timestamp_ps <= prev.timestamp_ps + window_ps
}

/// Every consecutive pair of `hits` is within the window: the defining
/// property of one event.
pub open spec fn is_chain(hits: Seq<Hit>, window_ps: u64) -> bool {
    forall|j: int| 0 <= j < hits.len() - 1 ==> in_window(#[trigger] hits[j], hits[j + 1], window_ps)
}

/// Length of the longest chained prefix of `hits`: how many hits the first
/// emitted event takes.
pub open spec fn spec_chain_len(hits: Seq<Hit>, window_ps: u64) -> int
    decreases hits.len(),
{
    if hits.len() <= 1 {
        hits.len() as int
    } else if in_window(hits[0], hits[1], window_ps) {
        1 + spec_chain_len(hits.skip(1), window_ps)
    } else {
        1
    }
}

pub proof fn lemma_chain_len_bounds(hits: Seq<Hit>, window_ps: u64)
    ensures
        spec_chain_len(hits, window_ps) <= hits.len(),
        hits.len() > 0 ==> 1 <= spec_chain_len(hits, window_ps),
    decreases hits.len(),
{
    if hits.len() > 1 && in_window(hits[0], hits[1], window_ps) {
        lemma_chain_len_bounds(hits.skip(1), window_ps);
    }
}

/// The grouping of a hit stream into events.
pub open spec fn spec_group_events(hits: Seq<Hit>, window_ps: u64) -> Seq<Seq<Hit>>
    decreases hits.len() via group_events_decreases
{
    if hits.len() == 0 {
        Seq::empty()
    } else {
        let n = spec_chain_len(hits, window_ps);
        seq![hits.take(n)] + spec_group_events(hits.skip(n), window_ps)
    }
}

#[via_fn]
proof fn group_events_decreases(hits: Seq<Hit>, window_ps: u64) {
    if hits.len() > 0 {
        lemma_chain_len_bounds(hits, window_ps);
    }
}

/// A chain that is not extended by what follows it forms exactly the first
/// event of the grouping.
proof fn lemma_chain_len_complete(c: Seq<Hit>, rest: Seq<Hit>, window_ps: u64)
    requires
        is_chain(c, window_ps),
        c.len() >= 1,
        rest.len() == 0 || !in_window(c.last(), rest[0], window_ps),
    ensures
        spec_chain_len(c + rest, window_ps) == c.len(),
    decreases c.len(),
{
    let s = c + rest;
    if c.len() == 1 {
        if rest.len() == 0 {
            assert(s =~= c);
        } else {
            assert(s[0] == c[0] && s[1] == rest[0]);
            assert(!in_window(s[0], s[1], window_ps));
        }
    } else {
        assert(s[0] == c[0] && s[1] == c[1]);
        assert(in_window(s[0], s[1], window_ps));
        assert(s.skip(1) =~= c.skip(1) + rest);
        assert(is_chain(c.skip(1), window_ps)) by {
            assert forall|j: int| 0 <= j < c.skip(1).len() - 1 implies in_window(
                #[trigger] c.skip(1)[j],
                c.skip(1)[j + 1],
                window_ps,
            ) by {
                assert(c.skip(1)[j] == c[j + 1] && c.skip(1)[j + 1] == c[j + 2]);
            }
        }
        assert(c.skip(1).last() == c.last());
        lemma_chain_len_complete(c.skip(1), rest, window_ps);
    }
}

/// Emitting a finished chain: the grouping of `c + rest` is `c` followed by
/// the grouping of `rest`.
proof fn lemma_group_emit(c: Seq<Hit>, rest: Seq<Hit>, window_ps: u64)
    requires
        is_chain(c, window_ps),
        c.len() >= 1,
        rest.len() == 0 || !in_window(c.last(), rest[0], window_ps),
    ensures
        spec_group_events(c + rest, window_ps) == seq![c] + spec_group_events(rest, window_ps),
{
    let s = c + rest;
    lemma_chain_len_complete(c, rest, window_ps);
    assert(s.take(c.len() as int) =~= c);
    assert(s.skip(c.len() as int) =~= rest);
}

/// Groups a time-ordered hit stream into coincidence events.
pub fn build_events(hits: &Vec<Hit>, window_ps: u64) -> (events: Vec<Vec<Hit>>)
    ensures
        events@.map_values(|e: Vec<Hit>| e@) == spec_group_events(hits@, window_ps),
{
    let ghost all = hits@;
    let mut events: Vec<Vec<Hit>> = Vec::new();
    let mut current: Vec<Hit> = Vec::new();
    let mut i: usize = 0;
    proof {
        assert(current@ + all.skip(0) =~= all);
        assert(events@.map_values(|e: Vec<Hit>| e@) =~= Seq::<Seq<Hit>>::empty());
        assert(Seq::<Seq<Hit>>::empty() + spec_group_events(all, window_ps) =~= spec_group_events(
            all,
            window_ps,
        ));
    }
    while i < hits.len()
        invariant
            0 <= i <= hits@.len(),
            i == 0 ==> current@.len() == 0 && events@.len() == 0,
            i > 0 ==> current@.len() >= 1,
            is_chain(current@, window_ps),
            spec_group_events(all, window_ps) == events@.map_values(|e: Vec<Hit>| e@)
                + spec_group_events(current@ + all.skip(i as int), window_ps),
            all == hits@,
        decreases hits@.len() - i,
    {
        let h = hits[i];
        if current.len() == 0 {
            current.push(h);
            proof {
                assert(current@ + all.skip(i + 1) =~= all.skip(i as int));
            }
        } else {
            let last = current[current.len() - 1];
            let joins = h.timestamp_ps <= last.timestamp_ps || h.timestamp_ps - last.timestamp_ps
                <= window_ps;
            proof {
                assert(joins == in_window(current@.last(), all.skip(i as int)[0], window_ps));
            }
            if joins {
                let ghost prev = current@;
                current.push(h);
                proof {
                    assert(is_chain(current@, window_ps)) by {
                        assert forall|j: int| 0 <= j < current@.len() - 1 implies in_window(
                            #[trigger] current@[j],
                            current@[j + 1],
                            window_ps,
                        ) by {
                            if j < prev.len() - 1 {
                                assert(current@[j] == prev[j] && current@[j + 1] == prev[j + 1]);
                            } else {
                                assert(current@[j] == prev.last() && current@[j + 1] == h);
                            }
                        }
                    }
                    assert(current@ + all.skip(i + 1) =~= prev + all.skip(i as int));
                }
            } else {
                proof {
                    lemma_group_emit(current@, all.skip(i as int), window_ps);
                }
                let ghost prev_events = events@;
                let ghost done = current@;
                let mut fresh: Vec<Hit> = Vec::new();
                fresh.push(h);
                events.push(current);
                current = fresh;
                proof {
                    assert(events@.map_values(|e: Vec<Hit>| e@) =~= prev_events.map_values(
                        |e: Vec<Hit>| e@,
                    ) + seq![done]);
                    assert(current@ + all.skip(i + 1) =~= all.skip(i as int));
                }
            }
        }
        i = i + 1;
    }
    if current.len() > 0 {
        proof {
            assert(current@ + all.skip(i as int) =~= current@);
            lemma_group_emit(current@, Seq::<Hit>::empty(), window_ps);
            assert(current@ + Seq::<Hit>::empty() =~= current@);
        }
        let ghost prev_events = events@;
        let ghost done = current@;
        events.push(current);
        proof {
            assert(events@.map_values(|e: Vec<Hit>| e@) =~= prev_events.map_values(
                |e: Vec<Hit>| e@,
            ) + seq![done]);
            assert(spec_group_events(Seq::<Hit>::empty(), window_ps) =~= Seq::<Seq<Hit>>::empty());
        }
    } else {
        proof {
            assert(current@ + all.skip(i as int) =~= Seq::<Hit>::empty());
        }
    }
    proof {
        assert(events@.map_values(|e: Vec<Hit>| e@) =~= spec_group_events(all, window_ps));
    }
    events
}

/// Within every emitted event, each hit lies inside the window opened by the
/// one before it: consecutive timestamp gaps never exceed the window.
pub proof fn lemma_event_gaps_bounded(hits: Seq<Hit>, window_ps: u64)
    ensures
        forall|k: int|
            0 <= k < spec_group_events(hits, window_ps).len() ==> is_chain(
                #[trigger] spec_group_events(hits, window_ps)[k],
                window_ps,
            ),
    decreases hits.len(),
{
    if hits.len() > 0 {
        let n = spec_chain_len(hits, window_ps);
        lemma_chain_len_bounds(hits, window_ps);
        lemma_chain_prefix_is_chain(hits, window_ps);
        lemma_event_gaps_bounded(hits.skip(n), window_ps);
        let g = spec_group_events(hits, window_ps);
        let gr = spec_group_events(hits.skip(n), window_ps);
        assert forall|k: int| 0 <= k < g.len() implies is_chain(#[trigger] g[k], window_ps) by {
            if k == 0 {
                assert(g[0] == hits.take(n));
            } else {
                assert(g[k] == gr[k - 1]);
            }
        }
    }
}

/// The chained prefix really is a chain.
proof fn lemma_chain_prefix_is_chain(hits: Seq<Hit>, window_ps: u64)
    ensures
        is_chain(hits.take(spec_chain_len(hits, window_ps)), window_ps),
    decreases hits.len(),
{
    let n = spec_chain_len(hits, window_ps);
    if hits.len() > 1 && in_window(hits[0], hits[1], window_ps) {
        lemma_chain_prefix_is_chain(hits.skip(1), window_ps);
        lemma_chain_len_bounds(hits, window_ps);
        lemma_chain_len_bounds(hits.skip(1), window_ps);
        let m = spec_chain_len(hits.skip(1), window_ps);
        let p = hits.take(n);
        let q = hits.skip(1).take(m);
        assert forall|j: int| 0 <= j < p.len() - 1 implies in_window(#[trigger] p[j], p[j + 1], window_ps) by {
            if j == 0 {
                assert(p[0] == hits[0] && p[1] == hits[1]);
            } else {
                lemma_chain_len_bounds(hits.skip(1), window_ps);
                assert(q[j - 1] == hits.skip(1)[j - 1] && q[j] == hits.skip(1)[j]);
                assert(p[j] == hits[j] && p[j + 1] == hits[j + 1]);
                assert(hits.skip(1)[j - 1] == hits[j] && hits.skip(1)[j] == hits[j + 1]);
                assert(in_window(q[j - 1], q[j], window_ps));
            }
        }
    }
}

/// Every hit of the input stream lands in exactly one emitted event, in
/// order: concatenating the events gives back the input.
pub proof fn lemma_events_partition_hits(hits: Seq<Hit>, window_ps: u64)
    ensures
        spec_group_events(hits, window_ps).flatten() == hits,
    decreases hits.len(),
{
    if hits.len() == 0 {
        assert(spec_group_events(hits, window_ps).flatten() =~= hits);
    } else {
        let n = spec_chain_len(hits, window_ps);
        lemma_chain_len_bounds(hits, window_ps);
        lemma_events_partition_hits(hits.skip(n), window_ps);
        let g = spec_group_events(hits, window_ps);
        let gr = spec_group_events(hits.skip(n), window_ps);
        assert(g == seq![hits.take(n)] + gr);
        assert(g.first() == hits.take(n));
        assert(g.drop_first() =~= gr);
        assert(g.flatten() == hits.take(n) + gr.flatten());
        assert(hits.take(n) + hits.skip(n) =~= hits);
    }
}

/// With a zero window, a stream of strictly increasing timestamps yields one
/// event per hit.
pub proof fn lemma_zero_window_singletons(hits: Seq<Hit>)
    requires
        forall|j: int| 0 <= j < hits.len() - 1 ==> (#[trigger] hits[j]).timestamp_ps < hits[j + 1].timestamp_ps,
    ensures
        spec_group_events(hits, 0) == hits.map_values(|h: Hit| seq![h]),
    decreases hits.len(),
{
    if hits.len() == 0 {
        assert(spec_group_events(hits, 0) =~= hits.map_values(|h: Hit| seq![h]));
    } else {
        assert(spec_chain_len(hits, 0) == 1);
        assert forall|j: int| 0 <= j < hits.skip(1).len() - 1 implies (#[trigger] hits.skip(
            1,
        )[j]).timestamp_ps < hits.skip(1)[j + 1].timestamp_ps by {
            assert(hits.skip(1)[j] == hits[j + 1] && hits.skip(1)[j + 1] == hits[j + 2]);
        }
        lemma_zero_window_singletons(hits.skip(1));
        assert(hits.take(1) =~= seq![hits[0]]);
        assert(spec_group_events(hits, 0) =~= hits.map_values(|h: Hit| seq![h])) by {
            assert(spec_group_events(hits, 0) == seq![hits.take(1)] + spec_group_events(
                hits.skip(1),
                0,
            ));
        }
    }
}

/// When the input is time-ordered, consecutive events are separated by more
/// than the window: the first hit of each event lies strictly outside the
/// window opened by the last hit of the event before it.
pub proof fn lemma_events_separated(hits: Seq<Hit>, window_ps: u64)
    requires
        forall|j: int|
            0 <= j < hits.len() - 1 ==> (#[trigger] hits[j]).timestamp_ps <= hits[j + 1].timestamp_ps,
    ensures
        forall|k: int|
            0 <= k < spec_group_events(hits, window_ps).len() - 1 ==> (
            #[trigger] spec_group_events(hits, window_ps)[k + 1])[0].timestamp_ps > spec_group_events(
                hits,
                window_ps,
            )[k].last().timestamp_ps + window_ps,
    decreases hits.len(),
{
    if hits.len() > 0 {
        let n = spec_chain_len(hits, window_ps);
        lemma_chain_len_bounds(hits, window_ps);
        lemma_chain_len_breaks(hits, window_ps);
        assert forall|j: int| 0 <= j < hits.skip(n).len() - 1 implies (#[trigger] hits.skip(
            n,
        )[j]).timestamp_ps <= hits.skip(n)[j + 1].timestamp_ps by {
            assert(hits.skip(n)[j] == hits[j + n] && hits.skip(n)[j + 1] == hits[j + n + 1]);
        }
        lemma_events_separated(hits.skip(n), window_ps);
        let g = spec_group_events(hits, window_ps);
        let gr = spec_group_events(hits.skip(n), window_ps);
        assert forall|k: int| 0 <= k < g.len() - 1 implies (#[trigger] g[k + 1])[0].timestamp_ps
            > g[k].last().timestamp_ps + window_ps by {
            if k == 0 {
                assert(gr.len() >= 1);
                if hits.skip(n).len() == 0 {
                    assert(gr =~= Seq::<Seq<Hit>>::empty());
                }
                assert(n < hits.len());
                assert(!in_window(hits[n - 1], hits[n], window_ps));
                lemma_group_first_event_first_hit(hits.skip(n), window_ps);
                assert(g[0] == hits.take(n) && g[1] == gr[0]);
                assert(gr[0][0] == hits.skip(n)[0]);
                assert(hits.skip(n)[0] == hits[n]);
                assert(g[0].last() == hits[n - 1]);
                assert(g[1][0].timestamp_ps > g[0].last().timestamp_ps + window_ps);
            } else {
                assert(g[k] == gr[k - 1] && g[k + 1] == gr[k]);
                assert(gr[(k - 1) + 1][0].timestamp_ps > gr[k - 1].last().timestamp_ps
                    + window_ps);
            }
        }
    }
}

/// If the chained prefix does not take the whole stream, the hit after it is
/// strictly outside the window of the prefix's last hit (for time-ordered
/// streams this is how an event closes).
proof fn lemma_chain_len_breaks(hits: Seq<Hit>, window_ps: u64)
    requires
        forall|j: int|
            0 <= j < hits.len() - 1 ==> (#[trigger] hits[j]).timestamp_ps <= hits[j + 1].timestamp_ps,
    ensures
        spec_chain_len(hits, window_ps) < hits.len() ==> !in_window(
            hits[spec_chain_len(hits, window_ps) - 1],
            hits[spec_chain_len(hits, window_ps)],
            window_ps,
        ),
    decreases hits.len(),
{
    let n = spec_chain_len(hits, window_ps);
    if hits.len() > 1 && in_window(hits[0], hits[1], window_ps) {
        assert forall|j: int| 0 <= j < hits.skip(1).len() - 1 implies (#[trigger] hits.skip(
            1,
        )[j]).timestamp_ps <= hits.skip(1)[j + 1].timestamp_ps by {
            assert(hits.skip(1)[j] == hits[j + 1] && hits.skip(1)[j + 1] == hits[j + 2]);
        }
        lemma_chain_len_breaks(hits.skip(1), window_ps);
        lemma_chain_len_bounds(hits.skip(1), window_ps);
        let m = spec_chain_len(hits.skip(1), window_ps);
        if n < hits.len() {
            assert(m < hits.skip(1).len());
            assert(hits.skip(1)[m - 1] == hits[n - 1] && hits.skip(1)[m] == hits[n]);
        }
    }
}

/// The first event of a non-empty grouping starts with the first hit.
proof fn lemma_group_first_event_first_hit(hits: Seq<Hit>, window_ps: u64)
    requires
        hits.len() > 0,
    ensures
        spec_group_events(hits, window_ps).len() > 0,
        spec_group_events(hits, window_ps)[0].len() > 0,
        spec_group_events(hits, window_ps)[0][0] == hits[0],
{
    lemma_chain_len_bounds(hits, window_ps);
    let n = spec_chain_len(hits, window_ps);
    assert(spec_group_events(hits, window_ps)[0] == hits.take(n));
}

} // verus!
