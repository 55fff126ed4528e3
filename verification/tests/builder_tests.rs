use evb::event_builder::build_events;
use evb::hit::Hit;
use evb::merger::merge_streams;

fn at(ts: u64) -> Hit {
    Hit {
        board: 0,
        channel: 0,
        timestamp_ps: ts,
        energy: 0,
        energy_short: 0,
        flags: 0,
        n_samples: 0,
    }
}

fn stamp(board: u16, ts: u64) -> Hit {
    Hit {
        board,
        channel: 0,
        timestamp_ps: ts,
        energy: 0,
        energy_short: 0,
        flags: 0,
        n_samples: 0,
    }
}

const W: u64 = 3_000_000; // 3000 ns in picoseconds

#[test]
fn two_hits_exactly_window_apart_join() {
    let hits = vec![at(0), at(W)];
    let events = build_events(&hits, W);
    assert_eq!(events.len(), 1);
    assert_eq!(events[0].len(), 2);
}

#[test]
fn two_hits_just_past_window_split() {
    let hits = vec![at(0), at(W + 1)];
    let events = build_events(&hits, W);
    assert_eq!(events.len(), 2);
    assert_eq!(events[0], vec![at(0)]);
    assert_eq!(events[1], vec![at(W + 1)]);
}

#[test]
fn zero_window_makes_singleton_events() {
    let hits = vec![at(10), at(20), at(30), at(40)];
    let events = build_events(&hits, 0);
    assert_eq!(events.len(), 4);
    for (i, e) in events.iter().enumerate() {
        assert_eq!(e.len(), 1);
        assert_eq!(e[0], hits[i]);
    }
}

#[test]
fn sliding_chain_extends_the_window() {
    // 0, 2000, 3500, 5500, 10000 ns with W = 3000 ns:
    // each of the first four is within 3000 ns of its predecessor
    let ns = |t: u64| t * 1000;
    let hits = vec![at(ns(0)), at(ns(2000)), at(ns(3500)), at(ns(5500)), at(ns(10_000))];
    let events = build_events(&hits, W);
    assert_eq!(events.len(), 2);
    assert_eq!(events[0].len(), 4);
    assert_eq!(events[1], vec![at(ns(10_000))]);
}

#[test]
fn empty_stream_yields_no_events() {
    let events = build_events(&Vec::new(), W);
    assert!(events.is_empty());
}

#[test]
fn every_hit_lands_in_exactly_one_event() {
    let hits = vec![at(0), at(1), at(10), at(5_000_000), at(5_000_001), at(99_000_000)];
    let events = build_events(&hits, W);
    let flat: Vec<Hit> = events.into_iter().flatten().collect();
    assert_eq!(flat, hits);
}

#[test]
fn merge_outputs_nondecreasing_timestamps() {
    let streams = vec![
        vec![stamp(0, 100), stamp(0, 400), stamp(0, 900)],
        vec![stamp(1, 50), stamp(1, 400), stamp(1, 1000)],
        vec![],
        vec![stamp(3, 700)],
    ];
    let merged = merge_streams(&streams);
    assert_eq!(merged.len(), 7);
    for w in merged.windows(2) {
        assert!(w[0].timestamp_ps <= w[1].timestamp_ps);
    }
}

#[test]
fn merge_breaks_ties_by_stream_index() {
    let streams = vec![vec![stamp(7, 1000)], vec![stamp(8, 1000), stamp(8, 2000)]];
    let merged = merge_streams(&streams);
    assert_eq!(
        merged,
        vec![stamp(7, 1000), stamp(8, 1000), stamp(8, 2000)]
    );
}

#[test]
fn merge_of_no_streams_is_empty() {
    let merged = merge_streams(&Vec::new());
    assert!(merged.is_empty());
}
