//! The per-run pipeline: decode every file, merge, group, project.
//!
//! A file that fails to decode poisons only its own stream: the run
//! continues with the remaining streams and reports how many failed. The
//! surviving hits are shift-corrected, merged into one time-ordered
//! sequence, grouped into coincidence events, and projected row by row onto
//! the filtered schema.

use vstd::prelude::*;

use crate::channel_data::ChannelData;
use crate::channel_data::spec_event_row;
use crate::channel_data::spec_filtered_fields;
use crate::channel_map::ChannelMap;
use crate::decoder::decode_file;
use crate::decoder::spec_decode_file;
use crate::event_builder::build_events;
use crate::event_builder::spec_group_events;
use crate::hit::Hit;
use crate::merger::merge_streams;
use crate::merger::spec_merge;
use crate::shift_map::ShiftMap;
use crate::shift_map::ShiftMapEntry;
use crate::shift_map::apply_shifts;
use crate::shift_map::spec_shift_hit;

verus! {

/// One stream after decode and shift correction.
pub open spec fn spec_shifted_stream(hits: Seq<Hit>, sm: Seq<ShiftMapEntry>) -> Seq<Hit> {
    hits.map_values(|h: Hit| spec_shift_hit(h, sm))
}

/// The shift-corrected streams of the files that decode, in file order.
pub open spec fn spec_decoded_streams(files: Seq<Seq<u8>>, sm: Seq<ShiftMapEntry>) -> Seq<
    Seq<Hit>,
>
    decreases files.len(),
{
    if files.len() == 0 {
        Seq::empty()
    } else {
        match spec_decode_file(files[0]) {
            Ok(s) => seq![spec_shifted_stream(s, sm)] + spec_decoded_streams(files.skip(1), sm),
            Err(_) => spec_decoded_streams(files.skip(1), sm),
        }
    }
}

/// How many files fail to decode.
pub open spec fn spec_failed_count(files: Seq<Seq<u8>>) -> int
    decreases files.len(),
{
    if files.len() == 0 {
        0
    } else {
        (match spec_decode_file(files[0]) {
            Ok(_) => 0int,
            Err(_) => 1int,
        }) + spec_failed_count(files.skip(1))
    }
}

/// The events one run's files produce: decode, shift, merge, group.
pub open spec fn spec_run_events(
    files: Seq<Seq<u8>>,
    sm: Seq<ShiftMapEntry>,
    window_ps: u64,
) -> Seq<Seq<Hit>> {
    spec_group_events(spec_merge(spec_decoded_streams(files, sm)), window_ps)
}

/// What one run produced: the filled column store and the number of files
/// whose streams were lost to decode errors.
pub struct RunResult {
    pub data: ChannelData,
    pub failed_streams: usize,
}

/// Runs the whole pipeline over the raw bytes of one run's files.
pub fn process_run(
    files: &Vec<Vec<u8>>,
    map: &ChannelMap,
    shifts: &ShiftMap,
    window_ps: u64,
    has_weights: bool,
) -> (r: RunResult)
    ensures
        r.data.wf(),
        r.data.spec_fields() == spec_filtered_fields(map@),
        r.data.spec_row_data().len() == spec_run_events(
            files@.map_values(|f: Vec<u8>| f@),
            shifts@,
            window_ps,
        ).len(),
        forall|j: int|
            0 <= j < r.data.spec_row_data().len() ==> #[trigger] r.data.spec_row_data()[j]
                == spec_event_row(
                spec_filtered_fields(map@),
                spec_run_events(files@.map_values(|f: Vec<u8>| f@), shifts@, window_ps)[j],
                map@,
                has_weights,
            ),
        r.failed_streams == spec_failed_count(files@.map_values(|f: Vec<u8>| f@)),
{
    let ghost raw = files@.map_values(|f: Vec<u8>| f@);
    let mut streams: Vec<Vec<Hit>> = Vec::new();
    let mut failed: usize = 0;
    let mut i: usize = 0;
    proof {
        assert(raw.skip(0) =~= raw);
        assert(Seq::<Seq<Hit>>::empty() + spec_decoded_streams(raw, shifts@)
            =~= spec_decoded_streams(raw, shifts@));
    }
    while i < files.len()
        invariant
            0 <= i <= files@.len(),
            raw == files@.map_values(|f: Vec<u8>| f@),
            failed <= i,
            spec_decoded_streams(raw, shifts@) == streams@.map_values(|v: Vec<Hit>| v@)
                + spec_decoded_streams(raw.skip(i as int), shifts@),
            spec_failed_count(raw) == failed + spec_failed_count(raw.skip(i as int)),
        decreases files@.len() - i,
    {
        let ghost rest = raw.skip(i as int);
        proof {
            assert(rest[0] == raw[i as int]);
            assert(rest.skip(1) =~= raw.skip(i + 1));
            assert(raw[i as int] == files@[i as int]@);
        }
        match decode_file(files[i].as_slice()) {
            Ok(hits) => {
                let shifted = apply_shifts(&hits, shifts);
                proof {
                    assert(shifted@ =~= spec_shifted_stream(hits@, shifts@));
                }
                let ghost prev = streams@;
                streams.push(shifted);
                proof {
                    assert(streams@.map_values(|v: Vec<Hit>| v@) =~= prev.map_values(
                        |v: Vec<Hit>| v@,
                    ) + seq![shifted@]);
                    assert(prev.map_values(|v: Vec<Hit>| v@) + (seq![spec_shifted_stream(
                        hits@,
                        shifts@,
                    )] + spec_decoded_streams(rest.skip(1), shifts@)) =~= streams@.map_values(
                        |v: Vec<Hit>| v@,
                    ) + spec_decoded_streams(rest.skip(1), shifts@));
                }
            },
            Err(_) => {
                failed = failed + 1;
            },
        }
        i = i + 1;
    }
    proof {
        assert(raw.skip(i as int).len() == 0);
        assert(spec_decoded_streams(raw.skip(i as int), shifts@) =~= Seq::<Seq<Hit>>::empty());
        assert(streams@.map_values(|v: Vec<Hit>| v@) + Seq::<Seq<Hit>>::empty()
            =~= streams@.map_values(|v: Vec<Hit>| v@));
    }
    let merged = merge_streams(&streams);
    let events = build_events(&merged, window_ps);
    let ghost ev = events@.map_values(|e: Vec<Hit>| e@);
    let mut data = ChannelData::new(map);
    let mut j: usize = 0;
    while j < events.len()
        invariant
            0 <= j <= events@.len(),
            ev == events@.map_values(|e: Vec<Hit>| e@),
            data.wf(),
            data.spec_fields() == spec_filtered_fields(map@),
            data.spec_row_data().len() == j,
            forall|t: int|
                0 <= t < j ==> #[trigger] data.spec_row_data()[t] == spec_event_row(
                    spec_filtered_fields(map@),
                    ev[t],
                    map@,
                    has_weights,
                ),
        decreases events@.len() - j,
    {
        data.append_event(&events[j], map, has_weights);
        j = j + 1;
    }
    RunResult { data, failed_streams: failed }
}

/// Every hit that survives decoding lands in exactly one event of the run:
/// concatenating the emitted events gives back the merged stream, and the
/// merged stream holds each decoded (shift-corrected) hit exactly as often
/// as the streams do.
pub proof fn lemma_run_events_partition(
    files: Seq<Seq<u8>>,
    sm: Seq<ShiftMapEntry>,
    window_ps: u64,
)
    ensures
        spec_run_events(files, sm, window_ps).flatten() == spec_merge(
            spec_decoded_streams(files, sm),
        ),
        spec_merge(spec_decoded_streams(files, sm)).to_multiset()
            == crate::merger::spec_streams_multiset(spec_decoded_streams(files, sm)),
{
    crate::event_builder::lemma_events_partition_hits(
        spec_merge(spec_decoded_streams(files, sm)),
        window_ps,
    );
    crate::merger::lemma_merge_multiset(spec_decoded_streams(files, sm));
}

} // verus!

