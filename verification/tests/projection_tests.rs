use evb::channel_data::{CellValue, ChannelData, ChannelDataField};
use evb::channel_map::{Board, ChannelMap, ChannelType};
use evb::decoder::{encode_file, FileHeader};
use evb::hit::Hit;
use evb::run::process_run;
use evb::shift_map::{apply_shifts, ShiftMap, ShiftMapEntry};

fn plain_header() -> FileHeader {
    FileHeader {
        has_energy: true,
        has_energy_short: true,
        has_energy_calibrated: false,
        has_flags: false,
        has_waveform: false,
    }
}

fn hit(board: u16, channel: u16, ts: u64, e: u16, es: u16) -> Hit {
    Hit {
        board,
        channel,
        timestamp_ps: ts,
        energy: e,
        energy_short: es,
        flags: 0,
        n_samples: 0,
    }
}

/// A board with ScintLeft on channel 0 and AnodeFront on channel 13.
fn scint_anode_board() -> Board {
    let mut channels = [ChannelType::Unmapped; 16];
    channels[0] = ChannelType::ScintLeft;
    channels[13] = ChannelType::AnodeFront;
    Board { id: 0, channels }
}

fn columns_of(
    files: Vec<Vec<u8>>,
    map: &ChannelMap,
    window_ps: u64,
    has_weights: bool,
) -> Vec<(ChannelDataField, Vec<CellValue>)> {
    let shifts = ShiftMap::new(Vec::new());
    let r = process_run(&files, map, &shifts, window_ps, has_weights);
    assert_eq!(r.failed_streams, 0);
    r.data.convert_to_columns()
}

fn col(
    cols: &[(ChannelDataField, Vec<CellValue>)],
    f: ChannelDataField,
) -> &Vec<CellValue> {
    &cols.iter().find(|(g, _)| *g == f).expect("column must exist").1
}

const W: u64 = 3_000_000; // 3000 ns

#[test]
fn two_hit_coincidence_fills_one_row() {
    let map = ChannelMap::new(&vec![scint_anode_board()]).unwrap();
    let hits = vec![hit(0, 0, 100_000, 50, 10), hit(0, 13, 2_500_000, 80, 0)];
    let bytes = encode_file(&plain_header(), &hits);
    let cols = columns_of(vec![bytes], &map, W, false);
    assert_eq!(col(&cols, ChannelDataField::ScintLeftTime), &vec![CellValue::TimePs(100_000)]);
    assert_eq!(col(&cols, ChannelDataField::ScintLeftEnergy), &vec![CellValue::Amplitude(50)]);
    assert_eq!(col(&cols, ChannelDataField::ScintLeftShort), &vec![CellValue::Amplitude(10)]);
    assert_eq!(
        col(&cols, ChannelDataField::AnodeFrontTime),
        &vec![CellValue::TimePs(2_500_000)]
    );
    assert_eq!(col(&cols, ChannelDataField::AnodeFrontEnergy), &vec![CellValue::Amplitude(80)]);
    assert_eq!(col(&cols, ChannelDataField::AnodeFrontShort), &vec![CellValue::Amplitude(0)]);
    // every other filtered column stays at the invalid sentinel
    for (f, vals) in cols.iter() {
        assert_eq!(vals.len(), 1, "exactly one value per column per event");
        match f {
            ChannelDataField::ScintLeftTime
            | ChannelDataField::ScintLeftEnergy
            | ChannelDataField::ScintLeftShort
            | ChannelDataField::AnodeFrontTime
            | ChannelDataField::AnodeFrontEnergy
            | ChannelDataField::AnodeFrontShort => {}
            _ => assert_eq!(vals[0], CellValue::Unset),
        }
    }
}

#[test]
fn window_split_fills_two_rows() {
    let map = ChannelMap::new(&vec![scint_anode_board()]).unwrap();
    // second hit at 3100.1 ns = 3_100_100 ps: outside the 3000 ns window
    let hits = vec![hit(0, 0, 100_000, 50, 10), hit(0, 13, 3_100_100, 80, 0)];
    let bytes = encode_file(&plain_header(), &hits);
    let cols = columns_of(vec![bytes], &map, W, false);
    assert_eq!(
        col(&cols, ChannelDataField::ScintLeftTime),
        &vec![CellValue::TimePs(100_000), CellValue::Unset]
    );
    assert_eq!(
        col(&cols, ChannelDataField::AnodeFrontTime),
        &vec![CellValue::Unset, CellValue::TimePs(3_100_100)]
    );
}

fn close(a: f64, b: f64) -> bool {
    (a - b).abs() <= 1e-9 * b.abs().max(1.0)
}

#[test]
fn focal_plane_reconstruction() {
    let map = ChannelMap::new(&vec![Board::sps(0)]).unwrap();
    // sps layout: ch8 DelayFrontLeft, ch9 DelayFrontRight,
    //             ch10 DelayBackLeft, ch11 DelayBackRight
    let hits = vec![
        hit(0, 9, 800_000, 1, 0), // DFR at 800 ns
        hit(0, 8, 1_000_000, 1, 0), // DFL at 1000 ns
        hit(0, 11, 1_600_000, 1, 0), // DBR at 1600 ns
        hit(0, 10, 2_000_000, 1, 0), // DBL at 2000 ns
    ];
    let bytes = encode_file(&plain_header(), &hits);
    let cols = columns_of(vec![bytes], &map, W, true);
    assert_eq!(col(&cols, ChannelDataField::X1), &vec![CellValue::FrontDiffPs(200_000)]);
    assert_eq!(col(&cols, ChannelDataField::X2), &vec![CellValue::BackDiffPs(400_000)]);
    assert_eq!(
        col(&cols, ChannelDataField::Theta),
        &vec![CellValue::FocalPair(200_000, 400_000)]
    );
    assert_eq!(
        col(&cols, ChannelDataField::Xavg),
        &vec![CellValue::FocalPair(200_000, 400_000)]
    );
    // render the cells as the columnar writer does and hold them to the
    // reference values
    let x1 = (200_000 as f64 / 1000.0) * 0.5 / 2.1;
    let x2 = (400_000 as f64 / 1000.0) * 0.5 / 1.98;
    assert!(close(x1, 47.61904761904762));
    assert!(close(x2, 101.01010101010101));
    let diff = x2 - x1;
    assert!(close(diff, 53.39105339105339));
    let theta = (diff / 36.0).atan();
    assert!(close(theta, 0.9775481468576261));
    let xavg = 0.5 * x1 + 0.5 * x2;
    assert!(close(xavg, 74.31457431457432));
}

#[test]
fn xavg_stays_unset_without_weights() {
    let map = ChannelMap::new(&vec![Board::sps(0)]).unwrap();
    let hits = vec![
        hit(0, 9, 800_000, 1, 0),
        hit(0, 8, 1_000_000, 1, 0),
        hit(0, 11, 1_600_000, 1, 0),
        hit(0, 10, 2_000_000, 1, 0),
    ];
    let bytes = encode_file(&plain_header(), &hits);
    let cols = columns_of(vec![bytes], &map, W, false);
    assert_eq!(col(&cols, ChannelDataField::Xavg), &vec![CellValue::Unset]);
    assert_eq!(
        col(&cols, ChannelDataField::Theta),
        &vec![CellValue::FocalPair(200_000, 400_000)]
    );
}

#[test]
fn empty_run_keeps_full_filtered_schema() {
    let map = ChannelMap::new(&vec![Board::sps(0)]).unwrap();
    let cols = columns_of(Vec::new(), &map, W, false);
    // 9 mapped roles x (energy, short, time) + X1, X2, Xavg, Theta
    assert_eq!(cols.len(), 31);
    for (_, vals) in cols.iter() {
        assert!(vals.is_empty());
    }
    let fields = ChannelDataField::get_filtered_field_vec(&map);
    let names: Vec<ChannelDataField> = cols.iter().map(|(f, _)| *f).collect();
    assert_eq!(names, fields);
}

#[test]
fn single_hit_file_yields_one_sparse_row() {
    let map = ChannelMap::new(&vec![Board::sps(0)]).unwrap();
    let hits = vec![hit(0, 1, 5_000_000, 42, 7)]; // ch1 is ScintLeft on the sps board
    let bytes = encode_file(&plain_header(), &hits);
    let cols = columns_of(vec![bytes], &map, W, false);
    for (f, vals) in cols.iter() {
        assert_eq!(vals.len(), 1);
        match f {
            ChannelDataField::ScintLeftEnergy => assert_eq!(vals[0], CellValue::Amplitude(42)),
            ChannelDataField::ScintLeftShort => assert_eq!(vals[0], CellValue::Amplitude(7)),
            ChannelDataField::ScintLeftTime => assert_eq!(vals[0], CellValue::TimePs(5_000_000)),
            _ => assert_eq!(vals[0], CellValue::Unset),
        }
    }
}

#[test]
fn shift_correction_moves_timestamps() {
    let shifts = ShiftMap::new(vec![ShiftMapEntry {
        board_number: 2,
        channel_number: 5,
        time_shift_ps: 250_000,
    }]);
    let hits = vec![hit(2, 5, 1_000_000, 1, 0), hit(2, 6, 1_000_000, 1, 0)];
    let shifted = apply_shifts(&hits, &shifts);
    assert_eq!(shifted[0].timestamp_ps, 1_250_000);
    assert_eq!(shifted[1].timestamp_ps, 1_000_000);
    assert_eq!(shifts.get_shift(2, 5), 250_000);
    assert_eq!(shifts.get_shift(2, 6), 0);
}

#[test]
fn later_hit_of_same_role_overwrites_earlier() {
    let map = ChannelMap::new(&vec![scint_anode_board()]).unwrap();
    let hits = vec![hit(0, 0, 100_000, 50, 10), hit(0, 0, 200_000, 60, 20)];
    let bytes = encode_file(&plain_header(), &hits);
    let cols = columns_of(vec![bytes], &map, W, false);
    assert_eq!(col(&cols, ChannelDataField::ScintLeftEnergy), &vec![CellValue::Amplitude(60)]);
    assert_eq!(col(&cols, ChannelDataField::ScintLeftTime), &vec![CellValue::TimePs(200_000)]);
}

#[test]
fn catrina_rows_carry_psd_inputs() {
    let map = ChannelMap::new(&vec![Board::catrina(0)]).unwrap();
    let hits = vec![hit(0, 4, 1_000, 900, 300)];
    let bytes = encode_file(&plain_header(), &hits);
    let cols = columns_of(vec![bytes], &map, W, false);
    assert_eq!(col(&cols, ChannelDataField::CATRINA4PSD), &vec![CellValue::Psd(900, 300)]);
    let psd = match col(&cols, ChannelDataField::CATRINA4PSD)[0] {
        CellValue::Psd(long, short) => (long as f64 - short as f64) / long as f64,
        _ => panic!("expected a pulse-shape cell"),
    };
    assert!(close(psd, (900.0 - 300.0) / 900.0));
}

#[test]
fn unmapped_channels_write_no_columns() {
    let map = ChannelMap::new(&vec![scint_anode_board()]).unwrap();
    // channel 2 is unmapped; the hit still belongs to the event but feeds
    // no column
    let hits = vec![hit(0, 0, 100_000, 50, 10), hit(0, 2, 150_000, 9, 9)];
    let bytes = encode_file(&plain_header(), &hits);
    let cols = columns_of(vec![bytes], &map, W, false);
    for (_, vals) in cols.iter() {
        assert_eq!(vals.len(), 1);
    }
    assert_eq!(col(&cols, ChannelDataField::ScintLeftEnergy), &vec![CellValue::Amplitude(50)]);
}

#[test]
fn default_store_carries_every_column() {
    let all = ChannelDataField::get_field_vec();
    assert_eq!(all.len(), 217);
    let map = ChannelMap::new(&vec![Board::sps(0)]).unwrap();
    let data = ChannelData::new(&map);
    assert_eq!(data.rows(), 0);
    assert_eq!(data.fields().len(), 31);
}

#[test]
fn poisoned_stream_is_dropped_and_counted() {
    let map = ChannelMap::new(&vec![scint_anode_board()]).unwrap();
    let good = encode_file(&plain_header(), &vec![hit(0, 0, 100_000, 50, 10)]);
    let bad = vec![32u8, 0]; // impossible header word
    let shifts = ShiftMap::new(Vec::new());
    let r = process_run(&vec![good, bad], &map, &shifts, W, false);
    assert_eq!(r.failed_streams, 1);
    assert_eq!(r.data.rows(), 1);
}

/// A board carrying the focal-plane references plus one CeBrA and the PIPS
/// detectors, to exercise the relative-time columns.
fn rel_time_board() -> Board {
    let mut channels = [ChannelType::Unmapped; 16];
    channels[0] = ChannelType::ScintLeft;
    channels[1] = ChannelType::AnodeBack;
    channels[2] = ChannelType::Cebra3;
    channels[3] = ChannelType::PIPS1000;
    channels[4] = ChannelType::PIPS500;
    channels[5] = ChannelType::RF;
    Board { id: 0, channels }
}

#[test]
fn cebra_rel_time_is_gated_on_anode_back() {
    let map = ChannelMap::new(&vec![rel_time_board()]).unwrap();
    // AnodeBack fired too, so Cebra3RelTime = cebra.t - scint_left.t
    let hits = vec![
        hit(0, 0, 1_000_000, 1, 0), // ScintLeft at 1000 ns
        hit(0, 1, 1_100_000, 1, 0), // AnodeBack
        hit(0, 2, 1_750_000, 1, 0), // Cebra3 at 1750 ns
    ];
    let bytes = encode_file(&plain_header(), &hits);
    let cols = columns_of(vec![bytes], &map, W, false);
    assert_eq!(
        col(&cols, ChannelDataField::Cebra3RelTime),
        &vec![CellValue::DeltaPs(750_000)]
    );

    // without the anode-back gate the column stays unset, though both the
    // detector and the reference fired
    let hits = vec![hit(0, 0, 1_000_000, 1, 0), hit(0, 2, 1_750_000, 1, 0)];
    let bytes = encode_file(&plain_header(), &hits);
    let cols = columns_of(vec![bytes], &map, W, false);
    assert_eq!(col(&cols, ChannelDataField::Cebra3RelTime), &vec![CellValue::Unset]);
}

#[test]
fn pips_rel_times_take_their_references() {
    let map = ChannelMap::new(&vec![rel_time_board()]).unwrap();
    let hits = vec![
        hit(0, 0, 1_000_000, 1, 0), // ScintLeft
        hit(0, 3, 1_400_000, 1, 0), // PIPS1000
        hit(0, 4, 1_150_000, 1, 0), // PIPS500
    ];
    let bytes = encode_file(&plain_header(), &hits);
    let cols = columns_of(vec![bytes], &map, W, false);
    // PIPS RelTime needs only ScintLeft, no anode gate
    assert_eq!(
        col(&cols, ChannelDataField::PIPS1000RelTime),
        &vec![CellValue::DeltaPs(400_000)]
    );
    assert_eq!(
        col(&cols, ChannelDataField::PIPS500RelTime),
        &vec![CellValue::DeltaPs(150_000)]
    );
    assert_eq!(
        col(&cols, ChannelDataField::PIPS1000RelTimeToPIPS500),
        &vec![CellValue::DeltaPs(250_000)]
    );
    // a negative difference stays exact
    let rendered = match col(&cols, ChannelDataField::PIPS500RelTime)[0] {
        CellValue::DeltaPs(d) => d as f64 / 1000.0,
        _ => panic!("expected a time difference"),
    };
    assert!(close(rendered, 150.0));
}

#[test]
fn rf_column_carries_the_reference_time() {
    let map = ChannelMap::new(&vec![rel_time_board()]).unwrap();
    let hits = vec![hit(0, 5, 123_456, 1, 0)];
    let bytes = encode_file(&plain_header(), &hits);
    let cols = columns_of(vec![bytes], &map, W, false);
    assert_eq!(col(&cols, ChannelDataField::RF), &vec![CellValue::TimePs(123_456)]);
}

#[test]
fn hits_sorted_across_files_by_the_merger() {
    // two files whose hits interleave in time: the rows come out in global
    // time order, one event per isolated hit
    let map = ChannelMap::new(&vec![scint_anode_board()]).unwrap();
    let f1 = encode_file(&plain_header(), &vec![hit(0, 0, 10_000_000, 1, 0)]);
    let f2 = encode_file(&plain_header(), &vec![hit(0, 13, 2_000_000, 2, 0)]);
    let cols = columns_of(vec![f1, f2], &map, W, false);
    assert_eq!(
        col(&cols, ChannelDataField::AnodeFrontTime),
        &vec![CellValue::TimePs(2_000_000), CellValue::Unset]
    );
    assert_eq!(
        col(&cols, ChannelDataField::ScintLeftTime),
        &vec![CellValue::Unset, CellValue::TimePs(10_000_000)]
    );
}
