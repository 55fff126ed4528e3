use evb::channel_map::Board;
use evb::channel_map::ChannelMap;
use evb::decoder::{count_records, encode_file, FileHeader};
use evb::hit::Hit;
use evb::run::process_run;
use evb::scaler_list::{ScalerEntryUI, ScalerList};
use evb::shift_map::ShiftMap;

fn plain_header() -> FileHeader {
    FileHeader {
        has_energy: true,
        has_energy_short: true,
        has_energy_calibrated: false,
        has_flags: false,
        has_waveform: false,
    }
}

fn hit(channel: u16, ts: u64) -> Hit {
    Hit {
        board: 0,
        channel,
        timestamp_ps: ts,
        energy: 1,
        energy_short: 0,
        flags: 0,
        n_samples: 0,
    }
}

fn file_with_records(channel: u16, n: u64) -> Vec<u8> {
    let hits: Vec<Hit> = (0..n).map(|i| hit(channel, 1000 * i)).collect();
    encode_file(&plain_header(), &hits)
}

fn entry(pattern: &str, name: &str) -> ScalerEntryUI {
    ScalerEntryUI {
        file_pattern: pattern.to_string(),
        scaler_name: name.to_string(),
    }
}

#[test]
fn scaler_extraction_matches_by_prefix() {
    let ch3 = file_with_records(3, 12);
    let ch4 = file_with_records(4, 7);
    let mut scalers = ScalerList::new(vec![entry("Data_CH3@", "pulser")]);
    let n3 = count_records(&ch3).unwrap() as u64;
    let n4 = count_records(&ch4).unwrap() as u64;
    assert_eq!(n3, 12);
    assert_eq!(n4, 7);
    assert!(scalers.read_scaler("Data_CH3@V1730_89_run_1_0001.BIN", n3));
    assert!(!scalers.read_scaler("Data_CH4@V1730_89_run_1_0001.BIN", n4));
    assert_eq!(scalers.report(), "SPS Scaler Data\npulser 12\n");
}

#[test]
fn report_of_empty_list_is_just_the_header() {
    let scalers = ScalerList::new(Vec::new());
    assert_eq!(scalers.report(), "SPS Scaler Data\n");
}

#[test]
fn report_renders_multi_digit_counts_in_order() {
    let mut scalers = ScalerList::new(vec![
        entry("A_", "first"),
        entry("B_", "second"),
        entry("C_", "third"),
    ]);
    assert!(scalers.read_scaler("B_0001.BIN", 1_048_576));
    assert!(scalers.read_scaler("C_0001.BIN", 0));
    assert_eq!(
        scalers.report(),
        "SPS Scaler Data\nfirst 0\nsecond 1048576\nthird 0\n"
    );
}

#[test]
fn first_matching_pattern_wins() {
    let mut scalers = ScalerList::new(vec![entry("Data_", "broad"), entry("Data_CH3@", "narrow")]);
    assert!(scalers.read_scaler("Data_CH3@board_0001.BIN", 5));
    assert_eq!(scalers.report(), "SPS Scaler Data\nbroad 5\nnarrow 0\n");
}

#[test]
fn repeated_runs_are_byte_identical() {
    // the scaler report and the processed rows are functions of their
    // inputs alone: a second pass over the same bytes reproduces them
    let ch3 = file_with_records(3, 12);
    let make_report = || {
        let mut scalers = ScalerList::new(vec![entry("Data_CH3@", "pulser")]);
        let n = count_records(&ch3).unwrap() as u64;
        scalers.read_scaler("Data_CH3@x_0001.BIN", n);
        scalers.report()
    };
    assert_eq!(make_report().into_bytes(), make_report().into_bytes());

    let map = ChannelMap::new(&vec![Board::sps(0)]).unwrap();
    let shifts = ShiftMap::new(Vec::new());
    let files = vec![file_with_records(1, 4)];
    let a = process_run(&files, &map, &shifts, 3_000_000, false);
    let b = process_run(&files, &map, &shifts, 3_000_000, false);
    assert_eq!(a.failed_streams, b.failed_streams);
    assert_eq!(a.data.convert_to_columns(), b.data.convert_to_columns());
}
