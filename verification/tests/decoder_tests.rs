use evb::decoder::{count_records, decode_file, encode_file, DecodeError, FileHeader};
use evb::hit::{channel_uuid, Hit};

fn full_header() -> FileHeader {
    FileHeader {
        has_energy: true,
        has_energy_short: true,
        has_energy_calibrated: true,
        has_flags: true,
        has_waveform: true,
    }
}

fn plain_header() -> FileHeader {
    FileHeader {
        has_energy: true,
        has_energy_short: true,
        has_energy_calibrated: false,
        has_flags: false,
        has_waveform: false,
    }
}

fn hit(board: u16, channel: u16, ts: u64, e: u16, es: u16) -> Hit {
    Hit {
        board,
        channel,
        timestamp_ps: ts,
        energy: e,
        energy_short: es,
        flags: 0,
        n_samples: 0,
    }
}

#[test]
fn header_word_round_trip() {
    let h = full_header();
    assert_eq!(h.to_word(), 31);
    assert_eq!(FileHeader::from_word(31), h);
    let p = plain_header();
    assert_eq!(p.to_word(), 3);
    assert_eq!(FileHeader::from_word(3), p);
}

#[test]
fn encode_decode_round_trip_plain() {
    let h = plain_header();
    let hits = vec![
        hit(0, 0, 100_000, 50, 10),
        hit(0, 13, 2_500_000, 80, 0),
        hit(3, 7, u64::MAX, u16::MAX, u16::MAX),
    ];
    let bytes = encode_file(&h, &hits);
    let decoded = decode_file(&bytes).expect("round trip must decode");
    assert_eq!(decoded, hits);
}

#[test]
fn encode_decode_round_trip_all_fields() {
    let h = full_header();
    let hits = vec![
        Hit {
            board: 2,
            channel: 5,
            timestamp_ps: 123_456_789_012,
            energy: 700,
            energy_short: 35,
            flags: 0xDEADBEEF,
            n_samples: 4,
        },
        Hit {
            board: 65535,
            channel: 15,
            timestamp_ps: 1,
            energy: 0,
            energy_short: 0,
            flags: 1,
            n_samples: 0,
        },
    ];
    let bytes = encode_file(&h, &hits);
    let decoded = decode_file(&bytes).expect("round trip must decode");
    assert_eq!(decoded, hits);
}

#[test]
fn decode_empty_file_is_missing_header() {
    assert_eq!(decode_file(&[]), Err(DecodeError::MissingHeader));
    assert_eq!(decode_file(&[1u8]), Err(DecodeError::MissingHeader));
}

#[test]
fn decode_unknown_header_bits_rejected() {
    assert_eq!(decode_file(&[32u8, 0u8]), Err(DecodeError::BadHeader));
    assert_eq!(decode_file(&[0u8, 1u8]), Err(DecodeError::BadHeader));
}

#[test]
fn decode_truncated_record_rejected() {
    // header word 3 (energy + short), then a record cut short mid-way
    let bytes = vec![3u8, 0, 1, 0, 2, 0, 9, 9];
    assert_eq!(decode_file(&bytes), Err(DecodeError::TruncatedRecord));
}

#[test]
fn decode_waveform_overrun_rejected() {
    // header word 16: waveform only; fixed part is 12 bytes
    let mut bytes = vec![16u8, 0];
    bytes.extend_from_slice(&[1, 0, 2, 0]); // board, channel
    bytes.extend_from_slice(&[0; 8]); // timestamp
    bytes.extend_from_slice(&[5, 0, 0, 0]); // 5 samples declared
    bytes.extend_from_slice(&[0, 0]); // but only one present
    assert_eq!(decode_file(&bytes), Err(DecodeError::WaveformOverrun));
}

#[test]
fn decode_skips_waveform_samples() {
    let h = FileHeader {
        has_energy: false,
        has_energy_short: false,
        has_energy_calibrated: false,
        has_flags: false,
        has_waveform: true,
    };
    let hits = vec![Hit {
        board: 1,
        channel: 2,
        timestamp_ps: 777,
        energy: 0,
        energy_short: 0,
        flags: 0,
        n_samples: 3,
    }];
    let bytes = encode_file(&h, &hits);
    // 2 header + 12 fixed + 4 count + 6 samples
    assert_eq!(bytes.len(), 24);
    assert_eq!(decode_file(&bytes).unwrap(), hits);
}

#[test]
fn count_records_counts_without_decoding_values() {
    let h = plain_header();
    let hits: Vec<Hit> = (0..12).map(|i| hit(0, 3, 1000 * i as u64, 1, 1)).collect();
    let bytes = encode_file(&h, &hits);
    assert_eq!(count_records(&bytes), Ok(12));
    assert_eq!(count_records(&[32u8, 0]), Err(DecodeError::BadHeader));
}

#[test]
fn empty_record_section_decodes_to_no_hits() {
    let bytes = vec![3u8, 0];
    assert_eq!(decode_file(&bytes).unwrap(), Vec::<Hit>::new());
}

#[test]
fn uuid_collapses_board_and_channel() {
    assert_eq!(channel_uuid(0, 0), 0);
    assert_eq!(channel_uuid(0, 13), 13);
    assert_eq!(channel_uuid(2, 5), (2 << 16) | 5);
    assert_eq!(channel_uuid(65535, 65535), u32::MAX);
}
