//! Hit stream decoder and encoder for the CoMPASS UNFILTERED binary format.
//!
//! A file starts with a two-byte little-endian header word whose low bits
//! declare which optional fields follow each record: energy, short-gate
//! energy, calibrated energy, status flags, and an inline waveform. Every
//! record starts with `board: u16, channel: u16, timestamp: u64` (integral
//! picoseconds), all little-endian, followed by the declared fields; a
//! waveform is a `u32` sample count followed by that many two-byte samples,
//! which the decoder skips. The calibrated energy is consumed but not
//! forwarded.

use vstd::prelude::*;

use crate::hit::Hit;

verus! {

/// The per-file header: which optional fields each record carries.
#[derive(Clone, Copy, Debug, PartialEq, Eq, Structural)]
pub struct FileHeader {
    pub has_energy: bool,
    pub has_energy_short: bool,
    pub has_energy_calibrated: bool,
    pub has_flags: bool,
    pub has_waveform: bool,
}

/// Why a stream failed to decode. Any of these poisons the whole stream.
#[derive(Clone, Copy, Debug, PartialEq, Eq, Structural)]
pub enum DecodeError {
    /// The file is shorter than the two-byte header.
    MissingHeader,
    /// The header word carries bits no known producer writes.
    BadHeader,
    /// The file ends in the middle of a record's fixed part.
    TruncatedRecord,
    /// A declared waveform extends past the end of the file.
    WaveformOverrun,
}

/// The header word read from the first two bytes, low bit first:
/// energy, short energy, calibrated energy, flags, waveform.
pub open spec fn spec_header_of(w: u16) -> FileHeader {
    FileHeader {
        has_energy: w % 2 == 1,
        has_energy_short: (w / 2) % 2 == 1,
        has_energy_calibrated: (w / 4) % 2 == 1,
        has_flags: (w / 8) % 2 == 1,
        has_waveform: (w / 16) % 2 == 1,
    }
}

/// The header word that declares exactly the fields of `h`.
pub open spec fn spec_header_word(h: FileHeader) -> u16 {
    ((if h.has_energy {
        1int
    } else {
        0int
    }) + (if h.has_energy_short {
        2int
    } else {
        0int
    }) + (if h.has_energy_calibrated {
        4int
    } else {
        0int
    }) + (if h.has_flags {
        8int
    } else {
        0int
    }) + (if h.has_waveform {
        16int
    } else {
        0int
    })) as u16
}

/// Only the five declared bits may be set.
pub open spec fn spec_header_valid(w: u16) -> bool {
    w < 32
}

pub proof fn lemma_header_word_round_trip(h: FileHeader)
    ensures
        spec_header_valid(spec_header_word(h)),
        spec_header_of(spec_header_word(h)) == h,
{
}

/// Little-endian field reads.
pub open spec fn spec_u16_at(b: Seq<u8>, i: int) -> u16 {
    (b[i] + b[i + 1] * 0x100) as u16
}

pub open spec fn spec_u32_at(b: Seq<u8>, i: int) -> u32 {
    (b[i] + b[i + 1] * 0x100 + b[i + 2] * 0x10000 + b[i + 3] * 0x1000000) as u32
}

pub open spec fn spec_u64_at(b: Seq<u8>, i: int) -> u64 {
    (b[i] + b[i + 1] * 0x100 + b[i + 2] * 0x10000 + b[i + 3] * 0x1000000 + b[i + 4] * 0x100000000
        + b[i + 5] * 0x10000000000 + b[i + 6] * 0x1000000000000 + b[i + 7]
        * 0x100000000000000) as u64
}

/// Little-endian encodings.
pub open spec fn spec_u16_bytes(x: u16) -> Seq<u8> {
    seq![(x % 0x100) as u8, (x / 0x100) as u8]
}

pub open spec fn spec_u32_bytes(x: u32) -> Seq<u8> {
    seq![
        (x % 0x100) as u8,
        ((x / 0x100) % 0x100) as u8,
        ((x / 0x10000) % 0x100) as u8,
        (x / 0x1000000) as u8,
    ]
}

pub open spec fn spec_u64_bytes(x: u64) -> Seq<u8> {
    seq![
        (x % 0x100) as u8,
        ((x / 0x100) % 0x100) as u8,
        ((x / 0x10000) % 0x100) as u8,
        ((x / 0x1000000) % 0x100) as u8,
        ((x / 0x100000000) % 0x100) as u8,
        ((x / 0x10000000000) % 0x100) as u8,
        ((x / 0x1000000000000) % 0x100) as u8,
        (x / 0x100000000000000) as u8,
    ]
}

pub proof fn lemma_u16_round_trip(x: u16)
    ensures
        spec_u16_at(spec_u16_bytes(x), 0) == x,
{
}

pub proof fn lemma_u32_round_trip(x: u32)
    ensures
        spec_u32_at(spec_u32_bytes(x), 0) == x,
{
}

pub proof fn lemma_u64_round_trip(x: u64)
    ensures
        spec_u64_at(spec_u64_bytes(x), 0) == x,
{
    let xi = x as int;
    let q1 = xi / 0x100;
    let q2 = xi / 0x10000;
    let q3 = xi / 0x1000000;
    let q4 = xi / 0x100000000;
    let q5 = xi / 0x10000000000;
    let q6 = xi / 0x1000000000000;
    let q7 = xi / 0x100000000000000;
    vstd::arithmetic::div_mod::lemma_div_denominator(xi, 0x100, 0x100);
    vstd::arithmetic::div_mod::lemma_div_denominator(xi, 0x10000, 0x100);
    vstd::arithmetic::div_mod::lemma_div_denominator(xi, 0x1000000, 0x100);
    vstd::arithmetic::div_mod::lemma_div_denominator(xi, 0x100000000, 0x100);
    vstd::arithmetic::div_mod::lemma_div_denominator(xi, 0x10000000000, 0x100);
    vstd::arithmetic::div_mod::lemma_div_denominator(xi, 0x1000000000000, 0x100);
    assert(q1 / 0x100 == q2 && q2 / 0x100 == q3 && q3 / 0x100 == q4 && q4 / 0x100 == q5 && q5
        / 0x100 == q6 && q6 / 0x100 == q7);
    vstd::arithmetic::div_mod::lemma_fundamental_div_mod(xi, 0x100);
    vstd::arithmetic::div_mod::lemma_fundamental_div_mod(q1, 0x100);
    vstd::arithmetic::div_mod::lemma_fundamental_div_mod(q2, 0x100);
    vstd::arithmetic::div_mod::lemma_fundamental_div_mod(q3, 0x100);
    vstd::arithmetic::div_mod::lemma_fundamental_div_mod(q4, 0x100);
    vstd::arithmetic::div_mod::lemma_fundamental_div_mod(q5, 0x100);
    vstd::arithmetic::div_mod::lemma_fundamental_div_mod(q6, 0x100);
    assert(q7 < 0x100);
    assert(xi == xi % 0x100 + (q1 % 0x100) * 0x100 + (q2 % 0x100) * 0x10000 + (q3 % 0x100)
        * 0x1000000 + (q4 % 0x100) * 0x100000000 + (q5 % 0x100) * 0x10000000000 + (q6 % 0x100)
        * 0x1000000000000 + q7 * 0x100000000000000);
}

/// Field offsets within a record, as declared by the header.
pub open spec fn spec_energy_off() -> int {
    12
}

pub open spec fn spec_energy_short_off(h: FileHeader) -> int {
    12 + if h.has_energy {
        2int
    } else {
        0int
    }
}

pub open spec fn spec_energy_cal_off(h: FileHeader) -> int {
    spec_energy_short_off(h) + if h.has_energy_short {
        2int
    } else {
        0int
    }
}

pub open spec fn spec_flags_off(h: FileHeader) -> int {
    spec_energy_cal_off(h) + if h.has_energy_calibrated {
        8int
    } else {
        0int
    }
}

/// Size of a record without its waveform part.
pub open spec fn spec_fixed_size(h: FileHeader) -> int {
    spec_flags_off(h) + if h.has_flags {
        4int
    } else {
        0int
    }
}

/// The hit encoded at the start of `b`. Absent fields read as zero.
pub open spec fn spec_record_at(h: FileHeader, b: Seq<u8>) -> Hit {
    Hit {
        board: spec_u16_at(b, 0),
        channel: spec_u16_at(b, 2),
        timestamp_ps: spec_u64_at(b, 4),
        energy: if h.has_energy {
            spec_u16_at(b, spec_energy_off())
        } else {
            0
        },
        energy_short: if h.has_energy_short {
            spec_u16_at(b, spec_energy_short_off(h))
        } else {
            0
        },
        flags: if h.has_flags {
            spec_u32_at(b, spec_flags_off(h))
        } else {
            0
        },
        n_samples: if h.has_waveform {
            spec_u32_at(b, spec_fixed_size(h))
        } else {
            0
        },
    }
}

/// Full on-disk size of the record at the start of `b`, waveform included.
pub open spec fn spec_record_len(h: FileHeader, b: Seq<u8>) -> int {
    spec_fixed_size(h) + if h.has_waveform {
        4 + 2 * spec_u32_at(b, spec_fixed_size(h))
    } else {
        0int
    }
}

/// Decodes every record of `b` (the file after its header), or the error
/// that poisons the stream.
#[verifier::opaque]
pub open spec fn spec_decode_records(h: FileHeader, b: Seq<u8>) -> Result<Seq<Hit>, DecodeError>
    decreases b.len(),
{
    if b.len() == 0 {
        Ok(Seq::empty())
    } else if b.len() < spec_fixed_size(h) || (h.has_waveform && b.len() < spec_fixed_size(h)
        + 4) {
        Err(DecodeError::TruncatedRecord)
    } else if b.len() < spec_record_len(h, b) {
        Err(DecodeError::WaveformOverrun)
    } else {
        match spec_decode_records(h, b.skip(spec_record_len(h, b))) {
            Ok(rest) => Ok(seq![spec_record_at(h, b)] + rest),
            Err(e) => Err(e),
        }
    }
}

/// Decodes a whole file: header word, then records.
pub open spec fn spec_decode_file(b: Seq<u8>) -> Result<Seq<Hit>, DecodeError> {
    if b.len() < 2 {
        Err(DecodeError::MissingHeader)
    } else if !spec_header_valid(spec_u16_at(b, 0)) {
        Err(DecodeError::BadHeader)
    } else {
        spec_decode_records(spec_header_of(spec_u16_at(b, 0)), b.skip(2))
    }
}

/// `n` zero bytes: the encoder's stand-in for waveform samples and for the
/// calibrated energy, neither of which a hit retains.
pub open spec fn spec_zero_bytes(n: int) -> Seq<u8> {
    Seq::new(if n >= 0 {
        n as nat
    } else {
        0
    }, |i: int| 0u8)
}

/// The on-disk encoding of one record under header `h`.
#[verifier::opaque]
pub open spec fn spec_encode_record(h: FileHeader, r: Hit) -> Seq<u8> {
    spec_u16_bytes(r.board) + spec_u16_bytes(r.channel) + spec_u64_bytes(r.timestamp_ps) + (
    if h.has_energy {
        spec_u16_bytes(r.energy)
    } else {
        Seq::empty()
    }) + (if h.has_energy_short {
        spec_u16_bytes(r.energy_short)
    } else {
        Seq::empty()
    }) + (if h.has_energy_calibrated {
        spec_zero_bytes(8)
    } else {
        Seq::empty()
    }) + (if h.has_flags {
        spec_u32_bytes(r.flags)
    } else {
        Seq::empty()
    }) + (if h.has_waveform {
        spec_u32_bytes(r.n_samples) + spec_zero_bytes(2 * r.n_samples)
    } else {
        Seq::empty()
    })
}

pub open spec fn spec_encode_records(h: FileHeader, rs: Seq<Hit>) -> Seq<u8>
    decreases rs.len(),
{
    if rs.len() == 0 {
        Seq::empty()
    } else {
        spec_encode_record(h, rs[0]) + spec_encode_records(h, rs.skip(1))
    }
}

/// A whole synthetic file: header word, then the records.
pub open spec fn spec_encode_file(h: FileHeader, rs: Seq<Hit>) -> Seq<u8> {
    spec_u16_bytes(spec_header_word(h)) + spec_encode_records(h, rs)
}

/// A hit carries no value in a field its header does not declare.
pub open spec fn hit_conforms(h: FileHeader, r: Hit) -> bool {
    &&& !h.has_energy ==> r.energy == 0
    &&& !h.has_energy_short ==> r.energy_short == 0
    &&& !h.has_flags ==> r.flags == 0
    &&& !h.has_waveform ==> r.n_samples == 0
}

#[verifier::rlimit(100)]
proof fn lemma_encode_record_layout(h: FileHeader, r: Hit)
    ensures
        spec_encode_record(h, r).len() == spec_fixed_size(h) + (if h.has_waveform {
            4 + 2 * r.n_samples
        } else {
            0int
        }),
        spec_encode_record(h, r).subrange(0, 2) == spec_u16_bytes(r.board),
        spec_encode_record(h, r).subrange(2, 4) == spec_u16_bytes(r.channel),
        spec_encode_record(h, r).subrange(4, 12) == spec_u64_bytes(r.timestamp_ps),
        h.has_energy ==> spec_encode_record(h, r).subrange(
            spec_energy_off(),
            spec_energy_off() + 2,
        ) == spec_u16_bytes(r.energy),
        h.has_energy_short ==> spec_encode_record(h, r).subrange(
            spec_energy_short_off(h),
            spec_energy_short_off(h) + 2,
        ) == spec_u16_bytes(r.energy_short),
        h.has_flags ==> spec_encode_record(h, r).subrange(
            spec_flags_off(h),
            spec_flags_off(h) + 4,
        ) == spec_u32_bytes(r.flags),
        h.has_waveform ==> spec_encode_record(h, r).subrange(
            spec_fixed_size(h),
            spec_fixed_size(h) + 4,
        ) == spec_u32_bytes(r.n_samples),
{
    reveal(spec_encode_record);
    let e = spec_encode_record(h, r);
    assert(e.subrange(0, 2) =~= spec_u16_bytes(r.board));
    assert(e.subrange(2, 4) =~= spec_u16_bytes(r.channel));
    assert(e.subrange(4, 12) =~= spec_u64_bytes(r.timestamp_ps));
    if h.has_energy {
        assert(e.subrange(spec_energy_off(), spec_energy_off() + 2) =~= spec_u16_bytes(r.energy));
    }
    if h.has_energy_short {
        assert(e.subrange(spec_energy_short_off(h), spec_energy_short_off(h) + 2)
            =~= spec_u16_bytes(r.energy_short));
    }
    if h.has_flags {
        assert(e.subrange(spec_flags_off(h), spec_flags_off(h) + 4) =~= spec_u32_bytes(r.flags));
    }
    if h.has_waveform {
        assert(e.subrange(spec_fixed_size(h), spec_fixed_size(h) + 4) =~= spec_u32_bytes(
            r.n_samples,
        ));
    }
}

/// Reading back a field from an encoding embedded at offset `i` of a longer
/// byte sequence.
proof fn lemma_u16_at_embedded(b: Seq<u8>, i: int, x: u16)
    requires
        0 <= i,
        i + 2 <= b.len(),
        b.subrange(i, i + 2) == spec_u16_bytes(x),
    ensures
        spec_u16_at(b, i) == x,
{
    assert(b[i] == spec_u16_bytes(x)[0] && b[i + 1] == spec_u16_bytes(x)[1]);
    lemma_u16_round_trip(x);
}

proof fn lemma_u32_at_embedded(b: Seq<u8>, i: int, x: u32)
    requires
        0 <= i,
        i + 4 <= b.len(),
        b.subrange(i, i + 4) == spec_u32_bytes(x),
    ensures
        spec_u32_at(b, i) == x,
{
    assert(b[i] == spec_u32_bytes(x)[0] && b[i + 1] == spec_u32_bytes(x)[1] && b[i + 2]
        == spec_u32_bytes(x)[2] && b[i + 3] == spec_u32_bytes(x)[3]);
    lemma_u32_round_trip(x);
}

proof fn lemma_u64_at_embedded(b: Seq<u8>, i: int, x: u64)
    requires
        0 <= i,
        i + 8 <= b.len(),
        b.subrange(i, i + 8) == spec_u64_bytes(x),
    ensures
        spec_u64_at(b, i) == x,
{
    assert(b[i] == spec_u64_bytes(x)[0] && b[i + 1] == spec_u64_bytes(x)[1] && b[i + 2]
        == spec_u64_bytes(x)[2] && b[i + 3] == spec_u64_bytes(x)[3] && b[i + 4] == spec_u64_bytes(
        x,
    )[4] && b[i + 5] == spec_u64_bytes(x)[5] && b[i + 6] == spec_u64_bytes(x)[6] && b[i + 7]
        == spec_u64_bytes(x)[7]);
    lemma_u64_round_trip(x);
}

/// One encoded record at the head of a longer sequence decodes back to the
/// record and leaves exactly the tail.
proof fn lemma_record_round_trip(h: FileHeader, r: Hit, rest: Seq<u8>)
    requires
        hit_conforms(h, r),
    ensures
        ({
            let b = spec_encode_record(h, r) + rest;
            &&& b.len() >= spec_fixed_size(h)
            &&& h.has_waveform ==> b.len() >= spec_fixed_size(h) + 4
            &&& spec_record_len(h, b) == spec_encode_record(h, r).len()
            &&& spec_record_at(h, b) == r
            &&& b.skip(spec_record_len(h, b)) == rest
        }),
{
    let e = spec_encode_record(h, r);
    let b = e + rest;
    lemma_encode_record_layout(h, r);
    assert forall|i: int, j: int| 0 <= i && j <= e.len() && i <= j implies b.subrange(i, j)
        =~= e.subrange(i, j) by {}
    assert(b.subrange(0, 2) == spec_u16_bytes(r.board));
    lemma_u16_at_embedded(b, 0, r.board);
    assert(b.subrange(2, 4) == spec_u16_bytes(r.channel));
    lemma_u16_at_embedded(b, 2, r.channel);
    assert(b.subrange(4, 12) == spec_u64_bytes(r.timestamp_ps));
    lemma_u64_at_embedded(b, 4, r.timestamp_ps);
    if h.has_energy {
        assert(b.subrange(spec_energy_off(), spec_energy_off() + 2) == spec_u16_bytes(r.energy));
        lemma_u16_at_embedded(b, spec_energy_off(), r.energy);
    }
    if h.has_energy_short {
        assert(b.subrange(spec_energy_short_off(h), spec_energy_short_off(h) + 2)
            == spec_u16_bytes(r.energy_short));
        lemma_u16_at_embedded(b, spec_energy_short_off(h), r.energy_short);
    }
    if h.has_flags {
        assert(b.subrange(spec_flags_off(h), spec_flags_off(h) + 4) == spec_u32_bytes(r.flags));
        lemma_u32_at_embedded(b, spec_flags_off(h), r.flags);
    }
    if h.has_waveform {
        assert(b.subrange(spec_fixed_size(h), spec_fixed_size(h) + 4) == spec_u32_bytes(
            r.n_samples,
        ));
        lemma_u32_at_embedded(b, spec_fixed_size(h), r.n_samples);
    }
    assert(spec_record_at(h, b) == r);
    assert(b.skip(spec_record_len(h, b)) =~= rest);
}

/// Encoding any conforming record stream and decoding it yields the records
/// back unchanged: board, channel, timestamp, energies, and flags are
/// bit-identical.
pub proof fn lemma_encode_decode_records(h: FileHeader, rs: Seq<Hit>)
    requires
        forall|i: int| 0 <= i < rs.len() ==> hit_conforms(h, #[trigger] rs[i]),
    ensures
        spec_decode_records(h, spec_encode_records(h, rs)) == Ok::<Seq<Hit>, DecodeError>(rs),
    decreases rs.len(),
{
    reveal(spec_decode_records);
    if rs.len() == 0 {
        assert(spec_encode_records(h, rs).len() == 0);
        assert(spec_decode_records(h, spec_encode_records(h, rs)) == Ok::<Seq<Hit>, DecodeError>(
            Seq::<Hit>::empty(),
        ));
        assert(rs =~= Seq::<Hit>::empty());
    } else {
        let r = rs[0];
        let tail = rs.skip(1);
        assert forall|i: int| 0 <= i < tail.len() implies hit_conforms(h, #[trigger] tail[i]) by {
            assert(tail[i] == rs[i + 1]);
        }
        lemma_encode_decode_records(h, tail);
        let rest = spec_encode_records(h, tail);
        let b = spec_encode_record(h, r) + rest;
        assert(spec_encode_records(h, rs) == b);
        lemma_record_round_trip(h, r, rest);
        assert(spec_fixed_size(h) >= 12);
        assert(b.len() > 0);
        assert(spec_decode_records(h, b) == Ok::<Seq<Hit>, DecodeError>(
            seq![spec_record_at(h, b)] + tail,
        ));
        assert(seq![r] + tail =~= rs);
    }
}

/// Round trip through a whole file, header included.
pub proof fn lemma_encode_decode_file(h: FileHeader, rs: Seq<Hit>)
    requires
        forall|i: int| 0 <= i < rs.len() ==> hit_conforms(h, #[trigger] rs[i]),
    ensures
        spec_decode_file(spec_encode_file(h, rs)) == Ok::<Seq<Hit>, DecodeError>(rs),
{
    let w = spec_header_word(h);
    let b = spec_encode_file(h, rs);
    lemma_header_word_round_trip(h);
    assert(b.subrange(0, 2) =~= spec_u16_bytes(w));
    lemma_u16_at_embedded(b, 0, w);
    assert(b.skip(2) =~= spec_encode_records(h, rs));
    lemma_encode_decode_records(h, rs);
}


fn read_u16(b: &[u8], i: usize) -> (r: u16)
    requires
        i + 2 <= b@.len(),
    ensures
        r == spec_u16_at(b@, i as int),
{
    let n = b.len();
    b[i] as u16 + b[i + 1] as u16 * 0x100
}

fn read_u32(b: &[u8], i: usize) -> (r: u32)
    requires
        i + 4 <= b@.len(),
    ensures
        r == spec_u32_at(b@, i as int),
{
    let n = b.len();
    b[i] as u32 + b[i + 1] as u32 * 0x100 + b[i + 2] as u32 * 0x10000 + b[i + 3] as u32 * 0x1000000
}

fn read_u64(b: &[u8], i: usize) -> (r: u64)
    requires
        i + 8 <= b@.len(),
    ensures
        r == spec_u64_at(b@, i as int),
{
    let n = b.len();
    b[i] as u64 + b[i + 1] as u64 * 0x100 + b[i + 2] as u64 * 0x10000 + b[i + 3] as u64 * 0x1000000
        + b[i + 4] as u64 * 0x100000000 + b[i + 5] as u64 * 0x10000000000 + b[i + 6] as u64
        * 0x1000000000000 + b[i + 7] as u64 * 0x100000000000000
}

impl FileHeader {
    /// Decodes a header word into its field declarations.
    pub fn from_word(w: u16) -> (r: FileHeader)
        ensures
            r == spec_header_of(w),
    {
        FileHeader {
            has_energy: w % 2 == 1,
            has_energy_short: (w / 2) % 2 == 1,
            has_energy_calibrated: (w / 4) % 2 == 1,
            has_flags: (w / 8) % 2 == 1,
            has_waveform: (w / 16) % 2 == 1,
        }
    }

    /// The header word that declares exactly these fields.
    pub fn to_word(&self) -> (r: u16)
        ensures
            r == spec_header_word(*self),
    {
        (if self.has_energy { 1u16 } else { 0u16 }) + (if self.has_energy_short { 2u16 } else { 0u16 })
            + (if self.has_energy_calibrated { 4u16 } else { 0u16 }) + (if self.has_flags { 8u16 } else { 0u16 })
            + (if self.has_waveform { 16u16 } else { 0u16 })
    }

    fn fixed_size(&self) -> (r: usize)
        ensures
            r == spec_fixed_size(*self),
    {
        12 + (if self.has_energy { 2usize } else { 0usize })
            + (if self.has_energy_short { 2usize } else { 0usize })
            + (if self.has_energy_calibrated { 8usize } else { 0usize })
            + (if self.has_flags { 4usize } else { 0usize })
    }
}


/// Reads the declared fields of the record at `pos`.
fn read_record(bytes: &[u8], pos: usize, h: &FileHeader, fixed: usize, nsamp: u32) -> (r: Hit)
    requires
        fixed == spec_fixed_size(*h),
        pos + fixed <= bytes@.len(),
        h.has_waveform ==> nsamp == spec_u32_at(bytes@.skip(pos as int), spec_fixed_size(*h)),
        !h.has_waveform ==> nsamp == 0,
    ensures
        r == spec_record_at(*h, bytes@.skip(pos as int)),
{
    let n = bytes.len();
    let ghost tail = bytes@.skip(pos as int);
    proof {
        assert(spec_fixed_size(*h) >= 12);
        assert forall|j: int| 0 <= j < tail.len() implies tail[j] == bytes@[pos + j] by {}
    }
    let board = read_u16(bytes, pos);
    let channel = read_u16(bytes, pos + 2);
    let timestamp_ps = read_u64(bytes, pos + 4);
    let mut off = pos + 12;
    let mut energy: u16 = 0;
    if h.has_energy {
        energy = read_u16(bytes, off);
        off = off + 2;
    }
    let mut energy_short: u16 = 0;
    if h.has_energy_short {
        energy_short = read_u16(bytes, off);
        off = off + 2;
    }
    if h.has_energy_calibrated {
        off = off + 8;
    }
    let mut flags: u32 = 0;
    if h.has_flags {
        flags = read_u32(bytes, off);
        off = off + 4;
    }
    let hit = Hit { board, channel, timestamp_ps, energy, energy_short, flags, n_samples: nsamp };
    proof {
        assert(spec_u16_at(tail, 0) == spec_u16_at(bytes@, pos as int));
        assert(spec_u16_at(tail, 2) == spec_u16_at(bytes@, pos + 2));
        assert(spec_u64_at(tail, 4) == spec_u64_at(bytes@, pos + 4));
        if h.has_energy {
            assert(spec_u16_at(tail, spec_energy_off()) == spec_u16_at(
                bytes@,
                pos + spec_energy_off(),
            ));
        }
        if h.has_energy_short {
            assert(spec_u16_at(tail, spec_energy_short_off(*h)) == spec_u16_at(
                bytes@,
                pos + spec_energy_short_off(*h),
            ));
        }
        if h.has_flags {
            assert(spec_u32_at(tail, spec_flags_off(*h)) == spec_u32_at(
                bytes@,
                pos + spec_flags_off(*h),
            ));
        }
        assert(hit == spec_record_at(*h, tail));
    }
    hit
}

/// Decodes one whole file: raw hits, before any shift correction.
#[verifier::rlimit(100)]
pub fn decode_file(bytes: &[u8]) -> (r: Result<Vec<Hit>, DecodeError>)
    ensures
        match spec_decode_file(bytes@) {
            Ok(s) => r is Ok && r->Ok_0@ == s,
            Err(e) => r is Err && r->Err_0 == e,
        },
{
    let n = bytes.len();
    if n < 2 {
        return Err(DecodeError::MissingHeader);
    }
    let w = read_u16(bytes, 0);
    if w >= 32 {
        return Err(DecodeError::BadHeader);
    }
    let h = FileHeader::from_word(w);
    let fixed = h.fixed_size();
    let mut pos: usize = 2;
    let mut hits: Vec<Hit> = Vec::new();
    proof {
        match spec_decode_records(h, bytes@.skip(2)) {
            Ok(rest) => {
                assert(hits@ + rest =~= rest);
            },
            Err(e) => {},
        }
    }
    loop
        invariant
            2 <= pos <= n,
            n == bytes@.len(),
            h == spec_header_of(spec_u16_at(bytes@, 0)),
            fixed == spec_fixed_size(h),
            spec_header_valid(spec_u16_at(bytes@, 0)),
            match spec_decode_records(h, bytes@.skip(pos as int)) {
                Ok(rest) => spec_decode_records(h, bytes@.skip(2)) == Ok::<Seq<Hit>, DecodeError>(
                    hits@ + rest,
                ),
                Err(e) => spec_decode_records(h, bytes@.skip(2)) == Err::<Seq<Hit>, DecodeError>(
                    e,
                ),
            },
        decreases n - pos,
    {
        let ghost tail = bytes@.skip(pos as int);
        proof {
            assert(tail.len() == n - pos);
        }
        if pos == n {
            proof {
                assert(tail.len() == 0);
                assert(spec_decode_records(h, tail) == Ok::<Seq<Hit>, DecodeError>(
                    Seq::<Hit>::empty(),
                )) by {
                    reveal(spec_decode_records);
                }
                assert(hits@ + Seq::<Hit>::empty() =~= hits@);
            }
            return Ok(hits);
        }
        let rem = n - pos;
        if rem < fixed {
            proof {
                assert(spec_decode_records(h, tail) == Err::<Seq<Hit>, DecodeError>(
                    DecodeError::TruncatedRecord,
                )) by {
                    reveal(spec_decode_records);
                }
            }
            return Err(DecodeError::TruncatedRecord);
        }
        let mut nsamp: u32 = 0;
        let rlen: usize;
        if h.has_waveform {
            if rem - fixed < 4 {
                proof {
                    assert(spec_decode_records(h, tail) == Err::<Seq<Hit>, DecodeError>(
                        DecodeError::TruncatedRecord,
                    )) by {
                        reveal(spec_decode_records);
                    }
                }
                return Err(DecodeError::TruncatedRecord);
            }
            nsamp = read_u32(bytes, pos + fixed);
            proof {
                assert forall|j: int| 0 <= j < tail.len() implies tail[j] == bytes@[pos + j] by {}
                assert(spec_u32_at(tail, fixed as int) == spec_u32_at(bytes@, pos + fixed));
            }
            let need: u64 = fixed as u64 + 4 + 2 * (nsamp as u64);
            if (rem as u64) < need {
                proof {
                    assert(spec_decode_records(h, tail) == Err::<Seq<Hit>, DecodeError>(
                        DecodeError::WaveformOverrun,
                    )) by {
                        reveal(spec_decode_records);
                    }
                }
                return Err(DecodeError::WaveformOverrun);
            }
            rlen = need as usize;
        } else {
            rlen = fixed;
        }
        proof {
            assert(rlen as int == spec_record_len(h, tail));
            assert(tail.len() >= spec_record_len(h, tail));
        }
        let hit = read_record(bytes, pos, &h, fixed, nsamp);
        let ghost prev_hits = hits@;
        hits.push(hit);
        pos = pos + rlen;
        proof {
            let tail2 = bytes@.skip(pos as int);
            assert(tail2 =~= tail.skip(rlen as int));
            match spec_decode_records(h, tail2) {
                Ok(rest) => {
                    assert(spec_decode_records(h, tail) == Ok::<Seq<Hit>, DecodeError>(
                        seq![hit] + rest,
                    )) by {
                        reveal(spec_decode_records);
                    }
                    assert(prev_hits + (seq![hit] + rest) =~= hits@ + rest);
                },
                Err(e) => {
                    assert(spec_decode_records(h, tail) == Err::<Seq<Hit>, DecodeError>(e)) by {
                        reveal(spec_decode_records);
                    }
                },
            }
        }
    }
}

/// Counts the records of one file without materializing the hits: the
/// scaler pass.
pub fn count_records(bytes: &[u8]) -> (r: Result<usize, DecodeError>)
    ensures
        match spec_decode_file(bytes@) {
            Ok(s) => r is Ok && r->Ok_0 == s.len(),
            Err(e) => r is Err && r->Err_0 == e,
        },
{
    match decode_file(bytes) {
        Ok(hits) => Ok(hits.len()),
        Err(e) => Err(e),
    }
}

/// The encoding of one record under header `h`.
fn encode_record(h: &FileHeader, r: &Hit) -> (out: Vec<u8>)
    ensures
        out@ == spec_encode_record(*h, *r),
{
    let mut out: Vec<u8> = Vec::new();
    push_u16(&mut out, r.board);
    push_u16(&mut out, r.channel);
    push_u64(&mut out, r.timestamp_ps);
    let ghost g0 = spec_u16_bytes(r.board) + spec_u16_bytes(r.channel) + spec_u64_bytes(
        r.timestamp_ps,
    );
    proof {
        assert(out@ =~= g0);
    }
    if h.has_energy {
        push_u16(&mut out, r.energy);
    }
    let ghost g1 = g0 + (if h.has_energy {
        spec_u16_bytes(r.energy)
    } else {
        Seq::<u8>::empty()
    });
    proof {
        assert(out@ =~= g1);
    }
    if h.has_energy_short {
        push_u16(&mut out, r.energy_short);
    }
    let ghost g2 = g1 + (if h.has_energy_short {
        spec_u16_bytes(r.energy_short)
    } else {
        Seq::<u8>::empty()
    });
    proof {
        assert(out@ =~= g2);
    }
    if h.has_energy_calibrated {
        push_zeros(&mut out, 8);
    }
    let ghost g3 = g2 + (if h.has_energy_calibrated {
        spec_zero_bytes(8)
    } else {
        Seq::<u8>::empty()
    });
    proof {
        assert(out@ =~= g3);
    }
    if h.has_flags {
        push_u32(&mut out, r.flags);
    }
    let ghost g4 = g3 + (if h.has_flags {
        spec_u32_bytes(r.flags)
    } else {
        Seq::<u8>::empty()
    });
    proof {
        assert(out@ =~= g4);
    }
    if h.has_waveform {
        push_u32(&mut out, r.n_samples);
        push_zeros(&mut out, 2 * (r.n_samples as u64));
    }
    let ghost g5 = g4 + (if h.has_waveform {
        spec_u32_bytes(r.n_samples) + spec_zero_bytes(2 * r.n_samples)
    } else {
        Seq::<u8>::empty()
    });
    proof {
        assert(out@ =~= g5);
        assert(out@ == spec_encode_record(*h, *r)) by {
            reveal(spec_encode_record);
        }
    }
    out
}

fn push_u16(out: &mut Vec<u8>, x: u16)
    ensures
        final(out)@ == old(out)@ + spec_u16_bytes(x),
{
    out.push((x % 0x100) as u8);
    out.push((x / 0x100) as u8);
    proof {
        assert(out@ =~= old(out)@ + spec_u16_bytes(x));
    }
}

fn push_u32(out: &mut Vec<u8>, x: u32)
    ensures
        final(out)@ == old(out)@ + spec_u32_bytes(x),
{
    out.push((x % 0x100) as u8);
    out.push(((x / 0x100) % 0x100) as u8);
    out.push(((x / 0x10000) % 0x100) as u8);
    out.push((x / 0x1000000) as u8);
    proof {
        assert(out@ =~= old(out)@ + spec_u32_bytes(x));
    }
}

fn push_u64(out: &mut Vec<u8>, x: u64)
    ensures
        final(out)@ == old(out)@ + spec_u64_bytes(x),
{
    out.push((x % 0x100) as u8);
    out.push(((x / 0x100) % 0x100) as u8);
    out.push(((x / 0x10000) % 0x100) as u8);
    out.push(((x / 0x1000000) % 0x100) as u8);
    out.push(((x / 0x100000000) % 0x100) as u8);
    out.push(((x / 0x10000000000) % 0x100) as u8);
    out.push(((x / 0x1000000000000) % 0x100) as u8);
    out.push((x / 0x100000000000000) as u8);
    proof {
        assert(out@ =~= old(out)@ + spec_u64_bytes(x));
    }
}

fn push_zeros(out: &mut Vec<u8>, n: u64)
    ensures
        final(out)@ == old(out)@ + spec_zero_bytes(n as int),
{
    let mut j: u64 = 0;
    while j < n
        invariant
            0 <= j <= n,
            out@ == old(out)@ + spec_zero_bytes(j as int),
        decreases n - j,
    {
        out.push(0);
        proof {
            assert(old(out)@ + spec_zero_bytes(j as int) + seq![0u8] =~= old(out)@
                + spec_zero_bytes(j + 1));
        }
        j = j + 1;
    }
}

proof fn lemma_encode_records_snoc(h: FileHeader, rs: Seq<Hit>, r: Hit)
    ensures
        spec_encode_records(h, rs.push(r)) == spec_encode_records(h, rs) + spec_encode_record(
            h,
            r,
        ),
    decreases rs.len(),
{
    if rs.len() == 0 {
        assert(rs.push(r)[0] == r);
        assert(rs.push(r).skip(1) =~= Seq::<Hit>::empty());
        assert(spec_encode_records(h, Seq::<Hit>::empty()) == Seq::<u8>::empty());
        assert(spec_encode_record(h, r) + Seq::<u8>::empty() =~= spec_encode_record(h, r));
        assert(Seq::<u8>::empty() + spec_encode_record(h, r) =~= spec_encode_record(h, r));
        assert(spec_encode_records(h, rs.push(r)) =~= spec_encode_records(h, rs)
            + spec_encode_record(h, r));
    } else {
        assert(rs.push(r)[0] == rs[0]);
        assert(rs.push(r).skip(1) =~= rs.skip(1).push(r));
        lemma_encode_records_snoc(h, rs.skip(1), r);
        assert(spec_encode_record(h, rs[0]) + (spec_encode_records(h, rs.skip(1))
            + spec_encode_record(h, r)) =~= (spec_encode_record(h, rs[0]) + spec_encode_records(
            h,
            rs.skip(1),
        )) + spec_encode_record(h, r));
        assert(spec_encode_records(h, rs.push(r)) =~= spec_encode_records(h, rs)
            + spec_encode_record(h, r));
    }
}

/// Encodes a synthetic file: the header word, then every record under that
/// header.
pub fn encode_file(h: &FileHeader, hits: &Vec<Hit>) -> (r: Vec<u8>)
    ensures
        r@ == spec_encode_file(*h, hits@),
{
    let mut out: Vec<u8> = Vec::new();
    let w = h.to_word();
    push_u16(&mut out, w);
    proof {
        assert(Seq::<u8>::empty() + spec_u16_bytes(w) =~= spec_u16_bytes(w));
        assert(spec_encode_records(*h, hits@.take(0)) =~= Seq::<u8>::empty());
        assert(spec_u16_bytes(w) + Seq::<u8>::empty() =~= spec_u16_bytes(w));
    }
    let mut i: usize = 0;
    while i < hits.len()
        invariant
            0 <= i <= hits@.len(),
            out@ == spec_u16_bytes(spec_header_word(*h)) + spec_encode_records(*h, hits@.take(i as int)),
        decreases hits@.len() - i,
    {
        let ghost prefix = hits@.take(i as int);
        let mut rec = encode_record(h, &hits[i]);
        out.append(&mut rec);
        proof {
            lemma_encode_records_snoc(*h, prefix, hits@[i as int]);
            assert(hits@.take(i + 1) =~= prefix.push(hits@[i as int]));
            assert(spec_u16_bytes(spec_header_word(*h)) + (spec_encode_records(*h, prefix)
                + spec_encode_record(*h, hits@[i as int])) =~= (spec_u16_bytes(spec_header_word(*h))
                + spec_encode_records(*h, prefix)) + spec_encode_record(*h, hits@[i as int]));
        }
        i = i + 1;
    }
    proof {
        assert(hits@.take(hits@.len() as int) =~= hits@);
    }
    out
}

} // verus!
