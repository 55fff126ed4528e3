//! Per-channel timestamp shift correction.
//!
//! Each entry adds a fixed offset (in picoseconds) to every hit of one
//! (board, channel); channels without an entry keep their raw timestamps.
//! A shifted timestamp is clamped to the `u64` range, which no physical
//! offset ever reaches.

use vstd::prelude::*;

use crate::hit::Hit;

verus! {

/// One shift: `time_shift_ps` picoseconds added to every timestamp of the
/// given board and channel.
#[derive(Clone, Copy, Debug, PartialEq, Eq, Structural)]
pub struct ShiftMapEntry {
    pub board_number: u32,
    pub channel_number: u32,
    pub time_shift_ps: i64,
}

/// The shift map: a read-only lookup table from (board, channel) to offset.
#[derive(Clone, Debug)]
pub struct ShiftMap {
    entries: Vec<ShiftMapEntry>,
}

impl View for ShiftMap {
    type V = Seq<ShiftMapEntry>;

    closed spec fn view(&self) -> Seq<ShiftMapEntry> {
        self.entries@
    }
}

/// The offset of (board, channel): the first matching entry, or zero.
pub open spec fn spec_shift_of(entries: Seq<ShiftMapEntry>, board: u16, channel: u16) -> i64
    decreases entries.len(),
{
    if entries.len() == 0 {
        0
    } else if entries[0].board_number == board && entries[0].channel_number == channel {
        entries[0].time_shift_ps
    } else {
        spec_shift_of(entries.skip(1), board, channel)
    }
}

/// `ts + shift`, clamped to the representable range.
pub open spec fn spec_shifted_ps(ts: u64, shift: i64) -> u64 {
    if ts + shift > u64::MAX {
        u64::MAX
    } else if ts + shift < 0 {
        0
    } else {
        (ts + shift) as u64
    }
}

/// A hit after shift correction.
pub open spec fn spec_shift_hit(h: Hit, entries: Seq<ShiftMapEntry>) -> Hit {
    Hit { timestamp_ps: spec_shifted_ps(h.timestamp_ps, spec_shift_of(entries, h.board, h.channel)), ..h }
}

impl ShiftMap {
    /// Builds the map from configured entries. An earlier entry for the same
    /// (board, channel) wins.
    pub fn new(entries: Vec<ShiftMapEntry>) -> (r: ShiftMap)
        ensures
            r@ == entries@,
    {
        ShiftMap { entries }
    }

    /// The offset for one channel; zero when no entry matches.
    pub fn get_shift(&self, board: u16, channel: u16) -> (r: i64)
        ensures
            r == spec_shift_of(self@, board, channel),
    {
        let mut i: usize = 0;
        proof {
            assert(self.entries@.skip(0) =~= self.entries@);
        }
        while i < self.entries.len()
            invariant
                0 <= i <= self.entries@.len(),
                spec_shift_of(self@, board, channel) == spec_shift_of(
                    self.entries@.skip(i as int),
                    board,
                    channel,
                ),
        decreases self.entries@.len() - i,
        {
            let e = self.entries[i];
            proof {
                assert(self.entries@.skip(i as int)[0] == self.entries@[i as int]);
                assert(self.entries@.skip(i as int).skip(1) =~= self.entries@.skip(i + 1));
            }
            if e.board_number == board as u32 && e.channel_number == channel as u32 {
                return e.time_shift_ps;
            }
            i = i + 1;
        }
        proof {
            assert(self.entries@.skip(i as int).len() == 0);
        }
        0
    }
}

fn shifted_time(ts: u64, shift: i64) -> (r: u64)
    ensures
        r == spec_shifted_ps(ts, shift),
{
    if shift >= 0 {
        let s = shift as u64;
        if ts <= u64::MAX - s {
            ts + s
        } else {
            u64::MAX
        }
    } else {
        let m: i128 = -(shift as i128);
        proof {
            assert(0 < m <= 0x8000000000000000i128);
        }
        let s = m as u64;
        if ts >= s {
            ts - s
        } else {
            0
        }
    }
}

/// Applies the shift map to every hit of a decoded stream, in order.
pub fn apply_shifts(hits: &Vec<Hit>, shifts: &ShiftMap) -> (r: Vec<Hit>)
    ensures
        r@.len() == hits@.len(),
        forall|i: int| 0 <= i < hits@.len() ==> r@[i] == spec_shift_hit(#[trigger] hits@[i], shifts@),
{
    let mut r: Vec<Hit> = Vec::new();
    let mut i: usize = 0;
    while i < hits.len()
        invariant
            0 <= i <= hits@.len(),
            r@.len() == i,
            forall|j: int| 0 <= j < i ==> r@[j] == spec_shift_hit(#[trigger] hits@[j], shifts@),
        decreases hits@.len() - i,
    {
        let h = hits[i];
        let shift = shifts.get_shift(h.board, h.channel);
        let shifted = Hit { timestamp_ps: shifted_time(h.timestamp_ps, shift), ..h };
        r.push(shifted);
        i = i + 1;
    }
    r
}

} // verus!
