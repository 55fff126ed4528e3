//! The atomic record of the pipeline: one digitized pulse.

use vstd::prelude::*;

verus! {

/// One digitized pulse as it moves through the pipeline.
///
/// `timestamp_ps` is in integral picoseconds (the on-disk unit), after any
/// shift correction. `energy` and `energy_short` are the raw integrated
/// amplitudes. `n_samples` records the length of an inline waveform that the
/// decoder skipped; the samples themselves are not retained.
#[derive(Clone, Copy, Debug, PartialEq, Eq, Structural)]
pub struct Hit {
    pub board: u16,
    pub channel: u16,
    pub timestamp_ps: u64,
    pub energy: u16,
    pub energy_short: u16,
    pub flags: u32,
    pub n_samples: u32,
}

/// The channel UUID collapses (board, channel) to one key: `(board << 16) | channel`.
pub open spec fn spec_channel_uuid(board: u16, channel: u16) -> u32 {
    (board * 0x10000 + channel) as u32
}

/// Deterministic identifier for a (board, channel) pair.
pub fn channel_uuid(board: u16, channel: u16) -> (r: u32)
    ensures
        r == spec_channel_uuid(board, channel),
{
    board as u32 * 0x10000 + channel as u32
}

/// Distinct (board, channel) pairs have distinct UUIDs.
pub proof fn lemma_channel_uuid_injective(b1: u16, c1: u16, b2: u16, c2: u16)
    requires
        spec_channel_uuid(b1, c1) == spec_channel_uuid(b2, c2),
    ensures
        b1 == b2 && c1 == c2,
{
}

} // verus!
