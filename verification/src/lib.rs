//! Event builder for CoMPASS digitizer data.
//!
//! The pipeline turns per-channel binary files into time-correlated physics
//! events: files are decoded into hits, the per-file streams are merged in
//! time order, a coincidence window groups hits into events, and each event
//! is projected onto a wide columnar schema derived from the channel map.
//!
//! All timestamps are kept in integral picoseconds, exactly as they appear
//! on disk; conversion to floating-point nanoseconds is left to callers.

pub mod channel_data;
pub mod channel_map;
pub mod decoder;
pub mod event_builder;
pub mod hit;
pub mod kinematics;
pub mod merger;
pub mod run;
pub mod scaler_list;
pub mod shift_map;
