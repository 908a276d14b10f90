//! Acquisition-and-debounce pipeline for a BLE temperature/humidity monitor:
//! payload decoding, the scan-cycle state machine, the deduplication and
//! persistence stage, the shared configuration snapshot, and the daily-log
//! row format.

pub mod clock;
pub mod config;
pub mod decode;
pub mod history;
pub mod logfmt;
pub mod msg;
pub mod scan;
pub mod stage;
