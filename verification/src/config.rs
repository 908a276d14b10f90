//! Configuration snapshot for the acquisition pipeline, and the shared cell
//! through which the scan loop and the settings editor exchange it.
//!
//! All durations are in whole seconds; `u64` makes the "durations are
//! non-negative" invariant hold by construction.  Temperatures are carried in
//! tenths of a degree, the fixed-point unit the peripheral broadcasts in.

use vstd::prelude::*;

verus! {

/// Abstract value of a [`Config`]: the same fields with the target address as
/// a byte sequence.
pub ghost struct ConfigV {
    pub target_address: Seq<u8>,
    pub scan_timeout_secs: u64,
    pub scan_pause_secs: u64,
    pub duplicate_threshold_secs: u64,
    pub continuous_scan_secs: u64,
    pub continuous_mode: bool,
    pub temp_warn_high_tenths: i16,
    pub temp_warn_low_tenths: i16,
    pub load_all_history: bool,
}

/// One immutable snapshot of the pipeline's configuration.
///
/// The scan loop reads a snapshot once per cycle; the settings editor replaces
/// the shared copy wholesale.  `target_address` holds the ASCII text of the
/// peripheral address and is compared case-insensitively.
/// `continuous_scan_secs` is the per-window scan deadline used in continuous
/// mode (the bounded mode uses `scan_timeout_secs` instead); its default is
/// 60 seconds.  The two warning thresholds are carried for the presentation
/// layer only.
#[derive(Debug)]
pub struct Config {
    pub target_address: Vec<u8>,
    pub scan_timeout_secs: u64,
    pub scan_pause_secs: u64,
    pub duplicate_threshold_secs: u64,
    pub continuous_scan_secs: u64,
    pub continuous_mode: bool,
    pub temp_warn_high_tenths: i16,
    pub temp_warn_low_tenths: i16,
    pub load_all_history: bool,
}

impl View for Config {
    type V = ConfigV;

    open spec fn view(&self) -> ConfigV {
        ConfigV {
            target_address: self.target_address@,
            scan_timeout_secs: self.scan_timeout_secs,
            scan_pause_secs: self.scan_pause_secs,
            duplicate_threshold_secs: self.duplicate_threshold_secs,
            continuous_scan_secs: self.continuous_scan_secs,
            continuous_mode: self.continuous_mode,
            temp_warn_high_tenths: self.temp_warn_high_tenths,
            temp_warn_low_tenths: self.temp_warn_low_tenths,
            load_all_history: self.load_all_history,
        }
    }
}

/// ASCII text of the default target address, "B8:59:CE:33:0F:93".
pub open spec fn default_target_address() -> Seq<u8> {
    seq![66u8, 56, 58, 53, 57, 58, 67, 69, 58, 51, 51, 58, 48, 70, 58, 57, 51]
}

/// Default configuration view.
pub open spec fn default_config() -> ConfigV {
    ConfigV {
        target_address: default_target_address(),
        scan_timeout_secs: 20,
        scan_pause_secs: 20,
        duplicate_threshold_secs: 30,
        continuous_scan_secs: 60,
        continuous_mode: true,
        temp_warn_high_tenths: 300,
        temp_warn_low_tenths: 100,
        load_all_history: true,
    }
}

impl Default for Config {
    /// The defaults used when no stored configuration exists.
    fn default() -> (r: Self)
        ensures
            r@ == default_config(),
    {
        let target: Vec<u8> = vec![
            66u8, 56, 58, 53, 57, 58, 67, 69, 58, 51, 51, 58, 48, 70, 58, 57, 51,
        ];
        proof {
            assert(target@ =~= default_target_address());
        }
        Config {
            target_address: target,
            scan_timeout_secs: 20,
            scan_pause_secs: 20,
            duplicate_threshold_secs: 30,
            continuous_scan_secs: 60,
            continuous_mode: true,
            temp_warn_high_tenths: 300,
            temp_warn_low_tenths: 100,
            load_all_history: true,
        }
    }
}

impl Clone for Config {
    /// A clone carries the same abstract value.
    fn clone(&self) -> (r: Self)
        ensures
            r@ == self@,
    {
        let target = self.target_address.clone();
        proof {
            assert(target@ =~= self.target_address@);
        }
        Config {
            target_address: target,
            scan_timeout_secs: self.scan_timeout_secs,
            scan_pause_secs: self.scan_pause_secs,
            duplicate_threshold_secs: self.duplicate_threshold_secs,
            continuous_scan_secs: self.continuous_scan_secs,
            continuous_mode: self.continuous_mode,
            temp_warn_high_tenths: self.temp_warn_high_tenths,
            temp_warn_low_tenths: self.temp_warn_low_tenths,
            load_all_history: self.load_all_history,
        }
    }
}

/// The shared configuration cell: a whole-value snapshot store.
///
/// `read` hands out a full copy and `write` replaces the value atomically from
/// the caller's point of view; last writer wins.  The surrounding program is
/// expected to guard one `ConfigCell` with a mutual-exclusion primitive when
/// several execution contexts touch it.
pub struct ConfigCell {
    current: Config,
}

impl ConfigCell {
    /// Abstract value currently stored in the cell.
    pub closed spec fn value(&self) -> ConfigV {
        self.current@
    }

    /// A cell starts out holding the given snapshot.
    pub fn new(initial: Config) -> (r: Self)
        ensures
            r.value() == initial@,
    {
        ConfigCell { current: initial }
    }

    /// Returns a full snapshot copy of the stored configuration.
    pub fn read(&self) -> (r: Config)
        ensures
            r@ == self.value(),
    {
        self.current.clone()
    }

    /// Replaces the stored configuration wholesale.
    pub fn write(&mut self, next: Config)
        ensures
            final (self).value() == next@,
    {
        self.current = next;
    }
}

} // verus!
