//! Wall-clock access.  The pipeline's logic takes time as plain values; this
//! module is the one place that reads the machine clock, through a single
//! trusted wrapper around chrono.

use chrono::Datelike;
use chrono::Timelike;
use vstd::prelude::*;

use crate::msg::Timestamp;

verus! {

/// Raw fields read from the local wall clock: the unix-second count and the
/// local calendar fields.
pub struct ClockFields {
    pub unix_secs: i64,
    pub year: i32,
    pub month: u8,
    pub day: u8,
    pub hour: u8,
    pub minute: u8,
    pub second: u8,
}

/// Relies on `chrono::Local::now` and the `Datelike`/`Timelike` accessors of
/// the `DateTime` it returns: `month` ranges over 1 to 12, `day` over 1 to
/// 31, `hour` over 0 to 23, `minute` and `second` over 0 to 59, and
/// `timestamp` is the count of non-leap seconds since the unix epoch.  The
/// year is a plain `i32` with no documented bound, so nothing is promised of
/// it, nor of which instant the clock reports.
#[verifier::external_body]
fn read_local_clock() -> (r: ClockFields)
    ensures
        1 <= r.month <= 12,
        1 <= r.day <= 31,
        r.hour <= 23,
        r.minute <= 59,
        r.second <= 59,
{
    let n = chrono::Local::now();
    ClockFields {
        unix_secs: n.timestamp(),
        year: n.year(),
        month: n.month() as u8,
        day: n.day() as u8,
        hour: n.hour() as u8,
        minute: n.minute() as u8,
        second: n.second() as u8,
    }
}

/// Reads the local wall clock as a unix-second count (for debounce
/// arithmetic) and a well-formed calendar timestamp (for log rows and file
/// names).  Returns `None` when the clock reports a year outside 0 to 9999,
/// which log rows could not carry as four digits.
pub fn now_clock() -> (r: Option<(i64, Timestamp)>)
    ensures
        r matches Some(c) ==> c.1.wf(),
{
    let f = read_local_clock();
    if 0 <= f.year && f.year <= 9999 {
        match Timestamp::new(f.year as u16, f.month, f.day, f.hour, f.minute, f.second) {
            Some(ts) => Some((f.unix_secs, ts)),
            None => None,
        }
    } else {
        None
    }
}

} // verus!
