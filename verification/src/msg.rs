//! The data carried through the pipeline: capture timestamps, decoded
//! readings, scan-status indicators, and the tagged message type that the
//! channels between the stages transport.

use vstd::prelude::*;

verus! {

/// A wall-clock instant at second resolution, split into calendar fields.
///
/// The pipeline treats time as plain values handed in by the caller; nothing
/// in the verified core reads a clock itself.
#[derive(Clone, Copy, PartialEq, Eq, Structural, Debug)]
pub struct Timestamp {
    pub year: u16,
    pub month: u8,
    pub day: u8,
    pub hour: u8,
    pub minute: u8,
    pub second: u8,
}

impl Timestamp {
    /// Field ranges of a well-formed timestamp.  The year is capped so that
    /// it always prints as exactly four digits.
    pub open spec fn wf(self) -> bool {
        &&& self.year <= 9999
        &&& 1 <= self.month <= 12
        &&& 1 <= self.day <= 31
        &&& self.hour <= 23
        &&& self.minute <= 59
        &&& self.second <= 59
    }

    /// Builds a timestamp, accepting exactly the well-formed field values.
    pub fn new(year: u16, month: u8, day: u8, hour: u8, minute: u8, second: u8) -> (r: Option<
        Timestamp,
    >)
        ensures
            r matches Some(t) ==> t == (Timestamp { year, month, day, hour, minute, second })
                && t.wf(),
            r is None <==> !(Timestamp { year, month, day, hour, minute, second }).wf(),
    {
        if year <= 9999 && 1 <= month && month <= 12 && 1 <= day && day <= 31 && hour <= 23
            && minute <= 59 && second <= 59 {
            Some(Timestamp { year, month, day, hour, minute, second })
        } else {
            None
        }
    }
}

/// Abstract value of a [`Reading`]: the same fields with byte vectors
/// replaced by sequences.
pub ghost struct ReadingV {
    pub captured_at: Timestamp,
    pub temp_tenths: i16,
    pub humidity: u8,
    pub device_id: Seq<u8>,
    pub rssi: Option<i16>,
    pub raw_data: Seq<u8>,
}

/// One decoded temperature/humidity sample, immutable once constructed.
///
/// `temp_tenths` is the temperature in tenths of a degree (the payload's
/// fixed-point unit); `humidity` is the raw percentage byte, deliberately not
/// range-checked (the peripheral is known to report values above 100).
/// `device_id` is the ASCII text of the originating peripheral identifier and
/// `raw_data` keeps the manufacturer payload for diagnostics.
#[derive(Debug)]
pub struct Reading {
    pub captured_at: Timestamp,
    pub temp_tenths: i16,
    pub humidity: u8,
    pub device_id: Vec<u8>,
    pub rssi: Option<i16>,
    pub raw_data: Vec<u8>,
}

impl View for Reading {
    type V = ReadingV;

    open spec fn view(&self) -> ReadingV {
        ReadingV {
            captured_at: self.captured_at,
            temp_tenths: self.temp_tenths,
            humidity: self.humidity,
            device_id: self.device_id@,
            rssi: self.rssi,
            raw_data: self.raw_data@,
        }
    }
}

/// The scan-phase indicator carried by status messages.  Transient: each new
/// status overwrites the previous one at the consumer.
#[derive(Clone, Copy, PartialEq, Eq, Structural, Debug)]
pub enum StatusKind {
    /// The central manager could not be opened; the loop will retry.
    AdapterError,
    /// A bounded scan window is running.
    ScanningBounded,
    /// A continuous-mode scan window is running.
    ScanningContinuous,
    /// The loop is sleeping between scan cycles.
    Waiting,
}

impl StatusKind {
    /// Human-readable text of the indicator.
    pub fn text(&self) -> (s: &'static str)
        ensures
            self is AdapterError ==> s@ == "adapter not found"@,
            self is ScanningBounded ==> s@ == "scanning"@,
            self is ScanningContinuous ==> s@ == "scanning (continuous)"@,
            self is Waiting ==> s@ == "waiting"@,
    {
        match self {
            StatusKind::AdapterError => "adapter not found",
            StatusKind::ScanningBounded => "scanning",
            StatusKind::ScanningContinuous => "scanning (continuous)",
            StatusKind::Waiting => "waiting",
        }
    }
}

/// Abstract value of a [`Message`].
pub ghost enum MessageV {
    NewData(ReadingV),
    StatusUpdate(StatusKind),
    PersistenceResult(bool),
}

/// One message on the pipeline's channels: a decoded reading, a scan-status
/// change, or the outcome of a persistence attempt.
#[derive(Debug)]
pub enum Message {
    NewData(Reading),
    StatusUpdate(StatusKind),
    PersistenceResult(bool),
}

impl View for Message {
    type V = MessageV;

    open spec fn view(&self) -> MessageV {
        match self {
            Message::NewData(r) => MessageV::NewData(r@),
            Message::StatusUpdate(k) => MessageV::StatusUpdate(*k),
            Message::PersistenceResult(ok) => MessageV::PersistenceResult(*ok),
        }
    }
}

} // verus!
