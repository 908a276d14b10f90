//! Payload decoder: the pure mapping from manufacturer-specific advertisement
//! data to a temperature/humidity sample.
//!
//! The peripheral encodes the temperature as a signed 16-bit little-endian
//! integer in tenths of a degree, whose low byte is the high byte of the
//! advertised company identifier and whose high byte is the payload's first
//! byte.  The payload's second byte is the humidity percentage, taken as-is
//! (values above 100 are a known quirk of the device and are not rejected).

use vstd::prelude::*;

verus! {

/// Why a manufacturer-data payload failed to decode.
#[derive(Clone, Copy, PartialEq, Eq, Structural, Debug)]
pub enum DecodeError {
    /// The advertisement carried no manufacturer-data entry at all.
    NoManufacturerData,
    /// The first entry's byte sequence has fewer than two bytes.
    PayloadTooShort,
}

/// Meaning of a little-endian byte pair as a signed 16-bit integer.
pub open spec fn int16_from_le(lo: u8, hi: u8) -> int {
    if hi < 128 {
        hi * 256 + lo
    } else {
        hi * 256 + lo - 65536
    }
}

/// High byte of a 16-bit company identifier.
pub open spec fn high_byte(c: u16) -> u8 {
    (c / 256) as u8
}

/// Whether manufacturer-data entries decode successfully: there is a first
/// entry and its payload has at least two bytes.
pub open spec fn decodes(entries: Seq<(u16, Vec<u8>)>) -> bool {
    entries.len() > 0 && entries[0].1@.len() >= 2
}

/// Temperature, in tenths of a degree, decoded from the first entry.
pub open spec fn decoded_temp_tenths(entries: Seq<(u16, Vec<u8>)>) -> int
    recommends
        decodes(entries),
{
    int16_from_le(high_byte(entries[0].0), entries[0].1@[0])
}

/// Humidity percentage decoded from the first entry.
pub open spec fn decoded_humidity(entries: Seq<(u16, Vec<u8>)>) -> u8
    recommends
        decodes(entries),
{
    entries[0].1@[1]
}

/// Combine a little-endian byte pair into a signed 16-bit integer.
pub fn i16_from_le_pair(lo: u8, hi: u8) -> (r: i16)
    ensures
        r == int16_from_le(lo, hi),
{
    let v: i32 = lo as i32 + 256 * (hi as i32);
    if v >= 32768 {
        (v - 65536) as i16
    } else {
        v as i16
    }
}

/// Decodes the temperature (in tenths of a degree) and humidity from
/// manufacturer-data entries, reading only the first entry.
///
/// Fails with [`DecodeError::NoManufacturerData`] exactly when no entry
/// exists, and with [`DecodeError::PayloadTooShort`] exactly when the first
/// entry's payload has fewer than two bytes.
pub fn decode_manufacturer_data(entries: &Vec<(u16, Vec<u8>)>) -> (r: Result<
    (i16, u8),
    DecodeError,
>)
    ensures
        r is Ok <==> decodes(entries@),
        r matches Ok(s) ==> s.0 == decoded_temp_tenths(entries@) && s.1 == decoded_humidity(
            entries@,
        ),
        r == Err::<(i16, u8), DecodeError>(DecodeError::NoManufacturerData) <==> entries@.len()
            == 0,
        r == Err::<(i16, u8), DecodeError>(DecodeError::PayloadTooShort) <==> entries@.len() > 0
            && entries@[0].1@.len() < 2,
{
    if entries.len() == 0 {
        return Err(DecodeError::NoManufacturerData);
    }
    let company_id: u16 = entries[0].0;
    let payload: &Vec<u8> = &entries[0].1;
    if payload.len() < 2 {
        return Err(DecodeError::PayloadTooShort);
    }
    let temp_tenths = i16_from_le_pair((company_id / 256) as u8, payload[0]);
    let humidity = payload[1];
    Ok((temp_tenths, humidity))
}

} // verus!
