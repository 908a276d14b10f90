use temp_monitor::decode::decode_manufacturer_data;
use temp_monitor::decode::DecodeError;

#[test]
fn decodes_positive_temperature_and_humidity() {
    // Company id 0x0201: its high byte 0x02 is the low byte of the
    // little-endian pair; payload byte 0x03 is the high byte.
    let entries: Vec<(u16, Vec<u8>)> = vec![(0x0201, vec![0x03, 40])];
    let (temp_tenths, humidity) = decode_manufacturer_data(&entries).unwrap();
    assert_eq!(temp_tenths, i16::from_le_bytes([0x02, 0x03]));
    assert_eq!(temp_tenths, 0x0302);
    assert_eq!(humidity, 40);
}

#[test]
fn decodes_negative_temperature() {
    // Payload first byte 0xFE makes the pair 0xFEB4 = -332 tenths.
    let entries: Vec<(u16, Vec<u8>)> = vec![(0xB400, vec![0xFE, 55])];
    let (temp_tenths, humidity) = decode_manufacturer_data(&entries).unwrap();
    assert_eq!(temp_tenths, i16::from_le_bytes([0xB4, 0xFE]));
    assert_eq!(temp_tenths, -332);
    assert_eq!(humidity, 55);
}

#[test]
fn humidity_above_100_is_accepted() {
    let entries: Vec<(u16, Vec<u8>)> = vec![(0x0100, vec![0x00, 255])];
    let (_, humidity) = decode_manufacturer_data(&entries).unwrap();
    assert_eq!(humidity, 255);
}

#[test]
fn empty_mapping_fails() {
    let entries: Vec<(u16, Vec<u8>)> = vec![];
    assert_eq!(
        decode_manufacturer_data(&entries),
        Err(DecodeError::NoManufacturerData)
    );
}

#[test]
fn short_payload_fails() {
    let entries: Vec<(u16, Vec<u8>)> = vec![(0x0201, vec![0x03])];
    assert_eq!(
        decode_manufacturer_data(&entries),
        Err(DecodeError::PayloadTooShort)
    );
    let empty_payload: Vec<(u16, Vec<u8>)> = vec![(0x0201, vec![])];
    assert_eq!(
        decode_manufacturer_data(&empty_payload),
        Err(DecodeError::PayloadTooShort)
    );
}

#[test]
fn only_first_entry_is_read() {
    let entries: Vec<(u16, Vec<u8>)> = vec![(0x0100, vec![0x01, 10]), (0x7F00, vec![0x7F, 99])];
    let (temp_tenths, humidity) = decode_manufacturer_data(&entries).unwrap();
    assert_eq!(temp_tenths, i16::from_le_bytes([0x01, 0x01]));
    assert_eq!(humidity, 10);
}
