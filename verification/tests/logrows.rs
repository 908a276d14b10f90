use temp_monitor::logfmt::get_daily_log_filename;
use temp_monitor::logfmt::load_history_from_csv;
use temp_monitor::logfmt::log_header;
use temp_monitor::logfmt::parse_log_row;
use temp_monitor::logfmt::render_log_row;
use temp_monitor::logfmt::HistoryPoint;
use temp_monitor::msg::Timestamp;

fn ts(y: u16, mo: u8, d: u8, h: u8, mi: u8, s: u8) -> Timestamp {
    Timestamp::new(y, mo, d, h, mi, s).unwrap()
}

#[test]
fn renders_row_with_comma_separator() {
    let row = render_log_row(&ts(2024, 3, 7, 8, 5, 9), 215, 40);
    assert_eq!(row, b"2024.03.07;08:05:09;21,5;40\n".to_vec());
}

#[test]
fn renders_negative_and_zero_temperatures() {
    assert_eq!(
        render_log_row(&ts(2024, 3, 7, 8, 5, 9), -32, 100),
        b"2024.03.07;08:05:09;-3,2;100\n".to_vec()
    );
    assert_eq!(
        render_log_row(&ts(2024, 3, 7, 8, 5, 9), 0, 0),
        b"2024.03.07;08:05:09;0,0;0\n".to_vec()
    );
    assert_eq!(
        render_log_row(&ts(999, 1, 2, 0, 0, 0), 5, 7),
        b"0999.01.02;00:00:00;0,5;7\n".to_vec()
    );
}

#[test]
fn renders_header_and_filename() {
    assert_eq!(log_header(), b"Date;Time;Temperature;Humidity\n".to_vec());
    assert_eq!(
        get_daily_log_filename(&ts(2024, 3, 7, 8, 5, 9)),
        b"log_2024-03-07.csv".to_vec()
    );
}

#[test]
fn parses_rendered_row_back() {
    let stamp = ts(2024, 12, 31, 23, 59, 58);
    let mut row = render_log_row(&stamp, -332, 55);
    assert_eq!(row.pop(), Some(b'\n'));
    let parsed = parse_log_row(&row).unwrap();
    assert_eq!(
        parsed,
        HistoryPoint { timestamp: stamp, temp_tenths: -332, humidity: 55 }
    );
}

#[test]
fn parses_extreme_temperatures_back() {
    for t in [i16::MIN, -1, 0, 1, i16::MAX] {
        let stamp = ts(2024, 1, 1, 0, 0, 0);
        let mut row = render_log_row(&stamp, t, 255);
        row.pop();
        let parsed = parse_log_row(&row).unwrap();
        assert_eq!(parsed.temp_tenths, t);
        assert_eq!(parsed.humidity, 255);
    }
}

#[test]
fn rejects_malformed_rows() {
    let bad: [&[u8]; 8] = [
        b"Date;Time;Temperature;Humidity",
        b"2024.03.07;08:05:09;21,5",
        b"2024.13.07;08:05:09;21,5;40",
        b"2024.03.07;24:05:09;21,5;40",
        b"2024.03.07;08:05:09;-0,0;40",
        b"2024.03.07;08:05:09;07,5;40",
        b"2024.03.07;08:05:09;21,5;256",
        b"2024.03.07;08:05:09;21,5;40 ",
    ];
    for row in bad {
        assert_eq!(parse_log_row(&row.to_vec()), None, "{:?}", row);
    }
}

#[test]
fn loads_history_skipping_header_and_noise() {
    let mut content = Vec::new();
    content.extend_from_slice(b"Date;Time;Temperature;Humidity\n");
    content.extend_from_slice(b"2024.03.07;08:05:09;21,5;40\n");
    content.extend_from_slice(b"not a row\n");
    content.extend_from_slice(b"2024.03.07;08:06:09;-3,2;41\n");
    let points = load_history_from_csv(&content, true);
    assert_eq!(points.len(), 2);
    assert_eq!(points[0].temp_tenths, 215);
    assert_eq!(points[0].humidity, 40);
    assert_eq!(points[1].temp_tenths, -32);
    assert_eq!(points[1].humidity, 41);
    assert_eq!(points[1].timestamp, ts(2024, 3, 7, 8, 6, 9));
}

#[test]
fn bounded_load_keeps_most_recent_points() {
    let mut content = Vec::new();
    content.extend_from_slice(b"Date;Time;Temperature;Humidity\n");
    // 205 rows, one per second, temperatures 0, 1, ... tenths.
    for i in 0..205u32 {
        let line = format!(
            "2024.03.07;10:{:02}:{:02};{},{};50\n",
            i / 60,
            i % 60,
            i / 10,
            i % 10
        );
        content.extend_from_slice(line.as_bytes());
    }
    let all = load_history_from_csv(&content, true);
    assert_eq!(all.len(), 205);
    let bounded = load_history_from_csv(&content, false);
    assert_eq!(bounded.len(), 200);
    assert_eq!(bounded[0].temp_tenths, 5);
    assert_eq!(bounded[199].temp_tenths, 204);
}

#[test]
fn empty_and_headerless_content() {
    let empty: Vec<u8> = Vec::new();
    assert_eq!(load_history_from_csv(&empty, true).len(), 0);
    let row_only = b"2024.03.07;08:05:09;21,5;40".to_vec();
    let points = load_history_from_csv(&row_only, false);
    assert_eq!(points.len(), 1);
}
