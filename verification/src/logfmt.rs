//! The daily-log row format: semicolon-delimited rows
//! `YYYY.MM.DD;HH:MM:SS;<temperature>;<humidity>`, the temperature written
//! with a comma as decimal separator, each row ended by a line feed, and a
//! `Date;Time;Temperature;Humidity` header on first creation.
//!
//! Rendering and parsing both work on plain bytes; the caller owns the file.

use vstd::prelude::*;

use crate::msg::Timestamp;

verus! {

/// ASCII code of the row delimiter `;`.
pub const SEMICOLON: u8 = 59;

/// ASCII code of `.`.
pub const DOT: u8 = 46;

/// ASCII code of `:`.
pub const COLON: u8 = 58;

/// ASCII code of `,`.
pub const COMMA: u8 = 44;

/// ASCII code of `-`.
pub const MINUS: u8 = 45;

/// ASCII code of the line feed that ends each row.
pub const LINE_FEED: u8 = 10;

/// Whether a byte is an ASCII decimal digit.
pub open spec fn is_digit(b: u8) -> bool {
    48 <= b <= 57
}

/// ASCII digit for a value between 0 and 9.
pub open spec fn digit_of(n: int) -> u8
    recommends
        0 <= n <= 9,
{
    (48 + n) as u8
}

/// Decimal digits of `n` without leading zeros (a single `0` for zero).
pub open spec fn dec_rep(n: nat) -> Seq<u8>
    decreases n,
{
    if n < 10 {
        seq![digit_of(n as int)]
    } else {
        dec_rep(n / 10).push(digit_of((n % 10) as int))
    }
}

/// Two decimal digits of `n`, zero-padded.
pub open spec fn pad2(n: nat) -> Seq<u8>
    recommends
        n < 100,
{
    seq![digit_of(n as int / 10), digit_of(n as int % 10)]
}

/// Four decimal digits of `n`, zero-padded.
pub open spec fn pad4(n: nat) -> Seq<u8>
    recommends
        n < 10000,
{
    seq![
        digit_of(n as int / 1000),
        digit_of((n as int / 100) % 10),
        digit_of((n as int / 10) % 10),
        digit_of(n as int % 10),
    ]
}

/// Text of a temperature given in tenths of a degree: an optional minus
/// sign, the whole degrees without leading zeros, a comma, and the single
/// tenths digit.
pub open spec fn temp_rep(t: int) -> Seq<u8>
    recommends
        -32768 <= t <= 32767,
{
    let a = if t < 0 {
        -t
    } else {
        t
    };
    let sign: Seq<u8> = if t < 0 {
        seq![MINUS]
    } else {
        Seq::empty()
    };
    sign + dec_rep((a / 10) as nat) + seq![COMMA, digit_of(a % 10)]
}

/// Text of the date field, `YYYY.MM.DD`.
pub open spec fn date_rep(ts: Timestamp) -> Seq<u8> {
    pad4(ts.year as nat) + seq![DOT] + pad2(ts.month as nat) + seq![DOT] + pad2(ts.day as nat)
}

/// Text of the time field, `HH:MM:SS`.
pub open spec fn time_rep(ts: Timestamp) -> Seq<u8> {
    pad2(ts.hour as nat) + seq![COLON] + pad2(ts.minute as nat) + seq![COLON] + pad2(
        ts.second as nat,
    )
}

/// One log row without its terminator.
pub open spec fn line_rep(ts: Timestamp, temp_tenths: i16, humidity: u8) -> Seq<u8> {
    date_rep(ts) + seq![SEMICOLON] + time_rep(ts) + seq![SEMICOLON] + temp_rep(
        temp_tenths as int,
    ) + seq![SEMICOLON] + dec_rep(humidity as nat)
}

/// One complete log row, line feed included.
pub open spec fn row_rep(ts: Timestamp, temp_tenths: i16, humidity: u8) -> Seq<u8> {
    line_rep(ts, temp_tenths, humidity) + seq![LINE_FEED]
}

/// The header row written when a daily log file is first created,
/// `Date;Time;Temperature;Humidity` and a line feed.
pub open spec fn header_rep() -> Seq<u8> {
    seq![
        68u8, 97, 116, 101, 59, 84, 105, 109, 101, 59, 84, 101, 109, 112, 101, 114, 97, 116, 117,
        114, 101, 59, 72, 117, 109, 105, 100, 105, 116, 121, 10,
    ]
}

/// The daily log file name, `log_YYYY-MM-DD.csv` for the given date.
pub open spec fn filename_rep(ts: Timestamp) -> Seq<u8> {
    seq![108u8, 111, 103, 95] + pad4(ts.year as nat) + seq![MINUS] + pad2(ts.month as nat)
        + seq![MINUS] + pad2(ts.day as nat) + seq![DOT, 99, 115, 118]
}

/// Appends the two zero-padded digits of `n`.
fn push_pad2(out: &mut Vec<u8>, n: u8)
    requires
        n < 100,
    ensures
        final (out)@ == old(out)@ + pad2(n as nat),
{
    out.push(48 + n / 10);
    out.push(48 + n % 10);
    proof {
        assert(out@ =~= old(out)@ + pad2(n as nat));
    }
}

/// Appends the four zero-padded digits of `n`.
fn push_pad4(out: &mut Vec<u8>, n: u16)
    requires
        n < 10000,
    ensures
        final (out)@ == old(out)@ + pad4(n as nat),
{
    out.push(48 + (n / 1000) as u8);
    out.push(48 + ((n / 100) % 10) as u8);
    out.push(48 + ((n / 10) % 10) as u8);
    out.push(48 + (n % 10) as u8);
    proof {
        assert(out@ =~= old(out)@ + pad4(n as nat));
    }
}

/// Appends the decimal digits of `n` without leading zeros.
fn push_dec(out: &mut Vec<u8>, n: u16)
    ensures
        final (out)@ == old(out)@ + dec_rep(n as nat),
    decreases n,
{
    if n < 10 {
        out.push(48 + n as u8);
        proof {
            assert(out@ =~= old(out)@ + dec_rep(n as nat));
        }
    } else {
        push_dec(out, n / 10);
        out.push(48 + (n % 10) as u8);
        proof {
            assert(out@ =~= old(out)@ + dec_rep(n as nat));
        }
    }
}

/// Appends the text of a temperature in tenths of a degree.
fn push_temp(out: &mut Vec<u8>, t: i16)
    ensures
        final (out)@ == old(out)@ + temp_rep(t as int),
{
    let a: u16 = if t < 0 {
        if t == i16::MIN {
            32768u16
        } else {
            (-t) as u16
        }
    } else {
        t as u16
    };
    if t < 0 {
        out.push(MINUS);
    }
    push_dec(out, a / 10);
    out.push(COMMA);
    out.push(48 + (a % 10) as u8);
    proof {
        assert(out@ =~= old(out)@ + temp_rep(t as int));
    }
}

/// Renders one complete log row, line feed included.
pub fn render_log_row(ts: &Timestamp, temp_tenths: i16, humidity: u8) -> (r: Vec<u8>)
    requires
        ts.wf(),
    ensures
        r@ == row_rep(*ts, temp_tenths, humidity),
{
    let mut out: Vec<u8> = Vec::new();
    push_pad4(&mut out, ts.year);
    out.push(DOT);
    push_pad2(&mut out, ts.month);
    out.push(DOT);
    push_pad2(&mut out, ts.day);
    out.push(SEMICOLON);
    push_pad2(&mut out, ts.hour);
    out.push(COLON);
    push_pad2(&mut out, ts.minute);
    out.push(COLON);
    push_pad2(&mut out, ts.second);
    out.push(SEMICOLON);
    push_temp(&mut out, temp_tenths);
    out.push(SEMICOLON);
    push_dec(&mut out, humidity as u16);
    out.push(LINE_FEED);
    proof {
        assert(out@ =~= row_rep(*ts, temp_tenths, humidity));
    }
    out
}

/// Renders the header row written when a daily log file is first created.
pub fn log_header() -> (r: Vec<u8>)
    ensures
        r@ == header_rep(),
{
    let out: Vec<u8> = vec![
        68u8, 97, 116, 101, 59, 84, 105, 109, 101, 59, 84, 101, 109, 112, 101, 114, 97, 116, 117,
        114, 101, 59, 72, 117, 109, 105, 100, 105, 116, 121, 10,
    ];
    proof {
        assert(out@ =~= header_rep());
    }
    out
}

/// Renders the daily log file name for the given date.
pub fn get_daily_log_filename(ts: &Timestamp) -> (r: Vec<u8>)
    requires
        ts.wf(),
    ensures
        r@ == filename_rep(*ts),
{
    let mut out: Vec<u8> = vec![108u8, 111, 103, 95];
    push_pad4(&mut out, ts.year);
    out.push(MINUS);
    push_pad2(&mut out, ts.month);
    out.push(MINUS);
    push_pad2(&mut out, ts.day);
    out.push(DOT);
    out.push(99);
    out.push(115);
    out.push(118);
    proof {
        assert(out@ =~= filename_rep(*ts));
    }
    out
}

/// One point read back from a daily log: the row's timestamp and values.
#[derive(Clone, Copy, PartialEq, Eq, Structural, Debug)]
pub struct HistoryPoint {
    pub timestamp: Timestamp,
    pub temp_tenths: i16,
    pub humidity: u8,
}

/// Whether every byte of `s` is an ASCII decimal digit.
pub open spec fn all_digits(s: Seq<u8>) -> bool {
    forall|i: int| 0 <= i < s.len() ==> is_digit(s[i])
}

/// Numeric value of a digit sequence, most significant first.
pub open spec fn dec_val(s: Seq<u8>) -> int
    decreases s.len(),
{
    if s.len() == 0 {
        0
    } else {
        dec_val(s.drop_last()) * 10 + (s.last() - 48)
    }
}

/// Length of the run of digits in `s` starting at `from`.
pub open spec fn digit_run(s: Seq<u8>, from: int) -> int
    decreases s.len() - from,
{
    if from < 0 || from >= s.len() {
        0
    } else if is_digit(s[from]) {
        1 + digit_run(s, from + 1)
    } else {
        0
    }
}

/// The decimal digits of `n` carry exactly the value `n`, are all digits,
/// and have no leading zero; their count follows the magnitude of `n`.
pub proof fn lemma_dec_rep_props(n: nat)
    ensures
        dec_rep(n).len() >= 1,
        all_digits(dec_rep(n)),
        dec_val(dec_rep(n)) == n,
        dec_rep(n).len() == 1 <==> n < 10,
        dec_rep(n)[0] == 48 ==> n == 0,
        n < 100 ==> dec_rep(n).len() <= 2,
        n < 1000 ==> dec_rep(n).len() <= 3,
        n < 10000 ==> dec_rep(n).len() <= 4,
        n < 100000 ==> dec_rep(n).len() <= 5,
    decreases n,
{
    reveal_with_fuel(dec_val, 2);
    if n < 10 {
        let s = dec_rep(n);
        assert(s.drop_last() =~= Seq::<u8>::empty());
    } else {
        lemma_dec_rep_props(n / 10);
        let r = dec_rep(n / 10);
        let s = dec_rep(n);
        assert(s.drop_last() =~= r);
    }
}

/// A run of exactly `k` digits followed by a non-digit (or the end) has
/// digit-run length `k`.
pub proof fn lemma_digit_run_exact(s: Seq<u8>, from: int, k: int)
    requires
        0 <= from,
        0 <= k,
        from + k <= s.len(),
        forall|j: int| from <= j < from + k ==> is_digit(#[trigger] s[j]),
        from + k == s.len() || !is_digit(s[from + k]),
    ensures
        digit_run(s, from) == k,
    decreases k,
{
    if k == 0 {
    } else {
        assert(is_digit(s[from]));
        lemma_digit_run_exact(s, from + 1, k - 1);
    }
}

/// Extending a digit subrange by one position multiplies its value by ten
/// and adds the new digit.
pub proof fn lemma_dec_val_snoc(s: Seq<u8>, start: int, i: int)
    requires
        0 <= start <= i < s.len(),
    ensures
        dec_val(s.subrange(start, i + 1)) == dec_val(s.subrange(start, i)) * 10 + (s[i] - 48),
{
    assert(s.subrange(start, i + 1).drop_last() =~= s.subrange(start, i));
    assert(s.subrange(start, i + 1).last() == s[i]);
}

/// Value bounds of a digit sequence by its length.
pub proof fn lemma_dec_val_bound(s: Seq<u8>)
    requires
        all_digits(s),
    ensures
        0 <= dec_val(s),
        s.len() <= 1 ==> dec_val(s) < 10,
        s.len() <= 2 ==> dec_val(s) < 100,
        s.len() <= 3 ==> dec_val(s) < 1000,
        s.len() <= 4 ==> dec_val(s) < 10000,
        s.len() <= 5 ==> dec_val(s) < 100000,
    decreases s.len(),
{
    if s.len() == 0 {
    } else {
        assert(is_digit(s[s.len() - 1]));
        lemma_dec_val_bound(s.drop_last());
    }
}

/// The zero-padded pair of digits carries exactly the value `n`.
pub proof fn lemma_dec_val_pad2(n: nat)
    requires
        n < 100,
    ensures
        all_digits(pad2(n)),
        dec_val(pad2(n)) == n,
{
    reveal_with_fuel(dec_val, 3);
    let s = pad2(n);
    assert(s.drop_last() =~= seq![digit_of(n as int / 10)]);
    assert(seq![digit_of(n as int / 10)].drop_last() =~= Seq::<u8>::empty());
}

/// The zero-padded four digits carry exactly the value `n`.
pub proof fn lemma_dec_val_pad4(n: nat)
    requires
        n < 10000,
    ensures
        all_digits(pad4(n)),
        dec_val(pad4(n)) == n,
{
    reveal_with_fuel(dec_val, 5);
    let s = pad4(n);
    let s3 = seq![digit_of(n as int / 1000), digit_of((n as int / 100) % 10), digit_of(
        (n as int / 10) % 10,
    )];
    let s2 = seq![digit_of(n as int / 1000), digit_of((n as int / 100) % 10)];
    let s1 = seq![digit_of(n as int / 1000)];
    assert(s.drop_last() =~= s3);
    assert(s3.drop_last() =~= s2);
    assert(s2.drop_last() =~= s1);
    assert(s1.drop_last() =~= Seq::<u8>::empty());
}

/// Parses one log row (without its line feed).  Returns the row's values
/// exactly when the text has the shape the renderer produces: a four-digit
/// year, two-digit calendar and time fields in their valid ranges, a
/// temperature with a single tenths digit and no leading zeros whose
/// magnitude fits a signed 16-bit count of tenths (and is nonzero when
/// signed), and a humidity of up to three digits, no leading zeros, at most
/// 255.
pub open spec fn parse_row_spec(s: Seq<u8>) -> Option<HistoryPoint> {
    if s.len() < 25 {
        None
    } else if !(all_digits(s.subrange(0, 4)) && s[4] == DOT && all_digits(s.subrange(5, 7)) && s[7]
        == DOT && all_digits(s.subrange(8, 10)) && s[10] == SEMICOLON && all_digits(
        s.subrange(11, 13),
    ) && s[13] == COLON && all_digits(s.subrange(14, 16)) && s[16] == COLON && all_digits(
        s.subrange(17, 19),
    ) && s[19] == SEMICOLON) {
        None
    } else {
        let year = dec_val(s.subrange(0, 4));
        let month = dec_val(s.subrange(5, 7));
        let day = dec_val(s.subrange(8, 10));
        let hour = dec_val(s.subrange(11, 13));
        let minute = dec_val(s.subrange(14, 16));
        let second = dec_val(s.subrange(17, 19));
        if !(1 <= month <= 12 && 1 <= day <= 31 && hour <= 23 && minute <= 59 && second <= 59) {
            None
        } else {
            let neg = s[20] == MINUS;
            let p0: int = if neg {
                21
            } else {
                20
            };
            let dc = digit_run(s, p0);
            if !(1 <= dc <= 4 && (dc == 1 || s[p0] != 48) && p0 + dc + 3 <= s.len() && s[p0 + dc]
                == COMMA && is_digit(s[p0 + dc + 1]) && s[p0 + dc + 2] == SEMICOLON) {
                None
            } else {
                let mag = dec_val(s.subrange(p0, p0 + dc)) * 10 + (s[p0 + dc + 1] - 48);
                let h0 = p0 + dc + 3;
                let hc = s.len() - h0;
                if !(1 <= hc <= 3 && all_digits(s.subrange(h0, s.len() as int)) && (hc == 1 || s[h0]
                    != 48)) {
                    None
                } else {
                    let hum = dec_val(s.subrange(h0, s.len() as int));
                    if !(hum <= 255 && (if neg {
                        1 <= mag <= 32768
                    } else {
                        mag <= 32767
                    })) {
                        None
                    } else {
                        let t = if neg {
                            -mag
                        } else {
                            mag
                        };
                        Some(
                            HistoryPoint {
                                timestamp: Timestamp {
                                    year: year as u16,
                                    month: month as u8,
                                    day: day as u8,
                                    hour: hour as u8,
                                    minute: minute as u8,
                                    second: second as u8,
                                },
                                temp_tenths: t as i16,
                                humidity: hum as u8,
                            },
                        )
                    }
                }
            }
        }
    }
}

/// Round-trip law: a rendered row, its line feed stripped, parses back to
/// exactly the timestamp, temperature and humidity it was rendered from.
pub proof fn lemma_row_round_trip(ts: Timestamp, temp_tenths: i16, humidity: u8)
    requires
        ts.wf(),
    ensures
        parse_row_spec(line_rep(ts, temp_tenths, humidity)) == Some(
            HistoryPoint { timestamp: ts, temp_tenths, humidity },
        ),
{
    let s = line_rep(ts, temp_tenths, humidity);
    let t = temp_tenths as int;
    let a: int = if t < 0 {
        -t
    } else {
        t
    };
    let ipart = dec_rep((a / 10) as nat);
    let dlen = ipart.len() as int;
    let hpart = dec_rep(humidity as nat);
    let hlen = hpart.len() as int;
    lemma_dec_rep_props((a / 10) as nat);
    lemma_dec_rep_props(humidity as nat);
    lemma_dec_val_pad4(ts.year as nat);
    lemma_dec_val_pad2(ts.month as nat);
    lemma_dec_val_pad2(ts.day as nat);
    lemma_dec_val_pad2(ts.hour as nat);
    lemma_dec_val_pad2(ts.minute as nat);
    lemma_dec_val_pad2(ts.second as nat);
    let sign: int = if t < 0 {
        1
    } else {
        0
    };
    let p0 = 20 + sign;
    assert(temp_rep(t).len() == sign + dlen + 2);
    assert(s.len() == 20 + sign + dlen + 2 + 1 + hlen);
    assert(s.subrange(0, 4) =~= pad4(ts.year as nat));
    assert(s[4] == DOT);
    assert(s.subrange(5, 7) =~= pad2(ts.month as nat));
    assert(s[7] == DOT);
    assert(s.subrange(8, 10) =~= pad2(ts.day as nat));
    assert(s[10] == SEMICOLON);
    assert(s.subrange(11, 13) =~= pad2(ts.hour as nat));
    assert(s[13] == COLON);
    assert(s.subrange(14, 16) =~= pad2(ts.minute as nat));
    assert(s[16] == COLON);
    assert(s.subrange(17, 19) =~= pad2(ts.second as nat));
    assert(s[19] == SEMICOLON);
    if t < 0 {
        assert(s[20] == MINUS);
    } else {
        assert(s[20] == ipart[0]);
        assert(is_digit(s[20]));
        assert(s[20] != MINUS);
    }
    assert(s.subrange(p0, p0 + dlen) =~= ipart);
    assert forall|j: int| p0 <= j < p0 + dlen implies is_digit(#[trigger] s[j]) by {
        assert(s[j] == ipart[j - p0]);
    }
    assert(s[p0 + dlen] == COMMA);
    assert(!is_digit(COMMA));
    lemma_digit_run_exact(s, p0, dlen);
    assert(s[p0 + dlen + 1] == digit_of(a % 10));
    assert(is_digit(s[p0 + dlen + 1]));
    assert(s[p0 + dlen + 2] == SEMICOLON);
    let h0 = p0 + dlen + 3;
    assert(s.subrange(h0, s.len() as int) =~= hpart);
    assert(humidity < 1000);
    assert(1 <= hlen <= 3);
    let mag = dec_val(s.subrange(p0, p0 + dlen)) * 10 + (s[p0 + dlen + 1] - 48);
    assert(dec_val(ipart) == a / 10);
    assert(s[p0 + dlen + 1] - 48 == a % 10);
    assert(mag == (a / 10) * 10 + a % 10);
    assert(mag == a);
    assert(dec_val(s.subrange(h0, s.len() as int)) == humidity);
    if ipart[0] == 48 {
        assert(a / 10 == 0);
        assert(dlen == 1);
    }
    if hpart[0] == 48 {
        assert(humidity as int == 0);
        assert(hlen == 1);
    }
    if t < 0 {
        assert(1 <= mag <= 32768);
    } else {
        assert(mag <= 32767);
    }
    assert(dec_val(s.subrange(0, 4)) == ts.year);
    assert(dec_val(s.subrange(5, 7)) == ts.month);
    assert(dec_val(s.subrange(8, 10)) == ts.day);
    assert(dec_val(s.subrange(11, 13)) == ts.hour);
    assert(dec_val(s.subrange(14, 16)) == ts.minute);
    assert(dec_val(s.subrange(17, 19)) == ts.second);
}

/// The digit run starting at `from` consists of digits, stays in bounds,
/// and is maximal.
pub proof fn lemma_digit_run_digits(s: Seq<u8>, from: int)
    requires
        0 <= from <= s.len(),
    ensures
        0 <= digit_run(s, from),
        from + digit_run(s, from) <= s.len(),
        forall|j: int| from <= j < from + digit_run(s, from) ==> is_digit(#[trigger] s[j]),
        from + digit_run(s, from) == s.len() || !is_digit(s[from + digit_run(s, from)]),
    decreases s.len() - from,
{
    if from >= s.len() {
    } else if is_digit(s[from]) {
        lemma_digit_run_digits(s, from + 1);
    } else {
    }
}

/// Whether the byte at `i` is the line feed.
fn at_line_feed(s: &Vec<u8>, i: usize) -> (r: bool)
    requires
        i < s@.len(),
    ensures
        r == (s@[i as int] == LINE_FEED),
{
    s[i] == LINE_FEED
}

/// Index of the first line feed at or after `from`, or the end of `s`.
pub open spec fn line_break(s: Seq<u8>, from: int) -> int
    decreases s.len() - from,
{
    if from < 0 || from >= s.len() {
        s.len() as int
    } else if s[from] == LINE_FEED {
        from
    } else {
        line_break(s, from + 1)
    }
}

/// The next line break lies between `from` and the end.
pub proof fn lemma_line_break_bounds(s: Seq<u8>, from: int)
    requires
        0 <= from <= s.len(),
    ensures
        from <= line_break(s, from) <= s.len(),
    decreases s.len() - from,
{
    if from >= s.len() {
    } else if s[from] == LINE_FEED {
    } else {
        lemma_line_break_bounds(s, from + 1);
    }
}

/// A stretch without line feeds, ended by one or by the end of `s`, locates
/// the next line break exactly.
pub proof fn lemma_line_break_exact(s: Seq<u8>, from: int, e: int)
    requires
        0 <= from <= e <= s.len(),
        forall|j: int| from <= j < e ==> #[trigger] s[j] != LINE_FEED,
        e == s.len() || s[e] == LINE_FEED,
    ensures
        line_break(s, from) == e,
    decreases e - from,
{
    if from == e {
    } else {
        lemma_line_break_exact(s, from + 1, e);
    }
}

/// Finds the first line feed at or after `from`, or the end of `s`.
fn find_line_break(s: &Vec<u8>, from: usize) -> (r: usize)
    requires
        from <= s@.len(),
    ensures
        r as int == line_break(s@, from as int),
        from <= r <= s@.len(),
{
    let mut i = from;
    while i < s.len() && !at_line_feed(s, i)
        invariant
            from <= i <= s@.len(),
            forall|j: int| from <= j < i ==> #[trigger] s@[j] != LINE_FEED,
        decreases s@.len() - i,
    {
        i += 1;
    }
    proof {
        lemma_line_break_exact(s@, from as int, i as int);
    }
    i
}

/// Length of the digit run starting at `from`.
fn digit_run_len(s: &Vec<u8>, from: usize) -> (r: usize)
    requires
        from <= s@.len(),
    ensures
        from + r <= s@.len(),
        r as int == digit_run(s@, from as int),
    decreases s@.len() - from,
{
    if from >= s.len() {
        return 0;
    }
    let b = s[from];
    if 48 <= b && b <= 57 {
        let rest = digit_run_len(s, from + 1);
        rest + 1
    } else {
        0
    }
}

/// Whether the bytes of `s` between `start` and `end` are all digits.
fn check_digits(s: &Vec<u8>, start: usize, end: usize) -> (r: bool)
    requires
        start <= end <= s@.len(),
    ensures
        r == all_digits(s@.subrange(start as int, end as int)),
{
    let ghost sub = s@.subrange(start as int, end as int);
    let mut i = start;
    while i < end
        invariant
            start <= i <= end <= s@.len(),
            sub == s@.subrange(start as int, end as int),
            forall|j: int| start <= j < i ==> is_digit(#[trigger] s@[j]),
        decreases end - i,
    {
        let b = s[i];
        if b < 48 || b > 57 {
            proof {
                assert(sub[i - start] == s@[i as int]);
                assert(!is_digit(sub[i - start]));
            }
            return false;
        }
        i += 1;
    }
    proof {
        assert forall|j: int| 0 <= j < sub.len() implies is_digit(#[trigger] sub[j]) by {
            assert(sub[j] == s@[start + j]);
        }
    }
    true
}

/// Numeric value of the digits of `s` between `start` and `end`.
fn parse_number(s: &Vec<u8>, start: usize, end: usize) -> (r: u32)
    requires
        start <= end <= s@.len(),
        end - start <= 5,
        all_digits(s@.subrange(start as int, end as int)),
    ensures
        r as int == dec_val(s@.subrange(start as int, end as int)),
        r < 100000,
{
    let ghost sub = s@.subrange(start as int, end as int);
    let mut acc: u32 = 0;
    let mut i = start;
    proof {
        assert(s@.subrange(start as int, start as int) =~= Seq::<u8>::empty());
    }
    while i < end
        invariant
            start <= i <= end <= s@.len(),
            end - start <= 5,
            sub == s@.subrange(start as int, end as int),
            all_digits(sub),
            acc as int == dec_val(s@.subrange(start as int, i as int)),
            acc < 100000,
        decreases end - i,
    {
        proof {
            assert(s@.subrange(start as int, i as int) =~= sub.subrange(0, i - start));
            assert(all_digits(sub.subrange(0, i - start)));
            lemma_dec_val_bound(sub.subrange(0, i - start));
            lemma_dec_val_snoc(s@, start as int, i as int);
            assert(s@[i as int] == sub[i - start]);
            assert(is_digit(s@[i as int]));
        }
        let b = s[i];
        acc = acc * 10 + (b - 48) as u32;
        i += 1;
    }
    proof {
        lemma_dec_val_bound(sub);
    }
    acc
}

/// Parses one log row, without its line feed.  Returns exactly what
/// [`parse_row_spec`] describes: the row's timestamp, temperature and
/// humidity when the text is a well-formed row, and `None` otherwise.
pub fn parse_log_row(line: &Vec<u8>) -> (r: Option<HistoryPoint>)
    ensures
        r == parse_row_spec(line@),
{
    if line.len() < 25 {
        return None;
    }
    if !(check_digits(line, 0, 4) && line[4] == DOT && check_digits(line, 5, 7) && line[7] == DOT
        && check_digits(line, 8, 10) && line[10] == SEMICOLON && check_digits(line, 11, 13)
        && line[13] == COLON && check_digits(line, 14, 16) && line[16] == COLON && check_digits(
        line,
        17,
        19,
    ) && line[19] == SEMICOLON) {
        return None;
    }
    let year = parse_number(line, 0, 4);
    let month = parse_number(line, 5, 7);
    let day = parse_number(line, 8, 10);
    let hour = parse_number(line, 11, 13);
    let minute = parse_number(line, 14, 16);
    let second = parse_number(line, 17, 19);
    if !(1 <= month && month <= 12 && 1 <= day && day <= 31 && hour <= 23 && minute <= 59 && second
        <= 59) {
        return None;
    }
    let neg = line[20] == MINUS;
    let p0: usize = if neg {
        21
    } else {
        20
    };
    let dc = digit_run_len(line, p0);
    proof {
        lemma_digit_run_digits(line@, p0 as int);
    }
    if !(1 <= dc && dc <= 4) {
        return None;
    }
    if !(dc == 1 || line[p0] != 48) {
        return None;
    }
    if !(p0 + dc + 3 <= line.len()) {
        return None;
    }
    if !(line[p0 + dc] == COMMA) {
        return None;
    }
    let fd = line[p0 + dc + 1];
    if !(48 <= fd && fd <= 57) {
        return None;
    }
    if !(line[p0 + dc + 2] == SEMICOLON) {
        return None;
    }
    proof {
        assert forall|j: int| 0 <= j < dc implies is_digit(
            #[trigger] line@.subrange(p0 as int, (p0 + dc) as int)[j],
        ) by {
            assert(line@.subrange(p0 as int, (p0 + dc) as int)[j] == line@[p0 + j]);
        }
    }
    let ival = parse_number(line, p0, p0 + dc);
    let mag: u32 = ival * 10 + (fd - 48) as u32;
    let h0 = p0 + dc + 3;
    let hc = line.len() - h0;
    if !(1 <= hc && hc <= 3) {
        return None;
    }
    if !check_digits(line, h0, line.len()) {
        return None;
    }
    if !(hc == 1 || line[h0] != 48) {
        return None;
    }
    let hum = parse_number(line, h0, line.len());
    if !(hum <= 255) {
        return None;
    }
    if neg {
        if !(1 <= mag && mag <= 32768) {
            return None;
        }
    } else {
        if !(mag <= 32767) {
            return None;
        }
    }
    let t: i32 = if neg {
        -(mag as i32)
    } else {
        mag as i32
    };
    Some(
        HistoryPoint {
            timestamp: Timestamp {
                year: year as u16,
                month: month as u8,
                day: day as u8,
                hour: hour as u8,
                minute: minute as u8,
                second: second as u8,
            },
            temp_tenths: t as i16,
            humidity: hum as u8,
        },
    )
}

/// Largest number of points kept when not loading the whole history.
pub const MAX_HISTORY_POINTS: usize = 200;

/// The points parsed from the log text `s` from byte `from` on: every
/// line-feed-separated line that is a well-formed row, in file order.  The
/// header line and any malformed line are skipped.
pub open spec fn parsed_rows(s: Seq<u8>, from: int) -> Seq<HistoryPoint>
    decreases s.len() + 1 - from,
{
    if from < 0 || from >= s.len() {
        Seq::empty()
    } else {
        let e = line_break(s, from);
        proof {
            lemma_line_break_bounds(s, from);
        }
        let rest = parsed_rows(s, e + 1);
        match parse_row_spec(s.subrange(from, e)) {
            Some(p) => seq![p] + rest,
            None => rest,
        }
    }
}

/// The tail the loader keeps: everything, or only the most recent
/// [`MAX_HISTORY_POINTS`] points.
pub open spec fn selected_rows(rows: Seq<HistoryPoint>, load_all: bool) -> Seq<HistoryPoint> {
    if load_all || rows.len() <= MAX_HISTORY_POINTS {
        rows
    } else {
        rows.skip(rows.len() - MAX_HISTORY_POINTS)
    }
}

/// Parses a daily log's whole text back into history points: every
/// well-formed row in file order, limited to the most recent
/// [`MAX_HISTORY_POINTS`] unless `load_all` is set.
pub fn load_history_from_csv(content: &Vec<u8>, load_all: bool) -> (r: Vec<HistoryPoint>)
    ensures
        r@ == selected_rows(parsed_rows(content@, 0), load_all),
{
    let mut rows: Vec<HistoryPoint> = Vec::new();
    let mut from: usize = 0;
    while from < content.len()
        invariant
            from <= content@.len(),
            parsed_rows(content@, 0) == rows@ + parsed_rows(content@, from as int),
        decreases content@.len() - from,
    {
        let e = find_line_break(content, from);
        let mut line: Vec<u8> = Vec::new();
        let mut i = from;
        while i < e
            invariant
                from <= i <= e <= content@.len(),
                line@ == content@.subrange(from as int, i as int),
            decreases e - i,
        {
            line.push(content[i]);
            proof {
                assert(line@ =~= content@.subrange(from as int, i + 1 as int));
            }
            i += 1;
        }
        let ghost rows_pre = rows@;
        match parse_log_row(&line) {
            Some(p) => { rows.push(p) },
            None => {},
        }
        proof {
            let s = content@;
            let f = from as int;
            assert(line@ == s.subrange(f, e as int));
            assert(parsed_rows(s, f) == match parse_row_spec(s.subrange(f, line_break(s, f))) {
                Some(p) => seq![p] + parsed_rows(s, line_break(s, f) + 1),
                None => parsed_rows(s, line_break(s, f) + 1),
            });
            match parse_row_spec(s.subrange(f, e as int)) {
                Some(p) => {
                    assert(rows@ =~= rows_pre.push(p));
                    assert(rows_pre.push(p) + parsed_rows(s, e + 1 as int) =~= rows_pre + (
                    seq![p] + parsed_rows(s, e + 1 as int)));
                },
                None => {},
            }
        }
        if e < content.len() {
            from = e + 1;
            proof {
                assert(parsed_rows(content@, 0) == rows@ + parsed_rows(content@, from as int));
            }
        } else {
            from = e;
            proof {
                assert(parsed_rows(content@, e as int) =~= Seq::<HistoryPoint>::empty());
                assert(parsed_rows(content@, e + 1 as int) =~= Seq::<HistoryPoint>::empty());
            }
        }
    }
    proof {
        assert(parsed_rows(content@, from as int) =~= Seq::<HistoryPoint>::empty());
        assert(rows@ =~= parsed_rows(content@, 0));
    }
    if load_all || rows.len() <= MAX_HISTORY_POINTS {
        rows
    } else {
        let start = rows.len() - MAX_HISTORY_POINTS;
        let mut out: Vec<HistoryPoint> = Vec::new();
        let mut i = start;
        while i < rows.len()
            invariant
                start <= i <= rows@.len(),
                start == rows@.len() - MAX_HISTORY_POINTS,
                out@ == rows@.subrange(start as int, i as int),
            decreases rows@.len() - i,
        {
            let p = rows[i];
            out.push(p);
            proof {
                assert(out@ =~= rows@.subrange(start as int, i + 1 as int));
            }
            i += 1;
        }
        proof {
            assert(out@ =~= rows@.skip(start as int));
        }
        out
    }
}

} // verus!
