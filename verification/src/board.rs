//! The signup board: one externally visible message per eligible training,
//! kept in a channel named for the training's date.
//!
//! The board is a best-effort cache over the training catalog: a concurrent
//! map from posted message id to the training it displays, used only to
//! decide update-versus-insert and to route reactions. Losing it is safe;
//! the catalog stays authoritative.
//!
//! A board message encodes its training's id in the embed description
//! between spoiler bars (`||7||`); the refresh scan decodes that marker to
//! find the message to edit.

use crate::models::{Training, TrainingState};
use vstd::prelude::*;

verus! {

/// A board-eligible state: the training is shown while it is open,
/// closed or started, and never otherwise.
pub open spec fn board_eligible(s: TrainingState) -> bool {
    s is Open || s is Closed || s is Started
}

/// Whether a training in state `s` belongs on the board.
pub fn state_on_board(s: TrainingState) -> (r: bool)
    ensures
        r == board_eligible(s),
{
    match s {
        TrainingState::Open | TrainingState::Closed | TrainingState::Started => true,
        _ => false,
    }
}

/// `c` is a decimal digit.
pub open spec fn is_digit(c: char) -> bool {
    48 <= c as u32 <= 57
}

/// The numeric value of a digit sequence, most significant first.
pub open spec fn digits_val(s: Seq<char>) -> int
    decreases s.len(),
{
    if s.len() == 0 {
        0
    } else {
        digits_val(s.drop_last()) * 10 + (s.last() as u32 - 48)
    }
}

/// Every character of `s` is a decimal digit.
pub open spec fn all_digits(s: Seq<char>) -> bool {
    forall|i: int| 0 <= i < s.len() ==> is_digit(s[i])
}

/// What `s` parses to as a 32-bit signed integer: an optional sign, one
/// or more digits, and a value in range — otherwise nothing.
pub open spec fn parse_i32_spec(s: Seq<char>) -> Option<i32> {
    let neg = s.len() > 0 && s[0] == '-';
    let signed = s.len() > 0 && (s[0] == '-' || s[0] == '+');
    let digits = if signed {
        s.drop_first()
    } else {
        s
    };
    if digits.len() == 0 || !all_digits(digits) {
        None
    } else {
        let v = if neg {
            -digits_val(digits)
        } else {
            digits_val(digits)
        };
        if i32::MIN <= v <= i32::MAX {
            Some(v as i32)
        } else {
            None
        }
    }
}

/// A digit prefix never exceeds the whole: appending digits cannot shrink
/// the value.
proof fn lemma_digits_val_prefix(s: Seq<char>, i: int)
    requires
        0 <= i <= s.len(),
        all_digits(s),
    ensures
        digits_val(s.subrange(0, i)) <= digits_val(s),
        digits_val(s) >= 0,
    decreases s.len() - i,
{
    if i == s.len() {
        assert(s.subrange(0, i) =~= s);
        lemma_digits_val_nonneg(s);
    } else {
        lemma_digits_val_prefix(s, i + 1);
        assert(s.subrange(0, i + 1).drop_last() =~= s.subrange(0, i));
        lemma_digits_val_nonneg(s.subrange(0, i));
    }
}

/// A digit sequence's value is never negative.
proof fn lemma_digits_val_nonneg(s: Seq<char>)
    requires
        all_digits(s),
    ensures
        digits_val(s) >= 0,
    decreases s.len(),
{
    if s.len() > 0 {
        assert(all_digits(s.drop_last()));
        lemma_digits_val_nonneg(s.drop_last());
    }
}

/// Parses a 32-bit signed integer, exactly as `parse_i32_spec` says.
pub fn parse_i32(s: &str) -> (r: Option<i32>)
    ensures
        r == parse_i32_spec(s@),
{
    let n = s.unicode_len();
    let mut start: usize = 0;
    let mut neg = false;
    if n > 0 {
        let c0 = s.get_char(0);
        if c0 == '-' {
            neg = true;
            start = 1;
        } else if c0 == '+' {
            start = 1;
        }
    }
    let ghost digits = if start == 1 {
        s@.drop_first()
    } else {
        s@
    };
    proof {
        assert(digits =~= s@.subrange(start as int, n as int));
    }
    if start == n {
        return None;
    }
    let mut acc: i64 = 0;
    let mut i: usize = start;
    while i < n
        invariant
            start <= i <= n,
            n == s@.len(),
            start == if n > 0 && (s@[0] == '-' || s@[0] == '+') {
                1int
            } else {
                0int
            },
            neg == (n > 0 && s@[0] == '-'),
            digits =~= s@.subrange(start as int, n as int),
            digits == (if n > 0 && (s@[0] == '-' || s@[0] == '+') {
                s@.drop_first()
            } else {
                s@
            }),
            all_digits(s@.subrange(start as int, i as int)),
            acc == digits_val(s@.subrange(start as int, i as int)),
            0 <= acc <= 0x80000000,
        decreases n - i,
    {
        let c = s.get_char(i);
        let u = c as u32;
        if u < 48 || u > 57 {
            proof {
                assert(digits[i - start] == s@[i as int]);
                assert(!is_digit(digits[i - start]));
            }
            return None;
        }
        proof {
            assert(s@.subrange(start as int, i + 1 as int).drop_last() =~= s@.subrange(
                start as int,
                i as int,
            ));
            assert(s@.subrange(start as int, i + 1 as int).last() == s@[i as int]);
        }
        acc = acc * 10 + ((u - 48) as i64);
        i = i + 1;
        if acc > 0x80000000 {
            proof {
                let part = s@.subrange(start as int, i as int);
                if all_digits(digits) {
                    lemma_digits_val_prefix(digits, i - start);
                    assert(digits.subrange(0, i - start) =~= part);
                }
            }
            return None;
        }
    }
    proof {
        assert(s@.subrange(start as int, n as int) =~= digits);
    }
    if neg {
        if acc == 0x80000000 {
            Some(i32::MIN)
        } else {
            Some(-(acc as i32))
        }
    } else {
        if acc == 0x80000000 {
            None
        } else {
            Some(acc as i32)
        }
    }
}

/// The decimal digit character for `d` (0 through 9).
pub open spec fn digit_char(d: int) -> char {
    if d == 0 {
        '0'
    } else if d == 1 {
        '1'
    } else if d == 2 {
        '2'
    } else if d == 3 {
        '3'
    } else if d == 4 {
        '4'
    } else if d == 5 {
        '5'
    } else if d == 6 {
        '6'
    } else if d == 7 {
        '7'
    } else if d == 8 {
        '8'
    } else {
        '9'
    }
}

/// The decimal digits of `n`, most significant first; empty for zero.
pub open spec fn digits_of(n: int) -> Seq<char>
    decreases n,
{
    if n <= 0 {
        Seq::empty()
    } else {
        digits_of(n / 10).push(digit_char(n % 10))
    }
}

/// The decimal rendering of a non-negative number.
pub open spec fn nat_str(n: int) -> Seq<char> {
    if n == 0 {
        "0"@
    } else {
        digits_of(n)
    }
}

/// The decimal rendering of a number, sign included.
pub open spec fn int_str(n: int) -> Seq<char> {
    if n < 0 {
        seq!['-'] + nat_str(-n)
    } else {
        nat_str(n)
    }
}

/// Appends the decimal digits of `n` (nothing for zero).
fn append_digits(out: &mut String, n: u64)
    ensures
        final(out)@ == old(out)@ + digits_of(n as int),
    decreases n,
{
    if n == 0 {
        proof {
            assert(old(out)@ + digits_of(0) =~= old(out)@);
        }
    } else {
        append_digits(out, n / 10);
        let d = (n % 10) as usize;
        let table = "0123456789";
        proof {
            reveal_strlit("0123456789");
        }
        let c = table.substring_ascii(d, d + 1);
        out.append(c);
        proof {
            assert(c@ =~= seq![digit_char(n as int % 10)]);
            assert(old(out)@ + digits_of(n as int / 10) + c@ =~= old(out)@ + digits_of(n as int));
        }
    }
}

/// Renders a non-negative number in decimal.
pub fn u64_to_string(n: u64) -> (r: String)
    ensures
        r@ == nat_str(n as int),
{
    let mut out = String::new();
    if n == 0 {
        out.append("0");
        proof {
            assert(Seq::<char>::empty() + "0"@ =~= "0"@);
        }
    } else {
        append_digits(&mut out, n);
        proof {
            assert(Seq::<char>::empty() + digits_of(n as int) =~= digits_of(n as int));
        }
    }
    out
}

/// The board marker for a training id: the id between spoiler bars.
pub open spec fn marker_text(id: int) -> Seq<char> {
    "||"@ + int_str(id) + "||"@
}

/// Renders the board marker for a training id.
pub fn encode_marker(id: i32) -> (r: String)
    ensures
        r@ == marker_text(id as int),
{
    let mut out = String::new();
    out.append("||");
    if id < 0 {
        out.append("-");
        let mag = ((-(id as i64)) as u64);
        append_digits(&mut out, mag);
        proof {
            assert(seq!['-'] =~= "-"@) by {
                reveal_strlit("-");
            }
            assert(Seq::<char>::empty() + "||"@ + "-"@ + nat_str(-(id as int)) =~= "||"@ + int_str(
                id as int,
            ));
        }
    } else {
        if id == 0 {
            out.append("0");
        } else {
            append_digits(&mut out, id as u64);
        }
        proof {
            assert(Seq::<char>::empty() + "||"@ + nat_str(id as int) =~= "||"@ + int_str(
                id as int,
            ));
        }
    }
    out.append("||");
    out
}

/// The text with every pair of spoiler bars removed, left to right.
pub open spec fn strip_bars_spec(s: Seq<char>) -> Seq<char>
    decreases s.len(),
{
    if s.len() == 0 {
        Seq::empty()
    } else if s.len() >= 2 && s[0] == '|' && s[1] == '|' {
        strip_bars_spec(s.skip(2))
    } else {
        seq![s[0]] + strip_bars_spec(s.skip(1))
    }
}

/// Removes every pair of spoiler bars, left to right.
pub fn strip_bars(s: &str) -> (r: String)
    ensures
        r@ == strip_bars_spec(s@),
{
    let n = s.unicode_len();
    let mut out = String::new();
    let mut i: usize = 0;
    proof {
        assert(s@.skip(0) =~= s@);
    }
    while i < n
        invariant
            i <= n,
            n == s@.len(),
            out@ + strip_bars_spec(s@.skip(i as int)) == strip_bars_spec(s@),
        decreases n - i,
    {
        let ghost rest = s@.skip(i as int);
        proof {
            assert(rest.len() == n - i);
            assert(forall|k: int| 0 <= k < rest.len() ==> rest[k] == s@[i + k]);
        }
        if i + 1 < n && s.get_char(i) == '|' && s.get_char(i + 1) == '|' {
            proof {
                assert(rest[0] == '|' && rest[1] == '|');
                assert(rest.skip(2) =~= s@.skip(i + 2 as int));
            }
            i = i + 2;
        } else {
            let ghost prev = out@;
            let c = s.substring_char(i, i + 1);
            out.append(c);
            proof {
                assert(c@ =~= seq![rest[0]]);
                assert(rest.skip(1) =~= s@.skip(i + 1 as int));
                assert(strip_bars_spec(rest) == seq![rest[0]] + strip_bars_spec(rest.skip(1)));
                assert(prev + c@ + strip_bars_spec(rest.skip(1)) =~= prev + strip_bars_spec(rest));
            }
            i = i + 1;
        }
    }
    proof {
        assert(s@.skip(n as int).len() == 0);
        assert(out@ + strip_bars_spec(s@.skip(n as int)) =~= out@);
    }
    out
}

/// What a board message's embed description points at: the training id its
/// marker encodes, if the text is a marker at all.
pub open spec fn decoded_marker(s: Seq<char>) -> Option<i32> {
    parse_i32_spec(strip_bars_spec(s))
}

/// Reads a board message's embed description back to a training id.
pub fn decode_marker(s: &str) -> (r: Option<i32>)
    ensures
        r == decoded_marker(s@),
{
    let stripped = strip_bars(s);
    parse_i32(stripped.as_str())
}

/// Gregorian leap year.
pub open spec fn is_leap(y: int) -> bool {
    y % 4 == 0 && (y % 100 != 0 || y % 400 == 0)
}

/// Days in the year `y`.
pub open spec fn days_in_year(y: int) -> int {
    if is_leap(y) {
        366
    } else {
        365
    }
}

/// Days in month `m` of year `y`; months past twelve do not occur and
/// default to thirty-one.
pub open spec fn month_len(y: int, m: int) -> int {
    if m == 2 {
        if is_leap(y) {
            29
        } else {
            28
        }
    } else if m == 4 || m == 6 || m == 9 || m == 11 {
        30
    } else {
        31
    }
}

/// Walks years forward from `y`: the year `days` lands in, and the
/// remaining day of year (zero-based).
pub open spec fn year_up(days: int, y: int) -> (int, int)
    decreases days,
{
    if days < days_in_year(y) || days < 0 {
        (y, days)
    } else {
        year_up(days - days_in_year(y), y + 1)
    }
}

/// Walks years backward from `y` for a negative day count.
pub open spec fn year_down(days: int, y: int) -> (int, int)
    decreases -days,
{
    if days >= 0 {
        (y, days)
    } else if days + days_in_year(y - 1) >= 0 {
        (y - 1, days + days_in_year(y - 1))
    } else {
        year_down(days + days_in_year(y - 1), y - 1)
    }
}

/// The year and zero-based day of year of a day count from the epoch.
pub open spec fn year_of_days(days: int) -> (int, int) {
    if days >= 0 {
        year_up(days, 1970)
    } else {
        year_down(days, 1970)
    }
}

/// Walks months forward from `m`: the month `doy` lands in, and the
/// day of month (one-based).
pub open spec fn month_step(doy: int, m: int, y: int) -> (int, int)
    decreases doy,
{
    if doy < month_len(y, m) || doy < 0 {
        (m, doy + 1)
    } else {
        month_step(doy - month_len(y, m), m + 1, y)
    }
}

/// The lower-case abbreviated weekday name; day zero of the epoch was a
/// Thursday, and `w` counts zero as Sunday.
pub open spec fn weekday_name(w: int) -> Seq<char> {
    if w == 0 {
        "sun"@
    } else if w == 1 {
        "mon"@
    } else if w == 2 {
        "tue"@
    } else if w == 3 {
        "wed"@
    } else if w == 4 {
        "thu"@
    } else if w == 5 {
        "fri"@
    } else {
        "sat"@
    }
}

/// The lower-case abbreviated month name; months past twelve do not
/// occur and default to December's.
pub open spec fn month_name(m: int) -> Seq<char> {
    if m == 1 {
        "jan"@
    } else if m == 2 {
        "feb"@
    } else if m == 3 {
        "mar"@
    } else if m == 4 {
        "apr"@
    } else if m == 5 {
        "may"@
    } else if m == 6 {
        "jun"@
    } else if m == 7 {
        "jul"@
    } else if m == 8 {
        "aug"@
    } else if m == 9 {
        "sep"@
    } else if m == 10 {
        "oct"@
    } else if m == 11 {
        "nov"@
    } else {
        "dec"@
    }
}

/// Zero-pads a non-negative year to four digits.
pub open spec fn year_pad(y: int) -> Seq<char> {
    if y < 10 {
        "000"@ + nat_str(y)
    } else if y < 100 {
        "00"@ + nat_str(y)
    } else if y < 1000 {
        "0"@ + nat_str(y)
    } else {
        nat_str(y)
    }
}

/// The year as at least four digits, zero-padded, sign first.
pub open spec fn year_text(y: int) -> Seq<char> {
    if y < 0 {
        seq!['-'] + year_pad(-y)
    } else {
        year_pad(y)
    }
}

/// The name of the channel that hosts a training scheduled at `secs`:
/// weekday, day, month and year, joined with dashes, lower case.
pub open spec fn channel_label(secs: int) -> Seq<char> {
    let days = secs / 86400;
    let yd = year_of_days(days);
    let md = month_step(yd.1, 1, yd.0);
    weekday_name((days + 4) % 7) + "-"@ + nat_str(md.1) + "-"@ + month_name(md.0) + "-"@
        + year_text(yd.0)
}

/// Whether year `y` is a leap year; `y` may be negative.
fn leap_year(y: i64) -> (r: bool)
    ensures
        r == is_leap(y as int),
{
    let m4 = match y.checked_rem_euclid(4) {
        Some(v) => v,
        None => 0,
    };
    let m100 = match y.checked_rem_euclid(100) {
        Some(v) => v,
        None => 0,
    };
    let m400 = match y.checked_rem_euclid(400) {
        Some(v) => v,
        None => 0,
    };
    m4 == 0 && (m100 != 0 || m400 == 0)
}

/// Days in year `y`.
fn year_len(y: i64) -> (r: i64)
    ensures
        r == days_in_year(y as int),
{
    if leap_year(y) {
        366
    } else {
        365
    }
}

/// Days in month `m` of year `y`.
fn month_days(y: i64, m: i64) -> (r: i64)
    ensures
        r == month_len(y as int, m as int),
{
    if m == 2 {
        if leap_year(y) {
            29
        } else {
            28
        }
    } else if m == 4 || m == 6 || m == 9 || m == 11 {
        30
    } else {
        31
    }
}

/// Zero-pads a non-negative year to four digits.
fn pad_year(y: u64) -> (r: String)
    ensures
        r@ == year_pad(y as int),
{
    let mut out = String::new();
    if y < 10 {
        out.append("000");
    } else if y < 100 {
        out.append("00");
    } else if y < 1000 {
        out.append("0");
    }
    let digits = u64_to_string(y);
    out.append(digits.as_str());
    proof {
        assert(out@ =~= year_pad(y as int));
    }
    out
}

/// Computes the channel name for a training scheduled at `secs` (Unix
/// seconds), exactly as `channel_label` says.
pub fn channel_name_for(secs: i64) -> (r: String)
    ensures
        r@ == channel_label(secs as int),
{
    let days = match secs.checked_div_euclid(86400) {
        Some(d) => d,
        None => 0,
    };
    proof {
        assert(days == secs as int / 86400);
    }
    let mut y: i64 = 1970;
    let mut rem: i64 = days;
    if days >= 0 {
        while rem >= year_len(y)
            invariant
                0 <= rem,
                rem <= days,
                1970 <= y,
                365 * (y - 1970) <= days - rem,
                days >= 0,
                year_up(rem as int, y as int) == year_up(days as int, 1970),
            decreases rem,
        {
            let l = year_len(y);
            rem = rem - l;
            y = y + 1;
        }
        proof {
            assert(year_up(rem as int, y as int) == (y as int, rem as int));
            assert(year_of_days(days as int) == (y as int, rem as int));
        }
    } else {
        while rem < 0
            invariant
                y <= 1970,
                rem <= 365,
                365 * (1970 - y) <= rem - days,
                days < 0,
                (if rem < 0 {
                    year_down(rem as int, y as int)
                } else {
                    (y as int, rem as int)
                }) == year_down(days as int, 1970),
            decreases 366 - rem,
        {
            let l = year_len(y - 1);
            rem = rem + l;
            y = y - 1;
        }
        proof {
            assert(year_of_days(days as int) == (y as int, rem as int));
        }
    }
    let ghost yd = year_of_days(days as int);
    proof {
        assert(yd == (y as int, rem as int));
    }
    let mut m: i64 = 1;
    let mut doy: i64 = rem;
    while doy >= month_days(y, m)
        invariant
            0 <= doy,
            doy <= rem,
            1 <= m,
            28 * (m - 1) <= rem - doy,
            rem <= 365,
            month_step(doy as int, m as int, y as int) == month_step(rem as int, 1, y as int),
        decreases doy,
    {
        let l = month_days(y, m);
        doy = doy - l;
        m = m + 1;
    }
    let day: i64 = doy + 1;
    let ghost md = month_step(yd.1, 1, yd.0);
    proof {
        assert(md == (m as int, day as int));
    }
    let wd = match (days + 4).checked_rem_euclid(7) {
        Some(v) => v,
        None => 0,
    };
    let mut out = String::new();
    out.append(
        match wd {
            0 => "sun",
            1 => "mon",
            2 => "tue",
            3 => "wed",
            4 => "thu",
            5 => "fri",
            _ => "sat",
        },
    );
    out.append("-");
    let day_text = u64_to_string(day as u64);
    out.append(day_text.as_str());
    out.append("-");
    out.append(
        match m {
            1 => "jan",
            2 => "feb",
            3 => "mar",
            4 => "apr",
            5 => "may",
            6 => "jun",
            7 => "jul",
            8 => "aug",
            9 => "sep",
            10 => "oct",
            11 => "nov",
            _ => "dec",
        },
    );
    out.append("-");
    if y < 0 {
        out.append("-");
        let mag = ((-(y + 1)) as u64) + 1;
        let ytext = pad_year(mag);
        out.append(ytext.as_str());
    } else {
        let ytext = pad_year(y as u64);
        out.append(ytext.as_str());
    }
    proof {
        reveal_strlit("-");
        assert("-"@ =~= seq!['-']);
        assert(out@ =~= channel_label(secs as int));
    }
    out
}

/// The confirm reaction and the board's join button emoji.
pub const CHECK_EMOJI: char = '\u{2705}';

/// The board's edit button emoji.
pub const MEMO_EMOJI: char = '\u{1F4DD}';

/// The cancel reaction and the board's leave button emoji.
pub const CROSS_EMOJI: char = '\u{274C}';

/// A channel as the board sees it: id, name, and the category it sits in.
#[derive(Clone, Debug, PartialEq)]
pub struct ChannelInfo {
    pub id: u64,
    pub name: String,
    pub category: Option<u64>,
}

/// A posted message as the board sees it: id and the description of its
/// first embed, if any.
#[derive(Clone, Debug, PartialEq)]
pub struct BoardMessage {
    pub id: u64,
    pub description: Option<String>,
}

/// The signup board cache: one entry per posted board message, mapping the
/// message to the training it displays.
///
/// Holds a concurrent map shared by all tasks; `board_entries` names its
/// contents. Losing the cache is safe: it is rebuilt from the catalog.
#[verifier::external_body]
pub struct SignupBoard {
    current: std::sync::Arc<dashmap::DashMap<u64, i32>>,
}

/// The message-to-training entries the cache currently holds.
pub uninterp spec fn board_entries(b: SignupBoard) -> Map<u64, i32>;

impl SignupBoard {
    /// Relies on dashmap::DashMap::new: a fresh map is empty.
    #[verifier::external_body]
    pub fn new() -> (r: SignupBoard)
        ensures
            board_entries(r) == (Map::<u64, i32>::empty()),
    {
        SignupBoard { current: std::sync::Arc::new(dashmap::DashMap::new()) }
    }

    /// Relies on dashmap::DashMap::insert: maps the key to the value,
    /// replacing any entry under that key.
    #[verifier::external_body]
    fn record(&mut self, msg_id: u64, training_id: i32)
        ensures
            board_entries(*final(self)) == board_entries(*old(self)).insert(msg_id, training_id),
    {
        self.current.insert(msg_id, training_id);
    }

    /// Relies on dashmap::DashMap::get: the value under the key, if any.
    #[verifier::external_body]
    pub fn lookup(&self, msg_id: u64) -> (r: Option<i32>)
        ensures
            r == (if board_entries(*self).dom().contains(msg_id) {
                Some(board_entries(*self)[msg_id])
            } else {
                Option::<i32>::None
            }),
    {
        self.current.get(&msg_id).map(|v| *v)
    }

    /// Routes a reaction on some message: nothing to do unless the message
    /// is a board message, and then the action its emoji stands for.
    pub fn on_reaction(&self, msg_id: u64, emoji: char) -> (r: SignupBoardAction)
        ensures
            !board_entries(*self).dom().contains(msg_id) ==> r is Ignore,
            board_entries(*self).dom().contains(msg_id) ==> (r == (if emoji == CHECK_EMOJI {
                SignupBoardAction::JoinSignup(board_entries(*self)[msg_id])
            } else if emoji == MEMO_EMOJI {
                SignupBoardAction::EditSignup(board_entries(*self)[msg_id])
            } else if emoji == CROSS_EMOJI {
                SignupBoardAction::RemoveSignup(board_entries(*self)[msg_id])
            } else {
                SignupBoardAction::NoAction
            })),
    {
        match self.lookup(msg_id) {
            Option::None => SignupBoardAction::Ignore,
            Option::Some(tid) => {
                if emoji == CHECK_EMOJI {
                    SignupBoardAction::JoinSignup(tid)
                } else if emoji == MEMO_EMOJI {
                    SignupBoardAction::EditSignup(tid)
                } else if emoji == CROSS_EMOJI {
                    SignupBoardAction::RemoveSignup(tid)
                } else {
                    SignupBoardAction::NoAction
                }
            },
        }
    }
}

/// What a reaction on a message asks for.
#[derive(Clone, Copy, Debug, PartialEq, Eq, Structural)]
pub enum SignupBoardAction {
    /// Not a board message.
    Ignore,
    /// A board message, but no recognized emoji.
    NoAction,
    /// Join the signup for this training.
    JoinSignup(i32),
    /// Edit the signup for this training.
    EditSignup(i32),
    /// Remove the signup for this training.
    RemoveSignup(i32),
}

/// `c` is the board channel of `category` named `name`.
pub open spec fn channel_match(c: ChannelInfo, category: u64, name: Seq<char>) -> bool {
    c.category == Some(category) && c.name@ == name
}

/// `i` is the first index of a channel of `category` named `name`.
pub open spec fn first_channel_match(
    chs: Seq<ChannelInfo>,
    category: u64,
    name: Seq<char>,
    i: int,
) -> bool {
    &&& 0 <= i < chs.len()
    &&& channel_match(chs[i], category, name)
    &&& forall|j: int| 0 <= j < i ==> !channel_match(chs[j], category, name)
}

/// Finds the first channel of `category` named `name`, if any.
fn find_channel(chs: &Vec<ChannelInfo>, category: u64, name: &String) -> (r: Option<usize>)
    ensures
        r matches Some(i) ==> first_channel_match(chs@, category, name@, i as int),
        r is None ==> (forall|j: int| 0 <= j < chs@.len() ==> !channel_match(
            chs@[j],
            category,
            name@,
        )),
{
    let mut i: usize = 0;
    while i < chs.len()
        invariant
            i <= chs@.len(),
            forall|j: int| 0 <= j < i ==> !channel_match(chs@[j], category, name@),
        decreases chs@.len() - i,
    {
        let cat_ok = match chs[i].category {
            Some(c) => c == category,
            Option::None => false,
        };
        if cat_ok && chs[i].name == *name {
            return Some(i);
        }
        i = i + 1;
    }
    None
}

/// `m` is a board message showing training `tid`.
pub open spec fn message_match(m: BoardMessage, tid: i32) -> bool {
    m.description matches Some(d) && decoded_marker(d@) == Some(tid)
}

/// `i` is the first index of a message showing training `tid`.
pub open spec fn first_message_match(msgs: Seq<BoardMessage>, tid: i32, i: int) -> bool {
    &&& 0 <= i < msgs.len()
    &&& message_match(msgs[i], tid)
    &&& forall|j: int| 0 <= j < i ==> !message_match(msgs[j], tid)
}

/// Finds the first message whose marker shows training `tid`, if any.
fn find_board_message(msgs: &Vec<BoardMessage>, tid: i32) -> (r: Option<usize>)
    ensures
        r matches Some(i) ==> first_message_match(msgs@, tid, i as int),
        r is None ==> (forall|j: int| 0 <= j < msgs@.len() ==> !message_match(msgs@[j], tid)),
{
    let mut i: usize = 0;
    while i < msgs.len()
        invariant
            i <= msgs@.len(),
            forall|j: int| 0 <= j < i ==> !message_match(msgs@[j], tid),
        decreases msgs@.len() - i,
    {
        match &msgs[i].description {
            Some(d) => {
                match decode_marker(d.as_str()) {
                    Some(v) => {
                        if v == tid {
                            return Some(i);
                        }
                    },
                    Option::None => {},
                }
            },
            Option::None => {},
        }
        i = i + 1;
    }
    None
}

/// How a board refresh ended.
#[derive(Clone, Debug, PartialEq)]
pub enum BoardOutcome {
    /// The board message for the training was posted or edited.
    Updated { message_id: u64 },
    /// The training's state is not board-eligible; nothing was posted,
    /// edited or cached.
    InvalidState,
    /// Any downstream failure, with its description.
    Failure(String),
}

/// What the board refresh asks its driver to do next.
#[derive(Clone, Debug, PartialEq)]
pub enum BoardAction {
    /// Load the training with this id, in any state.
    LookupTraining { id: i32 },
    /// Load the guild's channels with their categories.
    LoadChannels,
    /// Create a text channel with this name in the board category.
    CreateChannel { name: String },
    /// Load the most recent messages of this channel (up to the platform
    /// page of one hundred).
    LoadMessages { channel_id: u64 },
    /// Post a new board message for the training; `marker` goes into the
    /// embed description, buttons only while the training is open.
    PostMessage { channel_id: u64, training_id: i32, marker: String, with_buttons: bool },
    /// Rewrite an existing board message in place, same content rules.
    EditMessage {
        channel_id: u64,
        message_id: u64,
        training_id: i32,
        marker: String,
        with_buttons: bool,
    },
    /// The refresh is over; report how it ended.
    Finish(BoardOutcome),
}

/// One event the driver feeds back into the board refresh.
#[derive(Clone, Debug, PartialEq)]
pub enum BoardEvent {
    /// Outcome of `LookupTraining`.
    TrainingLookup(crate::flows::Lookup<Training>),
    /// Outcome of `LoadChannels`.
    ChannelsLoaded(Vec<ChannelInfo>),
    /// Outcome of `CreateChannel`: the new channel's id.
    ChannelCreated(crate::flows::Lookup<u64>),
    /// Outcome of `LoadMessages`.
    MessagesLoaded(Vec<BoardMessage>),
    /// Outcome of `PostMessage` or `EditMessage`: the message's id.
    MessageUpdated(crate::flows::Lookup<u64>),
}

/// Where the board refresh stands.
#[derive(Debug)]
pub enum BoardPhase {
    /// Waiting for the training.
    AwaitTraining,
    /// Waiting for the guild's channels.
    AwaitChannels { training: Training },
    /// Waiting for the date channel to be created.
    AwaitChannel { training: Training },
    /// Waiting for the date channel's recent messages.
    AwaitMessages { training: Training, channel_id: u64 },
    /// Waiting for the board message to be posted or edited.
    AwaitUpdate { training_id: i32 },
    /// The refresh is over.
    Done,
}

/// Which events the board refresh consumes in which phase.
pub open spec fn board_expects(p: BoardPhase, ev: BoardEvent) -> bool {
    match (p, ev) {
        (BoardPhase::AwaitTraining, BoardEvent::TrainingLookup(_)) => true,
        (BoardPhase::AwaitChannels { .. }, BoardEvent::ChannelsLoaded(_)) => true,
        (BoardPhase::AwaitChannel { .. }, BoardEvent::ChannelCreated(_)) => true,
        (BoardPhase::AwaitMessages { .. }, BoardEvent::MessagesLoaded(_)) => true,
        (BoardPhase::AwaitUpdate { .. }, BoardEvent::MessageUpdated(_)) => true,
        _ => false,
    }
}

/// `a` reports a board failure whose text is `m`.
pub open spec fn board_fails_with(a: BoardAction, m: Seq<char>) -> bool {
    a matches BoardAction::Finish(o) && o matches BoardOutcome::Failure(s) && s@ == m
}

/// One refresh of the board entry for one training.
///
/// The refresh reloads the training, refuses any state off the board
/// before touching anything, resolves or creates the channel named for
/// the training's date, then edits the message carrying the training's
/// marker or posts a new one, and finally records the message in the
/// cache.
#[derive(Debug)]
pub struct BoardFlow {
    /// The training being refreshed.
    pub training_id: i32,
    /// The category that hosts the date channels.
    pub category: u64,
    /// Where the refresh stands.
    pub phase: BoardPhase,
}

impl BoardFlow {
    /// Opens the refresh; the first thing to do is reload the training.
    pub fn start(training_id: i32, category: u64) -> (r: (BoardFlow, BoardAction))
        ensures
            r.0.training_id == training_id,
            r.0.category == category,
            r.0.phase is AwaitTraining,
            r.1 == (BoardAction::LookupTraining { id: training_id }),
    {
        (
            BoardFlow { training_id, category, phase: BoardPhase::AwaitTraining },
            BoardAction::LookupTraining { id: training_id },
        )
    }

    /// One decision of the board refresh.
    ///
    /// A training whose state is off the board is refused before any
    /// channel or message work, with the cache untouched; only the
    /// outcome of a post or edit is recorded in the cache.
    pub fn advance(self, board: &mut SignupBoard, ev: BoardEvent) -> (r: (BoardFlow, BoardAction))
        ensures
            r.0.training_id == self.training_id,
            r.0.category == self.category,
            !(self.phase matches BoardPhase::AwaitUpdate { .. }) ==> board_entries(*final(board))
                == board_entries(*old(board)),
            !board_expects(self.phase, ev) ==> (r.0.phase is Done && board_fails_with(
                r.1,
                crate::flows::stray_event_text(),
            ) && board_entries(*final(board)) == board_entries(*old(board))),
            self.phase is AwaitTraining ==> (ev matches BoardEvent::TrainingLookup(l) ==> ((l
                matches crate::flows::Lookup::Found(t) ==> ((board_eligible(t.state) ==> (r.0.phase
                matches BoardPhase::AwaitChannels { training } && training == t && r.1
                == BoardAction::LoadChannels)) && (!board_eligible(t.state) ==> (r.0.phase is Done
                && r.1 == BoardAction::Finish(BoardOutcome::InvalidState))))) && (l is Missing ==> (
            r.0.phase is Done && board_fails_with(r.1, "Training not found"@))) && (l matches
                crate::flows::Lookup::Failed(m) ==> (r.0.phase is Done && r.1 == BoardAction::Finish(
                BoardOutcome::Failure(m),
            ))))),
            self.phase matches BoardPhase::AwaitChannels { training } ==> (ev matches
                BoardEvent::ChannelsLoaded(chs) ==> ((forall|i: int|
                first_channel_match(chs@, self.category, channel_label(training.date as int), i)
                    ==> (r.0.phase matches BoardPhase::AwaitMessages { training: t2, channel_id }
                    && t2 == training && channel_id == chs@[i].id && r.1
                    == (BoardAction::LoadMessages { channel_id: chs@[i].id }))) && ((forall|j: int|
                0 <= j < chs@.len() ==> !channel_match(
                    chs@[j],
                    self.category,
                    channel_label(training.date as int),
                )) ==> (r.0.phase matches BoardPhase::AwaitChannel { training: t2 } && t2
                == training && (r.1 matches BoardAction::CreateChannel { name } && name@
                == channel_label(training.date as int)))))),
            self.phase matches BoardPhase::AwaitChannel { training } ==> (ev matches
                BoardEvent::ChannelCreated(l) ==> ((l matches crate::flows::Lookup::Found(cid) ==> (
            r.0.phase matches BoardPhase::AwaitMessages { training: t2, channel_id } && t2
                == training && channel_id == cid && r.1 == (BoardAction::LoadMessages {
                channel_id: cid,
            }))) && (l is Missing ==> (r.0.phase is Done && board_fails_with(
                r.1,
                "Channel not created"@,
            ))) && (l matches crate::flows::Lookup::Failed(m) ==> (r.0.phase is Done && r.1
                == BoardAction::Finish(BoardOutcome::Failure(m)))))),
            self.phase matches BoardPhase::AwaitMessages { training, channel_id } ==> (ev matches
                BoardEvent::MessagesLoaded(msgs) ==> ((forall|i: int|
                first_message_match(msgs@, training.id, i) ==> (r.0.phase matches
                    BoardPhase::AwaitUpdate { training_id } && training_id == training.id && (r.1
                    matches BoardAction::EditMessage {
                    channel_id: ch2,
                    message_id,
                    training_id: tid2,
                    marker,
                    with_buttons,
                } && ch2 == channel_id && message_id == msgs@[i].id && tid2 == training.id
                    && marker@ == marker_text(training.id as int) && with_buttons == (training.state
                    is Open)))) && ((forall|j: int|
                0 <= j < msgs@.len() ==> !message_match(msgs@[j], training.id)) ==> (r.0.phase
                matches BoardPhase::AwaitUpdate { training_id } && training_id == training.id && (
                r.1 matches BoardAction::PostMessage {
                    channel_id: ch2,
                    training_id: tid2,
                    marker,
                    with_buttons,
                } && ch2 == channel_id && tid2 == training.id && marker@ == marker_text(
                    training.id as int,
                ) && with_buttons == (training.state is Open)))))),
            self.phase matches BoardPhase::AwaitUpdate { training_id } ==> (ev matches
                BoardEvent::MessageUpdated(l) ==> ((l matches crate::flows::Lookup::Found(mid)
                ==> (r.0.phase is Done && r.1 == BoardAction::Finish(
                BoardOutcome::Updated { message_id: mid },
            ) && board_entries(*final(board)) == board_entries(*old(board)).insert(
                mid,
                training_id,
            ))) && (l is Missing ==> (r.0.phase is Done && board_fails_with(
                r.1,
                "Message not updated"@,
            ) && board_entries(*final(board)) == board_entries(*old(board)))) && (l matches
                crate::flows::Lookup::Failed(m) ==> (r.0.phase is Done && r.1 == BoardAction::Finish(
                BoardOutcome::Failure(m),
            ) && board_entries(*final(board)) == board_entries(*old(board)))))),
    {
        let training_id = self.training_id;
        let category = self.category;
        match (self.phase, ev) {
            (BoardPhase::AwaitTraining, BoardEvent::TrainingLookup(l)) => {
                match l {
                    crate::flows::Lookup::Found(t) => {
                        if state_on_board(t.state) {
                            (
                                BoardFlow {
                                    training_id,
                                    category,
                                    phase: BoardPhase::AwaitChannels { training: t },
                                },
                                BoardAction::LoadChannels,
                            )
                        } else {
                            (
                                BoardFlow { training_id, category, phase: BoardPhase::Done },
                                BoardAction::Finish(BoardOutcome::InvalidState),
                            )
                        }
                    },
                    crate::flows::Lookup::Missing => (
                        BoardFlow { training_id, category, phase: BoardPhase::Done },
                        BoardAction::Finish(
                            BoardOutcome::Failure(String::from_str("Training not found")),
                        ),
                    ),
                    crate::flows::Lookup::Failed(m) => (
                        BoardFlow { training_id, category, phase: BoardPhase::Done },
                        BoardAction::Finish(BoardOutcome::Failure(m)),
                    ),
                }
            },
            (BoardPhase::AwaitChannels { training }, BoardEvent::ChannelsLoaded(chs)) => {
                let name = channel_name_for(training.date);
                match find_channel(&chs, category, &name) {
                    Some(i) => {
                        let cid = chs[i].id;
                        (
                            BoardFlow {
                                training_id,
                                category,
                                phase: BoardPhase::AwaitMessages { training, channel_id: cid },
                            },
                            BoardAction::LoadMessages { channel_id: cid },
                        )
                    },
                    Option::None => (
                        BoardFlow {
                            training_id,
                            category,
                            phase: BoardPhase::AwaitChannel { training },
                        },
                        BoardAction::CreateChannel { name },
                    ),
                }
            },
            (BoardPhase::AwaitChannel { training }, BoardEvent::ChannelCreated(l)) => {
                match l {
                    crate::flows::Lookup::Found(cid) => (
                        BoardFlow {
                            training_id,
                            category,
                            phase: BoardPhase::AwaitMessages { training, channel_id: cid },
                        },
                        BoardAction::LoadMessages { channel_id: cid },
                    ),
                    crate::flows::Lookup::Missing => (
                        BoardFlow { training_id, category, phase: BoardPhase::Done },
                        BoardAction::Finish(
                            BoardOutcome::Failure(String::from_str("Channel not created")),
                        ),
                    ),
                    crate::flows::Lookup::Failed(m) => (
                        BoardFlow { training_id, category, phase: BoardPhase::Done },
                        BoardAction::Finish(BoardOutcome::Failure(m)),
                    ),
                }
            },
            (BoardPhase::AwaitMessages { training, channel_id }, BoardEvent::MessagesLoaded(msgs)) => {
                let tid = training.id;
                let open_now = match training.state {
                    TrainingState::Open => true,
                    _ => false,
                };
                let marker = encode_marker(tid);
                match find_board_message(&msgs, tid) {
                    Some(i) => {
                        let mid = msgs[i].id;
                        (
                            BoardFlow {
                                training_id,
                                category,
                                phase: BoardPhase::AwaitUpdate { training_id: tid },
                            },
                            BoardAction::EditMessage {
                                channel_id,
                                message_id: mid,
                                training_id: tid,
                                marker,
                                with_buttons: open_now,
                            },
                        )
                    },
                    Option::None => (
                        BoardFlow {
                            training_id,
                            category,
                            phase: BoardPhase::AwaitUpdate { training_id: tid },
                        },
                        BoardAction::PostMessage {
                            channel_id,
                            training_id: tid,
                            marker,
                            with_buttons: open_now,
                        },
                    ),
                }
            },
            (BoardPhase::AwaitUpdate { training_id: tid }, BoardEvent::MessageUpdated(l)) => {
                match l {
                    crate::flows::Lookup::Found(mid) => {
                        board.record(mid, tid);
                        (
                            BoardFlow { training_id, category, phase: BoardPhase::Done },
                            BoardAction::Finish(BoardOutcome::Updated { message_id: mid }),
                        )
                    },
                    crate::flows::Lookup::Missing => (
                        BoardFlow { training_id, category, phase: BoardPhase::Done },
                        BoardAction::Finish(
                            BoardOutcome::Failure(String::from_str("Message not updated")),
                        ),
                    ),
                    crate::flows::Lookup::Failed(m) => (
                        BoardFlow { training_id, category, phase: BoardPhase::Done },
                        BoardAction::Finish(BoardOutcome::Failure(m)),
                    ),
                }
            },
            _ => (
                BoardFlow { training_id, category, phase: BoardPhase::Done },
                BoardAction::Finish(
                    BoardOutcome::Failure(String::from_str("unexpected flow event")),
                ),
            ),
        }
    }
}

/// No character of `s` is a spoiler bar.
pub open spec fn bar_free(s: Seq<char>) -> bool {
    forall|i: int| 0 <= i < s.len() ==> s[i] != '|'
}

/// Digits render as digit characters, and a positive number renders as
/// at least one of them.
proof fn lemma_digits_of_shape(n: int)
    requires
        n >= 0,
    ensures
        all_digits(digits_of(n)),
        n > 0 ==> digits_of(n).len() >= 1,
    decreases n,
{
    if n > 0 {
        lemma_digits_of_shape(n / 10);
        let tail = digits_of(n / 10);
        let c = digit_char(n % 10);
        assert(is_digit(c));
        assert(forall|i: int|
            0 <= i < tail.push(c).len() ==> #[trigger] tail.push(c)[i] == (if i < tail.len() {
                tail[i]
            } else {
                c
            }));
    }
}

/// Rendering then reading digits gives the number back.
proof fn lemma_digits_of_val(n: int)
    requires
        n >= 0,
    ensures
        digits_val(digits_of(n)) == n,
    decreases n,
{
    if n > 0 {
        lemma_digits_of_val(n / 10);
        let tail = digits_of(n / 10);
        let c = digit_char(n % 10);
        assert(tail.push(c).drop_last() =~= tail);
        assert(tail.push(c).last() == c);
        assert(c as u32 - 48 == n % 10);
    }
}

/// The decimal rendering of a non-negative number is one or more digits
/// that read back to it.
proof fn lemma_nat_str(n: int)
    requires
        n >= 0,
    ensures
        all_digits(nat_str(n)),
        nat_str(n).len() >= 1,
        digits_val(nat_str(n)) == n,
{
    if n == 0 {
        reveal_strlit("0");
        assert("0"@[0] == '0');
        assert(digits_val("0"@) == digits_val("0"@.drop_last()) * 10 + ("0"@.last() as u32 - 48));
        assert("0"@.drop_last() =~= Seq::<char>::empty());
    } else {
        lemma_digits_of_shape(n);
        lemma_digits_of_val(n);
    }
}

/// A bar-free prefix passes through the spoiler strip unchanged.
proof fn lemma_strip_bar_free_prefix(s: Seq<char>, t: Seq<char>)
    requires
        bar_free(s),
    ensures
        strip_bars_spec(s + t) == s + strip_bars_spec(t),
    decreases s.len(),
{
    if s.len() == 0 {
        assert(s + t =~= t);
        assert(s + strip_bars_spec(t) =~= strip_bars_spec(t));
    } else {
        let st = s + t;
        assert(st[0] == s[0]);
        assert(s[0] != '|');
        assert(st.skip(1) =~= s.skip(1) + t);
        assert(bar_free(s.skip(1)));
        lemma_strip_bar_free_prefix(s.skip(1), t);
        assert(strip_bars_spec(st) == seq![st[0]] + strip_bars_spec(st.skip(1)));
        assert(seq![s[0]] + (s.skip(1) + strip_bars_spec(t)) =~= s + strip_bars_spec(t));
    }
}

/// Stripping a marker leaves exactly the rendered id.
proof fn lemma_strip_marker(id: int)
    ensures
        strip_bars_spec(marker_text(id)) == int_str(id),
{
    reveal_strlit("||");
    let body = int_str(id);
    let m = marker_text(id);
    assert("||"@.len() == 2);
    assert("||"@[0] == '|' && "||"@[1] == '|');
    assert(m[0] == '|' && m[1] == '|');
    assert(m.len() >= 2);
    assert(m.skip(2) =~= body + "||"@);
    // the id's rendering holds no bar
    lemma_nat_str(if id < 0 {
        -id
    } else {
        id
    });
    assert forall|i: int| 0 <= i < body.len() implies body[i] != '|' by {
        if id < 0 {
            if i == 0 {
                assert(body[0] == '-');
            } else {
                assert(body[i] == nat_str(-id)[i - 1]);
                assert(is_digit(nat_str(-id)[i - 1]));
            }
        } else {
            assert(is_digit(body[i]));
        }
    }
    lemma_strip_bar_free_prefix(body, "||"@);
    assert(strip_bars_spec("||"@) == strip_bars_spec("||"@.skip(2)));
    assert("||"@.skip(2) =~= Seq::<char>::empty());
    assert(strip_bars_spec(Seq::<char>::empty()) =~= Seq::<char>::empty());
    assert(body + Seq::<char>::empty() =~= body);
}

/// Reading the rendered id back gives the id.
proof fn lemma_parse_int_str(id: i32)
    ensures
        parse_i32_spec(int_str(id as int)) == Some(id),
{
    let s = int_str(id as int);
    if id < 0 {
        lemma_nat_str(-(id as int));
        let body = nat_str(-(id as int));
        assert(s =~= seq!['-'] + body);
        assert(s[0] == '-');
        assert(s.drop_first() =~= body);
        assert(digits_val(body) == -(id as int));
    } else {
        lemma_nat_str(id as int);
        assert(s.len() >= 1);
        assert(is_digit(s[0]));
        assert(s[0] != '-' && s[0] != '+');
    }
}

/// Law: a board marker reads back to the training id it was written for.
pub proof fn lemma_marker_round_trip(id: i32)
    ensures
        decoded_marker(marker_text(id as int)) == Some(id),
{
    lemma_strip_marker(id as int);
    lemma_parse_int_str(id);
}

} // verus!
