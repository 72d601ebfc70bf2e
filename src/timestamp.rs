//! The timestamp of a battle: a UTC date and time written `DD.MM.YYYY HH:MM:SS`.
use vstd::prelude::*;
use vstd::string::StrSliceExecFns;

verus! {

/// A UTC date and time to the second.
#[derive(Debug, Clone, Copy, PartialEq, Eq, Structural)]
pub struct UtcDateTime {
    pub year: u16,
    pub month: u8,
    pub day: u8,
    pub hour: u8,
    pub minute: u8,
    pub second: u8,
}

/// Whether `y` is a leap year of the proleptic Gregorian calendar.
pub open spec fn is_leap_year(y: int) -> bool {
    y % 4 == 0 && (y % 100 != 0 || y % 400 == 0)
}

/// The number of days of month `m` of year `y`.
pub open spec fn days_in_month(y: int, m: int) -> int {
    if m == 2 {
        if is_leap_year(y) {
            29
        } else {
            28
        }
    } else if m == 4 || m == 6 || m == 9 || m == 11 {
        30
    } else {
        31
    }
}

/// Whether day `d` of month `m` of year `y` exists.
pub open spec fn is_calendar_date(y: int, m: int, d: int) -> bool {
    1 <= m <= 12 && 1 <= d <= days_in_month(y, m)
}

impl UtcDateTime {
    /// A real calendar date with a four-digit year and a time of day.
    pub open spec fn wf(&self) -> bool {
        &&& self.year <= 9999
        &&& is_calendar_date(self.year as int, self.month as int, self.day as int)
        &&& self.hour < 24
        &&& self.minute < 60
        &&& self.second < 60
    }
}

impl UtcDateTime {
    /// Whether this is a real date with a four-digit year and a time of day.
    pub fn is_valid(&self) -> (r: bool)
        ensures
            r == self.wf(),
    {
        self.year <= 9999 && self.hour < 24 && self.minute < 60 && self.second < 60
            && calendar_date_exists(self.year as i32, self.month as u32, self.day as u32)
    }
}

/// Relies on chrono::NaiveDate::from_ymd_opt: it returns a date exactly when the day
/// exists in the proleptic Gregorian calendar and the year is in chrono's range, which
/// holds every four-digit year.
#[verifier::external_body]
fn calendar_date_exists(year: i32, month: u32, day: u32) -> (r: bool)
    requires
        0 <= year <= 9999,
    ensures
        r == is_calendar_date(year as int, month as int, day as int),
{
    chrono::NaiveDate::from_ymd_opt(year, month, day).is_some()
}

/// Relies on String::push: the character is appended at the end.
#[verifier::external_body]
fn push_char(s: &mut String, c: char)
    ensures
        final(s)@ == old(s)@.push(c),
{
    s.push(c)
}

/// The character of the decimal digit `d`.
pub open spec fn digit_char(d: int) -> char {
    (48 + d) as char
}

/// The value of the decimal digit `c`.
pub open spec fn digit_value(c: char) -> int {
    c as int - 48
}

/// Whether `c` is an ASCII decimal digit.
pub open spec fn is_digit(c: char) -> bool {
    '0' <= c && c <= '9'
}

/// `n` written with two digits.
pub open spec fn two_digits(n: int) -> Seq<char> {
    seq![digit_char(n / 10), digit_char(n % 10)]
}

/// `n` written with four digits.
pub open spec fn four_digits(n: int) -> Seq<char> {
    seq![digit_char(n / 1000), digit_char((n / 100) % 10), digit_char((n / 10) % 10), digit_char(n % 10)]
}

/// The text of a timestamp: `DD.MM.YYYY HH:MM:SS`.
pub open spec fn timestamp_text(t: UtcDateTime) -> Seq<char> {
    two_digits(t.day as int) + seq!['.'] + two_digits(t.month as int) + seq!['.']
        + four_digits(t.year as int) + seq![' '] + two_digits(t.hour as int) + seq![':']
        + two_digits(t.minute as int) + seq![':'] + two_digits(t.second as int)
}

/// What position `k` of a timestamp text holds: a separator or a digit.
pub open spec fn shape_ok_at(s: Seq<char>, k: int) -> bool {
    if k == 2 || k == 5 {
        s[k] == '.'
    } else if k == 10 {
        s[k] == ' '
    } else if k == 13 || k == 16 {
        s[k] == ':'
    } else {
        is_digit(s[k])
    }
}

/// Whether `s` has the shape `DD.MM.YYYY HH:MM:SS`, each letter a digit.
pub open spec fn has_timestamp_shape(s: Seq<char>) -> bool {
    s.len() == 19 && forall|k: int| 0 <= k < 19 ==> shape_ok_at(s, k)
}

/// The number that the two digits at `at` spell.
pub open spec fn two_digit_value(s: Seq<char>, at: int) -> int {
    digit_value(s[at]) * 10 + digit_value(s[at + 1])
}

/// The fields that a text of timestamp shape spells.
pub open spec fn timestamp_fields(s: Seq<char>) -> UtcDateTime {
    UtcDateTime {
        day: two_digit_value(s, 0) as u8,
        month: two_digit_value(s, 3) as u8,
        year: (two_digit_value(s, 6) * 100 + two_digit_value(s, 8)) as u16,
        hour: two_digit_value(s, 11) as u8,
        minute: two_digit_value(s, 14) as u8,
        second: two_digit_value(s, 17) as u8,
    }
}

/// The timestamp that `s` spells, if it has the shape and names a real date and time.
pub open spec fn timestamp_of(s: Seq<char>) -> Option<UtcDateTime> {
    if has_timestamp_shape(s) && timestamp_fields(s).wf() {
        Some(timestamp_fields(s))
    } else {
        None
    }
}

fn two_digits_at(s: &str, at: usize) -> (r: u8)
    requires
        at < 18,
        at + 1 < s@.len(),
        is_digit(s@[at as int]),
        is_digit(s@[at + 1]),
    ensures
        r as int == two_digit_value(s@, at as int),
{
    let a = s.get_char(at) as u32 - 48;
    let b = s.get_char(at + 1) as u32 - 48;
    (a * 10 + b) as u8
}

/// Reads a timestamp written `DD.MM.YYYY HH:MM:SS`; `None` for any other text or for a
/// date or time that does not exist.
pub fn parse_timestamp(s: &str) -> (r: Option<UtcDateTime>)
    ensures
        r == timestamp_of(s@),
{
    if s.unicode_len() != 19 {
        return None;
    }
    let mut k: usize = 0;
    while k < 19
        invariant
            s@.len() == 19,
            k <= 19,
            forall|j: int| 0 <= j < k ==> shape_ok_at(s@, j),
        decreases 19 - k,
    {
        let c = s.get_char(k);
        let ok = if k == 2 || k == 5 {
            c == '.'
        } else if k == 10 {
            c == ' '
        } else if k == 13 || k == 16 {
            c == ':'
        } else {
            '0' <= c && c <= '9'
        };
        if !ok {
            assert(!shape_ok_at(s@, k as int));
            return None;
        }
        k = k + 1;
    }
    assert(shape_ok_at(s@, 0) && shape_ok_at(s@, 1) && shape_ok_at(s@, 3) && shape_ok_at(s@, 4));
    assert(shape_ok_at(s@, 6) && shape_ok_at(s@, 7) && shape_ok_at(s@, 8) && shape_ok_at(s@, 9));
    assert(shape_ok_at(s@, 11) && shape_ok_at(s@, 12) && shape_ok_at(s@, 14) && shape_ok_at(
        s@,
        15,
    ));
    assert(shape_ok_at(s@, 17) && shape_ok_at(s@, 18));
    let day = two_digits_at(s, 0);
    let month = two_digits_at(s, 3);
    let year = two_digits_at(s, 6) as u16 * 100 + two_digits_at(s, 8) as u16;
    let hour = two_digits_at(s, 11);
    let minute = two_digits_at(s, 14);
    let second = two_digits_at(s, 17);
    let t = UtcDateTime { year, month, day, hour, minute, second };
    assert(t == timestamp_fields(s@));
    if hour < 24 && minute < 60 && second < 60 && calendar_date_exists(
        year as i32,
        month as u32,
        day as u32,
    ) {
        Some(t)
    } else {
        None
    }
}

fn push_two_digits(s: &mut String, n: u16)
    requires
        n < 100,
    ensures
        final(s)@ == old(s)@ + two_digits(n as int),
{
    push_char(s, ((48 + n / 10) as u8) as char);
    push_char(s, ((48 + n % 10) as u8) as char);
    assert(final(s)@ =~= old(s)@ + two_digits(n as int));
}

/// Writes a timestamp as `DD.MM.YYYY HH:MM:SS`.
pub fn format_timestamp(t: &UtcDateTime) -> (r: String)
    requires
        t.wf(),
    ensures
        r@ == timestamp_text(*t),
{
    let mut s = String::new();
    push_two_digits(&mut s, t.day as u16);
    push_char(&mut s, '.');
    push_two_digits(&mut s, t.month as u16);
    push_char(&mut s, '.');
    push_two_digits(&mut s, t.year / 100);
    push_two_digits(&mut s, t.year % 100);
    push_char(&mut s, ' ');
    push_two_digits(&mut s, t.hour as u16);
    push_char(&mut s, ':');
    push_two_digits(&mut s, t.minute as u16);
    push_char(&mut s, ':');
    push_two_digits(&mut s, t.second as u16);
    proof {
        lemma_four_digits(t.year as int);
        assert(s@ =~= timestamp_text(*t));
    }
    s
}

proof fn lemma_four_digits(y: int)
    requires
        0 <= y <= 9999,
    ensures
        two_digits(y / 100) + two_digits(y % 100) == four_digits(y),
{
    assert((y / 100) / 10 == y / 1000) by (nonlinear_arith)
        requires
            0 <= y,
    ;
    assert((y % 100) / 10 == (y / 10) % 10) by (nonlinear_arith)
        requires
            0 <= y,
    ;
    assert((y % 100) % 10 == y % 10) by (nonlinear_arith)
        requires
            0 <= y,
    ;
    assert(two_digits(y / 100) + two_digits(y % 100) =~= four_digits(y));
}

proof fn lemma_read_two_digits(s: Seq<char>, at: int)
    requires
        0 <= at,
        at + 1 < s.len(),
        is_digit(s[at]),
        is_digit(s[at + 1]),
    ensures
        0 <= two_digit_value(s, at) < 100,
        two_digits(two_digit_value(s, at)) == s.subrange(at, at + 2),
{
    let a = digit_value(s[at]);
    let b = digit_value(s[at + 1]);
    assert((a * 10 + b) / 10 == a && (a * 10 + b) % 10 == b);
    assert(digit_char(a) == s[at]);
    assert(digit_char(b) == s[at + 1]);
    assert(two_digits(two_digit_value(s, at)) =~= s.subrange(at, at + 2));
}

proof fn lemma_write_two_digits(n: int)
    requires
        0 <= n < 100,
    ensures
        is_digit(two_digits(n)[0]),
        is_digit(two_digits(n)[1]),
        two_digit_value(two_digits(n), 0) == n,
{
    let a = n / 10;
    let b = n % 10;
    assert(digit_char(a) as int == 48 + a);
    assert(digit_char(b) as int == 48 + b);
}

/// Reading a timestamp text and writing the timestamp back gives the same text.
pub proof fn lemma_timestamp_round_trip(s: Seq<char>)
    requires
        timestamp_of(s) is Some,
    ensures
        timestamp_text(timestamp_of(s).unwrap()) == s,
{
    let t = timestamp_of(s).unwrap();
    assert(shape_ok_at(s, 0) && shape_ok_at(s, 1) && shape_ok_at(s, 3) && shape_ok_at(s, 4));
    assert(shape_ok_at(s, 6) && shape_ok_at(s, 7) && shape_ok_at(s, 8) && shape_ok_at(s, 9));
    assert(shape_ok_at(s, 11) && shape_ok_at(s, 12) && shape_ok_at(s, 14) && shape_ok_at(s, 15));
    assert(shape_ok_at(s, 17) && shape_ok_at(s, 18));
    assert(shape_ok_at(s, 2) && shape_ok_at(s, 5) && shape_ok_at(s, 10) && shape_ok_at(s, 13)
        && shape_ok_at(s, 16));
    lemma_read_two_digits(s, 0);
    lemma_read_two_digits(s, 3);
    lemma_read_two_digits(s, 6);
    lemma_read_two_digits(s, 8);
    lemma_read_two_digits(s, 11);
    lemma_read_two_digits(s, 14);
    lemma_read_two_digits(s, 17);
    let hi = two_digit_value(s, 6);
    let lo = two_digit_value(s, 8);
    let y = t.year as int;
    assert(y == hi * 100 + lo);
    assert(y / 100 == hi && y % 100 == lo);
    lemma_four_digits(y);
    assert(timestamp_text(t) =~= s);
}

/// Writing a timestamp and reading the text back gives the same timestamp.
pub proof fn lemma_timestamp_text_parses(t: UtcDateTime)
    requires
        t.wf(),
    ensures
        timestamp_of(timestamp_text(t)) == Some(t),
{
    let s = timestamp_text(t);
    let y = t.year as int;
    lemma_four_digits(y);
    lemma_write_two_digits(t.day as int);
    lemma_write_two_digits(t.month as int);
    lemma_write_two_digits(y / 100);
    lemma_write_two_digits(y % 100);
    lemma_write_two_digits(t.hour as int);
    lemma_write_two_digits(t.minute as int);
    lemma_write_two_digits(t.second as int);
    assert(s.subrange(0, 2) =~= two_digits(t.day as int));
    assert(s.subrange(3, 5) =~= two_digits(t.month as int));
    assert(s.subrange(6, 8) =~= two_digits(y / 100));
    assert(s.subrange(8, 10) =~= two_digits(y % 100));
    assert(s.subrange(11, 13) =~= two_digits(t.hour as int));
    assert(s.subrange(14, 16) =~= two_digits(t.minute as int));
    assert(s.subrange(17, 19) =~= two_digits(t.second as int));
    assert forall|k: int| 0 <= k < 19 implies shape_ok_at(s, k) by {
        if k == 0 || k == 1 {
            assert(s[k] == two_digits(t.day as int)[k]);
        } else if k == 3 || k == 4 {
            assert(s[k] == two_digits(t.month as int)[k - 3]);
        } else if k == 6 || k == 7 {
            assert(s[k] == two_digits(y / 100)[k - 6]);
        } else if k == 8 || k == 9 {
            assert(s[k] == two_digits(y % 100)[k - 8]);
        } else if k == 11 || k == 12 {
            assert(s[k] == two_digits(t.hour as int)[k - 11]);
        } else if k == 14 || k == 15 {
            assert(s[k] == two_digits(t.minute as int)[k - 14]);
        } else if k == 17 || k == 18 {
            assert(s[k] == two_digits(t.second as int)[k - 17]);
        }
    }
    assert(two_digit_value(s, 0) == two_digit_value(two_digits(t.day as int), 0));
    assert(two_digit_value(s, 3) == two_digit_value(two_digits(t.month as int), 0));
    assert(two_digit_value(s, 6) == two_digit_value(two_digits(y / 100), 0));
    assert(two_digit_value(s, 8) == two_digit_value(two_digits(y % 100), 0));
    assert(two_digit_value(s, 11) == two_digit_value(two_digits(t.hour as int), 0));
    assert(two_digit_value(s, 14) == two_digit_value(two_digits(t.minute as int), 0));
    assert(two_digit_value(s, 17) == two_digit_value(two_digits(t.second as int), 0));
    assert(timestamp_fields(s) == t);
}

} // verus!
