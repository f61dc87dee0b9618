//! Calendar dates and the texts that stand for them in storage and reports.

use vstd::prelude::*;

use crate::text::{decimal_text, decimal_text_is_injective, digit_char};

verus! {

/// The years that a date can have.
pub const MIN_YEAR: i32 = -262143;
pub const MAX_YEAR: i32 = 262142;

pub open spec fn is_leap_year(year: int) -> bool {
    year % 4 == 0 && (year % 100 != 0 || year % 400 == 0)
}

pub open spec fn days_in_month(year: int, month: int) -> int {
    if month == 2 {
        if is_leap_year(year) {
            29
        } else {
            28
        }
    } else if month == 4 || month == 6 || month == 9 || month == 11 {
        30
    } else {
        31
    }
}

/// Whether the day exists in the proleptic Gregorian calendar.
pub open spec fn is_date(year: i32, month: u32, day: u32) -> bool {
    &&& MIN_YEAR <= year <= MAX_YEAR
    &&& 1 <= month <= 12
    &&& 1 <= day <= days_in_month(year as int, month as int)
}

pub open spec fn is_time_of_day(hour: u32, minute: u32, second: u32) -> bool {
    hour < 24 && minute < 60 && second < 60
}

pub open spec fn two_digits(n: nat) -> Seq<char> {
    seq![digit_char(n / 10 % 10), digit_char(n % 10)]
}

pub open spec fn four_digits(n: nat) -> Seq<char> {
    two_digits(n / 100) + two_digits(n % 100)
}

/// A number of at least four digits.
pub open spec fn at_least_four_digits(n: nat) -> Seq<char> {
    if n < 10_000 {
        four_digits(n)
    } else {
        decimal_text(n)
    }
}

/// A year in four digits, or with a sign where four digits do not hold it.
pub open spec fn year_text(year: int) -> Seq<char> {
    if year < 0 {
        seq!['-'] + at_least_four_digits((-year) as nat)
    } else if year < 10_000 {
        four_digits(year as nat)
    } else {
        seq!['+'] + at_least_four_digits(year as nat)
    }
}

/// `YYYY-MM-DD`.
pub open spec fn date_text(year: i32, month: u32, day: u32) -> Seq<char> {
    year_text(year as int) + seq!['-'] + two_digits(month as nat) + seq!['-'] + two_digits(
        day as nat,
    )
}

/// `HH:MM:SS`.
pub open spec fn time_text(hour: u32, minute: u32, second: u32) -> Seq<char> {
    two_digits(hour as nat) + seq![':'] + two_digits(minute as nat) + seq![':'] + two_digits(
        second as nat,
    )
}

pub open spec fn is_instant(
    year: i32,
    month: u32,
    day: u32,
    hour: u32,
    minute: u32,
    second: u32,
) -> bool {
    is_date(year, month, day) && is_time_of_day(hour, minute, second)
}

/// `YYYY-MM-DD HH:MM:SS`.
pub open spec fn instant_text(
    year: i32,
    month: u32,
    day: u32,
    hour: u32,
    minute: u32,
    second: u32,
) -> Seq<char> {
    date_text(year, month, day) + seq![' '] + time_text(hour, minute, second)
}

/// `DD/MM/YYYY HH:MM:SS`.
pub open spec fn day_first_text(
    year: i32,
    month: u32,
    day: u32,
    hour: u32,
    minute: u32,
    second: u32,
) -> Seq<char> {
    two_digits(day as nat) + seq!['/'] + two_digits(month as nat) + seq!['/'] + year_text(
        year as int,
    ) + seq![' '] + time_text(hour, minute, second)
}

/// A day of the local calendar.
#[derive(Debug, Clone, Copy, PartialEq, Eq, Structural)]
pub struct LocalDate {
    pub year: i32,
    pub month: u32,
    pub day: u32,
}

impl LocalDate {
    /// The day exists.
    pub open spec fn wf(self) -> bool {
        is_date(self.year, self.month, self.day)
    }

    pub open spec fn text(self) -> Seq<char> {
        date_text(self.year, self.month, self.day)
    }

    /// The date as `YYYY-MM-DD`.
    pub fn stamp(&self) -> (r: String)
        requires
            self.wf(),
        ensures
            r@ == self.text(),
    {
        match format_date(self.year, self.month, self.day) {
            Some(text) => text,
            None => String::new(),
        }
    }
}

/// A reading of a clock.
#[derive(Debug, Clone, Copy, PartialEq, Eq, Structural)]
pub struct ClockReading {
    pub date: LocalDate,
    pub hour: u32,
    pub minute: u32,
    pub second: u32,
}

impl ClockReading {
    /// The instant exists.
    pub open spec fn wf(self) -> bool {
        self.date.wf() && is_time_of_day(self.hour, self.minute, self.second)
    }

    pub open spec fn text(self) -> Seq<char> {
        instant_text(
            self.date.year,
            self.date.month,
            self.date.day,
            self.hour,
            self.minute,
            self.second,
        )
    }

    pub open spec fn day_first(self) -> Seq<char> {
        day_first_text(
            self.date.year,
            self.date.month,
            self.date.day,
            self.hour,
            self.minute,
            self.second,
        )
    }

    /// The instant as `DD/MM/YYYY HH:MM:SS`.
    pub fn day_first_stamp(&self) -> (r: String)
        requires
            self.wf(),
        ensures
            r@ == self.day_first(),
    {
        match format_day_first(
            self.date.year,
            self.date.month,
            self.date.day,
            self.hour,
            self.minute,
            self.second,
        ) {
            Some(text) => text,
            None => String::new(),
        }
    }

    /// The instant as `YYYY-MM-DD HH:MM:SS`.
    pub fn stamp(&self) -> (r: String)
        requires
            self.wf(),
        ensures
            r@ == self.text(),
    {
        match format_date_time(
            self.date.year,
            self.date.month,
            self.date.day,
            self.hour,
            self.minute,
            self.second,
        ) {
            Some(text) => text,
            None => String::new(),
        }
    }
}

/// `chrono::NaiveDate::from_ymd_opt`, then `NaiveDate::format` with `%Y-%m-%d`.
///
/// Taken from chrono without proof: a date is made exactly where the day exists
/// and the year lies between [`MIN_YEAR`] and [`MAX_YEAR`], and it is written as
/// the year in four digits (signed where it lies outside 0 to 9999), the month and
/// the day in two digits each, with hyphens between them.
#[verifier::external_body]
fn format_date(year: i32, month: u32, day: u32) -> (r: Option<String>)
    ensures
        r is Some <==> is_date(year, month, day),
        r is Some ==> r->0@ == date_text(year, month, day),
{
    chrono::NaiveDate::from_ymd_opt(year, month, day).map(|d| d.format("%Y-%m-%d").to_string())
}

/// `chrono::NaiveDate::from_ymd_opt` and `NaiveDate::and_hms_opt`, then
/// `NaiveDateTime::format` with `%Y-%m-%d %H:%M:%S`.
///
/// Taken from chrono without proof: an instant is made exactly where the day exists
/// as for [`format_date`] and the time of day lies below 24, 60 and 60, and it is
/// written as that date, a space, and hour, minute and second in two digits each
/// with colons between them.
#[verifier::external_body]
fn format_date_time(year: i32, month: u32, day: u32, hour: u32, minute: u32, second: u32) -> (r:
    Option<String>)
    ensures
        r is Some <==> is_instant(year, month, day, hour, minute, second),
        r is Some ==> r->0@ == instant_text(year, month, day, hour, minute, second),
{
    chrono::NaiveDate::from_ymd_opt(year, month, day)
        .and_then(|d| d.and_hms_opt(hour, minute, second))
        .map(|t| t.format("%Y-%m-%d %H:%M:%S").to_string())
}

/// `chrono::NaiveDate::from_ymd_opt` and `NaiveDate::and_hms_opt`, then
/// `NaiveDateTime::format` with `%d/%m/%Y %H:%M:%S`.
///
/// Taken from chrono without proof: an instant is made exactly where
/// [`format_date_time`] makes one, and it is written as day, month and year with
/// slashes between them, a space, and hour, minute and second with colons between
/// them, the year as for [`format_date`] and the rest in two digits each.
#[verifier::external_body]
fn format_day_first(year: i32, month: u32, day: u32, hour: u32, minute: u32, second: u32) -> (r:
    Option<String>)
    ensures
        r is Some <==> is_instant(year, month, day, hour, minute, second),
        r is Some ==> r->0@ == day_first_text(year, month, day, hour, minute, second),
{
    chrono::NaiveDate::from_ymd_opt(year, month, day)
        .and_then(|d| d.and_hms_opt(hour, minute, second))
        .map(|t| t.format("%d/%m/%Y %H:%M:%S").to_string())
}

proof fn digit_char_is_injective(a: nat, b: nat)
    requires
        a < 10,
        b < 10,
        digit_char(a) == digit_char(b),
    ensures
        a == b,
{
}

proof fn two_digits_is_injective(a: nat, b: nat)
    requires
        a < 100,
        b < 100,
        two_digits(a) == two_digits(b),
    ensures
        a == b,
{
    assert(two_digits(a)[0] == two_digits(b)[0]);
    assert(two_digits(a)[1] == two_digits(b)[1]);
    digit_char_is_injective(a / 10 % 10, b / 10 % 10);
    digit_char_is_injective(a % 10, b % 10);
}

proof fn four_digits_is_injective(a: nat, b: nat)
    requires
        a < 10_000,
        b < 10_000,
        four_digits(a) == four_digits(b),
    ensures
        a == b,
{
    let fa = four_digits(a);
    let fb = four_digits(b);
    assert(fa.subrange(0, 2) =~= two_digits(a / 100));
    assert(fb.subrange(0, 2) =~= two_digits(b / 100));
    assert(fa.subrange(2, 4) =~= two_digits(a % 100));
    assert(fb.subrange(2, 4) =~= two_digits(b % 100));
    two_digits_is_injective(a / 100, b / 100);
    two_digits_is_injective(a % 100, b % 100);
}

proof fn decimal_text_of_large_is_long(n: nat)
    requires
        n >= 10_000,
    ensures
        decimal_text(n).len() >= 5,
{
    reveal_with_fuel(decimal_text, 6);
    assert(n / 10 / 10 / 10 / 10 >= 1);
}

proof fn at_least_four_digits_is_injective(a: nat, b: nat)
    requires
        at_least_four_digits(a) == at_least_four_digits(b),
    ensures
        a == b,
{
    if a >= 10_000 {
        decimal_text_of_large_is_long(a);
    }
    if b >= 10_000 {
        decimal_text_of_large_is_long(b);
    }
    if a < 10_000 {
        assert(at_least_four_digits(a).len() == 4);
    }
    if b < 10_000 {
        assert(at_least_four_digits(b).len() == 4);
    }
    if a < 10_000 && b < 10_000 {
        four_digits_is_injective(a, b);
    } else {
        decimal_text_is_injective(a, b);
    }
}

proof fn year_text_is_injective(a: int, b: int)
    requires
        year_text(a) == year_text(b),
    ensures
        a == b,
{
    let ta = year_text(a);
    let tb = year_text(b);
    assert(ta[0] == tb[0]);
    if a < 0 || a >= 10_000 {
        let n: nat = if a < 0 {
            (-a) as nat
        } else {
            a as nat
        };
        assert(ta.drop_first() =~= at_least_four_digits(n));
    }
    if b < 0 || b >= 10_000 {
        let n: nat = if b < 0 {
            (-b) as nat
        } else {
            b as nat
        };
        assert(tb.drop_first() =~= at_least_four_digits(n));
    }
    if a < 0 && b < 0 {
        at_least_four_digits_is_injective((-a) as nat, (-b) as nat);
    } else if a >= 10_000 && b >= 10_000 {
        at_least_four_digits_is_injective(a as nat, b as nat);
    } else if 0 <= a < 10_000 && 0 <= b < 10_000 {
        four_digits_is_injective(a as nat, b as nat);
    } else {
        year_text_begins(a);
        year_text_begins(b);
    }
}

/// The first character tells the three forms of a year apart.
proof fn year_text_begins(year: int)
    ensures
        year < 0 ==> year_text(year)[0] == '-',
        year >= 10_000 ==> year_text(year)[0] == '+',
        0 <= year < 10_000 ==> year_text(year)[0] != '-' && year_text(year)[0] != '+',
{
    if 0 <= year < 10_000 {
        assert(year_text(year)[0] == digit_char(year as nat / 100 / 10 % 10));
    }
}

/// Two days have the same stamp only if they are the same day.
pub proof fn stamps_tell_days_apart(a: LocalDate, b: LocalDate)
    requires
        a.wf(),
        b.wf(),
        a.text() == b.text(),
    ensures
        a == b,
{
    let ta = a.text();
    let tb = b.text();
    let n = ta.len() as int;
    assert(ta.subrange(n - 2, n) =~= two_digits(a.day as nat));
    assert(tb.subrange(n - 2, n) =~= two_digits(b.day as nat));
    assert(ta.subrange(n - 5, n - 3) =~= two_digits(a.month as nat));
    assert(tb.subrange(n - 5, n - 3) =~= two_digits(b.month as nat));
    assert(ta.subrange(0, n - 6) =~= year_text(a.year as int));
    assert(tb.subrange(0, n - 6) =~= year_text(b.year as int));
    two_digits_is_injective(a.day as nat, b.day as nat);
    two_digits_is_injective(a.month as nat, b.month as nat);
    year_text_is_injective(a.year as int, b.year as int);
}

} // verus!
