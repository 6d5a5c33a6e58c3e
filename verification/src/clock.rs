//! The local wall clock, and the date formats that the service writes.

use chrono::{Datelike, Local, NaiveDate, Timelike};
use vstd::prelude::*;

use crate::text;

verus! {

/// A civil date and time of day in the machine's time zone, to the second.
#[derive(Debug, Clone, Copy)]
pub struct LocalTime {
    pub year: i32,
    pub month: u32,
    pub day: u32,
    pub hour: u32,
    pub minute: u32,
    pub second: u32,
}

/// Whether `year` has a 29th of February in the proleptic Gregorian calendar.
pub open spec fn is_leap_year(year: int) -> bool {
    year % 4 == 0 && (year % 100 != 0 || year % 400 == 0)
}

/// The number of days of a month.
pub open spec fn days_in_month(year: int, month: int) -> int {
    if month == 2 {
        if is_leap_year(year) {
            29
        } else {
            28
        }
    } else if month == 4 || month == 6 || month == 9 || month == 11 {
        30
    } else {
        31
    }
}

impl LocalTime {
    /// A day of the calendar, in the years that the clock can tell, and a time of that day.
    pub open spec fn wf(self) -> bool {
        &&& -262143 <= self.year <= 262142
        &&& 1 <= self.month <= 12
        &&& 1 <= self.day <= days_in_month(self.year as int, self.month as int)
        &&& self.hour <= 23
        &&& self.minute <= 59
        &&& self.second <= 59
    }
}

/// A year as `%Y` writes it: four digits at least, and a sign outside 0 to 9999.
pub open spec fn year_text(year: int) -> Seq<char> {
    if 0 <= year <= 9999 {
        text::padded_decimal(year as nat, 4)
    } else if year > 9999 {
        seq!['+'] + text::decimal_digits(year as nat)
    } else if year >= -9999 {
        seq!['-'] + text::padded_decimal((-year) as nat, 4)
    } else {
        seq!['-'] + text::decimal_digits((-year) as nat)
    }
}

/// Two digits, with a leading zero where needed.
pub open spec fn two_digits(n: int) -> Seq<char> {
    text::padded_decimal(n as nat, 2)
}

/// Whether `c` is one of the specifiers that the service's formats use.
pub open spec fn is_specifier(c: char) -> bool {
    c == 'd' || c == 'm' || c == 'Y' || c == 'H' || c == 'M' || c == 'S'
}

/// What the specifier `c` stands for at `time`.
pub open spec fn specifier_text(time: LocalTime, c: char) -> Seq<char> {
    if c == 'd' {
        two_digits(time.day as int)
    } else if c == 'm' {
        two_digits(time.month as int)
    } else if c == 'Y' {
        year_text(time.year as int)
    } else if c == 'H' {
        two_digits(time.hour as int)
    } else if c == 'M' {
        two_digits(time.minute as int)
    } else {
        two_digits(time.second as int)
    }
}

/// Whether every percent sign of a format is followed by one of those specifiers.
pub open spec fn is_plain_format(format: Seq<char>) -> bool
    decreases format.len(),
{
    if format.len() == 0 {
        true
    } else if format[0] == '%' {
        format.len() >= 2 && is_specifier(format[1]) && is_plain_format(format.skip(2))
    } else {
        is_plain_format(format.skip(1))
    }
}

/// `time` written in a plain format: specifiers replaced, all else kept.
pub open spec fn formatted(time: LocalTime, format: Seq<char>) -> Seq<char>
    decreases format.len(),
{
    if format.len() == 0 {
        Seq::empty()
    } else if format[0] == '%' && format.len() >= 2 {
        specifier_text(time, format[1]) + formatted(time, format.skip(2))
    } else {
        seq![format[0]] + formatted(time, format.skip(1))
    }
}

/// Reads `chrono::Local::now()` and takes it apart.
///
/// Believed of it: the fields make a date that exists, in chrono's range of years, and a time of
/// day without leap seconds. Which date that is depends on the machine's clock and time zone, so
/// nothing more is claimed. chrono panics where the clock stands before 1970, where the machine's
/// time-zone data gives no offset, and where the offset shifts the time out of that range of years.
#[verifier::external_body]
pub(crate) fn local_now() -> (r: LocalTime)
    ensures
        r.wf(),
{
    let now = Local::now().naive_local();
    LocalTime {
        year: now.year(),
        month: now.month(),
        day: now.day(),
        hour: now.hour(),
        minute: now.minute(),
        second: now.second(),
    }
}

/// `chrono::NaiveDateTime::format`, rendered to a string.
///
/// Believed of it: on a date that exists, and for a format whose only specifiers are `%d`, `%m`,
/// `%Y`, `%H`, `%M` and `%S`, it writes each specifier as chrono documents it (zero-padded fields,
/// and a signed year outside 0 to 9999) and copies everything else.
#[verifier::external_body]
fn format_time(time: &LocalTime, format: &str) -> (r: String)
    requires
        time.wf(),
        is_plain_format(format@),
    ensures
        r@ == formatted(*time, format@),
{
    NaiveDate::from_ymd_opt(time.year, time.month, time.day)
        .unwrap()
        .and_hms_opt(time.hour, time.minute, time.second)
        .unwrap()
        .format(format)
        .to_string()
}

/// Day, month, year, hour and minute, as they are written into a timestamp cell.
pub open spec fn cell_stamp_text(time: LocalTime) -> Seq<char> {
    two_digits(time.day as int) + seq!['-'] + two_digits(time.month as int) + seq!['-'] + year_text(
        time.year as int,
    ) + seq![':'] + two_digits(time.hour as int) + seq![':'] + two_digits(time.minute as int)
}

/// Year, month and day, as they name a log file.
pub open spec fn date_text(time: LocalTime) -> Seq<char> {
    year_text(time.year as int) + seq!['-'] + two_digits(time.month as int) + seq!['-']
        + two_digits(time.day as int)
}

/// Date and time of day, as they open a log line.
pub open spec fn date_time_text(time: LocalTime) -> Seq<char> {
    date_text(time) + seq![' '] + two_digits(time.hour as int) + seq![':'] + two_digits(
        time.minute as int,
    ) + seq![':'] + two_digits(time.second as int)
}

/// Writes `time` for a timestamp cell, such as `31-12-2024:23:59`.
pub fn cell_stamp(time: &LocalTime) -> (r: String)
    requires
        time.wf(),
    ensures
        r@ == cell_stamp_text(*time),
{
    proof {
        reveal_strlit("%d-%m-%Y:%H:%M");
        reveal_with_fuel(is_plain_format, 10);
        reveal_with_fuel(formatted, 10);
        let f = "%d-%m-%Y:%H:%M"@;
        assert(formatted(*time, f) =~= cell_stamp_text(*time));
    }
    format_time(time, "%d-%m-%Y:%H:%M")
}

/// Writes the date of `time`, such as `2024-12-31`.
pub fn date_stamp(time: &LocalTime) -> (r: String)
    requires
        time.wf(),
    ensures
        r@ == date_text(*time),
{
    proof {
        reveal_strlit("%Y-%m-%d");
        reveal_with_fuel(is_plain_format, 6);
        reveal_with_fuel(formatted, 6);
        let f = "%Y-%m-%d"@;
        assert(formatted(*time, f) =~= date_text(*time));
    }
    format_time(time, "%Y-%m-%d")
}

/// Writes the date and time of day of `time`, such as `2024-12-31 23:59:58`.
pub fn date_time_stamp(time: &LocalTime) -> (r: String)
    requires
        time.wf(),
    ensures
        r@ == date_time_text(*time),
{
    proof {
        reveal_strlit("%Y-%m-%d %H:%M:%S");
        reveal_with_fuel(is_plain_format, 12);
        reveal_with_fuel(formatted, 12);
        let f = "%Y-%m-%d %H:%M:%S"@;
        assert(formatted(*time, f) =~= date_time_text(*time));
    }
    format_time(time, "%Y-%m-%d %H:%M:%S")
}

/// A two-digit field tells its value.
proof fn lemma_two_digits_injective(a: int, b: int)
    requires
        0 <= a < 100,
        0 <= b < 100,
        two_digits(a) == two_digits(b),
    ensures
        a == b,
{
    reveal_with_fuel(text::pow10, 3);
    text::lemma_padded_decimal_injective(a as nat, b as nat, 2);
}

/// The text of a year starts with a digit from 0 to 9999, and with its sign elsewhere; the text
/// after a sign is that of the year without it.
proof fn lemma_year_text_shape(year: int)
    ensures
        0 <= year <= 9999 ==> year_text(year).len() == 4 && year_text(year)[0] != '+'
            && year_text(year)[0] != '-',
        year > 9999 ==> year_text(year).len() >= 6 && year_text(year)[0] == '+'
            && year_text(year).skip(1) == text::decimal_digits(year as nat),
        -9999 <= year < 0 ==> year_text(year).len() == 5 && year_text(year)[0] == '-'
            && year_text(year).skip(1) == text::padded_decimal((-year) as nat, 4),
        year < -9999 ==> year_text(year).len() >= 6 && year_text(year)[0] == '-'
            && year_text(year).skip(1) == text::decimal_digits((-year) as nat),
{
    reveal_with_fuel(text::pow10, 6);
    if 0 <= year <= 9999 {
        reveal_with_fuel(text::padded_decimal, 5);
    } else if year > 9999 {
        text::lemma_decimal_len(year as nat, 5);
        assert(year_text(year).skip(1) =~= text::decimal_digits(year as nat));
    } else if year >= -9999 {
        text::lemma_padded_decimal_len((-year) as nat, 4);
        assert(year_text(year).skip(1) =~= text::padded_decimal((-year) as nat, 4));
    } else {
        text::lemma_decimal_len((-year) as nat, 5);
        assert(year_text(year).skip(1) =~= text::decimal_digits((-year) as nat));
    }
}

/// The text of a year tells which year it is.
proof fn lemma_year_text_injective(a: int, b: int)
    requires
        year_text(a) == year_text(b),
    ensures
        a == b,
{
    lemma_year_text_shape(a);
    lemma_year_text_shape(b);
    reveal_with_fuel(text::pow10, 5);
    if 0 <= a <= 9999 {
        text::lemma_padded_decimal_injective(a as nat, b as nat, 4);
    } else if a > 9999 {
        text::lemma_decimal_injective(a as nat, b as nat);
    } else if a >= -9999 {
        text::lemma_padded_decimal_injective((-a) as nat, (-b) as nat, 4);
    } else {
        text::lemma_decimal_injective((-a) as nat, (-b) as nat);
    }
}

/// The text of a date tells which date it is.
pub proof fn lemma_date_text_injective(a: LocalTime, b: LocalTime)
    requires
        a.wf(),
        b.wf(),
        date_text(a) == date_text(b),
    ensures
        a.year == b.year,
        a.month == b.month,
        a.day == b.day,
{
    let x = date_text(a);
    let y = date_text(b);
    text::lemma_padded_decimal_len(a.month as nat, 2);
    text::lemma_padded_decimal_len(a.day as nat, 2);
    text::lemma_padded_decimal_len(b.month as nat, 2);
    text::lemma_padded_decimal_len(b.day as nat, 2);
    let n = x.len() as int;
    assert(x.take(n - 6) =~= year_text(a.year as int));
    assert(y.take(n - 6) =~= year_text(b.year as int));
    lemma_year_text_injective(a.year as int, b.year as int);
    assert(x.subrange(n - 5, n - 3) =~= two_digits(a.month as int));
    assert(y.subrange(n - 5, n - 3) =~= two_digits(b.month as int));
    lemma_two_digits_injective(a.month as int, b.month as int);
    assert(x.subrange(n - 2, n) =~= two_digits(a.day as int));
    assert(y.subrange(n - 2, n) =~= two_digits(b.day as int));
    lemma_two_digits_injective(a.day as int, b.day as int);
}

/// A field of up to two digits is written with exactly two, which read back as its value.
pub proof fn law_two_digits_read_back(n: int)
    requires
        0 <= n < 100,
    ensures
        two_digits(n).len() == 2,
        text::all_decimal(two_digits(n)),
        text::read_number(two_digits(n), 10) == n,
{
    reveal_with_fuel(text::pow10, 3);
    text::law_padded_decimal_reads_back(n as nat, 2);
}

/// A year from 0 to 9999 is written with four digits; any other with its sign, and then with four
/// digits at least and no zeros but those it takes to get to four. The digits read back as the
/// year, but for the sign.
pub proof fn law_year_reads_back(year: int)
    ensures
        ({
            let t = year_text(year);
            if 0 <= year <= 9999 {
                &&& t.len() == 4
                &&& text::all_decimal(t)
                &&& text::read_number(t, 10) == year
            } else {
                &&& t.len() >= 5
                &&& t[0] == (if year > 0 {
                    '+'
                } else {
                    '-'
                })
                &&& text::all_decimal(t.skip(1))
                &&& text::read_number(t.skip(1), 10) == (if year > 0 {
                    year
                } else {
                    -year
                })
                &&& -9999 <= year < 0 ==> t.len() == 5
                &&& !(-9999 <= year < 0) ==> t[1] != '0'
            }
        }),
{
    lemma_year_text_shape(year);
    reveal_with_fuel(text::pow10, 6);
    let t = year_text(year);
    if 0 <= year <= 9999 {
        text::law_padded_decimal_reads_back(year as nat, 4);
    } else {
        let n = if year > 0 {
            year as nat
        } else {
            (-year) as nat
        };
        assert(t[1] == t.skip(1)[0]);
        if -9999 <= year < 0 {
            text::law_padded_decimal_reads_back(n, 4);
        } else {
            text::law_decimal_reads_back(n);
        }
    }
}

/// Whether the two characters of `t` at `at` are digits that read as `n`.
pub open spec fn reads_at(t: Seq<char>, at: int, n: int) -> bool {
    &&& 0 <= at <= t.len() - 2
    &&& text::all_decimal(t.subrange(at, at + 2))
    &&& text::read_number(t.subrange(at, at + 2), 10) == n
}

/// Two digits that stand at `at` in `t` read as what they write.
proof fn lemma_reads_at(t: Seq<char>, at: int, n: int)
    requires
        0 <= n < 100,
        0 <= at <= t.len() - 2,
        t.subrange(at, at + 2) =~= two_digits(n),
    ensures
        reads_at(t, at, n),
{
    law_two_digits_read_back(n);
}

/// A timestamp cell holds day, month, year, hour and minute, in that order, with two hyphens, and
/// then two colons, between them.
pub proof fn law_cell_stamp_fields(time: LocalTime)
    requires
        time.wf(),
    ensures
        ({
            let t = cell_stamp_text(time);
            let n = t.len() as int;
            &&& n >= 16
            &&& reads_at(t, 0, time.day as int)
            &&& t[2] == '-'
            &&& reads_at(t, 3, time.month as int)
            &&& t[5] == '-'
            &&& t.subrange(6, n - 6) == year_text(time.year as int)
            &&& t[n - 6] == ':'
            &&& reads_at(t, n - 5, time.hour as int)
            &&& t[n - 3] == ':'
            &&& reads_at(t, n - 2, time.minute as int)
        }),
{
    let t = cell_stamp_text(time);
    let n = t.len() as int;
    law_year_reads_back(time.year as int);
    law_two_digits_read_back(time.day as int);
    law_two_digits_read_back(time.month as int);
    law_two_digits_read_back(time.hour as int);
    law_two_digits_read_back(time.minute as int);
    lemma_reads_at(t, 0, time.day as int);
    lemma_reads_at(t, 3, time.month as int);
    lemma_reads_at(t, n - 5, time.hour as int);
    lemma_reads_at(t, n - 2, time.minute as int);
    assert(t.subrange(6, n - 6) =~= year_text(time.year as int));
}

/// A date holds year, month and day, in that order, with hyphens between them.
pub proof fn law_date_fields(time: LocalTime)
    requires
        time.wf(),
    ensures
        ({
            let t = date_text(time);
            let n = t.len() as int;
            &&& n >= 10
            &&& t.subrange(0, n - 6) == year_text(time.year as int)
            &&& t[n - 6] == '-'
            &&& reads_at(t, n - 5, time.month as int)
            &&& t[n - 3] == '-'
            &&& reads_at(t, n - 2, time.day as int)
        }),
{
    let t = date_text(time);
    let n = t.len() as int;
    law_year_reads_back(time.year as int);
    law_two_digits_read_back(time.month as int);
    law_two_digits_read_back(time.day as int);
    lemma_reads_at(t, n - 5, time.month as int);
    lemma_reads_at(t, n - 2, time.day as int);
    assert(t.subrange(0, n - 6) =~= year_text(time.year as int));
}

/// A date and time of day hold the date, hour, minute and second, in that order, with a space
/// after the date and colons after that.
pub proof fn law_date_time_fields(time: LocalTime)
    requires
        time.wf(),
    ensures
        ({
            let t = date_time_text(time);
            let n = t.len() as int;
            &&& n >= 19
            &&& t.subrange(0, n - 9) == date_text(time)
            &&& t[n - 9] == ' '
            &&& reads_at(t, n - 8, time.hour as int)
            &&& t[n - 6] == ':'
            &&& reads_at(t, n - 5, time.minute as int)
            &&& t[n - 3] == ':'
            &&& reads_at(t, n - 2, time.second as int)
        }),
{
    let t = date_time_text(time);
    let n = t.len() as int;
    law_date_fields(time);
    law_two_digits_read_back(time.hour as int);
    law_two_digits_read_back(time.minute as int);
    law_two_digits_read_back(time.second as int);
    lemma_reads_at(t, n - 8, time.hour as int);
    lemma_reads_at(t, n - 5, time.minute as int);
    lemma_reads_at(t, n - 2, time.second as int);
    assert(t.subrange(0, n - 9) =~= date_text(time));
}

/// In a format a specifier stands for its field, and any other character for itself.
pub proof fn law_format_piece_by_piece(time: LocalTime, c: char, rest: Seq<char>)
    ensures
        formatted(time, Seq::empty()) == Seq::<char>::empty(),
        c != '%' ==> formatted(time, seq![c] + rest) == seq![c] + formatted(time, rest),
        formatted(time, seq!['%', 'd'] + rest) == two_digits(time.day as int) + formatted(
            time,
            rest,
        ),
        formatted(time, seq!['%', 'm'] + rest) == two_digits(time.month as int) + formatted(
            time,
            rest,
        ),
        formatted(time, seq!['%', 'Y'] + rest) == year_text(time.year as int) + formatted(
            time,
            rest,
        ),
        formatted(time, seq!['%', 'H'] + rest) == two_digits(time.hour as int) + formatted(
            time,
            rest,
        ),
        formatted(time, seq!['%', 'M'] + rest) == two_digits(time.minute as int) + formatted(
            time,
            rest,
        ),
        formatted(time, seq!['%', 'S'] + rest) == two_digits(time.second as int) + formatted(
            time,
            rest,
        ),
{
    assert((seq![c] + rest).skip(1) =~= rest);
    assert((seq!['%', 'd'] + rest).skip(2) =~= rest);
    assert((seq!['%', 'm'] + rest).skip(2) =~= rest);
    assert((seq!['%', 'Y'] + rest).skip(2) =~= rest);
    assert((seq!['%', 'H'] + rest).skip(2) =~= rest);
    assert((seq!['%', 'M'] + rest).skip(2) =~= rest);
    assert((seq!['%', 'S'] + rest).skip(2) =~= rest);
}

/// A time is admitted exactly where its day is one of the Gregorian calendar, in the years that the
/// clock can tell, and its time of day exists.
pub proof fn law_every_date_is_admitted(time: LocalTime)
    ensures
        time.wf() <==> {
            &&& -262143 <= time.year <= 262142
            &&& 1 <= time.month <= 12
            &&& time.day >= 1
            &&& (time.day <= 28 || time.day == 29 && (time.month != 2 || time.year % 400 == 0
                || time.year % 4 == 0 && time.year % 100 != 0) || time.day == 30 && time.month != 2
                || time.day == 31 && (time.month == 1 || time.month == 3 || time.month == 5
                || time.month == 7 || time.month == 8 || time.month == 10 || time.month == 12))
            &&& time.hour < 24 && time.minute < 60 && time.second < 60
        },
{
}

} // verus!
