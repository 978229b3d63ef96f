//! Calendar dates.

use vstd::prelude::*;

use crate::money;
use crate::text;

verus! {

/// A day of the proleptic Gregorian calendar.
#[derive(Debug, Clone, Copy, PartialEq, Eq, Structural)]
pub struct Date {
    pub year: i32,
    pub month: u32,
    pub day: u32,
}

/// Whether a year has a 29th of February.
pub open spec fn is_leap(year: int) -> bool {
    year % 4 == 0 && (year % 100 != 0 || year % 400 == 0)
}

/// The number of days of a month.
pub open spec fn days_in_month(year: int, month: int) -> int {
    if month == 2 {
        if is_leap(year) {
            29
        } else {
            28
        }
    } else if month == 4 || month == 6 || month == 9 || month == 11 {
        30
    } else {
        31
    }
}

/// The first year of the calendar.
pub open spec fn first_year() -> int {
    -262143
}

/// The last year of the calendar.
pub open spec fn last_year() -> int {
    262142
}

impl Date {
    /// Whether this is a day of the calendar.
    pub open spec fn valid(self) -> bool {
        &&& first_year() <= self.year <= last_year()
        &&& 1 <= self.month <= 12
        &&& 1 <= self.day <= days_in_month(self.year as int, self.month as int)
    }

    /// The following day, unless this is the last day of the calendar.
    pub open spec fn following(self) -> Option<Date> {
        if self.day < days_in_month(self.year as int, self.month as int) {
            Some(Date { day: (self.day + 1) as u32, ..self })
        } else if self.month < 12 {
            Some(Date { year: self.year, month: (self.month + 1) as u32, day: 1 })
        } else if self.year < last_year() {
            Some(Date { year: (self.year + 1) as i32, month: 1, day: 1 })
        } else {
            None
        }
    }

    /// The preceding day, unless this is the first day of the calendar.
    pub open spec fn preceding(self) -> Option<Date> {
        if self.day > 1 {
            Some(Date { day: (self.day - 1) as u32, ..self })
        } else if self.month > 1 {
            Some(
                Date {
                    year: self.year,
                    month: (self.month - 1) as u32,
                    day: days_in_month(self.year as int, self.month - 1) as u32,
                },
            )
        } else if self.year > first_year() {
            Some(Date { year: (self.year - 1) as i32, month: 12, day: 31 })
        } else {
            None
        }
    }

    /// Whether this day comes before another one.
    pub open spec fn earlier(self, other: Date) -> bool {
        self.year < other.year || (self.year == other.year && (self.month < other.month || (
        self.month == other.month && self.day < other.day)))
    }

    /// Whether this day comes before another one.
    pub fn is_before(&self, other: &Date) -> (r: bool)
        ensures
            r == self.earlier(*other),
    {
        self.year < other.year || (self.year == other.year && (self.month < other.month || (
        self.month == other.month && self.day < other.day)))
    }

    /// The day as `YYYY-MM-DD`; years outside four digits carry their sign.
    pub open spec fn iso(self) -> Seq<char> {
        year_text(self.year as int) + "-"@ + text::two_digits(self.month as nat) + "-"@
            + text::two_digits(self.day as nat)
    }

    /// Writes the day as `YYYY-MM-DD`.
    pub fn iso_text(&self) -> (r: String)
        ensures
            r@ == self.iso(),
    {
        let year = year_string(self.year);
        let month = text::at_least_two(self.month as u64);
        let day = text::at_least_two(self.day as u64);
        text::cat5(year.as_str(), "-", month.as_str(), "-", day.as_str())
    }

    /// The day as `MM/DD`.
    pub open spec fn short(self) -> Seq<char> {
        text::two_digits(self.month as nat) + "/"@ + text::two_digits(self.day as nat)
    }

    /// Writes the day as `MM/DD`.
    pub fn short_text(&self) -> (r: String)
        ensures
            r@ == self.short(),
    {
        let month = text::at_least_two(self.month as u64);
        let day = text::at_least_two(self.day as u64);
        text::cat3(month.as_str(), "/", day.as_str())
    }
}

/// A number in at least four digits.
pub open spec fn four_digits(n: nat) -> Seq<char> {
    text::filled('0', (if n < 10 { 3nat } else if n < 100 { 2nat } else if n < 1000 { 1nat } else { 0nat }))
        + text::decimal(n)
}

/// A year in at least four digits, with a sign unless it lies in 0..=9999.
pub open spec fn year_text(year: int) -> Seq<char> {
    if year < 0 {
        "-"@ + four_digits((-year) as nat)
    } else if year <= 9999 {
        four_digits(year as nat)
    } else {
        "+"@ + four_digits(year as nat)
    }
}

fn year_string(year: i32) -> (r: String)
    ensures
        r@ == year_text(year as int),
{
    let n: u64 = text::abs_of(year as i64);
    let zeros: &str = if n < 10 {
        "000"
    } else if n < 100 {
        "00"
    } else if n < 1000 {
        "0"
    } else {
        ""
    };
    let digits = text::number(n);
    proof {
        reveal_strlit("000");
        reveal_strlit("00");
        reveal_strlit("0");
        reveal_strlit("");
    }
    let padded = text::cat2(zeros, digits.as_str());
    assert(padded@ =~= four_digits(n as nat));
    if year < 0 {
        text::cat2("-", padded.as_str())
    } else if year <= 9999 {
        padded
    } else {
        text::cat2("+", padded.as_str())
    }
}

/// The day after the day before, and the day before the day after, is the day
/// itself.
pub proof fn days_are_linked(d: Date)
    requires
        d.valid(),
    ensures
        d.preceding() is Some ==> d.preceding()->0.valid() && d.preceding()->0.following() == Some(d),
        d.following() is Some ==> d.following()->0.valid() && d.following()->0.preceding() == Some(d),
{
}

/// Neighbouring days are ordered.
pub proof fn days_are_ordered(d: Date)
    requires
        d.valid(),
    ensures
        d.preceding() is Some ==> d.preceding()->0.earlier(d),
        d.following() is Some ==> d.earlier(d.following()->0),
{
}

/// The date that a text writes in a `strftime` format, as chrono reads it.
pub uninterp spec fn date_in_format(s: Seq<char>, format: Seq<char>) -> Option<Date>;

/// Three texts with a separator between them.
pub open spec fn joined(a: Seq<char>, b: Seq<char>, c: Seq<char>, separator: char) -> Seq<char> {
    a + seq![separator] + b + seq![separator] + c
}

/// Whether three texts are numbers in digits, to be joined by slashes or dashes.
pub open spec fn are_numbers(a: Seq<char>, b: Seq<char>, c: Seq<char>, separator: char) -> bool {
    &&& a.len() > 0 && money::all_digits(a)
    &&& b.len() > 0 && money::all_digits(b)
    &&& c.len() > 0 && money::all_digits(c)
    &&& separator == '/' || separator == '-'
}

/// The day of the calendar with the given numbers, if there is one.
pub open spec fn calendar_day(year: nat, month: nat, day: nat) -> Option<Date> {
    if year <= 9999 && 1 <= month <= 12 && 1 <= day <= days_in_month(year as int, month as int) {
        Some(Date { year: year as i32, month: month as u32, day: day as u32 })
    } else {
        None
    }
}

/// The day that a year of at most four digits and a month and a day of at most
/// two digits write.
pub open spec fn written_day(
    year: Seq<char>,
    month: Seq<char>,
    day: Seq<char>,
) -> Option<Date> {
    if year.len() <= 4 && month.len() <= 2 && day.len() <= 2 {
        calendar_day(
            money::digits_value(year),
            money::digits_value(month),
            money::digits_value(day),
        )
    } else {
        None
    }
}

/// The year that at most two digits write: from 1970 to 2069.
pub open spec fn short_year(s: Seq<char>) -> nat {
    if money::digits_value(s) < 70 {
        2000 + money::digits_value(s)
    } else {
        1900 + money::digits_value(s)
    }
}

/// The day that a month, a day and a year of at most two digits each write.
pub open spec fn short_day(month: Seq<char>, day: Seq<char>, year: Seq<char>) -> Option<Date> {
    if year.len() <= 2 && month.len() <= 2 && day.len() <= 2 {
        calendar_day(short_year(year), money::digits_value(month), money::digits_value(day))
    } else {
        None
    }
}

/// Whether the reading of a text in a format is the right one as far as the
/// text is made of three numbers that are joined by slashes or dashes, and the
/// format of a year, a month and a day: the numbers stand for the fields in
/// the order of the format, and the separators have to be the same.
pub open spec fn reads_numbers(s: Seq<char>, format: Seq<char>, r: Option<Date>) -> bool {
    forall|a: Seq<char>, b: Seq<char>, c: Seq<char>, x: char|
        s == #[trigger] joined(a, b, c, x) && are_numbers(a, b, c, x) ==> {
            let slash = |d: Option<Date>|
                if x == '/' {
                    d
                } else {
                    None
                };
            let dash = |d: Option<Date>|
                if x == '-' {
                    d
                } else {
                    None
                };
            &&& format == "%Y/%m/%d"@ ==> r == slash(written_day(a, b, c))
            &&& format == "%Y-%m-%d"@ ==> r == dash(written_day(a, b, c))
            &&& format == "%m/%d/%Y"@ ==> r == slash(written_day(c, a, b))
            &&& format == "%m-%d-%Y"@ ==> r == dash(written_day(c, a, b))
            &&& format == "%d-%m-%Y"@ ==> r == dash(written_day(c, b, a))
            &&& format == "%m/%d/%y"@ ==> r == slash(short_day(a, b, c))
            &&& format == "%m-%d-%y"@ ==> r == dash(short_day(a, b, c))
        }
}

/// `chrono::NaiveDate::parse_from_str` reads a date in a `strftime` format.
/// What it reads is a function of the text and the format and has a name; a
/// date that it returns is a day of the calendar. Of a text of three numbers
/// joined by slashes or dashes it is stated what is read in the formats of a
/// year, a month and a day: `%Y` takes up to four digits, `%m`, `%d` and `%y`
/// up to two, `%y` means the years from 1970 to 2069, the separators are taken
/// literally, and nothing may be left over. What is read of other texts, and in
/// other formats, is left to the name.
#[verifier::external_body]
pub(crate) fn parse_in_format(s: &str, format: &str) -> (r: Option<Date>)
    ensures
        r == date_in_format(s@, format@),
        r is Some ==> r->0.valid(),
        reads_numbers(s@, format@, r),
{
    let d = chrono::NaiveDate::parse_from_str(s, format).ok()?;
    Some(
        Date {
            year: chrono::Datelike::year(&d),
            month: chrono::Datelike::month(&d),
            day: chrono::Datelike::day(&d),
        },
    )
}

/// `chrono::NaiveDate::succ_opt` gives the following day, and nothing after
/// the last day of the calendar.
#[verifier::external_body]
pub(crate) fn next_day(d: Date) -> (r: Option<Date>)
    requires
        d.valid(),
    ensures
        r == d.following(),
{
    let n = chrono::NaiveDate::from_ymd_opt(d.year, d.month, d.day)?.succ_opt()?;
    Some(
        Date {
            year: chrono::Datelike::year(&n),
            month: chrono::Datelike::month(&n),
            day: chrono::Datelike::day(&n),
        },
    )
}

/// `chrono::NaiveDate::pred_opt` gives the preceding day, and nothing before
/// the first day of the calendar.
#[verifier::external_body]
pub(crate) fn previous_day(d: Date) -> (r: Option<Date>)
    requires
        d.valid(),
    ensures
        r == d.preceding(),
{
    let n = chrono::NaiveDate::from_ymd_opt(d.year, d.month, d.day)?.pred_opt()?;
    Some(
        Date {
            year: chrono::Datelike::year(&n),
            month: chrono::Datelike::month(&n),
            day: chrono::Datelike::day(&n),
        },
    )
}

} // verus!
