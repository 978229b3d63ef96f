//! Importing transactions from a delimited text file: choosing the file, the
//! way it is read, the target account and the columns, and reviewing the
//! result before anything is written.

use vstd::prelude::*;

use crate::date;
use crate::date::Date;
use crate::domain::AccountType;
use crate::input;
use crate::input::KeyCode;
use crate::lists;
use crate::lists::SortKey;
use crate::money;
use crate::selection;
use crate::selection::Selection;
use crate::text;

verus! {

// ---- delimited lines ----

/// The fields of the rest of a line, given whether a quoted part is open and
/// what the current field holds so far. Inside quotes the delimiter is an
/// ordinary character and two quotes stand for one; fields are trimmed.
pub open spec fn fields_from(
    s: Seq<char>,
    delimiter: char,
    in_quotes: bool,
    current: Seq<char>,
) -> Seq<Seq<char>>
    decreases s.len(),
{
    if s.len() == 0 {
        seq![text::trimmed(current)]
    } else if s[0] == '"' {
        if in_quotes && s.len() > 1 && s[1] == '"' {
            fields_from(s.skip(2), delimiter, true, current.push('"'))
        } else {
            fields_from(s.skip(1), delimiter, !in_quotes, current)
        }
    } else if s[0] == delimiter && !in_quotes {
        seq![text::trimmed(current)] + fields_from(s.skip(1), delimiter, false, Seq::empty())
    } else {
        fields_from(s.skip(1), delimiter, in_quotes, current.push(s[0]))
    }
}

/// The fields of a delimited line.
pub open spec fn fields_of(line: Seq<char>, delimiter: char) -> Seq<Seq<char>> {
    fields_from(line, delimiter, false, Seq::empty())
}

/// Splits a line at commas, honouring quoted fields.
pub fn parse_csv_line(line: &str) -> (r: Vec<String>)
    ensures
        text::texts(r@) == fields_of(line@, ','),
        r@.len() > 0,
{
    parse_delimited_line(line, ',')
}

/// Splits a line at a delimiter, honouring double-quoted fields with doubled
/// quotes inside.
pub fn parse_delimited_line(line: &str, delimiter: char) -> (r: Vec<String>)
    ensures
        text::texts(r@) == fields_of(line@, delimiter),
        r@.len() > 0,
{
    let chars = text::chars_of(line);
    let mut fields: Vec<String> = Vec::new();
    let mut current = String::new();
    let mut in_quotes: bool = false;
    let mut i: usize = 0;
    proof {
        assert(chars@.skip(0) =~= chars@);
        assert(text::texts(fields@) + fields_of(line@, delimiter) =~= fields_of(line@, delimiter));
    }
    while i < chars.len()
        invariant
            i <= chars@.len(),
            text::texts(fields@) + fields_from(chars@.skip(i as int), delimiter, in_quotes, current@)
                == fields_of(line@, delimiter),
        decreases chars@.len() - i,
    {
        let c = chars[i];
        let ghost rest = chars@.skip(i as int);
        assert(rest[0] == c);
        assert(rest.skip(1) =~= chars@.skip(i + 1));
        if c == '"' {
            if in_quotes && i + 1 < chars.len() && chars[i + 1] == '"' {
                assert(rest.skip(2) =~= chars@.skip(i + 2));
                current.push('"');
                i = i + 1;
            } else {
                in_quotes = !in_quotes;
            }
        } else if c == delimiter && !in_quotes {
            let ghost before = fields@;
            let ghost held = current@;
            fields.push(text::trim(current.as_str()));
            current = String::new();
            proof {
                assert(text::texts(fields@) =~= text::texts(before).push(text::trimmed(held)));
                let tail = fields_from(rest.skip(1), delimiter, false, Seq::empty());
                assert(text::texts(before) + (seq![text::trimmed(held)] + tail) =~= text::texts(
                    fields@,
                ) + tail);
            }
        } else {
            current.push(c);
        }
        i = i + 1;
    }
    let ghost before = fields@;
    fields.push(text::trim(current.as_str()));
    proof {
        assert(chars@.skip(i as int) =~= Seq::<char>::empty());
        assert(text::texts(fields@) =~= text::texts(before) + seq![text::trimmed(current@)]);
    }
    fields
}

/// A text with every quote doubled.
pub open spec fn escaped(s: Seq<char>) -> Seq<char>
    decreases s.len(),
{
    if s.len() == 0 {
        Seq::empty()
    } else {
        escaped(s.drop_last()) + (if s.last() == '"' {
            seq!['"', '"']
        } else {
            seq![s.last()]
        })
    }
}

/// A field written in quotes.
pub open spec fn quoted(s: Seq<char>) -> Seq<char> {
    seq!['"'] + escaped(s) + seq!['"']
}

/// Fields written in quotes with a delimiter between neighbours.
pub open spec fn written(fields: Seq<Seq<char>>, delimiter: char) -> Seq<char>
    decreases fields.len(),
{
    if fields.len() == 0 {
        Seq::empty()
    } else if fields.len() == 1 {
        quoted(fields[0])
    } else {
        quoted(fields[0]) + seq![delimiter] + written(fields.drop_first(), delimiter)
    }
}

proof fn reading_escaped(f: Seq<char>, rest: Seq<char>, delimiter: char, current: Seq<char>)
    requires
        rest.len() > 0,
        rest[0] == '"',
        rest.len() > 1 ==> rest[1] != '"',
    ensures
        fields_from(escaped(f) + rest, delimiter, true, current) == fields_from(
            rest,
            delimiter,
            true,
            current + f,
        ),
    decreases f.len(),
{
    if f.len() == 0 {
        assert(escaped(f) + rest =~= rest);
        assert(current + f =~= current);
    } else {
        reading_escaped_front(f, rest, delimiter, current);
    }
}

/// Doubled quotes from the front.
proof fn escaped_front(f: Seq<char>)
    requires
        f.len() > 0,
    ensures
        escaped(f) == (if f[0] == '"' {
            seq!['"', '"']
        } else {
            seq![f[0]]
        }) + escaped(f.drop_first()),
    decreases f.len(),
{
    if f.len() == 1 {
        assert(f.drop_last() =~= Seq::<char>::empty());
        assert(f.drop_first() =~= Seq::<char>::empty());
        assert(escaped(Seq::<char>::empty()) =~= Seq::<char>::empty());
        assert(escaped(f) =~= (if f[0] == '"' {
            seq!['"', '"']
        } else {
            seq![f[0]]
        }) + escaped(f.drop_first()));
    } else {
        escaped_front(f.drop_last());
        assert(f.drop_last().drop_first() =~= f.drop_first().drop_last());
        assert(f.drop_first().last() == f.last());
        assert(escaped(f) =~= (if f[0] == '"' {
            seq!['"', '"']
        } else {
            seq![f[0]]
        }) + escaped(f.drop_first()));
    }
}

proof fn reading_escaped_front(f: Seq<char>, rest: Seq<char>, delimiter: char, current: Seq<char>)
    requires
        f.len() > 0,
        rest.len() > 0,
        rest[0] == '"',
        rest.len() > 1 ==> rest[1] != '"',
    ensures
        fields_from(escaped(f) + rest, delimiter, true, current) == fields_from(
            rest,
            delimiter,
            true,
            current + f,
        ),
    decreases f.len(), 0nat,
{
    escaped_front(f);
    let tail = f.drop_first();
    let s = escaped(f) + rest;
    if f[0] == '"' {
        assert(s.skip(2) =~= escaped(tail) + rest);
        reading_escaped(tail, rest, delimiter, current.push('"'));
    } else {
        assert(s.skip(1) =~= escaped(tail) + rest);
        reading_escaped(tail, rest, delimiter, current.push(f[0]));
    }
    assert(current.push(f[0]) + tail =~= current + f);
}

/// Reading a line of quoted fields gives back every field, trimmed, whatever
/// quotes and delimiters the fields contain.
pub proof fn reading_gives_back_quoted_fields(fields: Seq<Seq<char>>, delimiter: char)
    requires
        fields.len() > 0,
        delimiter != '"',
    ensures
        fields_of(written(fields, delimiter), delimiter) == fields.map_values(
            |f: Seq<char>| text::trimmed(f),
        ),
    decreases fields.len(),
{
    let f = fields[0];
    let line = written(fields, delimiter);
    let empty = Seq::<char>::empty();
    if fields.len() == 1 {
        let rest = seq!['"'];
        assert(line.skip(1) =~= escaped(f) + rest);
        reading_escaped(f, rest, delimiter, empty);
        assert(empty + f =~= f);
        assert(rest.skip(1) =~= empty);
        assert(fields_from(rest, delimiter, true, f) == fields_from(empty, delimiter, false, f));
        assert(fields.map_values(|f: Seq<char>| text::trimmed(f)) =~= seq![text::trimmed(f)]);
    } else {
        let more = written(fields.drop_first(), delimiter);
        let rest = seq!['"', delimiter] + more;
        assert(line.skip(1) =~= escaped(f) + rest);
        reading_escaped(f, rest, delimiter, empty);
        assert(empty + f =~= f);
        assert(rest.skip(1) =~= seq![delimiter] + more);
        assert((seq![delimiter] + more).skip(1) =~= more);
        assert(fields_from(rest, delimiter, true, f) == fields_from(
            seq![delimiter] + more,
            delimiter,
            false,
            f,
        ));
        assert(fields_from(seq![delimiter] + more, delimiter, false, f) == seq![text::trimmed(f)]
            + fields_from(more, delimiter, false, empty));
        reading_gives_back_quoted_fields(fields.drop_first(), delimiter);
        assert(fields.map_values(|f: Seq<char>| text::trimmed(f)) =~= seq![text::trimmed(f)]
            + fields.drop_first().map_values(|f: Seq<char>| text::trimmed(f)));
    }
}

// ---- dates and amounts ----

/// The first of several readings that gave a date.
pub open spec fn first_given(readings: Seq<Option<Date>>) -> Option<Date>
    decreases readings.len(),
{
    if readings.len() == 0 {
        None
    } else if readings[0] is Some {
        readings[0]
    } else {
        first_given(readings.drop_first())
    }
}

/// Whether a text starts with a year of four digits.
pub open spec fn starts_with_year(s: Seq<char>) -> bool {
    s.len() >= 4 && money::all_digits(s.take(4))
}

/// Whether a text ends with a year of four digits.
pub open spec fn ends_with_year(s: Seq<char>) -> bool {
    s.len() >= 4 && money::all_digits(s.skip(s.len() - 4))
}

/// The reading of a text in a format, if it is tried at all.
pub open spec fn reading(tried: bool, s: Seq<char>, format: Seq<char>) -> Option<Date> {
    if tried {
        date::date_in_format(s, format)
    } else {
        None
    }
}

/// The readings of a text in the accepted date formats, in order of
/// preference: yyyy/mm/dd, mm/dd/yy and mm/dd/yyyy, each with slashes or
/// dashes. A year that is not written with two digits takes four.
pub open spec fn date_readings(s: Seq<char>) -> Seq<Option<Date>> {
    seq![
        reading(starts_with_year(s), s, "%Y/%m/%d"@),
        reading(starts_with_year(s), s, "%Y-%m-%d"@),
        date::date_in_format(s, "%m/%d/%y"@),
        date::date_in_format(s, "%m-%d-%y"@),
        reading(ends_with_year(s), s, "%m/%d/%Y"@),
        reading(ends_with_year(s), s, "%m-%d-%Y"@),
    ]
}

fn digits_from(v: &Vec<char>, from: usize) -> (r: bool)
    requires
        from + 4 <= v@.len(),
    ensures
        r == money::all_digits(v@.subrange(from as int, from + 4)),
{
    let n: usize = v.len();
    let ghost four = v@.subrange(from as int, from + 4);
    assert(from + 4 <= n);
    assert(four[0] == v@[from as int] && four[1] == v@[from + 1] && four[2] == v@[from + 2]
        && four[3] == v@[from + 3]);
    input::ascii_digit(v[from]) && input::ascii_digit(v[from + 1]) && input::ascii_digit(
        v[from + 2],
    ) && input::ascii_digit(v[from + 3])
}

fn read_in(tried: bool, s: &str, format: &str) -> (r: Option<Date>)
    ensures
        r == reading(tried, s@, format@),
        r is Some ==> r->0.valid(),
        tried ==> date::reads_numbers(s@, format@, r),
{
    if tried {
        date::parse_in_format(s, format)
    } else {
        None
    }
}

/// Picks the first reading that gave a date.
pub fn pick_date(readings: &Vec<Option<Date>>) -> (r: Option<Date>)
    ensures
        r == first_given(readings@),
        r is Some ==> exists|i: int| 0 <= i < readings@.len() && r == #[trigger] readings@[i],
{
    let mut i: usize = 0;
    assert(readings@.skip(0) =~= readings@);
    while i < readings.len()
        invariant
            i <= readings@.len(),
            first_given(readings@) == first_given(readings@.skip(i as int)),
        decreases readings@.len() - i,
    {
        if readings[i].is_some() {
            assert(readings@.skip(i as int)[0] == readings@[i as int]);
            return readings[i];
        }
        assert(readings@.skip(i as int).drop_first() =~= readings@.skip(i + 1));
        i = i + 1;
    }
    None
}

/// The date that a text gives, read in the first format that fits, without
/// regard to surrounding white space.
pub open spec fn date_of(s: Seq<char>) -> Option<Date> {
    first_given(date_readings(text::trimmed(s)))
}

/// Whether chrono reads a text as the three numbers that it is made of, if it
/// is, in each of the formats that are tried.
pub open spec fn read_by_numbers(s: Seq<char>) -> bool {
    &&& starts_with_year(s) ==> date::reads_numbers(
        s,
        "%Y/%m/%d"@,
        date::date_in_format(s, "%Y/%m/%d"@),
    )
    &&& starts_with_year(s) ==> date::reads_numbers(
        s,
        "%Y-%m-%d"@,
        date::date_in_format(s, "%Y-%m-%d"@),
    )
    &&& date::reads_numbers(s, "%m/%d/%y"@, date::date_in_format(s, "%m/%d/%y"@))
    &&& date::reads_numbers(s, "%m-%d-%y"@, date::date_in_format(s, "%m-%d-%y"@))
    &&& ends_with_year(s) ==> date::reads_numbers(
        s,
        "%m/%d/%Y"@,
        date::date_in_format(s, "%m/%d/%Y"@),
    )
    &&& ends_with_year(s) ==> date::reads_numbers(
        s,
        "%m-%d-%Y"@,
        date::date_in_format(s, "%m-%d-%Y"@),
    )
}

/// Three numbers joined by slashes or dashes are read as the date that they
/// write: a first number of four digits is the year, before the month and the
/// day. Else the month stands first and the day second, and the year last, with
/// four digits or at most two. There is no date if these numbers are no day of
/// the calendar, or are not written so.
pub proof fn dates_are_read_as_written(
    s: Seq<char>,
    a: Seq<char>,
    b: Seq<char>,
    c: Seq<char>,
    separator: char,
)
    requires
        text::trimmed(s) == date::joined(a, b, c, separator),
        date::are_numbers(a, b, c, separator),
        read_by_numbers(text::trimmed(s)),
    ensures
        date_of(s) == (if a.len() == 4 {
            date::written_day(a, b, c)
        } else if c.len() == 4 {
            date::written_day(c, a, b)
        } else if c.len() <= 2 {
            date::short_day(a, b, c)
        } else {
            None
        }),
{
    let t = text::trimmed(s);
    let n = t.len() as int;
    let m = (a.len() + b.len()) as int;
    assert(n == m + c.len() + 2);
    assert forall|i: int| 0 <= i < a.len() implies t[i] == a[i] by {}
    assert(t[a.len() as int] == separator);
    assert(t[m + 1] == separator);
    assert forall|i: int| 0 <= i < c.len() implies t[m + 2 + i] == #[trigger] c[i] by {}
    assert(starts_with_year(t) <==> a.len() >= 4) by {
        if a.len() >= 4 {
            assert forall|i: int| 0 <= i < 4 implies input::is_digit(#[trigger] t.take(4)[i]) by {
                assert(t.take(4)[i] == a[i]);
            }
        } else if n >= 4 {
            assert(t.take(4)[a.len() as int] == separator);
        }
    }
    assert(ends_with_year(t) <==> c.len() >= 4) by {
        if c.len() >= 4 {
            assert forall|i: int| 0 <= i < 4 implies input::is_digit(
                #[trigger] t.skip(n - 4)[i],
            ) by {
                assert(t.skip(n - 4)[i] == c[c.len() - 4 + i]);
            }
        } else if n >= 4 {
            assert(t.skip(n - 4)[3 - c.len()] == separator);
        }
    }
    let r = date_readings(t);
    assert(t == date::joined(a, b, c, separator));
    reveal_with_fuel(first_given, 7);
    assert(r.drop_first() =~= seq![r[1], r[2], r[3], r[4], r[5]]);
    assert(r.drop_first().drop_first() =~= seq![r[2], r[3], r[4], r[5]]);
    assert(r.drop_first().drop_first().drop_first() =~= seq![r[3], r[4], r[5]]);
    assert(r.drop_first().drop_first().drop_first().drop_first() =~= seq![r[4], r[5]]);
    assert(r.drop_first().drop_first().drop_first().drop_first().drop_first() =~= seq![r[5]]);
}

/// Slashes and dashes can be exchanged without changing the date.
pub proof fn separators_can_be_exchanged(a: Seq<char>, b: Seq<char>, c: Seq<char>)
    requires
        date::are_numbers(a, b, c, '/'),
        read_by_numbers(date::joined(a, b, c, '/')),
        read_by_numbers(date::joined(a, b, c, '-')),
    ensures
        date_of(date::joined(a, b, c, '/')) == date_of(date::joined(a, b, c, '-')),
{
    let slashed = date::joined(a, b, c, '/');
    let dashed = date::joined(a, b, c, '-');
    assert(slashed[0] == a[0] && dashed[0] == a[0]);
    assert(slashed.last() == c.last() && dashed.last() == c.last());
    assert(input::is_digit(a[0]) && input::is_digit(c[c.len() - 1]));
    nothing_to_trim(slashed);
    nothing_to_trim(dashed);
    dates_are_read_as_written(slashed, a, b, c, '/');
    dates_are_read_as_written(dashed, a, b, c, '-');
}

/// Reads a date in one of several formats.
pub fn parse_date(s: &str) -> (r: Option<Date>)
    ensures
        r == date_of(s@),
        r is Some ==> r->0.valid(),
        read_by_numbers(text::trimmed(s@)),
        forall|a: Seq<char>, b: Seq<char>, c: Seq<char>, x: char|
            text::trimmed(s@) == #[trigger] date::joined(a, b, c, x) && date::are_numbers(
                a,
                b,
                c,
                x,
            ) ==> r == (if a.len() == 4 {
                date::written_day(a, b, c)
            } else if c.len() == 4 {
                date::written_day(c, a, b)
            } else if c.len() <= 2 {
                date::short_day(a, b, c)
            } else {
                None
            }),
{
    let t = text::trim(s);
    let chars = text::chars_of(t.as_str());
    let n: usize = chars.len();
    let year_first: bool = n >= 4 && digits_from(&chars, 0);
    let year_last: bool = n >= 4 && digits_from(&chars, n - 4);
    proof {
        if n >= 4 {
            assert(t@.take(4) =~= chars@.subrange(0, 4));
            assert(t@.skip(n - 4) =~= chars@.subrange(n - 4, n as int));
        }
    }
    let mut readings: Vec<Option<Date>> = Vec::new();
    readings.push(read_in(year_first, t.as_str(), "%Y/%m/%d"));
    readings.push(read_in(year_first, t.as_str(), "%Y-%m-%d"));
    readings.push(date::parse_in_format(t.as_str(), "%m/%d/%y"));
    readings.push(date::parse_in_format(t.as_str(), "%m-%d-%y"));
    readings.push(read_in(year_last, t.as_str(), "%m/%d/%Y"));
    readings.push(read_in(year_last, t.as_str(), "%m-%d-%Y"));
    assert(readings@ =~= date_readings(t@));
    assert forall|a: Seq<char>, b: Seq<char>, c: Seq<char>, x: char|
        t@ == #[trigger] date::joined(a, b, c, x) && date::are_numbers(
            a,
            b,
            c,
            x,
        ) implies date_of(s@) == (if a.len() == 4 {
        date::written_day(a, b, c)
    } else if c.len() == 4 {
        date::written_day(c, a, b)
    } else if c.len() <= 2 {
        date::short_day(a, b, c)
    } else {
        None
    }) by {
        dates_are_read_as_written(s@, a, b, c, x);
    }
    pick_date(&readings)
}

/// Whether a character belongs to a number: a digit, a point or a minus sign.
pub open spec fn in_number(c: char) -> bool {
    input::is_digit(c) || c == '.' || c == '-'
}

/// Whether an amount is written as negative, in parentheses or with a leading
/// minus sign, and what is written besides that.
pub open spec fn sign_and_rest(t: Seq<char>) -> (bool, Seq<char>) {
    if t.len() >= 2 && t[0] == '(' && t.last() == ')' {
        (true, t.subrange(1, t.len() - 1))
    } else if t.len() >= 1 && t[0] == '-' {
        (true, t.skip(1))
    } else {
        (false, t)
    }
}

/// The cents an amount stands for: currency symbols, commas and other marks
/// are ignored.
pub open spec fn amount_of(s: Seq<char>) -> Option<int> {
    let (negative, rest) = sign_and_rest(text::trimmed(s));
    match money::cents_of_number(rest.filter(|c: char| in_number(c))) {
        Some(cents) => Some(if negative {
            money::wrap64(-cents)
        } else {
            cents
        }),
        None => None,
    }
}

/// Reads an amount in dollars as cents.
pub fn parse_amount(s: &str) -> (r: Option<i64>)
    ensures
        r is Some <==> amount_of(s@) is Some,
        r is Some ==> r->0 == amount_of(s@)->0,
{
    let t = text::trim(s);
    let chars = text::chars_of(t.as_str());
    let n: usize = chars.len();
    let (negative, from, to): (bool, usize, usize) = if n >= 2 && chars[0] == '(' && chars[n - 1]
        == ')' {
        (true, 1, n - 1)
    } else if n >= 1 && chars[0] == '-' {
        (true, 1, n)
    } else {
        (false, 0, n)
    };
    let ghost rest = sign_and_rest(chars@).1;
    assert(rest =~= chars@.subrange(from as int, to as int));
    let mut cleaned: Vec<char> = Vec::new();
    let mut i: usize = from;
    let ghost keep = |c: char| in_number(c);
    proof {
        assert(rest.take(0) =~= Seq::<char>::empty());
        reveal(Seq::filter);
    }
    while i < to
        invariant
            from <= i <= to <= chars@.len(),
            rest == chars@.subrange(from as int, to as int),
            keep == (|c: char| in_number(c)),
            cleaned@ == rest.take(i - from).filter(keep),
        decreases to - i,
    {
        let c = chars[i];
        proof {
            let upto = rest.take(i - from + 1);
            assert(upto.drop_last() =~= rest.take(i - from));
            assert(upto.last() == c);
            reveal(Seq::filter);
        }
        if input::ascii_digit(c) || c == '.' || c == '-' {
            cleaned.push(c);
        }
        i = i + 1;
    }
    assert(rest.take(i - from) =~= rest);
    match money::parse_cents(&cleaned) {
        Some(cents) => Some(if negative {
            money::negated(cents)
        } else {
            cents
        }),
        None => None,
    }
}

/// Whether a character may stand in an amount without a sign: a digit, a
/// point, a comma or a dollar sign.
pub open spec fn in_amount(c: char) -> bool {
    input::is_digit(c) || c == '.' || c == ',' || c == '$'
}

/// A text without dollar signs and commas.
pub open spec fn unmarked(s: Seq<char>) -> Seq<char> {
    s.filter(|c: char| c != '$' && c != ',')
}

/// What holds of all characters holds of those that a filter leaves.
proof fn filter_keeps_all(s: Seq<char>, keep: spec_fn(char) -> bool, p: spec_fn(char) -> bool)
    requires
        forall|i: int| 0 <= i < s.len() ==> p(#[trigger] s[i]),
    ensures
        forall|i: int| 0 <= i < s.filter(keep).len() ==> p(#[trigger] s.filter(keep)[i]),
    decreases s.len(),
{
    reveal(Seq::filter);
    if s.len() > 0 {
        let front = s.drop_last();
        assert forall|i: int| 0 <= i < front.len() implies p(#[trigger] front[i]) by {
            assert(front[i] == s[i]);
        }
        filter_keeps_all(front, keep, p);
        let kept = front.filter(keep);
        assert forall|i: int| 0 <= i < s.filter(keep).len() implies p(
            #[trigger] s.filter(keep)[i],
        ) by {
            if i < kept.len() {
                assert(s.filter(keep)[i] == kept[i]);
            } else {
                assert(s.filter(keep)[i] == s[s.len() - 1]);
            }
        }
    }
}

/// A filter that keeps less can be applied after one that keeps more.
proof fn filters_combine(s: Seq<char>, more: spec_fn(char) -> bool, less: spec_fn(char) -> bool)
    requires
        forall|c: char| #[trigger] less(c) ==> more(c),
    ensures
        s.filter(more).filter(less) == s.filter(less),
    decreases s.len(),
{
    reveal(Seq::filter);
    if s.len() > 0 {
        let front = s.drop_last();
        filters_combine(front, more, less);
        if more(s.last()) {
            let kept = front.filter(more).push(s.last());
            assert(kept.drop_last() =~= front.filter(more));
        }
    }
}

/// A text that neither starts nor ends with white space is not trimmed.
proof fn nothing_to_trim(s: Seq<char>)
    requires
        s.len() > 0 ==> !text::is_white_space(s[0]) && !text::is_white_space(s.last()),
    ensures
        text::trimmed(s) == s,
{
}

proof fn trimmed_keeps_all(s: Seq<char>, p: spec_fn(char) -> bool)
    requires
        forall|i: int| 0 <= i < s.len() ==> p(#[trigger] s[i]),
    ensures
        forall|i: int| 0 <= i < text::trimmed(s).len() ==> p(#[trigger] text::trimmed(s)[i]),
{
    trim_front_keeps_all(s, p);
    trim_back_keeps_all(text::trim_front(s), p);
}

proof fn trim_front_keeps_all(s: Seq<char>, p: spec_fn(char) -> bool)
    requires
        forall|i: int| 0 <= i < s.len() ==> p(#[trigger] s[i]),
    ensures
        forall|i: int| 0 <= i < text::trim_front(s).len() ==> p(#[trigger] text::trim_front(s)[i]),
    decreases s.len(),
{
    if s.len() > 0 && text::is_white_space(s[0]) {
        let rest = s.drop_first();
        assert forall|i: int| 0 <= i < rest.len() implies p(#[trigger] rest[i]) by {
            assert(rest[i] == s[i + 1]);
        }
        trim_front_keeps_all(rest, p);
        assert(text::trim_front(s) == text::trim_front(rest));
    }
}

proof fn trim_back_keeps_all(s: Seq<char>, p: spec_fn(char) -> bool)
    requires
        forall|i: int| 0 <= i < s.len() ==> p(#[trigger] s[i]),
    ensures
        forall|i: int| 0 <= i < text::trim_back(s).len() ==> p(#[trigger] text::trim_back(s)[i]),
    decreases s.len(),
{
    if s.len() > 0 && text::is_white_space(s.last()) {
        let rest = s.drop_last();
        assert forall|i: int| 0 <= i < rest.len() implies p(#[trigger] rest[i]) by {
            assert(rest[i] == s[i]);
        }
        trim_back_keeps_all(rest, p);
        assert(text::trim_back(s) == text::trim_back(rest));
    }
}

/// An amount without a sign is what its digits and points give, and is not
/// negative.
proof fn unsigned_amount(s: Seq<char>)
    requires
        forall|i: int| 0 <= i < s.len() ==> in_amount(#[trigger] s[i]),
    ensures
        amount_of(s) == money::cents_of_number(s.filter(|c: char| in_number(c))),
        amount_of(s) is Some ==> 0 <= amount_of(s)->0 <= i64::MAX,
{
    nothing_to_trim(s);
    let keep = |c: char| in_number(c);
    let f = s.filter(keep);
    assert forall|i: int| 0 <= i < s.len() implies (|c: char| in_amount(c))(#[trigger] s[i]) by {}
    filter_keeps_all(s, keep, |c: char| in_amount(c));
    assert(f.len() > 0 ==> in_amount(f[0])) by {
        if f.len() > 0 {
            assert((|c: char| in_amount(c))(f[0]));
        }
    }
}

/// Both ways of writing a negative amount negate it: a minus sign before it,
/// and parentheses around it.
pub proof fn negative_amounts_negate(s: Seq<char>)
    requires
        forall|i: int| 0 <= i < s.len() ==> in_amount(#[trigger] s[i]),
    ensures
        ({
            let negated = match amount_of(s) {
                Some(cents) => Some(-cents),
                None => None,
            };
            &&& amount_of(seq!['-'] + s) == negated
            &&& amount_of(seq!['('] + s + seq![')']) == negated
        }),
{
    unsigned_amount(s);
    let minus = seq!['-'] + s;
    let parens = seq!['('] + s + seq![')'];
    assert(minus.len() > 1 ==> minus.last() == s.last());
    nothing_to_trim(minus);
    nothing_to_trim(parens);
    assert(minus.skip(1) =~= s);
    assert(parens.subrange(1, parens.len() - 1) =~= s);
    assert(parens.last() == ')');
}

/// Dollar signs and commas do not matter in an amount without a sign.
pub proof fn marks_do_not_matter(s: Seq<char>)
    requires
        forall|i: int| 0 <= i < s.len() ==> in_amount(#[trigger] s[i]),
    ensures
        amount_of(unmarked(s)) == amount_of(s),
{
    let more = |c: char| c != '$' && c != ',';
    let less = |c: char| in_number(c);
    let p = |c: char| in_amount(c);
    assert forall|i: int| 0 <= i < s.len() implies p(#[trigger] s[i]) by {}
    filter_keeps_all(s, more, p);
    let t = unmarked(s);
    assert forall|i: int| 0 <= i < t.len() implies in_amount(#[trigger] t[i]) by {
        assert(p(t[i]));
    }
    filters_combine(s, more, less);
    unsigned_amount(s);
    unsigned_amount(t);
}

/// A text without a digit is no amount.
pub proof fn amounts_have_digits(s: Seq<char>)
    requires
        forall|i: int| 0 <= i < s.len() ==> !input::is_digit(#[trigger] s[i]),
    ensures
        amount_of(s) is None,
{
    let p = |c: char| !input::is_digit(c);
    let keep = |c: char| in_number(c);
    assert forall|i: int| 0 <= i < s.len() implies p(#[trigger] s[i]) by {}
    trimmed_keeps_all(s, p);
    let t = text::trimmed(s);
    let rest = sign_and_rest(t).1;
    assert forall|i: int| 0 <= i < rest.len() implies p(#[trigger] rest[i]) by {
        assert(rest[i] == t[i] || rest[i] == t[i + 1]);
    }
    filter_keeps_all(rest, keep, p);
    let f = rest.filter(keep);
    assert forall|i: int| 0 <= i < f.len() implies !input::is_digit(#[trigger] f[i]) by {
        assert(p(f[i]));
    }
    if let Some((negative, whole, fraction)) = money::number_parts(f) {
        let body = if negative {
            f.drop_first()
        } else {
            f
        };
        let at = text::find_char(body, '.') as int;
        text::find_char_is_first(body, '.');
        if whole.len() > 0 {
            assert(whole[0] == body[0]);
            assert(input::is_digit(whole[0]));
        }
        if fraction.len() > 0 {
            assert(fraction[0] == body[at + 1]);
            assert(input::is_digit(fraction[0]));
        }
    }
}

proof fn filter_of_all(s: Seq<char>, keep: spec_fn(char) -> bool)
    requires
        forall|i: int| 0 <= i < s.len() ==> keep(#[trigger] s[i]),
    ensures
        s.filter(keep) == s,
    decreases s.len(),
{
    reveal(Seq::filter);
    if s.len() > 0 {
        let front = s.drop_last();
        assert forall|i: int| 0 <= i < front.len() implies keep(#[trigger] front[i]) by {
            assert(front[i] == s[i]);
        }
        filter_of_all(front, keep);
        assert(keep(s[s.len() - 1]));
        assert(s =~= front.push(s.last()));
    } else {
        assert(s.filter(keep) =~= s);
    }
}

proof fn plain_amount(s: Seq<char>)
    requires
        forall|i: int| 0 <= i < s.len() ==> input::is_digit(#[trigger] s[i]) || s[i] == '.',
    ensures
        amount_of(s) == money::cents_of_number(s),
{
    let keep = |c: char| in_number(c);
    assert forall|i: int| 0 <= i < s.len() implies keep(#[trigger] s[i]) && in_amount(s[i]) by {}
    filter_of_all(s, keep);
    unsigned_amount(s);
}

/// An amount in whole dollars, with or without cents, is read to the cent. It
/// counts as negative with a minus sign or in parentheses.
pub proof fn dollars_are_read_as_written(whole: Seq<char>, fraction: Seq<char>)
    requires
        whole.len() > 0,
        money::all_digits(whole),
        money::all_digits(fraction),
        fraction.len() <= 2,
        money::digits_value(whole) < 0xfff_ffff_ffff,
    ensures
        ({
            let cents = 100 * money::digits_value(whole) + (if fraction.len() == 2 {
                money::digits_value(fraction)
            } else {
                10 * money::digits_value(fraction)
            });
            let s = if fraction.len() == 0 {
                whole
            } else {
                whole + seq!['.'] + fraction
            };
            &&& amount_of(s) == Some(cents as int)
            &&& amount_of(seq!['-'] + s) == Some(-(cents as int))
            &&& amount_of(seq!['('] + s + seq![')']) == Some(-(cents as int))
        }),
{
    let s = if fraction.len() == 0 {
        whole
    } else {
        whole + seq!['.'] + fraction
    };
    money::amounts_are_read_to_the_cent(whole, fraction);
    assert forall|i: int| 0 <= i < s.len() implies (input::is_digit(#[trigger] s[i]) || s[i]
        == '.') && in_amount(s[i]) by {
        if i < whole.len() {
            assert(s[i] == whole[i]);
            assert(input::is_digit(whole[i]));
        } else if i > whole.len() {
            assert(s[i] == fraction[i - whole.len() - 1]);
            assert(input::is_digit(fraction[i - whole.len() - 1]));
        }
    }
    plain_amount(s);
    negative_amounts_negate(s);
}

// ---- what the review shows ----

/// One line of the file that will become a journal entry.
pub struct ParsedRow {
    pub date: Date,
    pub description: String,
    /// Signed cents, as in the file.
    pub amount: i64,
}

/// The meaning of a parsed row.
#[verifier::ext_equal]
pub ghost struct RowData {
    pub date: Date,
    pub description: Seq<char>,
    pub amount: int,
}

impl View for ParsedRow {
    type V = RowData;

    open spec fn view(&self) -> RowData {
        RowData { date: self.date, description: self.description@, amount: self.amount as int }
    }
}

/// What reading the whole file with the current settings gives.
pub struct ConfirmSummary {
    /// Lines that are not blank, after the skipped ones and the header.
    pub total_rows: usize,
    /// Lines skipped because the date could not be read.
    pub invalid_date: usize,
    /// Lines skipped because the amount could not be read.
    pub invalid_amount: usize,
    /// Lines skipped because the amount was zero.
    pub zero_amount: usize,
    pub min_date: Option<Date>,
    pub max_date: Option<Date>,
    /// Sum of the positive amounts, in cents.
    pub total_positive: i64,
    /// Sum of the negative amounts, in cents.
    pub total_negative: i64,
    /// The lines that could be read, in file order.
    pub parsed: Vec<ParsedRow>,
}

/// The meaning of a summary.
#[verifier::ext_equal]
pub ghost struct Summary {
    pub total_rows: int,
    pub invalid_date: int,
    pub invalid_amount: int,
    pub zero_amount: int,
    pub min_date: Option<Date>,
    pub max_date: Option<Date>,
    pub total_positive: int,
    pub total_negative: int,
    pub parsed: Seq<RowData>,
}

impl View for ConfirmSummary {
    type V = Summary;

    open spec fn view(&self) -> Summary {
        Summary {
            total_rows: self.total_rows as int,
            invalid_date: self.invalid_date as int,
            invalid_amount: self.invalid_amount as int,
            zero_amount: self.zero_amount as int,
            min_date: self.min_date,
            max_date: self.max_date,
            total_positive: self.total_positive as int,
            total_negative: self.total_negative as int,
            parsed: self.parsed@.map_values(|r: ParsedRow| r@),
        }
    }
}

/// The summary of no lines at all.
pub open spec fn empty_summary() -> Summary {
    Summary {
        total_rows: 0,
        invalid_date: 0,
        invalid_amount: 0,
        zero_amount: 0,
        min_date: None,
        max_date: None,
        total_positive: 0,
        total_negative: 0,
        parsed: Seq::empty(),
    }
}

impl Default for ConfirmSummary {
    fn default() -> (r: Self)
        ensures
            r@ == empty_summary(),
    {
        ConfirmSummary {
            total_rows: 0,
            invalid_date: 0,
            invalid_amount: 0,
            zero_amount: 0,
            min_date: None,
            max_date: None,
            total_positive: 0,
            total_negative: 0,
            parsed: Vec::new(),
        }
    }
}

/// What becomes of one line of the file.
pub ghost enum Outcome {
    Blank,
    BadDate,
    BadAmount,
    Zero,
    Entry(RowData),
}

/// Which columns hold the date, the description and the amount, and how
/// columns are told apart.
#[verifier::ext_equal]
pub ghost struct Mapping {
    pub delimiter: char,
    pub date: int,
    pub description: int,
    pub amount: int,
}

/// The field in a column, or nothing if the line has too few.
pub open spec fn field_at(fields: Seq<Seq<char>>, column: int) -> Seq<char> {
    if 0 <= column < fields.len() {
        fields[column]
    } else {
        Seq::empty()
    }
}

/// What becomes of a line under a mapping.
pub open spec fn outcome_of(line: Seq<char>, m: Mapping) -> Outcome {
    let fields = fields_of(line, m.delimiter);
    let date = date_of(field_at(fields, m.date));
    let amount = amount_of(field_at(fields, m.amount));
    if text::trimmed(line).len() == 0 {
        Outcome::Blank
    } else if date is None {
        Outcome::BadDate
    } else if amount is None {
        Outcome::BadAmount
    } else if amount->0 == 0 {
        Outcome::Zero
    } else {
        Outcome::Entry(
            RowData {
                date: date->0,
                description: field_at(fields, m.description),
                amount: amount->0,
            },
        )
    }
}

/// The earlier of two days, if any.
pub open spec fn earliest(a: Option<Date>, b: Date) -> Option<Date> {
    match a {
        Some(d) => if b.earlier(d) {
            Some(b)
        } else {
            a
        },
        None => Some(b),
    }
}

/// The later of two days, if any.
pub open spec fn latest(a: Option<Date>, b: Date) -> Option<Date> {
    match a {
        Some(d) => if d.earlier(b) {
            Some(b)
        } else {
            a
        },
        None => Some(b),
    }
}

/// A summary with one more line counted in.
pub open spec fn counted(s: Summary, o: Outcome) -> Summary {
    match o {
        Outcome::Blank => s,
        Outcome::BadDate => Summary {
            total_rows: s.total_rows + 1,
            invalid_date: s.invalid_date + 1,
            ..s
        },
        Outcome::BadAmount => Summary {
            total_rows: s.total_rows + 1,
            invalid_amount: s.invalid_amount + 1,
            ..s
        },
        Outcome::Zero => Summary {
            total_rows: s.total_rows + 1,
            zero_amount: s.zero_amount + 1,
            ..s
        },
        Outcome::Entry(row) => Summary {
            total_rows: s.total_rows + 1,
            min_date: earliest(s.min_date, row.date),
            max_date: latest(s.max_date, row.date),
            total_positive: if row.amount > 0 {
                money::wrap64(s.total_positive + row.amount)
            } else {
                s.total_positive
            },
            total_negative: if row.amount > 0 {
                s.total_negative
            } else {
                money::wrap64(s.total_negative + row.amount)
            },
            parsed: s.parsed.push(row),
            ..s
        },
    }
}

/// The summary of several lines.
pub open spec fn summary_of(lines: Seq<Seq<char>>, m: Mapping) -> Summary
    decreases lines.len(),
{
    if lines.len() == 0 {
        empty_summary()
    } else {
        counted(summary_of(lines.drop_last(), m), outcome_of(lines.last(), m))
    }
}

/// The lines of a file that hold data: without the skipped ones and without
/// the header, if there is one.
pub open spec fn data_lines(content: Seq<char>, skip: nat, has_header: bool) -> Seq<Seq<char>> {
    let lines = text::lines_of(content);
    let from = if has_header {
        skip + 1
    } else {
        skip
    };
    if from >= lines.len() {
        Seq::empty()
    } else {
        lines.skip(from as int)
    }
}

/// Every line that is not blank is either an entry or counted under exactly
/// one reason for leaving it out.
pub proof fn every_line_is_accounted_for(lines: Seq<Seq<char>>, m: Mapping)
    ensures
        ({
            let s = summary_of(lines, m);
            &&& s.total_rows == s.parsed.len() + s.invalid_date + s.invalid_amount + s.zero_amount
            &&& 0 <= s.total_rows <= lines.len()
            &&& s.invalid_date >= 0
            &&& s.invalid_amount >= 0
            &&& s.zero_amount >= 0
        }),
    decreases lines.len(),
{
    if lines.len() > 0 {
        every_line_is_accounted_for(lines.drop_last(), m);
    }
}

proof fn outcomes_by_kind(
    lines: Seq<Seq<char>>,
    m: Mapping,
    full: spec_fn(Seq<char>) -> bool,
    undated: spec_fn(Seq<char>) -> bool,
    unpriced: spec_fn(Seq<char>) -> bool,
    zero: spec_fn(Seq<char>) -> bool,
    good: spec_fn(Seq<char>) -> bool,
)
    requires
        forall|l: Seq<char>| #[trigger] full(l) == !(outcome_of(l, m) is Blank),
        forall|l: Seq<char>| #[trigger] undated(l) == (outcome_of(l, m) is BadDate),
        forall|l: Seq<char>| #[trigger] unpriced(l) == (outcome_of(l, m) is BadAmount),
        forall|l: Seq<char>| #[trigger] zero(l) == (outcome_of(l, m) is Zero),
        forall|l: Seq<char>| #[trigger] good(l) == (outcome_of(l, m) is Entry),
    ensures
        ({
            let s = summary_of(lines, m);
            &&& s.total_rows == lines.filter(full).len()
            &&& s.invalid_date == lines.filter(undated).len()
            &&& s.invalid_amount == lines.filter(unpriced).len()
            &&& s.zero_amount == lines.filter(zero).len()
            &&& s.parsed.len() == lines.filter(good).len()
            &&& forall|i: int|
                0 <= i < s.parsed.len() ==> outcome_of(lines.filter(good)[i], m) == Outcome::Entry(
                    #[trigger] s.parsed[i],
                )
        }),
    decreases lines.len(),
{
    reveal(Seq::filter);
    if lines.len() > 0 {
        let l = lines.last();
        let before = lines.drop_last();
        outcomes_by_kind(before, m, full, undated, unpriced, zero, good);
        assert(full(l) == !(outcome_of(l, m) is Blank));
        assert(undated(l) == (outcome_of(l, m) is BadDate));
        assert(unpriced(l) == (outcome_of(l, m) is BadAmount));
        assert(zero(l) == (outcome_of(l, m) is Zero));
        assert(good(l) == (outcome_of(l, m) is Entry));
        let s = summary_of(lines, m);
        let t = summary_of(before, m);
        assert forall|i: int| 0 <= i < s.parsed.len() implies outcome_of(lines.filter(good)[i], m)
            == Outcome::Entry(#[trigger] s.parsed[i]) by {
            if i < t.parsed.len() {
                assert(s.parsed[i] == t.parsed[i]);
                assert(lines.filter(good)[i] == before.filter(good)[i]);
            }
        }
    }
}

/// The entries of a review are the lines that are not blank, have a date in the
/// date column and an amount other than zero in the amount column, in order.
/// Each takes its date, its description and its amount from the columns chosen
/// for them. The other lines are counted: those without a date, those with a
/// date but no amount, and those whose amount is zero.
pub proof fn entries_take_their_columns(lines: Seq<Seq<char>>, m: Mapping)
    requires
        0 <= m.date,
        0 <= m.description,
        0 <= m.amount,
    ensures
        ({
            let s = summary_of(lines, m);
            let column = |l: Seq<char>, c: int|
                if c < fields_of(l, m.delimiter).len() {
                    fields_of(l, m.delimiter)[c]
                } else {
                    Seq::empty()
                };
            let full = |l: Seq<char>| text::trimmed(l).len() > 0;
            let day = |l: Seq<char>| date_of(column(l, m.date));
            let amount = |l: Seq<char>| amount_of(column(l, m.amount));
            let good = lines.filter(
                |l: Seq<char>| full(l) && day(l) is Some && amount(l) is Some && amount(l)->0 != 0,
            );
            &&& s.parsed.len() == good.len()
            &&& forall|i: int|
                0 <= i < s.parsed.len() ==> {
                    &&& Some((#[trigger] s.parsed[i]).date) == day(good[i])
                    &&& s.parsed[i].description == column(good[i], m.description)
                    &&& Some(s.parsed[i].amount) == amount(good[i])
                }
            &&& s.total_rows == lines.filter(full).len()
            &&& s.invalid_date == lines.filter(|l: Seq<char>| full(l) && day(l) is None).len()
            &&& s.invalid_amount == lines.filter(
                |l: Seq<char>| full(l) && day(l) is Some && amount(l) is None,
            ).len()
            &&& s.zero_amount == lines.filter(
                |l: Seq<char>| full(l) && day(l) is Some && amount(l) == Some(0int),
            ).len()
        }),
{
    let column = |l: Seq<char>, c: int|
        if c < fields_of(l, m.delimiter).len() {
            fields_of(l, m.delimiter)[c]
        } else {
            Seq::empty()
        };
    let full = |l: Seq<char>| text::trimmed(l).len() > 0;
    let day = |l: Seq<char>| date_of(column(l, m.date));
    let amount = |l: Seq<char>| amount_of(column(l, m.amount));
    let good = |l: Seq<char>| full(l) && day(l) is Some && amount(l) is Some && amount(l)->0 != 0;
    let undated = |l: Seq<char>| full(l) && day(l) is None;
    let unpriced = |l: Seq<char>| full(l) && day(l) is Some && amount(l) is None;
    let zero = |l: Seq<char>| full(l) && day(l) is Some && amount(l) == Some(0int);
    outcomes_by_kind(lines, m, full, undated, unpriced, zero, good);
    let s = summary_of(lines, m);
    assert forall|i: int| 0 <= i < s.parsed.len() implies {
        &&& Some((#[trigger] s.parsed[i]).date) == day(lines.filter(good)[i])
        &&& s.parsed[i].description == column(lines.filter(good)[i], m.description)
        &&& Some(s.parsed[i].amount) == amount(lines.filter(good)[i])
    } by {
        assert(outcome_of(lines.filter(good)[i], m) == Outcome::Entry(s.parsed[i]));
    }
}

/// The data of a file starts behind the lines to be skipped and, if there is
/// one, the header, and goes on to the end.
pub proof fn data_follows_the_header(content: Seq<char>, skip: nat, has_header: bool)
    ensures
        ({
            let all = text::lines_of(content);
            let data = data_lines(content, skip, has_header);
            let before = skip + (if has_header {
                1nat
            } else {
                0
            });
            &&& before <= all.len() ==> data.len() == all.len() - before
            &&& before > all.len() ==> data.len() == 0
            &&& forall|i: int| 0 <= i < data.len() ==> #[trigger] data[i] == all[before + i]
        }),
{
}

/// The two totals of a review are the sums of the amounts above and below zero
/// of its entries; together they are the sum of all.
pub proof fn totals_split_by_sign(lines: Seq<Seq<char>>, m: Mapping)
    ensures
        ({
            let s = summary_of(lines, m);
            &&& s.total_positive == money::wrap64(
                lists::sum_at(
                    s.parsed.len(),
                    |i: int|
                        if s.parsed[i].amount > 0 {
                            s.parsed[i].amount
                        } else {
                            0
                        },
                ),
            )
            &&& s.total_negative == money::wrap64(
                lists::sum_at(
                    s.parsed.len(),
                    |i: int|
                        if s.parsed[i].amount < 0 {
                            s.parsed[i].amount
                        } else {
                            0
                        },
                ),
            )
        }),
{
    let rows = summary_of(lines, m).parsed;
    summary_totals_are_sums(lines, m);
    totals_by_field(
        rows,
        |i: int|
            if rows[i].amount > 0 {
                rows[i].amount
            } else {
                0
            },
        |i: int|
            if rows[i].amount < 0 {
                rows[i].amount
            } else {
                0
            },
    );
}

proof fn totals_by_field(
    rows: Seq<RowData>,
    up: spec_fn(int) -> int,
    down: spec_fn(int) -> int,
)
    requires
        forall|i: int|
            0 <= i < rows.len() ==> #[trigger] up(i) == (if rows[i].amount > 0 {
                rows[i].amount
            } else {
                0
            }),
        forall|i: int|
            0 <= i < rows.len() ==> #[trigger] down(i) == (if rows[i].amount < 0 {
                rows[i].amount
            } else {
                0
            }),
    ensures
        positive_total(rows) == lists::sum_at(rows.len(), up),
        negative_total(rows) == lists::sum_at(rows.len(), down),
    decreases rows.len(),
{
    if rows.len() > 0 {
        let n = rows.len() - 1;
        totals_by_field(rows.drop_last(), up, down);
        assert(up(n) == (if rows[n].amount > 0 {
            rows[n].amount
        } else {
            0
        }));
        assert(down(n) == (if rows[n].amount < 0 {
            rows[n].amount
        } else {
            0
        }));
    }
}

/// The positive amounts of the entries.
pub open spec fn positive_total(rows: Seq<RowData>) -> int
    decreases rows.len(),
{
    if rows.len() == 0 {
        0
    } else {
        positive_total(rows.drop_last()) + (if rows.last().amount > 0 {
            rows.last().amount
        } else {
            0
        })
    }
}

/// The negative amounts of the entries.
pub open spec fn negative_total(rows: Seq<RowData>) -> int
    decreases rows.len(),
{
    if rows.len() == 0 {
        0
    } else {
        negative_total(rows.drop_last()) + (if rows.last().amount > 0 {
            0
        } else {
            rows.last().amount
        })
    }
}

/// The totals shown are the sums over the entries that will be imported, no
/// entry has a zero amount, and every entry lies within the shown date range.
pub proof fn summary_totals_are_sums(lines: Seq<Seq<char>>, m: Mapping)
    ensures
        ({
            let s = summary_of(lines, m);
            &&& s.total_positive == money::wrap64(positive_total(s.parsed))
            &&& s.total_negative == money::wrap64(negative_total(s.parsed))
            &&& forall|i: int|
                0 <= i < s.parsed.len() ==> {
                    &&& (#[trigger] s.parsed[i]).amount != 0
                    &&& s.min_date is Some && !s.parsed[i].date.earlier(s.min_date->0)
                    &&& s.max_date is Some && !s.max_date->0.earlier(s.parsed[i].date)
                }
        }),
    decreases lines.len(),
{
    if lines.len() > 0 {
        summary_totals_are_sums(lines.drop_last(), m);
        let before = summary_of(lines.drop_last(), m);
        let s = summary_of(lines, m);
        if let Outcome::Entry(row) = outcome_of(lines.last(), m) {
            assert(s.parsed.drop_last() =~= before.parsed);
            money::wrapping_is_uniform(positive_total(before.parsed), row.amount);
            money::wrapping_is_uniform(negative_total(before.parsed), row.amount);
            assert forall|i: int| 0 <= i < s.parsed.len() implies {
                &&& (#[trigger] s.parsed[i]).amount != 0
                &&& s.min_date is Some && !s.parsed[i].date.earlier(s.min_date->0)
                &&& s.max_date is Some && !s.max_date->0.earlier(s.parsed[i].date)
            } by {
                if i < before.parsed.len() {
                    assert(s.parsed[i] == before.parsed[i]);
                }
            }
        }
    }
}

/// The shown date range is met: its first and its last day are days of
/// entries, and there is none exactly if there are no entries.
pub proof fn date_range_is_met(lines: Seq<Seq<char>>, m: Mapping)
    ensures
        ({
            let s = summary_of(lines, m);
            &&& s.min_date is Some <==> s.parsed.len() > 0
            &&& s.max_date is Some <==> s.parsed.len() > 0
            &&& s.min_date is Some ==> exists|i: int|
                0 <= i < s.parsed.len() && Some((#[trigger] s.parsed[i]).date) == s.min_date
            &&& s.max_date is Some ==> exists|i: int|
                0 <= i < s.parsed.len() && Some((#[trigger] s.parsed[i]).date) == s.max_date
        }),
    decreases lines.len(),
{
    if lines.len() > 0 {
        date_range_is_met(lines.drop_last(), m);
        let before = summary_of(lines.drop_last(), m);
        let s = summary_of(lines, m);
        if let Outcome::Entry(row) = outcome_of(lines.last(), m) {
            assert(s.parsed[s.parsed.len() - 1] == row);
            if before.parsed.len() > 0 {
                let i = choose|i: int|
                    0 <= i < before.parsed.len() && Some((#[trigger] before.parsed[i]).date)
                        == before.min_date;
                let j = choose|i: int|
                    0 <= i < before.parsed.len() && Some((#[trigger] before.parsed[i]).date)
                        == before.max_date;
                assert(s.parsed[i] == before.parsed[i]);
                assert(s.parsed[j] == before.parsed[j]);
            }
        }
    }
}

/// The account that a file is imported into is the highlighted one of those
/// that match the filter.
pub proof fn the_highlighted_account_is_chosen(s: ImportState)
    requires
        s.account_state.selected is Some,
        s.account_state.selected->0 < s.filtered().len(),
    ensures
        ({
            let a = s.available_accounts[s.filtered()[s.account_state.selected->0 as int] as int];
            let t = s.after_account_key(KeyCode::Enter);
            &&& t.target_account_id == Some(a.id@)
            &&& t.target_account_name == Some(a.account_number@ + " - "@ + a.name@)
            &&& t.step == ImportStep::MapColumns
        }),
{
}

/// The summary of a file's data lines.
pub fn summarize(
    content: &str,
    skip_lines: usize,
    has_header: bool,
    delimiter: char,
    date_column: usize,
    description_column: usize,
    amount_column: usize,
) -> (r: ConfirmSummary)
    ensures
        r@ == summary_of(
            data_lines(content@, skip_lines as nat, has_header),
            Mapping {
                delimiter,
                date: date_column as int,
                description: description_column as int,
                amount: amount_column as int,
            },
        ),
{
    let lines = text::lines(content);
    let ghost all = text::texts(lines@);
    let ghost m = Mapping {
        delimiter,
        date: date_column as int,
        description: description_column as int,
        amount: amount_column as int,
    };
    let mut summary: ConfirmSummary = ConfirmSummary::default();
    if skip_lines >= lines.len() {
        return summary;
    }
    let from: usize = if has_header {
        skip_lines + 1
    } else {
        skip_lines
    };
    let ghost data = data_lines(content@, skip_lines as nat, has_header);
    let mut i: usize = from;
    proof {
        assert(data.take(0) =~= Seq::<Seq<char>>::empty());
        assert(data =~= all.skip(from as int));
    }
    while i < lines.len()
        invariant
            from <= i <= lines@.len(),
            all == text::texts(lines@),
            data == all.skip(from as int),
            m == (Mapping {
                delimiter,
                date: date_column as int,
                description: description_column as int,
                amount: amount_column as int,
            }),
            summary@ == summary_of(data.take(i - from), m),
        decreases lines@.len() - i,
    {
        let ghost line = lines@[i as int]@;
        proof {
            let upto = data.take(i - from + 1);
            assert(upto.drop_last() =~= data.take(i - from));
            assert(upto.last() == line);
            every_line_is_accounted_for(data.take(i - from), m);
        }
        let ghost before = summary@;
        count_line(
            &mut summary,
            lines[i].as_str(),
            delimiter,
            date_column,
            description_column,
            amount_column,
        );
        i = i + 1;
    }
    assert(data.take(i - from) =~= data);
    summary
}

/// The field in a column, or nothing if the line has too few.
pub fn field_or_empty(fields: &Vec<String>, column: usize) -> (r: String)
    ensures
        r@ == field_at(text::texts(fields@), column as int),
{
    if column < fields.len() {
        fields[column].clone()
    } else {
        String::new()
    }
}

fn count_line(
    summary: &mut ConfirmSummary,
    line: &str,
    delimiter: char,
    date_column: usize,
    description_column: usize,
    amount_column: usize,
)
    requires
        old(summary).total_rows < usize::MAX,
        old(summary).invalid_date < usize::MAX,
        old(summary).invalid_amount < usize::MAX,
        old(summary).zero_amount < usize::MAX,
    ensures
        final(summary)@ == counted(
            old(summary)@,
            outcome_of(
                line@,
                Mapping {
                    delimiter,
                    date: date_column as int,
                    description: description_column as int,
                    amount: amount_column as int,
                },
            ),
        ),
{
    let bare = text::trim(line);
    if bare.as_str().is_empty() {
        return ;
    }
    let fields = parse_delimited_line(line, delimiter);
    let date_text = field_or_empty(&fields, date_column);
    let amount_text = field_or_empty(&fields, amount_column);
    summary.total_rows = summary.total_rows + 1;
    let date = match parse_date(date_text.as_str()) {
        Some(d) => d,
        None => {
            summary.invalid_date = summary.invalid_date + 1;
            return ;
        },
    };
    let amount: i64 = match parse_amount(amount_text.as_str()) {
        Some(a) => a,
        None => {
            summary.invalid_amount = summary.invalid_amount + 1;
            return ;
        },
    };
    if amount == 0 {
        summary.zero_amount = summary.zero_amount + 1;
        return ;
    }
    if amount > 0 {
        summary.total_positive = money::plus(summary.total_positive, amount);
    } else {
        summary.total_negative = money::plus(summary.total_negative, amount);
    }
    let sooner: bool = match summary.min_date {
        Some(d) => date.is_before(&d),
        None => true,
    };
    if sooner {
        summary.min_date = Some(date);
    }
    let later: bool = match summary.max_date {
        Some(d) => d.is_before(&date),
        None => true,
    };
    if later {
        summary.max_date = Some(date);
    }
    let ghost rows = summary.parsed@;
    let row = ParsedRow { date, description: field_or_empty(&fields, description_column), amount };
    let ghost data = row@;
    summary.parsed.push(row);
    assert(summary.parsed@.map_values(|r: ParsedRow| r@) =~= rows.map_values(
        |r: ParsedRow| r@,
    ).push(data));
}

// ---- the modal ----

/// The steps of an import.
#[derive(Debug, Clone, Copy, PartialEq, Eq, Structural)]
pub enum ImportStep {
    SelectFile,
    Parsing,
    SelectAccount,
    MapColumns,
    Confirm,
}

/// The options that decide how the file is read.
#[derive(Debug, Clone, Copy, PartialEq, Eq, Structural)]
pub enum ParseField {
    SkipLines,
    HasHeader,
    Delimiter,
}

impl ParseField {
    pub open spec fn following(self) -> ParseField {
        match self {
            ParseField::SkipLines => ParseField::HasHeader,
            ParseField::HasHeader => ParseField::Delimiter,
            ParseField::Delimiter => ParseField::SkipLines,
        }
    }

    pub open spec fn preceding(self) -> ParseField {
        match self {
            ParseField::SkipLines => ParseField::Delimiter,
            ParseField::HasHeader => ParseField::SkipLines,
            ParseField::Delimiter => ParseField::HasHeader,
        }
    }

    pub fn next(&self) -> (r: ParseField)
        ensures
            r == self.following(),
    {
        match self {
            ParseField::SkipLines => ParseField::HasHeader,
            ParseField::HasHeader => ParseField::Delimiter,
            ParseField::Delimiter => ParseField::SkipLines,
        }
    }

    pub fn prev(&self) -> (r: ParseField)
        ensures
            r == self.preceding(),
    {
        match self {
            ParseField::SkipLines => ParseField::Delimiter,
            ParseField::HasHeader => ParseField::SkipLines,
            ParseField::Delimiter => ParseField::HasHeader,
        }
    }
}

/// The columns an import needs.
#[derive(Debug, Clone, Copy, PartialEq, Eq, Structural)]
pub enum ColumnField {
    Date,
    Description,
    Amount,
}

impl ColumnField {
    pub open spec fn following(self) -> ColumnField {
        match self {
            ColumnField::Date => ColumnField::Description,
            ColumnField::Description => ColumnField::Amount,
            ColumnField::Amount => ColumnField::Date,
        }
    }

    pub open spec fn preceding(self) -> ColumnField {
        match self {
            ColumnField::Date => ColumnField::Amount,
            ColumnField::Description => ColumnField::Date,
            ColumnField::Amount => ColumnField::Description,
        }
    }

    pub open spec fn title(self) -> Seq<char> {
        match self {
            ColumnField::Date => "Date"@,
            ColumnField::Description => "Description"@,
            ColumnField::Amount => "Amount"@,
        }
    }

    pub fn next(&self) -> (r: ColumnField)
        ensures
            r == self.following(),
    {
        match self {
            ColumnField::Date => ColumnField::Description,
            ColumnField::Description => ColumnField::Amount,
            ColumnField::Amount => ColumnField::Date,
        }
    }

    pub fn prev(&self) -> (r: ColumnField)
        ensures
            r == self.preceding(),
    {
        match self {
            ColumnField::Date => ColumnField::Amount,
            ColumnField::Description => ColumnField::Date,
            ColumnField::Amount => ColumnField::Description,
        }
    }

    pub fn label(&self) -> (r: &'static str)
        ensures
            r@ == self.title(),
    {
        match self {
            ColumnField::Date => "Date",
            ColumnField::Description => "Description",
            ColumnField::Amount => "Amount",
        }
    }
}

/// Stepping through the options or the columns and back changes nothing.
pub proof fn fields_form_cycles(p: ParseField, c: ColumnField)
    ensures
        p.following().preceding() == p,
        p.preceding().following() == p,
        p.following().following().following() == p,
        c.following().preceding() == c,
        c.preceding().following() == c,
        c.following().following().following() == c,
{
}

/// The first lines of a file, split into columns.
pub struct CsvPreview {
    pub headers: Vec<String>,
    pub rows: Vec<Vec<String>>,
}

/// The meaning of a preview.
#[verifier::ext_equal]
pub ghost struct Preview {
    pub headers: Seq<Seq<char>>,
    pub rows: Seq<Seq<Seq<char>>>,
}

impl View for CsvPreview {
    type V = Preview;

    open spec fn view(&self) -> Preview {
        Preview {
            headers: text::texts(self.headers@),
            rows: self.rows@.map_values(|r: Vec<String>| text::texts(r@)),
        }
    }
}

/// An account an import can go to.
pub struct AccountChoice {
    pub id: String,
    pub name: String,
    pub account_number: String,
    pub account_type: AccountType,
}

/// A file or directory offered while a path is typed.
pub struct Suggestion {
    pub path: String,
    pub name: String,
    pub is_dir: bool,
}

impl Suggestion {
    fn duplicate(&self) -> (r: Suggestion)
        ensures
            r == *self,
    {
        Suggestion { path: self.path.clone(), name: self.name.clone(), is_dir: self.is_dir }
    }
}

/// What the modal needs from the file system after a key.
#[derive(Debug, Clone, Copy, PartialEq, Eq, Structural)]
pub enum ImportRequest {
    Nothing,
    /// List the files that continue the typed path.
    ListFiles,
    /// Read the file at the typed path.
    ReadFile,
}

/// What came of reading the chosen file.
pub enum FileOutcome {
    NotFound,
    NotAFile,
    Unreadable(String),
    Content(String),
}

/// The settings of a confirmed import.
pub struct ImportConfig {
    pub file_path: String,
    pub date_column: usize,
    pub description_column: usize,
    pub amount_column: usize,
    pub target_account_id: Option<String>,
    pub skip_lines: usize,
    pub has_header: bool,
    pub delimiter: char,
}

pub struct CsvImportModal {
    pub visible: bool,
    pub step: ImportStep,
    pub file_path: String,
    pub file_suggestions: Vec<Suggestion>,
    pub suggestion_state: Selection,
    pub available_accounts: Vec<AccountChoice>,
    pub account_filter: String,
    pub account_state: Selection,
    pub preview: Option<CsvPreview>,
    pub error_message: Option<String>,
    /// The whole file, kept to read it again with other options.
    pub raw_content: Option<String>,
    pub skip_lines: usize,
    pub has_header: bool,
    pub delimiter: char,
    pub active_parse_field: ParseField,
    pub date_column: Option<usize>,
    pub description_column: Option<usize>,
    pub amount_column: Option<usize>,
    pub active_field: ColumnField,
    pub confirm_summary: Option<ConfirmSummary>,
    pub confirm_scroll: usize,
    pub target_account_id: Option<String>,
    pub target_account_name: Option<String>,
    pub ready_to_import: bool,
}

/// The meaning of the modal.
#[verifier::ext_equal]
pub ghost struct ImportState {
    pub visible: bool,
    pub step: ImportStep,
    pub file_path: Seq<char>,
    pub file_suggestions: Seq<Suggestion>,
    pub suggestion_state: Selection,
    pub available_accounts: Seq<AccountChoice>,
    pub account_filter: Seq<char>,
    pub account_state: Selection,
    pub preview: Option<Preview>,
    pub error_message: Option<Seq<char>>,
    pub raw_content: Option<Seq<char>>,
    pub skip_lines: int,
    pub has_header: bool,
    pub delimiter: char,
    pub active_parse_field: ParseField,
    pub date_column: Option<usize>,
    pub description_column: Option<usize>,
    pub amount_column: Option<usize>,
    pub active_field: ColumnField,
    pub confirm_summary: Option<Summary>,
    pub confirm_scroll: int,
    pub target_account_id: Option<Seq<char>>,
    pub target_account_name: Option<Seq<char>>,
    pub ready_to_import: bool,
}

impl View for CsvImportModal {
    type V = ImportState;

    open spec fn view(&self) -> ImportState {
        ImportState {
            visible: self.visible,
            step: self.step,
            file_path: self.file_path@,
            file_suggestions: self.file_suggestions@,
            suggestion_state: self.suggestion_state,
            available_accounts: self.available_accounts@,
            account_filter: self.account_filter@,
            account_state: self.account_state,
            preview: match self.preview {
                Some(p) => Some(p@),
                None => None,
            },
            error_message: text::opt_text(self.error_message),
            raw_content: text::opt_text(self.raw_content),
            skip_lines: self.skip_lines as int,
            has_header: self.has_header,
            delimiter: self.delimiter,
            active_parse_field: self.active_parse_field,
            date_column: self.date_column,
            description_column: self.description_column,
            amount_column: self.amount_column,
            active_field: self.active_field,
            confirm_summary: match self.confirm_summary {
                Some(s) => Some(s@),
                None => None,
            },
            confirm_scroll: self.confirm_scroll as int,
            target_account_id: text::opt_text(self.target_account_id),
            target_account_name: text::opt_text(self.target_account_name),
            ready_to_import: self.ready_to_import,
        }
    }
}

/// The state before anything was chosen.
pub open spec fn fresh(visible: bool, accounts: Seq<AccountChoice>) -> ImportState {
    ImportState {
        visible,
        step: ImportStep::SelectFile,
        file_path: Seq::empty(),
        file_suggestions: Seq::empty(),
        suggestion_state: Selection::none(),
        available_accounts: accounts,
        account_filter: Seq::empty(),
        account_state: Selection::none(),
        preview: None,
        error_message: None,
        raw_content: None,
        skip_lines: 0,
        has_header: true,
        delimiter: ',',
        active_parse_field: ParseField::SkipLines,
        date_column: None,
        description_column: None,
        amount_column: None,
        active_field: ColumnField::Date,
        confirm_summary: None,
        confirm_scroll: 0,
        target_account_id: None,
        target_account_name: None,
        ready_to_import: false,
    }
}

/// A path that ends in a slash.
pub open spec fn with_slash(path: Seq<char>) -> Seq<char> {
    if text::ends_with_char(path, '/') {
        path
    } else {
        path.push('/')
    }
}

/// Whether an account matches a filter: its name in any case, or its number.
pub open spec fn account_matches(a: AccountChoice, filter: Seq<char>) -> bool {
    let f = text::lowercase(filter);
    filter.len() == 0 || text::has_text(text::lowercase(a.name@), f) || text::has_text(
        a.account_number@,
        f,
    )
}

/// Whether a header names the column of a field.
pub open spec fn names_column(header: Seq<char>, field: ColumnField) -> bool {
    let h = text::lowercase(header);
    match field {
        ColumnField::Date => text::has_text(h, "date"@) || text::has_text(h, "time"@),
        ColumnField::Description => text::has_text(h, "desc"@) || text::has_text(h, "memo"@)
            || text::has_text(h, "narr"@) || text::has_text(h, "detail"@) || text::has_text(
            h,
            "name"@,
        ),
        ColumnField::Amount => text::has_text(h, "amount"@) || text::has_text(h, "value"@)
            || text::has_text(h, "sum"@) || text::has_text(h, "total"@),
    }
}

/// The first column whose header names a field.
pub open spec fn detected(headers: Seq<Seq<char>>, field: ColumnField) -> Option<usize> {
    lists::first_position(headers.len(), |i: int| names_column(headers[i], field))
}

/// The delimiter after another one in the offered order.
pub open spec fn delimiter_after(d: char) -> char {
    if d == '\t' {
        ';'
    } else if d == ';' {
        '|'
    } else if d == '|' {
        ','
    } else {
        '\t'
    }
}

/// The delimiter before another one in the offered order.
pub open spec fn delimiter_before(d: char) -> char {
    if d == '\t' {
        ','
    } else if d == ';' {
        '\t'
    } else if d == '|' {
        ';'
    } else {
        '|'
    }
}

/// The delimiters that are offered.
pub open spec fn is_offered(d: char) -> bool {
    d == ',' || d == '\t' || d == ';' || d == '|'
}

/// Going through the offered delimiters and back changes nothing, and four
/// steps return.
pub proof fn delimiters_form_a_cycle(d: char)
    requires
        is_offered(d),
    ensures
        is_offered(delimiter_after(d)),
        delimiter_before(delimiter_after(d)) == d,
        delimiter_after(delimiter_before(d)) == d,
        delimiter_after(delimiter_after(delimiter_after(delimiter_after(d)))) == d,
{
}

/// The delimiter that splits a line into the most fields, the earlier offered
/// one on a tie.
pub open spec fn best_delimiter(line: Seq<char>) -> char {
    let c = fields_of(line, ',').len();
    let t = fields_of(line, '\t').len();
    let s = fields_of(line, ';').len();
    let p = fields_of(line, '|').len();
    if p > c && p > t && p > s {
        '|'
    } else if s > c && s > t {
        ';'
    } else if t > c {
        '\t'
    } else {
        ','
    }
}

/// The guessed delimiter splits a line into at least as many fields as every
/// offered one, and it is the comma if that does as well.
pub proof fn best_delimiter_splits_most(line: Seq<char>, d: char)
    requires
        d == ',' || d == '\t' || d == ';' || d == '|',
    ensures
        fields_of(line, best_delimiter(line)).len() >= fields_of(line, d).len(),
        fields_of(line, ',').len() >= fields_of(line, best_delimiter(line)).len()
            ==> best_delimiter(line) == ',',
{
}

/// The first line that is not blank.
pub open spec fn first_written_line(lines: Seq<Seq<char>>) -> Option<Seq<char>>
    decreases lines.len(),
{
    if lines.len() == 0 {
        None
    } else if text::trimmed(lines[0]).len() > 0 {
        Some(lines[0])
    } else {
        first_written_line(lines.drop_first())
    }
}

/// The delimiter guessed for a file.
pub open spec fn guessed_delimiter(content: Seq<char>) -> char {
    match first_written_line(text::lines_of(content)) {
        Some(line) => best_delimiter(line),
        None => ',',
    }
}

/// The longest of several rows.
pub open spec fn widest(rows: Seq<Seq<Seq<char>>>) -> nat
    decreases rows.len(),
{
    if rows.len() == 0 {
        0
    } else {
        let w = widest(rows.drop_last());
        if rows.last().len() > w {
            rows.last().len()
        } else {
            w
        }
    }
}

/// Made-up names for columns without a header.
pub open spec fn numbered_columns(n: nat) -> Seq<Seq<char>> {
    Seq::new(n, |i: int| "Column "@ + text::decimal((i + 1) as nat))
}

/// At most five lines, split into columns.
pub open spec fn sample_rows(lines: Seq<Seq<char>>, delimiter: char) -> Seq<Seq<Seq<char>>> {
    let n = if lines.len() < 5 {
        lines.len()
    } else {
        5
    };
    Seq::new(n, |i: int| fields_of(lines[i], delimiter))
}

/// The preview of a file, or why there is none.
pub open spec fn preview_of(
    content: Seq<char>,
    skip: int,
    has_header: bool,
    delimiter: char,
) -> Result<Preview, Seq<char>> {
    let lines = text::lines_of(content);
    if skip > lines.len() {
        Err("Skip count exceeds the number of lines in the file"@)
    } else {
        let rest = lines.skip(skip);
        if has_header {
            if rest.len() == 0 {
                Err("No header row after skipped lines"@)
            } else {
                Ok(
                    Preview {
                        headers: fields_of(rest[0], delimiter),
                        rows: sample_rows(rest.skip(1), delimiter),
                    },
                )
            }
        } else if rest.len() == 0 {
            Err("No data rows after skipped lines"@)
        } else {
            let rows = sample_rows(rest, delimiter);
            Ok(Preview { headers: numbered_columns(widest(rows)), rows })
        }
    }
}

impl ImportState {
    /// The later steps have a preview, and a preview has columns.
    pub open spec fn wf(self) -> bool {
        &&& self.preview is Some ==> self.preview->0.headers.len() > 0
        &&& (self.step is SelectAccount || self.step is MapColumns || self.step is Confirm)
            ==> self.preview is Some
    }

    /// Closed.
    pub open spec fn hidden(self) -> ImportState {
        ImportState { visible: false, ready_to_import: false, ..self }
    }

    /// The preview and the detected columns for the current options.
    pub open spec fn recomputed(self) -> ImportState {
        match self.raw_content {
            None => self,
            Some(content) => match preview_of(
                content,
                self.skip_lines,
                self.has_header,
                self.delimiter,
            ) {
                Err(message) => ImportState {
                    preview: None,
                    error_message: Some(message),
                    ..self
                },
                Ok(preview) => ImportState {
                    preview: Some(preview),
                    error_message: None,
                    date_column: detected(preview.headers, ColumnField::Date),
                    description_column: detected(preview.headers, ColumnField::Description),
                    amount_column: detected(preview.headers, ColumnField::Amount),
                    ..self
                },
            },
        }
    }

    /// After reading the chosen file.
    pub open spec fn loaded(self, outcome: FileOutcome) -> ImportState {
        match outcome {
            FileOutcome::NotFound => ImportState {
                error_message: Some("File not found"@),
                ..self
            },
            FileOutcome::NotAFile => ImportState { error_message: Some("Not a file"@), ..self },
            FileOutcome::Unreadable(e) => ImportState {
                error_message: Some("Failed to read file: "@ + e@),
                ..self
            },
            FileOutcome::Content(content) => {
                let s = ImportState {
                    raw_content: Some(content@),
                    skip_lines: 0,
                    has_header: true,
                    delimiter: guessed_delimiter(content@),
                    active_parse_field: ParseField::SkipLines,
                    ..self
                }.recomputed();
                if s.error_message is Some {
                    s
                } else {
                    ImportState { step: ImportStep::Parsing, ..s }
                }
            },
        }
    }

    pub open spec fn after_file_key(self, key: KeyCode) -> (ImportState, ImportRequest) {
        let n = self.file_suggestions.len();
        match key {
            KeyCode::Esc => (self.hidden(), ImportRequest::Nothing),
            KeyCode::Enter => match self.suggestion_state.selected {
                Some(i) => if i < n {
                    let chosen = self.file_suggestions[i as int];
                    if chosen.is_dir {
                        (
                            ImportState {
                                file_path: with_slash(chosen.path@),
                                suggestion_state: Selection::none(),
                                ..self
                            },
                            ImportRequest::ListFiles,
                        )
                    } else {
                        (
                            ImportState { file_path: chosen.path@, ..self },
                            ImportRequest::ReadFile,
                        )
                    }
                } else {
                    (self, ImportRequest::Nothing)
                },
                None => if self.file_path.len() > 0 {
                    (self, ImportRequest::ReadFile)
                } else {
                    (self, ImportRequest::Nothing)
                },
            },
            KeyCode::Tab => if n > 0 {
                let first = self.file_suggestions[0];
                (
                    ImportState {
                        file_path: if first.is_dir {
                            with_slash(first.path@)
                        } else {
                            first.path@
                        },
                        ..self
                    },
                    ImportRequest::ListFiles,
                )
            } else {
                (self, ImportRequest::Nothing)
            },
            KeyCode::Up => if n > 0 {
                let i = selection::up_around(self.suggestion_state.selected, n);
                (
                    ImportState {
                        suggestion_state: self.suggestion_state.moved(Some(i)),
                        ..self
                    },
                    ImportRequest::Nothing,
                )
            } else {
                (self, ImportRequest::Nothing)
            },
            KeyCode::Down => if n > 0 {
                let i = selection::down_around(self.suggestion_state.selected, n);
                (
                    ImportState {
                        suggestion_state: self.suggestion_state.moved(Some(i)),
                        ..self
                    },
                    ImportRequest::Nothing,
                )
            } else {
                (self, ImportRequest::Nothing)
            },
            KeyCode::Backspace => (
                ImportState {
                    file_path: text::without_last(self.file_path),
                    suggestion_state: Selection::none(),
                    ..self
                },
                ImportRequest::ListFiles,
            ),
            KeyCode::Char(c) => (
                ImportState {
                    file_path: self.file_path.push(c),
                    suggestion_state: Selection::none(),
                    ..self
                },
                ImportRequest::ListFiles,
            ),
            _ => (self, ImportRequest::Nothing),
        }
    }

    pub open spec fn after_parsing_key(self, key: KeyCode) -> ImportState {
        match key {
            KeyCode::Esc => ImportState {
                step: ImportStep::SelectFile,
                error_message: None,
                ..self
            },
            KeyCode::Enter => if self.preview is Some {
                ImportState {
                    step: ImportStep::SelectAccount,
                    account_state: self.account_state.moved(Some(0)),
                    error_message: None,
                    ..self
                }
            } else {
                self
            },
            KeyCode::Tab | KeyCode::Down => ImportState {
                active_parse_field: self.active_parse_field.following(),
                ..self
            },
            KeyCode::BackTab | KeyCode::Up => ImportState {
                active_parse_field: self.active_parse_field.preceding(),
                ..self
            },
            KeyCode::Left => match self.active_parse_field {
                ParseField::SkipLines => ImportState {
                    skip_lines: if self.skip_lines > 0 {
                        self.skip_lines - 1
                    } else {
                        0
                    },
                    ..self
                }.recomputed(),
                ParseField::HasHeader => ImportState {
                    has_header: !self.has_header,
                    ..self
                }.recomputed(),
                ParseField::Delimiter => ImportState {
                    delimiter: delimiter_before(self.delimiter),
                    ..self
                }.recomputed(),
            },
            KeyCode::Right => match self.active_parse_field {
                ParseField::SkipLines => ImportState {
                    skip_lines: if self.skip_lines < usize::MAX {
                        self.skip_lines + 1
                    } else {
                        self.skip_lines
                    },
                    ..self
                }.recomputed(),
                ParseField::HasHeader => ImportState {
                    has_header: !self.has_header,
                    ..self
                }.recomputed(),
                ParseField::Delimiter => ImportState {
                    delimiter: delimiter_after(self.delimiter),
                    ..self
                }.recomputed(),
            },
            KeyCode::Backspace => if self.active_parse_field is SkipLines {
                ImportState { skip_lines: self.skip_lines / 10, ..self }.recomputed()
            } else {
                self
            },
            KeyCode::Char(c) => if input::is_digit(c) && self.active_parse_field is SkipLines
                && self.skip_lines < 1_000_000 {
                ImportState {
                    skip_lines: self.skip_lines * 10 + input::digit_value(c),
                    ..self
                }.recomputed()
            } else {
                self
            },
            _ => self,
        }
    }

    /// The accounts that match the filter, by position.
    pub open spec fn filtered(self) -> Seq<usize> {
        lists::positions(
            self.available_accounts.len(),
            |i: int| account_matches(self.available_accounts[i], self.account_filter),
        )
    }

    pub open spec fn after_account_key(self, key: KeyCode) -> ImportState {
        let n = self.filtered().len();
        match key {
            KeyCode::Esc => ImportState {
                step: ImportStep::Parsing,
                error_message: None,
                ..self
            },
            KeyCode::Enter => match self.account_state.selected {
                Some(i) => if i < n {
                    let account = self.available_accounts[self.filtered()[i as int] as int];
                    ImportState {
                        target_account_id: Some(account.id@),
                        target_account_name: Some(
                            account.account_number@ + " - "@ + account.name@,
                        ),
                        step: ImportStep::MapColumns,
                        ..self
                    }
                } else {
                    self
                },
                None => self,
            },
            KeyCode::Up => if n > 0 {
                ImportState {
                    account_state: self.account_state.moved(
                        Some(selection::up_around(self.account_state.selected, n)),
                    ),
                    ..self
                }
            } else {
                self
            },
            KeyCode::Down => if n > 0 {
                ImportState {
                    account_state: self.account_state.moved(
                        Some(selection::down_around(self.account_state.selected, n)),
                    ),
                    ..self
                }
            } else {
                self
            },
            KeyCode::Backspace => ImportState {
                account_filter: text::without_last(self.account_filter),
                account_state: self.account_state.moved(Some(0)),
                ..self
            },
            KeyCode::Char(c) => ImportState {
                account_filter: self.account_filter.push(c),
                account_state: self.account_state.moved(Some(0)),
                ..self
            },
            _ => self,
        }
    }

    /// The column chosen for a field.
    pub open spec fn column(self, field: ColumnField) -> Option<usize> {
        match field {
            ColumnField::Date => self.date_column,
            ColumnField::Description => self.description_column,
            ColumnField::Amount => self.amount_column,
        }
    }

    /// Another column for a field.
    pub open spec fn with_column(self, field: ColumnField, column: Option<usize>) -> ImportState {
        match field {
            ColumnField::Date => ImportState { date_column: column, ..self },
            ColumnField::Description => ImportState { description_column: column, ..self },
            ColumnField::Amount => ImportState { amount_column: column, ..self },
        }
    }

    /// The number of columns of the preview.
    pub open spec fn columns(self) -> nat {
        match self.preview {
            Some(p) => p.headers.len(),
            None => 0,
        }
    }

    /// The summary for the chosen columns.
    pub open spec fn summarized(self) -> Option<Summary> {
        if self.raw_content is Some && self.date_column is Some && self.description_column is Some
            && self.amount_column is Some {
            Some(
                summary_of(
                    data_lines(self.raw_content->0, self.skip_lines as nat, self.has_header),
                    Mapping {
                        delimiter: self.delimiter,
                        date: self.date_column->0 as int,
                        description: self.description_column->0 as int,
                        amount: self.amount_column->0 as int,
                    },
                ),
            )
        } else {
            None
        }
    }

    pub open spec fn after_columns_key(self, key: KeyCode) -> ImportState {
        let n = self.columns();
        let current = self.column(self.active_field);
        match key {
            KeyCode::Esc => ImportState {
                step: ImportStep::SelectAccount,
                error_message: None,
                ..self
            },
            KeyCode::Enter => if self.date_column is Some && self.description_column is Some
                && self.amount_column is Some {
                ImportState {
                    confirm_summary: self.summarized(),
                    confirm_scroll: 0,
                    step: ImportStep::Confirm,
                    ..self
                }
            } else {
                ImportState {
                    error_message: Some("Please map all required columns"@),
                    ..self
                }
            },
            KeyCode::Tab | KeyCode::Down => ImportState {
                active_field: self.active_field.following(),
                ..self
            },
            KeyCode::BackTab | KeyCode::Up => ImportState {
                active_field: self.active_field.preceding(),
                ..self
            },
            KeyCode::Left => match current {
                Some(i) => self.with_column(
                    self.active_field,
                    Some(
                        if i > 0 {
                            (i - 1) as usize
                        } else {
                            0
                        },
                    ),
                ),
                None => if n > 0 {
                    self.with_column(self.active_field, Some((n - 1) as usize))
                } else {
                    self
                },
            },
            KeyCode::Right => match current {
                Some(i) => self.with_column(
                    self.active_field,
                    Some(
                        if i < n - 1 {
                            (i + 1) as usize
                        } else {
                            i
                        },
                    ),
                ),
                None => if n > 0 {
                    self.with_column(self.active_field, Some(0))
                } else {
                    self
                },
            },
            KeyCode::Char(c) => if input::is_digit(c) && 0 < input::digit_value(c) <= n {
                self.with_column(self.active_field, Some((input::digit_value(c) - 1) as usize))
            } else {
                self
            },
            _ => self,
        }
    }

    /// The last row the review can scroll to.
    pub open spec fn last_row(self) -> int {
        match self.confirm_summary {
            Some(s) => if s.parsed.len() > 0 {
                s.parsed.len() - 1
            } else {
                0
            },
            None => 0,
        }
    }

    pub open spec fn after_confirm_key(self, key: KeyCode) -> ImportState {
        let max = self.last_row();
        match key {
            KeyCode::Esc | KeyCode::Char('n') | KeyCode::Char('N') => ImportState {
                step: ImportStep::MapColumns,
                confirm_summary: None,
                ..self
            },
            KeyCode::Enter | KeyCode::Char('y') | KeyCode::Char('Y') => ImportState {
                ready_to_import: self.ready_to_import || (self.confirm_summary is Some
                    && self.confirm_summary->0.parsed.len() > 0),
                ..self
            },
            KeyCode::Up | KeyCode::Char('k') => ImportState {
                confirm_scroll: if self.confirm_scroll > 0 {
                    self.confirm_scroll - 1
                } else {
                    0
                },
                ..self
            },
            KeyCode::Down | KeyCode::Char('j') => ImportState {
                confirm_scroll: if self.confirm_scroll < max {
                    self.confirm_scroll + 1
                } else {
                    self.confirm_scroll
                },
                ..self
            },
            KeyCode::PageUp => ImportState {
                confirm_scroll: if self.confirm_scroll > 10 {
                    self.confirm_scroll - 10
                } else {
                    0
                },
                ..self
            },
            KeyCode::PageDown => ImportState {
                confirm_scroll: if self.confirm_scroll + 10 < max {
                    self.confirm_scroll + 10
                } else {
                    max
                },
                ..self
            },
            KeyCode::Home => ImportState { confirm_scroll: 0, ..self },
            KeyCode::End => ImportState { confirm_scroll: max, ..self },
            _ => self,
        }
    }

    /// What a key does, and what it needs from the file system.
    pub open spec fn after_key(self, key: KeyCode) -> (ImportState, ImportRequest) {
        match self.step {
            ImportStep::SelectFile => self.after_file_key(key),
            ImportStep::Parsing => (self.after_parsing_key(key), ImportRequest::Nothing),
            ImportStep::SelectAccount => (self.after_account_key(key), ImportRequest::Nothing),
            ImportStep::MapColumns => (self.after_columns_key(key), ImportRequest::Nothing),
            ImportStep::Confirm => (self.after_confirm_key(key), ImportRequest::Nothing),
        }
    }
}

/// Splits at most five of the lines from a position on into columns.
pub fn split_sample(lines: &Vec<String>, from: usize, delimiter: char) -> (r: Vec<Vec<String>>)
    requires
        from <= lines@.len(),
    ensures
        r@.map_values(|v: Vec<String>| text::texts(v@)) == sample_rows(
            text::texts(lines@).skip(from as int),
            delimiter,
        ),
        forall|i: int| 0 <= i < r@.len() ==> (#[trigger] r@[i])@.len() > 0,
{
    let mut rows: Vec<Vec<String>> = Vec::new();
    let mut i: usize = from;
    let ghost rest = text::texts(lines@).skip(from as int);
    while i < lines.len() && i - from < 5
        invariant
            from <= i <= lines@.len(),
            i - from <= 5,
            rest == text::texts(lines@).skip(from as int),
            rows@.len() == i - from,
            forall|k: int|
                0 <= k < rows@.len() ==> text::texts((#[trigger] rows@[k])@) == fields_of(
                    rest[k],
                    delimiter,
                ),
            forall|k: int| 0 <= k < rows@.len() ==> (#[trigger] rows@[k])@.len() > 0,
        decreases lines@.len() - i,
    {
        rows.push(parse_delimited_line(lines[i].as_str(), delimiter));
        i = i + 1;
    }
    assert(rows@.map_values(|v: Vec<String>| text::texts(v@)) =~= sample_rows(rest, delimiter));
    rows
}

fn widest_row(rows: &Vec<Vec<String>>) -> (r: usize)
    ensures
        r == widest(rows@.map_values(|v: Vec<String>| text::texts(v@))),
        forall|i: int| 0 <= i < rows@.len() ==> r >= (#[trigger] rows@[i])@.len(),
{
    let mut w: usize = 0;
    let mut i: usize = 0;
    let ghost all = rows@.map_values(|v: Vec<String>| text::texts(v@));
    assert(all.take(0) =~= Seq::<Seq<Seq<char>>>::empty());
    while i < rows.len()
        invariant
            i <= rows@.len(),
            all == rows@.map_values(|v: Vec<String>| text::texts(v@)),
            w == widest(all.take(i as int)),
            forall|k: int| 0 <= k < i ==> w >= (#[trigger] rows@[k])@.len(),
        decreases rows@.len() - i,
    {
        proof {
            let upto = all.take(i + 1);
            assert(upto.drop_last() =~= all.take(i as int));
            assert(upto.last().len() == rows@[i as int]@.len());
        }
        if rows[i].len() > w {
            w = rows[i].len();
        }
        i = i + 1;
    }
    assert(all.take(i as int) =~= all);
    w
}

fn number_columns(n: usize) -> (r: Vec<String>)
    ensures
        text::texts(r@) == numbered_columns(n as nat),
{
    let mut out: Vec<String> = Vec::new();
    let mut i: usize = 0;
    while i < n
        invariant
            i <= n,
            out@.len() == i,
            forall|k: int|
                0 <= k < i ==> (#[trigger] out@[k])@ == "Column "@ + text::decimal((k + 1) as nat),
        decreases n - i,
    {
        let number = text::count(i + 1);
        out.push(text::cat2("Column ", number.as_str()));
        i = i + 1;
    }
    assert(text::texts(out@) =~= numbered_columns(n as nat));
    out
}

/// The preview of a file for the given options, or why there is none.
pub fn make_preview(content: &str, skip: usize, has_header: bool, delimiter: char) -> (r: Result<
    CsvPreview,
    String,
>)
    ensures
        match r {
            Ok(p) => preview_of(content@, skip as int, has_header, delimiter) == Ok::<
                Preview,
                Seq<char>,
            >(p@) && p@.headers.len() > 0,
            Err(e) => preview_of(content@, skip as int, has_header, delimiter) == Err::<
                Preview,
                Seq<char>,
            >(e@),
        },
{
    let lines = text::lines(content);
    let ghost all = text::texts(lines@);
    if skip > lines.len() {
        return Err(text::owned("Skip count exceeds the number of lines in the file"));
    }
    if has_header {
        if skip == lines.len() {
            return Err(text::owned("No header row after skipped lines"));
        }
        let headers = parse_delimited_line(lines[skip].as_str(), delimiter);
        let rows = split_sample(&lines, skip + 1, delimiter);
        assert(all.skip(skip as int).skip(1) =~= all.skip(skip + 1));
        Ok(CsvPreview { headers, rows })
    } else {
        if skip == lines.len() {
            return Err(text::owned("No data rows after skipped lines"));
        }
        let rows = split_sample(&lines, skip, delimiter);
        let w: usize = widest_row(&rows);
        proof {
            let mapped = rows@.map_values(|v: Vec<String>| text::texts(v@));
            assert(mapped.len() > 0);
            assert(w >= rows@[0]@.len());
        }
        Ok(CsvPreview { headers: number_columns(w), rows })
    }
}

fn header_names(header: &str, field: ColumnField) -> (r: bool)
    ensures
        r == names_column(header@, field),
{
    let h = header.to_lowercase();
    match field {
        ColumnField::Date => text::contains(h.as_str(), "date") || text::contains(
            h.as_str(),
            "time",
        ),
        ColumnField::Description => text::contains(h.as_str(), "desc") || text::contains(
            h.as_str(),
            "memo",
        ) || text::contains(h.as_str(), "narr") || text::contains(h.as_str(), "detail")
            || text::contains(h.as_str(), "name"),
        ColumnField::Amount => text::contains(h.as_str(), "amount") || text::contains(
            h.as_str(),
            "value",
        ) || text::contains(h.as_str(), "sum") || text::contains(h.as_str(), "total"),
    }
}

/// The first column whose header names a field.
pub fn detect_column(headers: &Vec<String>, field: ColumnField) -> (r: Option<usize>)
    ensures
        r == detected(text::texts(headers@), field),
{
    let mut i: usize = 0;
    let ghost all = text::texts(headers@);
    let ghost p = |i: int| names_column(all[i], field);
    while i < headers.len()
        invariant
            i <= headers@.len(),
            all == text::texts(headers@),
            p == (|i: int| names_column(all[i], field)),
            forall|j: int| 0 <= j < i ==> !#[trigger] p(j),
        decreases headers@.len() - i,
    {
        let found: bool = header_names(headers[i].as_str(), field);
        assert(found == p(i as int));
        if found {
            proof {
                lists::first_position_is_first(all.len(), p);
            }
            return Some(i);
        }
        i = i + 1;
    }
    proof {
        lists::first_position_is_first(all.len(), p);
    }
    None
}

/// The delimiter that splits a line into the most fields.
pub fn pick_delimiter(line: &str) -> (r: char)
    ensures
        r == best_delimiter(line@),
{
    let mut best: char = ',';
    let mut most: usize = parse_delimited_line(line, ',').len();
    let t: usize = parse_delimited_line(line, '\t').len();
    if t > most {
        best = '\t';
        most = t;
    }
    let s: usize = parse_delimited_line(line, ';').len();
    if s > most {
        best = ';';
        most = s;
    }
    let p: usize = parse_delimited_line(line, '|').len();
    if p > most {
        best = '|';
    }
    proof {
        assert(text::texts(seq![]) =~= Seq::<Seq<char>>::empty());
    }
    best
}

/// The delimiter guessed for a file.
pub fn guess_delimiter(content: &str) -> (r: char)
    ensures
        r == guessed_delimiter(content@),
{
    let lines = text::lines(content);
    let ghost all = text::texts(lines@);
    let mut i: usize = 0;
    assert(all.skip(0) =~= all);
    while i < lines.len()
        invariant
            i <= lines@.len(),
            all == text::texts(lines@),
            first_written_line(all) == first_written_line(all.skip(i as int)),
            all == text::lines_of(content@),
        decreases lines@.len() - i,
    {
        let bare = text::trim(lines[i].as_str());
        assert(all.skip(i as int)[0] == lines@[i as int]@);
        assert(all.skip(i as int).drop_first() =~= all.skip(i + 1));
        if !bare.as_str().is_empty() {
            return pick_delimiter(lines[i].as_str());
        }
        i = i + 1;
    }
    ','
}

fn choice_matches(a: &AccountChoice, filter: &str, filter_lower: &str) -> (r: bool)
    requires
        filter_lower@ == text::lowercase(filter@),
    ensures
        r == account_matches(*a, filter@),
{
    if filter.is_empty() {
        return true;
    }
    let name = a.name.as_str().to_lowercase();
    text::contains(name.as_str(), filter_lower) || text::contains(
        a.account_number.as_str(),
        filter_lower,
    )
}

impl CsvImportModal {
    pub fn new() -> (r: Self)
        ensures
            r@ == fresh(false, Seq::empty()),
            r@.wf(),
    {
        CsvImportModal {
            visible: false,
            step: ImportStep::SelectFile,
            file_path: String::new(),
            file_suggestions: Vec::new(),
            suggestion_state: Selection::none(),
            available_accounts: Vec::new(),
            account_filter: String::new(),
            account_state: Selection::none(),
            preview: None,
            error_message: None,
            confirm_summary: None,
            confirm_scroll: 0,
            raw_content: None,
            skip_lines: 0,
            has_header: true,
            delimiter: ',',
            active_parse_field: ParseField::SkipLines,
            date_column: None,
            description_column: None,
            amount_column: None,
            active_field: ColumnField::Date,
            target_account_id: None,
            target_account_name: None,
            ready_to_import: false,
        }
    }

    /// Opens the modal from the beginning. The files of the working directory
    /// are to be listed next.
    pub fn show(&mut self, accounts: Vec<AccountChoice>) -> (request: ImportRequest)
        ensures
            final(self)@ == fresh(true, accounts@),
            final(self)@.wf(),
            request == ImportRequest::ListFiles,
    {
        self.visible = true;
        self.step = ImportStep::SelectFile;
        self.file_path.clear();
        self.file_suggestions.clear();
        self.suggestion_state = Selection::none();
        self.available_accounts = accounts;
        self.account_filter.clear();
        self.account_state = Selection::none();
        self.preview = None;
        self.error_message = None;
        self.confirm_summary = None;
        self.confirm_scroll = 0;
        self.raw_content = None;
        self.skip_lines = 0;
        self.has_header = true;
        self.delimiter = ',';
        self.active_parse_field = ParseField::SkipLines;
        self.date_column = None;
        self.description_column = None;
        self.amount_column = None;
        self.active_field = ColumnField::Date;
        self.target_account_id = None;
        self.target_account_name = None;
        self.ready_to_import = false;
        ImportRequest::ListFiles
    }

    pub fn close(&mut self)
        ensures
            final(self)@ == old(self)@.hidden(),
    {
        self.visible = false;
        self.ready_to_import = false;
    }

    /// Handles a key; what the file system has to contribute is returned.
    pub fn handle_key(&mut self, key: KeyCode) -> (request: ImportRequest)
        requires
            old(self)@.wf(),
        ensures
            (final(self)@, request) == old(self)@.after_key(key),
            final(self)@.wf(),
    {
        match self.step {
            ImportStep::SelectFile => self.handle_file_select_key(key),
            ImportStep::Parsing => {
                self.handle_parsing_key(key);
                ImportRequest::Nothing
            },
            ImportStep::SelectAccount => {
                self.handle_account_select_key(key);
                ImportRequest::Nothing
            },
            ImportStep::MapColumns => {
                self.handle_map_columns_key(key);
                ImportRequest::Nothing
            },
            ImportStep::Confirm => {
                self.handle_confirm_key(key);
                ImportRequest::Nothing
            },
        }
    }

    fn handle_file_select_key(&mut self, key: KeyCode) -> (request: ImportRequest)
        requires
            old(self)@.wf(),
            old(self).step is SelectFile,
        ensures
            (final(self)@, request) == old(self)@.after_file_key(key),
            final(self)@.wf(),
    {
        match key {
            KeyCode::Esc => {
                self.close();
                ImportRequest::Nothing
            },
            KeyCode::Enter => match self.suggestion_state.selected {
                Some(i) => {
                    if i < self.file_suggestions.len() {
                        self.file_path = self.file_suggestions[i].path.clone();
                        if self.file_suggestions[i].is_dir {
                            if !text::ends_in(self.file_path.as_str(), '/') {
                                self.file_path.push('/');
                            }
                            self.suggestion_state = Selection::none();
                            ImportRequest::ListFiles
                        } else {
                            ImportRequest::ReadFile
                        }
                    } else {
                        ImportRequest::Nothing
                    }
                },
                None => {
                    if !self.file_path.as_str().is_empty() {
                        ImportRequest::ReadFile
                    } else {
                        ImportRequest::Nothing
                    }
                },
            },
            KeyCode::Tab => {
                if self.file_suggestions.len() > 0 {
                    self.file_path = self.file_suggestions[0].path.clone();
                    if self.file_suggestions[0].is_dir && !text::ends_in(
                        self.file_path.as_str(),
                        '/',
                    ) {
                        self.file_path.push('/');
                    }
                    ImportRequest::ListFiles
                } else {
                    ImportRequest::Nothing
                }
            },
            KeyCode::Up => {
                let n: usize = self.file_suggestions.len();
                if n > 0 {
                    let i: usize = selection::move_up_around(self.suggestion_state.selected, n);
                    self.suggestion_state = self.suggestion_state.moved(Some(i));
                }
                ImportRequest::Nothing
            },
            KeyCode::Down => {
                let n: usize = self.file_suggestions.len();
                if n > 0 {
                    let i: usize = selection::move_down_around(self.suggestion_state.selected, n);
                    self.suggestion_state = self.suggestion_state.moved(Some(i));
                }
                ImportRequest::Nothing
            },
            KeyCode::Backspace => {
                self.file_path.pop();
                self.suggestion_state = Selection::none();
                ImportRequest::ListFiles
            },
            KeyCode::Char(c) => {
                self.file_path.push(c);
                self.suggestion_state = Selection::none();
                ImportRequest::ListFiles
            },
            _ => ImportRequest::Nothing,
        }
    }

    /// The accounts that match the filter, by position.
    pub fn filtered_accounts(&self) -> (r: Vec<usize>)
        ensures
            r@ == self@.filtered(),
            forall|k: int| 0 <= k < r@.len() ==> (#[trigger] r@[k]) < self.available_accounts@.len(),
    {
        let filter = self.account_filter.as_str().to_lowercase();
        let mut out: Vec<usize> = Vec::new();
        let mut i: usize = 0;
        let ghost p = |i: int|
            account_matches(self.available_accounts@[i], self.account_filter@);
        while i < self.available_accounts.len()
            invariant
                i <= self.available_accounts@.len(),
                filter@ == text::lowercase(self.account_filter@),
                p == (|i: int| account_matches(self.available_accounts@[i], self.account_filter@)),
                out@ == lists::positions(i as nat, p),
            decreases self.available_accounts@.len() - i,
        {
            let fits: bool = choice_matches(
                &self.available_accounts[i],
                self.account_filter.as_str(),
                filter.as_str(),
            );
            assert(fits == p(i as int));
            if fits {
                out.push(i);
            }
            i = i + 1;
        }
        proof {
            lists::positions_are_exact(self.available_accounts@.len(), p);
            let q = |i: int| account_matches(self@.available_accounts[i], self@.account_filter);
            assert(p =~= q);
        }
        out
    }

    fn handle_account_select_key(&mut self, key: KeyCode)
        requires
            old(self)@.wf(),
            old(self).step is SelectAccount,
        ensures
            final(self)@ == old(self)@.after_account_key(key),
            final(self)@.wf(),
    {
        let filtered = self.filtered_accounts();
        let n: usize = filtered.len();
        match key {
            KeyCode::Esc => {
                self.step = ImportStep::Parsing;
                self.error_message = None;
            },
            KeyCode::Enter => {
                if let Some(i) = self.account_state.selected {
                    if i < n {
                        let k: usize = filtered[i];
                        let name = text::cat3(
                            self.available_accounts[k].account_number.as_str(),
                            " - ",
                            self.available_accounts[k].name.as_str(),
                        );
                        self.target_account_id = Some(self.available_accounts[k].id.clone());
                        self.target_account_name = Some(name);
                        self.step = ImportStep::MapColumns;
                    }
                }
            },
            KeyCode::Up => {
                if n > 0 {
                    let i: usize = selection::move_up_around(self.account_state.selected, n);
                    self.account_state = self.account_state.moved(Some(i));
                }
            },
            KeyCode::Down => {
                if n > 0 {
                    let i: usize = selection::move_down_around(self.account_state.selected, n);
                    self.account_state = self.account_state.moved(Some(i));
                }
            },
            KeyCode::Backspace => {
                self.account_filter.pop();
                self.account_state = self.account_state.moved(Some(0));
            },
            KeyCode::Char(c) => {
                self.account_filter.push(c);
                self.account_state = self.account_state.moved(Some(0));
            },
            _ => {},
        }
    }

    fn column(&self, field: ColumnField) -> (r: Option<usize>)
        ensures
            r == self@.column(field),
    {
        match field {
            ColumnField::Date => self.date_column,
            ColumnField::Description => self.description_column,
            ColumnField::Amount => self.amount_column,
        }
    }

    fn set_column(&mut self, column: Option<usize>)
        ensures
            final(self)@ == old(self)@.with_column(old(self).active_field, column),
    {
        match self.active_field {
            ColumnField::Date => {
                self.date_column = column;
            },
            ColumnField::Description => {
                self.description_column = column;
            },
            ColumnField::Amount => {
                self.amount_column = column;
            },
        }
    }

    fn handle_map_columns_key(&mut self, key: KeyCode)
        requires
            old(self)@.wf(),
            old(self).step is MapColumns,
        ensures
            final(self)@ == old(self)@.after_columns_key(key),
            final(self)@.wf(),
    {
        let n: usize = match &self.preview {
            Some(p) => p.headers.len(),
            None => 0,
        };
        match key {
            KeyCode::Esc => {
                self.step = ImportStep::SelectAccount;
                self.error_message = None;
            },
            KeyCode::Enter => {
                if self.date_column.is_some() && self.description_column.is_some()
                    && self.amount_column.is_some() {
                    self.build_confirm_summary();
                    self.confirm_scroll = 0;
                    self.step = ImportStep::Confirm;
                } else {
                    self.error_message = Some(text::owned("Please map all required columns"));
                }
            },
            KeyCode::Tab | KeyCode::Down => {
                self.active_field = self.active_field.next();
            },
            KeyCode::BackTab | KeyCode::Up => {
                self.active_field = self.active_field.prev();
            },
            KeyCode::Left => match self.column(self.active_field) {
                Some(i) => {
                    let left: usize = if i > 0 {
                        i - 1
                    } else {
                        0
                    };
                    self.set_column(Some(left));
                },
                None => {
                    if n > 0 {
                        self.set_column(Some(n - 1));
                    }
                },
            },
            KeyCode::Right => match self.column(self.active_field) {
                Some(i) => {
                    let right: usize = if i < n - 1 {
                        i + 1
                    } else {
                        i
                    };
                    self.set_column(Some(right));
                },
                None => {
                    if n > 0 {
                        self.set_column(Some(0));
                    }
                },
            },
            KeyCode::Char(c) => {
                if input::ascii_digit(c) {
                    let number: usize = input::value_of_digit(c) as usize;
                    if number > 0 && number <= n {
                        self.set_column(Some(number - 1));
                    }
                }
            },
            _ => {},
        }
    }

    fn last_row(&self) -> (r: usize)
        ensures
            r == self@.last_row(),
    {
        match &self.confirm_summary {
            Some(s) => if s.parsed.len() > 0 {
                s.parsed.len() - 1
            } else {
                0
            },
            None => 0,
        }
    }

    fn handle_confirm_key(&mut self, key: KeyCode)
        requires
            old(self)@.wf(),
            old(self).step is Confirm,
        ensures
            final(self)@ == old(self)@.after_confirm_key(key),
            final(self)@.wf(),
    {
        let max: usize = self.last_row();
        match key {
            KeyCode::Esc | KeyCode::Char('n') | KeyCode::Char('N') => {
                self.step = ImportStep::MapColumns;
                self.confirm_summary = None;
            },
            KeyCode::Enter | KeyCode::Char('y') | KeyCode::Char('Y') => {
                let any: bool = match &self.confirm_summary {
                    Some(s) => s.parsed.len() > 0,
                    None => false,
                };
                if any {
                    self.ready_to_import = true;
                }
            },
            KeyCode::Up | KeyCode::Char('k') => {
                self.confirm_scroll = selection::move_up(self.confirm_scroll);
            },
            KeyCode::Down | KeyCode::Char('j') => {
                if self.confirm_scroll < max {
                    self.confirm_scroll = self.confirm_scroll + 1;
                }
            },
            KeyCode::PageUp => {
                self.confirm_scroll = if self.confirm_scroll > 10 {
                    self.confirm_scroll - 10
                } else {
                    0
                };
            },
            KeyCode::PageDown => {
                self.confirm_scroll = if self.confirm_scroll < max && max - self.confirm_scroll
                    > 10 {
                    self.confirm_scroll + 10
                } else {
                    max
                };
            },
            KeyCode::Home => {
                self.confirm_scroll = 0;
            },
            KeyCode::End => {
                self.confirm_scroll = max;
            },
            _ => {},
        }
    }

    /// Reads the whole file with the current settings for the review.
    fn build_confirm_summary(&mut self)
        ensures
            final(self)@ == (ImportState {
                confirm_summary: old(self)@.summarized(),
                ..old(self)@
            }),
    {
        let summary: Option<ConfirmSummary> = match (
            &self.raw_content,
            self.date_column,
            self.description_column,
            self.amount_column,
        ) {
            (Some(content), Some(d), Some(x), Some(a)) => Some(
                summarize(
                    content.as_str(),
                    self.skip_lines,
                    self.has_header,
                    self.delimiter,
                    d,
                    x,
                    a,
                ),
            ),
            _ => None,
        };
        self.confirm_summary = summary;
    }

    /// Takes the files of a directory whose names continue what was typed,
    /// sorted by name.
    pub fn set_suggestions(&mut self, prefix: &str, entries: Vec<Suggestion>)
        ensures
            is_listing(prefix@, entries@, final(self).file_suggestions@),
            final(self)@ == (ImportState {
                file_suggestions: final(self).file_suggestions@,
                ..old(self)@
            }),
    {
        self.file_suggestions = list_suggestions(prefix, &entries);
    }

    /// Takes what came of reading the chosen file.
    pub fn file_loaded(&mut self, outcome: FileOutcome)
        requires
            old(self)@.wf(),
            old(self).step is SelectFile,
        ensures
            final(self)@ == old(self)@.loaded(outcome),
            final(self)@.wf(),
    {
        match outcome {
            FileOutcome::NotFound => {
                self.error_message = Some(text::owned("File not found"));
            },
            FileOutcome::NotAFile => {
                self.error_message = Some(text::owned("Not a file"));
            },
            FileOutcome::Unreadable(e) => {
                self.error_message = Some(text::cat2("Failed to read file: ", e.as_str()));
            },
            FileOutcome::Content(content) => {
                self.delimiter = guess_delimiter(content.as_str());
                self.raw_content = Some(content);
                self.skip_lines = 0;
                self.has_header = true;
                self.active_parse_field = ParseField::SkipLines;
                self.recompute_preview();
                if self.error_message.is_some() {
                    return ;
                }
                self.step = ImportStep::Parsing;
            },
        }
    }

    /// Reads the kept file again with the current options.
    fn recompute_preview(&mut self)
        requires
            old(self)@.wf(),
            old(self).step is SelectFile || old(self).step is Parsing,
        ensures
            final(self)@ == old(self)@.recomputed(),
            final(self)@.wf(),
    {
        let made: Option<Result<CsvPreview, String>> = match &self.raw_content {
            Some(content) => Some(
                make_preview(content.as_str(), self.skip_lines, self.has_header, self.delimiter),
            ),
            None => None,
        };
        match made {
            None => {},
            Some(Err(message)) => {
                self.preview = None;
                self.error_message = Some(message);
            },
            Some(Ok(preview)) => {
                self.date_column = detect_column(&preview.headers, ColumnField::Date);
                self.description_column = detect_column(
                    &preview.headers,
                    ColumnField::Description,
                );
                self.amount_column = detect_column(&preview.headers, ColumnField::Amount);
                self.preview = Some(preview);
                self.error_message = None;
            },
        }
    }

    fn handle_parsing_key(&mut self, key: KeyCode)
        requires
            old(self)@.wf(),
            old(self).step is Parsing,
        ensures
            final(self)@ == old(self)@.after_parsing_key(key),
            final(self)@.wf(),
    {
        match key {
            KeyCode::Esc => {
                self.step = ImportStep::SelectFile;
                self.error_message = None;
            },
            KeyCode::Enter => {
                if self.preview.is_some() {
                    self.step = ImportStep::SelectAccount;
                    self.account_state = self.account_state.moved(Some(0));
                    self.error_message = None;
                }
            },
            KeyCode::Tab | KeyCode::Down => {
                self.active_parse_field = self.active_parse_field.next();
            },
            KeyCode::BackTab | KeyCode::Up => {
                self.active_parse_field = self.active_parse_field.prev();
            },
            KeyCode::Left => {
                match self.active_parse_field {
                    ParseField::SkipLines => {
                        self.skip_lines = self.skip_lines.saturating_sub(1);
                    },
                    ParseField::HasHeader => {
                        self.has_header = !self.has_header;
                    },
                    ParseField::Delimiter => {
                        self.cycle_delimiter(false);
                    },
                }
                self.recompute_preview();
            },
            KeyCode::Right => {
                match self.active_parse_field {
                    ParseField::SkipLines => {
                        self.skip_lines = self.skip_lines.saturating_add(1);
                    },
                    ParseField::HasHeader => {
                        self.has_header = !self.has_header;
                    },
                    ParseField::Delimiter => {
                        self.cycle_delimiter(true);
                    },
                }
                self.recompute_preview();
            },
            KeyCode::Backspace => {
                if self.active_parse_field == ParseField::SkipLines {
                    self.skip_lines = self.skip_lines / 10;
                    self.recompute_preview();
                }
            },
            KeyCode::Char(c) => {
                if input::ascii_digit(c) && self.active_parse_field == ParseField::SkipLines {
                    let digit: usize = input::value_of_digit(c) as usize;
                    if self.skip_lines < 1_000_000 {
                        self.skip_lines = self.skip_lines * 10 + digit;
                        self.recompute_preview();
                    }
                }
            },
            _ => {},
        }
    }

    /// Goes to the next offered delimiter, or to the previous one.
    fn cycle_delimiter(&mut self, forward: bool)
        ensures
            final(self)@ == (ImportState {
                delimiter: if forward {
                    delimiter_after(old(self).delimiter)
                } else {
                    delimiter_before(old(self).delimiter)
                },
                ..old(self)@
            }),
    {
        let d: char = self.delimiter;
        self.delimiter = if forward {
            if d == '\t' {
                ';'
            } else if d == ';' {
                '|'
            } else if d == '|' {
                ','
            } else {
                '\t'
            }
        } else {
            if d == '\t' {
                ','
            } else if d == ';' {
                '\t'
            } else if d == '|' {
                ';'
            } else {
                '|'
            }
        };
    }

    /// The settings of the import, once it is confirmed.
    pub fn get_import_config(&self) -> (r: Option<ImportConfig>)
        ensures
            r is Some <==> self.ready_to_import && self.date_column is Some
                && self.description_column is Some && self.amount_column is Some,
            r is Some ==> r->0 == (ImportConfig {
                file_path: self.file_path,
                date_column: self.date_column->0,
                description_column: self.description_column->0,
                amount_column: self.amount_column->0,
                target_account_id: self.target_account_id,
                skip_lines: self.skip_lines,
                has_header: self.has_header,
                delimiter: self.delimiter,
            }),
    {
        if !self.ready_to_import {
            return None;
        }
        match (self.date_column, self.description_column, self.amount_column) {
            (Some(date_column), Some(description_column), Some(amount_column)) => Some(
                ImportConfig {
                    file_path: self.file_path.clone(),
                    date_column,
                    description_column,
                    amount_column,
                    target_account_id: text::clone_opt(&self.target_account_id),
                    skip_lines: self.skip_lines,
                    has_header: self.has_header,
                    delimiter: self.delimiter,
                },
            ),
            _ => None,
        }
    }
}

impl Default for CsvImportModal {
    fn default() -> (r: Self)
        ensures
            r@ == fresh(false, Seq::empty()),
    {
        Self::new()
    }
}

/// Whether an entry's name continues a prefix, in any case.
pub open spec fn continues(entry: Suggestion, prefix: Seq<char>) -> bool {
    text::begins_with(text::lowercase(entry.name@), text::lowercase(prefix))
}

/// The positions of the entries that continue a prefix.
pub open spec fn continuing(entries: Seq<Suggestion>, prefix: Seq<char>) -> Seq<usize> {
    lists::positions(entries.len(), |i: int| continues(entries[i], prefix))
}

/// The names of the entries that continue a prefix.
pub open spec fn continuing_names(entries: Seq<Suggestion>, prefix: Seq<char>) -> Seq<
    lists::SortValue,
> {
    continuing(entries, prefix).map_values(
        |i: usize| lists::SortValue::Words(entries[i as int].name@),
    )
}

/// Whether a list holds exactly the entries that continue a prefix, sorted by
/// name.
pub open spec fn is_listing(
    prefix: Seq<char>,
    entries: Seq<Suggestion>,
    listed: Seq<Suggestion>,
) -> bool {
    let at = continuing(entries, prefix);
    listed == lists::order_of(continuing_names(entries, prefix), false).map_values(
        |k: usize| entries[at[k as int] as int],
    )
}

/// The entries that continue a prefix, sorted by name.
pub fn list_suggestions(prefix: &str, entries: &Vec<Suggestion>) -> (r: Vec<Suggestion>)
    ensures
        is_listing(prefix@, entries@, r@),
{
    let lower = prefix.to_lowercase();
    let mut at: Vec<usize> = Vec::new();
    let mut keys: Vec<SortKey> = Vec::new();
    let mut i: usize = 0;
    let ghost p = |i: int| continues(entries@[i], prefix@);
    while i < entries.len()
        invariant
            i <= entries@.len(),
            lower@ == text::lowercase(prefix@),
            p == (|i: int| continues(entries@[i], prefix@)),
            at@ == lists::positions(i as nat, p),
            keys@.len() == at@.len(),
            forall|k: int| 0 <= k < at@.len() ==> (#[trigger] at@[k]) < i,
            forall|k: int|
                0 <= k < keys@.len() ==> (#[trigger] keys@[k])@ == lists::SortValue::Words(
                    entries@[at@[k] as int].name@,
                ),
        decreases entries@.len() - i,
    {
        let name = entries[i].name.as_str().to_lowercase();
        let fits: bool = text::starts_with(name.as_str(), lower.as_str());
        assert(fits == p(i as int));
        if fits {
            at.push(i);
            keys.push(SortKey::Words(entries[i].name.clone()));
        }
        i = i + 1;
    }
    assert(lists::sort_values(keys@) =~= continuing_names(entries@, prefix@));
    let order = lists::stable_order(&keys, false);
    let mut out: Vec<Suggestion> = Vec::new();
    let mut k: usize = 0;
    while k < order.len()
        invariant
            k <= order@.len(),
            order@.len() == at@.len(),
            forall|j: int| 0 <= j < order@.len() ==> (#[trigger] order@[j]) < at@.len(),
            forall|j: int| 0 <= j < at@.len() ==> (#[trigger] at@[j]) < entries@.len(),
            out@.len() == k,
            forall|j: int|
                0 <= j < k ==> #[trigger] out@[j] == entries@[at@[order@[j] as int] as int],
        decreases order@.len() - k,
    {
        out.push(entries[at[order[k]]].duplicate());
        k = k + 1;
    }
    assert(out@ =~= order@.map_values(|k: usize| entries@[at@[k as int] as int]));
    out
}

/// Where to look for files that continue a path, and how their names start: a
/// directory is listed whole, anything else by its last part.
pub fn listing_request(
    path: &str,
    is_dir: bool,
    parent: &Option<String>,
    file_name: &Option<String>,
) -> (r: (String, String))
    ensures
        is_dir ==> r.0@ == path@ && r.1@ == Seq::<char>::empty(),
        !is_dir ==> r.0@ == text::text_or(*parent, "."@) && r.1@ == text::text_or_empty(
            *file_name,
        ),
{
    if is_dir {
        (text::owned(path), String::new())
    } else {
        (text::or_text(parent, "."), text::or_empty(file_name))
    }
}

/// A path with a leading `~` replaced by the home directory, if it is known;
/// what is absolute after that stands for itself.
pub open spec fn expanded(path: Seq<char>, home: Option<Seq<char>>) -> Seq<char> {
    match home {
        None => path,
        Some(h) => if text::begins_with(path, "~/"@) {
            if path.len() > 2 && path[2] == '/' {
                path.skip(2)
            } else {
                with_slash(h) + path.skip(2)
            }
        } else if path == "~"@ {
            h
        } else {
            path
        },
    }
}

/// Replaces a leading `~` by the home directory.
pub fn expand_tilde(path: &str, home: &Option<String>) -> (r: String)
    ensures
        r@ == expanded(path@, text::opt_text(*home)),
{
    proof {
        reveal_strlit("~/");
    }
    match home {
        None => text::owned(path),
        Some(h) => match text::strip_prefix(path, "~/") {
            Some(rest) => {
                if text::starts_with(rest.as_str(), "/") {
                    proof {
                        reveal_strlit("/");
                        assert(rest@.subrange(0, 1)[0] == rest@[0]);
                    }
                    return rest;
                }
                proof {
                    reveal_strlit("/");
                    if path@.len() > 2 && path@[2] == '/' {
                        assert(rest@.subrange(0, 1) =~= "/"@);
                    }
                }
                let mut out = h.clone();
                if !text::ends_in(out.as_str(), '/') {
                    out.push('/');
                }
                out.append(rest.as_str());
                out
            },
            None => if text::same_text(path, "~") {
                h.clone()
            } else {
                text::owned(path)
            },
        },
    }
}

} // verus!
