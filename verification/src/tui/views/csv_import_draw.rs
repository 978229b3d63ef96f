//! What the import modal shows at each step.

use vstd::prelude::*;

use crate::date::Date;
use crate::lists;
use crate::money;
use crate::text;
use crate::tui::paint;
use crate::tui::paint::{Line, LineView, Listing, Page, Row, RowView};
use crate::tui::theme;
use crate::tui::theme::{Style, Theme};
use crate::tui::views::csv_import;
use crate::tui::views::csv_import::{
    ColumnField, ConfirmSummary, CsvImportModal, CsvPreview, ImportStep, ParseField, Preview,
    RowData, Summary,
};

verus! {

/// The file selection step.
pub struct FileSelectPainting {
    pub target: String,
    pub input: String,
    pub suggestions: Listing<String>,
    pub help: Line,
}

/// The parse options step.
pub struct ParsingPainting {
    pub options: Page,
    pub preview: Page,
    pub help: Line,
}

/// The account selection step.
pub struct AccountSelectPainting {
    pub filter: String,
    pub accounts: Listing<String>,
    pub help: Line,
}

/// The column mapping step; without a preview only the last line is shown.
pub struct MapColumnsPainting {
    pub columns: Page,
    pub mapping: Page,
    pub sample: Page,
    pub help: Line,
}

/// The table of the review step.
pub enum ConfirmTable {
    /// There is no summary.
    Absent,
    /// No line could be read.
    Empty(Line),
    /// A window of the lines that will be imported, and its title.
    Rows(Listing<Row>, String),
}

/// The review step.
pub struct ConfirmPainting {
    pub header: Page,
    pub stats: Page,
    pub table: ConfirmTable,
    pub help: Line,
}

/// An error message in place of a help line.
pub open spec fn error_line(message: Seq<char>, theme: &Theme) -> LineView {
    seq![(message, theme::colored(theme.error))]
}

pub open spec fn suggestion_label(name: Seq<char>, is_dir: bool) -> Seq<char> {
    if is_dir {
        name + "/"@
    } else {
        name
    }
}

pub open spec fn file_help(theme: &Theme) -> LineView {
    let h = theme.header;
    let a = paint::hint(Seq::empty(), "Tab"@, ": autocomplete  "@, h);
    let b = paint::hint(a, "↑↓"@, ": select  "@, h);
    let c = paint::hint(b, "Enter"@, ": open  "@, h);
    paint::hint(c, "Esc"@, ": cancel"@, h)
}

pub open spec fn parsing_help(theme: &Theme) -> LineView {
    let h = theme.header;
    let a = paint::hint(Seq::empty(), "Tab/↑↓"@, ": switch field  "@, h);
    let b = paint::hint(a, "←→"@, ": adjust  "@, h);
    let c = paint::hint(b, "Enter"@, ": continue  "@, h);
    paint::hint(c, "Esc"@, ": back"@, h)
}

pub open spec fn account_help(theme: &Theme) -> LineView {
    let h = theme.header;
    let a = paint::hint(Seq::empty(), "↑↓"@, ": select  "@, h);
    let b = paint::hint(a, "Enter"@, ": confirm  "@, h);
    let c = paint::hint(b, "Type"@, ": filter  "@, h);
    paint::hint(c, "Esc"@, ": back"@, h)
}

pub open spec fn columns_help(theme: &Theme) -> LineView {
    let h = theme.header;
    let a = paint::hint(Seq::empty(), "↑↓/Tab"@, ": select field  "@, h);
    let b = paint::hint(a, "←→/1-9"@, ": choose column  "@, h);
    let c = paint::hint(b, "Enter"@, ": continue  "@, h);
    paint::hint(c, "Esc"@, ": back"@, h)
}

/// The arrow before the active line of a form.
pub open spec fn marker(active: bool) -> Seq<char> {
    if active {
        "► "@
    } else {
        "  "@
    }
}

pub fn marker_text(active: bool) -> (r: &'static str)
    ensures
        r@ == marker(active),
{
    if active {
        "► "
    } else {
        "  "
    }
}

/// The style of a line of a form.
pub open spec fn option_style(active: bool, theme: &Theme) -> Style {
    if active {
        theme::bold_colored(theme.accent)
    } else {
        Style::plain()
    }
}

pub fn style_of_option(active: bool, theme: &Theme) -> (r: Style)
    ensures
        r == option_style(active, theme),
{
    if active {
        theme::bold_colored(theme.accent)
    } else {
        Style::plain()
    }
}

/// The name of a delimiter in the options.
pub open spec fn delimiter_name(d: char) -> Seq<char> {
    if d == ',' {
        "Comma  ,"@
    } else if d == '\t' {
        "Tab    ⇥"@
    } else if d == ';' {
        "Semicolon ;"@
    } else if d == '|' {
        "Pipe   |"@
    } else {
        "?"@
    }
}

pub fn delimiter_label(d: char) -> (r: &'static str)
    ensures
        r@ == delimiter_name(d),
{
    if d == ',' {
        "Comma  ,"
    } else if d == '\t' {
        "Tab    ⇥"
    } else if d == ';' {
        "Semicolon ;"
    } else if d == '|' {
        "Pipe   |"
    } else {
        "?"
    }
}

/// The short name of a delimiter in the review.
pub open spec fn delimiter_short(d: char) -> Seq<char> {
    if d == ',' {
        ","@
    } else if d == '\t' {
        "\\t"@
    } else if d == ';' {
        ";"@
    } else if d == '|' {
        "|"@
    } else {
        "?"@
    }
}

pub fn delimiter_label_short(d: char) -> (r: &'static str)
    ensures
        r@ == delimiter_short(d),
{
    if d == ',' {
        ","
    } else if d == '\t' {
        "\\t"
    } else if d == ';' {
        ";"
    } else if d == '|' {
        "|"
    } else {
        "?"
    }
}

/// Cents with a dollar sign, the minus sign first.
pub open spec fn amount_text(cents: int) -> Seq<char> {
    if cents < 0 {
        "-$"@ + money::dollars(text::magnitude(cents))
    } else {
        "$"@ + money::dollars(text::magnitude(cents))
    }
}

pub fn format_amount(cents: i64) -> (r: String)
    ensures
        r@ == amount_text(cents as int),
{
    let amount = money::dollar_text(text::abs_of(cents));
    if cents < 0 {
        text::cat2("-$", amount.as_str())
    } else {
        text::cat2("$", amount.as_str())
    }
}

/// The three option lines.
pub open spec fn option_lines(
    active: ParseField,
    skip_lines: int,
    has_header: bool,
    delimiter: char,
    theme: &Theme,
) -> Seq<LineView> {
    let skip = active is SkipLines;
    let header = active is HasHeader;
    let delim = active is Delimiter;
    seq![
        seq![
            (
                marker(skip) + "Leading lines to skip?  [ "@ + text::decimal(skip_lines as nat)
                    + " ]"@,
                option_style(skip, theme),
            ),
        ],
        seq![
            (
                marker(header) + "Has header row?         [ "@ + (if has_header {
                    "Yes"@
                } else {
                    "No"@
                }) + " ]"@,
                option_style(header, theme),
            ),
        ],
        seq![
            (
                marker(delim) + "Delimiter:              [ "@ + delimiter_name(delimiter) + " ]"@,
                option_style(delim, theme),
            ),
        ],
    ]
}

/// The first `n` headers, numbered and separated.
pub open spec fn header_spans(headers: Seq<Seq<char>>, style: Style, n: nat) -> LineView
    decreases n,
{
    if n == 0 {
        Seq::empty()
    } else {
        let i = n - 1;
        let line = header_spans(headers, style, i as nat).push(
            (text::decimal(n) + ": "@ + headers[i], style),
        );
        if n < headers.len() {
            line.push(paint::raw_view("  |  "@))
        } else {
            line
        }
    }
}

/// The first `n` values of a row, separated.
pub open spec fn value_spans(values: Seq<Seq<char>>, n: nat) -> LineView
    decreases n,
{
    if n == 0 {
        Seq::empty()
    } else {
        let line = value_spans(values, (n - 1) as nat).push(paint::raw_view(values[n - 1]));
        if n < values.len() {
            line.push(paint::raw_view("  |  "@))
        } else {
            line
        }
    }
}

/// The style of the header line of the preview: made-up headers are faint.
pub open spec fn preview_header_style(has_header: bool, theme: &Theme) -> Style {
    if has_header {
        theme::bold_colored(theme.accent)
    } else {
        Style { fg: Some(theme.header), bg: None, bold: false, dim: true, italic: true }
    }
}

/// The preview pane: headers, a blank line, the sample rows.
pub open spec fn preview_lines(preview: Option<Preview>, has_header: bool, theme: &Theme) -> Seq<
    LineView,
> {
    match preview {
        Some(p) => seq![
            header_spans(p.headers, preview_header_style(has_header, theme), p.headers.len()),
            paint::blank_view(),
        ] + p.rows.map_values(|row: Seq<Seq<char>>| value_spans(row, row.len())),
        None => seq![error_line("(no preview available)"@, theme)],
    }
}

fn paint_headers(headers: &Vec<String>, style: Style) -> (r: Line)
    ensures
        r@ == header_spans(text::texts(headers@), style, headers@.len()),
{
    let mut line: Line = Listing::new();
    let mut i: usize = 0;
    let ghost all = text::texts(headers@);
    while i < headers.len()
        invariant
            i <= headers@.len(),
            all == text::texts(headers@),
            line@ == header_spans(all, style, i as nat),
        decreases headers@.len() - i,
    {
        let number = text::count(i + 1);
        assert(all[i as int] == headers@[i as int]@);
        line.push(
            paint::styled_owned(
                text::cat3(number.as_str(), ": ", headers[i].as_str()),
                style,
            ),
        );
        if i + 1 < headers.len() {
            line.push(paint::raw("  |  "));
        }
        i = i + 1;
    }
    line
}

fn paint_values(values: &Vec<String>) -> (r: Line)
    ensures
        r@ == value_spans(text::texts(values@), values@.len()),
{
    let mut line: Line = Listing::new();
    let mut i: usize = 0;
    let ghost all = text::texts(values@);
    while i < values.len()
        invariant
            i <= values@.len(),
            all == text::texts(values@),
            line@ == value_spans(all, i as nat),
        decreases values@.len() - i,
    {
        assert(all[i as int] == values@[i as int]@);
        line.push(paint::raw(values[i].as_str()));
        if i + 1 < values.len() {
            line.push(paint::raw("  |  "));
        }
        i = i + 1;
    }
    line
}

/// Which field a column is mapped to, as it is marked in the list of columns.
pub open spec fn column_mark(
    i: int,
    date: Option<usize>,
    description: Option<usize>,
    amount: Option<usize>,
) -> Seq<char> {
    if date == Some(i as usize) {
        " [Date]"@
    } else if description == Some(i as usize) {
        " [Desc]"@
    } else if amount == Some(i as usize) {
        " [Amt]"@
    } else {
        ""@
    }
}

pub fn mark_of_column(
    i: usize,
    date: Option<usize>,
    description: Option<usize>,
    amount: Option<usize>,
) -> (r: &'static str)
    ensures
        r@ == column_mark(i as int, date, description, amount),
{
    if is_at(date, i) {
        " [Date]"
    } else if is_at(description, i) {
        " [Desc]"
    } else if is_at(amount, i) {
        " [Amt]"
    } else {
        ""
    }
}

fn is_at(column: Option<usize>, i: usize) -> (r: bool)
    ensures
        r == (column == Some(i)),
{
    match column {
        Some(c) => c == i,
        None => false,
    }
}

/// The list of columns with their marks.
pub open spec fn column_lines(
    headers: Seq<Seq<char>>,
    date: Option<usize>,
    description: Option<usize>,
    amount: Option<usize>,
) -> Seq<LineView> {
    seq![seq![("CSV Columns:"@, theme::bold())], paint::blank_view()] + Seq::new(
        headers.len(),
        |i: int|
            seq![
                paint::raw_view(
                    "  "@ + text::decimal((i + 1) as nat) + ": "@ + headers[i] + column_mark(
                        i,
                        date,
                        description,
                        amount,
                    ),
                ),
            ],
    )
}

/// The header of a mapped column.
pub open spec fn mapped_name(headers: Seq<Seq<char>>, column: Option<usize>) -> Seq<char> {
    match column {
        Some(i) => if i < headers.len() {
            headers[i as int]
        } else {
            "(not set)"@
        },
        None => "(not set)"@,
    }
}

/// One line of the mapping form.
pub open spec fn mapping_line(
    field: ColumnField,
    active: ColumnField,
    name: Seq<char>,
    theme: &Theme,
) -> LineView {
    seq![
        (
            marker(field == active) + field.title() + ": "@ + name,
            option_style(field == active, theme),
        ),
    ]
}

pub open spec fn mapping_lines(
    headers: Seq<Seq<char>>,
    active: ColumnField,
    date: Option<usize>,
    description: Option<usize>,
    amount: Option<usize>,
    theme: &Theme,
) -> Seq<LineView> {
    seq![
        seq![("Map columns (use number keys or ←→):"@, theme::bold())],
        paint::blank_view(),
        mapping_line(ColumnField::Date, active, mapped_name(headers, date), theme),
        mapping_line(ColumnField::Description, active, mapped_name(headers, description), theme),
        mapping_line(ColumnField::Amount, active, mapped_name(headers, amount), theme),
    ]
}

/// The value of a sample row in a column.
pub open spec fn sample_value(row: Seq<Seq<char>>, column: usize) -> Seq<char> {
    if column < row.len() {
        row[column as int]
    } else {
        "N/A"@
    }
}

/// One more line of sample data, if the column is chosen.
pub open spec fn with_sample(
    lines: Seq<LineView>,
    label: Seq<char>,
    row: Seq<Seq<char>>,
    column: Option<usize>,
) -> Seq<LineView> {
    match column {
        Some(i) => lines.push(seq![paint::raw_view(label + sample_value(row, i))]),
        None => lines,
    }
}

/// The sample row under the chosen columns; nothing without a row.
pub open spec fn sample_lines(
    rows: Seq<Seq<Seq<char>>>,
    date: Option<usize>,
    description: Option<usize>,
    amount: Option<usize>,
) -> Seq<LineView> {
    if rows.len() == 0 {
        Seq::empty()
    } else {
        let start: Seq<LineView> = seq![seq![("Sample row:"@, theme::bold())]];
        let a = with_sample(start, "  Date: "@, rows[0], date);
        let b = with_sample(a, "  Description: "@, rows[0], description);
        with_sample(b, "  Amount: "@, rows[0], amount)
    }
}

pub fn push_sample(page: &mut Page, label: &str, row: &Vec<String>, column: Option<usize>)
    ensures
        final(page)@ == with_sample(old(page)@, label@, text::texts(row@), column),
{
    if let Some(i) = column {
        let value = if i < row.len() {
            row[i].clone()
        } else {
            text::owned("N/A")
        };
        page.push(paint::raw_line(text::cat2(label, value.as_str())));
    }
}

fn name_of_column(headers: &Vec<String>, column: Option<usize>, missing: &str) -> (r: String)
    ensures
        r@ == (match column {
            Some(i) => if i < headers@.len() {
                headers@[i as int]@
            } else {
                missing@
            },
            None => missing@,
        }),
{
    match column {
        Some(i) => if i < headers.len() {
            headers[i].clone()
        } else {
            text::owned(missing)
        },
        None => text::owned(missing),
    }
}

fn paint_mapping_line(field: ColumnField, active: ColumnField, name: &str, theme: &Theme) -> (r:
    Line)
    ensures
        r@ == mapping_line(field, active, name@, theme),
{
    let is_active: bool = field == active;
    paint::styled_owned_line(
        text::cat4(marker_text(is_active), field.label(), ": ", name),
        style_of_option(is_active, theme),
    )
}

/// The header of a column in the review, or a question mark.
pub open spec fn review_name(preview: Option<Preview>, column: Option<usize>) -> Seq<char> {
    match (preview, column) {
        (Some(p), Some(i)) => if i < p.headers.len() {
            p.headers[i as int]
        } else {
            "?"@
        },
        _ => "?"@,
    }
}

fn review_column(preview: &Option<CsvPreview>, column: Option<usize>) -> (r: String)
    ensures
        r@ == review_name(
            match *preview {
                Some(p) => Some(p@),
                None => None,
            },
            column,
        ),
{
    match preview {
        Some(p) => name_of_column(&p.headers, column, "?"),
        None => text::owned("?"),
    }
}

/// How many lines of a summary are left out.
pub open spec fn left_out(s: Summary) -> int {
    s.invalid_date + s.invalid_amount + s.zero_amount
}

/// The statistics of a summary.
pub open spec fn stats_lines(summary: Option<Summary>, theme: &Theme) -> Seq<LineView> {
    match summary {
        None => seq![error_line("(no preview available)"@, theme)],
        Some(s) => {
            let skipped = left_out(s);
            seq![
                seq![
                    (
                        text::decimal(s.parsed.len()) + " entries will be imported"@,
                        theme::bold_colored(theme.success),
                    ),
                    paint::raw_view("  •  "@),
                    (
                        text::decimal(skipped as nat) + " skipped"@,
                        if skipped > 0 {
                            theme::colored(theme.error)
                        } else {
                            theme::colored(theme.fg_dim)
                        },
                    ),
                    paint::raw_view(
                        if skipped > 0 {
                            " ("@ + text::decimal(s.invalid_date as nat) + " bad date, "@
                                + text::decimal(s.invalid_amount as nat) + " bad amount, "@
                                + text::decimal(s.zero_amount as nat) + " zero)"@
                        } else {
                            Seq::empty()
                        },
                    ),
                ],
                seq![
                    ("Date range: "@, theme::colored(theme.header)),
                    paint::raw_view(date_range(s.min_date, s.max_date)),
                ],
                seq![
                    ("Totals:     "@, theme::colored(theme.header)),
                    ("+"@ + amount_text(s.total_positive), theme::colored(theme.success)),
                    paint::raw_view("   "@),
                    (amount_text(s.total_negative), theme::colored(theme.error)),
                    paint::raw_view("   net "@),
                    paint::raw_view(
                        amount_text(money::wrap64(s.total_positive + s.total_negative)),
                    ),
                ],
            ]
        },
    }
}

/// The review tells how many entries a file gives and how many of its lines
/// that are not blank are left out, from when to when the entries are, and what
/// comes in, what goes out, and the sum of both.
pub proof fn reviews_add_up(lines: Seq<Seq<char>>, m: csv_import::Mapping, theme: &Theme)
    ensures
        ({
            let s = csv_import::summary_of(lines, m);
            let told = stats_lines(Some(s), theme);
            &&& told.len() == 3
            &&& told[0][0].0 == text::decimal(s.parsed.len()) + " entries will be imported"@
            &&& told[0][2].0 == text::decimal((s.total_rows - s.parsed.len()) as nat)
                + " skipped"@
            &&& s.total_rows > s.parsed.len() ==> told[0][3].0 == " ("@ + text::decimal(
                s.invalid_date as nat,
            ) + " bad date, "@ + text::decimal(s.invalid_amount as nat) + " bad amount, "@
                + text::decimal(s.zero_amount as nat) + " zero)"@
            &&& s.parsed.len() > 0 ==> told[1][1].0 == s.min_date->0.iso() + " → "@
                + s.max_date->0.iso()
            &&& told[2][1].0 == "+"@ + amount_text(s.total_positive)
            &&& told[2][3].0 == amount_text(s.total_negative)
            &&& told[2][5].0 == amount_text(
                money::wrap64(
                    lists::sum_at(s.parsed.len(), |i: int| s.parsed[i].amount),
                ),
            )
        }),
{
    let s = csv_import::summary_of(lines, m);
    let rows = s.parsed;
    csv_import::every_line_is_accounted_for(lines, m);
    csv_import::date_range_is_met(lines, m);
    csv_import::totals_split_by_sign(lines, m);
    let up = |i: int|
        if rows[i].amount > 0 {
            rows[i].amount
        } else {
            0
        };
    let down = |i: int|
        if rows[i].amount < 0 {
            rows[i].amount
        } else {
            0
        };
    let all = |i: int| rows[i].amount;
    signs_make_the_whole(rows.len(), up, down, all);
    let a = lists::sum_at(rows.len(), up);
    let b = lists::sum_at(rows.len(), down);
    assert(s.total_positive == money::wrap64(a));
    assert(s.total_negative == money::wrap64(b));
    money::wrapping_is_uniform(a, money::wrap64(b));
    money::wrapping_is_uniform(b, a);
}

proof fn signs_make_the_whole(
    n: nat,
    up: spec_fn(int) -> int,
    down: spec_fn(int) -> int,
    all: spec_fn(int) -> int,
)
    requires
        forall|i: int| 0 <= i < n ==> #[trigger] all(i) == up(i) + down(i),
    ensures
        lists::sum_at(n, all) == lists::sum_at(n, up) + lists::sum_at(n, down),
    decreases n,
{
    if n > 0 {
        signs_make_the_whole((n - 1) as nat, up, down, all);
        assert(all(n - 1) == up(n - 1) + down(n - 1));
    }
}

/// The range of dates of a summary.
pub open spec fn date_range(min: Option<Date>, max: Option<Date>) -> Seq<char> {
    match (min, max) {
        (Some(a), Some(b)) => a.iso() + " → "@ + b.iso(),
        _ => "(none)"@,
    }
}

/// How many rows fit into a table of the given height.
pub open spec fn rows_shown(table_height: u16) -> int {
    if table_height > 5 {
        table_height - 4
    } else {
        1
    }
}

/// The first row shown and the one after the last, of `len` rows.
pub open spec fn shown_window(scroll: int, table_height: u16, len: int) -> (int, int) {
    let start = if scroll < len - 1 {
        scroll
    } else {
        len - 1
    };
    let end = start + rows_shown(table_height);
    (start, if end < len {
        end
    } else {
        len
    })
}

/// One row of the review.
pub open spec fn review_row(row: RowData, theme: &Theme) -> RowView {
    RowView {
        cells: seq![
            paint::raw_view(row.date.iso()),
            paint::raw_view(row.description),
            (
                amount_text(row.amount),
                if row.amount >= 0 {
                    theme::colored(theme.success)
                } else {
                    theme::colored(theme.error)
                },
            ),
        ],
        style: Style::plain(),
    }
}

/// A row of the review shows the day, the description and the amount of its
/// entry in this order.
pub proof fn review_rows_show_their_entry(row: RowData, theme: &Theme)
    ensures
        review_row(row, theme).cells.len() == 3,
        review_row(row, theme).cells[0].0 == row.date.iso(),
        review_row(row, theme).cells[1].0 == row.description,
        review_row(row, theme).cells[2].0 == amount_text(row.amount),
{
}

/// The title of the review table.
pub open spec fn review_title(scroll: int, table_height: u16, len: int) -> Seq<char> {
    let (start, end) = shown_window(scroll, table_height, len);
    if len > rows_shown(table_height) {
        " Preview ("@ + text::decimal((start + 1) as nat) + "–"@ + text::decimal(end as nat)
            + " of "@ + text::decimal(len as nat) + ") "@
    } else {
        " Preview ("@ + text::decimal(len as nat) + " rows) "@
    }
}

/// The window stays inside the rows and shows at least one.
pub proof fn window_is_within(scroll: int, table_height: u16, len: int)
    requires
        scroll >= 0,
        len > 0,
    ensures
        ({
            let (start, end) = shown_window(scroll, table_height, len);
            0 <= start < end <= len && end - start <= rows_shown(table_height)
        }),
{
}

pub open spec fn confirm_help(can_import: bool, theme: &Theme) -> LineView {
    if can_import {
        seq![
            ("Y/Enter"@, theme::bold_colored(theme.success)),
            paint::raw_view(": import  "@),
            ("N/Esc"@, theme::bold_colored(theme.error)),
            paint::raw_view(": back  "@),
            ("↑↓/PgUp/PgDn"@, theme::colored(theme.header)),
            paint::raw_view(": scroll preview"@),
        ]
    } else {
        seq![
            ("N/Esc"@, theme::bold_colored(theme.error)),
            paint::raw_view(": go back and fix mapping/parse options"@),
        ]
    }
}

impl CsvImportModal {
    /// Which step is drawn, if the modal is open.
    pub fn draw(&self) -> (r: Option<ImportStep>)
        ensures
            r == (if self.visible {
                Some(self.step)
            } else {
                None
            }),
    {
        if self.visible {
            Some(self.step)
        } else {
            None
        }
    }

    pub fn draw_file_select(&self, theme: &Theme) -> (r: FileSelectPainting)
        ensures
            r.target@ == (match self.target_account_name {
                Some(name) => "Import transactions to: "@ + name@,
                None => "Import transactions (select target account first)"@,
            }),
            r.input@ == self.file_path@ + "▏"@,
            r.suggestions@ == Seq::new(
                self.file_suggestions@.len(),
                |i: int|
                    suggestion_label(
                        self.file_suggestions@[i].name@,
                        self.file_suggestions@[i].is_dir,
                    ),
            ),
            r.help@ == (match self.error_message {
                Some(e) => error_line(e@, theme),
                None => file_help(theme),
            }),
    {
        let target = match &self.target_account_name {
            Some(name) => text::cat2("Import transactions to: ", name.as_str()),
            None => text::owned("Import transactions (select target account first)"),
        };
        let mut suggestions: Listing<String> = Listing::new();
        let mut i: usize = 0;
        while i < self.file_suggestions.len()
            invariant
                i <= self.file_suggestions@.len(),
                suggestions@ =~= Seq::new(
                    i as nat,
                    |i: int|
                        suggestion_label(
                            self.file_suggestions@[i].name@,
                            self.file_suggestions@[i].is_dir,
                        ),
                ),
            decreases self.file_suggestions@.len() - i,
        {
            let entry = &self.file_suggestions[i];
            let label = if entry.is_dir {
                text::cat2(entry.name.as_str(), "/")
            } else {
                entry.name.clone()
            };
            suggestions.push(label);
            i = i + 1;
        }
        let help = match &self.error_message {
            Some(e) => paint::styled_line(e.as_str(), theme::colored(theme.error)),
            None => {
                let mut line: Line = Listing::new();
                paint::push_hint(&mut line, "Tab", ": autocomplete  ", theme.header);
                paint::push_hint(&mut line, "↑↓", ": select  ", theme.header);
                paint::push_hint(&mut line, "Enter", ": open  ", theme.header);
                paint::push_hint(&mut line, "Esc", ": cancel", theme.header);
                line
            },
        };
        FileSelectPainting {
            target,
            input: text::cat2(self.file_path.as_str(), "▏"),
            suggestions,
            help,
        }
    }

    pub fn draw_parsing(&self, theme: &Theme) -> (r: ParsingPainting)
        ensures
            r.options@ == option_lines(
                self.active_parse_field,
                self.skip_lines as int,
                self.has_header,
                self.delimiter,
                theme,
            ),
            r.preview@ == preview_lines(self@.preview, self.has_header, theme),
            r.help@ == (match self.error_message {
                Some(e) => error_line(e@, theme),
                None => parsing_help(theme),
            }),
    {
        let skip: bool = self.active_parse_field == ParseField::SkipLines;
        let header: bool = self.active_parse_field == ParseField::HasHeader;
        let delim: bool = self.active_parse_field == ParseField::Delimiter;
        let number = text::count(self.skip_lines);
        let mut options: Page = Listing::new();
        options.push(
            paint::styled_owned_line(
                text::cat4(
                    marker_text(skip),
                    "Leading lines to skip?  [ ",
                    number.as_str(),
                    " ]",
                ),
                style_of_option(skip, theme),
            ),
        );
        options.push(
            paint::styled_owned_line(
                text::cat4(
                    marker_text(header),
                    "Has header row?         [ ",
                    if self.has_header {
                        "Yes"
                    } else {
                        "No"
                    },
                    " ]",
                ),
                style_of_option(header, theme),
            ),
        );
        options.push(
            paint::styled_owned_line(
                text::cat4(
                    marker_text(delim),
                    "Delimiter:              [ ",
                    delimiter_label(self.delimiter),
                    " ]",
                ),
                style_of_option(delim, theme),
            ),
        );
        let preview = self.paint_preview(theme);
        let help = match &self.error_message {
            Some(e) => paint::styled_line(e.as_str(), theme::colored(theme.error)),
            None => {
                let mut line: Line = Listing::new();
                paint::push_hint(&mut line, "Tab/↑↓", ": switch field  ", theme.header);
                paint::push_hint(&mut line, "←→", ": adjust  ", theme.header);
                paint::push_hint(&mut line, "Enter", ": continue  ", theme.header);
                paint::push_hint(&mut line, "Esc", ": back", theme.header);
                line
            },
        };
        ParsingPainting { options, preview, help }
    }

    fn paint_preview(&self, theme: &Theme) -> (r: Page)
        ensures
            r@ == preview_lines(self@.preview, self.has_header, theme),
    {
        let mut page: Page = Listing::new();
        match &self.preview {
            Some(p) => {
                let style = if self.has_header {
                    theme::bold_colored(theme.accent)
                } else {
                    Style { fg: Some(theme.header), bg: None, bold: false, dim: true, italic: true }
                };
                page.push(paint_headers(&p.headers, style));
                page.push(paint::blank());
                let ghost rows = p@.rows;
                let ghost start = page@;
                let mut i: usize = 0;
                assert(page@ =~= start + rows.take(0).map_values(
                    |row: Seq<Seq<char>>| value_spans(row, row.len()),
                ));
                while i < p.rows.len()
                    invariant
                        i <= p.rows@.len(),
                        rows == p@.rows,
                        page@ == start + rows.take(i as int).map_values(
                            |row: Seq<Seq<char>>| value_spans(row, row.len()),
                        ),
                    decreases p.rows@.len() - i,
                {
                    page.push(paint_values(&p.rows[i]));
                    i = i + 1;
                    assert(rows[i - 1] == text::texts(p.rows@[i - 1]@));
                    assert(page@ =~= start + rows.take(i as int).map_values(
                        |row: Seq<Seq<char>>| value_spans(row, row.len()),
                    ));
                }
                assert(rows.take(i as int) =~= rows);
            },
            None => {
                page.push(
                    paint::styled_line("(no preview available)", theme::colored(theme.error)),
                );
            },
        }
        page
    }

    pub fn draw_account_select(&self, theme: &Theme) -> (r: AccountSelectPainting)
        ensures
            r.filter@ == "Filter: "@ + self.account_filter@ + "▏"@,
            r.accounts@ == self@.filtered().map_values(
                |k: usize|
                    {
                        let a = self.available_accounts@[k as int];
                        a.account_number@ + " - "@ + a.name@ + " ("@ + a.account_type.title() + ")"@
                    },
            ),
            r.help@ == account_help(theme),
    {
        let filtered = self.filtered_accounts();
        let mut accounts: Listing<String> = Listing::new();
        let ghost label = |k: usize|
            {
                let a = self.available_accounts@[k as int];
                a.account_number@ + " - "@ + a.name@ + " ("@ + a.account_type.title() + ")"@
            };
        let mut i: usize = 0;
        while i < filtered.len()
            invariant
                i <= filtered@.len(),
                forall|k: int|
                    0 <= k < filtered@.len() ==> (#[trigger] filtered@[k])
                        < self.available_accounts@.len(),
                label == (|k: usize|
                    {
                        let a = self.available_accounts@[k as int];
                        a.account_number@ + " - "@ + a.name@ + " ("@ + a.account_type.title() + ")"@
                    }),
                accounts@ =~= filtered@.take(i as int).map_values(label),
            decreases filtered@.len() - i,
        {
            let a = &self.available_accounts[filtered[i]];
            let mut line = text::cat5(
                a.account_number.as_str(),
                " - ",
                a.name.as_str(),
                " (",
                a.account_type.label(),
            );
            line.append(")");
            accounts.push(line);
            i = i + 1;
        }
        assert(filtered@.take(i as int) =~= filtered@);
        let mut help: Line = Listing::new();
        paint::push_hint(&mut help, "↑↓", ": select  ", theme.header);
        paint::push_hint(&mut help, "Enter", ": confirm  ", theme.header);
        paint::push_hint(&mut help, "Type", ": filter  ", theme.header);
        paint::push_hint(&mut help, "Esc", ": back", theme.header);
        AccountSelectPainting {
            filter: text::cat3("Filter: ", self.account_filter.as_str(), "▏"),
            accounts,
            help,
        }
    }

    pub fn draw_map_columns(&self, theme: &Theme) -> (r: MapColumnsPainting)
        ensures
            r.columns@ == (match self@.preview {
                Some(p) => column_lines(
                    p.headers,
                    self.date_column,
                    self.description_column,
                    self.amount_column,
                ),
                None => Seq::empty(),
            }),
            r.mapping@ == (match self@.preview {
                Some(p) => mapping_lines(
                    p.headers,
                    self.active_field,
                    self.date_column,
                    self.description_column,
                    self.amount_column,
                    theme,
                ),
                None => Seq::empty(),
            }),
            r.sample@ == (match self@.preview {
                Some(p) => sample_lines(
                    p.rows,
                    self.date_column,
                    self.description_column,
                    self.amount_column,
                ),
                None => Seq::empty(),
            }),
            r.help@ == (match self.error_message {
                Some(e) => error_line(e@, theme),
                None => columns_help(theme),
            }),
    {
        let mut columns: Page = Listing::new();
        let mut mapping: Page = Listing::new();
        let mut sample: Page = Listing::new();
        if let Some(p) = &self.preview {
            let ghost headers = p@.headers;
            columns.push(paint::styled_line("CSV Columns:", theme::bold()));
            columns.push(paint::blank());
            let ghost want = column_lines(
                headers,
                self.date_column,
                self.description_column,
                self.amount_column,
            );
            let mut i: usize = 0;
            while i < p.headers.len()
                invariant
                    i <= p.headers@.len(),
                    headers == text::texts(p.headers@),
                    want == column_lines(
                        headers,
                        self.date_column,
                        self.description_column,
                        self.amount_column,
                    ),
                    columns@ =~= want.take(i + 2),
                decreases p.headers@.len() - i,
            {
                let number = text::count(i + 1);
                let mark = mark_of_column(
                    i,
                    self.date_column,
                    self.description_column,
                    self.amount_column,
                );
                let line = text::cat5("  ", number.as_str(), ": ", p.headers[i].as_str(), mark);
                assert(headers[i as int] == p.headers@[i as int]@);
                columns.push(paint::raw_line(line));
                i = i + 1;
                assert(columns@ =~= want.take(i + 2));
            }
            assert(want.take(i + 2) =~= want);
            mapping.push(
                paint::styled_line("Map columns (use number keys or ←→):", theme::bold()),
            );
            mapping.push(paint::blank());
            let d = name_of_column(&p.headers, self.date_column, "(not set)");
            let x = name_of_column(&p.headers, self.description_column, "(not set)");
            let a = name_of_column(&p.headers, self.amount_column, "(not set)");
            mapping.push(
                paint_mapping_line(ColumnField::Date, self.active_field, d.as_str(), theme),
            );
            mapping.push(
                paint_mapping_line(ColumnField::Description, self.active_field, x.as_str(), theme),
            );
            mapping.push(
                paint_mapping_line(ColumnField::Amount, self.active_field, a.as_str(), theme),
            );
            if p.rows.len() > 0 {
                assert(p@.rows[0] == text::texts(p.rows@[0]@));
                sample.push(paint::styled_line("Sample row:", theme::bold()));
                push_sample(&mut sample, "  Date: ", &p.rows[0], self.date_column);
                push_sample(&mut sample, "  Description: ", &p.rows[0], self.description_column);
                push_sample(&mut sample, "  Amount: ", &p.rows[0], self.amount_column);
            }
        }
        let help = match &self.error_message {
            Some(e) => paint::styled_line(e.as_str(), theme::colored(theme.error)),
            None => {
                let mut line: Line = Listing::new();
                paint::push_hint(&mut line, "↑↓/Tab", ": select field  ", theme.header);
                paint::push_hint(&mut line, "←→/1-9", ": choose column  ", theme.header);
                paint::push_hint(&mut line, "Enter", ": continue  ", theme.header);
                paint::push_hint(&mut line, "Esc", ": back", theme.header);
                line
            },
        };
        MapColumnsPainting { columns, mapping, sample, help }
    }

    /// The review, with a table of the given height.
    pub fn draw_confirm(&self, table_height: u16, theme: &Theme) -> (r: ConfirmPainting)
        requires
            self.confirm_summary is Some ==> left_out(self.confirm_summary->0@) <= usize::MAX,
        ensures
            r.header@ == seq![
                seq![
                    ("File:    "@, theme::colored(theme.header)),
                    paint::raw_view(self.file_path@),
                ],
                seq![
                    ("Target:  "@, theme::colored(theme.header)),
                    paint::raw_view(
                        text::text_or(self.target_account_name, "(no account selected)"@),
                    ),
                ],
                seq![
                    ("Columns: "@, theme::colored(theme.header)),
                    paint::raw_view(
                        "Date="@ + review_name(self@.preview, self.date_column)
                            + ", Description="@ + review_name(
                            self@.preview,
                            self.description_column,
                        ) + ", Amount="@ + review_name(self@.preview, self.amount_column),
                    ),
                ],
                seq![
                    ("Parse:   "@, theme::colored(theme.header)),
                    paint::raw_view(
                        "skip "@ + text::decimal(self.skip_lines as nat) + " line"@ + (
                        if self.skip_lines == 1 {
                            ""@
                        } else {
                            "s"@
                        }) + ", header="@ + (if self.has_header {
                            "yes"@
                        } else {
                            "no"@
                        }) + ", delimiter="@ + delimiter_short(self.delimiter),
                    ),
                ],
            ],
            r.stats@ == stats_lines(self@.confirm_summary, theme),
            match r.table {
                ConfirmTable::Absent => self.confirm_summary is None,
                ConfirmTable::Empty(line) => {
                    &&& self.confirm_summary is Some
                    &&& self@.confirm_summary->0.parsed.len() == 0
                    &&& line@ == error_line(
                        "No valid rows would be imported. Check column mapping and parse options."@,
                        theme,
                    )
                },
                ConfirmTable::Rows(rows, title) => {
                    &&& self.confirm_summary is Some
                    &&& self@.confirm_summary->0.parsed.len() > 0
                    &&& ({
                        let parsed = self@.confirm_summary->0.parsed;
                        let (start, end) = shown_window(
                            self.confirm_scroll as int,
                            table_height,
                            parsed.len() as int,
                        );
                        &&& rows@ == parsed.subrange(start, end).map_values(
                            |row: RowData| review_row(row, theme),
                        )
                        &&& title@ == review_title(
                            self.confirm_scroll as int,
                            table_height,
                            parsed.len() as int,
                        )
                    })
                },
            },
            r.help@ == confirm_help(
                self.confirm_summary is Some && self@.confirm_summary->0.parsed.len() > 0,
                theme,
            ),
    {
        let date_name = review_column(&self.preview, self.date_column);
        let description_name = review_column(&self.preview, self.description_column);
        let amount_name = review_column(&self.preview, self.amount_column);
        let h = theme::colored(theme.header);
        let mut header: Page = Listing::new();
        header.push(
            paint::list2(paint::styled("File:    ", h), paint::raw(self.file_path.as_str())),
        );
        let target = text::or_text(&self.target_account_name, "(no account selected)");
        header.push(
            paint::list2(paint::styled("Target:  ", h), paint::raw_owned(target)),
        );
        let mut columns = text::cat5(
            "Date=",
            date_name.as_str(),
            ", Description=",
            description_name.as_str(),
            ", Amount=",
        );
        columns.append(amount_name.as_str());
        header.push(
            paint::list2(paint::styled("Columns: ", h), paint::raw_owned(columns)),
        );
        let number = text::count(self.skip_lines);
        let mut parse = text::cat5(
            "skip ",
            number.as_str(),
            " line",
            if self.skip_lines == 1 {
                ""
            } else {
                "s"
            },
            ", header=",
        );
        parse.append(
            if self.has_header {
                "yes"
            } else {
                "no"
            },
        );
        parse.append(", delimiter=");
        parse.append(delimiter_label_short(self.delimiter));
        header.push(
            paint::list2(paint::styled("Parse:   ", h), paint::raw_owned(parse)),
        );
        let stats = match &self.confirm_summary {
            Some(s) => paint_stats(s, theme),
            None => paint::list1(
                paint::styled_line("(no preview available)", theme::colored(theme.error)),
            ),
        };
        let table = match &self.confirm_summary {
            None => ConfirmTable::Absent,
            Some(s) => {
                if s.parsed.len() == 0 {
                    ConfirmTable::Empty(
                        paint::styled_line(
                            "No valid rows would be imported. Check column mapping and parse options.",
                            theme::colored(theme.error),
                        ),
                    )
                } else {
                    paint_window(s, self.confirm_scroll, table_height, theme)
                }
            },
        };
        let can_import: bool = match &self.confirm_summary {
            Some(s) => s.parsed.len() > 0,
            None => false,
        };
        let mut help: Line = Listing::new();
        if can_import {
            help.push(paint::styled("Y/Enter", theme::bold_colored(theme.success)));
            help.push(paint::raw(": import  "));
            help.push(paint::styled("N/Esc", theme::bold_colored(theme.error)));
            help.push(paint::raw(": back  "));
            help.push(paint::styled("↑↓/PgUp/PgDn", h));
            help.push(paint::raw(": scroll preview"));
        } else {
            help.push(paint::styled("N/Esc", theme::bold_colored(theme.error)));
            help.push(paint::raw(": go back and fix mapping/parse options"));
        }
        ConfirmPainting { header, stats, table, help }
    }
}

fn paint_stats(s: &ConfirmSummary, theme: &Theme) -> (r: Page)
    requires
        left_out(s@) <= usize::MAX,
    ensures
        r@ == stats_lines(Some(s@), theme),
{
    let skipped: usize = s.invalid_date + s.invalid_amount + s.zero_amount;
    let valid = text::count(s.parsed.len());
    let skipped_text = text::count(skipped);
    let mut first: Line = Listing::new();
    first.push(
        paint::styled_owned(
            text::cat2(valid.as_str(), " entries will be imported"),
            theme::bold_colored(theme.success),
        ),
    );
    first.push(paint::raw("  •  "));
    first.push(
        paint::styled_owned(
            text::cat2(skipped_text.as_str(), " skipped"),
            if skipped > 0 {
                theme::colored(theme.error)
            } else {
                theme::colored(theme.fg_dim)
            },
        ),
    );
    if skipped > 0 {
        let a = text::count(s.invalid_date);
        let b = text::count(s.invalid_amount);
        let c = text::count(s.zero_amount);
        let mut detail = text::cat5(" (", a.as_str(), " bad date, ", b.as_str(), " bad amount, ");
        detail.append(c.as_str());
        detail.append(" zero)");
        first.push(paint::raw_owned(detail));
    } else {
        first.push(paint::raw_owned(String::new()));
    }
    let range = match (s.min_date, s.max_date) {
        (Some(a), Some(b)) => {
            let x = a.iso_text();
            let y = b.iso_text();
            text::cat3(x.as_str(), " → ", y.as_str())
        },
        _ => text::owned("(none)"),
    };
    let h = theme::colored(theme.header);
    let second: Line = paint::list2(paint::styled("Date range: ", h), paint::raw_owned(range));
    let plus = format_amount(s.total_positive);
    let mut third: Line = Listing::new();
    third.push(paint::styled("Totals:     ", h));
    third.push(
        paint::styled_owned(text::cat2("+", plus.as_str()), theme::colored(theme.success)),
    );
    third.push(paint::raw("   "));
    third.push(
        paint::styled_owned(format_amount(s.total_negative), theme::colored(theme.error)),
    );
    third.push(paint::raw("   net "));
    third.push(
        paint::raw_owned(format_amount(money::plus(s.total_positive, s.total_negative))),
    );
    proof {
        let want = stats_lines(Some(s@), theme);
        assert(first@ =~= want[0]);
        assert(second@ =~= want[1]);
        assert(third@ =~= want[2]);
    }
    paint::list3(first, second, third)
}

fn paint_window(s: &ConfirmSummary, scroll: usize, table_height: u16, theme: &Theme) -> (r:
    ConfirmTable)
    requires
        s.parsed@.len() > 0,
    ensures
        r is Rows,
        ({
            let parsed = s@.parsed;
            let (start, end) = shown_window(scroll as int, table_height, parsed.len() as int);
            &&& r->Rows_0@ == parsed.subrange(start, end).map_values(
                |row: RowData| review_row(row, theme),
            )
            &&& r->Rows_1@ == review_title(scroll as int, table_height, parsed.len() as int)
        }),
{
    let len: usize = s.parsed.len();
    let ghost parsed = s@.parsed;
    let visible: usize = if table_height > 5 {
        (table_height - 4) as usize
    } else {
        1
    };
    let start: usize = if scroll < len - 1 {
        scroll
    } else {
        len - 1
    };
    let end: usize = if visible < len - start {
        start + visible
    } else {
        len
    };
    let mut rows: Listing<Row> = Listing::new();
    let mut i: usize = start;
    let ghost f = |row: RowData| review_row(row, theme);
    while i < end
        invariant
            start <= i <= end <= len,
            len == s.parsed@.len(),
            parsed == s@.parsed,
            f == (|row: RowData| review_row(row, theme)),
            rows@ =~= parsed.subrange(start as int, i as int).map_values(f),
        decreases end - i,
    {
        let p = &s.parsed[i];
        assert(parsed[i as int] == p@);
        let style = if p.amount >= 0 {
            theme::colored(theme.success)
        } else {
            theme::colored(theme.error)
        };
        let cells = paint::list3(
            paint::raw_owned(p.date.iso_text()),
            paint::raw(p.description.as_str()),
            paint::styled_owned(format_amount(p.amount), style),
        );
        rows.push(paint::row(cells, Style::plain()));
        i = i + 1;
    }
    let total = text::count(len);
    let title = if len > visible {
        let a = text::count(start + 1);
        let b = text::count(end);
        let mut t = text::cat5(" Preview (", a.as_str(), "–", b.as_str(), " of ");
        t.append(total.as_str());
        t.append(") ");
        t
    } else {
        text::cat3(" Preview (", total.as_str(), " rows) ")
    };
    ConfirmTable::Rows(rows, title)
}

} // verus!
