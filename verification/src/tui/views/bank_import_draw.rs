//! What the bank import modal shows at each step.

use vstd::prelude::*;

use crate::domain::Account;
use crate::lists;
use crate::money;
use crate::text;
use crate::tui::paint;
use crate::tui::paint::{Line, LineView, Listing, Page, Rect, Row, RowView};
use crate::tui::theme;
use crate::tui::theme::{Style, Theme};
use crate::tui::views::bank_import::{
    BankImportModal, ImportPhase, ParsedTransaction, PendingImport, TransactionData,
};
use crate::tui::views::csv_import::{ColumnField, Preview};
use crate::tui::views::csv_import_draw;
use crate::tui::widgets;

verus! {

/// A titled list with a line of help.
pub struct ListPainting {
    pub title: String,
    pub items: Listing<Row>,
    pub help: Line,
}

/// The column mapping step; without a preview only the last line is shown.
pub struct MappingPainting {
    pub columns: Page,
    pub mapping: Page,
    pub sample: Page,
    pub help: Line,
}

/// The review step.
pub struct PreviewPainting {
    pub title: String,
    pub items: Listing<Row>,
    /// How many more transactions there are; empty if all are shown.
    pub more: String,
    pub help: Line,
}

/// One import in the list.
pub open spec fn import_item(import: PendingImport, selected: bool, theme: &Theme) -> RowView {
    RowView {
        cells: seq![
            (import.bank_name@, theme::bold_colored(theme.fg)),
            paint::raw_view(
                match import.transaction_count {
                    Some(c) => " ("@ + text::signed_decimal(c as int) + " txns)"@,
                    None => Seq::empty(),
                },
            ),
            paint::raw_view(" - "@),
            (import.file_name@, theme::colored(theme.fg_dim)),
        ],
        style: item_style(selected, theme),
    }
}

/// One account in the list.
pub open spec fn account_item(account: Account, selected: bool, theme: &Theme) -> RowView {
    RowView {
        cells: seq![
            (account.account_number@ + " "@, theme::colored(theme.header)),
            paint::raw_view(account.name@),
            (" ("@ + account.account_type.title() + ")"@, theme::colored(theme.fg_dim)),
        ],
        style: item_style(selected, theme),
    }
}

/// One transaction in the review.
pub open spec fn transaction_item(t: TransactionData, theme: &Theme) -> RowView {
    RowView {
        cells: seq![
            (t.date.short() + " "@, theme::colored(theme.fg_dim)),
            paint::raw_view(widgets::truncated(t.description, 40)),
            paint::raw_view(" "@),
            (
                money::signed_dollars(t.amount),
                theme::colored(
                    if t.amount >= 0 {
                        theme.success
                    } else {
                        theme.error
                    },
                ),
            ),
        ],
        style: Style::plain(),
    }
}

pub open spec fn item_style(selected: bool, theme: &Theme) -> Style {
    if selected {
        theme.selected_style()
    } else {
        Style::plain()
    }
}

fn style_of_item(selected: bool, theme: &Theme) -> (r: Style)
    ensures
        r == item_style(selected, theme),
{
    if selected {
        theme.selected_style()
    } else {
        Style::plain()
    }
}

/// A header in the list of columns.
pub open spec fn listed_header(h: Seq<char>) -> Seq<char> {
    text::shortened(h, 30, 27)
}

/// The header of a mapped column.
pub open spec fn mapped_header(headers: Seq<Seq<char>>, column: Option<usize>) -> Seq<char> {
    match column {
        Some(i) => if i < headers.len() {
            text::shortened(headers[i as int], 25, 22)
        } else {
            "(not set)"@
        },
        None => "(not set)"@,
    }
}

pub open spec fn column_lines(
    headers: Seq<Seq<char>>,
    date: Option<usize>,
    description: Option<usize>,
    amount: Option<usize>,
) -> Seq<LineView> {
    seq![seq![("CSV Columns:"@, theme::bold())], paint::blank_view()] + Seq::new(
        headers.len(),
        |i: int|
            seq![
                paint::raw_view(
                    "  "@ + text::decimal((i + 1) as nat) + ": "@ + listed_header(headers[i])
                        + csv_import_draw::column_mark(i, date, description, amount),
                ),
            ],
    )
}

pub open spec fn mapping_lines(
    headers: Seq<Seq<char>>,
    active: ColumnField,
    date: Option<usize>,
    description: Option<usize>,
    amount: Option<usize>,
    theme: &Theme,
) -> Seq<LineView> {
    seq![
        seq![("Map columns (use number keys or ←→):"@, theme::bold())],
        paint::blank_view(),
        csv_import_draw::mapping_line(
            ColumnField::Date,
            active,
            mapped_header(headers, date),
            theme,
        ),
        csv_import_draw::mapping_line(
            ColumnField::Description,
            active,
            mapped_header(headers, description),
            theme,
        ),
        csv_import_draw::mapping_line(
            ColumnField::Amount,
            active,
            mapped_header(headers, amount),
            theme,
        ),
    ]
}

/// One more line of sample data cut to 40 bytes, if the column is chosen.
pub open spec fn with_short_sample(
    lines: Seq<LineView>,
    label: Seq<char>,
    row: Seq<Seq<char>>,
    column: Option<usize>,
) -> Seq<LineView> {
    match column {
        Some(i) => lines.push(
            seq![
                paint::raw_view(
                    label + widgets::truncated(csv_import_draw::sample_value(row, i), 40),
                ),
            ],
        ),
        None => lines,
    }
}

pub open spec fn sample_lines(
    rows: Seq<Seq<Seq<char>>>,
    date: Option<usize>,
    description: Option<usize>,
    amount: Option<usize>,
) -> Seq<LineView> {
    if rows.len() == 0 {
        Seq::empty()
    } else {
        let start: Seq<LineView> = seq![seq![("Sample row:"@, theme::bold())]];
        let a = with_short_sample(start, "  Date: "@, rows[0], date);
        let b = with_short_sample(a, "  Description: "@, rows[0], description);
        csv_import_draw::with_sample(b, "  Amount: "@, rows[0], amount)
    }
}

/// Whether the headers and the first row of a preview can be cut where they
/// are shown short.
pub open spec fn can_show(p: Preview) -> bool {
    &&& forall|i: int|
        0 <= i < p.headers.len() ==> text::can_shorten(#[trigger] p.headers[i], 30, 27)
            && text::can_shorten(p.headers[i], 25, 22)
    &&& p.rows.len() > 0 ==> forall|i: int|
        0 <= i < p.rows[0].len() ==> widgets::can_truncate(#[trigger] p.rows[0][i], 40)
}

pub open spec fn columns_help(theme: &Theme) -> LineView {
    let h = theme.header;
    let a = paint::hint(Seq::empty(), "↑↓/Tab"@, ": field  "@, h);
    let b = paint::hint(a, "←→/1-9"@, ": column  "@, h);
    let c = paint::hint(b, "Enter"@, ": continue  "@, h);
    paint::hint(c, "Esc"@, ": back"@, h)
}

/// The exact sum of the amounts.
pub open spec fn net_of(v: Seq<TransactionData>) -> int
    decreases v.len(),
{
    if v.len() == 0 {
        0
    } else {
        net_of(v.drop_last()) + v.last().amount
    }
}

/// The net amount of a statement is the sum of the amounts of its transactions,
/// and a transaction shows its own day, description and amount.
pub proof fn transactions_add_up(v: Seq<TransactionData>, t: TransactionData, theme: &Theme)
    ensures
        net_of(v) == lists::sum_at(v.len(), |i: int| v[i].amount),
        transaction_item(t, theme).cells[0].0 == t.date.short() + " "@,
        transaction_item(t, theme).cells[1].0 == widgets::truncated(t.description, 40),
        transaction_item(t, theme).cells[3].0 == money::signed_dollars(t.amount),
    decreases v.len(),
{
    if v.len() > 0 {
        let before = v.drop_last();
        transactions_add_up(before, t, theme);
        lists::sums_agree(before.len(), |i: int| before[i].amount, |i: int| v[i].amount);
    }
}

fn net(v: &Vec<ParsedTransaction>) -> (r: i64)
    ensures
        r == money::wrap64(net_of(csv_views(v@))),
{
    let mut sum: i64 = 0;
    let mut i: usize = 0;
    let ghost all = csv_views(v@);
    assert(all.take(0) =~= Seq::<TransactionData>::empty());
    while i < v.len()
        invariant
            i <= v@.len(),
            all == csv_views(v@),
            sum == money::wrap64(net_of(all.take(i as int))),
        decreases v@.len() - i,
    {
        proof {
            let upto = all.take(i + 1);
            assert(upto.drop_last() =~= all.take(i as int));
            assert(upto.last().amount == v@[i as int].amount);
            money::wrapping_is_uniform(net_of(all.take(i as int)), v@[i as int].amount as int);
        }
        sum = money::plus(sum, v[i].amount);
        i = i + 1;
    }
    assert(all.take(i as int) =~= all);
    sum
}

spec fn csv_views(v: Seq<ParsedTransaction>) -> Seq<TransactionData> {
    v.map_values(|t: ParsedTransaction| t@)
}

fn shown_name(headers: &Vec<String>, column: Option<usize>) -> (r: String)
    requires
        forall|i: int|
            0 <= i < headers@.len() ==> text::can_shorten((#[trigger] headers@[i])@, 25, 22),
    ensures
        r@ == mapped_header(text::texts(headers@), column),
{
    match column {
        Some(i) => if i < headers.len() {
            text::shorten(headers[i].as_str(), 25, 22)
        } else {
            text::owned("(not set)")
        },
        None => text::owned("(not set)"),
    }
}

fn push_short_sample(page: &mut Page, label: &str, row: &Vec<String>, column: Option<usize>)
    requires
        forall|i: int|
            0 <= i < row@.len() ==> widgets::can_truncate((#[trigger] row@[i])@, 40),
    ensures
        final(page)@ == with_short_sample(old(page)@, label@, text::texts(row@), column),
{
    if let Some(i) = column {
        let value = if i < row.len() {
            row[i].clone()
        } else {
            text::owned("N/A")
        };
        proof {
            reveal_strlit("N/A");
            reveal_with_fuel(text::byte_len, 4);
        }
        let short = widgets::truncate(value.as_str(), 40);
        page.push(paint::raw_line(text::cat2(label, short.as_str())));
    }
}

fn paint_mapping(field: ColumnField, active: ColumnField, name: &str, theme: &Theme) -> (r: Line)
    ensures
        r@ == csv_import_draw::mapping_line(field, active, name@, theme),
{
    let is_active: bool = field == active;
    paint::styled_owned_line(
        text::cat4(csv_import_draw::marker_text(is_active), field.label(), ": ", name),
        csv_import_draw::style_of_option(is_active, theme),
    )
}

impl BankImportModal {
    /// Which step is drawn, if the modal is open.
    pub fn draw(&self) -> (r: Option<ImportPhase>)
        ensures
            r == (if self.visible {
                Some(self.phase)
            } else {
                None
            }),
    {
        if self.visible {
            Some(self.phase)
        } else {
            None
        }
    }

    /// The rectangle of the modal.
    pub fn modal_area(&self, area: Rect) -> (r: Rect)
        ensures
            r == widgets::centered_box(area, 80, 24),
    {
        widgets::modal_box(area, 80, 24)
    }

    pub fn draw_select_import(&self, theme: &Theme) -> (r: ListPainting)
        ensures
            r.title@ == " Bank Imports ("@ + text::decimal(self.pending_imports@.len()) + ") "@,
            r.items@ == Seq::new(
                self.pending_imports@.len(),
                |i: int|
                    import_item(
                        self.pending_imports@[i],
                        i == self.selected_import_index,
                        theme,
                    ),
            ),
            r.help@ == seq![
                ("Enter"@, theme::colored(theme.success)),
                paint::raw_view(" select  "@),
                ("d"@, theme::colored(theme.error)),
                paint::raw_view(" skip  "@),
                ("Esc"@, theme::colored(theme.header)),
                paint::raw_view(" close"@),
            ],
    {
        let n = text::count(self.pending_imports.len());
        let mut items: Listing<Row> = Listing::new();
        let mut i: usize = 0;
        while i < self.pending_imports.len()
            invariant
                i <= self.pending_imports@.len(),
                items@ =~= Seq::new(
                    i as nat,
                    |i: int|
                        import_item(
                            self.pending_imports@[i],
                            i == self.selected_import_index,
                            theme,
                        ),
                ),
            decreases self.pending_imports@.len() - i,
        {
            let import = &self.pending_imports[i];
            let count = match import.transaction_count {
                Some(c) => {
                    let number = text::signed_number(c);
                    text::cat3(" (", number.as_str(), " txns)")
                },
                None => String::new(),
            };
            let cells = paint::list4(
                paint::styled(import.bank_name.as_str(), theme::bold_colored(theme.fg)),
                paint::raw_owned(count),
                paint::raw(" - "),
                paint::styled(import.file_name.as_str(), theme::colored(theme.fg_dim)),
            );
            let item = paint::row(cells, style_of_item(i == self.selected_import_index, theme));
            assert(item@ =~= import_item(*import, i == self.selected_import_index, theme));
            items.push(item);
            i = i + 1;
        }
        let mut help: Line = Listing::new();
        help.push(paint::styled("Enter", theme::colored(theme.success)));
        help.push(paint::raw(" select  "));
        help.push(paint::styled("d", theme::colored(theme.error)));
        help.push(paint::raw(" skip  "));
        help.push(paint::styled("Esc", theme::colored(theme.header)));
        help.push(paint::raw(" close"));
        ListPainting { title: text::cat3(" Bank Imports (", n.as_str(), ") "), items, help }
    }

    pub fn draw_select_account(&self, theme: &Theme) -> (r: ListPainting)
        ensures
            r.title@ == " Select Account for "@ + (match self.processing_import {
                Some(i) => i.bank_name@,
                None => "Import"@,
            }) + " "@,
            r.items@ == Seq::new(
                self.available_accounts@.len(),
                |i: int|
                    account_item(
                        self.available_accounts@[i],
                        i == self.selected_account_index,
                        theme,
                    ),
            ),
            r.help@ == seq![
                ("Enter"@, theme::colored(theme.success)),
                paint::raw_view(" select  "@),
                ("Esc"@, theme::colored(theme.header)),
                paint::raw_view(" back"@),
            ],
    {
        let name = match &self.processing_import {
            Some(i) => i.bank_name.clone(),
            None => text::owned("Import"),
        };
        let mut items: Listing<Row> = Listing::new();
        let mut i: usize = 0;
        while i < self.available_accounts.len()
            invariant
                i <= self.available_accounts@.len(),
                items@ =~= Seq::new(
                    i as nat,
                    |i: int|
                        account_item(
                            self.available_accounts@[i],
                            i == self.selected_account_index,
                            theme,
                        ),
                ),
            decreases self.available_accounts@.len() - i,
        {
            let a = &self.available_accounts[i];
            let cells = paint::list3(
                paint::styled_owned(
                    text::cat2(a.account_number.as_str(), " "),
                    theme::colored(theme.header),
                ),
                paint::raw(a.name.as_str()),
                paint::styled_owned(
                    text::cat3(" (", a.account_type.label(), ")"),
                    theme::colored(theme.fg_dim),
                ),
            );
            let item = paint::row(cells, style_of_item(i == self.selected_account_index, theme));
            assert(item@ =~= account_item(*a, i == self.selected_account_index, theme));
            items.push(item);
            i = i + 1;
        }
        let mut help: Line = Listing::new();
        help.push(paint::styled("Enter", theme::colored(theme.success)));
        help.push(paint::raw(" select  "));
        help.push(paint::styled("Esc", theme::colored(theme.header)));
        help.push(paint::raw(" back"));
        ListPainting {
            title: text::cat3(" Select Account for ", name.as_str(), " "),
            items,
            help,
        }
    }

    pub fn draw_map_columns(&self, theme: &Theme) -> (r: MappingPainting)
        requires
            self@.csv_preview is Some ==> can_show(self@.csv_preview->0),
        ensures
            r.columns@ == (match self@.csv_preview {
                Some(p) => column_lines(
                    p.headers,
                    self.date_column,
                    self.description_column,
                    self.amount_column,
                ),
                None => Seq::empty(),
            }),
            r.mapping@ == (match self@.csv_preview {
                Some(p) => mapping_lines(
                    p.headers,
                    self.active_field,
                    self.date_column,
                    self.description_column,
                    self.amount_column,
                    theme,
                ),
                None => Seq::empty(),
            }),
            r.sample@ == (match self@.csv_preview {
                Some(p) => sample_lines(
                    p.rows,
                    self.date_column,
                    self.description_column,
                    self.amount_column,
                ),
                None => Seq::empty(),
            }),
            r.help@ == (match self.mapping_error {
                Some(e) => csv_import_draw::error_line(e@, theme),
                None => columns_help(theme),
            }),
    {
        let mut columns: Page = Listing::new();
        let mut mapping: Page = Listing::new();
        let mut sample: Page = Listing::new();
        if let Some(p) = &self.csv_preview {
            let ghost headers = p@.headers;
            proof {
                assert forall|i: int| 0 <= i < p.headers@.len() implies text::can_shorten(
                    (#[trigger] p.headers@[i])@,
                    30,
                    27,
                ) && text::can_shorten(p.headers@[i]@, 25, 22) by {
                    assert(headers[i] == p.headers@[i]@);
                }
            }
            columns.push(paint::styled_line("CSV Columns:", theme::bold()));
            columns.push(paint::blank());
            let ghost want = column_lines(
                headers,
                self.date_column,
                self.description_column,
                self.amount_column,
            );
            let mut i: usize = 0;
            while i < p.headers.len()
                invariant
                    i <= p.headers@.len(),
                    headers == text::texts(p.headers@),
                    forall|i: int|
                        0 <= i < p.headers@.len() ==> text::can_shorten(
                            (#[trigger] p.headers@[i])@,
                            30,
                            27,
                        ),
                    want == column_lines(
                        headers,
                        self.date_column,
                        self.description_column,
                        self.amount_column,
                    ),
                    columns@ =~= want.take(i + 2),
                decreases p.headers@.len() - i,
            {
                let number = text::count(i + 1);
                let mark = csv_import_draw::mark_of_column(
                    i,
                    self.date_column,
                    self.description_column,
                    self.amount_column,
                );
                let short = text::shorten(p.headers[i].as_str(), 30, 27);
                let line = text::cat5("  ", number.as_str(), ": ", short.as_str(), mark);
                assert(headers[i as int] == p.headers@[i as int]@);
                columns.push(paint::raw_line(line));
                i = i + 1;
                assert(columns@ =~= want.take(i + 2));
            }
            assert(want.take(i + 2) =~= want);
            mapping.push(
                paint::styled_line("Map columns (use number keys or ←→):", theme::bold()),
            );
            mapping.push(paint::blank());
            let d = shown_name(&p.headers, self.date_column);
            let x = shown_name(&p.headers, self.description_column);
            let a = shown_name(&p.headers, self.amount_column);
            mapping.push(paint_mapping(ColumnField::Date, self.active_field, d.as_str(), theme));
            mapping.push(
                paint_mapping(ColumnField::Description, self.active_field, x.as_str(), theme),
            );
            mapping.push(paint_mapping(ColumnField::Amount, self.active_field, a.as_str(), theme));
            if p.rows.len() > 0 {
                assert(p@.rows[0] == text::texts(p.rows@[0]@));
                proof {
                    assert forall|i: int| 0 <= i < p.rows@[0]@.len() implies widgets::can_truncate(
                        (#[trigger] p.rows@[0]@[i])@,
                        40,
                    ) by {
                        assert(p@.rows[0][i] == p.rows@[0]@[i]@);
                    }
                }
                sample.push(paint::styled_line("Sample row:", theme::bold()));
                push_short_sample(&mut sample, "  Date: ", &p.rows[0], self.date_column);
                push_short_sample(
                    &mut sample,
                    "  Description: ",
                    &p.rows[0],
                    self.description_column,
                );
                csv_import_draw::push_sample(
                    &mut sample,
                    "  Amount: ",
                    &p.rows[0],
                    self.amount_column,
                );
            }
        }
        let help = match &self.mapping_error {
            Some(e) => paint::styled_line(e.as_str(), theme::colored(theme.error)),
            None => {
                let mut line: Line = Listing::new();
                paint::push_hint(&mut line, "↑↓/Tab", ": field  ", theme.header);
                paint::push_hint(&mut line, "←→/1-9", ": column  ", theme.header);
                paint::push_hint(&mut line, "Enter", ": continue  ", theme.header);
                paint::push_hint(&mut line, "Esc", ": back", theme.header);
                line
            },
        };
        MappingPainting { columns, mapping, sample, help }
    }

    /// Whether the descriptions that the review shows can be cut.
    pub open spec fn can_draw_preview(&self, inner_height: u16) -> bool {
        forall|i: int|
            0 <= i < self.parsed_transactions@.len() && i < inner_height - 3
                ==> widgets::can_truncate(
                (#[trigger] self.parsed_transactions@[i]).description@,
                40,
            )
    }

    /// Checks that the review can be drawn inside a frame of the given height.
    pub fn is_preview_drawable(&self, inner_height: u16) -> (r: bool)
        ensures
            r == self.can_draw_preview(inner_height),
    {
        let room: usize = inner_height.saturating_sub(3) as usize;
        let mut i: usize = 0;
        while i < room && i < self.parsed_transactions.len()
            invariant
                i <= room,
                i <= self.parsed_transactions@.len(),
                room == (if inner_height > 3 {
                    inner_height - 3
                } else {
                    0
                }),
                forall|k: int|
                    0 <= k < i ==> widgets::can_truncate(
                        (#[trigger] self.parsed_transactions@[k]).description@,
                        40,
                    ),
            decreases room - i,
        {
            if !widgets::fits(self.parsed_transactions[i].description.as_str(), 40) {
                return false;
            }
            i = i + 1;
        }
        true
    }

    /// The review inside a frame of the given height.
    pub fn draw_preview(&self, inner_height: u16, theme: &Theme) -> (r: PreviewPainting)
        requires
            self.can_draw_preview(inner_height),
        ensures
            ({
                let all = self@.parsed_transactions;
                let room = if inner_height > 3 {
                    inner_height - 3
                } else {
                    0
                };
                let shown = if all.len() < room {
                    all.len() as int
                } else {
                    room
                };
                &&& r.title@ == " Preview Import to "@ + (if self.selected_account_index
                    < self.available_accounts@.len() {
                    self.available_accounts@[self.selected_account_index as int].name@
                } else {
                    "Unknown"@
                }) + " "@
                &&& r.items@ == all.take(shown).map_values(
                    |t: TransactionData| transaction_item(t, theme),
                )
                &&& r.more@ == (if all.len() > shown {
                    "... and "@ + text::decimal((all.len() - shown) as nat) + " more"@
                } else {
                    Seq::empty()
                })
                &&& r.help@ == seq![
                    ("Enter/i"@, theme::colored(theme.success)),
                    paint::raw_view(
                        " import "@ + text::decimal(all.len()) + " txns (net: "@
                            + money::signed_dollars(money::wrap64(net_of(all))) + ")  "@,
                    ),
                    ("Esc"@, theme::colored(theme.header)),
                    paint::raw_view(" back"@),
                ]
            }),
    {
        let name = match self.get_selected_account() {
            Some(a) => a.name.clone(),
            None => text::owned("Unknown"),
        };
        let len: usize = self.parsed_transactions.len();
        let room: usize = inner_height.saturating_sub(3) as usize;
        let shown: usize = if len < room {
            len
        } else {
            room
        };
        let ghost all = self@.parsed_transactions;
        let ghost f = |t: TransactionData| transaction_item(t, theme);
        let mut items: Listing<Row> = Listing::new();
        let mut i: usize = 0;
        while i < shown
            invariant
                i <= shown <= len,
                len == self.parsed_transactions@.len(),
                all == self@.parsed_transactions,
                f == (|t: TransactionData| transaction_item(t, theme)),
                forall|i: int|
                    0 <= i < shown ==> widgets::can_truncate(
                        (#[trigger] self.parsed_transactions@[i]).description@,
                        40,
                    ),
                items@ =~= all.take(i as int).map_values(f),
            decreases shown - i,
        {
            let t = &self.parsed_transactions[i];
            assert(all[i as int] == t@);
            let color = if t.amount >= 0 {
                theme.success
            } else {
                theme.error
            };
            let day = t.date.short_text();
            let cells = paint::list4(
                paint::styled_owned(text::cat2(day.as_str(), " "), theme::colored(theme.fg_dim)),
                paint::raw_owned(widgets::truncate(t.description.as_str(), 40)),
                paint::raw(" "),
                paint::styled_owned(money::signed_dollar_text(t.amount), theme::colored(color)),
            );
            items.push(paint::row(cells, Style::plain()));
            i = i + 1;
        }
        let more = if len > shown {
            let n = text::count(len - shown);
            text::cat3("... and ", n.as_str(), " more")
        } else {
            String::new()
        };
        let count = text::count(len);
        let total: i64 = net(&self.parsed_transactions);
        assert(csv_views(self.parsed_transactions@) =~= all);
        let total_text = money::signed_dollar_text(total);
        let summary = text::cat5(
            " import ",
            count.as_str(),
            " txns (net: ",
            total_text.as_str(),
            ")  ",
        );
        let help = paint::list4(
            paint::styled("Enter/i", theme::colored(theme.success)),
            paint::raw_owned(summary),
            paint::styled("Esc", theme::colored(theme.header)),
            paint::raw(" back"),
        );
        PreviewPainting { title: text::cat3(" Preview Import to ", name.as_str(), " "), items, more, help }
    }
}

} // verus!
