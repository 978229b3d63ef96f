//! The modal that shows a journal entry with its lines.

use vstd::prelude::*;

use crate::date::Date;
use crate::input::KeyCode;
use crate::lists;
use crate::money;
use crate::text;
use crate::tui::paint;
use crate::tui::paint::{Line, LineView, Listing, Page, Row, RowView};
use crate::tui::theme;
use crate::tui::theme::{Color, Style, Theme};

verus! {

/// A line of a journal entry.
pub struct EntryLineDetail {
    pub account_number: String,
    pub account_name: String,
    pub debit: i64,
    pub credit: i64,
    pub memo: Option<String>,
}

/// A journal entry with its lines.
pub struct EntryDetail {
    pub entry_id: String,
    pub date: Date,
    pub memo: String,
    pub reference: Option<String>,
    pub is_void: bool,
    pub lines: Vec<EntryLineDetail>,
}

/// The modal.
pub struct EntryDetailModal {
    pub visible: bool,
    pub entry: Option<EntryDetail>,
    pub scroll_offset: usize,
}

impl EntryDetailModal {
    pub fn new() -> (r: Self)
        ensures
            r == (EntryDetailModal { visible: false, entry: None, scroll_offset: 0 }),
    {
        EntryDetailModal { visible: false, entry: None, scroll_offset: 0 }
    }

    pub fn show(&mut self, entry: EntryDetail)
        ensures
            *final(self) == (EntryDetailModal {
                visible: true,
                entry: Some(entry),
                scroll_offset: 0,
            }),
    {
        self.entry = Some(entry);
        self.visible = true;
        self.scroll_offset = 0;
    }

    /// Closes the modal and forgets the entry.
    pub fn close(&mut self)
        ensures
            *final(self) == old(self).closed(),
    {
        self.visible = false;
        self.entry = None;
    }

    pub open spec fn closed(self) -> EntryDetailModal {
        EntryDetailModal { visible: false, entry: None, ..self }
    }

    /// The modal after a key, and whether the key closed it.
    pub open spec fn after_key(self, key: KeyCode) -> (EntryDetailModal, bool) {
        match key {
            KeyCode::Esc | KeyCode::Enter | KeyCode::Char('q') => (self.closed(), true),
            KeyCode::Up | KeyCode::Char('k') => (
                if self.scroll_offset > 0 {
                    EntryDetailModal { scroll_offset: (self.scroll_offset - 1) as usize, ..self }
                } else {
                    self
                },
                false,
            ),
            KeyCode::Down | KeyCode::Char('j') => (
                EntryDetailModal {
                    scroll_offset: if self.scroll_offset == usize::MAX {
                        0
                    } else {
                        (self.scroll_offset + 1) as usize
                    },
                    ..self
                },
                false,
            ),
            _ => (self, false),
        }
    }

    /// Handles a key, and says whether it closed the modal.
    pub fn handle_key(&mut self, key: KeyCode) -> (r: bool)
        ensures
            (*final(self), r) == old(self).after_key(key),
    {
        match key {
            KeyCode::Esc | KeyCode::Enter | KeyCode::Char('q') => {
                self.close();
                true
            },
            KeyCode::Up | KeyCode::Char('k') => {
                if self.scroll_offset > 0 {
                    self.scroll_offset = self.scroll_offset - 1;
                }
                false
            },
            KeyCode::Down | KeyCode::Char('j') => {
                self.scroll_offset = self.scroll_offset.wrapping_add(1);
                false
            },
            _ => false,
        }
    }
}

impl Default for EntryDetailModal {
    fn default() -> (r: Self)
        ensures
            r == (EntryDetailModal { visible: false, entry: None, scroll_offset: 0 }),
    {
        Self::new()
    }
}

// ---- drawing ----

/// Cents behind a dollar sign.
pub open spec fn currency(cents: int) -> Seq<char> {
    "$"@ + money::signed_dollars(cents)
}

fn format_currency(cents: i64) -> (r: String)
    ensures
        r@ == currency(cents as int),
{
    let amount = money::signed_dollar_text(cents);
    text::cat2("$", amount.as_str())
}

/// An amount on one side of an entry, empty unless it is positive.
pub open spec fn side(cents: i64) -> Seq<char> {
    if cents > 0 {
        currency(cents as int)
    } else {
        Seq::empty()
    }
}

fn write_side(cents: i64) -> (r: String)
    ensures
        r@ == side(cents),
{
    if cents > 0 {
        format_currency(cents)
    } else {
        String::new()
    }
}

pub open spec fn line_row(l: EntryLineDetail) -> RowView {
    RowView {
        cells: paint::plain_cells(
            seq![l.account_number@, l.account_name@, side(l.debit), side(l.credit)],
        ),
        style: Style::plain(),
    }
}

fn draw_line(l: &EntryLineDetail) -> (r: Row)
    ensures
        r@ == line_row(*l),
{
    let mut cells: Line = Listing::new();
    paint::push_str(&mut cells, l.account_number.as_str());
    paint::push_str(&mut cells, l.account_name.as_str());
    paint::push_text(&mut cells, write_side(l.debit));
    paint::push_text(&mut cells, write_side(l.credit));
    assert(cells@ =~= line_row(*l).cells);
    paint::row(cells, Style::plain())
}

/// The sum of the debits.
pub open spec fn total_debits(lines: Seq<EntryLineDetail>) -> int {
    money::wrap64(money::total(lines.map_values(|l: EntryLineDetail| l.debit as int)))
}

/// The sum of the credits.
pub open spec fn total_credits(lines: Seq<EntryLineDetail>) -> int {
    money::wrap64(money::total(lines.map_values(|l: EntryLineDetail| l.credit as int)))
}

/// The row of a line shows the number and the name of its account, its debit
/// before its credit, and leaves a side empty that has no amount above zero.
pub proof fn debits_stand_before_credits(l: EntryLineDetail)
    ensures
        ({
            let cells = line_row(l).cells;
            &&& cells.len() == 4
            &&& cells[0].0 == l.account_number@
            &&& cells[1].0 == l.account_name@
            &&& l.debit > 0 ==> cells[2].0 == "$"@ + money::signed_dollars(l.debit as int)
            &&& l.debit <= 0 ==> cells[2].0.len() == 0
            &&& l.credit > 0 ==> cells[3].0 == "$"@ + money::signed_dollars(l.credit as int)
            &&& l.credit <= 0 ==> cells[3].0.len() == 0
        }),
{
}

proof fn total_by_position(v: Seq<int>)
    ensures
        money::total(v) == lists::sum_at(v.len(), |i: int| v[i]),
    decreases v.len(),
{
    if v.len() > 0 {
        let before = v.drop_last();
        total_by_position(before);
        lists::sums_agree(before.len(), |i: int| before[i], |i: int| v[i]);
    }
}

/// Under the lines the debits and the credits are added up, each behind its
/// label.
pub proof fn totals_stand_behind_their_labels(e: EntryDetail, theme: &Theme)
    ensures
        ({
            let line = e.totals_line(theme);
            let lines = e.lines@;
            &&& line.len() == 6
            &&& line[1].0 == "Debits "@
            &&& line[2].0 == "$"@ + money::signed_dollars(
                money::wrap64(lists::sum_at(lines.len(), |i: int| lines[i].debit as int)),
            )
            &&& line[4].0 == "Credits "@
            &&& line[5].0 == "$"@ + money::signed_dollars(
                money::wrap64(lists::sum_at(lines.len(), |i: int| lines[i].credit as int)),
            )
        }),
{
    let lines = e.lines@;
    let d = lines.map_values(|l: EntryLineDetail| l.debit as int);
    let c = lines.map_values(|l: EntryLineDetail| l.credit as int);
    total_by_position(d);
    total_by_position(c);
    lists::sums_agree(lines.len(), |i: int| d[i], |i: int| lines[i].debit as int);
    lists::sums_agree(lines.len(), |i: int| c[i], |i: int| lines[i].credit as int);
}

/// The sums of both sides.
fn totals_of(lines: &Vec<EntryLineDetail>) -> (r: (i64, i64))
    ensures
        r.0 == total_debits(lines@),
        r.1 == total_credits(lines@),
{
    let ghost f = |l: EntryLineDetail| l.debit as int;
    let ghost g = |l: EntryLineDetail| l.credit as int;
    let mut debits: i64 = 0;
    let mut credits: i64 = 0;
    let mut i: usize = 0;
    while i < lines.len()
        invariant
            i <= lines@.len(),
            f == (|l: EntryLineDetail| l.debit as int),
            g == (|l: EntryLineDetail| l.credit as int),
            debits == money::wrap64(money::total(lines@.take(i as int).map_values(f))),
            credits == money::wrap64(money::total(lines@.take(i as int).map_values(g))),
        decreases lines@.len() - i,
    {
        let l = &lines[i];
        proof {
            let d = lines@.take(i + 1).map_values(f);
            let c = lines@.take(i + 1).map_values(g);
            assert(d.drop_last() =~= lines@.take(i as int).map_values(f));
            assert(c.drop_last() =~= lines@.take(i as int).map_values(g));
            assert(d.last() == l.debit);
            assert(c.last() == l.credit);
            money::wrapping_is_uniform(money::total(d.drop_last()), l.debit as int);
            money::wrapping_is_uniform(money::total(c.drop_last()), l.credit as int);
        }
        debits = money::plus(debits, l.debit);
        credits = money::plus(credits, l.credit);
        i = i + 1;
    }
    assert(lines@.take(i as int) =~= lines@);
    (debits, credits)
}

pub open spec fn label_line(label: Seq<char>, value: Seq<char>, theme: &Theme) -> LineView {
    seq![(label, theme::colored(theme.fg_dim)), paint::raw_view(value)]
}

fn draw_label(label: &str, value: &str, theme: &Theme) -> (r: Line)
    ensures
        r@ == label_line(label@, value@, theme),
{
    paint::list2(paint::styled(label, theme::colored(theme.fg_dim)), paint::raw(value))
}

impl EntryDetail {
    pub open spec fn header_lines(self, theme: &Theme) -> Seq<LineView> {
        seq![
            label_line("Date: "@, self.date.iso(), theme),
            label_line("Entry ID: "@, self.entry_id@, theme),
            label_line("Reference: "@, text::text_or(self.reference, "-"@), theme),
            paint::blank_view(),
            label_line("Memo: "@, self.memo@, theme),
        ]
    }

    pub open spec fn totals_line(self, theme: &Theme) -> LineView {
        seq![
            ("Totals: "@, theme::colored(theme.fg_dim)),
            ("Debits "@, theme::colored(theme.success)),
            paint::raw_view(currency(total_debits(self.lines@))),
            paint::raw_view("  "@),
            ("Credits "@, theme::colored(theme.error)),
            paint::raw_view(currency(total_credits(self.lines@))),
        ]
    }

    fn draw_header(&self, theme: &Theme) -> (r: Page)
        ensures
            r@ == self.header_lines(theme),
    {
        let date = self.date.iso_text();
        let reference = text::or_text(&self.reference, "-");
        let mut page = paint::list4(
            draw_label("Date: ", date.as_str(), theme),
            draw_label("Entry ID: ", self.entry_id.as_str(), theme),
            draw_label("Reference: ", reference.as_str(), theme),
            paint::blank(),
        );
        page.push(draw_label("Memo: ", self.memo.as_str(), theme));
        page
    }

    fn draw_totals(&self, theme: &Theme) -> (r: Line)
        ensures
            r@ == self.totals_line(theme),
    {
        let (debits, credits): (i64, i64) = totals_of(&self.lines);
        let mut line: Line = Listing::new();
        line.push(paint::styled("Totals: ", theme::colored(theme.fg_dim)));
        line.push(paint::styled("Debits ", theme::colored(theme.success)));
        paint::push_text(&mut line, format_currency(debits));
        paint::push_str(&mut line, "  ");
        line.push(paint::styled("Credits ", theme::colored(theme.error)));
        paint::push_text(&mut line, format_currency(credits));
        assert(line@ =~= self.totals_line(theme));
        line
    }
}

/// The modal as it is drawn.
pub struct DetailPainting {
    pub title: &'static str,
    pub color: Color,
    pub header: Page,
    pub rows: Listing<Row>,
    pub totals: Line,
    pub help: Line,
}

impl EntryDetailModal {
    /// Draws the modal, if it is open and shows an entry.
    pub fn draw(&self, theme: &Theme) -> (r: Option<DetailPainting>)
        ensures
            r is Some <==> self.visible && self.entry is Some,
            r is Some ==> {
                let e = self.entry->0;
                &&& r->0.title@ == (if e.is_void {
                    " Transaction Details [VOID] "@
                } else {
                    " Transaction Details "@
                })
                &&& r->0.color == (if e.is_void {
                    theme.error
                } else {
                    theme.accent
                })
                &&& r->0.header@ == e.header_lines(theme)
                &&& r->0.rows@ == e.lines@.map_values(|l: EntryLineDetail| line_row(l))
                &&& r->0.totals@ == e.totals_line(theme)
                &&& r->0.help@ == paint::hint(
                    Seq::empty(),
                    "Esc/Enter/q"@,
                    ": close"@,
                    theme.header,
                )
            },
    {
        if !self.visible {
            return None;
        }
        match &self.entry {
            None => None,
            Some(e) => {
                let ghost f = |l: EntryLineDetail| line_row(l);
                let mut rows: Listing<Row> = Listing::new();
                let mut i: usize = 0;
                while i < e.lines.len()
                    invariant
                        i <= e.lines@.len(),
                        f == (|l: EntryLineDetail| line_row(l)),
                        rows@ =~= e.lines@.take(i as int).map_values(f),
                    decreases e.lines@.len() - i,
                {
                    rows.push(draw_line(&e.lines[i]));
                    i = i + 1;
                }
                assert(e.lines@.take(i as int) =~= e.lines@);
                let mut help: Line = Listing::new();
                paint::push_hint(&mut help, "Esc/Enter/q", ": close", theme.header);
                Some(
                    DetailPainting {
                        title: if e.is_void {
                            " Transaction Details [VOID] "
                        } else {
                            " Transaction Details "
                        },
                        color: if e.is_void {
                            theme.error
                        } else {
                            theme.accent
                        },
                        header: e.draw_header(theme),
                        rows,
                        totals: e.draw_totals(theme),
                        help,
                    },
                )
            },
        }
    }
}

} // verus!
