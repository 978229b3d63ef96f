//! What the journal and its reassignment modal show.

use vstd::prelude::*;

use crate::money;
use crate::queries::EntrySearchResult;
use crate::text;
use crate::tui::paint;
use crate::tui::paint::{Line, LineView, Listing, Row, RowView};
use crate::tui::theme;
use crate::tui::theme::{Color, Style};
use crate::tui::views::journal::{JournalState, JournalView, ReassignAccount};

verus! {

/// The journal table.
pub struct JournalPainting {
    pub title: String,
    pub header: Line,
    pub rows: Listing<Row>,
    pub reassign: Option<ReassignPainting>,
}

/// The modal that asks for another account.
pub struct ReassignPainting {
    pub title: String,
    pub current: String,
    pub filter: String,
    pub accounts: Line,
    pub help: Line,
}

/// Cents with a dollar sign in front, a minus sign behind it.
pub open spec fn amount_text(cents: int) -> Seq<char> {
    "$"@ + money::signed_dollars(cents)
}

fn format_currency(cents: i64) -> (r: String)
    ensures
        r@ == amount_text(cents as int),
{
    let amount = money::signed_dollar_text(cents);
    text::cat2("$", amount.as_str())
}

pub open spec fn status(e: EntrySearchResult, marked: bool) -> Seq<char> {
    if e.is_void {
        "VOID"@
    } else if marked {
        "✓"@
    } else {
        ""@
    }
}

pub open spec fn entry_style(e: EntrySearchResult, marked: bool) -> Style {
    if e.is_void {
        theme::colored(Color::DarkGray)
    } else if marked {
        theme::colored(Color::Cyan)
    } else {
        Style::plain()
    }
}

/// The amount of a ledger row that belongs under "Debit".
pub open spec fn debit_cell(e: EntrySearchResult) -> Seq<char> {
    match e.account_amount {
        Some(a) => if a > 0 {
            amount_text(a as int)
        } else {
            ""@
        },
        None => ""@,
    }
}

/// The amount of a ledger row that belongs under "Credit".
pub open spec fn credit_cell(e: EntrySearchResult) -> Seq<char> {
    match e.account_amount {
        Some(a) => if a < 0 {
            amount_text(money::wrap64(-a))
        } else {
            ""@
        },
        None => ""@,
    }
}

pub open spec fn ledger_cells(e: EntrySearchResult, balance: int, marked: bool) -> Seq<Seq<char>> {
    seq![
        e.date.iso(),
        text::text_or_empty(e.other_account),
        e.memo@,
        text::text_or_empty(e.reference),
        debit_cell(e),
        credit_cell(e),
        amount_text(balance),
        status(e, marked),
    ]
}

pub open spec fn journal_cells(e: EntrySearchResult, marked: bool) -> Seq<Seq<char>> {
    seq![
        e.date.iso(),
        e.memo@,
        text::text_or_empty(e.reference),
        amount_text(e.total_amount as int),
        status(e, marked),
    ]
}

/// The first eight bytes of the entry's identifier, if the column is shown.
pub open spec fn id_cells(e: EntrySearchResult, shown: bool) -> Seq<Seq<char>> {
    if shown {
        seq![text::byte_head(e.entry_id@, 8)]
    } else {
        Seq::empty()
    }
}

impl JournalState {
    /// The balance after an entry; nothing if none was computed.
    pub open spec fn balance_at(self, i: int) -> int {
        if i < self.running_balances.len() {
            self.running_balances[i] as int
        } else {
            0
        }
    }

    /// The row of the entry at position `i` of all entries.
    pub open spec fn row(self, i: int) -> RowView {
        let e = self.entries[i];
        let marked = self.selected_entry_ids.contains(e.entry_id@);
        RowView {
            cells: paint::plain_cells(
                id_cells(e, self.show_id_column) + if self.filter_account is Some {
                    ledger_cells(e, self.balance_at(i), marked)
                } else {
                    journal_cells(e, marked)
                },
            ),
            style: entry_style(e, marked),
        }
    }

    pub open spec fn header(self) -> Seq<Seq<char>> {
        let id: Seq<Seq<char>> = if self.show_id_column {
            seq!["ID"@]
        } else {
            Seq::empty()
        };
        id + if self.filter_account is Some {
            seq![
                "Date"@,
                "Account"@,
                "Memo"@,
                "Reference"@,
                "Debit"@,
                "Credit"@,
                "Balance"@,
                "Status"@,
            ]
        } else {
            seq!["Date"@, "Memo"@, "Reference"@, "Amount"@, "Status"@]
        }
    }

    /// The sort field and direction, and a note if void entries are left out.
    pub open spec fn sort_note(self) -> Seq<char> {
        "["@ + self.sort_field.title() + " "@ + self.sort_direction.arrow() + "]"@
            + if self.show_void {
            ""@
        } else {
            " [hiding void]"@
        }
    }

    pub open spec fn title(self) -> Seq<char> {
        if self.pending_void is Some && !self.confirm_void {
            if self.unvoiding() {
                " UNVOID ENTRY? (y: confirm, n/Enter: cancel) "@
            } else {
                " VOID ENTRY? (y: confirm, n/Enter: cancel) "@
            }
        } else if self.bulk_void_pending {
            " You're going to void "@ + text::decimal(self.selected_entry_ids.len())
                + " transactions. Proceed? (y: confirm, n/Enter: cancel) "@
        } else {
            match self.filter_account {
                Some(account) => if self.multiselect_mode {
                    " MULTISELECT ("@ + text::decimal(self.selected_entry_ids.len()) + " selected, "@
                        + (if self.multiselect_selecting {
                        "selecting"@
                    } else {
                        "paused"@
                    })
                        + ") - ↑↓: move, Space: toggle select, a: assign, x: void, Esc: cancel "@
                } else {
                    " Ledger: "@ + account.account_number@ + " - "@ + account.name@ + " "@
                        + self.sort_note() + " "@
                },
                None => " Journal Entries "@ + self.sort_note() + " "@,
            }
        }
    }

    pub open spec fn reassign_title(self) -> Seq<char> {
        if self.reassign_pending is None {
            " Assign "@ + text::decimal(self.selected_entry_ids.len()) + " Transactions "@
        } else {
            " Reassign Transaction "@
        }
    }

    pub open spec fn reassign_current(self) -> Seq<char> {
        match self.reassign_pending {
            None => "Assigning "@ + text::decimal(self.selected_entry_ids.len())
                + " transactions to new account"@,
            Some(p) => "Current: "@ + p.current_account_name@,
        }
    }

    /// Whether the identifiers of the shown entries can be cut to eight bytes.
    pub open spec fn can_show_ids(self) -> bool {
        self.show_id_column ==> forall|i: int|
            0 <= i < self.entries.len() && (self.show_void || !self.entries[i].is_void)
                ==> text::cuts_evenly((#[trigger] self.entries[i]).entry_id@, 8)
    }
}

/// The cells of a row are those under the headings, wherever the column of the
/// identifiers is shown.
proof fn cells_under_headings(row: RowView, headings: Seq<Seq<char>>, cells: Seq<Seq<char>>, k: int)
    requires
        row.cells == paint::plain_cells(cells),
        cells.len() == headings.len(),
        0 <= k < headings.len(),
        forall|j: int| 0 <= j < headings.len() && j != k ==> #[trigger] headings[j] != headings[k],
    ensures
        paint::shows_under(paint::plain_cells(headings), row, headings[k], cells[k]),
{
    let line = paint::plain_cells(headings);
    assert(line[k].0 == headings[k]);
    assert forall|j: int| 0 <= j < line.len() && (#[trigger] line[j]).0
        == headings[k] implies row.cells[j].0 == cells[k] by {
        assert(line[j].0 == headings[j]);
        assert(j == k);
    }
}

proof fn headings_differ(s: JournalState)
    ensures
        forall|j: int, k: int|
            0 <= j < k < s.header().len() ==> #[trigger] s.header()[j] != #[trigger] s.header()[k],
{
    reveal_strlit("ID");
    reveal_strlit("Date");
    reveal_strlit("Account");
    reveal_strlit("Memo");
    reveal_strlit("Reference");
    reveal_strlit("Debit");
    reveal_strlit("Credit");
    reveal_strlit("Balance");
    reveal_strlit("Amount");
    reveal_strlit("Status");
    let h = s.header();
    let d = if s.show_id_column {
        1int
    } else {
        0
    };
    assert("ID"@.len() == 2 && "Date"@.len() == 4 && "Memo"@.len() == 4 && "Debit"@.len() == 5);
    assert("Credit"@.len() == 6 && "Amount"@.len() == 6 && "Status"@.len() == 6);
    assert("Account"@.len() == 7 && "Balance"@.len() == 7 && "Reference"@.len() == 9);
    assert("Date"@[0] == 'D' && "Memo"@[0] == 'M');
    assert("Account"@[1] == 'c' && "Balance"@[1] == 'a');
    assert("Credit"@[0] == 'C' && "Amount"@[0] == 'A' && "Status"@[0] == 'S');
    assert(d == 1 ==> h[0] == "ID"@);
    if s.filter_account is Some {
        assert(h.len() == 8 + d);
        assert(h[d] == "Date"@ && h[d + 1] == "Account"@ && h[d + 2] == "Memo"@ && h[d + 3]
            == "Reference"@ && h[d + 4] == "Debit"@ && h[d + 5] == "Credit"@ && h[d + 6]
            == "Balance"@ && h[d + 7] == "Status"@);
    } else {
        assert(h.len() == 5 + d);
        assert(h[d] == "Date"@ && h[d + 1] == "Memo"@ && h[d + 2] == "Reference"@ && h[d + 3]
            == "Amount"@ && h[d + 4] == "Status"@);
    }
}

/// In a ledger every row shows the day, the other account, the memo and the
/// reference of its entry under their headings. An amount above zero stands
/// under "Debit", one below zero without its sign under "Credit", and the other
/// side is empty. "Balance" shows the balance after the entry, and "Status" says
/// which entries are void.
pub proof fn ledger_columns_match_their_headings(s: JournalState, i: int)
    requires
        0 <= i < s.entries.len(),
        s.filter_account is Some,
        s.running_balances.len() == s.entries.len(),
    ensures
        ({
            let headings = paint::plain_cells(s.header());
            let row = s.row(i);
            let e = s.entries[i];
            &&& paint::shows_under(headings, row, "Date"@, e.date.iso())
            &&& e.other_account matches Some(name) ==> paint::shows_under(
                headings,
                row,
                "Account"@,
                name@,
            )
            &&& paint::shows_under(headings, row, "Memo"@, e.memo@)
            &&& e.reference matches Some(r) ==> paint::shows_under(headings, row, "Reference"@, r@)
            &&& e.account_amount matches Some(a) ==> a > 0 ==> paint::shows_under(
                headings,
                row,
                "Debit"@,
                "$"@ + money::signed_dollars(a as int),
            ) && paint::shows_under(headings, row, "Credit"@, ""@)
            &&& e.account_amount matches Some(a) ==> i64::MIN < a < 0 ==> paint::shows_under(
                headings,
                row,
                "Credit"@,
                "$"@ + money::signed_dollars(-a),
            ) && paint::shows_under(headings, row, "Debit"@, ""@)
            &&& paint::shows_under(
                headings,
                row,
                "Balance"@,
                "$"@ + money::signed_dollars(s.running_balances[i] as int),
            )
            &&& e.is_void ==> paint::shows_under(headings, row, "Status"@, "VOID"@)
        }),
{
    headings_differ(s);
    let h = s.header();
    let d = if s.show_id_column {
        1int
    } else {
        0
    };
    let e = s.entries[i];
    let marked = s.selected_entry_ids.contains(e.entry_id@);
    let cells = id_cells(e, s.show_id_column) + ledger_cells(e, s.balance_at(i), marked);
    assert(h.len() == 8 + d && cells.len() == 8 + d);
    assert(h[d] == "Date"@ && h[d + 1] == "Account"@ && h[d + 2] == "Memo"@ && h[d + 3]
        == "Reference"@ && h[d + 4] == "Debit"@ && h[d + 5] == "Credit"@ && h[d + 6] == "Balance"@
        && h[d + 7] == "Status"@);
    cells_under_headings(s.row(i), h, cells, d);
    cells_under_headings(s.row(i), h, cells, d + 1);
    cells_under_headings(s.row(i), h, cells, d + 2);
    cells_under_headings(s.row(i), h, cells, d + 3);
    cells_under_headings(s.row(i), h, cells, d + 4);
    cells_under_headings(s.row(i), h, cells, d + 5);
    cells_under_headings(s.row(i), h, cells, d + 6);
    cells_under_headings(s.row(i), h, cells, d + 7);
}

/// In the journal every row shows the day, the memo, the reference and the
/// amount of its entry under their headings, and "Status" says which entries
/// are void.
pub proof fn journal_columns_match_their_headings(s: JournalState, i: int)
    requires
        0 <= i < s.entries.len(),
        s.filter_account is None,
    ensures
        ({
            let headings = paint::plain_cells(s.header());
            let row = s.row(i);
            let e = s.entries[i];
            &&& paint::shows_under(headings, row, "Date"@, e.date.iso())
            &&& paint::shows_under(headings, row, "Memo"@, e.memo@)
            &&& e.reference matches Some(r) ==> paint::shows_under(headings, row, "Reference"@, r@)
            &&& paint::shows_under(
                headings,
                row,
                "Amount"@,
                "$"@ + money::signed_dollars(e.total_amount as int),
            )
            &&& e.is_void ==> paint::shows_under(headings, row, "Status"@, "VOID"@)
            &&& !e.is_void && !s.selected_entry_ids.contains(e.entry_id@) ==> paint::shows_under(
                headings,
                row,
                "Status"@,
                ""@,
            )
        }),
{
    headings_differ(s);
    let h = s.header();
    let d = if s.show_id_column {
        1int
    } else {
        0
    };
    let e = s.entries[i];
    let marked = s.selected_entry_ids.contains(e.entry_id@);
    let cells = id_cells(e, s.show_id_column) + journal_cells(e, marked);
    assert(h.len() == 5 + d && cells.len() == 5 + d);
    assert(h[d] == "Date"@ && h[d + 1] == "Memo"@ && h[d + 2] == "Reference"@ && h[d + 3]
        == "Amount"@ && h[d + 4] == "Status"@);
    cells_under_headings(s.row(i), h, cells, d);
    cells_under_headings(s.row(i), h, cells, d + 1);
    cells_under_headings(s.row(i), h, cells, d + 2);
    cells_under_headings(s.row(i), h, cells, d + 3);
    cells_under_headings(s.row(i), h, cells, d + 4);
}

pub open spec fn choice_text(a: ReassignAccount) -> Seq<char> {
    a.account_number@ + " - "@ + a.name@
}

pub open spec fn reassign_help() -> LineView {
    let a = paint::hint(Seq::empty(), "↑↓"@, ": select  "@, Color::Yellow);
    let b = paint::hint(a, "Enter"@, ": confirm  "@, Color::Yellow);
    let c = paint::hint(b, "Type"@, ": filter  "@, Color::Yellow);
    paint::hint(c, "Esc"@, ": cancel"@, Color::Yellow)
}

fn push_ledger_cells(line: &mut Line, e: &EntrySearchResult, balance: i64, status: &str)
    ensures
        forall|marked: bool| #[trigger]
            self::status(*e, marked) == status@ ==> final(line)@ == old(line)@ + paint::plain_cells(
                ledger_cells(*e, balance as int, marked),
            ),
{
    let amount: i64 = match e.account_amount {
        Some(a) => a,
        None => 0,
    };
    let debit = if amount > 0 {
        format_currency(amount)
    } else {
        text::owned("")
    };
    let credit = if amount < 0 {
        format_currency(money::negated(amount))
    } else {
        text::owned("")
    };
    paint::push_text(line, e.date.iso_text());
    paint::push_text(line, text::or_empty(&e.other_account));
    paint::push_text(line, e.memo.clone());
    paint::push_text(line, text::or_empty(&e.reference));
    paint::push_text(line, debit);
    paint::push_text(line, credit);
    paint::push_text(line, format_currency(balance));
    paint::push_str(line, status);
    assert forall|marked: bool| #[trigger] self::status(*e, marked) == status@ implies line@
        == old(line)@ + paint::plain_cells(ledger_cells(*e, balance as int, marked)) by {
        assert(line@ =~= old(line)@ + paint::plain_cells(ledger_cells(*e, balance as int, marked)));
    }
}

fn push_journal_cells(line: &mut Line, e: &EntrySearchResult, status: &str)
    ensures
        forall|marked: bool| #[trigger]
            self::status(*e, marked) == status@ ==> final(line)@ == old(line)@ + paint::plain_cells(
                journal_cells(*e, marked),
            ),
{
    paint::push_text(line, e.date.iso_text());
    paint::push_text(line, e.memo.clone());
    paint::push_text(line, text::or_empty(&e.reference));
    paint::push_text(line, format_currency(e.total_amount));
    paint::push_str(line, status);
    assert forall|marked: bool| #[trigger] self::status(*e, marked) == status@ implies line@
        == old(line)@ + paint::plain_cells(journal_cells(*e, marked)) by {
        assert(line@ =~= old(line)@ + paint::plain_cells(journal_cells(*e, marked)));
    }
}

impl JournalView {
    fn get_title(&self) -> (r: String)
        ensures
            r@ == self@.title(),
    {
        if self.is_confirming_void() {
            if self.is_pending_unvoid() {
                return text::owned(" UNVOID ENTRY? (y: confirm, n/Enter: cancel) ");
            } else {
                return text::owned(" VOID ENTRY? (y: confirm, n/Enter: cancel) ");
            }
        }
        let n = text::count(self.selected_entry_ids.len());
        if self.is_confirming_bulk_void() {
            return text::cat3(
                " You're going to void ",
                n.as_str(),
                " transactions. Proceed? (y: confirm, n/Enter: cancel) ",
            );
        }
        let sort = text::cat5("[", self.sort_field.label(), " ", self.sort_direction.symbol(), "]");
        let note = text::cat2(
            sort.as_str(),
            if self.show_void {
                ""
            } else {
                " [hiding void]"
            },
        );
        match &self.filter_account {
            Some(account) => if self.multiselect_mode {
                text::cat5(
                    " MULTISELECT (",
                    n.as_str(),
                    " selected, ",
                    if self.multiselect_selecting {
                        "selecting"
                    } else {
                        "paused"
                    },
                    ") - ↑↓: move, Space: toggle select, a: assign, x: void, Esc: cancel ",
                )
            } else {
                let mut out = text::cat5(
                    " Ledger: ",
                    account.account_number.as_str(),
                    " - ",
                    account.name.as_str(),
                    " ",
                );
                out.append(note.as_str());
                out.append(" ");
                out
            },
            None => text::cat3(" Journal Entries ", note.as_str(), " "),
        }
    }

    fn draw_header(&self) -> (r: Line)
        ensures
            r@ == paint::plain_cells(self@.header()),
    {
        let mut line: Line = Listing::new();
        if self.show_id_column {
            paint::push_str(&mut line, "ID");
        }
        paint::push_str(&mut line, "Date");
        if self.is_filtered() {
            paint::push_str(&mut line, "Account");
            paint::push_str(&mut line, "Memo");
            paint::push_str(&mut line, "Reference");
            paint::push_str(&mut line, "Debit");
            paint::push_str(&mut line, "Credit");
            paint::push_str(&mut line, "Balance");
        } else {
            paint::push_str(&mut line, "Memo");
            paint::push_str(&mut line, "Reference");
            paint::push_str(&mut line, "Amount");
        }
        paint::push_str(&mut line, "Status");
        assert(line@ =~= paint::plain_cells(self@.header()));
        line
    }

    fn draw_row(&self, i: usize) -> (r: Row)
        requires
            i < self.entries@.len(),
            self.show_id_column ==> text::cuts_evenly(self.entries@[i as int].entry_id@, 8),
        ensures
            r@ == self@.row(i as int),
    {
        let e = &self.entries[i];
        let marked: bool = self.is_entry_selected(e.entry_id.as_str());
        let status = if e.is_void {
            "VOID"
        } else if marked {
            "✓"
        } else {
            ""
        };
        let style = if e.is_void {
            theme::colored(Color::DarkGray)
        } else if marked {
            theme::colored(Color::Cyan)
        } else {
            Style::plain()
        };
        assert(status@ == self::status(*e, marked));
        let mut line: Line = Listing::new();
        if self.show_id_column {
            if let Some(id) = text::first_bytes(e.entry_id.as_str(), 8) {
                paint::push_text(&mut line, id);
            }
        }
        if self.is_filtered() {
            let balance: i64 = if i < self.running_balances.len() {
                self.running_balances[i]
            } else {
                0
            };
            push_ledger_cells(&mut line, e, balance, status);
        } else {
            push_journal_cells(&mut line, e, status);
        }
        assert(line@ =~= self@.row(i as int).cells);
        paint::row(line, style)
    }

    fn draw_reassign_modal(&self) -> (r: ReassignPainting)
        ensures
            r.title@ == self@.reassign_title(),
            r.current@ == self@.reassign_current(),
            r.filter@ == "Filter: "@ + self.reassign_filter@ + "▏"@,
            r.accounts@ == paint::plain_cells(
                self@.filtered().map_values(|i: usize| choice_text(self.reassign_accounts@[i as int])),
            ),
            r.help@ == reassign_help(),
    {
        let n = text::count(self.selected_entry_ids.len());
        let title = if self.reassign_pending.is_none() {
            text::cat3(" Assign ", n.as_str(), " Transactions ")
        } else {
            text::owned(" Reassign Transaction ")
        };
        let current = match &self.reassign_pending {
            None => text::cat3("Assigning ", n.as_str(), " transactions to new account"),
            Some(p) => text::cat2("Current: ", p.current_account_name.as_str()),
        };
        let filtered = self.filtered_reassign_accounts();
        let mut accounts: Line = Listing::new();
        let mut i: usize = 0;
        let ghost f = |i: usize| choice_text(self.reassign_accounts@[i as int]);
        while i < filtered.len()
            invariant
                i <= filtered@.len(),
                f == (|i: usize| choice_text(self.reassign_accounts@[i as int])),
                forall|k: int|
                    0 <= k < filtered@.len() ==> (#[trigger] filtered@[k])
                        < self.reassign_accounts@.len(),
                accounts@ =~= paint::plain_cells(filtered@.take(i as int).map_values(f)),
            decreases filtered@.len() - i,
        {
            let a = &self.reassign_accounts[filtered[i]];
            paint::push_text(
                &mut accounts,
                text::cat3(a.account_number.as_str(), " - ", a.name.as_str()),
            );
            i = i + 1;
        }
        assert(filtered@.take(i as int) =~= filtered@);
        let mut help: Line = Listing::new();
        paint::push_hint(&mut help, "↑↓", ": select  ", Color::Yellow);
        paint::push_hint(&mut help, "Enter", ": confirm  ", Color::Yellow);
        paint::push_hint(&mut help, "Type", ": filter  ", Color::Yellow);
        paint::push_hint(&mut help, "Esc", ": cancel", Color::Yellow);
        ReassignPainting {
            title,
            current,
            filter: text::cat3("Filter: ", self.reassign_filter.as_str(), "▏"),
            accounts,
            help,
        }
    }

    /// Draws the journal on an area of the given height, whose table rows are
    /// what scrolling goes by from now on.
    pub fn draw(&mut self, height: u16) -> (r: JournalPainting)
        requires
            old(self)@.can_show_ids(),
        ensures
            final(self)@ == (JournalState {
                visible_height: if height >= 4 {
                    height - 4
                } else {
                    0
                },
                ..old(self)@
            }),
            r.title@ == old(self)@.title(),
            r.header@ == paint::plain_cells(old(self)@.header()),
            r.rows@ == old(self)@.visible().map_values(|i: usize| old(self)@.row(i as int)),
            r.reassign is Some <==> old(self).reassign_mode,
            r.reassign is Some ==> {
                let m = r.reassign->0;
                &&& m.title@ == old(self)@.reassign_title()
                &&& m.current@ == old(self)@.reassign_current()
                &&& m.filter@ == "Filter: "@ + old(self).reassign_filter@ + "▏"@
                &&& m.accounts@ == paint::plain_cells(
                    old(self)@.filtered().map_values(
                        |i: usize| choice_text(old(self).reassign_accounts@[i as int]),
                    ),
                )
                &&& m.help@ == reassign_help()
            },
    {
        let at = self.visible_indices();
        let mut rows: Listing<Row> = Listing::new();
        let mut k: usize = 0;
        let ghost f = |i: usize| self@.row(i as int);
        let count: usize = self.entries.len();
        proof {
            assert(self@.entries.len() == count);
            let p = |i: int| self@.show_void || !self@.entries[i].is_void;
            crate::lists::positions_are_exact(self@.entries.len(), p);
            assert forall|k: int| 0 <= k < at@.len() && self.show_id_column implies #[trigger]
            text::cuts_evenly(self.entries@[at@[k] as int].entry_id@, 8) by {
                assert(p(at@[k] as int));
                assert(self@.entries[at@[k] as int].entry_id@ == self.entries@[at@[k] as int].entry_id@);
            }
        }
        while k < at.len()
            invariant
                k <= at@.len(),
                f == (|i: usize| self@.row(i as int)),
                forall|k: int|
                    0 <= k < at@.len() ==> (#[trigger] at@[k]) < self.entries@.len(),
                forall|k: int|
                    0 <= k < at@.len() && self.show_id_column ==> #[trigger] text::cuts_evenly(
                        self.entries@[at@[k] as int].entry_id@,
                        8,
                    ),
                rows@ =~= at@.take(k as int).map_values(f),
            decreases at@.len() - k,
        {
            rows.push(self.draw_row(at[k]));
            k = k + 1;
        }
        assert(at@.take(k as int) =~= at@);
        let title = self.get_title();
        let header = self.draw_header();
        let reassign = if self.reassign_mode {
            Some(self.draw_reassign_modal())
        } else {
            None
        };
        self.visible_height = height.saturating_sub(4);
        JournalPainting { title, header, rows, reassign }
    }
}

} // verus!
