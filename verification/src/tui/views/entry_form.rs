//! The form for a new journal entry.

use vstd::prelude::*;

use crate::date;
use crate::date::Date;
use crate::domain;
use crate::domain::Account;
use crate::input;
use crate::input::{KeyCode, KeyModifiers};
use crate::lists;
use crate::money;
use crate::selection;
use crate::selection::Selection;
use crate::text;
use crate::tui::paint;
use crate::tui::paint::{Line, LineView, Listing, Rect, Row, RowView};
use crate::tui::theme;
use crate::tui::theme::{Style, Theme};
use crate::tui::widgets;
use crate::tui::widgets::FieldPainting;

verus! {

/// What the form was closed with.
pub enum EntryFormResult {
    Nothing,
    Cancel,
    Submit(NewEntryData),
}

/// A journal entry to be made.
pub struct NewEntryData {
    pub date: Date,
    pub memo: String,
    pub reference: Option<String>,
    pub lines: Vec<EntryLineData>,
}

/// A line of a journal entry: debits are positive, credits negative.
pub struct EntryLineData {
    pub account_id: String,
    pub account_display: String,
    pub amount: i64,
}

/// The meaning of a line of a journal entry.
#[verifier::ext_equal]
pub ghost struct EntryLine {
    pub account_id: Seq<char>,
    pub account_display: Seq<char>,
    pub amount: int,
}

/// The meaning of a journal entry to be made.
#[verifier::ext_equal]
pub ghost struct EntryData {
    pub date: Date,
    pub memo: Seq<char>,
    pub reference: Option<Seq<char>>,
    pub lines: Seq<EntryLine>,
}

/// The meaning of what the form was closed with.
#[verifier::ext_equal]
pub ghost enum EntryOutcome {
    Nothing,
    Cancel,
    Submit(EntryData),
}

impl View for EntryLineData {
    type V = EntryLine;

    open spec fn view(&self) -> EntryLine {
        EntryLine {
            account_id: self.account_id@,
            account_display: self.account_display@,
            amount: self.amount as int,
        }
    }
}

pub open spec fn entry_lines(v: Seq<EntryLineData>) -> Seq<EntryLine> {
    v.map_values(|l: EntryLineData| l@)
}

impl View for NewEntryData {
    type V = EntryData;

    open spec fn view(&self) -> EntryData {
        EntryData {
            date: self.date,
            memo: self.memo@,
            reference: text::opt_text(self.reference),
            lines: entry_lines(self.lines@),
        }
    }
}

impl View for EntryFormResult {
    type V = EntryOutcome;

    open spec fn view(&self) -> EntryOutcome {
        match self {
            EntryFormResult::Nothing => EntryOutcome::Nothing,
            EntryFormResult::Cancel => EntryOutcome::Cancel,
            EntryFormResult::Submit(d) => EntryOutcome::Submit(d@),
        }
    }
}

/// The fields of the form.
#[derive(Debug, Clone, Copy, PartialEq, Eq, Structural)]
pub enum FormField {
    Date,
    Memo,
    Reference,
    Lines,
}

impl FormField {
    pub open spec fn following(self) -> FormField {
        match self {
            FormField::Date => FormField::Memo,
            FormField::Memo => FormField::Reference,
            FormField::Reference => FormField::Lines,
            FormField::Lines => FormField::Date,
        }
    }

    pub open spec fn preceding(self) -> FormField {
        match self {
            FormField::Date => FormField::Lines,
            FormField::Memo => FormField::Date,
            FormField::Reference => FormField::Memo,
            FormField::Lines => FormField::Reference,
        }
    }

    pub fn next(&self) -> (r: Self)
        ensures
            r == self.following(),
    {
        match self {
            FormField::Date => FormField::Memo,
            FormField::Memo => FormField::Reference,
            FormField::Reference => FormField::Lines,
            FormField::Lines => FormField::Date,
        }
    }

    pub fn prev(&self) -> (r: Self)
        ensures
            r == self.preceding(),
    {
        match self {
            FormField::Date => FormField::Lines,
            FormField::Memo => FormField::Date,
            FormField::Reference => FormField::Memo,
            FormField::Lines => FormField::Reference,
        }
    }
}

/// Tab and Shift-Tab undo each other and go through all four fields.
pub proof fn fields_form_a_cycle(f: FormField)
    ensures
        f.following().preceding() == f,
        f.preceding().following() == f,
        f.following().following().following().following() == f,
        f.following().following() != f,
{
}

/// What the keys do to the highlighted line.
#[derive(Debug, Clone, Copy, PartialEq, Eq, Structural)]
pub enum LineEditMode {
    Navigation,
    SelectAccount,
    EditAmount,
}

/// A line of the entry while it is typed.
pub struct EditableLine {
    pub account_id: Option<String>,
    pub account_display: String,
    pub debit_str: String,
    pub credit_str: String,
    /// Whether the debit is typed, or the credit.
    pub editing_debit: bool,
}

/// The meaning of a line of the entry while it is typed.
#[verifier::ext_equal]
pub ghost struct LineState {
    pub account_id: Option<Seq<char>>,
    pub display: Seq<char>,
    pub debit: Seq<char>,
    pub credit: Seq<char>,
    pub editing_debit: bool,
}

impl View for EditableLine {
    type V = LineState;

    open spec fn view(&self) -> LineState {
        LineState {
            account_id: text::opt_text(self.account_id),
            display: self.account_display@,
            debit: self.debit_str@,
            credit: self.credit_str@,
            editing_debit: self.editing_debit,
        }
    }
}

pub open spec fn line_states(v: Seq<EditableLine>) -> Seq<LineState> {
    v.map_values(|l: EditableLine| l@)
}

/// Whether a text holds nothing but digits and points.
pub open spec fn is_typed_amount(s: Seq<char>) -> bool {
    forall|i: int| 0 <= i < s.len() ==> input::is_digit(#[trigger] s[i]) || s[i] == '.'
}

/// The cents a typed amount stands for; nothing if it is no number.
pub open spec fn cents_of(s: Seq<char>) -> int {
    match money::cents_of_number(s) {
        Some(c) => c,
        None => 0,
    }
}

/// Reads a typed amount as cents.
pub fn parse_amount(s: &str) -> (r: i64)
    requires
        is_typed_amount(s@),
    ensures
        r == cents_of(s@),
{
    let chars = text::chars_of(s);
    match money::parse_cents(&chars) {
        Some(c) => c,
        None => 0,
    }
}

/// The absolute value in 64 bits.
pub open spec fn absolute(n: int) -> int {
    if n < 0 {
        money::wrap64(-n)
    } else {
        n
    }
}

pub fn format_cents(cents: i64) -> (r: String)
    ensures
        r@ == money::signed_dollars(absolute(cents as int)),
{
    if cents < 0 {
        money::signed_dollar_text(money::negated(cents))
    } else {
        money::signed_dollar_text(cents)
    }
}

impl LineState {
    pub open spec fn fresh() -> LineState {
        LineState {
            account_id: None,
            display: "(Select account)"@,
            debit: Seq::empty(),
            credit: Seq::empty(),
            editing_debit: true,
        }
    }

    pub open spec fn wf(self) -> bool {
        is_typed_amount(self.debit) && is_typed_amount(self.credit)
    }

    pub open spec fn amount(self) -> int {
        money::wrap64(cents_of(self.debit) - cents_of(self.credit))
    }

    pub open spec fn complete(self) -> bool {
        self.account_id is Some && self.amount() != 0
    }

    pub open spec fn data(self) -> EntryLine {
        EntryLine {
            account_id: self.account_id->0,
            account_display: self.display,
            amount: self.amount(),
        }
    }

    /// One more character of the amount being typed; the other side is emptied.
    pub open spec fn typed(self, c: char) -> LineState {
        if self.editing_debit {
            LineState { debit: self.debit.push(c), credit: Seq::empty(), ..self }
        } else {
            LineState { credit: self.credit.push(c), debit: Seq::empty(), ..self }
        }
    }

    pub open spec fn shortened(self) -> LineState {
        if self.editing_debit {
            LineState { debit: text::without_last(self.debit), ..self }
        } else {
            LineState { credit: text::without_last(self.credit), ..self }
        }
    }

    /// The line on an account, its debit to be typed.
    pub open spec fn on_account(self, a: Account) -> LineState {
        LineState {
            account_id: Some(a.id@),
            display: account_text(a),
            editing_debit: true,
            ..self
        }
    }
}

impl EditableLine {
    pub fn new() -> (r: Self)
        ensures
            r@ == LineState::fresh(),
    {
        EditableLine {
            account_id: None,
            account_display: text::owned("(Select account)"),
            debit_str: String::new(),
            credit_str: String::new(),
            editing_debit: true,
        }
    }

    pub fn amount(&self) -> (r: i64)
        requires
            self@.wf(),
        ensures
            r == self@.amount(),
    {
        let debit: i64 = parse_amount(self.debit_str.as_str());
        let credit: i64 = parse_amount(self.credit_str.as_str());
        money::minus(debit, credit)
    }

    pub fn is_complete(&self) -> (r: bool)
        requires
            self@.wf(),
        ensures
            r == self@.complete(),
    {
        self.account_id.is_some() && self.amount() != 0
    }
}

/// An account with its number, as the form shows it.
pub open spec fn account_text(a: Account) -> Seq<char> {
    a.account_number@ + " - "@ + a.name@
}

fn show_account(a: &Account) -> (r: String)
    ensures
        r@ == account_text(*a),
{
    text::cat3(a.account_number.as_str(), " - ", a.name.as_str())
}

/// Whether an account is offered under a filter.
pub open spec fn account_fits(a: Account, filter: Seq<char>) -> bool {
    filter.len() == 0 || text::has_text(
        text::lowercase(account_text(a)),
        text::lowercase(filter),
    )
}

/// The form.
pub struct EntryForm {
    pub visible: bool,
    pub result: EntryFormResult,
    pub active_field: FormField,
    pub date_str: String,
    pub memo: String,
    pub reference: String,
    pub lines: Vec<EditableLine>,
    pub selected_line: usize,
    pub line_edit_mode: LineEditMode,
    pub available_accounts: Vec<Account>,
    pub account_list_state: Selection,
    pub account_filter: String,
    pub error_message: Option<String>,
}

/// The meaning of the form.
#[verifier::ext_equal]
pub ghost struct EntryFormState {
    pub visible: bool,
    pub result: EntryOutcome,
    pub active_field: FormField,
    pub date_str: Seq<char>,
    pub memo: Seq<char>,
    pub reference: Seq<char>,
    pub lines: Seq<LineState>,
    pub selected_line: int,
    pub line_edit_mode: LineEditMode,
    pub available_accounts: Seq<Account>,
    pub account_list_state: Selection,
    pub account_filter: Seq<char>,
    pub error_message: Option<Seq<char>>,
}

impl EntryFormState {
    /// The state of a new screen.
    pub open spec fn fresh() -> EntryFormState {
        EntryFormState {
            visible: false,
            result: EntryOutcome::Nothing,
            active_field: FormField::Date,
            date_str: Seq::empty(),
            memo: Seq::empty(),
            reference: Seq::empty(),
            lines: seq![LineState::fresh(), LineState::fresh()],
            selected_line: 0,
            line_edit_mode: LineEditMode::Navigation,
            available_accounts: Seq::empty(),
            account_list_state: Selection::at(0),
            account_filter: Seq::empty(),
            error_message: None,
        }
    }
}

impl View for EntryForm {
    type V = EntryFormState;

    open spec fn view(&self) -> EntryFormState {
        EntryFormState {
            visible: self.visible,
            result: self.result@,
            active_field: self.active_field,
            date_str: self.date_str@,
            memo: self.memo@,
            reference: self.reference@,
            lines: line_states(self.lines@),
            selected_line: self.selected_line as int,
            line_edit_mode: self.line_edit_mode,
            available_accounts: self.available_accounts@,
            account_list_state: self.account_list_state,
            account_filter: self.account_filter@,
            error_message: text::opt_text(self.error_message),
        }
    }
}

/// The complete ones of the lines.
pub open spec fn complete_lines(lines: Seq<LineState>) -> Seq<EntryLine>
    decreases lines.len(),
{
    if lines.len() == 0 {
        Seq::empty()
    } else {
        let before = complete_lines(lines.drop_last());
        if lines.last().complete() {
            before.push(lines.last().data())
        } else {
            before
        }
    }
}

/// The sum of the amounts of the lines of an entry.
pub open spec fn total(lines: Seq<EntryLine>) -> int
    decreases lines.len(),
{
    if lines.len() == 0 {
        0
    } else {
        total(lines.drop_last()) + lines.last().amount
    }
}

/// The sum of the amounts of all lines, complete or not.
pub open spec fn total_typed(lines: Seq<LineState>) -> int
    decreases lines.len(),
{
    if lines.len() == 0 {
        0
    } else {
        total_typed(lines.drop_last()) + lines.last().amount()
    }
}

/// A trimmed text, if anything is left of it.
pub open spec fn given(s: Seq<char>) -> Option<Seq<char>> {
    if text::trimmed(s).len() == 0 {
        None
    } else {
        Some(text::trimmed(s))
    }
}

/// A trimmed text, if anything is left of it.
pub fn given_text(s: &str) -> (r: Option<String>)
    ensures
        text::opt_text(r) == given(s@),
{
    let t = text::trim(s);
    if t.as_str().unicode_len() == 0 {
        None
    } else {
        Some(t)
    }
}

impl EntryFormState {
    /// There are at least two lines, one of them is highlighted, and amounts
    /// hold nothing but digits and points.
    pub open spec fn wf(self) -> bool {
        &&& self.lines.len() >= 2
        &&& 0 <= self.selected_line < self.lines.len()
        &&& forall|i: int| 0 <= i < self.lines.len() ==> (#[trigger] self.lines[i]).wf()
    }

    /// The accounts offered, by position.
    pub open spec fn filtered(self) -> Seq<usize> {
        lists::positions(
            self.available_accounts.len(),
            |i: int| account_fits(self.available_accounts[i], self.account_filter),
        )
    }

    pub open spec fn failed(self, message: Seq<char>, field: FormField) -> EntryFormState {
        EntryFormState { error_message: Some(message), active_field: field, ..self }
    }

    /// The form after an attempt to submit it: an entry, or the reason why it
    /// is none.
    pub open spec fn submitted(self) -> EntryFormState {
        let lines = complete_lines(self.lines);
        match date::date_in_format(self.date_str, "%Y-%m-%d"@) {
            None => self.failed("Invalid date format (use YYYY-MM-DD)"@, FormField::Date),
            Some(day) => if lines.len() < 2 {
                self.failed("At least 2 complete lines required"@, FormField::Lines)
            } else if money::wrap64(total(lines)) != 0 {
                self.failed(
                    "Entry not balanced (off by "@ + money::signed_dollars(
                        absolute(money::wrap64(total(lines))),
                    ) + ")"@,
                    FormField::Lines,
                )
            } else {
                EntryFormState {
                    result: EntryOutcome::Submit(
                        EntryData {
                            date: day,
                            memo: text::trimmed(self.memo),
                            reference: given(self.reference),
                            lines,
                        },
                    ),
                    ..self
                }
            },
        }
    }

    pub open spec fn current(self) -> LineState {
        self.lines[self.selected_line]
    }

    pub open spec fn with_current(self, line: LineState) -> EntryFormState {
        EntryFormState { lines: self.lines.update(self.selected_line, line), ..self }
    }

    /// The account list opened with the given item highlighted.
    pub open spec fn picking(self, index: usize) -> EntryFormState {
        EntryFormState {
            line_edit_mode: LineEditMode::SelectAccount,
            account_filter: Seq::empty(),
            account_list_state: self.account_list_state.moved(Some(index)),
            ..self
        }
    }

    /// Where the account of the highlighted line stands in the list.
    pub open spec fn account_place(self) -> usize {
        match self.current().account_id {
            Some(id) => match domain::place_of(self.available_accounts, id) {
                Some(i) => i,
                None => 0,
            },
            None => 0,
        }
    }

    pub open spec fn refiltered(self, filter: Seq<char>) -> EntryFormState {
        EntryFormState {
            account_filter: filter,
            account_list_state: self.account_list_state.moved(Some(0)),
            ..self
        }
    }

    /// The place highlighted in the account list.
    pub open spec fn place(self) -> usize {
        match self.account_list_state.selected {
            Some(i) => i,
            None => 0,
        }
    }

    pub open spec fn picked(self) -> EntryFormState {
        let offered = self.filtered();
        if self.place() < offered.len() {
            let a = self.available_accounts[offered[self.place() as int] as int];
            EntryFormState {
                line_edit_mode: LineEditMode::EditAmount,
                account_filter: Seq::empty(),
                ..self.with_current(self.current().on_account(a))
            }
        } else {
            self
        }
    }

    pub open spec fn after_account_key(self, key: KeyCode) -> EntryFormState {
        let n = self.filtered().len();
        match key {
            KeyCode::Esc => EntryFormState {
                line_edit_mode: LineEditMode::Navigation,
                account_filter: Seq::empty(),
                ..self
            },
            KeyCode::Enter => self.picked(),
            KeyCode::Up => if n == 0 {
                self
            } else {
                EntryFormState {
                    account_list_state: self.account_list_state.moved(
                        Some(selection::up_around(Some(self.place()), n)),
                    ),
                    ..self
                }
            },
            KeyCode::Down => if n == 0 {
                self
            } else {
                EntryFormState {
                    account_list_state: self.account_list_state.moved(
                        Some(selection::down_around(Some(self.place()), n)),
                    ),
                    ..self
                }
            },
            KeyCode::Char(c) => self.refiltered(self.account_filter.push(c)),
            KeyCode::Backspace => self.refiltered(text::without_last(self.account_filter)),
            _ => self,
        }
    }

    pub open spec fn after_amount_key(self, key: KeyCode) -> EntryFormState {
        match key {
            KeyCode::Esc => EntryFormState { line_edit_mode: LineEditMode::Navigation, ..self },
            KeyCode::Enter => EntryFormState {
                line_edit_mode: LineEditMode::Navigation,
                error_message: None,
                ..self
            },
            KeyCode::Tab => self.with_current(
                LineState { editing_debit: !self.current().editing_debit, ..self.current() },
            ),
            KeyCode::Char(c) => if input::is_digit(c) || c == '.' {
                self.with_current(self.current().typed(c))
            } else {
                self
            },
            KeyCode::Backspace => self.with_current(self.current().shortened()),
            _ => self,
        }
    }

    pub open spec fn field_text(self) -> Seq<char> {
        match self.active_field {
            FormField::Date => self.date_str,
            FormField::Memo => self.memo,
            FormField::Reference => self.reference,
            FormField::Lines => Seq::empty(),
        }
    }

    pub open spec fn with_field(self, s: Seq<char>) -> EntryFormState {
        match self.active_field {
            FormField::Date => EntryFormState { date_str: s, error_message: None, ..self },
            FormField::Memo => EntryFormState { memo: s, error_message: None, ..self },
            FormField::Reference => EntryFormState { reference: s, error_message: None, ..self },
            FormField::Lines => self,
        }
    }

    pub open spec fn after_field_key(self, key: KeyCode) -> EntryFormState {
        match key {
            KeyCode::Char(c) => self.with_field(self.field_text().push(c)),
            KeyCode::Backspace => self.with_field(text::without_last(self.field_text())),
            _ => self,
        }
    }

    /// Enter on the lines: the amount of a line that has an account, the
    /// account of a line that has none.
    pub open spec fn line_entered(self) -> EntryFormState {
        if self.current().account_id is Some {
            EntryFormState {
                line_edit_mode: LineEditMode::EditAmount,
                ..self.with_current(LineState { editing_debit: true, ..self.current() })
            }
        } else {
            self.picking(0)
        }
    }

    pub open spec fn line_added(self) -> EntryFormState {
        EntryFormState {
            lines: self.lines.push(LineState::fresh()),
            selected_line: self.lines.len() as int,
            ..self
        }
    }

    /// The highlighted line removed, unless only two are left.
    pub open spec fn line_removed(self) -> EntryFormState {
        if self.lines.len() > 2 {
            EntryFormState {
                lines: self.lines.remove(self.selected_line),
                selected_line: if self.selected_line >= self.lines.len() - 1 {
                    self.lines.len() - 2
                } else {
                    self.selected_line
                },
                ..self
            }
        } else {
            self
        }
    }

    pub open spec fn after_lines_key(self, key: KeyCode) -> EntryFormState {
        match key {
            KeyCode::Enter => self.line_entered(),
            KeyCode::Char('n') => self.line_added(),
            KeyCode::Char('a') => self.picking(self.account_place()),
            KeyCode::Char('d') => self.line_removed(),
            KeyCode::Up | KeyCode::Char('k') => EntryFormState {
                selected_line: if self.selected_line > 0 {
                    self.selected_line - 1
                } else {
                    self.selected_line
                },
                ..self
            },
            KeyCode::Down | KeyCode::Char('j') => EntryFormState {
                selected_line: if self.selected_line < self.lines.len() - 1 {
                    self.selected_line + 1
                } else {
                    self.selected_line
                },
                ..self
            },
            _ => self,
        }
    }

    pub open spec fn after_key(self, key: KeyCode, modifiers: KeyModifiers) -> EntryFormState {
        if modifiers.control && (key == KeyCode::Enter || key == KeyCode::Char('s')) {
            self.submitted()
        } else if self.line_edit_mode == LineEditMode::SelectAccount {
            self.after_account_key(key)
        } else if self.line_edit_mode == LineEditMode::EditAmount {
            self.after_amount_key(key)
        } else {
            match key {
                KeyCode::Esc => EntryFormState { result: EntryOutcome::Cancel, ..self },
                KeyCode::Tab => EntryFormState {
                    active_field: self.active_field.following(),
                    ..self
                },
                KeyCode::BackTab => EntryFormState {
                    active_field: self.active_field.preceding(),
                    ..self
                },
                _ => if self.active_field == FormField::Lines {
                    self.after_lines_key(key)
                } else if key == KeyCode::Enter {
                    self.submitted()
                } else {
                    self.after_field_key(key)
                },
            }
        }
    }
}

proof fn complete_lines_have_amounts(lines: Seq<LineState>)
    ensures
        complete_lines(lines).len() <= lines.len(),
        forall|i: int|
            0 <= i < complete_lines(lines).len() ==> (#[trigger] complete_lines(lines)[i]).amount
                != 0,
    decreases lines.len(),
{
    if lines.len() > 0 {
        complete_lines_have_amounts(lines.drop_last());
    }
}

/// An entry that the form submits is balanced and has at least two lines, none
/// of them empty.
pub proof fn submitted_entries_balance(s: EntryFormState)
    requires
        !(s.result is Submit),
        s.submitted().result is Submit,
    ensures
        ({
            let e = s.submitted().result->Submit_0;
            &&& e.lines.len() >= 2
            &&& money::wrap64(total(e.lines)) == 0
            &&& forall|i: int| 0 <= i < e.lines.len() ==> (#[trigger] e.lines[i]).amount != 0
        }),
{
    complete_lines_have_amounts(s.lines);
}

proof fn complete_lines_by_field(lines: Seq<LineState>, p: spec_fn(LineState) -> bool)
    requires
        forall|l: LineState| #[trigger]
            p(l) == (l.account_id is Some && money::wrap64(cents_of(l.debit) - cents_of(l.credit))
                != 0),
    ensures
        complete_lines(lines).len() == lines.filter(p).len(),
        forall|i: int|
            0 <= i < lines.filter(p).len() ==> {
                let typed = #[trigger] lines.filter(p)[i];
                let line = complete_lines(lines)[i];
                &&& typed.account_id == Some(line.account_id)
                &&& line.account_display == typed.display
                &&& line.amount == money::wrap64(cents_of(typed.debit) - cents_of(typed.credit))
            },
    decreases lines.len(),
{
    reveal(Seq::filter);
    if lines.len() > 0 {
        complete_lines_by_field(lines.drop_last(), p);
        let before = lines.drop_last().filter(p);
        assert(p(lines.last()) == lines.last().complete());
        assert forall|i: int| 0 <= i < lines.filter(p).len() implies ({
            let typed = #[trigger] lines.filter(p)[i];
            let line = complete_lines(lines)[i];
            &&& typed.account_id == Some(line.account_id)
            &&& line.account_display == typed.display
            &&& line.amount == money::wrap64(cents_of(typed.debit) - cents_of(typed.credit))
        }) by {
            if i < before.len() {
                assert(lines.filter(p)[i] == before[i]);
            }
        }
    }
}

/// The lines of an entry that the form submits are the typed lines that have an
/// account and do not cancel out, in order and each on its own account. Debits
/// count up and credits count down: a line with only a debit carries the typed
/// amount, a line with only a credit its opposite.
pub proof fn submitted_lines_are_as_typed(s: EntryFormState)
    requires
        !(s.result is Submit),
        s.submitted().result is Submit,
    ensures
        ({
            let lines = s.submitted().result->Submit_0.lines;
            let typed = s.lines.filter(
                |l: LineState|
                    l.account_id is Some && money::wrap64(cents_of(l.debit) - cents_of(l.credit))
                        != 0,
            );
            &&& lines.len() == typed.len()
            &&& forall|i: int|
                0 <= i < lines.len() ==> {
                    let line = #[trigger] lines[i];
                    let debit = cents_of(typed[i].debit);
                    let credit = cents_of(typed[i].credit);
                    &&& typed[i].account_id == Some(line.account_id)
                    &&& line.account_display == typed[i].display
                    &&& line.amount == money::wrap64(debit - credit)
                    &&& credit == 0 && i64::MIN <= debit <= i64::MAX ==> line.amount == debit
                    &&& debit == 0 && i64::MIN < credit <= i64::MAX ==> line.amount == -credit
                }
        }),
{
    let p = |l: LineState|
        l.account_id is Some && money::wrap64(cents_of(l.debit) - cents_of(l.credit)) != 0;
    complete_lines_by_field(s.lines, p);
    let lines = s.submitted().result->Submit_0.lines;
    let typed = s.lines.filter(p);
    assert(lines == complete_lines(s.lines));
    assert forall|i: int| 0 <= i < lines.len() implies ({
        let line = #[trigger] lines[i];
        let debit = cents_of(typed[i].debit);
        let credit = cents_of(typed[i].credit);
        &&& typed[i].account_id == Some(line.account_id)
        &&& line.account_display == typed[i].display
        &&& line.amount == money::wrap64(debit - credit)
        &&& credit == 0 && i64::MIN <= debit <= i64::MAX ==> line.amount == debit
        &&& debit == 0 && i64::MIN < credit <= i64::MAX ==> line.amount == -credit
    }) by {
        assert(typed[i] == s.lines.filter(p)[i]);
    }
}

proof fn complete_total(lines: Seq<LineState>, p: spec_fn(LineState) -> bool)
    requires
        forall|l: LineState| #[trigger]
            p(l) == (l.account_id is Some && money::wrap64(cents_of(l.debit) - cents_of(l.credit))
                != 0),
    ensures
        money::wrap64(total(complete_lines(lines))) == money::wrap64(
            lists::sum_at(
                lines.filter(p).len(),
                |i: int| cents_of(lines.filter(p)[i].debit) - cents_of(lines.filter(p)[i].credit),
            ),
        ),
    decreases lines.len(),
{
    reveal(Seq::filter);
    if lines.len() > 0 {
        let last = lines.last();
        let before = lines.drop_last();
        let less = |i: int| cents_of(before.filter(p)[i].debit) - cents_of(before.filter(p)[i].credit);
        let more = |i: int| cents_of(lines.filter(p)[i].debit) - cents_of(lines.filter(p)[i].credit);
        complete_total(before, p);
        assert(p(last) == last.complete());
        lists::sums_agree(before.filter(p).len(), less, more);
        if last.complete() {
            let n = before.filter(p).len();
            let d = cents_of(last.debit) - cents_of(last.credit);
            let t = total(complete_lines(before));
            let u = lists::sum_at(n, more);
            assert(complete_lines(lines).drop_last() =~= complete_lines(before));
            assert(lines.filter(p)[n as int] == last);
            money::wrapping_is_uniform(d, t);
            money::wrapping_is_uniform(t, d);
            money::wrapping_is_uniform(u, d);
        }
    }
}

/// The form submits an entry exactly if its day is written as yyyy-mm-dd, at
/// least two lines are complete, and their debits and credits cancel out. The
/// entry has that day and the memo without surrounding white space.
pub proof fn balanced_entries_are_submitted(s: EntryFormState)
    requires
        !(s.result is Submit),
    ensures
        ({
            let typed = s.lines.filter(
                |l: LineState|
                    l.account_id is Some && money::wrap64(cents_of(l.debit) - cents_of(l.credit))
                        != 0,
            );
            let day = date::date_in_format(s.date_str, "%Y-%m-%d"@);
            let sum = lists::sum_at(
                typed.len(),
                |i: int| cents_of(typed[i].debit) - cents_of(typed[i].credit),
            );
            let after = s.submitted();
            &&& after.result is Submit <==> day is Some && typed.len() >= 2 && money::wrap64(sum)
                == 0
            &&& after.result matches EntryOutcome::Submit(e) ==> Some(e.date) == day && e.memo
                == text::trimmed(s.memo)
            &&& !(after.result is Submit) ==> after.result == s.result && after.error_message
                is Some
            &&& after.lines == s.lines
        }),
{
    let p = |l: LineState|
        l.account_id is Some && money::wrap64(cents_of(l.debit) - cents_of(l.credit)) != 0;
    let typed = s.lines.filter(p);
    complete_lines_by_field(s.lines, p);
    complete_total(s.lines, p);
    lists::sums_agree(
        typed.len(),
        |i: int| cents_of(typed[i].debit) - cents_of(typed[i].credit),
        |i: int| cents_of(s.lines.filter(p)[i].debit) - cents_of(s.lines.filter(p)[i].credit),
    );
}

/// An entry is dated by the numbers that were typed, the year first, the month
/// second and the day last; nothing is submitted if they are no day of the
/// calendar.
pub proof fn entries_are_dated_as_typed(
    s: EntryFormState,
    year: Seq<char>,
    month: Seq<char>,
    day: Seq<char>,
)
    requires
        !(s.result is Submit),
        s.date_str == date::joined(year, month, day, '-'),
        date::are_numbers(year, month, day, '-'),
        date::reads_numbers(
            s.date_str,
            "%Y-%m-%d"@,
            date::date_in_format(s.date_str, "%Y-%m-%d"@),
        ),
    ensures
        s.submitted().result matches EntryOutcome::Submit(e) ==> Some(e.date)
            == date::written_day(year, month, day),
        date::written_day(year, month, day) is None ==> !(s.submitted().result is Submit),
{
}

proof fn typed_total(lines: Seq<LineState>, amount: spec_fn(int) -> int)
    requires
        forall|i: int|
            0 <= i < lines.len() ==> #[trigger] amount(i) == cents_of(lines[i].debit) - cents_of(
                lines[i].credit,
            ),
    ensures
        money::wrap64(total_typed(lines)) == money::wrap64(lists::sum_at(lines.len(), amount)),
    decreases lines.len(),
{
    if lines.len() > 0 {
        let before = lines.drop_last();
        typed_total(before, amount);
        let n = lines.len() - 1;
        let d = amount(n);
        let t = total_typed(before);
        let u = lists::sum_at(n as nat, amount);
        assert(d == cents_of(lines[n].debit) - cents_of(lines[n].credit));
        money::wrapping_is_uniform(d, t);
        money::wrapping_is_uniform(t, d);
        money::wrapping_is_uniform(u, d);
    }
}

/// The form tells whether all typed debits and credits cancel out, and if not,
/// which side exceeds the other one and by how much.
pub proof fn the_exceeding_side_is_told(s: EntryFormState, theme: &Theme)
    ensures
        ({
            let sum = lists::sum_at(
                s.lines.len(),
                |i: int| cents_of(s.lines[i].debit) - cents_of(s.lines[i].credit),
            );
            let told = s.balance_line(theme)[1].0;
            &&& s.balance_line(theme).len() == 2
            &&& sum == 0 ==> told == "Balanced"@
            &&& 0 < sum <= i64::MAX ==> told == "Debits exceed by "@ + money::signed_dollars(sum)
            &&& i64::MIN < sum < 0 ==> told == "Credits exceed by "@ + money::signed_dollars(-sum)
        }),
{
    let amount = |i: int| cents_of(s.lines[i].debit) - cents_of(s.lines[i].credit);
    typed_total(s.lines, amount);
    let sum = lists::sum_at(s.lines.len(), amount);
    money::wrapping_is_uniform(sum, 0);
    money::wrapping_is_uniform(-sum, 0);
}

/// A line shows its account, its debit and its credit in this order; what is
/// being typed stands on its own side.
pub proof fn sides_of_a_line_are_kept_apart(s: EntryFormState, i: int, theme: &Theme)
    requires
        0 <= i < s.lines.len(),
        s.line_edit_mode is Navigation || i != s.selected_line || !(s.active_field is Lines),
    ensures
        ({
            let cells = s.line_row(i, theme).cells;
            let line = s.lines[i];
            &&& cells.len() == 3
            &&& cells[0].0 == line.display
            &&& line.debit.len() > 0 && i64::MIN < cents_of(line.debit) ==> cells[1].0
                == money::signed_dollars(
                if cents_of(line.debit) < 0 {
                    -cents_of(line.debit)
                } else {
                    cents_of(line.debit)
                },
            )
            &&& line.debit.len() == 0 ==> cells[1].0.len() == 0
            &&& line.credit.len() > 0 && i64::MIN < cents_of(line.credit) ==> cells[2].0
                == money::signed_dollars(
                if cents_of(line.credit) < 0 {
                    -cents_of(line.credit)
                } else {
                    cents_of(line.credit)
                },
            )
            &&& line.credit.len() == 0 ==> cells[2].0.len() == 0
        }),
{
}

/// Choosing an account puts the highlighted one of the offered accounts on the
/// line, whose amounts stay, and leaves all other lines alone.
pub proof fn picking_changes_one_line(s: EntryFormState)
    requires
        s.account_list_state.selected is Some,
        s.account_list_state.selected->0 < s.filtered().len(),
        0 <= s.selected_line < s.lines.len(),
    ensures
        ({
            let a = s.available_accounts[s.filtered()[s.account_list_state.selected->0 as int] as int];
            let t = s.picked();
            let k = s.selected_line as int;
            &&& t.lines.len() == s.lines.len()
            &&& t.lines[k].account_id == Some(a.id@)
            &&& t.lines[k].debit == s.lines[k].debit
            &&& t.lines[k].credit == s.lines[k].credit
            &&& forall|i: int|
                0 <= i < s.lines.len() && i != k ==> #[trigger] t.lines[i] == s.lines[i]
        }),
{
}

/// What is typed goes to the side of the line that is being edited.
pub proof fn typing_goes_to_the_edited_side(l: LineState, c: char)
    ensures
        l.editing_debit ==> l.typed(c).debit == l.debit.push(c) && l.typed(c).credit.len() == 0,
        !l.editing_debit ==> l.typed(c).credit == l.credit.push(c) && l.typed(c).debit.len() == 0,
        l.typed(c).account_id == l.account_id,
{
}

/// Dollars typed as a debit, with or without cents, are submitted as that many
/// cents; typed as a credit, as the opposite.
pub proof fn typed_dollars_are_submitted(l: LineState, whole: Seq<char>, fraction: Seq<char>)
    requires
        whole.len() > 0,
        money::all_digits(whole),
        money::all_digits(fraction),
        fraction.len() <= 2,
        money::digits_value(whole) < 0xfff_ffff_ffff,
    ensures
        ({
            let cents = 100 * money::digits_value(whole) + (if fraction.len() == 2 {
                money::digits_value(fraction)
            } else {
                10 * money::digits_value(fraction)
            });
            let typed = if fraction.len() == 0 {
                whole
            } else {
                whole + seq!['.'] + fraction
            };
            &&& l.debit == typed && l.credit.len() == 0 ==> l.data().amount == cents
            &&& l.credit == typed && l.debit.len() == 0 ==> l.data().amount == -cents
        }),
{
    money::amounts_are_read_to_the_cent(whole, fraction);
    money::digits_are_bounded(fraction);
    reveal_with_fuel(money::ten_to, 3);
    let nothing = Seq::<char>::empty();
    assert(cents_of(nothing) == 0) by {
        text::find_char_is(nothing, '.', 0);
    }
    assert(l.credit.len() == 0 ==> l.credit =~= nothing);
    assert(l.debit.len() == 0 ==> l.debit =~= nothing);
}

/// Typing an amount on one side of a line empties the other side.
pub proof fn a_line_has_one_side(l: LineState, c: char)
    ensures
        l.typed(c).debit.len() == 0 || l.typed(c).credit.len() == 0,
{
}

/// Whether a line of an entry puts what was typed on the account of the typed
/// line: the debit less the credit.
spec fn taken_from(line: EntryLineData, typed: EditableLine) -> bool {
    &&& typed.account_id is Some
    &&& line.account_id@ == typed.account_id->0@
    &&& line.account_display@ == typed.account_display@
    &&& line.amount == money::wrap64(cents_of(typed.debit_str@) - cents_of(typed.credit_str@))
}

proof fn total_by_field(lines: Seq<EntryLine>, amount: spec_fn(int) -> int)
    requires
        forall|i: int| 0 <= i < lines.len() ==> #[trigger] amount(i) == lines[i].amount,
    ensures
        total(lines) == lists::sum_at(lines.len(), amount),
    decreases lines.len(),
{
    if lines.len() > 0 {
        total_by_field(lines.drop_last(), amount);
        assert(amount(lines.len() - 1) == lines.last().amount);
    }
}

impl EntryForm {
    pub fn new() -> (r: Self)
        ensures
            r@ == EntryFormState::fresh(),
            r@.wf(),
    {
        let mut lines: Vec<EditableLine> = Vec::new();
        lines.push(EditableLine::new());
        lines.push(EditableLine::new());
        assert(line_states(lines@) =~= seq![LineState::fresh(), LineState::fresh()]);
        EntryForm {
            visible: false,
            result: EntryFormResult::Nothing,
            active_field: FormField::Date,
            date_str: String::new(),
            memo: String::new(),
            reference: String::new(),
            lines,
            selected_line: 0,
            line_edit_mode: LineEditMode::Navigation,
            available_accounts: Vec::new(),
            account_list_state: Selection::at(0),
            account_filter: String::new(),
            error_message: None,
        }
    }

    /// Opens the form for an entry of today.
    pub fn show(&mut self, existing_accounts: Vec<Account>, today: Date)
        ensures
            final(self)@ == old(self)@.opened(existing_accounts@, None, today),
            final(self)@.wf(),
    {
        self.show_with_account(existing_accounts, None, today);
    }

    /// Opens the form for an entry of today, its first line on an account.
    pub fn show_with_account(
        &mut self,
        existing_accounts: Vec<Account>,
        preselected: Option<&Account>,
        today: Date,
    )
        ensures
            final(self)@ == old(self)@.opened(
                existing_accounts@,
                match preselected {
                    Some(a) => Some(*a),
                    None => None,
                },
                today,
            ),
            final(self)@.wf(),
    {
        let mut first = EditableLine::new();
        if let Some(account) = preselected {
            first.account_id = Some(account.id.clone());
            first.account_display = show_account(account);
        }
        let mut lines: Vec<EditableLine> = Vec::new();
        lines.push(first);
        lines.push(EditableLine::new());
        assert(line_states(lines@) =~= seq![lines@[0]@, lines@[1]@]);
        self.visible = true;
        self.result = EntryFormResult::Nothing;
        self.active_field = FormField::Date;
        self.date_str = today.iso_text();
        self.memo.clear();
        self.reference.clear();
        self.lines = lines;
        self.selected_line = 0;
        self.line_edit_mode = LineEditMode::Navigation;
        self.available_accounts = existing_accounts;
        self.error_message = None;
        self.account_list_state = self.account_list_state.moved(Some(0));
        self.account_filter.clear();
    }

    /// Closes the form.
    pub fn close(&mut self)
        ensures
            final(self)@ == (EntryFormState { visible: false, ..old(self)@ }),
    {
        self.visible = false;
    }

    pub fn handle_key(&mut self, key: KeyCode)
        requires
            old(self)@.wf(),
        ensures
            final(self)@ == old(self)@.after_key(key, KeyModifiers::none()),
            final(self)@.wf(),
    {
        self.handle_key_with_modifiers(key, KeyModifiers::none());
    }

    pub fn handle_key_with_modifiers(&mut self, key: KeyCode, modifiers: KeyModifiers)
        requires
            old(self)@.wf(),
        ensures
            final(self)@ == old(self)@.after_key(key, modifiers),
            final(self)@.wf(),
    {
        if modifiers.control && (key == KeyCode::Enter || key == KeyCode::Char('s')) {
            self.submit();
            return ;
        }
        match self.line_edit_mode {
            LineEditMode::SelectAccount => {
                self.handle_account_selection_key(key);
                return ;
            },
            LineEditMode::EditAmount => {
                self.handle_amount_edit_key(key);
                return ;
            },
            LineEditMode::Navigation => {},
        }
        match key {
            KeyCode::Esc => {
                self.result = EntryFormResult::Cancel;
            },
            KeyCode::Tab => {
                self.active_field = self.active_field.next();
            },
            KeyCode::BackTab => {
                self.active_field = self.active_field.prev();
            },
            _ => {
                if self.active_field == FormField::Lines {
                    self.handle_lines_key(key);
                } else if key == KeyCode::Enter {
                    self.submit();
                } else {
                    self.handle_field_input(key);
                }
            },
        }
    }

    fn account_place(&self) -> (r: usize)
        requires
            self@.wf(),
        ensures
            r == self@.account_place(),
    {
        assert(self@.current() == self.lines@[self.selected_line as int]@);
        match &self.lines[self.selected_line].account_id {
            Some(id) => {
                match domain::find_account(&self.available_accounts, id.as_str()) {
                    Some(i) => i,
                    None => 0,
                }
            },
            None => 0,
        }
    }

    fn open_picker(&mut self, index: usize)
        ensures
            final(self)@ == old(self)@.picking(index),
    {
        self.line_edit_mode = LineEditMode::SelectAccount;
        self.account_filter.clear();
        self.account_list_state = self.account_list_state.moved(Some(index));
    }

    fn handle_lines_key(&mut self, key: KeyCode)
        requires
            old(self)@.wf(),
        ensures
            final(self)@ == old(self)@.after_lines_key(key),
            final(self)@.wf(),
    {
        match key {
            KeyCode::Enter => {
                self.enter_line();
            },
            KeyCode::Char('n') => {
                self.lines.push(EditableLine::new());
                self.selected_line = self.lines.len() - 1;
                assert(self@.lines =~= old(self)@.lines.push(LineState::fresh()));
            },
            KeyCode::Char('a') => {
                let at: usize = self.account_place();
                self.open_picker(at);
            },
            KeyCode::Char('d') => {
                if self.lines.len() > 2 {
                    self.lines.remove(self.selected_line);
                    if self.selected_line >= self.lines.len() {
                        self.selected_line = self.lines.len() - 1;
                    }
                    assert(self@.lines =~= old(self)@.lines.remove(old(self)@.selected_line));
                }
            },
            KeyCode::Up | KeyCode::Char('k') => {
                if self.selected_line > 0 {
                    self.selected_line = self.selected_line - 1;
                }
            },
            KeyCode::Down | KeyCode::Char('j') => {
                if self.selected_line < self.lines.len() - 1 {
                    self.selected_line = self.selected_line + 1;
                }
            },
            _ => {},
        }
    }

    fn set_current(&mut self, line: EditableLine)
        requires
            old(self)@.wf(),
            line@.wf(),
        ensures
            final(self)@ == old(self)@.with_current(line@),
            final(self)@.wf(),
    {
        self.lines.set(self.selected_line, line);
        assert(self@.lines =~= old(self)@.lines.update(old(self)@.selected_line, line@));
    }

    /// An exact copy of the highlighted line.
    fn current_line(&self) -> (r: EditableLine)
        requires
            self@.wf(),
        ensures
            r@ == self@.current(),
            r@.wf(),
    {
        let l = &self.lines[self.selected_line];
        EditableLine {
            account_id: text::clone_opt(&l.account_id),
            account_display: l.account_display.clone(),
            debit_str: l.debit_str.clone(),
            credit_str: l.credit_str.clone(),
            editing_debit: l.editing_debit,
        }
    }

    fn enter_line(&mut self)
        requires
            old(self)@.wf(),
        ensures
            final(self)@ == old(self)@.line_entered(),
            final(self)@.wf(),
    {
        if self.lines[self.selected_line].account_id.is_some() {
            let mut line = self.current_line();
            line.editing_debit = true;
            self.set_current(line);
            self.line_edit_mode = LineEditMode::EditAmount;
        } else {
            self.open_picker(0);
        }
    }

    fn handle_account_selection_key(&mut self, key: KeyCode)
        requires
            old(self)@.wf(),
        ensures
            final(self)@ == old(self)@.after_account_key(key),
            final(self)@.wf(),
    {
        let filtered = self.filtered_account_indices();
        let n: usize = filtered.len();
        let at: usize = match self.account_list_state.selected {
            Some(i) => i,
            None => 0,
        };
        match key {
            KeyCode::Esc => {
                self.line_edit_mode = LineEditMode::Navigation;
                self.account_filter.clear();
            },
            KeyCode::Enter => {
                if at < n {
                    let account = self.available_accounts[filtered[at]].duplicate();
                    let mut line = self.current_line();
                    line.account_id = Some(account.id.clone());
                    line.account_display = show_account(&account);
                    line.editing_debit = true;
                    assert(line@ =~= self@.current().on_account(account));
                    self.set_current(line);
                    self.line_edit_mode = LineEditMode::EditAmount;
                    self.account_filter.clear();
                }
            },
            KeyCode::Up => {
                if n > 0 {
                    let i: usize = selection::move_up_around(Some(at), n);
                    self.account_list_state = self.account_list_state.moved(Some(i));
                }
            },
            KeyCode::Down => {
                if n > 0 {
                    let i: usize = selection::move_down_around(Some(at), n);
                    self.account_list_state = self.account_list_state.moved(Some(i));
                }
            },
            KeyCode::Char(c) => {
                self.account_filter.push(c);
                self.account_list_state = self.account_list_state.moved(Some(0));
            },
            KeyCode::Backspace => {
                self.account_filter.pop();
                self.account_list_state = self.account_list_state.moved(Some(0));
            },
            _ => {},
        }
    }

    /// The positions of the accounts that match the filter, whose number and
    /// name hold it in upper or lower case.
    pub fn filtered_account_indices(&self) -> (r: Vec<usize>)
        ensures
            r@ == self@.filtered(),
            forall|k: int|
                0 <= k < r@.len() ==> (#[trigger] r@[k]) < self.available_accounts@.len(),
    {
        let needle = self.account_filter.as_str().to_lowercase();
        let all: bool = self.account_filter.as_str().unicode_len() == 0;
        let mut out: Vec<usize> = Vec::new();
        let mut i: usize = 0;
        let ghost p = |i: int| account_fits(self.available_accounts@[i], self.account_filter@);
        while i < self.available_accounts.len()
            invariant
                i <= self.available_accounts@.len(),
                needle@ == text::lowercase(self.account_filter@),
                all == (self.account_filter@.len() == 0),
                p == (|i: int| account_fits(self.available_accounts@[i], self.account_filter@)),
                out@ == lists::positions(i as nat, p),
            decreases self.available_accounts@.len() - i,
        {
            let shown = show_account(&self.available_accounts[i]);
            let hay = shown.as_str().to_lowercase();
            let fits: bool = all || text::contains(hay.as_str(), needle.as_str());
            assert(fits == p(i as int));
            if fits {
                out.push(i);
            }
            i = i + 1;
        }
        proof {
            lists::positions_are_exact(self.available_accounts@.len(), p);
            let q = |i: int| account_fits(self@.available_accounts[i], self@.account_filter);
            assert(p =~= q);
        }
        out
    }

    fn handle_amount_edit_key(&mut self, key: KeyCode)
        requires
            old(self)@.wf(),
        ensures
            final(self)@ == old(self)@.after_amount_key(key),
            final(self)@.wf(),
    {
        match key {
            KeyCode::Esc => {
                self.line_edit_mode = LineEditMode::Navigation;
            },
            KeyCode::Enter => {
                self.line_edit_mode = LineEditMode::Navigation;
                self.error_message = None;
            },
            KeyCode::Tab => {
                let mut line = self.current_line();
                line.editing_debit = !line.editing_debit;
                self.set_current(line);
            },
            KeyCode::Char(c) => {
                if input::ascii_digit(c) || c == '.' {
                    let mut line = self.current_line();
                    if line.editing_debit {
                        line.debit_str.push(c);
                        line.credit_str.clear();
                    } else {
                        line.credit_str.push(c);
                        line.debit_str.clear();
                    }
                    self.set_current(line);
                }
            },
            KeyCode::Backspace => {
                let mut line = self.current_line();
                if line.editing_debit {
                    line.debit_str.pop();
                } else {
                    line.credit_str.pop();
                }
                self.set_current(line);
            },
            _ => {},
        }
    }

    fn handle_field_input(&mut self, key: KeyCode)
        requires
            old(self)@.wf(),
        ensures
            final(self)@ == old(self)@.after_field_key(key),
            final(self)@.wf(),
    {
        match self.active_field {
            FormField::Date => match key {
                KeyCode::Char(c) => {
                    self.date_str.push(c);
                    self.error_message = None;
                },
                KeyCode::Backspace => {
                    self.date_str.pop();
                    self.error_message = None;
                },
                _ => {},
            },
            FormField::Memo => match key {
                KeyCode::Char(c) => {
                    self.memo.push(c);
                    self.error_message = None;
                },
                KeyCode::Backspace => {
                    self.memo.pop();
                    self.error_message = None;
                },
                _ => {},
            },
            FormField::Reference => match key {
                KeyCode::Char(c) => {
                    self.reference.push(c);
                    self.error_message = None;
                },
                KeyCode::Backspace => {
                    self.reference.pop();
                    self.error_message = None;
                },
                _ => {},
            },
            FormField::Lines => {},
        }
    }

    /// The complete lines, and the sum of their amounts.
    fn collect_lines(&self) -> (r: (Vec<EntryLineData>, i64))
        requires
            self@.wf(),
        ensures
            entry_lines(r.0@) == complete_lines(self@.lines),
            r.1 == money::wrap64(total(complete_lines(self@.lines))),
            ({
                let typed = self.lines@.filter(
                    |l: EditableLine|
                        l.account_id is Some && money::wrap64(
                            cents_of(l.debit_str@) - cents_of(l.credit_str@),
                        ) != 0,
                );
                &&& r.0@.len() == typed.len()
                &&& forall|i: int|
                    0 <= i < r.0@.len() ==> taken_from(#[trigger] r.0@[i], typed[i])
            }),
            r.1 == money::wrap64(lists::sum_at(r.0@.len(), |i: int| r.0@[i].amount as int)),
    {
        let ghost all = self@.lines;
        let ghost picked = |l: EditableLine|
            l.account_id is Some && money::wrap64(cents_of(l.debit_str@) - cents_of(l.credit_str@))
                != 0;
        proof {
            reveal(Seq::filter);
            assert(self.lines@.take(0).filter(picked) =~= Seq::<EditableLine>::empty());
        }
        let mut out: Vec<EntryLineData> = Vec::new();
        let mut sum: i64 = 0;
        let mut i: usize = 0;
        assert(complete_lines(all.take(0)) =~= Seq::<EntryLine>::empty());
        assert(entry_lines(out@) =~= complete_lines(all.take(0)));
        while i < self.lines.len()
            invariant
                i <= self.lines@.len(),
                all == self@.lines,
                self@.wf(),
                entry_lines(out@) == complete_lines(all.take(i as int)),
                sum == money::wrap64(total(complete_lines(all.take(i as int)))),
                picked == (|l: EditableLine|
                    l.account_id is Some && money::wrap64(
                        cents_of(l.debit_str@) - cents_of(l.credit_str@),
                    ) != 0),
                out@.len() == self.lines@.take(i as int).filter(picked).len(),
                forall|k: int|
                    0 <= k < out@.len() ==> taken_from(
                        #[trigger] out@[k],
                        self.lines@.take(i as int).filter(picked)[k],
                    ),
            decreases self.lines@.len() - i,
        {
            let line = &self.lines[i];
            assert(all[i as int] == line@);
            proof {
                reveal(Seq::filter);
                let some = self.lines@.take(i + 1);
                assert(some.drop_last() =~= self.lines@.take(i as int));
                assert(some.last() == *line);
                assert(picked(*line) == line@.complete());
                let upto = all.take(i + 1);
                assert(upto.drop_last() =~= all.take(i as int));
                assert(upto.last() == line@);
            }
            let amount: i64 = line.amount();
            if let Some(id) = &line.account_id {
                if amount != 0 {
                    let ghost before = complete_lines(all.take(i as int));
                    let ghost data = line@.data();
                    out.push(
                        EntryLineData {
                            account_id: id.clone(),
                            account_display: line.account_display.clone(),
                            amount,
                        },
                    );
                    proof {
                        assert(out@.last()@ =~= data);
                        assert(entry_lines(out@) =~= before.push(data));
                        assert(before.push(data).drop_last() =~= before);
                        money::wrapping_is_uniform(total(before), amount as int);
                    }
                    sum = money::plus(sum, amount);
                }
            }
            i = i + 1;
        }
        assert(all.take(i as int) =~= all);
        assert(self.lines@.take(i as int) =~= self.lines@);
        proof {
            total_by_field(entry_lines(out@), |i: int| out@[i].amount as int);
        }
        (out, sum)
    }

    fn submit(&mut self)
        requires
            old(self)@.wf(),
        ensures
            final(self)@ == old(self)@.submitted(),
            final(self)@.wf(),
            date::reads_numbers(
                old(self).date_str@,
                "%Y-%m-%d"@,
                date::date_in_format(old(self).date_str@, "%Y-%m-%d"@),
            ),
    {
        let day: Option<Date> = date::parse_in_format(self.date_str.as_str(), "%Y-%m-%d");
        let (lines, sum): (Vec<EntryLineData>, i64) = self.collect_lines();
        match day {
            None => {
                self.error_message = Some(text::owned("Invalid date format (use YYYY-MM-DD)"));
                self.active_field = FormField::Date;
            },
            Some(date) => {
                if lines.len() < 2 {
                    self.error_message = Some(text::owned("At least 2 complete lines required"));
                    self.active_field = FormField::Lines;
                } else if sum != 0 {
                    let off = format_cents(sum);
                    self.error_message = Some(
                        text::cat3("Entry not balanced (off by ", off.as_str(), ")"),
                    );
                    self.active_field = FormField::Lines;
                } else {
                    self.result = EntryFormResult::Submit(
                        NewEntryData {
                            date,
                            memo: text::trim(self.memo.as_str()),
                            reference: given_text(self.reference.as_str()),
                            lines,
                        },
                    );
                }
            },
        }
    }
}

impl EntryFormState {
    pub open spec fn opened(
        self,
        accounts: Seq<Account>,
        preselected: Option<Account>,
        today: Date,
    ) -> EntryFormState {
        EntryFormState {
            visible: true,
            result: EntryOutcome::Nothing,
            active_field: FormField::Date,
            date_str: today.iso(),
            memo: Seq::empty(),
            reference: Seq::empty(),
            lines: seq![
                match preselected {
                    Some(a) => LineState::fresh().on_account(a),
                    None => LineState::fresh(),
                },
                LineState::fresh(),
            ],
            selected_line: 0,
            line_edit_mode: LineEditMode::Navigation,
            available_accounts: accounts,
            account_list_state: self.account_list_state.moved(Some(0)),
            account_filter: Seq::empty(),
            error_message: None,
        }
    }
}

// ---- drawing ----

/// The form as it is drawn.
pub struct EntryFormPainting {
    pub date: FieldPainting,
    pub memo: FieldPainting,
    pub reference: FieldPainting,
    pub lines_border: Style,
    pub rows: Listing<Row>,
    pub balance: Line,
    pub help: Line,
    pub dropdown: Option<DropdownPainting>,
}

/// The list of accounts over the form; without a match a message in its place.
pub struct DropdownPainting {
    pub title: String,
    pub items: Line,
    pub no_match: bool,
}

pub open spec fn amount_cell(s: Seq<char>) -> Seq<char> {
    if s.len() == 0 {
        Seq::empty()
    } else {
        money::signed_dollars(absolute(cents_of(s)))
    }
}

fn show_amount(s: &str) -> (r: String)
    requires
        is_typed_amount(s@),
    ensures
        r@ == amount_cell(s@),
{
    if s.unicode_len() == 0 {
        String::new()
    } else {
        format_cents(parse_amount(s))
    }
}

impl EntryFormState {
    /// One line of the entry in the table.
    pub open spec fn line_row(self, i: int, theme: &Theme) -> RowView {
        let line = self.lines[i];
        let chosen = i == self.selected_line && self.active_field == FormField::Lines;
        let typing = chosen && self.line_edit_mode == LineEditMode::EditAmount;
        RowView {
            cells: seq![
                paint::raw_view(
                    if chosen && self.line_edit_mode == LineEditMode::SelectAccount {
                        line.display + " <selecting>"@
                    } else {
                        line.display
                    },
                ),
                paint::raw_view(
                    if typing && line.editing_debit {
                        line.debit + "|"@
                    } else {
                        amount_cell(line.debit)
                    },
                ),
                paint::raw_view(
                    if typing && !line.editing_debit {
                        line.credit + "|"@
                    } else {
                        amount_cell(line.credit)
                    },
                ),
            ],
            style: if chosen {
                theme.selected_style()
            } else {
                Style::plain()
            },
        }
    }

    pub open spec fn balance_line(self, theme: &Theme) -> LineView {
        let sum = money::wrap64(total_typed(self.lines));
        seq![
            paint::raw_view("  Balance: "@),
            (
                if sum == 0 {
                    "Balanced"@
                } else if sum > 0 {
                    "Debits exceed by "@ + money::signed_dollars(absolute(sum))
                } else {
                    "Credits exceed by "@ + money::signed_dollars(
                        absolute(money::wrap64(-sum)),
                    )
                },
                theme::colored(
                    if sum == 0 {
                        theme.success
                    } else {
                        theme.error
                    },
                ),
            ),
        ]
    }

    pub open spec fn help_line(self, theme: &Theme) -> LineView {
        match self.error_message {
            Some(e) => seq![(e, theme::colored(theme.error))],
            None => {
                let h = theme.header;
                let a = paint::hint(Seq::empty(), "Ctrl+S"@, ": save  "@, h);
                let b = paint::hint(a, "Tab"@, ": next  "@, h);
                let c = paint::hint(b, "a"@, ": account  "@, h);
                let d = paint::hint(c, "n"@, ": new line  "@, h);
                paint::hint(d, "Esc"@, ": cancel"@, h)
            },
        }
    }

    pub open spec fn dropdown_title(self) -> Seq<char> {
        if self.account_filter.len() == 0 {
            " Select Account (type to filter) "@
        } else {
            " Select Account: "@ + self.account_filter + "_ "@
        }
    }

    pub open spec fn offered(self) -> LineView {
        self.filtered().map_values(
            |i: usize| paint::raw_view(account_text(self.available_accounts[i as int])),
        )
    }
}

impl EntryForm {
    fn draw_line(&self, i: usize, theme: &Theme) -> (r: Row)
        requires
            self@.wf(),
            i < self.lines@.len(),
        ensures
            r@ == self@.line_row(i as int, theme),
    {
        let line = &self.lines[i];
        assert(self@.lines[i as int] == line@);
        let chosen: bool = i == self.selected_line && self.active_field == FormField::Lines;
        let typing: bool = chosen && self.line_edit_mode == LineEditMode::EditAmount;
        let account = if chosen && self.line_edit_mode == LineEditMode::SelectAccount {
            text::cat2(line.account_display.as_str(), " <selecting>")
        } else {
            line.account_display.clone()
        };
        let debit = if typing && line.editing_debit {
            text::cat2(line.debit_str.as_str(), "|")
        } else {
            show_amount(line.debit_str.as_str())
        };
        let credit = if typing && !line.editing_debit {
            text::cat2(line.credit_str.as_str(), "|")
        } else {
            show_amount(line.credit_str.as_str())
        };
        let cells = paint::list3(
            paint::raw_owned(account),
            paint::raw_owned(debit),
            paint::raw_owned(credit),
        );
        paint::row(
            cells,
            if chosen {
                theme.selected_style()
            } else {
                Style::plain()
            },
        )
    }

    fn sum_typed(&self) -> (r: i64)
        requires
            self@.wf(),
        ensures
            r == money::wrap64(total_typed(self@.lines)),
    {
        let ghost all = self@.lines;
        let mut sum: i64 = 0;
        let mut i: usize = 0;
        assert(all.take(0) =~= Seq::<LineState>::empty());
        while i < self.lines.len()
            invariant
                i <= self.lines@.len(),
                all == self@.lines,
                self@.wf(),
                sum == money::wrap64(total_typed(all.take(i as int))),
            decreases self.lines@.len() - i,
        {
            assert(all[i as int] == self.lines@[i as int]@);
            let amount: i64 = self.lines[i].amount();
            proof {
                let upto = all.take(i + 1);
                assert(upto.drop_last() =~= all.take(i as int));
                money::wrapping_is_uniform(total_typed(all.take(i as int)), amount as int);
            }
            sum = money::plus(sum, amount);
            i = i + 1;
        }
        assert(all.take(i as int) =~= all);
        sum
    }

    fn draw_balance(&self, theme: &Theme) -> (r: Line)
        requires
            self@.wf(),
        ensures
            r@ == self@.balance_line(theme),
    {
        let sum: i64 = self.sum_typed();
        let shown = if sum == 0 {
            text::owned("Balanced")
        } else if sum > 0 {
            let off = format_cents(sum);
            text::cat2("Debits exceed by ", off.as_str())
        } else {
            let off = format_cents(money::negated(sum));
            text::cat2("Credits exceed by ", off.as_str())
        };
        let color = if sum == 0 {
            theme.success
        } else {
            theme.error
        };
        paint::list2(
            paint::raw("  Balance: "),
            paint::styled_owned(shown, theme::colored(color)),
        )
    }

    fn draw_help(&self, theme: &Theme) -> (r: Line)
        ensures
            r@ == self@.help_line(theme),
    {
        match &self.error_message {
            Some(e) => paint::styled_line(e.as_str(), theme::colored(theme.error)),
            None => {
                let mut line: Line = Listing::new();
                paint::push_hint(&mut line, "Ctrl+S", ": save  ", theme.header);
                paint::push_hint(&mut line, "Tab", ": next  ", theme.header);
                paint::push_hint(&mut line, "a", ": account  ", theme.header);
                paint::push_hint(&mut line, "n", ": new line  ", theme.header);
                paint::push_hint(&mut line, "Esc", ": cancel", theme.header);
                line
            },
        }
    }

    fn draw_account_dropdown(&self) -> (r: Option<DropdownPainting>)
        ensures
            r is Some <==> self.available_accounts@.len() > 0,
            r is Some ==> {
                &&& r->0.title@ == self@.dropdown_title()
                &&& r->0.items@ == self@.offered()
                &&& r->0.no_match == (self@.filtered().len() == 0)
            },
    {
        if self.available_accounts.len() == 0 {
            return None;
        }
        let filtered = self.filtered_account_indices();
        let mut items: Line = Listing::new();
        let mut i: usize = 0;
        let ghost f = |i: usize| paint::raw_view(account_text(self@.available_accounts[i as int]));
        while i < filtered.len()
            invariant
                i <= filtered@.len(),
                f == (|i: usize|
                    paint::raw_view(account_text(self@.available_accounts[i as int]))),
                forall|k: int|
                    0 <= k < filtered@.len() ==> (#[trigger] filtered@[k])
                        < self.available_accounts@.len(),
                items@ =~= filtered@.take(i as int).map_values(f),
            decreases filtered@.len() - i,
        {
            paint::push_text(&mut items, show_account(&self.available_accounts[filtered[i]]));
            i = i + 1;
        }
        assert(filtered@.take(i as int) =~= filtered@);
        let title = if self.account_filter.as_str().unicode_len() == 0 {
            text::owned(" Select Account (type to filter) ")
        } else {
            text::cat3(" Select Account: ", self.account_filter.as_str(), "_ ")
        };
        Some(DropdownPainting { title, items, no_match: filtered.len() == 0 })
    }

    /// Where the list of accounts goes over the table of lines.
    pub fn dropdown_area(&self, anchor: Rect) -> (r: Rect)
        requires
            anchor.x < u16::MAX,
            anchor.y + 8 <= u16::MAX,
            self.available_accounts@.len() <= 65533,
        ensures
            r.x == anchor.x + 1,
            r.y == anchor.y + 3 + (if self.selected_line % 0x1_0000 < 5 {
                self.selected_line % 0x1_0000
            } else {
                5
            }),
            r.width == (if anchor.width < 2 {
                0
            } else if anchor.width - 2 < 50 {
                anchor.width - 2
            } else {
                50
            }),
            r.height == (if self@.filtered().len() == 0 {
                3
            } else if self@.filtered().len() + 2 < 12 {
                self@.filtered().len() + 2
            } else {
                12
            }),
    {
        let n: usize = self.filtered_account_indices().len();
        let height: u16 = if n == 0 {
            3
        } else if n < 10 {
            n as u16 + 2
        } else {
            12
        };
        let line: usize = self.selected_line % 0x1_0000;
        let down: u16 = if line < 5 {
            line as u16
        } else {
            5
        };
        let left: u16 = anchor.width.saturating_sub(2);
        Rect {
            x: anchor.x + 1,
            y: anchor.y + 3 + down,
            width: if left < 50 {
                left
            } else {
                50
            },
            height,
        }
    }

    /// Draws the form.
    pub fn draw(&self, theme: &Theme) -> (r: EntryFormPainting)
        requires
            self@.wf(),
        ensures
            r.date@ == widgets::input_field(
                "Date (YYYY-MM-DD)"@,
                self.date_str@,
                self.active_field == FormField::Date,
                '|',
                theme,
            ),
            r.memo@ == widgets::input_field(
                "Memo (optional)"@,
                self.memo@,
                self.active_field == FormField::Memo,
                '|',
                theme,
            ),
            r.reference@ == widgets::input_field(
                "Reference (optional)"@,
                self.reference@,
                self.active_field == FormField::Reference,
                '|',
                theme,
            ),
            r.lines_border == widgets::field_border(self.active_field == FormField::Lines, theme),
            r.rows@ == Seq::new(self.lines@.len(), |i: int| self@.line_row(i, theme)),
            r.balance@ == self@.balance_line(theme),
            r.help@ == self@.help_line(theme),
            r.dropdown is Some <==> self.line_edit_mode == LineEditMode::SelectAccount
                && self.available_accounts@.len() > 0,
            r.dropdown is Some ==> {
                &&& r.dropdown->0.title@ == self@.dropdown_title()
                &&& r.dropdown->0.items@ == self@.offered()
                &&& r.dropdown->0.no_match == (self@.filtered().len() == 0)
            },
    {
        let date = widgets::draw_input(
            "Date (YYYY-MM-DD)",
            self.date_str.as_str(),
            self.active_field == FormField::Date,
            '|',
            theme,
        );
        let memo = widgets::draw_input(
            "Memo (optional)",
            self.memo.as_str(),
            self.active_field == FormField::Memo,
            '|',
            theme,
        );
        let reference = widgets::draw_input(
            "Reference (optional)",
            self.reference.as_str(),
            self.active_field == FormField::Reference,
            '|',
            theme,
        );
        let mut rows: Listing<Row> = Listing::new();
        let mut i: usize = 0;
        while i < self.lines.len()
            invariant
                i <= self.lines@.len(),
                self@.wf(),
                rows@ =~= Seq::new(i as nat, |i: int| self@.line_row(i, theme)),
            decreases self.lines@.len() - i,
        {
            rows.push(self.draw_line(i, theme));
            i = i + 1;
        }
        let dropdown = if self.line_edit_mode == LineEditMode::SelectAccount {
            self.draw_account_dropdown()
        } else {
            None
        };
        EntryFormPainting {
            date,
            memo,
            reference,
            lines_border: widgets::border_of_field(self.active_field == FormField::Lines, theme),
            rows,
            balance: self.draw_balance(theme),
            help: self.draw_help(theme),
            dropdown,
        }
    }
}

impl Default for EntryForm {
    fn default() -> (r: Self)
        ensures
            r@ == EntryFormState::fresh(),
            r@.wf(),
    {
        Self::new()
    }
}

} // verus!
