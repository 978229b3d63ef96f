//! Importing the statements that the bank synchronisation left behind:
//! choosing one, the account it belongs to and its columns, and reviewing the
//! transactions.

use vstd::prelude::*;

use crate::collections::TextMap;
use crate::date::Date;
use crate::domain;
use crate::domain::Account;
use crate::input;
use crate::input::KeyCode;
use crate::lists;
use crate::selection;
use crate::text;
use crate::tui::views::csv_import;
use crate::tui::views::csv_import::{parse_amount, parse_csv_line, parse_date};

pub use crate::tui::views::csv_import::{ColumnField, CsvPreview};

verus! {

/// A statement waiting to be imported.
pub struct PendingImport {
    pub id: i64,
    pub file_path: String,
    pub file_name: String,
    pub bank_id: Option<String>,
    pub bank_name: String,
    pub transaction_count: Option<i64>,
    pub created_at: String,
}

impl PendingImport {
    /// An exact copy.
    pub fn duplicate(&self) -> (r: PendingImport)
        ensures
            r == *self,
    {
        PendingImport {
            id: self.id,
            file_path: self.file_path.clone(),
            file_name: self.file_name.clone(),
            bank_id: text::clone_opt(&self.bank_id),
            bank_name: self.bank_name.clone(),
            transaction_count: self.transaction_count,
            created_at: self.created_at.clone(),
        }
    }
}

/// A transaction of a statement.
pub struct ParsedTransaction {
    pub date: Date,
    pub description: String,
    /// In cents; positive amounts increase the account.
    pub amount: i64,
    pub selected: bool,
}

/// The meaning of a transaction.
#[verifier::ext_equal]
pub ghost struct TransactionData {
    pub date: Date,
    pub description: Seq<char>,
    pub amount: int,
    pub selected: bool,
}

impl View for ParsedTransaction {
    type V = TransactionData;

    open spec fn view(&self) -> TransactionData {
        TransactionData {
            date: self.date,
            description: self.description@,
            amount: self.amount as int,
            selected: self.selected,
        }
    }
}

impl ParsedTransaction {
    /// An exact copy.
    pub fn duplicate(&self) -> (r: ParsedTransaction)
        ensures
            r == *self,
    {
        ParsedTransaction {
            date: self.date,
            description: self.description.clone(),
            amount: self.amount,
            selected: self.selected,
        }
    }
}

/// The meanings of transactions.
pub open spec fn transaction_views(v: Seq<ParsedTransaction>) -> Seq<TransactionData> {
    v.map_values(|t: ParsedTransaction| t@)
}

/// The steps of an import.
#[derive(Debug, Clone, Copy, PartialEq, Eq, Structural)]
pub enum ImportPhase {
    SelectImport,
    SelectAccount,
    MapColumns,
    Preview,
    Complete,
}

/// What a key asks for.
pub enum BankImportResult {
    Nothing,
    Cancel,
    Import {
        import_id: i64,
        account_id: String,
        save_mapping: bool,
        transactions: Vec<ParsedTransaction>,
    },
    /// Drop this import.
    Skip(i64),
    /// Read the file at this path for the column mapping.
    LoadPreview(String),
    /// Read the file at this path for its transactions.
    ReadTransactions(String),
}

pub struct BankImportModal {
    pub visible: bool,
    pub pending_imports: Vec<PendingImport>,
    pub selected_import_index: usize,
    pub processing_import: Option<PendingImport>,
    pub parsed_transactions: Vec<ParsedTransaction>,
    pub available_accounts: Vec<Account>,
    pub selected_account_index: usize,
    pub phase: ImportPhase,
    pub csv_preview: Option<CsvPreview>,
    pub date_column: Option<usize>,
    pub description_column: Option<usize>,
    pub amount_column: Option<usize>,
    pub active_field: ColumnField,
    pub mapping_error: Option<String>,
    /// The account of each bank.
    pub bank_account_mappings: TextMap,
}

/// The meaning of the modal.
#[verifier::ext_equal]
pub ghost struct BankState {
    pub visible: bool,
    pub pending_imports: Seq<PendingImport>,
    pub selected_import_index: usize,
    pub processing_import: Option<PendingImport>,
    pub parsed_transactions: Seq<TransactionData>,
    pub available_accounts: Seq<Account>,
    pub selected_account_index: usize,
    pub phase: ImportPhase,
    pub csv_preview: Option<csv_import::Preview>,
    pub date_column: Option<usize>,
    pub description_column: Option<usize>,
    pub amount_column: Option<usize>,
    pub active_field: ColumnField,
    pub mapping_error: Option<Seq<char>>,
    pub bank_account_mappings: Map<Seq<char>, Seq<char>>,
}

impl BankState {
    /// The state of a new screen.
    pub open spec fn fresh() -> BankState {
        BankState {
            visible: false,
            pending_imports: Seq::empty(),
            selected_import_index: 0,
            processing_import: None,
            parsed_transactions: Seq::empty(),
            available_accounts: Seq::empty(),
            selected_account_index: 0,
            phase: ImportPhase::SelectImport,
            csv_preview: None,
            date_column: None,
            description_column: None,
            amount_column: None,
            active_field: ColumnField::Date,
            mapping_error: None,
            bank_account_mappings: Map::empty(),
        }
    }
}

impl View for BankImportModal {
    type V = BankState;

    open spec fn view(&self) -> BankState {
        BankState {
            visible: self.visible,
            pending_imports: self.pending_imports@,
            selected_import_index: self.selected_import_index,
            processing_import: self.processing_import,
            parsed_transactions: transaction_views(self.parsed_transactions@),
            available_accounts: self.available_accounts@,
            selected_account_index: self.selected_account_index,
            phase: self.phase,
            csv_preview: match self.csv_preview {
                Some(p) => Some(p@),
                None => None,
            },
            date_column: self.date_column,
            description_column: self.description_column,
            amount_column: self.amount_column,
            active_field: self.active_field,
            mapping_error: text::opt_text(self.mapping_error),
            bank_account_mappings: self.bank_account_mappings@,
        }
    }
}

/// Whether a header names the column of a field in a bank statement.
pub open spec fn names_column(header: Seq<char>, field: ColumnField) -> bool {
    let h = text::lowercase(header);
    match field {
        ColumnField::Date => text::has_text(h, "date"@) || text::has_text(h, "time"@) || h
            == "posting date"@,
        ColumnField::Description => text::has_text(h, "desc"@) || text::has_text(h, "memo"@)
            || text::has_text(h, "narr"@) || text::has_text(h, "detail"@) || text::has_text(
            h,
            "payee"@,
        ),
        ColumnField::Amount => h == "amount"@ || text::has_text(h, "value"@) || text::has_text(
            h,
            "sum"@,
        ) || text::has_text(h, "total"@),
    }
}

/// The first column whose header names a field.
pub open spec fn named(headers: Seq<Seq<char>>, field: ColumnField) -> Option<usize> {
    lists::first_position(headers.len(), |i: int| names_column(headers[i], field))
}

/// The first field of a row that is a date.
pub open spec fn dated(row: Seq<Seq<char>>) -> Option<usize> {
    lists::first_position(row.len(), |i: int| csv_import::date_of(row[i]) is Some)
}

/// The date column: by its header, else by the first row.
pub open spec fn date_column_of(p: csv_import::Preview) -> Option<usize> {
    match named(p.headers, ColumnField::Date) {
        Some(i) => Some(i),
        None => if p.rows.len() > 0 {
            dated(p.rows[0])
        } else {
            None
        },
    }
}

/// The transaction that a line gives under a mapping, if it has a date and an
/// amount other than zero.
pub open spec fn transaction_of(line: Seq<char>, m: csv_import::Mapping) -> Option<
    TransactionData,
> {
    let fields = csv_import::fields_of(line, ',');
    let date = if m.date < fields.len() {
        csv_import::date_of(fields[m.date])
    } else {
        None
    };
    let amount = if m.amount < fields.len() {
        csv_import::amount_of(fields[m.amount])
    } else {
        None
    };
    if text::trimmed(line).len() > 0 && date is Some && amount is Some && amount->0 != 0 {
        Some(
            TransactionData {
                date: date->0,
                description: csv_import::field_at(fields, m.description),
                amount: amount->0,
                selected: true,
            },
        )
    } else {
        None
    }
}

/// The transactions of several lines, in order.
pub open spec fn transactions_of(lines: Seq<Seq<char>>, m: csv_import::Mapping) -> Seq<
    TransactionData,
>
    decreases lines.len(),
{
    if lines.len() == 0 {
        Seq::empty()
    } else {
        let before = transactions_of(lines.drop_last(), m);
        match transaction_of(lines.last(), m) {
            Some(t) => before.push(t),
            None => before,
        }
    }
}

/// Every transaction that is offered has an amount and is selected.
pub proof fn transactions_have_amounts(lines: Seq<Seq<char>>, m: csv_import::Mapping)
    ensures
        forall|i: int|
            0 <= i < transactions_of(lines, m).len() ==> (#[trigger] transactions_of(
                lines,
                m,
            )[i]).amount != 0 && transactions_of(lines, m)[i].selected,
        transactions_of(lines, m).len() <= lines.len(),
    decreases lines.len(),
{
    if lines.len() > 0 {
        transactions_have_amounts(lines.drop_last(), m);
    }
}

proof fn transactions_by_kind(
    lines: Seq<Seq<char>>,
    m: csv_import::Mapping,
    good: spec_fn(Seq<char>) -> bool,
)
    requires
        forall|l: Seq<char>| #[trigger] good(l) == (transaction_of(l, m) is Some),
    ensures
        transactions_of(lines, m).len() == lines.filter(good).len(),
        forall|i: int|
            0 <= i < transactions_of(lines, m).len() ==> transaction_of(lines.filter(good)[i], m)
                == Some(#[trigger] transactions_of(lines, m)[i]),
    decreases lines.len(),
{
    reveal(Seq::filter);
    if lines.len() > 0 {
        let before = lines.drop_last();
        transactions_by_kind(before, m, good);
        assert(good(lines.last()) == (transaction_of(lines.last(), m) is Some));
        assert forall|i: int| 0 <= i < transactions_of(lines, m).len() implies transaction_of(
            lines.filter(good)[i],
            m,
        ) == Some(#[trigger] transactions_of(lines, m)[i]) by {
            if i < transactions_of(before, m).len() {
                assert(transactions_of(lines, m)[i] == transactions_of(before, m)[i]);
                assert(lines.filter(good)[i] == before.filter(good)[i]);
            }
        }
    }
}

/// The transactions of a statement are its lines that are not blank, have a
/// date in the date column and an amount other than zero in the amount column,
/// in order. Each takes its date, its description and its amount with its sign
/// from the columns chosen for them.
pub proof fn transactions_take_their_columns(lines: Seq<Seq<char>>, m: csv_import::Mapping)
    requires
        0 <= m.date,
        0 <= m.description,
        0 <= m.amount,
    ensures
        ({
            let found = transactions_of(lines, m);
            let given = |l: Seq<char>, c: int| c < csv_import::fields_of(l, ',').len();
            let column = |l: Seq<char>, c: int| csv_import::fields_of(l, ',')[c];
            let good = lines.filter(
                |l: Seq<char>|
                    text::trimmed(l).len() > 0 && given(l, m.date) && csv_import::date_of(
                        column(l, m.date),
                    ) is Some && given(l, m.amount) && csv_import::amount_of(
                        column(l, m.amount),
                    ) is Some && csv_import::amount_of(column(l, m.amount))->0 != 0,
            );
            &&& found.len() == good.len()
            &&& forall|i: int|
                0 <= i < found.len() ==> {
                    let t = #[trigger] found[i];
                    &&& Some(t.date) == csv_import::date_of(column(good[i], m.date))
                    &&& Some(t.amount) == csv_import::amount_of(column(good[i], m.amount))
                    &&& given(good[i], m.description) ==> t.description == column(
                        good[i],
                        m.description,
                    )
                    &&& !given(good[i], m.description) ==> t.description.len() == 0
                    &&& t.selected
                }
        }),
{
    let given = |l: Seq<char>, c: int| c < csv_import::fields_of(l, ',').len();
    let column = |l: Seq<char>, c: int| csv_import::fields_of(l, ',')[c];
    let good = |l: Seq<char>|
        text::trimmed(l).len() > 0 && given(l, m.date) && csv_import::date_of(
            column(l, m.date),
        ) is Some && given(l, m.amount) && csv_import::amount_of(column(l, m.amount)) is Some
            && csv_import::amount_of(column(l, m.amount))->0 != 0;
    transactions_by_kind(lines, m, good);
    let found = transactions_of(lines, m);
    assert forall|i: int| 0 <= i < found.len() implies {
        let t = #[trigger] found[i];
        let l = lines.filter(good)[i];
        &&& Some(t.date) == csv_import::date_of(column(l, m.date))
        &&& Some(t.amount) == csv_import::amount_of(column(l, m.amount))
        &&& given(l, m.description) ==> t.description == column(l, m.description)
        &&& !given(l, m.description) ==> t.description.len() == 0
        &&& t.selected
    } by {
        assert(transaction_of(lines.filter(good)[i], m) == Some(found[i]));
    }
}

/// Confirming the preview imports the shown transactions of the statement into
/// the chosen account, and Escape imports nothing.
pub proof fn previews_are_imported_as_shown(s: BankState)
    requires
        s.processing_import is Some,
        s.selected_account_index < s.available_accounts.len(),
    ensures
        s.after_preview_key(KeyCode::Enter).1 matches Asked::Import(id, account, save, transactions)
            && id == s.processing_import->0.id && account
            == s.available_accounts[s.selected_account_index as int].id@ && transactions
            == s.parsed_transactions,
        s.after_preview_key(KeyCode::Esc).1 is Nothing,
{
}

/// What a key asks for, as plain values.
pub ghost enum Asked {
    Nothing,
    Cancel,
    Import(int, Seq<char>, bool, Seq<TransactionData>),
    Skip(int),
    LoadPreview(Seq<char>),
    ReadTransactions(Seq<char>),
}

impl View for BankImportResult {
    type V = Asked;

    open spec fn view(&self) -> Asked {
        match self {
            BankImportResult::Nothing => Asked::Nothing,
            BankImportResult::Cancel => Asked::Cancel,
            BankImportResult::Import { import_id, account_id, save_mapping, transactions } => {
                Asked::Import(
                    *import_id as int,
                    account_id@,
                    *save_mapping,
                    transaction_views(transactions@),
                )
            },
            BankImportResult::Skip(id) => Asked::Skip(*id as int),
            BankImportResult::LoadPreview(path) => Asked::LoadPreview(path@),
            BankImportResult::ReadTransactions(path) => Asked::ReadTransactions(path@),
        }
    }
}

/// Down by one, as long as there is a further item.
pub open spec fn down_one(i: usize, n: nat) -> usize {
    if i + 1 < n {
        (i + 1) as usize
    } else {
        i
    }
}

impl BankState {
    /// In the mapping step the preview, if any, has columns; and with a chosen
    /// column there is a preview.
    pub open spec fn wf(self) -> bool {
        &&& self.csv_preview is Some ==> self.csv_preview->0.headers.len() > 0
        &&& self.csv_preview is None ==> self.date_column is None && self.description_column is None
            && self.amount_column is None
    }

    /// Other statements wait; the highlight stays on one of them.
    pub open spec fn with_imports(self, imports: Seq<PendingImport>) -> BankState {
        BankState {
            pending_imports: imports,
            selected_import_index: if self.selected_import_index < imports.len() {
                self.selected_import_index
            } else if imports.len() > 0 {
                (imports.len() - 1) as usize
            } else {
                0
            },
            ..self
        }
    }

    pub open spec fn unmapped(self) -> BankState {
        BankState {
            csv_preview: None,
            date_column: None,
            description_column: None,
            amount_column: None,
            active_field: ColumnField::Date,
            mapping_error: None,
            ..self
        }
    }

    pub open spec fn hidden(self) -> BankState {
        BankState {
            visible: false,
            processing_import: None,
            parsed_transactions: Seq::empty(),
            phase: ImportPhase::SelectImport,
            ..self
        }.unmapped()
    }

    /// The account kept for the bank of an import, or the account selected so
    /// far.
    pub open spec fn account_for(self, import: PendingImport) -> usize {
        match import.bank_id {
            Some(bank) => if self.bank_account_mappings.dom().contains(bank@) {
                match domain::place_of(self.available_accounts, self.bank_account_mappings[bank@]) {
                    Some(i) => i,
                    None => self.selected_account_index,
                }
            } else {
                self.selected_account_index
            },
            None => self.selected_account_index,
        }
    }

    pub open spec fn after_select_import_key(self, key: KeyCode) -> (BankState, Asked) {
        let i = self.selected_import_index;
        let n = self.pending_imports.len();
        match key {
            KeyCode::Esc | KeyCode::Char('q') => (self.hidden(), Asked::Cancel),
            KeyCode::Up | KeyCode::Char('k') => (
                BankState { selected_import_index: selection::up_to_first(i), ..self },
                Asked::Nothing,
            ),
            KeyCode::Down | KeyCode::Char('j') => (
                BankState { selected_import_index: down_one(i, n), ..self },
                Asked::Nothing,
            ),
            KeyCode::Enter => if i < n {
                let import = self.pending_imports[i as int];
                (
                    BankState {
                        processing_import: Some(import),
                        selected_account_index: self.account_for(import),
                        phase: ImportPhase::SelectAccount,
                        ..self
                    },
                    Asked::Nothing,
                )
            } else {
                (self, Asked::Nothing)
            },
            KeyCode::Char('d') | KeyCode::Delete => if i < n {
                (self, Asked::Skip(self.pending_imports[i as int].id as int))
            } else {
                (self, Asked::Nothing)
            },
            _ => (self, Asked::Nothing),
        }
    }

    pub open spec fn after_select_account_key(self, key: KeyCode) -> (BankState, Asked) {
        let i = self.selected_account_index;
        match key {
            KeyCode::Esc => (
                BankState {
                    phase: ImportPhase::SelectImport,
                    processing_import: None,
                    ..self
                },
                Asked::Nothing,
            ),
            KeyCode::Up | KeyCode::Char('k') => (
                BankState { selected_account_index: selection::up_to_first(i), ..self },
                Asked::Nothing,
            ),
            KeyCode::Down | KeyCode::Char('j') => (
                BankState {
                    selected_account_index: down_one(i, self.available_accounts.len()),
                    ..self
                },
                Asked::Nothing,
            ),
            KeyCode::Enter => (
                BankState { phase: ImportPhase::MapColumns, ..self },
                match self.processing_import {
                    Some(import) => Asked::LoadPreview(import.file_path@),
                    None => Asked::Nothing,
                },
            ),
            _ => (self, Asked::Nothing),
        }
    }

    pub open spec fn column(self, field: ColumnField) -> Option<usize> {
        match field {
            ColumnField::Date => self.date_column,
            ColumnField::Description => self.description_column,
            ColumnField::Amount => self.amount_column,
        }
    }

    pub open spec fn with_column(self, column: Option<usize>) -> BankState {
        match self.active_field {
            ColumnField::Date => BankState { date_column: column, ..self },
            ColumnField::Description => BankState { description_column: column, ..self },
            ColumnField::Amount => BankState { amount_column: column, ..self },
        }
    }

    pub open spec fn columns(self) -> nat {
        match self.csv_preview {
            Some(p) => p.headers.len(),
            None => 0,
        }
    }

    pub open spec fn after_map_columns_key(self, key: KeyCode) -> (BankState, Asked) {
        let n = self.columns();
        let current = self.column(self.active_field);
        match key {
            KeyCode::Esc => (
                BankState { phase: ImportPhase::SelectAccount, ..self }.unmapped(),
                Asked::Nothing,
            ),
            KeyCode::Enter => if self.date_column is Some && self.description_column is Some
                && self.amount_column is Some {
                match self.processing_import {
                    Some(import) => (
                        BankState { parsed_transactions: Seq::empty(), ..self },
                        Asked::ReadTransactions(import.file_path@),
                    ),
                    None => (
                        BankState {
                            parsed_transactions: Seq::empty(),
                            mapping_error: Some("No valid transactions found"@),
                            ..self
                        },
                        Asked::Nothing,
                    ),
                }
            } else {
                (
                    BankState {
                        mapping_error: Some("Please map all required columns"@),
                        ..self
                    },
                    Asked::Nothing,
                )
            },
            KeyCode::Tab | KeyCode::Down => (
                BankState { active_field: self.active_field.following(), ..self },
                Asked::Nothing,
            ),
            KeyCode::BackTab | KeyCode::Up => (
                BankState { active_field: self.active_field.preceding(), ..self },
                Asked::Nothing,
            ),
            KeyCode::Left => (
                match current {
                    Some(i) => self.with_column(Some(selection::up_to_first(i))),
                    None => if n > 0 {
                        self.with_column(Some((n - 1) as usize))
                    } else {
                        self
                    },
                },
                Asked::Nothing,
            ),
            KeyCode::Right => (
                match current {
                    Some(i) => self.with_column(Some(down_one(i, n))),
                    None => if n > 0 {
                        self.with_column(Some(0))
                    } else {
                        self
                    },
                },
                Asked::Nothing,
            ),
            KeyCode::Char(c) => (
                if input::is_digit(c) && 0 < input::digit_value(c) <= n {
                    self.with_column(Some((input::digit_value(c) - 1) as usize))
                } else {
                    self
                },
                Asked::Nothing,
            ),
            _ => (self, Asked::Nothing),
        }
    }

    pub open spec fn after_preview_key(self, key: KeyCode) -> (BankState, Asked) {
        match key {
            KeyCode::Esc => (
                BankState {
                    phase: ImportPhase::MapColumns,
                    parsed_transactions: Seq::empty(),
                    ..self
                },
                Asked::Nothing,
            ),
            KeyCode::Enter | KeyCode::Char('i') => match self.processing_import {
                Some(import) => if self.selected_account_index < self.available_accounts.len() {
                    (
                        BankState { phase: ImportPhase::Complete, ..self },
                        Asked::Import(
                            import.id as int,
                            self.available_accounts[self.selected_account_index as int].id@,
                            true,
                            self.parsed_transactions,
                        ),
                    )
                } else {
                    (self, Asked::Nothing)
                },
                None => (self, Asked::Nothing),
            },
            _ => (self, Asked::Nothing),
        }
    }

    /// What a key does, and what it asks for.
    pub open spec fn after_key(self, key: KeyCode) -> (BankState, Asked) {
        match self.phase {
            ImportPhase::SelectImport => self.after_select_import_key(key),
            ImportPhase::SelectAccount => self.after_select_account_key(key),
            ImportPhase::MapColumns => self.after_map_columns_key(key),
            ImportPhase::Preview => self.after_preview_key(key),
            ImportPhase::Complete => (self.hidden(), Asked::Nothing),
        }
    }

    /// After the file was read for the column mapping.
    pub open spec fn preview_loaded(self, content: Result<String, String>) -> BankState {
        let s = self.unmapped();
        match content {
            Err(e) => BankState { mapping_error: Some("Failed to read file: "@ + e@), ..s },
            Ok(c) => {
                let lines = text::lines_of(c@);
                if lines.len() == 0 {
                    BankState { mapping_error: Some("Empty file"@), ..s }
                } else {
                    let p = csv_import::Preview {
                        headers: csv_import::fields_of(lines[0], ','),
                        rows: csv_import::sample_rows(lines.skip(1), ','),
                    };
                    BankState {
                        csv_preview: Some(p),
                        date_column: date_column_of(p),
                        description_column: named(p.headers, ColumnField::Description),
                        amount_column: named(p.headers, ColumnField::Amount),
                        ..s
                    }
                }
            },
        }
    }

    /// The mapping of the chosen columns.
    pub open spec fn mapping(self) -> csv_import::Mapping {
        csv_import::Mapping {
            delimiter: ',',
            date: self.date_column->0 as int,
            description: self.description_column->0 as int,
            amount: self.amount_column->0 as int,
        }
    }

    /// After the file was read for its transactions; an unreadable file gives
    /// none.
    pub open spec fn transactions_read(self, content: Option<String>) -> BankState {
        let found = match content {
            Some(c) => transactions_of(
                csv_import::data_lines(c@, 0, true),
                self.mapping(),
            ),
            None => Seq::empty(),
        };
        if found.len() > 0 {
            BankState { parsed_transactions: found, phase: ImportPhase::Preview, ..self }
        } else {
            BankState {
                parsed_transactions: found,
                mapping_error: Some("No valid transactions found"@),
                ..self
            }
        }
    }
}

fn header_names(header: &str, field: ColumnField) -> (r: bool)
    ensures
        r == names_column(header@, field),
{
    let lower = header.to_lowercase();
    let h: &str = lower.as_str();
    match field {
        ColumnField::Date => text::contains(h, "date") || text::contains(h, "time")
            || text::same_text(h, "posting date"),
        ColumnField::Description => text::contains(h, "desc") || text::contains(h, "memo")
            || text::contains(h, "narr") || text::contains(h, "detail") || text::contains(
            h,
            "payee",
        ),
        ColumnField::Amount => text::same_text(h, "amount") || text::contains(h, "value")
            || text::contains(h, "sum") || text::contains(h, "total"),
    }
}

fn find_named(headers: &Vec<String>, field: ColumnField) -> (r: Option<usize>)
    ensures
        r == named(text::texts(headers@), field),
{
    let mut i: usize = 0;
    let ghost all = text::texts(headers@);
    let ghost p = |i: int| names_column(all[i], field);
    while i < headers.len()
        invariant
            i <= headers@.len(),
            all == text::texts(headers@),
            p == (|i: int| names_column(all[i], field)),
            forall|j: int| 0 <= j < i ==> !#[trigger] p(j),
        decreases headers@.len() - i,
    {
        let found: bool = header_names(headers[i].as_str(), field);
        assert(found == p(i as int));
        if found {
            proof {
                lists::first_position_is_first(all.len(), p);
            }
            return Some(i);
        }
        i = i + 1;
    }
    proof {
        lists::first_position_is_first(all.len(), p);
    }
    None
}

fn find_dated(row: &Vec<String>) -> (r: Option<usize>)
    ensures
        r == dated(text::texts(row@)),
{
    let mut i: usize = 0;
    let ghost all = text::texts(row@);
    let ghost p = |i: int| csv_import::date_of(all[i]) is Some;
    while i < row.len()
        invariant
            i <= row@.len(),
            all == text::texts(row@),
            p == (|i: int| csv_import::date_of(all[i]) is Some),
            forall|j: int| 0 <= j < i ==> !#[trigger] p(j),
        decreases row@.len() - i,
    {
        let found: bool = parse_date(row[i].as_str()).is_some();
        assert(found == p(i as int));
        if found {
            proof {
                lists::first_position_is_first(all.len(), p);
            }
            return Some(i);
        }
        i = i + 1;
    }
    proof {
        lists::first_position_is_first(all.len(), p);
    }
    None
}

/// The transactions of a file under a mapping of columns.
pub fn read_transactions(
    content: &str,
    date_column: usize,
    description_column: usize,
    amount_column: usize,
) -> (r: Vec<ParsedTransaction>)
    ensures
        transaction_views(r@) == transactions_of(
            csv_import::data_lines(content@, 0, true),
            csv_import::Mapping {
                delimiter: ',',
                date: date_column as int,
                description: description_column as int,
                amount: amount_column as int,
            },
        ),
{
    let lines = text::lines(content);
    let ghost all = text::texts(lines@);
    let ghost m = csv_import::Mapping {
        delimiter: ',',
        date: date_column as int,
        description: description_column as int,
        amount: amount_column as int,
    };
    let ghost data = csv_import::data_lines(content@, 0, true);
    let mut out: Vec<ParsedTransaction> = Vec::new();
    assert(transaction_views(out@) =~= Seq::<TransactionData>::empty());
    if lines.len() <= 1 {
        return out;
    }
    let mut i: usize = 1;
    proof {
        assert(data =~= all.skip(1));
        assert(data.take(0) =~= Seq::<Seq<char>>::empty());
    }
    while i < lines.len()
        invariant
            1 <= i <= lines@.len(),
            all == text::texts(lines@),
            data == all.skip(1),
            m == (csv_import::Mapping {
                delimiter: ',',
                date: date_column as int,
                description: description_column as int,
                amount: amount_column as int,
            }),
            transaction_views(out@) == transactions_of(data.take(i - 1), m),
        decreases lines@.len() - i,
    {
        proof {
            let upto = data.take(i as int);
            assert(upto.drop_last() =~= data.take(i - 1));
            assert(upto.last() == lines@[i as int]@);
        }
        let ghost before = out@;
        match read_transaction(
            lines[i].as_str(),
            date_column,
            description_column,
            amount_column,
        ) {
            Some(t) => {
                out.push(t);
                assert(transaction_views(out@) =~= transaction_views(before).push(t@));
            },
            None => {},
        }
        i = i + 1;
    }
    assert(data.take(i - 1) =~= data);
    out
}

fn read_transaction(
    line: &str,
    date_column: usize,
    description_column: usize,
    amount_column: usize,
) -> (r: Option<ParsedTransaction>)
    ensures
        (match r {
            Some(t) => Some(t@),
            None => None,
        }) == transaction_of(
            line@,
            csv_import::Mapping {
                delimiter: ',',
                date: date_column as int,
                description: description_column as int,
                amount: amount_column as int,
            },
        ),
{
    let bare = text::trim(line);
    if bare.as_str().is_empty() {
        return None;
    }
    let fields = parse_csv_line(line);
    let ghost all = text::texts(fields@);
    if date_column >= fields.len() || amount_column >= fields.len() {
        return None;
    }
    let date = match parse_date(fields[date_column].as_str()) {
        Some(d) => d,
        None => {
            return None;
        },
    };
    let description = if description_column < fields.len() {
        fields[description_column].clone()
    } else {
        String::new()
    };
    match parse_amount(fields[amount_column].as_str()) {
        Some(amount) => {
            if amount == 0 {
                None
            } else {
                Some(ParsedTransaction { date, description, amount, selected: true })
            }
        },
        None => None,
    }
}

impl BankImportModal {
    pub fn new() -> (r: Self)
        ensures
            r@ == BankState::fresh(),
            r@.wf(),
    {
        BankImportModal {
            visible: false,
            pending_imports: Vec::new(),
            selected_import_index: 0,
            processing_import: None,
            parsed_transactions: Vec::new(),
            available_accounts: Vec::new(),
            selected_account_index: 0,
            phase: ImportPhase::SelectImport,
            csv_preview: None,
            date_column: None,
            description_column: None,
            amount_column: None,
            active_field: ColumnField::Date,
            mapping_error: None,
            bank_account_mappings: TextMap::new(),
        }
    }

    pub fn show(&mut self)
        ensures
            final(self)@ == (BankState {
                visible: true,
                phase: ImportPhase::SelectImport,
                selected_import_index: 0,
                ..old(self)@
            }).unmapped(),
            final(self)@.wf(),
    {
        self.visible = true;
        self.phase = ImportPhase::SelectImport;
        self.selected_import_index = 0;
        self.reset_mapping();
    }

    pub fn close(&mut self)
        ensures
            final(self)@ == old(self)@.hidden(),
            final(self)@.wf(),
    {
        self.visible = false;
        self.processing_import = None;
        self.parsed_transactions.clear();
        self.phase = ImportPhase::SelectImport;
        self.reset_mapping();
    }

    fn reset_mapping(&mut self)
        ensures
            final(self)@ == old(self)@.unmapped(),
    {
        self.csv_preview = None;
        self.date_column = None;
        self.description_column = None;
        self.amount_column = None;
        self.active_field = ColumnField::Date;
        self.mapping_error = None;
    }

    pub fn set_pending_imports(&mut self, imports: Vec<PendingImport>)
        ensures
            final(self)@ == old(self)@.with_imports(imports@),
    {
        self.pending_imports = imports;
        if self.selected_import_index >= self.pending_imports.len() {
            self.selected_import_index = self.pending_imports.len().saturating_sub(1);
        }
    }

    pub fn set_accounts(&mut self, accounts: Vec<Account>)
        ensures
            final(self)@ == (BankState { available_accounts: accounts@, ..old(self)@ }),
    {
        self.available_accounts = accounts;
    }

    pub fn set_mappings(&mut self, mappings: TextMap)
        ensures
            final(self)@ == (BankState { bank_account_mappings: mappings@, ..old(self)@ }),
    {
        self.bank_account_mappings = mappings;
    }

    pub fn handle_key(&mut self, key: KeyCode) -> (r: BankImportResult)
        requires
            old(self)@.wf(),
        ensures
            (final(self)@, r@) == old(self)@.after_key(key),
            final(self)@.wf(),
    {
        match self.phase {
            ImportPhase::SelectImport => self.handle_select_import_key(key),
            ImportPhase::SelectAccount => self.handle_select_account_key(key),
            ImportPhase::MapColumns => self.handle_map_columns_key(key),
            ImportPhase::Preview => self.handle_preview_key(key),
            ImportPhase::Complete => {
                self.close();
                BankImportResult::Nothing
            },
        }
    }

    fn handle_select_import_key(&mut self, key: KeyCode) -> (r: BankImportResult)
        requires
            old(self)@.wf(),
        ensures
            (final(self)@, r@) == old(self)@.after_select_import_key(key),
            final(self)@.wf(),
    {
        match key {
            KeyCode::Esc | KeyCode::Char('q') => {
                self.close();
                BankImportResult::Cancel
            },
            KeyCode::Up | KeyCode::Char('k') => {
                self.selected_import_index = selection::move_up(self.selected_import_index);
                BankImportResult::Nothing
            },
            KeyCode::Down | KeyCode::Char('j') => {
                let n: usize = self.pending_imports.len();
                if n > 0 && self.selected_import_index < n - 1 {
                    self.selected_import_index = self.selected_import_index + 1;
                }
                BankImportResult::Nothing
            },
            KeyCode::Enter => {
                if self.selected_import_index < self.pending_imports.len() {
                    let import = self.pending_imports[self.selected_import_index].duplicate();
                    let account: usize = self.account_for(&import);
                    self.processing_import = Some(import);
                    self.selected_account_index = account;
                    self.phase = ImportPhase::SelectAccount;
                }
                BankImportResult::Nothing
            },
            KeyCode::Char('d') | KeyCode::Delete => {
                if self.selected_import_index < self.pending_imports.len() {
                    let id: i64 = self.pending_imports[self.selected_import_index].id;
                    return BankImportResult::Skip(id);
                }
                BankImportResult::Nothing
            },
            _ => BankImportResult::Nothing,
        }
    }

    fn account_for(&self, import: &PendingImport) -> (r: usize)
        ensures
            r == self@.account_for(*import),
    {
        match &import.bank_id {
            Some(bank) => match self.bank_account_mappings.get(bank.as_str()) {
                Some(account_id) => {
                    match domain::find_account(&self.available_accounts, account_id.as_str()) {
                        Some(i) => i,
                        None => self.selected_account_index,
                    }
                },
                None => self.selected_account_index,
            },
            None => self.selected_account_index,
        }
    }

    fn handle_select_account_key(&mut self, key: KeyCode) -> (r: BankImportResult)
        requires
            old(self)@.wf(),
        ensures
            (final(self)@, r@) == old(self)@.after_select_account_key(key),
            final(self)@.wf(),
    {
        match key {
            KeyCode::Esc => {
                self.phase = ImportPhase::SelectImport;
                self.processing_import = None;
                BankImportResult::Nothing
            },
            KeyCode::Up | KeyCode::Char('k') => {
                self.selected_account_index = selection::move_up(self.selected_account_index);
                BankImportResult::Nothing
            },
            KeyCode::Down | KeyCode::Char('j') => {
                let n: usize = self.available_accounts.len();
                if n > 0 && self.selected_account_index < n - 1 {
                    self.selected_account_index = self.selected_account_index + 1;
                }
                BankImportResult::Nothing
            },
            KeyCode::Enter => {
                let path: Option<String> = match &self.processing_import {
                    Some(import) => Some(import.file_path.clone()),
                    None => None,
                };
                self.phase = ImportPhase::MapColumns;
                match path {
                    Some(p) => BankImportResult::LoadPreview(p),
                    None => BankImportResult::Nothing,
                }
            },
            _ => BankImportResult::Nothing,
        }
    }

    fn column(&self, field: ColumnField) -> (r: Option<usize>)
        ensures
            r == self@.column(field),
    {
        match field {
            ColumnField::Date => self.date_column,
            ColumnField::Description => self.description_column,
            ColumnField::Amount => self.amount_column,
        }
    }

    fn set_column(&mut self, column: Option<usize>)
        ensures
            final(self)@ == old(self)@.with_column(column),
    {
        match self.active_field {
            ColumnField::Date => {
                self.date_column = column;
            },
            ColumnField::Description => {
                self.description_column = column;
            },
            ColumnField::Amount => {
                self.amount_column = column;
            },
        }
    }

    fn handle_map_columns_key(&mut self, key: KeyCode) -> (r: BankImportResult)
        requires
            old(self)@.wf(),
        ensures
            (final(self)@, r@) == old(self)@.after_map_columns_key(key),
            final(self)@.wf(),
    {
        let n: usize = match &self.csv_preview {
            Some(p) => p.headers.len(),
            None => 0,
        };
        match key {
            KeyCode::Esc => {
                self.phase = ImportPhase::SelectAccount;
                self.reset_mapping();
                BankImportResult::Nothing
            },
            KeyCode::Enter => {
                if self.date_column.is_some() && self.description_column.is_some()
                    && self.amount_column.is_some() {
                    self.parsed_transactions.clear();
                    assert(transaction_views(self.parsed_transactions@) =~= Seq::<
                        TransactionData,
                    >::empty());
                    let path: Option<String> = match &self.processing_import {
                        Some(import) => Some(import.file_path.clone()),
                        None => None,
                    };
                    match path {
                        Some(p) => BankImportResult::ReadTransactions(p),
                        None => {
                            self.mapping_error = Some(text::owned("No valid transactions found"));
                            BankImportResult::Nothing
                        },
                    }
                } else {
                    self.mapping_error = Some(text::owned("Please map all required columns"));
                    BankImportResult::Nothing
                }
            },
            KeyCode::Tab | KeyCode::Down => {
                self.active_field = self.active_field.next();
                BankImportResult::Nothing
            },
            KeyCode::BackTab | KeyCode::Up => {
                self.active_field = self.active_field.prev();
                BankImportResult::Nothing
            },
            KeyCode::Left => {
                match self.column(self.active_field) {
                    Some(i) => {
                        self.set_column(Some(selection::move_up(i)));
                    },
                    None => {
                        if n > 0 {
                            self.set_column(Some(n - 1));
                        }
                    },
                }
                BankImportResult::Nothing
            },
            KeyCode::Right => {
                match self.column(self.active_field) {
                    Some(i) => {
                        let right: usize = if i < n - 1 {
                            i + 1
                        } else {
                            i
                        };
                        self.set_column(Some(right));
                    },
                    None => {
                        if n > 0 {
                            self.set_column(Some(0));
                        }
                    },
                }
                BankImportResult::Nothing
            },
            KeyCode::Char(c) => {
                if input::ascii_digit(c) {
                    let number: usize = input::value_of_digit(c) as usize;
                    if number > 0 && number <= n {
                        self.set_column(Some(number - 1));
                    }
                }
                BankImportResult::Nothing
            },
            _ => BankImportResult::Nothing,
        }
    }

    fn handle_preview_key(&mut self, key: KeyCode) -> (r: BankImportResult)
        requires
            old(self)@.wf(),
        ensures
            (final(self)@, r@) == old(self)@.after_preview_key(key),
            final(self)@.wf(),
    {
        match key {
            KeyCode::Esc => {
                self.phase = ImportPhase::MapColumns;
                self.parsed_transactions.clear();
                BankImportResult::Nothing
            },
            KeyCode::Enter | KeyCode::Char('i') => {
                let import_id: Option<i64> = match &self.processing_import {
                    Some(import) => Some(import.id),
                    None => None,
                };
                match import_id {
                    Some(import_id) => {
                        if self.selected_account_index < self.available_accounts.len() {
                            let account_id = self.available_accounts[self.selected_account_index].id.clone();
                            let transactions = duplicate_all(&self.parsed_transactions);
                            self.phase = ImportPhase::Complete;
                            BankImportResult::Import {
                                import_id,
                                account_id,
                                save_mapping: true,
                                transactions,
                            }
                        } else {
                            BankImportResult::Nothing
                        }
                    },
                    None => BankImportResult::Nothing,
                }
            },
            _ => BankImportResult::Nothing,
        }
    }

    /// Takes the content of the chosen file for the column mapping.
    pub fn preview_loaded(&mut self, content: Result<String, String>)
        ensures
            final(self)@ == old(self)@.preview_loaded(content),
            final(self)@.wf(),
    {
        self.reset_mapping();
        match content {
            Err(e) => {
                self.mapping_error = Some(text::cat2("Failed to read file: ", e.as_str()));
            },
            Ok(c) => {
                let lines = text::lines(c.as_str());
                if lines.len() == 0 {
                    self.mapping_error = Some(text::owned("Empty file"));
                    return ;
                }
                let headers = parse_csv_line(lines[0].as_str());
                let rows = csv_import::split_sample(&lines, 1, ',');
                let preview = CsvPreview { headers, rows };
                self.auto_detect_columns(&preview);
                self.csv_preview = Some(preview);
            },
        }
    }

    fn auto_detect_columns(&mut self, preview: &CsvPreview)
        ensures
            final(self)@ == (BankState {
                date_column: date_column_of(preview@),
                description_column: named(preview@.headers, ColumnField::Description),
                amount_column: named(preview@.headers, ColumnField::Amount),
                ..old(self)@
            }),
    {
        self.date_column = find_named(&preview.headers, ColumnField::Date);
        self.description_column = find_named(&preview.headers, ColumnField::Description);
        self.amount_column = find_named(&preview.headers, ColumnField::Amount);
        if self.date_column.is_none() && preview.rows.len() > 0 {
            assert(preview@.rows[0] == text::texts(preview.rows@[0]@));
            self.date_column = find_dated(&preview.rows[0]);
        }
    }

    /// Takes the content of the chosen file for its transactions.
    pub fn transactions_read(&mut self, content: Option<String>)
        requires
            old(self)@.wf(),
            old(self).date_column is Some,
            old(self).description_column is Some,
            old(self).amount_column is Some,
        ensures
            final(self)@ == old(self)@.transactions_read(content),
            final(self)@.wf(),
    {
        let found: Vec<ParsedTransaction> = match (
            &content,
            self.date_column,
            self.description_column,
            self.amount_column,
        ) {
            (Some(c), Some(d), Some(x), Some(a)) => read_transactions(c.as_str(), d, x, a),
            _ => Vec::new(),
        };
        proof {
            if content is None {
                assert(transaction_views(found@) =~= Seq::<TransactionData>::empty());
            }
        }
        let any: bool = found.len() > 0;
        self.parsed_transactions = found;
        if any {
            self.phase = ImportPhase::Preview;
        } else {
            self.mapping_error = Some(text::owned("No valid transactions found"));
        }
    }

    pub fn get_selected_account(&self) -> (r: Option<&Account>)
        ensures
            match r {
                Some(a) => self.selected_account_index < self.available_accounts@.len() && *a
                    == self.available_accounts@[self.selected_account_index as int],
                None => self.selected_account_index >= self.available_accounts@.len(),
            },
    {
        if self.selected_account_index < self.available_accounts.len() {
            Some(&self.available_accounts[self.selected_account_index])
        } else {
            None
        }
    }
}

fn duplicate_all(v: &Vec<ParsedTransaction>) -> (r: Vec<ParsedTransaction>)
    ensures
        r@ == v@,
{
    let mut out: Vec<ParsedTransaction> = Vec::new();
    let mut i: usize = 0;
    while i < v.len()
        invariant
            i <= v@.len(),
            out@ == v@.take(i as int),
        decreases v@.len() - i,
    {
        out.push(v[i].duplicate());
        i = i + 1;
        assert(v@.take(i as int) =~= v@.take(i - 1).push(v@[i - 1]));
    }
    assert(v@.take(i as int) =~= v@);
    out
}

impl Default for BankImportModal {
    fn default() -> (r: Self)
        ensures
            r@ == BankState::fresh(),
            r@.wf(),
    {
        Self::new()
    }
}

} // verus!
