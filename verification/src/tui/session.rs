//! What the program does between two keys: the steps of a round, in order, each
//! of which takes what a screen left to be done and says what is to be done with
//! the books.

use vstd::prelude::*;

use crate::domain;
use crate::domain::Account;
use crate::text;
use crate::tui::app::{ActiveView, App, AppPhase, AppState};
use crate::tui::app_keys;
use crate::tui::imports;
use crate::tui::views::account_form;
use crate::tui::views::account_form::{AccountFormResult, NewAccountData, UpdateAccountData};
use crate::tui::views::bank_import;
use crate::tui::views::bank_import::ParsedTransaction;
use crate::tui::views::csv_import;
use crate::tui::views::csv_import::ImportConfig;
use crate::tui::views::entry_form;
use crate::tui::views::entry_form::NewEntryData;
use crate::tui::views::journal;
use crate::tui::views::plaid;
use crate::tui::views::plaid::PlaidAction;
use crate::tui::views::plaid_config;
use crate::tui::views::plaid_config::PlaidConfigResult;
use crate::tui::views::plaid_link;
use crate::tui::views::plaid_link::PlaidLinkResult;
use crate::tui::views::plaid_staged;
use crate::tui::views::plaid_staged::StagedAction;
use crate::tui::views::startup;

verus! {

/// The steps of a round.
#[derive(Debug, Clone, Copy, PartialEq, Eq, Structural)]
pub enum Step {
    Startup,
    DefaultAccounts,
    AccountForm,
    EntryForm,
    CsvImport,
    BankImport,
    PlaidConfig,
    PlaidAction,
    StagedAction,
    PlaidLink,
    PlaidLinkResult,
    Ledger,
    OtherLedger,
    JournalReload,
    ReportReload,
    EntryDetail,
    Reassign,
    BulkReassign,
    Void,
    BulkVoid,
    Reassigned,
    BulkReassigned,
    /// The round is over: the next key can be handled.
    Keys,
}

impl Step {
    /// The place of a step in a round.
    pub open spec fn place(self) -> int {
        match self {
            Step::Startup => 0,
            Step::DefaultAccounts => 1,
            Step::AccountForm => 2,
            Step::EntryForm => 3,
            Step::CsvImport => 4,
            Step::BankImport => 5,
            Step::PlaidConfig => 6,
            Step::PlaidAction => 7,
            Step::StagedAction => 8,
            Step::PlaidLink => 9,
            Step::PlaidLinkResult => 10,
            Step::Ledger => 11,
            Step::OtherLedger => 12,
            Step::JournalReload => 13,
            Step::ReportReload => 14,
            Step::EntryDetail => 15,
            Step::Reassign => 16,
            Step::BulkReassign => 17,
            Step::Void => 18,
            Step::BulkVoid => 19,
            Step::Reassigned => 20,
            Step::BulkReassigned => 21,
            Step::Keys => 22,
        }
    }

    /// The next step; the round ends with the keys.
    pub fn next(&self) -> (r: Step)
        ensures
            !(self is Keys) ==> r.place() == self.place() + 1,
            self is Keys ==> r is Keys,
    {
        match self {
            Step::Startup => Step::DefaultAccounts,
            Step::DefaultAccounts => Step::AccountForm,
            Step::AccountForm => Step::EntryForm,
            Step::EntryForm => Step::CsvImport,
            Step::CsvImport => Step::BankImport,
            Step::BankImport => Step::PlaidConfig,
            Step::PlaidConfig => Step::PlaidAction,
            Step::PlaidAction => Step::StagedAction,
            Step::StagedAction => Step::PlaidLink,
            Step::PlaidLink => Step::PlaidLinkResult,
            Step::PlaidLinkResult => Step::Ledger,
            Step::Ledger => Step::OtherLedger,
            Step::OtherLedger => Step::JournalReload,
            Step::JournalReload => Step::ReportReload,
            Step::ReportReload => Step::EntryDetail,
            Step::EntryDetail => Step::Reassign,
            Step::Reassign => Step::BulkReassign,
            Step::BulkReassign => Step::Void,
            Step::Void => Step::BulkVoid,
            Step::BulkVoid => Step::Reassigned,
            Step::Reassigned => Step::BulkReassigned,
            Step::BulkReassigned => Step::Keys,
            Step::Keys => Step::Keys,
        }
    }
}

/// What is to be done with the books in a step.
pub enum Command {
    Nothing,
    /// Open a database, or make a new one.
    OpenDatabase { path: String, is_new: bool },
    CreateDefaultAccounts,
    CreateAccount(NewAccountData),
    UpdateAccount(UpdateAccountData),
    PostEntry(NewEntryData),
    /// Import a file into the database at a path, in the background.
    ImportCsv { path: String, config: ImportConfig },
    SkipImport(i64),
    /// Import a statement into the database at a path, in the background.
    ImportBank {
        path: String,
        import_id: i64,
        account_id: String,
        save_mapping: bool,
        transactions: Vec<ParsedTransaction>,
    },
    Plaid(PlaidAction),
    Staged(StagedAction),
    /// Load the bank accounts that an account can be linked to.
    ShowLink(String),
    Link { item_id: String, plaid_account_id: String, local_account_id: String },
    Unlink { item_id: String, plaid_account_id: String, local_account_id: String },
    /// Load the entries of the journal.
    LoadEntries,
    /// Load the entries of the journal, and highlight one of them.
    LoadEntriesAndSelect(String),
    LoadReports,
    LoadDetail(String),
    /// Load the lines of an entry.
    LoadLines(String),
    /// Void an entry, or take back its being void.
    ToggleVoid(String),
    VoidAll(Vec<String>),
    Reassign { entry_id: String, line_id: String, new_account_id: String },
    /// Reassign in each entry the first line that is not on the account of the
    /// ledger.
    ReassignAll { entry_ids: Vec<String>, new_account_id: String, ledger: Option<String> },
}

/// The meaning of the settings of an import.
#[verifier::ext_equal]
pub ghost struct ImportPlan {
    pub file_path: Seq<char>,
    pub date_column: usize,
    pub description_column: usize,
    pub amount_column: usize,
    pub target: Option<Seq<char>>,
    pub skip_lines: int,
    pub has_header: bool,
    pub delimiter: char,
}

pub open spec fn import_plan(c: ImportConfig) -> ImportPlan {
    ImportPlan {
        file_path: c.file_path@,
        date_column: c.date_column,
        description_column: c.description_column,
        amount_column: c.amount_column,
        target: text::opt_text(c.target_account_id),
        skip_lines: c.skip_lines as int,
        has_header: c.has_header,
        delimiter: c.delimiter,
    }
}

/// The settings of a confirmed import, if it is complete.
pub open spec fn confirmed_import(s: csv_import::ImportState) -> Option<ImportPlan> {
    if s.ready_to_import && s.date_column is Some && s.description_column is Some
        && s.amount_column is Some {
        Some(
            ImportPlan {
                file_path: s.file_path,
                date_column: s.date_column->0,
                description_column: s.description_column->0,
                amount_column: s.amount_column->0,
                target: s.target_account_id,
                skip_lines: s.skip_lines,
                has_header: s.has_header,
                delimiter: s.delimiter,
            },
        )
    } else {
        None
    }
}

/// The meaning of what is to be done with the books.
#[verifier::ext_equal]
pub ghost enum Task {
    Nothing,
    OpenDatabase(Seq<char>, bool),
    CreateDefaultAccounts,
    /// Make or change an account.
    Account(account_form::AccountOutcome),
    PostEntry(entry_form::EntryData),
    ImportCsv(Seq<char>, ImportPlan),
    SkipImport(int),
    ImportBank(Seq<char>, int, Seq<char>, bool, Seq<bank_import::TransactionData>),
    Plaid(plaid::PlaidWish),
    Staged(plaid_staged::StagedWish),
    ShowLink(Seq<char>),
    /// Link or unlink a bank account.
    Link(plaid_link::LinkOutcome),
    LoadEntries,
    LoadEntriesAndSelect(Seq<char>),
    LoadReports,
    LoadDetail(Seq<char>),
    LoadLines(Seq<char>),
    ToggleVoid(Seq<char>),
    VoidAll(Seq<Seq<char>>),
    Reassign(Seq<char>, Seq<char>, Seq<char>),
    ReassignAll(Seq<Seq<char>>, Seq<char>, Option<Seq<char>>),
}

impl View for Command {
    type V = Task;

    open spec fn view(&self) -> Task {
        match self {
            Command::Nothing => Task::Nothing,
            Command::OpenDatabase { path, is_new } => Task::OpenDatabase(path@, *is_new),
            Command::CreateDefaultAccounts => Task::CreateDefaultAccounts,
            Command::CreateAccount(d) => Task::Account(AccountFormResult::Create(*d)@),
            Command::UpdateAccount(d) => Task::Account(AccountFormResult::Update(*d)@),
            Command::PostEntry(d) => Task::PostEntry(d@),
            Command::ImportCsv { path, config } => Task::ImportCsv(path@, import_plan(*config)),
            Command::SkipImport(id) => Task::SkipImport(*id as int),
            Command::ImportBank { path, import_id, account_id, save_mapping, transactions } =>
                Task::ImportBank(
                path@,
                *import_id as int,
                account_id@,
                *save_mapping,
                bank_import::transaction_views(transactions@),
            ),
            Command::Plaid(a) => Task::Plaid(a@),
            Command::Staged(a) => Task::Staged(a@),
            Command::ShowLink(id) => Task::ShowLink(id@),
            Command::Link { item_id, plaid_account_id, local_account_id } => Task::Link(
                plaid_link::LinkOutcome::Link {
                    item: item_id@,
                    plaid: plaid_account_id@,
                    local: local_account_id@,
                },
            ),
            Command::Unlink { item_id, plaid_account_id, local_account_id } => Task::Link(
                plaid_link::LinkOutcome::Unlink {
                    item: item_id@,
                    plaid: plaid_account_id@,
                    local: local_account_id@,
                },
            ),
            Command::LoadEntries => Task::LoadEntries,
            Command::LoadEntriesAndSelect(id) => Task::LoadEntriesAndSelect(id@),
            Command::LoadReports => Task::LoadReports,
            Command::LoadDetail(id) => Task::LoadDetail(id@),
            Command::LoadLines(id) => Task::LoadLines(id@),
            Command::ToggleVoid(id) => Task::ToggleVoid(id@),
            Command::VoidAll(ids) => Task::VoidAll(text::texts(ids@)),
            Command::Reassign { entry_id, line_id, new_account_id } => Task::Reassign(
                entry_id@,
                line_id@,
                new_account_id@,
            ),
            Command::ReassignAll { entry_ids, new_account_id, ledger } => Task::ReassignAll(
                text::texts(entry_ids@),
                new_account_id@,
                text::opt_text(*ledger),
            ),
        }
    }
}

// ---- the steps, as values ----

impl AppState {
    /// A database was chosen on the startup screen.
    pub open spec fn startup_step(self) -> (AppState, Task) {
        (
            self,
            if self.phase == AppPhase::Startup {
                match self.startup.action {
                    startup::StartupWish::NewDatabase(path) => Task::OpenDatabase(path, true),
                    startup::StartupWish::OpenDatabase(path) => Task::OpenDatabase(path, false),
                    startup::StartupWish::Nothing => Task::Nothing,
                }
            } else {
                Task::Nothing
            },
        )
    }

    /// The default chart was asked for. Without open books the wish is dropped.
    pub open spec fn default_accounts_step(self, open: bool) -> (AppState, Task) {
        (
            AppState { create_default_accounts: false, ..self },
            if self.create_default_accounts && open {
                Task::CreateDefaultAccounts
            } else {
                Task::Nothing
            },
        )
    }

    /// The account form was closed.
    pub open spec fn account_form_step(self, open: bool) -> (AppState, Task) {
        match self.account_form.result {
            account_form::AccountOutcome::Nothing => (self, Task::Nothing),
            result => (
                AppState {
                    account_form: account_form::AccountFormState {
                        visible: false,
                        result: account_form::AccountOutcome::Nothing,
                        ..self.account_form
                    },
                    ..self
                },
                if open && !(result is Cancel) {
                    Task::Account(result)
                } else {
                    Task::Nothing
                },
            ),
        }
    }

    /// The entry form was closed.
    pub open spec fn entry_form_step(self, open: bool) -> (AppState, Task) {
        match self.entry_form.result {
            entry_form::EntryOutcome::Nothing => (self, Task::Nothing),
            result => (
                AppState {
                    entry_form: entry_form::EntryFormState {
                        visible: false,
                        result: entry_form::EntryOutcome::Nothing,
                        ..self.entry_form
                    },
                    ..self
                },
                match result {
                    entry_form::EntryOutcome::Submit(d) => if open {
                        Task::PostEntry(d)
                    } else {
                        Task::Nothing
                    },
                    _ => Task::Nothing,
                },
            ),
        }
    }

    /// An import of a file was confirmed: it goes on in the background.
    pub open spec fn csv_step(self) -> (AppState, Task) {
        match confirmed_import(self.csv_import) {
            None => (self, Task::Nothing),
            Some(plan) => match self.database_path {
                Some(path) => (
                    AppState {
                        csv_import: self.csv_import.hidden(),
                        background: Some(("Importing CSV..."@, 0)),
                        ..self
                    },
                    Task::ImportCsv(path, plan),
                ),
                None => (
                    AppState { csv_import: self.csv_import.hidden(), ..self },
                    Task::Nothing,
                ),
            },
        }
    }

    /// A statement is to be imported or skipped, or the modal was closed.
    pub open spec fn bank_step(self, open: bool) -> (AppState, Task) {
        let s = AppState { pending_bank: None, ..self };
        match self.pending_bank {
            None => (self, Task::Nothing),
            Some(asked) => if !open {
                (s, Task::Nothing)
            } else {
                match asked {
                    bank_import::Asked::Cancel => (
                        AppState { bank_import: self.bank_import.hidden(), ..s },
                        Task::Nothing,
                    ),
                    bank_import::Asked::Skip(id) => (s, Task::SkipImport(id)),
                    bank_import::Asked::Import(id, account, save, transactions) => {
                        match self.database_path {
                            Some(path) => (
                                AppState {
                                    background: Some(
                                        (
                                            "Importing "@ + text::decimal(
                                                imports::selected_count(transactions),
                                            ) + " transactions..."@,
                                            0,
                                        ),
                                    ),
                                    ..s
                                },
                                Task::ImportBank(path, id, account, save, transactions),
                            ),
                            None => (s, Task::Nothing),
                        }
                    },
                    _ => (s, Task::Nothing),
                }
            },
        }
    }

    /// The setup of the bank connections was closed.
    pub open spec fn plaid_config_step(self) -> (AppState, Task) {
        let s = AppState {
            plaid_config: plaid_config::ConfigState {
                visible: false,
                result: PlaidConfigResult::Nothing,
                ..self.plaid_config
            },
            ..self
        };
        (
            match self.plaid_config.result {
                PlaidConfigResult::Nothing => self,
                PlaidConfigResult::Cancel => s,
                PlaidConfigResult::Saved => s.said("Plaid configuration saved"@),
            },
            Task::Nothing,
        )
    }

    /// Something is to be done for the bank connections.
    pub open spec fn plaid_step(self, open: bool) -> (AppState, Task) {
        (
            AppState { pending_plaid_action: None, ..self },
            match self.pending_plaid_action {
                Some(a) => if open {
                    Task::Plaid(a)
                } else {
                    Task::Nothing
                },
                None => Task::Nothing,
            },
        )
    }

    /// Something is to be done for the staged transactions.
    pub open spec fn staged_step(self, open: bool) -> (AppState, Task) {
        (
            AppState { pending_staged_action: None, ..self },
            match self.pending_staged_action {
                Some(a) => if open {
                    Task::Staged(a)
                } else {
                    Task::Nothing
                },
                None => Task::Nothing,
            },
        )
    }

    /// An account is to be linked to a bank account.
    pub open spec fn plaid_link_step(self, open: bool) -> (AppState, Task) {
        (
            AppState { pending_plaid_link: None, ..self },
            match self.pending_plaid_link {
                Some(id) => if open {
                    Task::ShowLink(id)
                } else {
                    Task::Nothing
                },
                None => Task::Nothing,
            },
        )
    }

    /// The choice of a bank account was closed.
    pub open spec fn link_result_step(self, open: bool) -> (AppState, Task) {
        let result = self.plaid_link.result;
        if result is Nothing {
            (self, Task::Nothing)
        } else {
            (
                AppState {
                    plaid_link: plaid_link::LinkState {
                        result: plaid_link::LinkOutcome::Nothing,
                        ..self.plaid_link.closed()
                    },
                    ..self
                },
                if open && !(result is Cancel) {
                    Task::Link(result)
                } else {
                    Task::Nothing
                },
            )
        }
    }

    /// The ledger of an account is to be shown.
    pub open spec fn ledger_step(self, open: bool) -> (AppState, Task) {
        let s = AppState {
            accounts: crate::tui::views::accounts::AccountsState {
                selected_account: None,
                ..self.accounts
            },
            ..self
        };
        match self.accounts.selected_account {
            Some(a) => if open {
                (
                    AppState {
                        journal: self.journal.in_ledger(a),
                        active_view: ActiveView::Journal,
                        ..s
                    },
                    Task::LoadEntries,
                )
            } else {
                (s, Task::Nothing)
            },
            None => (s, Task::Nothing),
        }
    }

    /// The ledger of the account on the other side of an entry is to be shown.
    pub open spec fn other_ledger_step(self, open: bool) -> (AppState, Task) {
        let s = AppState {
            journal: journal::JournalState { pending_goto_account: None, ..self.journal },
            ..self
        };
        match self.journal.pending_goto_account {
            Some((account, entry)) => match domain::place_of(self.accounts.accounts, account) {
                Some(i) => if open {
                    (
                        AppState {
                            journal: s.journal.in_ledger(self.accounts.accounts[i as int]),
                            ..s
                        },
                        Task::LoadEntriesAndSelect(entry),
                    )
                } else {
                    (s, Task::Nothing)
                },
                None => (s, Task::Nothing),
            },
            None => (s, Task::Nothing),
        }
    }

    /// The entries have to be loaded again.
    pub open spec fn journal_reload_step(self, open: bool) -> (AppState, Task) {
        (
            AppState { journal_needs_reload: false, ..self },
            if self.journal_needs_reload && open {
                Task::LoadEntries
            } else {
                Task::Nothing
            },
        )
    }

    /// The reports have to be made for another day.
    pub open spec fn report_reload_step(self, open: bool) -> (AppState, Task) {
        (
            self,
            if self.reports.needs_reload && open {
                Task::LoadReports
            } else {
                Task::Nothing
            },
        )
    }

    /// An entry is to be shown with its lines.
    pub open spec fn detail_step(self, open: bool) -> (AppState, Task) {
        (
            AppState { pending_entry_detail: None, ..self },
            match self.pending_entry_detail {
                Some(id) => if open {
                    Task::LoadDetail(id)
                } else {
                    Task::Nothing
                },
                None => Task::Nothing,
            },
        )
    }

    /// A line of an entry is to be reassigned.
    pub open spec fn reassign_step(self, open: bool) -> (AppState, Task) {
        (
            AppState { pending_reassign: None, ..self },
            match self.pending_reassign {
                Some(id) => if open {
                    Task::LoadLines(id)
                } else {
                    Task::Nothing
                },
                None => Task::Nothing,
            },
        )
    }

    /// The selected entries are to be reassigned.
    pub open spec fn bulk_reassign_step(self) -> (AppState, Task) {
        (
            if self.pending_bulk_reassign {
                AppState {
                    pending_bulk_reassign: false,
                    journal: self.journal.bulk_reassigning(
                        app_keys::reassign_choices(self.accounts.accounts),
                    ),
                    ..self
                }
            } else {
                self
            },
            Task::Nothing,
        )
    }

    /// The voiding of an entry was confirmed.
    pub open spec fn void_step(self, open: bool) -> (AppState, Task) {
        if self.journal.confirm_void {
            (
                AppState {
                    journal: journal::JournalState {
                        confirm_void: false,
                        pending_void: None,
                        ..self.journal
                    },
                    ..self
                },
                match self.journal.pending_void {
                    Some(id) => if open {
                        Task::ToggleVoid(id)
                    } else {
                        Task::Nothing
                    },
                    None => Task::Nothing,
                },
            )
        } else {
            (self, Task::Nothing)
        }
    }

    /// The voiding of several entries was confirmed.
    pub open spec fn bulk_void_step(self, open: bool) -> (AppState, Task) {
        (
            AppState {
                journal: journal::JournalState { bulk_void_confirmed: None, ..self.journal },
                ..self
            },
            match self.journal.bulk_void_confirmed {
                Some(ids) => if open {
                    Task::VoidAll(ids)
                } else {
                    Task::Nothing
                },
                None => Task::Nothing,
            },
        )
    }

    /// The reassignment of a line was confirmed.
    pub open spec fn reassigned_step(self, open: bool) -> (AppState, Task) {
        (
            AppState {
                journal: journal::JournalState { reassign_confirmed: None, ..self.journal },
                ..self
            },
            match self.journal.reassign_confirmed {
                Some((entry, line, account)) => if open {
                    Task::Reassign(entry, line, account)
                } else {
                    Task::Nothing
                },
                None => Task::Nothing,
            },
        )
    }

    /// The reassignment of several entries was confirmed.
    pub open spec fn bulk_reassigned_step(self, open: bool) -> (AppState, Task) {
        (
            AppState {
                journal: journal::JournalState { bulk_reassign_confirmed: None, ..self.journal },
                ..self
            },
            match self.journal.bulk_reassign_confirmed {
                Some((entries, account)) => if open {
                    Task::ReassignAll(
                        entries,
                        account,
                        match self.journal.filter_account {
                            Some(a) => Some(a.id@),
                            None => None,
                        },
                    )
                } else {
                    Task::Nothing
                },
                None => Task::Nothing,
            },
        )
    }

    /// A step of a round, and what is to be done in it. Only open books are
    /// changed.
    pub open spec fn stepped(self, step: Step, open: bool) -> (AppState, Task) {
        match step {
            Step::Startup => self.startup_step(),
            Step::DefaultAccounts => self.default_accounts_step(open),
            Step::AccountForm => self.account_form_step(open),
            Step::EntryForm => self.entry_form_step(open),
            Step::CsvImport => self.csv_step(),
            Step::BankImport => self.bank_step(open),
            Step::PlaidConfig => self.plaid_config_step(),
            Step::PlaidAction => self.plaid_step(open),
            Step::StagedAction => self.staged_step(open),
            Step::PlaidLink => self.plaid_link_step(open),
            Step::PlaidLinkResult => self.link_result_step(open),
            Step::Ledger => self.ledger_step(open),
            Step::OtherLedger => self.other_ledger_step(open),
            Step::JournalReload => self.journal_reload_step(open),
            Step::ReportReload => self.report_reload_step(open),
            Step::EntryDetail => self.detail_step(open),
            Step::Reassign => self.reassign_step(open),
            Step::BulkReassign => self.bulk_reassign_step(),
            Step::Void => self.void_step(open),
            Step::BulkVoid => self.bulk_void_step(open),
            Step::Reassigned => self.reassigned_step(open),
            Step::BulkReassigned => self.bulk_reassigned_step(open),
            Step::Keys => (self, Task::Nothing),
        }
    }
}

/// What is done in open books is what was confirmed: the entry that was
/// submitted is posted, the entry that was to be voided is voided or restored,
/// the selected entries are voided, the line or the entries are put on the
/// account that was chosen, and the transactions of a statement go to the
/// account that was chosen for them.
pub proof fn what_was_confirmed_is_done(s: AppState)
    ensures
        s.entry_form.result matches entry_form::EntryOutcome::Submit(d) ==> s.entry_form_step(
            true,
        ).1 == Task::PostEntry(d),
        s.journal.confirm_void ==> (s.journal.pending_void matches Some(id) ==> s.void_step(true).1
            == Task::ToggleVoid(id)),
        !s.journal.confirm_void ==> s.void_step(true) == (s, Task::Nothing),
        s.journal.bulk_void_confirmed matches Some(ids) ==> s.bulk_void_step(true).1
            == Task::VoidAll(ids),
        s.journal.bulk_void_confirmed is None ==> s.bulk_void_step(true).1 == Task::Nothing,
        s.journal.reassign_confirmed matches Some(r) ==> s.reassigned_step(true).1
            == Task::Reassign(r.0, r.1, r.2),
        s.journal.reassign_confirmed is None ==> s.reassigned_step(true).1 == Task::Nothing,
        s.journal.bulk_reassign_confirmed matches Some(r) ==> (s.bulk_reassigned_step(
            true,
        ).1 matches Task::ReassignAll(entries, account, from) && entries == r.0 && account == r.1
            && (s.journal.filter_account matches Some(a) ==> from == Some(a.id@)) && (
        s.journal.filter_account is None ==> from is None)),
        s.pending_bank matches Some(bank_import::Asked::Import(id, account, save, transactions))
            ==> (s.database_path matches Some(path) ==> s.bank_step(true).1 == Task::ImportBank(
            path,
            id,
            account,
            save,
            transactions,
        )),
        s.pending_bank == Some(bank_import::Asked::Cancel) ==> s.bank_step(true).1
            == Task::Nothing,
        s.pending_entry_detail matches Some(id) ==> s.detail_step(true).1 == Task::LoadDetail(id),
        s.pending_reassign matches Some(id) ==> s.reassign_step(true).1 == Task::LoadLines(id),
{
}

impl App {
    /// Carries out a step of a round, and says what is to be done with the
    /// books before the next one.
    pub fn run_step(&mut self, step: Step, open: bool) -> (r: Command)
        requires
            old(self)@.wf(),
        ensures
            (final(self)@, r@) == old(self)@.stepped(step, open),
            final(self)@.wf(),
    {
        match step {
            Step::Startup => self.take_startup_action(),
            Step::DefaultAccounts => self.take_default_accounts(open),
            Step::AccountForm => self.take_account_result(open),
            Step::EntryForm => self.take_entry_result(open),
            Step::CsvImport => self.take_csv_import(),
            Step::BankImport => self.take_bank_import(open),
            Step::PlaidConfig => self.settle_plaid_config(),
            Step::PlaidAction => self.take_plaid_action(open),
            Step::StagedAction => self.take_staged_action(open),
            Step::PlaidLink => self.take_plaid_link(open),
            Step::PlaidLinkResult => self.take_link_result(open),
            Step::Ledger => self.take_ledger(open),
            Step::OtherLedger => self.take_other_ledger(open),
            Step::JournalReload => self.take_journal_reload(open),
            Step::ReportReload => self.see_report_reload(open),
            Step::EntryDetail => self.take_entry_detail(open),
            Step::Reassign => self.take_reassign(open),
            Step::BulkReassign => self.start_bulk_reassign(),
            Step::Void => self.take_void(open),
            Step::BulkVoid => self.take_bulk_void(open),
            Step::Reassigned => self.take_reassigned(open),
            Step::BulkReassigned => self.take_bulk_reassigned(open),
            Step::Keys => Command::Nothing,
        }
    }
}

/// Without open books no step changes any: it asks at most to open a database
/// or to import a file into the one whose path is known.
pub proof fn closed_books_are_not_changed(s: AppState, step: Step)
    ensures
        ({
            let task = s.stepped(step, false).1;
            task is Nothing || task is OpenDatabase || task is ImportCsv
        }),
{
}

proof fn default_accounts_once(s: AppState, open: bool)
    ensures
        s.default_accounts_step(open).0.default_accounts_step(open).1 is Nothing,
{
}

proof fn account_form_once(s: AppState, open: bool)
    ensures
        s.account_form_step(open).0.account_form_step(open).1 is Nothing,
{
}

proof fn entry_form_once(s: AppState, open: bool)
    ensures
        s.entry_form_step(open).0.entry_form_step(open).1 is Nothing,
{
}

proof fn csv_once(s: AppState, open: bool)
    ensures
        s.csv_step().0.csv_step().1 is Nothing,
{
}

proof fn bank_once(s: AppState, open: bool)
    ensures
        s.bank_step(open).0.bank_step(open).1 is Nothing,
{
}

proof fn plaid_config_once(s: AppState, open: bool)
    ensures
        s.plaid_config_step().0.plaid_config_step().1 is Nothing,
{
}

proof fn plaid_once(s: AppState, open: bool)
    ensures
        s.plaid_step(open).0.plaid_step(open).1 is Nothing,
{
}

proof fn staged_once(s: AppState, open: bool)
    ensures
        s.staged_step(open).0.staged_step(open).1 is Nothing,
{
}

proof fn plaid_link_once(s: AppState, open: bool)
    ensures
        s.plaid_link_step(open).0.plaid_link_step(open).1 is Nothing,
{
}

proof fn link_result_once(s: AppState, open: bool)
    ensures
        s.link_result_step(open).0.link_result_step(open).1 is Nothing,
{
}

proof fn ledger_once(s: AppState, open: bool)
    ensures
        s.ledger_step(open).0.ledger_step(open).1 is Nothing,
{
}

proof fn other_ledger_once(s: AppState, open: bool)
    ensures
        s.other_ledger_step(open).0.other_ledger_step(open).1 is Nothing,
{
}

proof fn journal_reload_once(s: AppState, open: bool)
    ensures
        s.journal_reload_step(open).0.journal_reload_step(open).1 is Nothing,
{
}

proof fn detail_once(s: AppState, open: bool)
    ensures
        s.detail_step(open).0.detail_step(open).1 is Nothing,
{
}

proof fn reassign_once(s: AppState, open: bool)
    ensures
        s.reassign_step(open).0.reassign_step(open).1 is Nothing,
{
}

proof fn bulk_reassign_once(s: AppState, open: bool)
    ensures
        s.bulk_reassign_step().0.bulk_reassign_step().1 is Nothing,
{
}

proof fn void_once(s: AppState, open: bool)
    ensures
        s.void_step(open).0.void_step(open).1 is Nothing,
{
}

proof fn bulk_void_once(s: AppState, open: bool)
    ensures
        s.bulk_void_step(open).0.bulk_void_step(open).1 is Nothing,
{
}

proof fn reassigned_once(s: AppState, open: bool)
    ensures
        s.reassigned_step(open).0.reassigned_step(open).1 is Nothing,
{
}

proof fn bulk_reassigned_once(s: AppState, open: bool)
    ensures
        s.bulk_reassigned_step(open).0.bulk_reassigned_step(open).1 is Nothing,
{
}

/// What a step hands over is handed over once: carried out again, it asks for
/// nothing. Only a chosen database and outdated reports wait for the outcome.
pub proof fn wishes_are_granted_once(s: AppState, step: Step, open: bool)
    requires
        !(step is Startup),
        !(step is ReportReload),
    ensures
        s.stepped(step, open).0.stepped(step, open).1 is Nothing,
{
    match step {
        Step::DefaultAccounts => default_accounts_once(s, open),
        Step::AccountForm => account_form_once(s, open),
        Step::EntryForm => entry_form_once(s, open),
        Step::CsvImport => csv_once(s, open),
        Step::BankImport => bank_once(s, open),
        Step::PlaidConfig => plaid_config_once(s, open),
        Step::PlaidAction => plaid_once(s, open),
        Step::StagedAction => staged_once(s, open),
        Step::PlaidLink => plaid_link_once(s, open),
        Step::PlaidLinkResult => link_result_once(s, open),
        Step::Ledger => ledger_once(s, open),
        Step::OtherLedger => other_ledger_once(s, open),
        Step::JournalReload => journal_reload_once(s, open),
        Step::EntryDetail => detail_once(s, open),
        Step::Reassign => reassign_once(s, open),
        Step::BulkReassign => bulk_reassign_once(s, open),
        Step::Void => void_once(s, open),
        Step::BulkVoid => bulk_void_once(s, open),
        Step::Reassigned => reassigned_once(s, open),
        Step::BulkReassigned => bulk_reassigned_once(s, open),
        _ => {},
    }
}

} // verus!
