//! The steps of a round, carried out.

use vstd::prelude::*;

use crate::domain;
use crate::domain::Account;
use crate::text;
use crate::tui::app::{ActiveView, App, AppPhase, AppState, BackgroundTask};
use crate::tui::app_keys;
use crate::tui::imports;
use crate::tui::session::Command;
use crate::tui::views::account_form;
use crate::tui::views::account_form::AccountFormResult;
use crate::tui::views::bank_import::BankImportResult;
use crate::tui::views::entry_form::EntryFormResult;
use crate::tui::views::journal;
use crate::tui::views::plaid::PlaidAction;
use crate::tui::views::plaid_config;
use crate::tui::views::plaid_config::PlaidConfigResult;
use crate::tui::views::plaid_link::PlaidLinkResult;
use crate::tui::views::plaid_staged::StagedAction;
use crate::tui::views::startup::StartupAction;

verus! {

impl App {
    pub(crate) fn take_startup_action(&self) -> (r: Command)
        ensures
            (self@, r@) == self@.startup_step(),
    {
        proof {
            reveal(App::state);
        }
        if self.phase == AppPhase::Startup {
            match &self.startup.action {
                StartupAction::NewDatabase(path) => Command::OpenDatabase {
                    path: path.clone(),
                    is_new: true,
                },
                StartupAction::OpenDatabase(path) => Command::OpenDatabase {
                    path: path.clone(),
                    is_new: false,
                },
                StartupAction::Nothing => Command::Nothing,
            }
        } else {
            Command::Nothing
        }
    }

    pub(crate) fn take_default_accounts(&mut self, open: bool) -> (r: Command)
        requires
            old(self)@.wf(),
        ensures
            (final(self)@, r@) == old(self)@.default_accounts_step(open),
            final(self)@.wf(),
    {
        proof {
            reveal(App::state);
        }
        let wanted: bool = self.create_default_accounts;
        self.create_default_accounts = false;
        if wanted && open {
            Command::CreateDefaultAccounts
        } else {
            Command::Nothing
        }
    }

    fn grab_account_result(&mut self) -> (r: AccountFormResult)
        requires
            old(self)@.wf(),
        ensures
            final(self)@ == (AppState {
                account_form: account_form::AccountFormState {
                    visible: if old(self)@.account_form.result is Nothing {
                        old(self)@.account_form.visible
                    } else {
                        false
                    },
                    result: account_form::AccountOutcome::Nothing,
                    ..old(self)@.account_form
                },
                ..old(self)@
            }),
            r@ == old(self)@.account_form.result,
            final(self)@.wf(),
    {
        proof {
            reveal(App::state);
        }
        let mut result = AccountFormResult::Nothing;
        core::mem::swap(&mut self.account_form.result, &mut result);
        if !matches!(result, AccountFormResult::Nothing) {
            self.account_form.close();
        }
        result
    }

    pub(crate) fn take_account_result(&mut self, open: bool) -> (r: Command)
        requires
            old(self)@.wf(),
        ensures
            (final(self)@, r@) == old(self)@.account_form_step(open),
            final(self)@.wf(),
    {
        match self.grab_account_result() {
            AccountFormResult::Create(d) if open => Command::CreateAccount(d),
            AccountFormResult::Update(d) if open => Command::UpdateAccount(d),
            _ => Command::Nothing,
        }
    }

    pub(crate) fn take_entry_result(&mut self, open: bool) -> (r: Command)
        requires
            old(self)@.wf(),
        ensures
            (final(self)@, r@) == old(self)@.entry_form_step(open),
            final(self)@.wf(),
    {
        proof {
            reveal(App::state);
        }
        if let EntryFormResult::Nothing = &self.entry_form.result {
            return Command::Nothing;
        }
        let mut result = EntryFormResult::Nothing;
        core::mem::swap(&mut self.entry_form.result, &mut result);
        self.entry_form.close();
        match result {
            EntryFormResult::Submit(d) if open => Command::PostEntry(d),
            _ => Command::Nothing,
        }
    }

    pub(crate) fn take_csv_import(&mut self) -> (r: Command)
        requires
            old(self)@.wf(),
        ensures
            (final(self)@, r@) == old(self)@.csv_step(),
            final(self)@.wf(),
    {
        proof {
            reveal(App::state);
        }
        match self.csv_import.get_import_config() {
            None => Command::Nothing,
            Some(config) => {
                self.csv_import.close();
                match &self.database_path {
                    Some(path) => {
                        let path = path.clone();
                        self.background_task = Some(
                            BackgroundTask { label: text::owned("Importing CSV..."), tick: 0 },
                        );
                        Command::ImportCsv { path, config }
                    },
                    None => Command::Nothing,
                }
            },
        }
    }

    fn take_bank_result(&mut self) -> (r: Option<BankImportResult>)
        requires
            old(self)@.wf(),
        ensures
            final(self)@ == (AppState { pending_bank: None, ..old(self)@ }),
            match r {
                Some(result) => old(self)@.pending_bank == Some(result@),
                None => old(self)@.pending_bank is None,
            },
            final(self)@.wf(),
    {
        proof {
            reveal(App::state);
        }
        self.pending_bank_import_result.take()
    }

    pub(crate) fn close_bank_import(&mut self)
        requires
            old(self)@.wf(),
        ensures
            final(self)@ == (AppState {
                bank_import: old(self)@.bank_import.hidden(),
                ..old(self)@
            }),
            final(self)@.wf(),
    {
        proof {
            reveal(App::state);
        }
        self.bank_import.close();
    }

    pub(crate) fn open_path(&self) -> (r: Option<String>)
        ensures
            text::opt_text(r) == self@.database_path,
    {
        proof {
            reveal(App::state);
        }
        text::clone_opt(&self.database_path)
    }

    pub(crate) fn start_background(&mut self, label: String)
        requires
            old(self)@.wf(),
        ensures
            final(self)@ == (AppState { background: Some((label@, 0)), ..old(self)@ }),
            final(self)@.wf(),
    {
        proof {
            reveal(App::state);
        }
        self.background_task = Some(BackgroundTask { label, tick: 0 });
    }

    pub(crate) fn take_bank_import(&mut self, open: bool) -> (r: Command)
        requires
            old(self)@.wf(),
        ensures
            (final(self)@, r@) == old(self)@.bank_step(open),
            final(self)@.wf(),
    {
        let asked = self.take_bank_result();
        match asked {
            None => Command::Nothing,
            Some(result) => {
                if !open {
                    return Command::Nothing;
                }
                match result {
                    BankImportResult::Cancel => {
                        self.close_bank_import();
                        Command::Nothing
                    },
                    BankImportResult::Skip(id) => Command::SkipImport(id),
                    BankImportResult::Import {
                        import_id,
                        account_id,
                        save_mapping,
                        transactions,
                    } => match self.open_path() {
                        Some(path) => {
                            let n = text::count(imports::count_selected(&transactions));
                            self.start_background(
                                text::cat3("Importing ", n.as_str(), " transactions..."),
                            );
                            Command::ImportBank {
                                path,
                                import_id,
                                account_id,
                                save_mapping,
                                transactions,
                            }
                        },
                        None => Command::Nothing,
                    },
                    _ => Command::Nothing,
                }
            },
        }
    }

    fn plaid_config_result(&self) -> (r: PlaidConfigResult)
        ensures
            r == self@.plaid_config.result,
    {
        proof {
            reveal(App::state);
        }
        self.plaid_config.result
    }

    fn close_plaid_config(&mut self)
        requires
            old(self)@.wf(),
        ensures
            final(self)@ == (AppState {
                plaid_config: plaid_config::ConfigState {
                    visible: false,
                    result: PlaidConfigResult::Nothing,
                    ..old(self)@.plaid_config
                },
                ..old(self)@
            }),
            final(self)@.wf(),
    {
        proof {
            reveal(App::state);
        }
        self.plaid_config.close();
        self.plaid_config.result = PlaidConfigResult::Nothing;
    }

    /// Shows a message.
    pub fn say(&mut self, message: String)
        requires
            old(self)@.wf(),
        ensures
            final(self)@ == old(self)@.said(message@),
            final(self)@.wf(),
    {
        proof {
            reveal(App::state);
        }
        self.status_message = Some(message);
    }

    pub(crate) fn settle_plaid_config(&mut self) -> (r: Command)
        requires
            old(self)@.wf(),
        ensures
            (final(self)@, r@) == old(self)@.plaid_config_step(),
            final(self)@.wf(),
    {
        match self.plaid_config_result() {
            PlaidConfigResult::Nothing => {},
            PlaidConfigResult::Cancel => {
                self.close_plaid_config();
            },
            PlaidConfigResult::Saved => {
                self.close_plaid_config();
                self.say(text::owned("Plaid configuration saved"));
            },
        }
        Command::Nothing
    }

    fn grab_pending_plaid_action(&mut self) -> (r: Option<PlaidAction>)
        requires
            old(self)@.wf(),
        ensures
            final(self)@ == (AppState { pending_plaid_action: None, ..old(self)@ }),
            match r {
                Some(it) => old(self)@.pending_plaid_action == Some(it@),
                None => old(self)@.pending_plaid_action is None,
            },
            final(self)@.wf(),
    {
        proof {
            reveal(App::state);
        }
        self.pending_plaid_action.take()
    }

    pub(crate) fn take_plaid_action(&mut self, open: bool) -> (r: Command)
        requires
            old(self)@.wf(),
        ensures
            (final(self)@, r@) == old(self)@.plaid_step(open),
            final(self)@.wf(),
    {
        match self.grab_pending_plaid_action() {
            Some(it) => if open {
                Command::Plaid(it)
            } else {
                Command::Nothing
            },
            None => Command::Nothing,
        }
    }

    fn grab_pending_staged_action(&mut self) -> (r: Option<StagedAction>)
        requires
            old(self)@.wf(),
        ensures
            final(self)@ == (AppState { pending_staged_action: None, ..old(self)@ }),
            match r {
                Some(it) => old(self)@.pending_staged_action == Some(it@),
                None => old(self)@.pending_staged_action is None,
            },
            final(self)@.wf(),
    {
        proof {
            reveal(App::state);
        }
        self.pending_staged_action.take()
    }

    pub(crate) fn take_staged_action(&mut self, open: bool) -> (r: Command)
        requires
            old(self)@.wf(),
        ensures
            (final(self)@, r@) == old(self)@.staged_step(open),
            final(self)@.wf(),
    {
        match self.grab_pending_staged_action() {
            Some(it) => if open {
                Command::Staged(it)
            } else {
                Command::Nothing
            },
            None => Command::Nothing,
        }
    }

    fn grab_pending_plaid_link(&mut self) -> (r: Option<String>)
        requires
            old(self)@.wf(),
        ensures
            final(self)@ == (AppState { pending_plaid_link: None, ..old(self)@ }),
            match r {
                Some(it) => old(self)@.pending_plaid_link == Some(it@),
                None => old(self)@.pending_plaid_link is None,
            },
            final(self)@.wf(),
    {
        proof {
            reveal(App::state);
        }
        self.pending_plaid_link.take()
    }

    pub(crate) fn take_plaid_link(&mut self, open: bool) -> (r: Command)
        requires
            old(self)@.wf(),
        ensures
            (final(self)@, r@) == old(self)@.plaid_link_step(open),
            final(self)@.wf(),
    {
        match self.grab_pending_plaid_link() {
            Some(it) => if open {
                Command::ShowLink(it)
            } else {
                Command::Nothing
            },
            None => Command::Nothing,
        }
    }

    pub(crate) fn take_link_result(&mut self, open: bool) -> (r: Command)
        requires
            old(self)@.wf(),
        ensures
            (final(self)@, r@) == old(self)@.link_result_step(open),
            final(self)@.wf(),
    {
        proof {
            reveal(App::state);
        }
        if let PlaidLinkResult::Nothing = &self.plaid_link.result {
            return Command::Nothing;
        }
        self.plaid_link.close();
        let mut result = PlaidLinkResult::Nothing;
        core::mem::swap(&mut self.plaid_link.result, &mut result);
        match result {
            PlaidLinkResult::Link { item_id, plaid_account_id, local_account_id } if open =>
                Command::Link { item_id, plaid_account_id, local_account_id },
            PlaidLinkResult::Unlink { item_id, plaid_account_id, local_account_id } if open =>
                Command::Unlink { item_id, plaid_account_id, local_account_id },
            _ => Command::Nothing,
        }
    }

    fn take_chosen_account(&mut self) -> (r: Option<Account>)
        requires
            old(self)@.wf(),
        ensures
            final(self)@ == (AppState {
                accounts: crate::tui::views::accounts::AccountsState {
                    selected_account: None,
                    ..old(self)@.accounts
                },
                ..old(self)@
            }),
            r == old(self)@.accounts.selected_account,
            final(self)@.wf(),
    {
        proof {
            reveal(App::state);
        }
        self.accounts.take_selected_account()
    }

    fn enter_ledger(&mut self, account: Account)
        requires
            old(self)@.wf(),
        ensures
            final(self)@ == (AppState {
                journal: old(self)@.journal.in_ledger(account),
                ..old(self)@
            }),
            final(self)@.wf(),
    {
        proof {
            reveal(App::state);
        }
        self.journal.set_filter(account);
    }

    pub(crate) fn take_ledger(&mut self, open: bool) -> (r: Command)
        requires
            old(self)@.wf(),
        ensures
            (final(self)@, r@) == old(self)@.ledger_step(open),
            final(self)@.wf(),
    {
        match self.take_chosen_account() {
            Some(a) => {
                if open {
                    self.enter_ledger(a);
                    self.show_screen(ActiveView::Journal);
                    Command::LoadEntries
                } else {
                    Command::Nothing
                }
            },
            None => Command::Nothing,
        }
    }

    fn take_goto(&mut self) -> (r: Option<(String, String)>)
        requires
            old(self)@.wf(),
        ensures
            final(self)@ == (AppState {
                journal: journal::JournalState {
                    pending_goto_account: None,
                    ..old(self)@.journal
                },
                ..old(self)@
            }),
            match r {
                Some((account, entry)) => old(self)@.journal.pending_goto_account == Some(
                    (account@, entry@),
                ),
                None => old(self)@.journal.pending_goto_account is None,
            },
            final(self)@.wf(),
    {
        proof {
            reveal(App::state);
        }
        self.journal.take_pending_goto_account()
    }

    fn account_at(&self, id: &str) -> (r: Option<Account>)
        ensures
            match r {
                Some(a) => domain::place_of(self@.accounts.accounts, id@) is Some && a
                    == self@.accounts.accounts[domain::place_of(
                    self@.accounts.accounts,
                    id@,
                )->0 as int],
                None => domain::place_of(self@.accounts.accounts, id@) is None,
            },
    {
        proof {
            reveal(App::state);
        }
        match domain::find_account(&self.accounts.accounts, id) {
            Some(i) => Some(self.accounts.accounts[i].duplicate()),
            None => None,
        }
    }

    pub(crate) fn take_other_ledger(&mut self, open: bool) -> (r: Command)
        requires
            old(self)@.wf(),
        ensures
            (final(self)@, r@) == old(self)@.other_ledger_step(open),
            final(self)@.wf(),
    {
        match self.take_goto() {
            Some((account, entry)) => match self.account_at(account.as_str()) {
                Some(a) => {
                    if open {
                        self.enter_ledger(a);
                        Command::LoadEntriesAndSelect(entry)
                    } else {
                        Command::Nothing
                    }
                },
                None => Command::Nothing,
            },
            None => Command::Nothing,
        }
    }

    pub(crate) fn take_journal_reload(&mut self, open: bool) -> (r: Command)
        requires
            old(self)@.wf(),
        ensures
            (final(self)@, r@) == old(self)@.journal_reload_step(open),
            final(self)@.wf(),
    {
        proof {
            reveal(App::state);
        }
        let wanted: bool = self.journal_needs_reload;
        self.journal_needs_reload = false;
        if wanted && open {
            Command::LoadEntries
        } else {
            Command::Nothing
        }
    }

    pub(crate) fn see_report_reload(&self, open: bool) -> (r: Command)
        ensures
            (self@, r@) == self@.report_reload_step(open),
    {
        proof {
            reveal(App::state);
        }
        if self.reports.needs_reload && open {
            Command::LoadReports
        } else {
            Command::Nothing
        }
    }

    fn grab_pending_entry_detail(&mut self) -> (r: Option<String>)
        requires
            old(self)@.wf(),
        ensures
            final(self)@ == (AppState { pending_entry_detail: None, ..old(self)@ }),
            match r {
                Some(it) => old(self)@.pending_entry_detail == Some(it@),
                None => old(self)@.pending_entry_detail is None,
            },
            final(self)@.wf(),
    {
        proof {
            reveal(App::state);
        }
        self.pending_entry_detail.take()
    }

    pub(crate) fn take_entry_detail(&mut self, open: bool) -> (r: Command)
        requires
            old(self)@.wf(),
        ensures
            (final(self)@, r@) == old(self)@.detail_step(open),
            final(self)@.wf(),
    {
        match self.grab_pending_entry_detail() {
            Some(it) => if open {
                Command::LoadDetail(it)
            } else {
                Command::Nothing
            },
            None => Command::Nothing,
        }
    }

    fn grab_pending_reassign(&mut self) -> (r: Option<String>)
        requires
            old(self)@.wf(),
        ensures
            final(self)@ == (AppState { pending_reassign: None, ..old(self)@ }),
            match r {
                Some(it) => old(self)@.pending_reassign == Some(it@),
                None => old(self)@.pending_reassign is None,
            },
            final(self)@.wf(),
    {
        proof {
            reveal(App::state);
        }
        self.pending_reassign.take()
    }

    pub(crate) fn take_reassign(&mut self, open: bool) -> (r: Command)
        requires
            old(self)@.wf(),
        ensures
            (final(self)@, r@) == old(self)@.reassign_step(open),
            final(self)@.wf(),
    {
        match self.grab_pending_reassign() {
            Some(it) => if open {
                Command::LoadLines(it)
            } else {
                Command::Nothing
            },
            None => Command::Nothing,
        }
    }

    pub(crate) fn start_bulk_reassign(&mut self) -> (r: Command)
        requires
            old(self)@.wf(),
        ensures
            (final(self)@, r@) == old(self)@.bulk_reassign_step(),
            final(self)@.wf(),
    {
        proof {
            reveal(App::state);
        }
        if self.pending_bulk_reassign {
            let choices = app_keys::make_reassign_choices(&self.accounts.accounts);
            self.pending_bulk_reassign = false;
            self.journal.start_bulk_reassign(choices);
        }
        Command::Nothing
    }

    fn grab_confirmed_void(&mut self) -> (r: Option<String>)
        requires
            old(self)@.wf(),
        ensures
            final(self)@ == (AppState { journal: if old(self)@.journal.confirm_void {
                    journal::JournalState {
                        confirm_void: false,
                        pending_void: None,
                        ..old(self)@.journal
                    }
                } else {
                    old(self)@.journal
                }, ..old(self)@ }),
            text::opt_text(r) == (if old(self)@.journal.confirm_void {
                old(self)@.journal.pending_void
            } else {
                None
            }),
            final(self)@.wf(),
    {
        proof {
            reveal(App::state);
        }
        self.journal.take_confirmed_void()
    }

    pub(crate) fn take_void(&mut self, open: bool) -> (r: Command)
        requires
            old(self)@.wf(),
        ensures
            (final(self)@, r@) == old(self)@.void_step(open),
            final(self)@.wf(),
    {
        match self.grab_confirmed_void() {
            Some(id) => if open {
                Command::ToggleVoid(id)
            } else {
                Command::Nothing
            },
            None => Command::Nothing,
        }
    }

    fn grab_bulk_void_confirmed(&mut self) -> (r: Option<Vec<String>>)
        requires
            old(self)@.wf(),
        ensures
            final(self)@ == (AppState { journal: journal::JournalState { bulk_void_confirmed: None, ..old(self)@.journal }, ..old(self)@ }),
            match r {
                Some(ids) => old(self)@.journal.bulk_void_confirmed == Some(text::texts(ids@)),
                None => old(self)@.journal.bulk_void_confirmed is None,
            },
            final(self)@.wf(),
    {
        proof {
            reveal(App::state);
        }
        self.journal.take_bulk_void_confirmed()
    }

    pub(crate) fn take_bulk_void(&mut self, open: bool) -> (r: Command)
        requires
            old(self)@.wf(),
        ensures
            (final(self)@, r@) == old(self)@.bulk_void_step(open),
            final(self)@.wf(),
    {
        match self.grab_bulk_void_confirmed() {
            Some(ids) => if open {
                Command::VoidAll(ids)
            } else {
                Command::Nothing
            },
            None => Command::Nothing,
        }
    }

    fn grab_reassign_confirmed(&mut self) -> (r: Option<(String, String, String)>)
        requires
            old(self)@.wf(),
        ensures
            final(self)@ == (AppState { journal: journal::JournalState { reassign_confirmed: None, ..old(self)@.journal }, ..old(self)@ }),
            match r {
                Some((a, b, c)) => old(self)@.journal.reassign_confirmed == Some((a@, b@, c@)),
                None => old(self)@.journal.reassign_confirmed is None,
            },
            final(self)@.wf(),
    {
        proof {
            reveal(App::state);
        }
        self.journal.take_reassign_confirmed()
    }

    pub(crate) fn take_reassigned(&mut self, open: bool) -> (r: Command)
        requires
            old(self)@.wf(),
        ensures
            (final(self)@, r@) == old(self)@.reassigned_step(open),
            final(self)@.wf(),
    {
        match self.grab_reassign_confirmed() {
            Some((entry_id, line_id, new_account_id)) => if open {
                Command::Reassign { entry_id, line_id, new_account_id }
            } else {
                Command::Nothing
            },
            None => Command::Nothing,
        }
    }

    fn ledger_id(&self) -> (r: Option<String>)
        ensures
            text::opt_text(r) == (match self@.journal.filter_account {
                Some(a) => Some(a.id@),
                None => None,
            }),
    {
        proof {
            reveal(App::state);
        }
        match &self.journal.filter_account {
            Some(a) => Some(a.id.clone()),
            None => None,
        }
    }

    fn grab_bulk_reassign_confirmed(&mut self) -> (r: Option<(Vec<String>, String)>)
        requires
            old(self)@.wf(),
        ensures
            final(self)@ == (AppState { journal: journal::JournalState { bulk_reassign_confirmed: None, ..old(self)@.journal }, ..old(self)@ }),
            match r {
                Some((a, b)) => old(self)@.journal.bulk_reassign_confirmed == Some(
                    (text::texts(a@), b@),
                ),
                None => old(self)@.journal.bulk_reassign_confirmed is None,
            },
            final(self)@.wf(),
    {
        proof {
            reveal(App::state);
        }
        self.journal.take_bulk_reassign_confirmed()
    }

    pub(crate) fn take_bulk_reassigned(&mut self, open: bool) -> (r: Command)
        requires
            old(self)@.wf(),
        ensures
            (final(self)@, r@) == old(self)@.bulk_reassigned_step(open),
            final(self)@.wf(),
    {
        let ledger = self.ledger_id();
        match self.grab_bulk_reassign_confirmed() {
            Some((entry_ids, new_account_id)) => if open {
                Command::ReassignAll { entry_ids, new_account_id, ledger }
            } else {
                Command::Nothing
            },
            None => Command::Nothing,
        }
    }
}

} // verus!
