//! Which part of the program takes a key.

use vstd::prelude::*;

use crate::date::Date;
use crate::input::{KeyCode, KeyModifiers};
use crate::tui::app::{ActiveView, App, AppPhase, AppRequest, AppState, AppWish};
use crate::tui::views::csv_import;
use crate::tui::views::csv_import::ImportRequest;
use crate::tui::views::plaid_config;
use crate::tui::views::plaid_config::ConfigRequest;
use crate::tui::views::plaid_staged;
use crate::tui::views::plaid_staged::StagedAction;

verus! {

/// The parts of the program that can take every key, the first open one first.
#[derive(Debug, Clone, Copy, PartialEq, Eq, Structural)]
pub enum Capture {
    QuitConfirm,
    DefaultAccounts,
    EntryDetail,
    EntryForm,
    AccountForm,
    CsvImport,
    PlaidConfig,
    Settings,
    PlaidLink,
    BankImport,
    Help,
    Nothing,
}

impl AppState {
    /// The part that takes the next key.
    pub open spec fn capture(self) -> Capture {
        if self.show_quit_confirm {
            Capture::QuitConfirm
        } else if self.pending_default_accounts {
            Capture::DefaultAccounts
        } else if self.entry_detail.visible {
            Capture::EntryDetail
        } else if self.entry_form.visible {
            Capture::EntryForm
        } else if self.account_form.visible {
            Capture::AccountForm
        } else if self.csv_import.visible {
            Capture::CsvImport
        } else if self.plaid_config.visible {
            Capture::PlaidConfig
        } else if self.settings.visible {
            Capture::Settings
        } else if self.plaid_link.visible {
            Capture::PlaidLink
        } else if self.bank_import.visible {
            Capture::BankImport
        } else if self.help {
            Capture::Help
        } else {
            Capture::Nothing
        }
    }

    /// The import of files after a key.
    pub open spec fn after_csv_key(self, key: KeyCode) -> (AppState, AppWish) {
        let (csv, request) = self.csv_import.after_key(key);
        (
            AppState { csv_import: csv, ..self },
            match request {
                ImportRequest::Nothing => AppWish::Nothing,
                other => AppWish::ImportFile(other),
            },
        )
    }

    /// The setup of the bank connections after a key.
    pub open spec fn after_config_key(self, key: KeyCode) -> (AppState, AppWish) {
        let (config, request) = self.plaid_config.after_key(key);
        (
            AppState { plaid_config: config, ..self },
            match request {
                plaid_config::Request::Nothing => AppWish::Nothing,
                other => AppWish::ConfigurePlaid(other),
            },
        )
    }

    /// The open help closes on three keys and ignores the rest.
    pub open spec fn after_help_key(self, key: KeyCode) -> AppState {
        match key {
            KeyCode::Char('?') | KeyCode::Esc | KeyCode::Char('q') => AppState {
                help: false,
                ..self
            },
            _ => self,
        }
    }

    /// A key on the screen of the main phase.
    pub open spec fn after_screen_key(self, key: KeyCode, today: Date) -> (AppState, AppWish) {
        match self.active_view {
            ActiveView::Dashboard => (self, AppWish::Nothing),
            ActiveView::Accounts => (self.after_accounts_key(key), AppWish::Nothing),
            ActiveView::Journal => self.after_journal_screen_key(key, today),
            ActiveView::Reports => (self.after_reports_key(key, today), AppWish::Nothing),
            ActiveView::EventLog => (self.after_log_key(key), AppWish::Nothing),
            ActiveView::Plaid => (self.after_plaid_key(key), AppWish::Nothing),
        }
    }

    pub open spec fn after_reports_key(self, key: KeyCode, today: Date) -> AppState {
        AppState { reports: self.reports.after_key(key, today), ..self }
    }

    pub open spec fn after_log_key(self, key: KeyCode) -> AppState {
        AppState { event_log: self.event_log.after_key(key), ..self }
    }

    /// The highlighted entry is to be shown with its lines.
    pub open spec fn detail_asked(self) -> AppState {
        match self.journal.current() {
            Some(e) => AppState { pending_entry_detail: Some(e.entry_id@), ..self },
            None => self,
        }
    }

    /// A key in the journal while nothing is to be confirmed or chosen there.
    pub open spec fn after_journal_screen_key(self, key: KeyCode, today: Date) -> (
        AppState,
        AppWish,
    ) {
        match key {
            KeyCode::Char('e') => (self.entry_form_opened(today), AppWish::Nothing),
            KeyCode::Char('i') => (
                self.import_opened(),
                AppWish::ImportFile(ImportRequest::ListFiles),
            ),
            KeyCode::Enter => (self.detail_asked(), AppWish::Nothing),
            _ => (self.after_journal_key(key), AppWish::Nothing),
        }
    }

    /// A key in the main phase: what is being typed or confirmed comes first,
    /// then what a key does everywhere, then the screen.
    pub open spec fn after_main_key(
        self,
        key: KeyCode,
        modifiers: KeyModifiers,
        today: Date,
    ) -> (AppState, AppWish) {
        if self.active_view == ActiveView::Reports && self.reports.editing_date {
            (self.after_reports_key(key, today), AppWish::Nothing)
        } else if self.journal_captures() {
            (self.after_journal_key(key), AppWish::Nothing)
        } else if self.active_view == ActiveView::Journal && key == KeyCode::Esc
            && self.journal.filter_account is Some {
            (
                AppState {
                    journal: self.journal.unfiltered(),
                    journal_needs_reload: true,
                    ..self
                },
                AppWish::Nothing,
            )
        } else if key == KeyCode::Esc && self.reviewing() {
            (
                AppState {
                    pending_staged_action: Some(plaid_staged::StagedWish::Back),
                    ..self
                },
                AppWish::Nothing,
            )
        } else {
            match self.after_global_key(key, modifiers) {
                Some(r) => r,
                None => self.after_screen_key(key, today),
            }
        }
    }

    /// A key that no open dialog, form or modal takes.
    pub open spec fn after_open_key(
        self,
        key: KeyCode,
        modifiers: KeyModifiers,
        today: Date,
    ) -> (AppState, AppWish) {
        if key == KeyCode::Char('?') {
            (AppState { help: !self.help, ..self }, AppWish::Nothing)
        } else {
            match self.phase {
                AppPhase::Welcome => self.after_welcome_key(key),
                AppPhase::Startup => self.after_startup_key(key, modifiers),
                AppPhase::Main => self.after_main_key(key, modifiers, today),
            }
        }
    }

    /// Whether a key can be handled: on the screen of the reports, one that asks
    /// for the depth of the accounts needs a tree.
    pub open spec fn can_take(self, key: KeyCode) -> bool {
        self.capture() == Capture::Nothing && self.phase == AppPhase::Main && self.active_view
            == ActiveView::Reports ==> self.reports.can_take(key)
    }

    /// The program after a key, and what is to be done outside before it goes
    /// on.
    pub open spec fn after_key(self, key: KeyCode, modifiers: KeyModifiers, today: Date) -> (
        AppState,
        AppWish,
    ) {
        match self.capture() {
            Capture::QuitConfirm => (self.after_quit_key(key), AppWish::Nothing),
            Capture::DefaultAccounts => (self.after_default_accounts_key(key), AppWish::Nothing),
            Capture::EntryDetail => (
                AppState { entry_detail: self.entry_detail.after_key(key).0, ..self },
                AppWish::Nothing,
            ),
            Capture::EntryForm => (
                AppState { entry_form: self.entry_form.after_key(key, modifiers), ..self },
                AppWish::Nothing,
            ),
            Capture::AccountForm => (
                AppState { account_form: self.account_form.after_key(key), ..self },
                AppWish::Nothing,
            ),
            Capture::CsvImport => self.after_csv_key(key),
            Capture::PlaidConfig => self.after_config_key(key),
            Capture::Settings => self.after_settings_key(key),
            Capture::PlaidLink => (
                AppState { plaid_link: self.plaid_link.after_key(key), ..self },
                AppWish::Nothing,
            ),
            Capture::BankImport => self.after_bank_key(key),
            Capture::Help => (self.after_help_key(key), AppWish::Nothing),
            Capture::Nothing => self.after_open_key(key, modifiers, today),
        }
    }
}

impl App {
    /// The part that takes the next key.
    fn captured_by(&self) -> (r: Capture)
        ensures
            r == self@.capture(),
    {
        proof {
            reveal(App::state);
        }
        if self.show_quit_confirm {
            Capture::QuitConfirm
        } else if self.pending_default_accounts {
            Capture::DefaultAccounts
        } else if self.entry_detail.visible {
            Capture::EntryDetail
        } else if self.entry_form.visible {
            Capture::EntryForm
        } else if self.account_form.visible {
            Capture::AccountForm
        } else if self.csv_import.visible {
            Capture::CsvImport
        } else if self.plaid_config.visible {
            Capture::PlaidConfig
        } else if self.settings.visible {
            Capture::Settings
        } else if self.plaid_link.visible {
            Capture::PlaidLink
        } else if self.bank_import.visible {
            Capture::BankImport
        } else if self.help.visible {
            Capture::Help
        } else {
            Capture::Nothing
        }
    }

    fn pass_to_detail(&mut self, key: KeyCode)
        requires
            old(self)@.wf(),
        ensures
            final(self)@ == (AppState {
                entry_detail: old(self)@.entry_detail.after_key(key).0,
                ..old(self)@
            }),
            final(self)@.wf(),
    {
        proof {
            reveal(App::state);
        }
        self.entry_detail.handle_key(key);
    }

    fn pass_to_entry_form(&mut self, key: KeyCode, modifiers: KeyModifiers)
        requires
            old(self)@.wf(),
        ensures
            final(self)@ == (AppState {
                entry_form: old(self)@.entry_form.after_key(key, modifiers),
                ..old(self)@
            }),
            final(self)@.wf(),
    {
        proof {
            reveal(App::state);
        }
        self.entry_form.handle_key_with_modifiers(key, modifiers);
    }

    fn pass_to_account_form(&mut self, key: KeyCode)
        requires
            old(self)@.wf(),
        ensures
            final(self)@ == (AppState {
                account_form: old(self)@.account_form.after_key(key),
                ..old(self)@
            }),
            final(self)@.wf(),
    {
        proof {
            reveal(App::state);
        }
        self.account_form.handle_key(key);
    }

    fn handle_csv_key(&mut self, key: KeyCode) -> (r: AppRequest)
        requires
            old(self)@.wf(),
        ensures
            (final(self)@, r@) == old(self)@.after_csv_key(key),
            final(self)@.wf(),
    {
        proof {
            reveal(App::state);
        }
        match self.csv_import.handle_key(key) {
            ImportRequest::Nothing => AppRequest::Nothing,
            other => AppRequest::ImportFile(other),
        }
    }

    fn handle_config_key(&mut self, key: KeyCode) -> (r: AppRequest)
        requires
            old(self)@.wf(),
        ensures
            (final(self)@, r@) == old(self)@.after_config_key(key),
            final(self)@.wf(),
    {
        proof {
            reveal(App::state);
        }
        match self.plaid_config.handle_key(key) {
            ConfigRequest::Nothing => AppRequest::Nothing,
            other => AppRequest::ConfigurePlaid(other),
        }
    }

    fn pass_to_plaid_link(&mut self, key: KeyCode)
        requires
            old(self)@.wf(),
        ensures
            final(self)@ == (AppState {
                plaid_link: old(self)@.plaid_link.after_key(key),
                ..old(self)@
            }),
            final(self)@.wf(),
    {
        proof {
            reveal(App::state);
        }
        self.plaid_link.handle_key(key);
    }

    fn handle_help_key(&mut self, key: KeyCode)
        requires
            old(self)@.wf(),
        ensures
            final(self)@ == old(self)@.after_help_key(key),
            final(self)@.wf(),
    {
        proof {
            reveal(App::state);
        }
        match key {
            KeyCode::Char('?') | KeyCode::Esc | KeyCode::Char('q') => {
                self.help.close();
            },
            _ => {},
        }
    }

    fn toggle_help(&mut self)
        requires
            old(self)@.wf(),
        ensures
            final(self)@ == (AppState { help: !old(self)@.help, ..old(self)@ }),
            final(self)@.wf(),
    {
        proof {
            reveal(App::state);
        }
        self.help.toggle();
    }

    fn handle_reports_key(&mut self, key: KeyCode, today: Date)
        requires
            old(self)@.wf(),
            old(self)@.reports.can_take(key),
            today.valid(),
        ensures
            final(self)@ == old(self)@.after_reports_key(key, today),
            final(self)@.wf(),
    {
        proof {
            reveal(App::state);
        }
        self.reports.handle_key(key, today);
    }

    fn handle_log_key(&mut self, key: KeyCode)
        requires
            old(self)@.wf(),
        ensures
            final(self)@ == old(self)@.after_log_key(key),
            final(self)@.wf(),
    {
        proof {
            reveal(App::state);
        }
        self.event_log.handle_key(key);
    }

    fn ask_detail(&mut self)
        requires
            old(self)@.wf(),
        ensures
            final(self)@ == old(self)@.detail_asked(),
            final(self)@.wf(),
    {
        proof {
            reveal(App::state);
        }
        if let Some((id, _)) = self.journal.highlighted() {
            self.pending_entry_detail = Some(id);
        }
    }

    fn handle_journal_screen_key(&mut self, key: KeyCode, today: Date) -> (r: AppRequest)
        requires
            old(self)@.wf(),
        ensures
            (final(self)@, r@) == old(self)@.after_journal_screen_key(key, today),
            final(self)@.wf(),
    {
        match key {
            KeyCode::Char('e') => {
                self.open_entry_form(today);
                AppRequest::Nothing
            },
            KeyCode::Char('i') => self.open_csv_import(),
            KeyCode::Enter => {
                self.ask_detail();
                AppRequest::Nothing
            },
            _ => {
                self.handle_journal_key(key);
                AppRequest::Nothing
            },
        }
    }

    fn handle_screen_key(&mut self, key: KeyCode, today: Date) -> (r: AppRequest)
        requires
            old(self)@.wf(),
            old(self)@.active_view == ActiveView::Reports ==> old(self)@.reports.can_take(key),
            today.valid(),
        ensures
            (final(self)@, r@) == old(self)@.after_screen_key(key, today),
            final(self)@.wf(),
    {
        let (active, _, _): (ActiveView, bool, bool) = self.surroundings();
        match active {
            ActiveView::Dashboard => {},
            ActiveView::Accounts => {
                self.handle_accounts_key(key);
            },
            ActiveView::Journal => {
                return self.handle_journal_screen_key(key, today);
            },
            ActiveView::Reports => {
                self.handle_reports_key(key, today);
            },
            ActiveView::EventLog => {
                self.handle_log_key(key);
            },
            ActiveView::Plaid => {
                self.handle_plaid_key(key);
            },
        }
        AppRequest::Nothing
    }

    /// Whether a date is being typed, and whether the ledger of an account is
    /// shown.
    fn typing_or_in_ledger(&self) -> (r: (bool, bool))
        ensures
            r.0 == (self@.active_view == ActiveView::Reports && self@.reports.editing_date),
            r.1 == (self@.active_view == ActiveView::Journal && self@.journal.filter_account
                is Some),
    {
        proof {
            reveal(App::state);
        }
        (
            self.active_view == ActiveView::Reports && self.reports.editing_date,
            self.active_view == ActiveView::Journal && self.journal.filter_account.is_some(),
        )
    }

    fn leave_ledger(&mut self)
        requires
            old(self)@.wf(),
        ensures
            final(self)@ == (AppState {
                journal: old(self)@.journal.unfiltered(),
                journal_needs_reload: true,
                ..old(self)@
            }),
            final(self)@.wf(),
    {
        proof {
            reveal(App::state);
        }
        self.journal.clear_filter();
        self.journal_needs_reload = true;
    }

    fn leave_review(&mut self)
        requires
            old(self)@.wf(),
        ensures
            final(self)@ == (AppState {
                pending_staged_action: Some(plaid_staged::StagedWish::Back),
                ..old(self)@
            }),
            final(self)@.wf(),
    {
        proof {
            reveal(App::state);
        }
        self.pending_staged_action = Some(StagedAction::Back);
    }

    fn handle_main_key(&mut self, key: KeyCode, modifiers: KeyModifiers, today: Date) -> (r:
        AppRequest)
        requires
            old(self)@.wf(),
            old(self)@.active_view == ActiveView::Reports ==> old(self)@.reports.can_take(key),
            today.valid(),
        ensures
            (final(self)@, r@) == old(self)@.after_main_key(key, modifiers, today),
            final(self)@.wf(),
    {
        let (typing, in_ledger): (bool, bool) = self.typing_or_in_ledger();
        if typing {
            self.handle_reports_key(key, today);
            return AppRequest::Nothing;
        }
        if self.journal_takes_keys() {
            self.handle_journal_key(key);
            return AppRequest::Nothing;
        }
        if in_ledger && key == KeyCode::Esc {
            self.leave_ledger();
            return AppRequest::Nothing;
        }
        let (_, reviewing, _): (ActiveView, bool, bool) = self.surroundings();
        if key == KeyCode::Esc && reviewing {
            self.leave_review();
            return AppRequest::Nothing;
        }
        match self.handle_global_key(key, modifiers) {
            Some(request) => request,
            None => self.handle_screen_key(key, today),
        }
    }

    pub(crate) fn current_phase(&self) -> (r: AppPhase)
        ensures
            r == self@.phase,
    {
        proof {
            reveal(App::state);
        }
        self.phase
    }

    fn handle_open_key(&mut self, key: KeyCode, modifiers: KeyModifiers, today: Date) -> (r:
        AppRequest)
        requires
            old(self)@.wf(),
            old(self)@.phase == AppPhase::Main && old(self)@.active_view == ActiveView::Reports
                ==> old(self)@.reports.can_take(key),
            today.valid(),
        ensures
            (final(self)@, r@) == old(self)@.after_open_key(key, modifiers, today),
            final(self)@.wf(),
    {
        if key == KeyCode::Char('?') {
            self.toggle_help();
            return AppRequest::Nothing;
        }
        match self.current_phase() {
            AppPhase::Welcome => self.handle_welcome_key(key),
            AppPhase::Startup => self.handle_startup_key(key, modifiers),
            AppPhase::Main => self.handle_main_key(key, modifiers, today),
        }
    }

    /// Checks that a key can be handled.
    pub fn takes(&self, key: KeyCode) -> (r: bool)
        ensures
            r == self@.can_take(key),
    {
        proof {
            reveal(App::state);
        }
        if self.captured_by() != Capture::Nothing || self.phase != AppPhase::Main
            || self.active_view != ActiveView::Reports {
            return true;
        }
        self.reports.takes(key)
    }

    /// Handles a key, and says what is to be done outside before the program
    /// goes on.
    pub fn handle_key(&mut self, key: KeyCode, modifiers: KeyModifiers, today: Date) -> (r:
        AppRequest)
        requires
            old(self)@.wf(),
            old(self)@.can_take(key),
            today.valid(),
        ensures
            (final(self)@, r@) == old(self)@.after_key(key, modifiers, today),
            final(self)@.wf(),
    {
        match self.captured_by() {
            Capture::QuitConfirm => {
                self.handle_quit_key(key);
            },
            Capture::DefaultAccounts => {
                self.handle_default_accounts_key(key);
            },
            Capture::EntryDetail => {
                self.pass_to_detail(key);
            },
            Capture::EntryForm => {
                self.pass_to_entry_form(key, modifiers);
            },
            Capture::AccountForm => {
                self.pass_to_account_form(key);
            },
            Capture::CsvImport => {
                return self.handle_csv_key(key);
            },
            Capture::PlaidConfig => {
                return self.handle_config_key(key);
            },
            Capture::Settings => {
                return self.handle_settings_key(key);
            },
            Capture::PlaidLink => {
                self.pass_to_plaid_link(key);
            },
            Capture::BankImport => {
                return self.handle_bank_key(key);
            },
            Capture::Help => {
                self.handle_help_key(key);
            },
            Capture::Nothing => {
                return self.handle_open_key(key, modifiers, today);
            },
        }
        AppRequest::Nothing
    }
}

/// The question whether to quit takes every key, and only a yes quits.
pub proof fn quitting_needs_yes(s: AppState, key: KeyCode, modifiers: KeyModifiers, today: Date)
    requires
        s.show_quit_confirm,
        !s.should_quit,
    ensures
        ({
            let (t, wish) = s.after_key(key, modifiers, today);
            &&& wish is Nothing
            &&& t.should_quit <==> key == KeyCode::Char('y') || key == KeyCode::Char('Y')
            &&& t == (AppState {
                should_quit: t.should_quit,
                show_quit_confirm: t.show_quit_confirm,
                ..s
            })
        }),
{
}

/// While a dialog, a form or a modal is open, no key leaves the screen or closes
/// the database.
pub proof fn open_forms_keep_the_screen(
    s: AppState,
    key: KeyCode,
    modifiers: KeyModifiers,
    today: Date,
)
    requires
        s.capture() != Capture::Nothing,
    ensures
        s.after_key(key, modifiers, today).0.active_view == s.active_view,
        s.after_key(key, modifiers, today).0.phase == s.phase,
        s.after_key(key, modifiers, today).0.database_path == s.database_path,
        !(s.after_key(key, modifiers, today).1 is CloseDatabase),
{
}

/// While entries are to be voided or reassigned, or a date is typed, no key
/// closes the database or asks to quit.
pub proof fn work_in_progress_is_kept(
    s: AppState,
    key: KeyCode,
    modifiers: KeyModifiers,
    today: Date,
)
    requires
        s.journal_captures() || (s.active_view == ActiveView::Reports && s.reports.editing_date),
    ensures
        s.after_main_key(key, modifiers, today).1 is Nothing,
        s.after_main_key(key, modifiers, today).0.active_view == s.active_view,
        s.after_main_key(key, modifiers, today).0.should_quit == s.should_quit,
        s.after_main_key(key, modifiers, today).0.show_quit_confirm == s.show_quit_confirm,
{
}

} // verus!
