//! The state of the program: which screen is active, what every screen shows,
//! and what a key does.

use vstd::prelude::*;

use crate::date::Date;
use crate::text;
use crate::tui::theme::{Theme, ThemePreset};
use crate::tui::views::account_form;
use crate::tui::views::account_form::AccountForm;
use crate::tui::views::accounts;
use crate::tui::views::accounts::AccountsView;
use crate::tui::views::bank_import;
use crate::tui::views::bank_import::{BankImportModal, BankImportResult};
use crate::tui::views::csv_import;
use crate::tui::views::csv_import::{CsvImportModal, ImportRequest};
use crate::tui::views::dashboard::DashboardView;
use crate::tui::views::entry_detail::EntryDetailModal;
use crate::tui::views::entry_form;
use crate::tui::views::entry_form::EntryForm;
use crate::tui::views::event_log;
use crate::tui::views::event_log::EventLogView;
use crate::tui::views::help::{HelpContext, HelpModal};
use crate::tui::views::journal;
use crate::tui::views::journal::JournalView;
use crate::tui::views::plaid;
use crate::tui::views::plaid::{PlaidAction, PlaidView};
use crate::tui::views::plaid_config;
use crate::tui::views::plaid_config::{ConfigRequest, PlaidConfigModal};
use crate::tui::views::plaid_link;
use crate::tui::views::plaid_link::PlaidLinkModal;
use crate::tui::views::plaid_staged;
use crate::tui::views::plaid_staged::{PlaidStagedView, StagedAction};
use crate::tui::views::reports;
use crate::tui::views::reports::ReportsView;
use crate::tui::views::settings::{SettingsModal, SettingsResult};
use crate::tui::views::startup;
use crate::tui::views::startup::StartupView;
use crate::tui::views::welcome::{WelcomeAction, WelcomeView};

verus! {

/// The phases of the program.
#[derive(Debug, Clone, Copy, PartialEq, Eq, Structural)]
pub enum AppPhase {
    Welcome,
    Startup,
    Main,
}

/// The screens of the main phase.
#[derive(Debug, Clone, Copy, PartialEq, Eq, Structural)]
pub enum ActiveView {
    Dashboard,
    Accounts,
    Journal,
    Reports,
    EventLog,
    Plaid,
}

impl ActiveView {
    /// The place of a screen among the tabs.
    pub open spec fn place(self) -> int {
        match self {
            ActiveView::Dashboard => 0,
            ActiveView::Accounts => 1,
            ActiveView::Journal => 2,
            ActiveView::Reports => 3,
            ActiveView::EventLog => 4,
            ActiveView::Plaid => 5,
        }
    }

    /// The screen at a place; the dashboard where there is none.
    pub open spec fn at(i: int) -> ActiveView {
        if i == 1 {
            ActiveView::Accounts
        } else if i == 2 {
            ActiveView::Journal
        } else if i == 3 {
            ActiveView::Reports
        } else if i == 4 {
            ActiveView::EventLog
        } else if i == 5 {
            ActiveView::Plaid
        } else {
            ActiveView::Dashboard
        }
    }

    pub fn index(&self) -> (r: usize)
        ensures
            r == self.place(),
    {
        match self {
            ActiveView::Dashboard => 0,
            ActiveView::Accounts => 1,
            ActiveView::Journal => 2,
            ActiveView::Reports => 3,
            ActiveView::EventLog => 4,
            ActiveView::Plaid => 5,
        }
    }

    pub fn from_index(index: usize) -> (r: Self)
        ensures
            r == ActiveView::at(index as int),
    {
        match index {
            0 => ActiveView::Dashboard,
            1 => ActiveView::Accounts,
            2 => ActiveView::Journal,
            3 => ActiveView::Reports,
            4 => ActiveView::EventLog,
            5 => ActiveView::Plaid,
            _ => ActiveView::Dashboard,
        }
    }

    pub fn count() -> (r: usize)
        ensures
            r == 6,
    {
        6
    }

    /// The screen to the right, the first one after the last.
    pub open spec fn following(self) -> ActiveView {
        ActiveView::at((self.place() + 1) % 6)
    }

    /// The screen to the left, the last one before the first.
    pub open spec fn preceding(self) -> ActiveView {
        ActiveView::at((self.place() + 5) % 6)
    }
}

/// A screen is found at its place, and going through the tabs in one direction
/// and back changes nothing.
pub proof fn tabs_form_a_cycle(v: ActiveView)
    ensures
        ActiveView::at(v.place()) == v,
        0 <= v.place() < 6,
        v.following().preceding() == v,
        v.preceding().following() == v,
        v.following() != v,
        v.following().following().following().following().following().following() == v,
{
}

/// How the program ended.
pub enum TuiResult {
    Quit,
    /// Open the database at this path; whether it is new.
    OpenDatabase(String, bool),
}

/// What the program needs done outside before it can go on after a key.
pub enum AppRequest {
    Nothing,
    /// Store whether the welcome screen is shown.
    StorePreference(bool),
    /// Look up whether a file exists at this path.
    CheckPath(String),
    /// The file system for the import of files.
    ImportFile(ImportRequest),
    /// The proxy or the configuration for the bank connections.
    ConfigurePlaid(ConfigRequest),
    /// Store the colors.
    StoreTheme(ThemePreset),
    /// Load the stored colors and go back to them.
    RestoreTheme,
    /// Load the stored colors and open the settings with them.
    OpenSettings,
    /// Close the database.
    CloseDatabase,
    /// Read a statement for its columns.
    LoadPreview(String),
    /// Read a statement for its transactions.
    ReadTransactions(String),
}

/// The meaning of what the program needs done.
#[verifier::ext_equal]
pub ghost enum AppWish {
    Nothing,
    StorePreference(bool),
    CheckPath(Seq<char>),
    ImportFile(ImportRequest),
    ConfigurePlaid(plaid_config::Request),
    StoreTheme(ThemePreset),
    RestoreTheme,
    OpenSettings,
    CloseDatabase,
    LoadPreview(Seq<char>),
    ReadTransactions(Seq<char>),
}

impl View for AppRequest {
    type V = AppWish;

    open spec fn view(&self) -> AppWish {
        match self {
            AppRequest::Nothing => AppWish::Nothing,
            AppRequest::StorePreference(b) => AppWish::StorePreference(*b),
            AppRequest::CheckPath(p) => AppWish::CheckPath(p@),
            AppRequest::ImportFile(r) => AppWish::ImportFile(*r),
            AppRequest::ConfigurePlaid(r) => AppWish::ConfigurePlaid(r@),
            AppRequest::StoreTheme(p) => AppWish::StoreTheme(*p),
            AppRequest::RestoreTheme => AppWish::RestoreTheme,
            AppRequest::OpenSettings => AppWish::OpenSettings,
            AppRequest::CloseDatabase => AppWish::CloseDatabase,
            AppRequest::LoadPreview(p) => AppWish::LoadPreview(p@),
            AppRequest::ReadTransactions(p) => AppWish::ReadTransactions(p@),
        }
    }
}

/// Work that goes on in the background: what it is called, and a counter for
/// the spinner.
pub struct BackgroundTask {
    pub label: String,
    pub tick: u8,
}

/// The state of the program.
pub struct App {
    pub phase: AppPhase,
    pub active_view: ActiveView,
    pub should_quit: bool,
    pub database_path: Option<String>,
    pub startup: StartupView,
    pub dashboard: DashboardView,
    pub accounts: AccountsView,
    pub journal: JournalView,
    pub reports: ReportsView,
    pub event_log: EventLogView,
    pub plaid_view: PlaidView,
    pub plaid_staged: PlaidStagedView,
    pub help: HelpModal,
    pub welcome: WelcomeView,
    pub account_form: AccountForm,
    pub entry_form: EntryForm,
    pub entry_detail: EntryDetailModal,
    pub csv_import: CsvImportModal,
    pub bank_import: BankImportModal,
    pub plaid_link: PlaidLinkModal,
    pub plaid_config: PlaidConfigModal,
    pub settings: SettingsModal,
    pub theme: Theme,
    /// The account that is to be linked to a bank account.
    pub pending_plaid_link: Option<String>,
    pub pending_plaid_action: Option<PlaidAction>,
    pub pending_staged_action: Option<StagedAction>,
    pub status_message: Option<String>,
    pub pending_import_count: usize,
    pub journal_needs_reload: bool,
    /// The entry that is to be shown with its lines.
    pub pending_entry_detail: Option<String>,
    /// The entry a line of which is to be reassigned.
    pub pending_reassign: Option<String>,
    pub pending_bulk_reassign: bool,
    pub show_quit_confirm: bool,
    pub sync_server_running: bool,
    /// Whether the default chart of accounts is offered.
    pub pending_default_accounts: bool,
    /// Whether the default chart of accounts was asked for.
    pub create_default_accounts: bool,
    pub pending_bank_import_result: Option<BankImportResult>,
    pub background_task: Option<BackgroundTask>,
}

/// The meaning of the state of the program.
pub ghost struct AppState {
    pub phase: AppPhase,
    pub active_view: ActiveView,
    pub should_quit: bool,
    pub database_path: Option<Seq<char>>,
    pub startup: startup::StartupState,
    pub balances: Seq<crate::queries::AccountBalance>,
    pub accounts: accounts::AccountsState,
    pub journal: journal::JournalState,
    pub reports: reports::ReportsState,
    pub event_log: event_log::LogState,
    pub plaid_view: plaid::PlaidState,
    pub plaid_staged: plaid_staged::StagedState,
    pub help: bool,
    pub welcome: WelcomeAction,
    pub account_form: account_form::AccountFormState,
    pub entry_form: entry_form::EntryFormState,
    pub entry_detail: EntryDetailModal,
    pub csv_import: csv_import::ImportState,
    pub bank_import: bank_import::BankState,
    pub plaid_link: plaid_link::LinkState,
    pub plaid_config: plaid_config::ConfigState,
    pub settings: SettingsModal,
    pub theme: Theme,
    pub pending_plaid_link: Option<Seq<char>>,
    pub pending_plaid_action: Option<plaid::PlaidWish>,
    pub pending_staged_action: Option<plaid_staged::StagedWish>,
    pub status: Option<Seq<char>>,
    pub pending_import_count: usize,
    pub journal_needs_reload: bool,
    pub pending_entry_detail: Option<Seq<char>>,
    pub pending_reassign: Option<Seq<char>>,
    pub pending_bulk_reassign: bool,
    pub show_quit_confirm: bool,
    pub sync_server_running: bool,
    pub pending_default_accounts: bool,
    pub create_default_accounts: bool,
    pub pending_bank: Option<bank_import::Asked>,
    pub background: Option<(Seq<char>, u8)>,
}

impl View for App {
    type V = AppState;

    open spec fn view(&self) -> AppState {
        self.state()
    }
}

impl App {
    /// The meaning of every part of the program. It is opaque: most functions
    /// need only what others say of it as a whole.
    #[verifier::opaque]
    pub open spec fn state(&self) -> AppState {
        AppState {
            phase: self.phase,
            active_view: self.active_view,
            should_quit: self.should_quit,
            database_path: text::opt_text(self.database_path),
            startup: self.startup@,
            balances: self.dashboard.balances@,
            accounts: self.accounts@,
            journal: self.journal@,
            reports: self.reports@,
            event_log: self.event_log@,
            plaid_view: self.plaid_view@,
            plaid_staged: self.plaid_staged@,
            help: self.help.visible,
            welcome: self.welcome.action,
            account_form: self.account_form@,
            entry_form: self.entry_form@,
            entry_detail: self.entry_detail,
            csv_import: self.csv_import@,
            bank_import: self.bank_import@,
            plaid_link: self.plaid_link@,
            plaid_config: self.plaid_config@,
            settings: self.settings,
            theme: self.theme,
            pending_plaid_link: text::opt_text(self.pending_plaid_link),
            pending_plaid_action: match self.pending_plaid_action {
                Some(a) => Some(a@),
                None => None,
            },
            pending_staged_action: match self.pending_staged_action {
                Some(a) => Some(a@),
                None => None,
            },
            status: text::opt_text(self.status_message),
            pending_import_count: self.pending_import_count,
            journal_needs_reload: self.journal_needs_reload,
            pending_entry_detail: text::opt_text(self.pending_entry_detail),
            pending_reassign: text::opt_text(self.pending_reassign),
            pending_bulk_reassign: self.pending_bulk_reassign,
            show_quit_confirm: self.show_quit_confirm,
            sync_server_running: self.sync_server_running,
            pending_default_accounts: self.pending_default_accounts,
            create_default_accounts: self.create_default_accounts,
            pending_bank: match self.pending_bank_import_result {
                Some(r) => Some(r@),
                None => None,
            },
            background: match self.background_task {
                Some(t) => Some((t.label@, t.tick)),
                None => None,
            },
        }
    }
}

impl AppState {
    /// The forms and lists of all screens are in order.
    pub open spec fn wf(self) -> bool {
        &&& self.account_form.wf()
        &&& self.entry_form.wf()
        &&& self.csv_import.wf()
        &&& self.bank_import.wf()
        &&& self.plaid_link.wf()
        &&& self.reports.wf()
        &&& self.startup.recent.len() < usize::MAX - 3
        &&& self.accounts.accounts.len() < usize::MAX
    }

    /// The program as it starts.
    pub open spec fn fresh(
        show_welcome: bool,
        preset: ThemePreset,
        recent: Seq<Seq<char>>,
        today: Date,
    ) -> AppState {
        AppState {
            phase: if show_welcome {
                AppPhase::Welcome
            } else {
                AppPhase::Startup
            },
            active_view: ActiveView::Dashboard,
            should_quit: false,
            database_path: None,
            startup: startup::StartupState::fresh(recent),
            balances: Seq::empty(),
            accounts: accounts::AccountsState::fresh(),
            journal: journal::JournalState::fresh(),
            reports: reports::ReportsState::fresh(today),
            event_log: event_log::LogState::fresh(),
            plaid_view: plaid::PlaidState::fresh(),
            plaid_staged: plaid_staged::StagedState::fresh(),
            help: false,
            welcome: WelcomeAction::Nothing,
            account_form: account_form::AccountFormState::fresh(),
            entry_form: entry_form::EntryFormState::fresh(),
            entry_detail: EntryDetailModal { visible: false, entry: None, scroll_offset: 0 },
            csv_import: csv_import::fresh(false, Seq::empty()),
            bank_import: bank_import::BankState::fresh(),
            plaid_link: plaid_link::LinkState::fresh(),
            plaid_config: plaid_config::ConfigState::fresh(),
            settings: SettingsModal {
                visible: false,
                result: SettingsResult::Nothing,
                selected_preset: ThemePreset::Dark,
                original_preset: ThemePreset::Dark,
            },
            theme: Theme::from_preset(preset),
            pending_plaid_link: None,
            pending_plaid_action: None,
            pending_staged_action: None,
            status: None,
            pending_import_count: 0,
            journal_needs_reload: false,
            pending_entry_detail: None,
            pending_reassign: None,
            pending_bulk_reassign: false,
            show_quit_confirm: false,
            sync_server_running: false,
            pending_default_accounts: false,
            create_default_accounts: false,
            pending_bank: None,
            background: None,
        }
    }

    /// The program after the database was closed: back at the start, with new
    /// screens, forms and modals, and nothing left to be done. The colors, the
    /// wish to quit and the work in the background stay.
    pub open spec fn closed(self, recent: Seq<Seq<char>>, today: Date) -> AppState {
        let f = AppState::fresh(false, ThemePreset::Dark, recent, today);
        AppState {
            should_quit: self.should_quit,
            theme: self.theme,
            show_quit_confirm: self.show_quit_confirm,
            background: self.background,
            ..f
        }
    }

    pub open spec fn said(self, message: Seq<char>) -> AppState {
        AppState { status: Some(message), ..self }
    }

    /// The screen that help is asked for.
    pub open spec fn help_topic(self) -> HelpContext {
        match self.phase {
            AppPhase::Welcome => HelpContext::Startup,
            AppPhase::Startup => HelpContext::Startup,
            AppPhase::Main => match self.active_view {
                ActiveView::Dashboard => HelpContext::Dashboard,
                ActiveView::Accounts => HelpContext::Accounts,
                ActiveView::Journal => HelpContext::Journal,
                ActiveView::Reports => HelpContext::Reports,
                ActiveView::EventLog => HelpContext::EventLog,
                ActiveView::Plaid => HelpContext::Plaid,
            },
        }
    }
}

impl App {
    /// The program as it starts, given the stored preferences, the databases
    /// that are offered, and the day.
    pub fn new(
        show_welcome: bool,
        preset: ThemePreset,
        recent: Vec<String>,
        today: Date,
    ) -> (r: Self)
        requires
            today.valid(),
            recent@.len() < usize::MAX - 3,
        ensures
            r@ == AppState::fresh(show_welcome, preset, text::texts(recent@), today),
            r@.wf(),
    {
        proof {
            reveal(App::state);
        }
        App {
            phase: if show_welcome {
                AppPhase::Welcome
            } else {
                AppPhase::Startup
            },
            active_view: ActiveView::Dashboard,
            should_quit: false,
            database_path: None,
            startup: StartupView::new(recent),
            dashboard: DashboardView::new(),
            accounts: AccountsView::new(),
            journal: JournalView::new(),
            reports: ReportsView::new(today),
            event_log: EventLogView::new(),
            plaid_view: PlaidView::new(),
            plaid_staged: PlaidStagedView::new(),
            help: HelpModal::new(),
            welcome: WelcomeView::new(),
            account_form: AccountForm::new(),
            entry_form: EntryForm::new(),
            entry_detail: EntryDetailModal::new(),
            csv_import: CsvImportModal::new(),
            bank_import: BankImportModal::new(),
            plaid_link: PlaidLinkModal::new(),
            plaid_config: PlaidConfigModal::new(),
            settings: SettingsModal::new(),
            theme: Theme::from_preset(preset),
            pending_plaid_link: None,
            pending_plaid_action: None,
            pending_staged_action: None,
            status_message: None,
            pending_import_count: 0,
            journal_needs_reload: false,
            pending_entry_detail: None,
            pending_reassign: None,
            pending_bulk_reassign: false,
            show_quit_confirm: false,
            sync_server_running: false,
            pending_default_accounts: false,
            create_default_accounts: false,
            pending_bank_import_result: None,
            background_task: None,
        }
    }

    /// The screen that help is asked for.
    pub fn help_context(&self) -> (r: HelpContext)
        ensures
            r == self@.help_topic(),
    {
        proof {
            reveal(App::state);
        }
        match self.phase {
            AppPhase::Welcome => HelpContext::Startup,
            AppPhase::Startup => HelpContext::Startup,
            AppPhase::Main => match self.active_view {
                ActiveView::Dashboard => HelpContext::Dashboard,
                ActiveView::Accounts => HelpContext::Accounts,
                ActiveView::Journal => HelpContext::Journal,
                ActiveView::Reports => HelpContext::Reports,
                ActiveView::EventLog => HelpContext::EventLog,
                ActiveView::Plaid => HelpContext::Plaid,
            },
        }
    }

    /// Whether work goes on in the background.
    pub fn has_background_task(&self) -> (r: bool)
        ensures
            r == (self@.background is Some),
    {
        proof {
            reveal(App::state);
        }
        self.background_task.is_some()
    }

    /// Forgets the work in the background if it is finished, and otherwise
    /// counts on.
    pub fn poll_background_task(&mut self, finished: bool)
        ensures
            final(self)@ == (AppState {
                background: match old(self)@.background {
                    Some((label, tick)) => if finished {
                        None
                    } else {
                        Some(
                            (
                                label,
                                if tick == u8::MAX {
                                    0
                                } else {
                                    (tick + 1) as u8
                                },
                            ),
                        )
                    },
                    None => None,
                },
                ..old(self)@
            }),
    {
        proof {
            reveal(App::state);
        }
        if finished {
            self.background_task = None;
        } else {
            match self.background_task.take() {
                Some(t) => {
                    self.background_task = Some(
                        BackgroundTask { label: t.label, tick: t.tick.wrapping_add(1) },
                    );
                },
                None => {},
            }
        }
    }

    /// Closes the database and goes back to the start.
    pub fn close_database(&mut self, recent: Vec<String>, today: Date)
        requires
            old(self)@.wf(),
            today.valid(),
            recent@.len() < usize::MAX - 3,
        ensures
            final(self)@ == old(self)@.closed(text::texts(recent@), today),
            final(self)@.wf(),
    {
        proof {
            reveal(App::state);
        }
        self.phase = AppPhase::Startup;
        self.database_path = None;
        self.active_view = ActiveView::Dashboard;
        self.dashboard = DashboardView::new();
        self.accounts = AccountsView::new();
        self.journal = JournalView::new();
        self.reports = ReportsView::new(today);
        self.event_log = EventLogView::new();
        self.plaid_view = PlaidView::new();
        self.plaid_staged = PlaidStagedView::new();
        self.help = HelpModal::new();
        self.account_form = AccountForm::new();
        self.entry_form = EntryForm::new();
        self.entry_detail = EntryDetailModal::new();
        self.csv_import = CsvImportModal::new();
        self.bank_import = BankImportModal::new();
        self.plaid_link = PlaidLinkModal::new();
        self.plaid_config = PlaidConfigModal::new();
        self.settings = SettingsModal::new();
        self.welcome = WelcomeView::new();
        self.pending_import_count = 0;
        self.pending_plaid_link = None;
        self.pending_plaid_action = None;
        self.pending_staged_action = None;
        self.pending_bank_import_result = None;
        self.pending_default_accounts = false;
        self.create_default_accounts = false;
        self.pending_entry_detail = None;
        self.pending_reassign = None;
        self.pending_bulk_reassign = false;
        self.journal_needs_reload = false;
        self.status_message = None;
        self.sync_server_running = false;
        self.startup = StartupView::new(recent);
    }

    pub fn next_tab(&mut self)
        ensures
            final(self)@ == (AppState {
                active_view: old(self).active_view.following(),
                ..old(self)@
            }),
    {
        proof {
            reveal(App::state);
        }
        let next: usize = (self.active_view.index() + 1) % ActiveView::count();
        self.active_view = ActiveView::from_index(next);
    }

    pub fn previous_tab(&mut self)
        ensures
            final(self)@ == (AppState {
                active_view: old(self).active_view.preceding(),
                ..old(self)@
            }),
    {
        proof {
            reveal(App::state);
        }
        let at: usize = self.active_view.index();
        let prev: usize = if at == 0 {
            ActiveView::count() - 1
        } else {
            at - 1
        };
        self.active_view = ActiveView::from_index(prev);
    }
}

/// After the database was closed nothing of its accounts, entries, events and
/// staged transactions is left, no path, and nothing that was to be done.
pub proof fn closing_forgets_the_books(s: AppState, recent: Seq<Seq<char>>, today: Date)
    ensures
        ({
            let c = s.closed(recent, today);
            &&& c.phase == AppPhase::Startup
            &&& c.database_path is None
            &&& c.accounts.accounts.len() == 0
            &&& c.journal.entries.len() == 0
            &&& c.event_log.events.len() == 0
            &&& c.balances.len() == 0
            &&& c.plaid_view.items.len() == 0
            &&& c.plaid_staged.transfers.len() == 0
            &&& c.plaid_staged.unmatched.len() == 0
            &&& !c.plaid_staged.visible
            &&& c.pending_plaid_link is None
            &&& c.pending_plaid_action is None
            &&& c.pending_staged_action is None
            &&& c.pending_bank is None
            &&& !c.create_default_accounts
            &&& c.pending_entry_detail is None
            &&& c.pending_reassign is None
            &&& !c.pending_bulk_reassign
            &&& !c.entry_form.visible
            &&& !c.account_form.visible
            &&& c.status is None
        }),
{
}

} // verus!
