//! What a key does: which dialog, form or screen takes it, and what is to be
//! done outside before the program goes on.

use vstd::prelude::*;

use crate::date::Date;
use crate::domain;
use crate::domain::{Account, AccountType};
use crate::input::{KeyCode, KeyModifiers};
use crate::lists;
use crate::text;
use crate::tui::app::{ActiveView, App, AppPhase, AppRequest, AppState, AppWish};
use crate::tui::chart;
use crate::tui::theme::{Theme, ThemePreset};
use crate::tui::views::bank_import;
use crate::tui::views::bank_import::{BankImportResult, ImportPhase};
use crate::tui::views::csv_import;
use crate::tui::views::csv_import::{AccountChoice, ImportRequest};
use crate::tui::views::journal;
use crate::tui::views::journal::ReassignAccount;
use crate::tui::views::plaid::PlaidAction;
use crate::tui::views::plaid_staged;
use crate::tui::views::plaid_staged::StagedAction;
use crate::tui::views::settings::{SettingsModal, SettingsResult};
use crate::tui::views::welcome::WelcomeView;

verus! {

// ---- dialogs ----

impl AppState {
    /// The question whether to quit: only an explicit yes does.
    pub open spec fn after_quit_key(self, key: KeyCode) -> AppState {
        match key {
            KeyCode::Char('y') | KeyCode::Char('Y') => AppState { should_quit: true, ..self },
            KeyCode::Char('n') | KeyCode::Char('N') | KeyCode::Enter | KeyCode::Esc => AppState {
                show_quit_confirm: false,
                ..self
            },
            _ => self,
        }
    }

    /// The question whether to make the default chart of accounts.
    pub open spec fn after_default_accounts_key(self, key: KeyCode) -> AppState {
        match key {
            KeyCode::Char('y') | KeyCode::Char('Y') => AppState {
                pending_default_accounts: false,
                create_default_accounts: true,
                ..self
            },
            KeyCode::Char('n') | KeyCode::Char('N') | KeyCode::Enter | KeyCode::Esc => AppState {
                pending_default_accounts: false,
                status: Some("Skipped default accounts"@),
                ..self
            },
            _ => self,
        }
    }

    /// The settings after a key was handled: chosen colors take effect, and
    /// with Enter the modal closes.
    pub open spec fn settings_settled(self, was_enter: bool) -> AppState {
        match self.settings.result {
            SettingsResult::Saved(preset) => AppState {
                theme: Theme::from_preset(preset),
                settings: SettingsModal {
                    visible: if was_enter {
                        false
                    } else {
                        self.settings.visible
                    },
                    result: SettingsResult::Nothing,
                    ..self.settings
                },
                status: if was_enter {
                    Some("Theme saved"@)
                } else {
                    self.status
                },
                ..self
            },
            SettingsResult::Cancel => self,
            SettingsResult::Nothing => self,
        }
    }

    pub open spec fn after_settings_key(self, key: KeyCode) -> (AppState, AppWish) {
        let (settings, store) = self.settings.after_key(key);
        let s = AppState { settings, ..self };
        match store {
            Some(preset) => (s, AppWish::StoreTheme(preset)),
            None => if settings.result == SettingsResult::Cancel {
                (s, AppWish::RestoreTheme)
            } else {
                (s.settings_settled(false), AppWish::Nothing)
            },
        }
    }

    /// The program after the colors were stored, or could not be.
    pub open spec fn theme_stored(self, stored: bool) -> AppState {
        AppState {
            settings: if stored {
                SettingsModal {
                    result: SettingsResult::Saved(self.settings.selected_preset),
                    ..self.settings
                }
            } else {
                self.settings
            },
            ..self
        }.settings_settled(true)
    }

    /// The program back in the stored colors, with the settings closed.
    pub open spec fn theme_restored(self, stored: ThemePreset) -> AppState {
        AppState {
            theme: Theme::from_preset(stored),
            settings: SettingsModal { visible: false, ..self.settings },
            ..self
        }
    }

    pub open spec fn after_bank_key(self, key: KeyCode) -> (AppState, AppWish) {
        let (bank, asked) = self.bank_import.after_key(key);
        let s = AppState { bank_import: bank, ..self };
        match asked {
            bank_import::Asked::Nothing => (s, AppWish::Nothing),
            bank_import::Asked::LoadPreview(path) => (s, AppWish::LoadPreview(path)),
            bank_import::Asked::ReadTransactions(path) => (s, AppWish::ReadTransactions(path)),
            other => (AppState { pending_bank: Some(other), ..s }, AppWish::Nothing),
        }
    }
}

impl App {
    pub(crate) fn handle_quit_key(&mut self, key: KeyCode)
        requires
            old(self)@.wf(),
        ensures
            final(self)@ == old(self)@.after_quit_key(key),
            final(self)@.wf(),
    {
        proof {
            reveal(App::state);
        }
        match key {
            KeyCode::Char('y') | KeyCode::Char('Y') => {
                self.should_quit = true;
            },
            KeyCode::Char('n') | KeyCode::Char('N') | KeyCode::Enter | KeyCode::Esc => {
                self.show_quit_confirm = false;
            },
            _ => {},
        }
    }

    pub(crate) fn handle_default_accounts_key(&mut self, key: KeyCode)
        requires
            old(self)@.wf(),
        ensures
            final(self)@ == old(self)@.after_default_accounts_key(key),
            final(self)@.wf(),
    {
        proof {
            reveal(App::state);
        }
        match key {
            KeyCode::Char('y') | KeyCode::Char('Y') => {
                self.pending_default_accounts = false;
                self.create_default_accounts = true;
            },
            KeyCode::Char('n') | KeyCode::Char('N') | KeyCode::Enter | KeyCode::Esc => {
                self.pending_default_accounts = false;
                self.status_message = Some(text::owned("Skipped default accounts"));
            },
            _ => {},
        }
    }

    fn settle_settings(&mut self, was_enter: bool)
        requires
            old(self)@.wf(),
        ensures
            final(self)@ == old(self)@.settings_settled(was_enter),
            final(self)@.wf(),
    {
        proof {
            reveal(App::state);
        }
        if let SettingsResult::Saved(preset) = self.settings.result {
            self.theme = Theme::from_preset(preset);
            let mut settings = self.settings;
            settings.result = SettingsResult::Nothing;
            if was_enter {
                settings.visible = false;
                self.settings = settings;
                self.status_message = Some(text::owned("Theme saved"));
                return ;
            }
            self.settings = settings;
        }
    }

    fn pass_to_settings(&mut self, key: KeyCode) -> (r: (Option<ThemePreset>, bool))
        requires
            old(self)@.wf(),
        ensures
            final(self)@ == (AppState {
                settings: old(self)@.settings.after_key(key).0,
                ..old(self)@
            }),
            r.0 == old(self)@.settings.after_key(key).1,
            r.1 == (final(self)@.settings.result == SettingsResult::Cancel),
            final(self)@.wf(),
    {
        proof {
            reveal(App::state);
        }
        let store = self.settings.handle_key(key);
        (store, self.settings.result == SettingsResult::Cancel)
    }

    pub(crate) fn handle_settings_key(&mut self, key: KeyCode) -> (r: AppRequest)
        requires
            old(self)@.wf(),
        ensures
            (final(self)@, r@) == old(self)@.after_settings_key(key),
            final(self)@.wf(),
    {
        let (store, cancelled): (Option<ThemePreset>, bool) = self.pass_to_settings(key);
        if let Some(preset) = store {
            return AppRequest::StoreTheme(preset);
        }
        if cancelled {
            return AppRequest::RestoreTheme;
        }
        self.settle_settings(false);
        AppRequest::Nothing
    }

    /// Goes on after the colors were stored, or could not be.
    pub fn theme_stored(&mut self, stored: bool)
        requires
            old(self)@.wf(),
        ensures
            final(self)@ == old(self)@.theme_stored(stored),
            final(self)@.wf(),
    {
        self.note_stored(stored);
        self.settle_settings(true);
    }

    fn note_stored(&mut self, stored: bool)
        requires
            old(self)@.wf(),
        ensures
            final(self)@ == (AppState {
                settings: if stored {
                    SettingsModal {
                        result: SettingsResult::Saved(old(self)@.settings.selected_preset),
                        ..old(self)@.settings
                    }
                } else {
                    old(self)@.settings
                },
                ..old(self)@
            }),
            final(self)@.wf(),
    {
        proof {
            reveal(App::state);
        }
        self.settings.save(stored);
    }

    /// Goes back to the stored colors.
    pub fn theme_restored(&mut self, stored: ThemePreset)
        requires
            old(self)@.wf(),
        ensures
            final(self)@ == old(self)@.theme_restored(stored),
            final(self)@.wf(),
    {
        proof {
            reveal(App::state);
        }
        self.theme = Theme::from_preset(stored);
        self.settings.close();
    }

    /// Opens the settings with the stored colors.
    pub fn settings_opened(&mut self, stored: ThemePreset)
        requires
            old(self)@.wf(),
        ensures
            final(self)@ == (AppState {
                settings: SettingsModal {
                    visible: true,
                    result: SettingsResult::Nothing,
                    selected_preset: stored,
                    original_preset: stored,
                },
                ..old(self)@
            }),
            final(self)@.wf(),
    {
        proof {
            reveal(App::state);
        }
        self.settings.show(stored);
    }

    fn pass_to_bank_import(&mut self, key: KeyCode) -> (r: BankImportResult)
        requires
            old(self)@.wf(),
        ensures
            final(self)@ == (AppState {
                bank_import: old(self)@.bank_import.after_key(key).0,
                ..old(self)@
            }),
            r@ == old(self)@.bank_import.after_key(key).1,
            final(self)@.wf(),
    {
        proof {
            reveal(App::state);
        }
        self.bank_import.handle_key(key)
    }

    fn keep_bank_result(&mut self, result: BankImportResult)
        requires
            old(self)@.wf(),
        ensures
            final(self)@ == (AppState { pending_bank: Some(result@), ..old(self)@ }),
            final(self)@.wf(),
    {
        proof {
            reveal(App::state);
        }
        self.pending_bank_import_result = Some(result);
    }

    pub(crate) fn handle_bank_key(&mut self, key: KeyCode) -> (r: AppRequest)
        requires
            old(self)@.wf(),
        ensures
            (final(self)@, r@) == old(self)@.after_bank_key(key),
            final(self)@.wf(),
    {
        match self.pass_to_bank_import(key) {
            BankImportResult::Nothing => AppRequest::Nothing,
            BankImportResult::LoadPreview(path) => AppRequest::LoadPreview(path),
            BankImportResult::ReadTransactions(path) => AppRequest::ReadTransactions(path),
            other => {
                self.keep_bank_result(other);
                AppRequest::Nothing
            },
        }
    }
}

/// Browsing the colors and giving up leaves the stored ones.
pub proof fn cancelled_settings_restore_colors(s: AppState, stored: ThemePreset)
    requires
        s.settings.visible,
    ensures
        s.after_settings_key(KeyCode::Esc).1 == AppWish::RestoreTheme,
        s.after_settings_key(KeyCode::Esc).0.theme_restored(stored).theme == Theme::from_preset(
            stored,
        ),
        !s.after_settings_key(KeyCode::Esc).0.theme_restored(stored).settings.visible,
{
}

// ---- opening forms ----

/// The active accounts that an import can go into.
pub open spec fn import_choices(v: Seq<Account>) -> Seq<AccountChoice>
    decreases v.len(),
{
    if v.len() == 0 {
        Seq::empty()
    } else {
        let before = import_choices(v.drop_last());
        let a = v.last();
        if a.is_active {
            before.push(
                AccountChoice {
                    id: a.id,
                    name: a.name,
                    account_number: a.account_number,
                    account_type: a.account_type,
                },
            )
        } else {
            before
        }
    }
}

fn make_choices(v: &Vec<Account>) -> (r: Vec<AccountChoice>)
    ensures
        r@ == import_choices(v@),
{
    let mut out: Vec<AccountChoice> = Vec::new();
    let mut i: usize = 0;
    assert(out@ =~= import_choices(v@.take(0)));
    while i < v.len()
        invariant
            i <= v@.len(),
            out@ == import_choices(v@.take(i as int)),
        decreases v@.len() - i,
    {
        let a = &v[i];
        proof {
            assert(v@.take(i + 1).drop_last() =~= v@.take(i as int));
            assert(v@.take(i + 1).last() == *a);
        }
        if a.is_active {
            out.push(
                AccountChoice {
                    id: a.id.clone(),
                    name: a.name.clone(),
                    account_number: a.account_number.clone(),
                    account_type: a.account_type,
                },
            );
        }
        i = i + 1;
    }
    assert(v@.take(i as int) =~= v@);
    out
}

/// The active accounts that a line can be reassigned to.
pub open spec fn reassign_choices(v: Seq<Account>) -> Seq<ReassignAccount>
    decreases v.len(),
{
    if v.len() == 0 {
        Seq::empty()
    } else {
        let before = reassign_choices(v.drop_last());
        let a = v.last();
        if a.is_active {
            before.push(
                ReassignAccount { id: a.id, account_number: a.account_number, name: a.name },
            )
        } else {
            before
        }
    }
}

/// Lists the active accounts that a line can be reassigned to.
pub fn make_reassign_choices(v: &Vec<Account>) -> (r: Vec<ReassignAccount>)
    ensures
        r@ == reassign_choices(v@),
{
    let mut out: Vec<ReassignAccount> = Vec::new();
    let mut i: usize = 0;
    assert(out@ =~= reassign_choices(v@.take(0)));
    while i < v.len()
        invariant
            i <= v@.len(),
            out@ == reassign_choices(v@.take(i as int)),
        decreases v@.len() - i,
    {
        let a = &v[i];
        proof {
            assert(v@.take(i + 1).drop_last() =~= v@.take(i as int));
            assert(v@.take(i + 1).last() == *a);
        }
        if a.is_active {
            out.push(
                ReassignAccount {
                    id: a.id.clone(),
                    account_number: a.account_number.clone(),
                    name: a.name.clone(),
                },
            );
        }
        i = i + 1;
    }
    assert(v@.take(i as int) =~= v@);
    out
}

impl AppState {
    /// The form for a new account, under the highlighted account if there is
    /// one.
    pub open spec fn account_form_opened(self) -> AppState {
        let all = self.accounts.accounts;
        AppState {
            account_form: match self.accounts.current() {
                Some(a) => self.account_form.shown_new(
                    all,
                    Some(a.account_type),
                    Some(a.id@),
                    text::decimal(chart::proposed_number(all, a.account_number@)),
                ),
                None => self.account_form.shown_new(all, None, None, Seq::empty()),
            },
            ..self
        }
    }

    /// The form for a change of the highlighted account.
    pub open spec fn account_edit_opened(self) -> AppState {
        match self.accounts.current() {
            Some(a) => AppState {
                account_form: self.account_form.shown_edit(a, self.accounts.accounts),
                ..self
            },
            None => self,
        }
    }

    /// The form for a new entry, in the account whose ledger is shown.
    pub open spec fn entry_form_opened(self, today: Date) -> AppState {
        AppState {
            entry_form: self.entry_form.opened(
                self.accounts.accounts,
                self.journal.filter_account,
                today,
            ),
            ..self
        }
    }

    /// The import of files, with the active accounts of the books.
    pub open spec fn import_opened(self) -> AppState {
        AppState {
            csv_import: csv_import::fresh(true, import_choices(self.accounts.accounts)),
            ..self
        }
    }

    /// The entry whose line can be reassigned: the highlighted one, unless it
    /// is void.
    pub open spec fn reassignable(self) -> Option<Seq<char>> {
        match self.journal.current() {
            Some(e) => if e.is_void {
                None
            } else {
                Some(e.entry_id@)
            },
            None => None,
        }
    }
}

impl App {
    /// Opens the form for a new account.
    pub fn open_account_form(&mut self)
        requires
            old(self)@.wf(),
        ensures
            final(self)@ == old(self)@.account_form_opened(),
            final(self)@.wf(),
    {
        proof {
            reveal(App::state);
        }
        let existing = domain::copy_accounts(&self.accounts.accounts);
        match self.accounts.get_selected_account() {
            Some(a) => {
                let next = chart::calculate_next_account_number(
                    &self.accounts.accounts,
                    a.account_number.as_str(),
                );
                self.account_form.show_with_defaults(
                    existing,
                    Some(a.account_type),
                    Some(a.id.as_str()),
                    Some(next),
                );
            },
            None => {
                self.account_form.show(existing);
            },
        }
    }

    /// Opens the form for a change of the highlighted account.
    pub fn open_account_edit_form(&mut self)
        requires
            old(self)@.wf(),
        ensures
            final(self)@ == old(self)@.account_edit_opened(),
            final(self)@.wf(),
    {
        proof {
            reveal(App::state);
        }
        if let Some(a) = self.accounts.get_selected_account() {
            let existing = domain::copy_accounts(&self.accounts.accounts);
            self.account_form.show_edit(a, existing);
        }
    }

    /// Opens the form for a new entry.
    pub fn open_entry_form(&mut self, today: Date)
        requires
            old(self)@.wf(),
        ensures
            final(self)@ == old(self)@.entry_form_opened(today),
            final(self)@.wf(),
    {
        proof {
            reveal(App::state);
        }
        let existing = domain::copy_accounts(&self.accounts.accounts);
        self.entry_form.show_with_account(existing, self.journal.filter_account.as_ref(), today);
    }

    /// Opens the import of files.
    pub fn open_csv_import(&mut self) -> (r: AppRequest)
        requires
            old(self)@.wf(),
        ensures
            final(self)@ == old(self)@.import_opened(),
            r@ == AppWish::ImportFile(ImportRequest::ListFiles),
            final(self)@.wf(),
    {
        proof {
            reveal(App::state);
        }
        let choices = make_choices(&self.accounts.accounts);
        let request = self.csv_import.show(choices);
        AppRequest::ImportFile(request)
    }

    /// The entry whose line can be reassigned.
    pub fn request_reassign(&self) -> (r: Option<String>)
        ensures
            text::opt_text(r) == self@.reassignable(),
    {
        proof {
            reveal(App::state);
        }
        match self.journal.highlighted() {
            Some((id, void)) => if void {
                None
            } else {
                Some(id)
            },
            None => None,
        }
    }
}

// ---- reassigning a line ----

/// A line of an entry: its identifier, and the account it is on by identifier
/// and name.
pub open spec fn line_views(v: Seq<(String, String, String)>) -> Seq<
    (Seq<char>, Seq<char>, Seq<char>),
> {
    v.map_values(|l: (String, String, String)| (l.0@, l.1@, l.2@))
}

/// The line of an entry that is reassigned: in a ledger the first one on
/// another account, otherwise the first one.
pub open spec fn line_to_reassign(
    lines: Seq<(Seq<char>, Seq<char>, Seq<char>)>,
    ledger: Option<Seq<char>>,
) -> int {
    match ledger {
        Some(id) => match elsewhere(lines, id) {
            Some(i) => i as int,
            None => 0,
        },
        None => 0,
    }
}

/// The first line that is not on an account.
pub open spec fn elsewhere(
    lines: Seq<(Seq<char>, Seq<char>, Seq<char>)>,
    id: Seq<char>,
) -> Option<usize> {
    lists::first_position(lines.len(), |i: int| lines[i].1 != id)
}

fn find_elsewhere(lines: &Vec<(String, String, String)>, id: &str) -> (r: Option<usize>)
    ensures
        r == elsewhere(line_views(lines@), id@),
        r is Some ==> r->0 < lines@.len() && lines@[r->0 as int].1@ != id@,
        forall|j: int|
            0 <= j < (if r is Some {
                r->0 as int
            } else {
                lines@.len() as int
            }) ==> (#[trigger] lines@[j]).1@ == id@,
{
    let ghost views = line_views(lines@);
    let ghost p = |i: int| views[i].1 != id@;
    let mut i: usize = 0;
    while i < lines.len()
        invariant
            i <= lines@.len(),
            views == line_views(lines@),
            p == (|i: int| views[i].1 != id@),
            forall|j: int| 0 <= j < i ==> (#[trigger] lines@[j]).1@ == id@,
            forall|j: int| 0 <= j < i ==> !#[trigger] p(j),
        decreases lines@.len() - i,
    {
        let other: bool = !text::same_text(lines[i].1.as_str(), id);
        assert(other == p(i as int));
        if other {
            proof {
                lists::first_position_is_first(views.len(), p);
            }
            return Some(i);
        }
        i = i + 1;
    }
    proof {
        lists::first_position_is_first(views.len(), p);
    }
    None
}

fn find_line(lines: &Vec<(String, String, String)>, ledger: &Option<Account>) -> (r: usize)
    requires
        lines@.len() > 0,
    ensures
        r < lines@.len(),
        r == line_to_reassign(
            line_views(lines@),
            match *ledger {
                Some(a) => Some(a.id@),
                None => None,
            },
        ),
        *ledger matches Some(a) ==> (exists|j: int|
            0 <= j < lines@.len() && (#[trigger] lines@[j]).1@ != a.id@) ==> lines@[r as int].1@
            != a.id@ && (forall|j: int| 0 <= j < r ==> (#[trigger] lines@[j]).1@ == a.id@),
        *ledger is None ==> r == 0,
{
    match ledger {
        None => 0,
        Some(a) => match find_elsewhere(lines, a.id.as_str()) {
            Some(i) => i,
            None => 0,
        },
    }
}

impl App {
    /// Lets the user choose another account for a line of an entry.
    pub fn start_reassign_with_lines(
        &mut self,
        entry_id: String,
        lines: Vec<(String, String, String)>,
    )
        requires
            old(self)@.wf(),
        ensures
            lines@.len() == 0 ==> final(self)@ == old(self)@,
            lines@.len() > 0 ==> ({
                let i = line_to_reassign(
                    line_views(lines@),
                    match old(self)@.journal.filter_account {
                        Some(a) => Some(a.id@),
                        None => None,
                    },
                );
                final(self)@ == (AppState {
                    journal: old(self)@.journal.reassigning(
                        reassign_choices(old(self)@.accounts.accounts),
                        journal::PendingReassign {
                            entry_id,
                            line_id: lines@[i].0,
                            current_account_name: lines@[i].2,
                        },
                        Some(lines@[i].1@),
                    ),
                    ..old(self)@
                })
            }),
            final(self)@.wf(),
    {
        proof {
            reveal(App::state);
        }
        if lines.len() == 0 {
            return ;
        }
        let i: usize = find_line(&lines, &self.journal.filter_account);
        let choices = make_reassign_choices(&self.accounts.accounts);
        self.journal.start_reassign(
            choices,
            entry_id,
            lines[i].0.clone(),
            lines[i].2.clone(),
            Some(lines[i].1.clone()),
        );
    }
}

// ---- the phases ----

impl AppState {
    pub open spec fn after_welcome_key(self, key: KeyCode) -> (AppState, AppWish) {
        let (action, preference) = (WelcomeView { action: self.welcome }).after_key(key);
        let s = AppState {
            welcome: action,
            phase: if action is Nothing {
                self.phase
            } else if self.database_path is Some {
                AppPhase::Main
            } else {
                AppPhase::Startup
            },
            ..self
        };
        (
            s,
            match preference {
                Some(show) => AppWish::StorePreference(show),
                None => AppWish::Nothing,
            },
        )
    }

    pub open spec fn after_startup_key(self, key: KeyCode, modifiers: KeyModifiers) -> (
        AppState,
        AppWish,
    ) {
        if key == KeyCode::Char('c') && modifiers.control {
            (AppState { should_quit: true, ..self }, AppWish::Nothing)
        } else if key == KeyCode::Char('q') || key == KeyCode::Esc {
            (AppState { show_quit_confirm: true, ..self }, AppWish::Nothing)
        } else {
            let (startup, path) = self.startup.after_key(key);
            (
                AppState { startup, ..self },
                match path {
                    Some(p) => AppWish::CheckPath(p),
                    None => AppWish::Nothing,
                },
            )
        }
    }

    /// Whether the journal takes every key: while an account is chosen, a void
    /// is to be confirmed, or entries are selected.
    pub open spec fn journal_captures(self) -> bool {
        &&& self.active_view == ActiveView::Journal
        &&& self.journal.reassign_mode || (self.journal.pending_void is Some
            && !self.journal.confirm_void) || self.journal.bulk_void_pending
            || self.journal.selected_entry_ids.len() > 0
    }

    /// A key for the journal; asked to reassign, it hands over the selected
    /// entries or the highlighted one.
    pub open spec fn after_journal_key(self, key: KeyCode) -> AppState {
        let (journal, wants) = self.journal.after_key(key);
        let s = AppState { journal, ..self };
        if wants && key == KeyCode::Char('a') {
            if journal.selected_entry_ids.len() > 0 {
                AppState { pending_bulk_reassign: true, ..s }
            } else {
                AppState { pending_reassign: s.reassignable(), ..s }
            }
        } else {
            s
        }
    }

    /// Whether the staged transactions are shown.
    pub open spec fn reviewing(self) -> bool {
        self.active_view == ActiveView::Plaid && self.plaid_staged.visible
    }

    /// The screen that a key jumps to, if any. While the staged transactions
    /// are shown, Tab is theirs.
    pub open spec fn jump(self, key: KeyCode) -> Option<ActiveView> {
        match key {
            KeyCode::Tab => if self.reviewing() {
                None
            } else {
                Some(self.active_view.following())
            },
            KeyCode::BackTab => if self.reviewing() {
                None
            } else {
                Some(self.active_view.preceding())
            },
            KeyCode::Char('1') => Some(ActiveView::Dashboard),
            KeyCode::Char('2') => Some(ActiveView::Accounts),
            KeyCode::Char('3') => Some(ActiveView::Journal),
            KeyCode::Char('4') => Some(ActiveView::Reports),
            KeyCode::Char('5') => Some(ActiveView::EventLog),
            KeyCode::Char('6') => Some(ActiveView::Plaid),
            _ => None,
        }
    }

    /// What a key does on every screen, if it does anything there.
    pub open spec fn after_global_key(self, key: KeyCode, modifiers: KeyModifiers) -> Option<
        (AppState, AppWish),
    > {
        if self.jump(key) is Some {
            Some((self.on_screen(self.jump(key)->0), AppWish::Nothing))
        } else {
            match key {
                KeyCode::Char('q') => Some(
                    (AppState { show_quit_confirm: true, ..self }, AppWish::Nothing),
                ),
                KeyCode::Esc => Some((self, AppWish::CloseDatabase)),
                KeyCode::Char('c') => if modifiers.control {
                    Some((AppState { should_quit: true, ..self }, AppWish::Nothing))
                } else {
                    None
                },
                KeyCode::Char('b') => if self.pending_import_count > 0 {
                    Some((self.bank_opened(), AppWish::Nothing))
                } else {
                    None
                },
                KeyCode::Char(',') => Some((self, AppWish::OpenSettings)),
                _ => None,
            }
        }
    }

    pub open spec fn on_screen(self, v: ActiveView) -> AppState {
        AppState { active_view: v, ..self }
    }

    pub open spec fn bank_opened(self) -> AppState {
        AppState {
            bank_import: (bank_import::BankState {
                visible: true,
                phase: ImportPhase::SelectImport,
                selected_import_index: 0,
                ..self.bank_import
            }).unmapped(),
            ..self
        }
    }

    /// Only assets and liabilities can be linked to a bank account.
    pub open spec fn plaid_link_asked(self) -> AppState {
        match self.accounts.current() {
            Some(a) => if a.account_type == AccountType::Asset || a.account_type
                == AccountType::Liability {
                AppState { pending_plaid_link: Some(a.id@), ..self }
            } else {
                self.said("Plaid link is only available for Asset and Liability accounts"@)
            },
            None => self,
        }
    }

    pub open spec fn after_accounts_key(self, key: KeyCode) -> AppState {
        match key {
            KeyCode::Char('a') => self.account_form_opened(),
            KeyCode::Char('e') => self.account_edit_opened(),
            KeyCode::Char('p') => self.plaid_link_asked(),
            _ => AppState { accounts: self.accounts.after_key(key), ..self },
        }
    }

    pub open spec fn after_plaid_key(self, key: KeyCode) -> AppState {
        if self.plaid_staged.visible {
            let (plaid_staged, action) = self.plaid_staged.after_key(key);
            AppState {
                plaid_staged,
                pending_staged_action: if action is Nothing {
                    self.pending_staged_action
                } else {
                    Some(action)
                },
                ..self
            }
        } else {
            let (plaid_view, action) = self.plaid_view.after_key(key);
            AppState {
                plaid_view,
                pending_plaid_action: if action is Nothing {
                    self.pending_plaid_action
                } else {
                    Some(action)
                },
                ..self
            }
        }
    }
}

impl App {
    fn pass_to_welcome(&mut self, key: KeyCode) -> (r: (Option<bool>, bool))
        requires
            old(self)@.wf(),
        ensures
            ({
                let (action, preference) = (WelcomeView {
                    action: old(self)@.welcome,
                }).after_key(key);
                &&& final(self)@ == (AppState { welcome: action, ..old(self)@ })
                &&& r.0 == preference
                &&& r.1 == !(action is Nothing)
            }),
            final(self)@.wf(),
    {
        proof {
            reveal(App::state);
        }
        let preference = self.welcome.handle_key(key);
        (preference, self.welcome.should_continue())
    }

    /// Goes on to the books if they are open, and to the start otherwise.
    fn leave_welcome(&mut self)
        requires
            old(self)@.wf(),
        ensures
            final(self)@ == (AppState {
                phase: if old(self)@.database_path is Some {
                    AppPhase::Main
                } else {
                    AppPhase::Startup
                },
                ..old(self)@
            }),
            final(self)@.wf(),
    {
        proof {
            reveal(App::state);
        }
        self.phase = if self.database_path.is_some() {
            AppPhase::Main
        } else {
            AppPhase::Startup
        };
    }

    pub(crate) fn handle_welcome_key(&mut self, key: KeyCode) -> (r: AppRequest)
        requires
            old(self)@.wf(),
        ensures
            (final(self)@, r@) == old(self)@.after_welcome_key(key),
            final(self)@.wf(),
    {
        let (preference, done): (Option<bool>, bool) = self.pass_to_welcome(key);
        if done {
            self.leave_welcome();
        }
        match preference {
            Some(show) => AppRequest::StorePreference(show),
            None => AppRequest::Nothing,
        }
    }

    fn quit_at_once(&mut self)
        requires
            old(self)@.wf(),
        ensures
            final(self)@ == (AppState { should_quit: true, ..old(self)@ }),
            final(self)@.wf(),
    {
        proof {
            reveal(App::state);
        }
        self.should_quit = true;
    }

    /// Asks whether to quit.
    pub fn ask_to_quit(&mut self)
        requires
            old(self)@.wf(),
        ensures
            final(self)@ == (AppState { show_quit_confirm: true, ..old(self)@ }),
            final(self)@.wf(),
    {
        proof {
            reveal(App::state);
        }
        self.show_quit_confirm = true;
    }

    fn pass_to_startup(&mut self, key: KeyCode) -> (r: AppRequest)
        requires
            old(self)@.wf(),
        ensures
            ({
                let (startup, path) = old(self)@.startup.after_key(key);
                &&& final(self)@ == (AppState { startup, ..old(self)@ })
                &&& r@ == match path {
                    Some(p) => AppWish::CheckPath(p),
                    None => AppWish::Nothing,
                }
            }),
            final(self)@.wf(),
    {
        proof {
            reveal(App::state);
        }
        match self.startup.handle_key(key) {
            Some(path) => AppRequest::CheckPath(path),
            None => AppRequest::Nothing,
        }
    }

    pub(crate) fn handle_startup_key(&mut self, key: KeyCode, modifiers: KeyModifiers) -> (r: AppRequest)
        requires
            old(self)@.wf(),
        ensures
            (final(self)@, r@) == old(self)@.after_startup_key(key, modifiers),
            final(self)@.wf(),
    {
        if key == KeyCode::Char('c') && modifiers.control {
            self.quit_at_once();
            return AppRequest::Nothing;
        }
        if key == KeyCode::Char('q') || key == KeyCode::Esc {
            self.ask_to_quit();
            return AppRequest::Nothing;
        }
        self.pass_to_startup(key)
    }

    pub(crate) fn journal_takes_keys(&self) -> (r: bool)
        ensures
            r == self@.journal_captures(),
    {
        proof {
            reveal(App::state);
        }
        self.active_view == ActiveView::Journal && (self.journal.is_reassigning()
            || self.journal.is_confirming_void() || self.journal.is_confirming_bulk_void()
            || self.journal.has_selections())
    }

    fn pass_to_journal(&mut self, key: KeyCode) -> (r: (bool, bool))
        requires
            old(self)@.wf(),
        ensures
            final(self)@ == (AppState {
                journal: old(self)@.journal.after_key(key).0,
                ..old(self)@
            }),
            r.0 == old(self)@.journal.after_key(key).1,
            r.1 == (final(self)@.journal.selected_entry_ids.len() > 0),
            final(self)@.wf(),
    {
        proof {
            reveal(App::state);
        }
        let wants: bool = self.journal.handle_key(key);
        (wants, self.journal.has_selections())
    }

    fn ask_bulk_reassign(&mut self)
        requires
            old(self)@.wf(),
        ensures
            final(self)@ == (AppState { pending_bulk_reassign: true, ..old(self)@ }),
            final(self)@.wf(),
    {
        proof {
            reveal(App::state);
        }
        self.pending_bulk_reassign = true;
    }

    fn ask_reassign(&mut self)
        requires
            old(self)@.wf(),
        ensures
            final(self)@ == (AppState {
                pending_reassign: old(self)@.reassignable(),
                ..old(self)@
            }),
            final(self)@.wf(),
    {
        let id = self.request_reassign();
        proof {
            reveal(App::state);
        }
        self.pending_reassign = id;
    }

    pub(crate) fn handle_journal_key(&mut self, key: KeyCode)
        requires
            old(self)@.wf(),
        ensures
            final(self)@ == old(self)@.after_journal_key(key),
            final(self)@.wf(),
    {
        let (wants, many): (bool, bool) = self.pass_to_journal(key);
        if wants && key == KeyCode::Char('a') {
            if many {
                self.ask_bulk_reassign();
            } else {
                self.ask_reassign();
            }
        }
    }

    pub(crate) fn show_screen(&mut self, v: ActiveView)
        requires
            old(self)@.wf(),
        ensures
            final(self)@ == old(self)@.on_screen(v),
            final(self)@.wf(),
    {
        proof {
            reveal(App::state);
        }
        self.active_view = v;
    }

    fn open_bank_import(&mut self)
        requires
            old(self)@.wf(),
        ensures
            final(self)@ == old(self)@.bank_opened(),
            final(self)@.wf(),
    {
        proof {
            reveal(App::state);
        }
        self.bank_import.show();
    }

    /// The active screen, whether the staged transactions are shown, and
    /// whether statements wait to be imported.
    pub(crate) fn surroundings(&self) -> (r: (ActiveView, bool, bool))
        ensures
            r.0 == self@.active_view,
            r.1 == self@.reviewing(),
            r.2 == (self@.pending_import_count > 0),
    {
        proof {
            reveal(App::state);
        }
        (
            self.active_view,
            self.active_view == ActiveView::Plaid && self.plaid_staged.visible,
            self.pending_import_count > 0,
        )
    }

    /// The screen that a key jumps to, if any.
    fn screen_of_key(&self, key: KeyCode) -> (r: Option<ActiveView>)
        ensures
            r == self@.jump(key),
    {
        let (active, reviewing, _): (ActiveView, bool, bool) = self.surroundings();
        match key {
            KeyCode::Tab => if reviewing {
                None
            } else {
                Some(ActiveView::from_index((active.index() + 1) % ActiveView::count()))
            },
            KeyCode::BackTab => if reviewing {
                None
            } else {
                let at: usize = active.index();
                Some(
                    ActiveView::from_index(
                        if at == 0 {
                            ActiveView::count() - 1
                        } else {
                            at - 1
                        },
                    ),
                )
            },
            KeyCode::Char('1') => Some(ActiveView::Dashboard),
            KeyCode::Char('2') => Some(ActiveView::Accounts),
            KeyCode::Char('3') => Some(ActiveView::Journal),
            KeyCode::Char('4') => Some(ActiveView::Reports),
            KeyCode::Char('5') => Some(ActiveView::EventLog),
            KeyCode::Char('6') => Some(ActiveView::Plaid),
            _ => None,
        }
    }

    /// Does what a key does on every screen, if it does anything there.
    pub(crate) fn handle_global_key(&mut self, key: KeyCode, modifiers: KeyModifiers) -> (r: Option<
        AppRequest,
    >)
        requires
            old(self)@.wf(),
        ensures
            match r {
                Some(request) => old(self)@.after_global_key(key, modifiers) == Some(
                    (final(self)@, request@),
                ),
                None => old(self)@.after_global_key(key, modifiers) is None && final(self)@
                    == old(self)@,
            },
            final(self)@.wf(),
    {
        if let Some(v) = self.screen_of_key(key) {
            self.show_screen(v);
            return Some(AppRequest::Nothing);
        }
        match key {
            KeyCode::Char('q') => {
                self.ask_to_quit();
                Some(AppRequest::Nothing)
            },
            KeyCode::Esc => Some(AppRequest::CloseDatabase),
            KeyCode::Char('c') => if modifiers.control {
                self.quit_at_once();
                Some(AppRequest::Nothing)
            } else {
                None
            },
            KeyCode::Char('b') => {
                let (_, _, waiting): (ActiveView, bool, bool) = self.surroundings();
                if waiting {
                    self.open_bank_import();
                    Some(AppRequest::Nothing)
                } else {
                    None
                }
            },
            KeyCode::Char(',') => Some(AppRequest::OpenSettings),
            _ => None,
        }
    }

    /// Asks for the bank account of the highlighted account, if accounts of its
    /// kind can have one.
    fn ask_plaid_link(&mut self)
        requires
            old(self)@.wf(),
        ensures
            final(self)@ == old(self)@.plaid_link_asked(),
            final(self)@.wf(),
    {
        proof {
            reveal(App::state);
        }
        if let Some(a) = self.accounts.get_selected_account() {
            if a.account_type == AccountType::Asset || a.account_type == AccountType::Liability {
                self.pending_plaid_link = Some(a.id.clone());
            } else {
                self.status_message = Some(
                    text::owned("Plaid link is only available for Asset and Liability accounts"),
                );
            }
        }
    }

    fn pass_to_accounts(&mut self, key: KeyCode)
        requires
            old(self)@.wf(),
        ensures
            final(self)@ == (AppState {
                accounts: old(self)@.accounts.after_key(key),
                ..old(self)@
            }),
            final(self)@.wf(),
    {
        proof {
            reveal(App::state);
        }
        self.accounts.handle_key(key);
    }

    pub(crate) fn handle_accounts_key(&mut self, key: KeyCode)
        requires
            old(self)@.wf(),
        ensures
            final(self)@ == old(self)@.after_accounts_key(key),
            final(self)@.wf(),
    {
        match key {
            KeyCode::Char('a') => {
                self.open_account_form();
            },
            KeyCode::Char('e') => {
                self.open_account_edit_form();
            },
            KeyCode::Char('p') => {
                self.ask_plaid_link();
            },
            _ => {
                self.pass_to_accounts(key);
            },
        }
    }

    pub(crate) fn handle_plaid_key(&mut self, key: KeyCode)
        requires
            old(self)@.wf(),
        ensures
            final(self)@ == old(self)@.after_plaid_key(key),
            final(self)@.wf(),
    {
        proof {
            reveal(App::state);
        }
        if self.plaid_staged.visible {
            match self.plaid_staged.handle_key(key) {
                StagedAction::Nothing => {},
                other => {
                    self.pending_staged_action = Some(other);
                },
            }
        } else {
            match self.plaid_view.handle_key(key) {
                PlaidAction::Nothing => {},
                other => {
                    self.pending_plaid_action = Some(other);
                },
            }
        }
    }
}

} // verus!
