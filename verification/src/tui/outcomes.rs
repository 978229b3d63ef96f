//! What the user is told once something was done with the books.

use vstd::prelude::*;

use crate::input::KeyCode;
use crate::text;
use crate::tui::app::{App, AppPhase, AppState};
use crate::tui::views::plaid_staged;
use crate::tui::views::startup;
use crate::tui::views::startup::StartupAction;

verus! {

/// What became of a command.
pub enum Done {
    /// How many accounts of the default chart were made.
    DefaultAccounts(Result<usize, String>),
    AccountCreated { name: String, result: Result<(), String> },
    AccountUpdated { name: String, result: Result<(), String> },
    EntryPosted { memo: String, result: Result<(), String> },
    ImportSkipped,
    Linked(Result<(), String>),
    Unlinked(Result<(), String>),
    Voided(Result<(), String>),
    Unvoided(Result<(), String>),
    /// For every entry whether it was voided.
    AllVoided(Vec<Option<bool>>),
    Reassigned(Result<(), String>),
    /// For every entry whether its line was reassigned; nothing where it has no
    /// other line.
    AllReassigned(Vec<Option<bool>>),
    Disconnected(Result<(), String>),
}

/// How many attempts had an outcome.
pub open spec fn counted(v: Seq<Option<bool>>, outcome: bool) -> nat
    decreases v.len(),
{
    if v.len() == 0 {
        0
    } else {
        counted(v.drop_last(), outcome) + if v.last() == Some(outcome) {
            1nat
        } else {
            0
        }
    }
}

/// Every attempt that was made succeeded or failed.
pub proof fn attempts_are_counted(v: Seq<Option<bool>>)
    ensures
        counted(v, true) + counted(v, false) <= v.len(),
        (forall|i: int| 0 <= i < v.len() ==> #[trigger] v[i] is Some) ==> counted(v, true)
            + counted(v, false) == v.len(),
    decreases v.len(),
{
    if v.len() > 0 {
        attempts_are_counted(v.drop_last());
        if forall|i: int| 0 <= i < v.len() ==> #[trigger] v[i] is Some {
            assert forall|i: int| 0 <= i < v.len() - 1 implies #[trigger] v.drop_last()[i] is Some by {
                assert(v[i] is Some);
            }
            assert(v[v.len() - 1] is Some);
            assert(v.last() == Some(true) || v.last() == Some(false));
        }
    }
}

/// How many attempts succeeded, and how many failed.
pub fn tally(v: &Vec<Option<bool>>) -> (r: (usize, usize))
    ensures
        r.0 == counted(v@, true),
        r.1 == counted(v@, false),
{
    let mut good: usize = 0;
    let mut bad: usize = 0;
    let mut i: usize = 0;
    while i < v.len()
        invariant
            i <= v@.len(),
            good == counted(v@.take(i as int), true),
            bad == counted(v@.take(i as int), false),
            good + bad <= i,
        decreases v@.len() - i,
    {
        assert(v@.take(i + 1).drop_last() =~= v@.take(i as int));
        match v[i] {
            Some(true) => {
                good = good + 1;
            },
            Some(false) => {
                bad = bad + 1;
            },
            None => {},
        }
        i = i + 1;
    }
    assert(v@.take(i as int) =~= v@);
    (good, bad)
}

/// What an attempt that succeeded or failed says.
pub open spec fn told(result: Result<(), String>, good: Seq<char>, bad: Seq<char>) -> Seq<char> {
    match result {
        Ok(_) => good,
        Err(e) => bad + e@,
    }
}

pub(crate) fn tell(result: &Result<(), String>, good: String, bad: &str) -> (r: String)
    ensures
        r@ == told(*result, good@, bad@),
{
    match result {
        Ok(_) => good,
        Err(e) => text::cat2(bad, e.as_str()),
    }
}

/// What several attempts say.
pub open spec fn told_all(
    v: Seq<Option<bool>>,
    all_good: Seq<char>,
    some_good: Seq<char>,
) -> Seq<char> {
    if counted(v, false) == 0 {
        text::decimal(counted(v, true)) + all_good
    } else {
        text::decimal(counted(v, true)) + some_good + text::decimal(counted(v, false))
            + " failed"@
    }
}

fn tell_all(v: &Vec<Option<bool>>, all_good: &str, some_good: &str) -> (r: String)
    ensures
        r@ == told_all(v@, all_good@, some_good@),
{
    let (good, bad): (usize, usize) = tally(v);
    let n = text::count(good);
    if bad == 0 {
        text::cat2(n.as_str(), all_good)
    } else {
        let m = text::count(bad);
        text::cat4(n.as_str(), some_good, m.as_str(), " failed")
    }
}

impl Done {
    /// The message to the user.
    pub open spec fn message(self) -> Seq<char> {
        match self {
            Done::DefaultAccounts(Ok(n)) => text::decimal(n as nat) + " default accounts created"@,
            Done::DefaultAccounts(Err(e)) => "Failed to create accounts: "@ + e@,
            Done::AccountCreated { name, result } => told(
                result,
                "Account '"@ + name@ + "' created"@,
                "Failed to create account: "@,
            ),
            Done::AccountUpdated { name, result } => told(
                result,
                "Account '"@ + name@ + "' updated"@,
                "Failed to update account: "@,
            ),
            Done::EntryPosted { memo, result } => told(
                result,
                "Entry '"@ + memo@ + "' posted"@,
                "Failed to post entry: "@,
            ),
            Done::ImportSkipped => "Import skipped"@,
            Done::Linked(result) => told(result, "Plaid account linked"@, "Failed to link: "@),
            Done::Unlinked(result) => told(
                result,
                "Plaid account unlinked"@,
                "Failed to unlink: "@,
            ),
            Done::Voided(result) => told(result, "Entry voided"@, "Failed to void entry: "@),
            Done::Unvoided(result) => told(result, "Entry unvoided"@, "Failed to unvoid entry: "@),
            Done::AllVoided(v) => told_all(v@, " entries voided"@, " voided, "@),
            Done::Reassigned(result) => told(
                result,
                "Transaction reassigned"@,
                "Failed to reassign: "@,
            ),
            Done::AllReassigned(v) => told_all(v@, " transactions reassigned"@, " reassigned, "@),
            Done::Disconnected(result) => told(
                result,
                "Plaid item disconnected"@,
                "Failed to disconnect: "@,
            ),
        }
    }

    /// Whether the books changed and have to be loaded again.
    pub open spec fn changed_books(self) -> bool {
        match self {
            Done::DefaultAccounts(result) => result is Ok,
            Done::AccountCreated { result, .. } => result is Ok,
            Done::AccountUpdated { result, .. } => result is Ok,
            Done::EntryPosted { result, .. } => result is Ok,
            Done::ImportSkipped => true,
            Done::Linked(result) => result is Ok,
            Done::Unlinked(result) => result is Ok,
            Done::Voided(result) => result is Ok,
            Done::Unvoided(result) => result is Ok,
            Done::AllVoided(_) => true,
            Done::Reassigned(result) => result is Ok,
            Done::AllReassigned(_) => true,
            Done::Disconnected(result) => result is Ok,
        }
    }

    fn write_message(&self) -> (r: String)
        ensures
            r@ == self.message(),
    {
        match self {
            Done::DefaultAccounts(Ok(n)) => {
                let n = text::count(*n);
                text::cat2(n.as_str(), " default accounts created")
            },
            Done::DefaultAccounts(Err(e)) => text::cat2("Failed to create accounts: ", e.as_str()),
            Done::AccountCreated { name, result } => tell(
                result,
                text::cat3("Account '", name.as_str(), "' created"),
                "Failed to create account: ",
            ),
            Done::AccountUpdated { name, result } => tell(
                result,
                text::cat3("Account '", name.as_str(), "' updated"),
                "Failed to update account: ",
            ),
            Done::EntryPosted { memo, result } => tell(
                result,
                text::cat3("Entry '", memo.as_str(), "' posted"),
                "Failed to post entry: ",
            ),
            Done::ImportSkipped => text::owned("Import skipped"),
            Done::Linked(result) => tell(
                result,
                text::owned("Plaid account linked"),
                "Failed to link: ",
            ),
            Done::Unlinked(result) => tell(
                result,
                text::owned("Plaid account unlinked"),
                "Failed to unlink: ",
            ),
            Done::Voided(result) => tell(
                result,
                text::owned("Entry voided"),
                "Failed to void entry: ",
            ),
            Done::Unvoided(result) => tell(
                result,
                text::owned("Entry unvoided"),
                "Failed to unvoid entry: ",
            ),
            Done::AllVoided(v) => tell_all(v, " entries voided", " voided, "),
            Done::Reassigned(result) => tell(
                result,
                text::owned("Transaction reassigned"),
                "Failed to reassign: ",
            ),
            Done::AllReassigned(v) => tell_all(v, " transactions reassigned", " reassigned, "),
            Done::Disconnected(result) => tell(
                result,
                text::owned("Plaid item disconnected"),
                "Failed to disconnect: ",
            ),
        }
    }

    fn needs_reload(&self) -> (r: bool)
        ensures
            r == self.changed_books(),
    {
        match self {
            Done::DefaultAccounts(result) => result.is_ok(),
            Done::AccountCreated { result, .. } => result.is_ok(),
            Done::AccountUpdated { result, .. } => result.is_ok(),
            Done::EntryPosted { result, .. } => result.is_ok(),
            Done::ImportSkipped => true,
            Done::Linked(result) => result.is_ok(),
            Done::Unlinked(result) => result.is_ok(),
            Done::Voided(result) => result.is_ok(),
            Done::Unvoided(result) => result.is_ok(),
            Done::AllVoided(_) => true,
            Done::Reassigned(result) => result.is_ok(),
            Done::AllReassigned(_) => true,
            Done::Disconnected(result) => result.is_ok(),
        }
    }
}

impl App {
    /// Tells the user what became of a command; returns whether the books have
    /// to be loaded again.
    pub fn command_done(&mut self, done: &Done) -> (r: bool)
        requires
            old(self)@.wf(),
        ensures
            final(self)@ == old(self)@.said(done.message()),
            final(self)@.wf(),
            r == done.changed_books(),
    {
        let message = done.write_message();
        self.say(message);
        done.needs_reload()
    }
}

// ---- voiding ----

/// Why an entry is voided when several are.
pub const BULK_VOID_REASON: &'static str = "Bulk voided via TUI";

/// Why a bank connection is given up.
pub const DISCONNECT_REASON: &'static str = "Disconnected via TUI";

/// Whether a confirmed entry is to be restored rather than voided, and why. An
/// entry of which nothing is known is voided.
pub fn void_plan(is_void: Option<bool>) -> (r: (bool, &'static str))
    ensures
        r.0 == (is_void == Some(true)),
        r.1@ == (if r.0 {
            "Unvoided via TUI"@
        } else {
            "Voided via TUI"@
        }),
{
    match is_void {
        Some(true) => (true, "Unvoided via TUI"),
        _ => (false, "Voided via TUI"),
    }
}

// ---- opening a database ----

/// What became of opening a database.
pub enum Opening {
    /// The file could not be opened.
    NotOpened(String),
    /// The tables could not be made or brought up to date.
    NotReady(String),
    /// The books are open: what was said about the company, and whether there
    /// are no accounts yet.
    Ready { company: Option<String>, no_accounts: bool },
}

impl AppState {
    /// The choice on the startup screen is taken back.
    pub open spec fn startup_reset(self) -> AppState {
        AppState {
            startup: startup::StartupState {
                action: startup::StartupWish::Nothing,
                ..self.startup
            },
            ..self
        }
    }

    /// The main screens on the books at a path.
    pub open spec fn on_books(self, path: Seq<char>, no_accounts: bool, phase: AppPhase) -> AppState {
        AppState {
            database_path: Some(path),
            pending_default_accounts: self.pending_default_accounts || no_accounts,
            phase,
            ..self
        }
    }

    /// The program after a database was opened or made. A new one that could
    /// not be set up stays chosen.
    pub open spec fn database_opened(
        self,
        path: Seq<char>,
        is_new: bool,
        outcome: Opening,
    ) -> AppState {
        match outcome {
            Opening::NotOpened(e) => self.said(
                if is_new {
                    "Failed to create database: "@ + e@
                } else {
                    "Failed to open database: "@ + e@
                },
            ).startup_reset(),
            Opening::NotReady(e) => if is_new {
                self.said("Failed to initialize: "@ + e@)
            } else {
                self.said("Migration failed: "@ + e@).startup_reset()
            },
            Opening::Ready { company, no_accounts } => self.on_books(
                path,
                no_accounts,
                AppPhase::Main,
            ).said(
                if is_new {
                    "New database created"@
                } else {
                    match company {
                        Some(m) => "Opened "@ + path + " ("@ + m@ + ")"@,
                        None => "Opened "@ + path,
                    }
                },
            ),
        }
    }

    /// The program started on the books at a path.
    pub open spec fn started_on(
        self,
        path: Seq<char>,
        company: Option<String>,
        no_accounts: bool,
        show_welcome: bool,
        sync_server: bool,
    ) -> AppState {
        let s = AppState {
            sync_server_running: sync_server,
            ..self.on_books(
                path,
                no_accounts,
                if show_welcome {
                    AppPhase::Welcome
                } else {
                    AppPhase::Main
                },
            )
        };
        match company {
            Some(m) => s.said(m@),
            None => s,
        }
    }
}

impl App {
    fn reset_startup(&mut self)
        requires
            old(self)@.wf(),
        ensures
            final(self)@ == old(self)@.startup_reset(),
            final(self)@.wf(),
    {
        proof {
            reveal(App::state);
        }
        self.startup.action = StartupAction::Nothing;
    }

    fn enter_books(&mut self, path: String, no_accounts: bool, phase: AppPhase)
        requires
            old(self)@.wf(),
        ensures
            final(self)@ == old(self)@.on_books(path@, no_accounts, phase),
            final(self)@.wf(),
    {
        proof {
            reveal(App::state);
        }
        self.database_path = Some(path);
        self.pending_default_accounts = self.pending_default_accounts || no_accounts;
        self.phase = phase;
    }

    /// Goes on after a database was opened or made; returns whether its books
    /// are open now.
    pub fn database_opened(&mut self, path: String, is_new: bool, outcome: Opening) -> (r: bool)
        requires
            old(self)@.wf(),
        ensures
            final(self)@ == old(self)@.database_opened(path@, is_new, outcome),
            final(self)@.wf(),
            r == (outcome is Ready),
    {
        match outcome {
            Opening::NotOpened(e) => {
                self.say(
                    text::cat2(
                        if is_new {
                            "Failed to create database: "
                        } else {
                            "Failed to open database: "
                        },
                        e.as_str(),
                    ),
                );
                self.reset_startup();
                false
            },
            Opening::NotReady(e) => {
                if is_new {
                    self.say(text::cat2("Failed to initialize: ", e.as_str()));
                } else {
                    self.say(text::cat2("Migration failed: ", e.as_str()));
                    self.reset_startup();
                }
                false
            },
            Opening::Ready { company, no_accounts } => {
                let message = if is_new {
                    text::owned("New database created")
                } else {
                    match company {
                        Some(m) => text::cat5("Opened ", path.as_str(), " (", m.as_str(), ")"),
                        None => text::cat2("Opened ", path.as_str()),
                    }
                };
                self.enter_books(path, no_accounts, AppPhase::Main);
                self.say(message);
                true
            },
        }
    }

    /// Says whether the sync server runs.
    pub fn set_sync_server(&mut self, running: bool)
        requires
            old(self)@.wf(),
        ensures
            final(self)@ == (AppState { sync_server_running: running, ..old(self)@ }),
            final(self)@.wf(),
    {
        proof {
            reveal(App::state);
        }
        self.sync_server_running = running;
    }

    /// Starts on the books at a path, after the welcome screen if it is shown.
    pub fn start_on(
        &mut self,
        path: String,
        company: Option<String>,
        no_accounts: bool,
        show_welcome: bool,
        sync_server: bool,
    )
        requires
            old(self)@.wf(),
        ensures
            final(self)@ == old(self)@.started_on(
                path@,
                company,
                no_accounts,
                show_welcome,
                sync_server,
            ),
            final(self)@.wf(),
    {
        self.enter_books(
            path,
            no_accounts,
            if show_welcome {
                AppPhase::Welcome
            } else {
                AppPhase::Main
            },
        );
        self.set_sync_server(sync_server);
        if let Some(m) = company {
            self.say(m);
        }
    }
}

// ---- work in the background ----

/// What work in the background came to.
pub enum BackgroundResult {
    Staged { message: String, all_done: bool },
    /// How many transactions of a file were imported.
    Csv(Result<usize, String>),
    /// How many transactions of a statement were imported.
    Bank(Result<usize, String>),
}

/// What has to be loaded again.
#[derive(Debug, Clone, Copy, PartialEq, Eq, Structural)]
pub enum Reload {
    Nothing,
    Books,
    Staged,
    StagedAndBooks,
}

/// The message after an import.
pub open spec fn imported(result: Result<usize, String>) -> Seq<char> {
    match result {
        Ok(n) => "Imported "@ + text::decimal(n as nat) + " transactions"@,
        Err(e) => "Import failed: "@ + e@,
    }
}

impl AppState {
    /// A message on the screen of the staged transactions.
    pub open spec fn staged_said(self, message: Seq<char>) -> AppState {
        AppState {
            plaid_staged: plaid_staged::StagedState { status: Some(message), ..self.plaid_staged },
            ..self
        }
    }

    /// The screen of the staged transactions closed.
    pub open spec fn staged_closed(self) -> AppState {
        AppState {
            plaid_staged: plaid_staged::StagedState { visible: false, ..self.plaid_staged },
            ..self
        }
    }

    /// The program after work in the background, and what has to be loaded.
    pub open spec fn after_background(self, result: BackgroundResult) -> (AppState, Reload) {
        match result {
            BackgroundResult::Staged { message, all_done } => (
                if all_done {
                    self.staged_closed().said(message@)
                } else {
                    self.staged_said(message@)
                },
                Reload::StagedAndBooks,
            ),
            BackgroundResult::Csv(result) => (
                self.said(imported(result)),
                if result is Ok {
                    Reload::Books
                } else {
                    Reload::Nothing
                },
            ),
            BackgroundResult::Bank(result) => {
                let s = self.said(imported(result));
                if result is Ok {
                    (AppState { bank_import: s.bank_import.hidden(), ..s }, Reload::Books)
                } else {
                    (s, Reload::Nothing)
                }
            },
        }
    }
}

fn imported_message(result: &Result<usize, String>) -> (r: String)
    ensures
        r@ == imported(*result),
{
    match result {
        Ok(n) => {
            let n = text::count(*n);
            text::cat3("Imported ", n.as_str(), " transactions")
        },
        Err(e) => text::cat2("Import failed: ", e.as_str()),
    }
}

impl App {
    pub(crate) fn say_staged(&mut self, message: String)
        requires
            old(self)@.wf(),
        ensures
            final(self)@ == old(self)@.staged_said(message@),
            final(self)@.wf(),
    {
        proof {
            reveal(App::state);
        }
        self.plaid_staged.status_message = Some(message);
    }

    pub(crate) fn close_staged(&mut self)
        requires
            old(self)@.wf(),
        ensures
            final(self)@ == old(self)@.staged_closed(),
            final(self)@.wf(),
    {
        proof {
            reveal(App::state);
        }
        self.plaid_staged.close();
    }

    /// Goes on after work in the background; returns what has to be loaded.
    pub fn handle_background_result(&mut self, result: BackgroundResult) -> (r: Reload)
        requires
            old(self)@.wf(),
        ensures
            (final(self)@, r) == old(self)@.after_background(result),
            final(self)@.wf(),
    {
        match result {
            BackgroundResult::Staged { message, all_done } => {
                if all_done {
                    self.close_staged();
                    self.say(message);
                } else {
                    self.say_staged(message);
                }
                Reload::StagedAndBooks
            },
            BackgroundResult::Csv(result) => {
                let message = imported_message(&result);
                self.say(message);
                if result.is_ok() {
                    Reload::Books
                } else {
                    Reload::Nothing
                }
            },
            BackgroundResult::Bank(result) => {
                let message = imported_message(&result);
                self.say(message);
                if result.is_ok() {
                    self.close_bank_import();
                    Reload::Books
                } else {
                    Reload::Nothing
                }
            },
        }
    }

    /// Handles a key while work goes on in the background: only to quit can be
    /// asked for, and that question can be answered.
    pub fn handle_busy_key(&mut self, key: KeyCode)
        requires
            old(self)@.wf(),
        ensures
            final(self)@ == old(self)@.after_busy_key(key),
            final(self)@.wf(),
    {
        if self.asks_to_quit() {
            self.handle_quit_key(key);
        } else if let KeyCode::Char('q') = key {
            self.ask_to_quit();
        }
    }

    fn asks_to_quit(&self) -> (r: bool)
        ensures
            r == self@.show_quit_confirm,
    {
        proof {
            reveal(App::state);
        }
        self.show_quit_confirm
    }

    /// What follows at the end of a round: whether open books have to be
    /// closed, because the program is back at the start, and whether the
    /// program ends.
    pub fn round_end(&self, open: bool) -> (r: (bool, bool))
        ensures
            r.0 == (open && self@.phase == AppPhase::Startup),
            r.1 == self@.should_quit,
    {
        proof {
            reveal(App::state);
        }
        (open && self.phase == AppPhase::Startup, self.should_quit)
    }
}

impl AppState {
    /// A key while work goes on in the background.
    pub open spec fn after_busy_key(self, key: KeyCode) -> AppState {
        if self.show_quit_confirm {
            self.after_quit_key(key)
        } else if key == KeyCode::Char('q') {
            AppState { show_quit_confirm: true, ..self }
        } else {
            self
        }
    }
}

/// Work in the background does not keep the program from being quit: asking
/// and a yes end it, and other keys change nothing but the question.
pub proof fn work_can_be_left(s: AppState, key: KeyCode)
    ensures
        !s.show_quit_confirm ==> s.after_busy_key(KeyCode::Char('q')).after_busy_key(
            KeyCode::Char('y'),
        ).should_quit,
        s.show_quit_confirm ==> s.after_busy_key(KeyCode::Char('y')).should_quit,
        s.after_busy_key(key) == (AppState {
            show_quit_confirm: s.after_busy_key(key).show_quit_confirm,
            should_quit: s.after_busy_key(key).should_quit,
            ..s
        }),
        !s.should_quit && s.after_busy_key(key).should_quit ==> s.show_quit_confirm && (key
            == KeyCode::Char('y') || key == KeyCode::Char('Y')),
{
}

/// The message of a failed command ends with the reason.
pub proof fn reasons_are_told(good: Seq<char>, bad: Seq<char>, e: String)
    ensures
        told(Err(e), good, bad).skip(bad.len() as int) == e@,
{
    assert((bad + e@).skip(bad.len() as int) =~= e@);
}

} // verus!
