//! Help on the keys and the screens.

use vstd::prelude::*;

use crate::text;
use crate::tui::paint;
use crate::tui::paint::{Line, LineView, Listing, Page};
use crate::tui::theme;
use crate::tui::theme::Theme;

verus! {

/// The screen that help is asked for.
#[derive(Debug, Clone, Copy, PartialEq, Eq, Structural)]
pub enum HelpContext {
    Startup,
    Dashboard,
    Accounts,
    Journal,
    Reports,
    EventLog,
    Plaid,
}

/// The kinds of lines in the help.
#[derive(Debug, Clone, Copy, PartialEq, Eq, Structural)]
pub enum HelpKind {
    Heading,
    Label,
    /// A key and what it does.
    Key,
    Text,
}

/// What the keys do everywhere.
pub const GLOBAL_KEYS: [(HelpKind, &'static str, &'static str); 12] = [
    (HelpKind::Text, "", ""),
    (HelpKind::Heading, "  Global Keys", ""),
    (HelpKind::Text, "", ""),
    (HelpKind::Key, "  ?", "Toggle this help menu"),
    (HelpKind::Key, "  Esc", "Close file / go back"),
    (HelpKind::Key, "  q", "Quit application"),
    (HelpKind::Key, "  Ctrl+C", "Force quit"),
    (HelpKind::Key, "  Tab", "Next view"),
    (HelpKind::Key, "  Shift+Tab", "Previous view"),
    (HelpKind::Key, "  ,", "Open settings"),
    (HelpKind::Key, "  1-6", "Jump to view (Dashboard/Accounts/Journal/Reports/Events/Plaid)"),
    (HelpKind::Text, "", ""),
];

/// Help on the start screen.
pub const STARTUP_HELP: [(HelpKind, &'static str, &'static str); 10] = [
    (HelpKind::Heading, "  Startup Screen", ""),
    (HelpKind::Text, "", ""),
    (HelpKind::Key, "  ↑/↓ or j/k", "Navigate menu"),
    (HelpKind::Key, "  Enter", "Select option"),
    (HelpKind::Key, "  Esc", "Cancel input"),
    (HelpKind::Text, "", ""),
    (HelpKind::Label, "  Options:", ""),
    (HelpKind::Text, "  • Create New Database - Start a fresh accounting file", ""),
    (HelpKind::Text, "  • Open Database - Open an existing .db file", ""),
    (HelpKind::Text, "  • Recent Databases - Quick access to found .db files", ""),
];

/// Help on the dashboard.
pub const DASHBOARD_HELP: [(HelpKind, &'static str, &'static str); 11] = [
    (HelpKind::Heading, "  Dashboard View", ""),
    (HelpKind::Text, "", ""),
    (HelpKind::Text, "  The dashboard shows a financial overview:", ""),
    (HelpKind::Text, "", ""),
    (HelpKind::Label, "  Summary Section:", ""),
    (HelpKind::Text, "  • Total Assets, Liabilities, and Equity", ""),
    (HelpKind::Text, "  • Net Income for the period", ""),
    (HelpKind::Text, "", ""),
    (HelpKind::Label, "  Account Breakdown:", ""),
    (HelpKind::Text, "  • Assets and Liabilities (left side)", ""),
    (HelpKind::Text, "  • Revenue and Expenses (right side)", ""),
];

/// Help on the accounts.
pub const ACCOUNTS_HELP: [(HelpKind, &'static str, &'static str); 23] = [
    (HelpKind::Heading, "  Accounts View", ""),
    (HelpKind::Text, "", ""),
    (HelpKind::Key, "  Enter", "View account ledger"),
    (HelpKind::Key, "  a", "Create new account"),
    (HelpKind::Key, "  e", "Edit selected account"),
    (HelpKind::Key, "  p", "Link/unlink Plaid account (Asset/Liability only)"),
    (HelpKind::Key, "  ↑/↓ or j/k", "Navigate accounts"),
    (HelpKind::Key, "  Home", "Jump to first account"),
    (HelpKind::Key, "  End", "Jump to last account"),
    (HelpKind::Text, "", ""),
    (HelpKind::Label, "  Account Form (Parent field):", ""),
    (HelpKind::Text, "  • Type to search/filter accounts", ""),
    (HelpKind::Text, "  • ↑/↓ to navigate matches", ""),
    (HelpKind::Text, "  • Enter to confirm selection", ""),
    (HelpKind::Text, "  • Esc to clear filter", ""),
    (HelpKind::Text, "", ""),
    (HelpKind::Label, "  Columns:", ""),
    (HelpKind::Text, "  • Number - Account number (e.g., 1000)", ""),
    (HelpKind::Text, "  • Name - Account name (indented for children)", ""),
    (HelpKind::Text, "  • Type - Asset/Liability/Equity/Revenue/Expense", ""),
    (HelpKind::Text, "  • Balance - Current balance", ""),
    (HelpKind::Text, "  • Plaid - Linked bank institution and mask", ""),
    (HelpKind::Text, "  • Status - Active or Inactive", ""),
];

/// Help on the journal.
pub const JOURNAL_HELP: [(HelpKind, &'static str, &'static str); 33] = [
    (HelpKind::Heading, "  Journal View", ""),
    (HelpKind::Text, "", ""),
    (HelpKind::Key, "  Enter", "View transaction details"),
    (HelpKind::Key, "  e", "Create new journal entry"),
    (HelpKind::Key, "  i", "Import transactions from CSV"),
    (HelpKind::Key, "  f", "Find subscriptions in Uncategorized"),
    (HelpKind::Key, "  a", "Reassign transaction to different account"),
    (HelpKind::Key, "  g", "Go to other account's ledger (ledger only)"),
    (HelpKind::Key, "  x", "Void selected entry"),
    (HelpKind::Key, "  v", "Enter multiselect mode (ledger only)"),
    (HelpKind::Key, "  s", "Cycle sort field (Date/Memo/Reference/Amount)"),
    (HelpKind::Key, "  r", "Reverse sort direction"),
    (HelpKind::Key, "  h", "Toggle showing voided entries"),
    (HelpKind::Key, "  c", "Toggle ID column visibility"),
    (HelpKind::Key, "  ↑/↓ or j/k", "Navigate entries"),
    (HelpKind::Key, "  PgUp/PgDn", "Page through entries"),
    (HelpKind::Key, "  Home", "Jump to first entry"),
    (HelpKind::Key, "  End", "Jump to last entry"),
    (HelpKind::Text, "", ""),
    (HelpKind::Label, "  Multiselect Mode (ledger view only):", ""),
    (HelpKind::Text, "  Press 'v' to enter multiselect mode", ""),
    (HelpKind::Key, "  ↑/↓", "Navigate (selects when active)"),
    (HelpKind::Key, "  Space", "Toggle selection on/off"),
    (HelpKind::Text, "    Selection starts active; Space pauses/resumes", ""),
    (HelpKind::Key, "  a", "Assign all selected to an account"),
    (HelpKind::Key, "  x", "Void all selected entries"),
    (HelpKind::Key, "  Esc", "Exit multiselect mode"),
    (HelpKind::Text, "", ""),
    (HelpKind::Label, "  Journal Columns:", ""),
    (HelpKind::Text, "  • Date, Memo, Reference, Amount, Status", ""),
    (HelpKind::Text, "", ""),
    (HelpKind::Label, "  Ledger Columns (when viewing single account):", ""),
    (HelpKind::Text, "  • Date, Account, Memo, Reference, Debit, Credit, Balance", ""),
];

/// Help on the reports.
pub const REPORTS_HELP: [(HelpKind, &'static str, &'static str); 17] = [
    (HelpKind::Heading, "  Reports View", ""),
    (HelpKind::Text, "", ""),
    (HelpKind::Key, "  ←/→ or h/l", "Switch between reports"),
    (HelpKind::Key, "  ↑/↓ or j/k", "Scroll report content"),
    (HelpKind::Key, "  d", "Enter specific date (YYYY-MM-DD)"),
    (HelpKind::Key, "  [", "Previous day"),
    (HelpKind::Key, "  ]", "Next day"),
    (HelpKind::Key, "  t", "Reset to today"),
    (HelpKind::Text, "", ""),
    (HelpKind::Label, "  Available Reports:", ""),
    (HelpKind::Text, "  • Trial Balance - All accounts with debit/credit totals", ""),
    (HelpKind::Text, "  • Balance Sheet - Assets = Liabilities + Equity", ""),
    (HelpKind::Text, "  • Income Statement - Revenue - Expenses = Net Income", ""),
    (HelpKind::Text, "", ""),
    (HelpKind::Label, "  Note:", ""),
    (HelpKind::Text, "  Balance sheet and income statement use the", ""),
    (HelpKind::Text, "  selected report date. Use [/] to change date.", ""),
];

/// Help on the event log.
pub const EVENT_LOG_HELP: [(HelpKind, &'static str, &'static str); 18] = [
    (HelpKind::Heading, "  Event Log View", ""),
    (HelpKind::Text, "", ""),
    (HelpKind::Key, "  ↑/↓ or j/k", "Navigate events"),
    (HelpKind::Key, "  PgUp/PgDn", "Page through events"),
    (HelpKind::Key, "  Home", "Jump to oldest event"),
    (HelpKind::Key, "  End", "Jump to newest event"),
    (HelpKind::Text, "", ""),
    (HelpKind::Label, "  About the Event Log:", ""),
    (HelpKind::Text, "  The event log shows all changes made to the", ""),
    (HelpKind::Text, "  accounting data in chronological order.", ""),
    (HelpKind::Text, "", ""),
    (HelpKind::Text, "  Each event includes:", ""),
    (HelpKind::Text, "  • Timestamp - When the action occurred", ""),
    (HelpKind::Text, "  • Event Type - What kind of change", ""),
    (HelpKind::Text, "  • Entity ID - The affected record", ""),
    (HelpKind::Text, "  • Summary - Brief description", ""),
    (HelpKind::Text, "", ""),
    (HelpKind::Text, "  Events are immutable and form an audit trail.", ""),
];

/// Help on the bank connections.
pub const PLAID_HELP: [(HelpKind, &'static str, &'static str); 19] = [
    (HelpKind::Heading, "  Plaid View", ""),
    (HelpKind::Text, "", ""),
    (HelpKind::Key, "  C", "Configure Plaid proxy URL and API key"),
    (HelpKind::Key, "  c", "Connect a new bank via Plaid Link"),
    (HelpKind::Key, "  s", "Sync transactions for selected item"),
    (HelpKind::Key, "  S", "Sync all active items"),
    (HelpKind::Key, "  d", "Disconnect selected item"),
    (HelpKind::Key, "  ↑/↓ or j/k", "Navigate items"),
    (HelpKind::Text, "", ""),
    (HelpKind::Label, "  About Plaid:", ""),
    (HelpKind::Text, "  Connect bank accounts via Plaid to automatically", ""),
    (HelpKind::Text, "  import transactions. Use the Accounts view (key p)", ""),
    (HelpKind::Text, "  to link Plaid accounts to local accounts.", ""),
    (HelpKind::Text, "", ""),
    (HelpKind::Label, "  Setup:", ""),
    (HelpKind::Text, "  1. Press 'C' to configure proxy URL and API key", ""),
    (HelpKind::Text, "  2. Press 'c' to connect a bank", ""),
    (HelpKind::Text, "  3. Map accounts in the Accounts view (p)", ""),
    (HelpKind::Text, "  4. Press 's' to sync transactions", ""),
];

/// A line of the help.
pub open spec fn help_line(l: (HelpKind, &str, &str), theme: &Theme) -> LineView {
    match l.0 {
        HelpKind::Heading => seq![(l.1@, theme.header_style())],
        HelpKind::Label => seq![(l.1@, theme::colored(theme.info))],
        HelpKind::Key => seq![
            (text::padded_right(l.1@, 16), theme::colored(theme.success)),
            paint::raw_view(l.2@),
        ],
        HelpKind::Text => seq![paint::raw_view(l.1@)],
    }
}

fn draw_line(l: &(HelpKind, &'static str, &'static str), theme: &Theme) -> (r: Line)
    ensures
        r@ == help_line(*l, theme),
{
    match l.0 {
        HelpKind::Heading => paint::styled_line(l.1, theme.header_style()),
        HelpKind::Label => paint::styled_line(l.1, theme::colored(theme.info)),
        HelpKind::Key => paint::list2(
            paint::styled_owned(text::pad_right(l.1, 16), theme::colored(theme.success)),
            paint::raw(l.2),
        ),
        HelpKind::Text => paint::list1(paint::raw(l.1)),
    }
}

/// The lines that are shown for a screen behind what the keys do everywhere.
pub open spec fn topic(context: HelpContext) -> Seq<(HelpKind, &'static str, &'static str)> {
    match context {
        HelpContext::Startup => STARTUP_HELP@,
        HelpContext::Dashboard => DASHBOARD_HELP@,
        HelpContext::Accounts => ACCOUNTS_HELP@,
        HelpContext::Journal => JOURNAL_HELP@,
        HelpContext::Reports => REPORTS_HELP@,
        HelpContext::EventLog => EVENT_LOG_HELP@,
        HelpContext::Plaid => PLAID_HELP@,
    }
}

/// Everything that is shown for a screen.
pub open spec fn help_page(context: HelpContext, theme: &Theme) -> Seq<LineView> {
    drawn(GLOBAL_KEYS@ + topic(context), theme)
}

/// Lines of the help as they are drawn.
pub open spec fn drawn(lines: Seq<(HelpKind, &'static str, &'static str)>, theme: &Theme) -> Seq<
    LineView,
> {
    Seq::new(lines.len(), |i: int| help_line(lines[i], theme))
}

fn push_lines(page: &mut Page, lines: &[(HelpKind, &'static str, &'static str)], theme: &Theme)
    ensures
        final(page)@ == old(page)@ + drawn(lines@, theme),
{
    let mut i: usize = 0;
    let ghost before = page@;
    assert(drawn(lines@, theme).take(0) =~= Seq::<LineView>::empty());
    while i < lines.len()
        invariant
            i <= lines@.len(),
            page@ =~= before + drawn(lines@, theme).take(i as int),
        decreases lines@.len() - i,
    {
        page.push(draw_line(&lines[i], theme));
        i = i + 1;
    }
    assert(drawn(lines@, theme).take(i as int) =~= drawn(lines@, theme));
}

/// The help.
pub struct HelpModal {
    pub visible: bool,
}

impl HelpModal {
    pub fn new() -> (r: Self)
        ensures
            !r.visible,
    {
        HelpModal { visible: false }
    }

    /// Opens the help if it is closed, and closes it if it is open.
    pub fn toggle(&mut self)
        ensures
            final(self).visible == !old(self).visible,
    {
        self.visible = !self.visible;
    }

    pub fn show(&mut self)
        ensures
            final(self).visible,
    {
        self.visible = true;
    }

    /// Closes the help.
    pub fn close(&mut self)
        ensures
            !final(self).visible,
    {
        self.visible = false;
    }

    /// Draws the help for a screen, if it is open.
    pub fn draw(&self, context: HelpContext, theme: &Theme) -> (r: Option<Page>)
        ensures
            r is Some <==> self.visible,
            r is Some ==> r->0@ == help_page(context, theme),
    {
        if self.visible {
            Some(self.get_help_content(context, theme))
        } else {
            None
        }
    }

    /// The lines of the help for a screen.
    pub fn get_help_content(&self, context: HelpContext, theme: &Theme) -> (r: Page)
        ensures
            r@ == help_page(context, theme),
    {
        let mut page: Page = Listing::new();
        push_lines(&mut page, &GLOBAL_KEYS, theme);
        match context {
            HelpContext::Startup => push_lines(&mut page, &STARTUP_HELP, theme),
            HelpContext::Dashboard => push_lines(&mut page, &DASHBOARD_HELP, theme),
            HelpContext::Accounts => push_lines(&mut page, &ACCOUNTS_HELP, theme),
            HelpContext::Journal => push_lines(&mut page, &JOURNAL_HELP, theme),
            HelpContext::Reports => push_lines(&mut page, &REPORTS_HELP, theme),
            HelpContext::EventLog => push_lines(&mut page, &EVENT_LOG_HELP, theme),
            HelpContext::Plaid => push_lines(&mut page, &PLAID_HELP, theme),
        }
        assert(page@ =~= help_page(context, theme));
        page
    }
}

/// The help of every screen starts with what the keys do everywhere.
pub proof fn help_starts_with_global_keys(context: HelpContext, theme: &Theme)
    ensures
        help_page(context, theme).len() == GLOBAL_KEYS@.len() + topic(context).len(),
        help_page(context, theme).take(GLOBAL_KEYS@.len() as int) == drawn(GLOBAL_KEYS@, theme),
{
    assert(help_page(context, theme).take(GLOBAL_KEYS@.len() as int) =~= drawn(GLOBAL_KEYS@, theme));
}

impl Default for HelpModal {
    fn default() -> (r: Self)
        ensures
            !r.visible,
    {
        Self::new()
    }
}

} // verus!
