//! What is done for the bank connections and for the staged transactions.

use vstd::prelude::*;

use crate::json;
use crate::text;
use crate::tui::app::{App, AppState};
use crate::tui::outcomes;
use crate::tui::outcomes::{BackgroundResult, Reload};
use crate::tui::views::plaid;
use crate::tui::views::plaid::{PlaidAction, PlaidItemDisplay};
use crate::tui::views::plaid_staged;
use crate::tui::views::plaid_staged::{StagedAction, TransferCandidateDisplay};

verus! {

/// Where a bank is connected, in a browser.
pub const LINK_URL: &'static str = "http://localhost:9876/plaid/link";

/// Where a connection is synchronised.
pub const SYNC_URL: &'static str = "http://localhost:9876/plaid/sync";

// ---- the bank connections ----

/// What is to be done for the bank connections.
pub enum PlaidTask {
    Nothing,
    /// Load the configuration and let the user change it.
    Configure,
    /// Open the page for connecting a bank.
    OpenLink,
    /// Synchronise a connection.
    Sync(String),
    /// Synchronise these connections, one after the other.
    SyncAll(Vec<String>),
    Disconnect(String),
    /// Load the staged transactions and show them.
    ReviewStaged,
}

/// The meaning of what is to be done.
#[verifier::ext_equal]
pub ghost enum PlaidDuty {
    Nothing,
    Configure,
    OpenLink,
    Sync(Seq<char>),
    SyncAll(Seq<Seq<char>>),
    Disconnect(Seq<char>),
    ReviewStaged,
}

impl View for PlaidTask {
    type V = PlaidDuty;

    open spec fn view(&self) -> PlaidDuty {
        match self {
            PlaidTask::Nothing => PlaidDuty::Nothing,
            PlaidTask::Configure => PlaidDuty::Configure,
            PlaidTask::OpenLink => PlaidDuty::OpenLink,
            PlaidTask::Sync(id) => PlaidDuty::Sync(id@),
            PlaidTask::SyncAll(ids) => PlaidDuty::SyncAll(text::texts(ids@)),
            PlaidTask::Disconnect(id) => PlaidDuty::Disconnect(id@),
            PlaidTask::ReviewStaged => PlaidDuty::ReviewStaged,
        }
    }
}

/// The active ones of some connections, in order.
pub open spec fn active_ids(items: Seq<PlaidItemDisplay>) -> Seq<Seq<char>>
    decreases items.len(),
{
    if items.len() == 0 {
        Seq::empty()
    } else if items.last().status@ == "active"@ {
        active_ids(items.drop_last()).push(items.last().id@)
    } else {
        active_ids(items.drop_last())
    }
}

/// All connections that are active are synchronised, in order, and no others.
pub proof fn active_connections_are_synchronised(items: Seq<PlaidItemDisplay>)
    ensures
        ({
            let active = items.filter(|i: PlaidItemDisplay| i.status@ == "active"@);
            &&& active_ids(items).len() == active.len()
            &&& forall|k: int|
                0 <= k < active.len() ==> #[trigger] active_ids(items)[k] == active[k].id@
        }),
    decreases items.len(),
{
    reveal(Seq::filter);
    if items.len() > 0 {
        let p = |i: PlaidItemDisplay| i.status@ == "active"@;
        let before = items.drop_last();
        active_connections_are_synchronised(before);
        assert(p(items.last()) == (items.last().status@ == "active"@));
        assert forall|k: int| 0 <= k < items.filter(p).len() implies #[trigger] active_ids(items)[k]
            == items.filter(p)[k].id@ by {
            if k < before.filter(p).len() {
                assert(active_ids(items)[k] == active_ids(before)[k]);
                assert(items.filter(p)[k] == before.filter(p)[k]);
            }
        }
    }
}

fn find_active(items: &Vec<PlaidItemDisplay>) -> (r: Vec<String>)
    ensures
        text::texts(r@) == active_ids(items@),
{
    let mut out: Vec<String> = Vec::new();
    let mut i: usize = 0;
    while i < items.len()
        invariant
            i <= items@.len(),
            text::texts(out@) =~= active_ids(items@.take(i as int)),
        decreases items@.len() - i,
    {
        assert(items@.take(i + 1).drop_last() =~= items@.take(i as int));
        if text::same_text(items[i].status.as_str(), "active") {
            out.push(items[i].id.clone());
        }
        i = i + 1;
    }
    assert(items@.take(i as int) =~= items@);
    out
}

impl AppState {
    /// The program after the user asked for something for the bank connections,
    /// and what is to be done.
    pub open spec fn after_plaid(
        self,
        wish: plaid::PlaidWish,
        configured: bool,
    ) -> (AppState, PlaidDuty) {
        match wish {
            plaid::PlaidWish::Nothing => (self, PlaidDuty::Nothing),
            plaid::PlaidWish::Configure => (self, PlaidDuty::Configure),
            plaid::PlaidWish::Connect => if !configured {
                (
                    self.said("Plaid not configured. Press C to set proxy URL and API key."@),
                    PlaidDuty::Nothing,
                )
            } else if self.sync_server_running {
                (
                    self.said(
                        "Opening Plaid Link in browser at http://localhost:9876/plaid/link"@,
                    ),
                    PlaidDuty::OpenLink,
                )
            } else {
                (
                    self.said("Sync server not running. Restart with: accountir tui"@),
                    PlaidDuty::Nothing,
                )
            },
            plaid::PlaidWish::Sync(id) => (
                self.said("Syncing "@ + id + "..."@),
                PlaidDuty::Sync(id),
            ),
            plaid::PlaidWish::SyncAll => {
                let ids = active_ids(self.plaid_view.items);
                if ids.len() == 0 {
                    (self.said("No active Plaid items to sync"@), PlaidDuty::Nothing)
                } else {
                    (self, PlaidDuty::SyncAll(ids))
                }
            },
            plaid::PlaidWish::Disconnect(id) => (self, PlaidDuty::Disconnect(id)),
            plaid::PlaidWish::ReviewStaged => (self, PlaidDuty::ReviewStaged),
        }
    }
}

impl App {
    fn sync_server_runs(&self) -> (r: bool)
        ensures
            r == self@.sync_server_running,
    {
        proof {
            reveal(App::state);
        }
        self.sync_server_running
    }

    fn active_items(&self) -> (r: Vec<String>)
        ensures
            text::texts(r@) == active_ids(self@.plaid_view.items),
            r@.len() == active_ids(self@.plaid_view.items).len(),
    {
        proof {
            reveal(App::state);
        }
        let r = find_active(&self.plaid_view.items);
        assert(text::texts(r@).len() == r@.len());
        r
    }

    /// Does what the user asked for the bank connections; returns what is left
    /// to be done. Whether they are configured matters only for a new one.
    pub fn handle_plaid_action(&mut self, action: PlaidAction, configured: bool) -> (r: PlaidTask)
        requires
            old(self)@.wf(),
        ensures
            (final(self)@, r@) == old(self)@.after_plaid(action@, configured),
            final(self)@.wf(),
    {
        match action {
            PlaidAction::Nothing => PlaidTask::Nothing,
            PlaidAction::Configure => PlaidTask::Configure,
            PlaidAction::Connect => {
                if !configured {
                    self.say(
                        text::owned("Plaid not configured. Press C to set proxy URL and API key."),
                    );
                    PlaidTask::Nothing
                } else if self.sync_server_runs() {
                    self.say(
                        text::owned(
                            "Opening Plaid Link in browser at http://localhost:9876/plaid/link",
                        ),
                    );
                    PlaidTask::OpenLink
                } else {
                    self.say(text::owned("Sync server not running. Restart with: accountir tui"));
                    PlaidTask::Nothing
                }
            },
            PlaidAction::Sync(id) => {
                self.say(text::cat3("Syncing ", id.as_str(), "..."));
                PlaidTask::Sync(id)
            },
            PlaidAction::SyncAll => {
                let ids = self.active_items();
                if ids.len() == 0 {
                    self.say(text::owned("No active Plaid items to sync"));
                    PlaidTask::Nothing
                } else {
                    PlaidTask::SyncAll(ids)
                }
            },
            PlaidAction::Disconnect(id) => PlaidTask::Disconnect(id),
            PlaidAction::ReviewStaged => PlaidTask::ReviewStaged,
        }
    }

    /// Shows the staged transactions.
    pub fn open_staged(&mut self)
        requires
            old(self)@.wf(),
        ensures
            final(self)@ == (AppState {
                plaid_staged: old(self)@.plaid_staged.opened(),
                ..old(self)@
            }),
            final(self)@.wf(),
    {
        proof {
            reveal(App::state);
        }
        self.plaid_staged.show();
    }

    /// Lets the user change the configuration of the bank connections.
    pub fn open_plaid_config(&mut self, proxy_url: Option<String>, already_registered: bool)
        requires
            old(self)@.wf(),
        ensures
            final(self)@ == (AppState {
                plaid_config: old(self)@.plaid_config.opened(
                    text::text_or_empty(proxy_url),
                    already_registered,
                ),
                ..old(self)@
            }),
            final(self)@.wf(),
    {
        proof {
            reveal(App::state);
        }
        self.plaid_config.show(proxy_url, already_registered);
    }
}

// ---- synchronising ----

/// What came of a request to synchronise a connection.
pub enum SyncReply {
    /// The server could not be reached.
    Unreachable(String),
    /// The server refused, with a status and a text.
    Refused { status: String, text: String },
    /// The reply is not JSON.
    Unreadable(String),
    /// The reply, as JSON.
    Accepted(String),
    /// The request was cut off.
    Aborted,
}

/// The number in a field of a reply; none is zero.
pub open spec fn number_or_zero(body: Seq<char>, field: Seq<char>) -> nat {
    match json::number_in_field(body, field) {
        Some(n) => n as nat,
        None => 0,
    }
}

fn read_number(body: &str, field: &str) -> (r: u64)
    ensures
        r == number_or_zero(body@, field@),
{
    match json::number_field(body, field) {
        Some(n) => n,
        None => 0,
    }
}

/// The message about what was staged, what was skipped, and how many transfers
/// were found.
pub open spec fn synced(staged: nat, skipped: nat, transfers: nat) -> Seq<char> {
    let m = "Synced: "@ + text::decimal(staged) + " staged, "@ + text::decimal(skipped)
        + " skipped"@;
    if transfers > 0 {
        m + ", "@ + text::decimal(transfers) + " transfer candidates detected"@
    } else {
        m
    }
}

/// Writes the message about what was staged, what was skipped, and how many
/// transfers were found.
pub fn synced_message(staged: u64, skipped: u64, transfers: u64) -> (r: String)
    ensures
        r@ == synced(staged as nat, skipped as nat, transfers as nat),
{
    let a = text::number(staged);
    let b = text::number(skipped);
    let m = text::cat5("Synced: ", a.as_str(), " staged, ", b.as_str(), " skipped");
    if transfers > 0 {
        let c = text::number(transfers);
        text::cat4(m.as_str(), ", ", c.as_str(), " transfer candidates detected")
    } else {
        m
    }
}

impl SyncReply {
    /// The message to the user.
    pub open spec fn message(self) -> Seq<char> {
        match self {
            SyncReply::Unreachable(e) => "Sync request failed: "@ + e@,
            SyncReply::Refused { status, text } => "Sync failed ("@ + status@ + "): "@ + text@,
            SyncReply::Unreadable(e) => "Invalid sync response: "@ + e@,
            SyncReply::Accepted(body) => synced(
                number_or_zero(body@, "staged"@),
                number_or_zero(body@, "skipped"@),
                number_or_zero(body@, "transfer_candidates"@),
            ),
            SyncReply::Aborted => "Sync thread panicked"@,
        }
    }

    fn write_message(&self) -> (r: String)
        ensures
            r@ == self.message(),
    {
        match self {
            SyncReply::Unreachable(e) => text::cat2("Sync request failed: ", e.as_str()),
            SyncReply::Refused { status, text } => text::cat4(
                "Sync failed (",
                status.as_str(),
                "): ",
                text.as_str(),
            ),
            SyncReply::Unreadable(e) => text::cat2("Invalid sync response: ", e.as_str()),
            SyncReply::Accepted(body) => synced_message(
                read_number(body.as_str(), "staged"),
                read_number(body.as_str(), "skipped"),
                read_number(body.as_str(), "transfer_candidates"),
            ),
            SyncReply::Aborted => text::owned("Sync thread panicked"),
        }
    }

    /// What a reply adds to the totals: what was staged, what was skipped, and
    /// one error if it failed. Numbers that do not fit in 32 bits are left out.
    pub open spec fn counts(self) -> (int, int, int) {
        match self {
            SyncReply::Accepted(body) => (
                small(number_or_zero(body@, "staged"@)),
                small(number_or_zero(body@, "skipped"@)),
                0,
            ),
            _ => (0, 0, 1),
        }
    }

    fn count(&self) -> (r: (u32, u32, u32))
        ensures
            (r.0 as int, r.1 as int, r.2 as int) == self.counts(),
    {
        match self {
            SyncReply::Accepted(body) => (
                small_number(read_number(body.as_str(), "staged")),
                small_number(read_number(body.as_str(), "skipped")),
                0,
            ),
            _ => (0, 0, 1),
        }
    }
}

/// A number, or zero if it does not fit in 32 bits.
pub open spec fn small(n: nat) -> int {
    if n <= u32::MAX {
        n as int
    } else {
        0
    }
}

fn small_number(n: u64) -> (r: u32)
    ensures
        r == small(n as nat),
{
    if n <= 4294967295 {
        n as u32
    } else {
        0
    }
}

/// A sum in 32 bits.
pub open spec fn wrap32(n: int) -> int {
    n % 0x1_0000_0000
}

/// The totals of several replies.
pub open spec fn sync_totals(replies: Seq<SyncReply>) -> (int, int, int)
    decreases replies.len(),
{
    if replies.len() == 0 {
        (0, 0, 0)
    } else {
        let t = sync_totals(replies.drop_last());
        let c = replies.last().counts();
        (wrap32(t.0 + c.0), wrap32(t.1 + c.1), wrap32(t.2 + c.2))
    }
}

fn plus32(a: u32, b: u32) -> (r: u32)
    ensures
        r == wrap32(a + b),
{
    a.wrapping_add(b)
}

fn total_up(replies: &Vec<SyncReply>) -> (r: (u32, u32, u32))
    ensures
        (r.0 as int, r.1 as int, r.2 as int) == sync_totals(replies@),
{
    let mut added: u32 = 0;
    let mut skipped: u32 = 0;
    let mut errors: u32 = 0;
    let mut i: usize = 0;
    while i < replies.len()
        invariant
            i <= replies@.len(),
            (added as int, skipped as int, errors as int) == sync_totals(replies@.take(i as int)),
        decreases replies@.len() - i,
    {
        assert(replies@.take(i + 1).drop_last() =~= replies@.take(i as int));
        let (a, b, c): (u32, u32, u32) = replies[i].count();
        added = plus32(added, a);
        skipped = plus32(skipped, b);
        errors = plus32(errors, c);
        i = i + 1;
    }
    assert(replies@.take(i as int) =~= replies@);
    (added, skipped, errors)
}

/// The message after all connections were synchronised.
pub open spec fn all_synced(t: (int, int, int)) -> Seq<char> {
    "Sync all: "@ + text::decimal(t.0 as nat) + " added, "@ + text::decimal(t.1 as nat)
        + " skipped, "@ + text::decimal(t.2 as nat) + " errors"@
}

impl App {
    /// Tells the user what came of a request to synchronise; returns whether
    /// the books have to be loaded again.
    pub fn sync_done(&mut self, reply: &SyncReply) -> (r: bool)
        requires
            old(self)@.wf(),
        ensures
            final(self)@ == old(self)@.said(reply.message()),
            final(self)@.wf(),
            r == (reply is Accepted),
    {
        let message = reply.write_message();
        self.say(message);
        match reply {
            SyncReply::Accepted(_) => true,
            _ => false,
        }
    }

    /// Tells the user what came of synchronising all connections.
    pub fn sync_all_done(&mut self, replies: &Vec<SyncReply>)
        requires
            old(self)@.wf(),
        ensures
            final(self)@ == old(self)@.said(all_synced(sync_totals(replies@))),
            final(self)@.wf(),
    {
        let (added, skipped, errors): (u32, u32, u32) = total_up(replies);
        let a = text::number(added as u64);
        let b = text::number(skipped as u64);
        let c = text::number(errors as u64);
        let start = text::cat5("Sync all: ", a.as_str(), " added, ", b.as_str(), " skipped, ");
        self.say(text::cat3(start.as_str(), c.as_str(), " errors"));
    }
}

proof fn errors_of(replies: Seq<SyncReply>)
    requires
        forall|i: int| 0 <= i < replies.len() ==> !(#[trigger] replies[i] is Accepted),
    ensures
        sync_totals(replies) == (0int, 0int, wrap32(replies.len() as int)),
    decreases replies.len(),
{
    if replies.len() > 0 {
        assert forall|i: int| 0 <= i < replies.len() - 1 implies !(
        #[trigger] replies.drop_last()[i] is Accepted) by {
            assert(!(replies[i] is Accepted));
        }
        errors_of(replies.drop_last());
        assert(!(replies[replies.len() - 1] is Accepted));
        vstd::arithmetic::div_mod::lemma_add_mod_noop(
            replies.len() - 1,
            1,
            0x1_0000_0000,
        );
    }
}

/// If every request fails, nothing is added, and every one is counted.
pub proof fn failed_requests_are_counted(replies: Seq<SyncReply>)
    requires
        replies.len() <= u32::MAX,
        forall|i: int| 0 <= i < replies.len() ==> !(#[trigger] replies[i] is Accepted),
    ensures
        sync_totals(replies) == (0int, 0int, replies.len() as int),
{
    errors_of(replies);
}

// ---- the staged transactions ----

/// What is to be done for the staged transactions.
pub enum StagedTask {
    Nothing,
    ImportTransfer(String),
    RejectTransfer(String),
    /// Import these transfers into the database at a path, in the background.
    ImportTransfers { path: String, ids: Vec<String> },
    ImportOne(String),
    /// Import everything into the database at a path, in the background.
    ImportAll { path: String, check_balances: bool },
}

/// The meaning of what is to be done.
#[verifier::ext_equal]
pub ghost enum StagedDuty {
    Nothing,
    ImportTransfer(Seq<char>),
    RejectTransfer(Seq<char>),
    ImportTransfers(Seq<char>, Seq<Seq<char>>),
    ImportOne(Seq<char>),
    ImportAll(Seq<char>, bool),
}

impl View for StagedTask {
    type V = StagedDuty;

    open spec fn view(&self) -> StagedDuty {
        match self {
            StagedTask::Nothing => StagedDuty::Nothing,
            StagedTask::ImportTransfer(id) => StagedDuty::ImportTransfer(id@),
            StagedTask::RejectTransfer(id) => StagedDuty::RejectTransfer(id@),
            StagedTask::ImportTransfers { path, ids } => StagedDuty::ImportTransfers(
                path@,
                text::texts(ids@),
            ),
            StagedTask::ImportOne(id) => StagedDuty::ImportOne(id@),
            StagedTask::ImportAll { path, check_balances } => StagedDuty::ImportAll(
                path@,
                *check_balances,
            ),
        }
    }
}

pub open spec fn candidate_ids(v: Seq<TransferCandidateDisplay>) -> Seq<Seq<char>> {
    v.map_values(|c: TransferCandidateDisplay| c.candidate_id@)
}

fn list_candidates(v: &Vec<TransferCandidateDisplay>) -> (r: Vec<String>)
    ensures
        text::texts(r@) == candidate_ids(v@),
        r@.len() == v@.len(),
{
    let mut out: Vec<String> = Vec::new();
    let mut i: usize = 0;
    while i < v.len()
        invariant
            i <= v@.len(),
            out@.len() == i,
            text::texts(out@) =~= candidate_ids(v@.take(i as int)),
        decreases v@.len() - i,
    {
        let ghost before = out@;
        out.push(v[i].candidate_id.clone());
        assert(text::texts(out@) =~= text::texts(before).push(v@[i as int].candidate_id@));
        assert(candidate_ids(v@.take(i + 1)) =~= candidate_ids(v@.take(i as int)).push(
            v@[i as int].candidate_id@,
        ));
        i = i + 1;
    }
    assert(v@.take(i as int) =~= v@);
    out
}

impl AppState {
    /// Work in the background begins.
    pub open spec fn working(self, label: Seq<char>) -> AppState {
        AppState { background: Some((label, 0)), ..self }
    }

    /// How many staged transactions and transfers there are.
    pub open spec fn staged_total(self) -> nat {
        self.plaid_staged.transfers.len() + self.plaid_staged.unmatched.len()
    }

    /// Everything that is staged is to be imported, if the path of the books is
    /// known.
    pub open spec fn importing_all(self, check_balances: bool) -> (AppState, StagedDuty) {
        match self.database_path {
            Some(path) => (
                self.working(
                    "Importing "@ + text::decimal(self.staged_total()) + " transactions..."@,
                ),
                StagedDuty::ImportAll(path, check_balances),
            ),
            None => (self, StagedDuty::Nothing),
        }
    }

    /// The program after the user asked for something for the staged
    /// transactions, and what is to be done.
    pub open spec fn after_staged(self, wish: plaid_staged::StagedWish) -> (AppState, StagedDuty) {
        match wish {
            plaid_staged::StagedWish::Nothing => (self, StagedDuty::Nothing),
            plaid_staged::StagedWish::Back => (self.staged_closed(), StagedDuty::Nothing),
            plaid_staged::StagedWish::ConfirmTransfer(id) => (self, StagedDuty::ImportTransfer(id)),
            plaid_staged::StagedWish::RejectTransfer(id) => (self, StagedDuty::RejectTransfer(id)),
            plaid_staged::StagedWish::ConfirmAllTransfers => match self.database_path {
                Some(path) => (
                    self.working(
                        "Importing "@ + text::decimal(self.plaid_staged.transfers.len())
                            + " transfers..."@,
                    ),
                    StagedDuty::ImportTransfers(path, candidate_ids(self.plaid_staged.transfers)),
                ),
                None => (self, StagedDuty::Nothing),
            },
            plaid_staged::StagedWish::ImportUnmatched(id) => (self, StagedDuty::ImportOne(id)),
            plaid_staged::StagedWish::ImportAll => self.importing_all(true),
            plaid_staged::StagedWish::ImportAllSkipBalanceCheck => self.importing_all(false),
        }
    }
}

/// What the user accepts is imported and what the user refuses is rejected: the
/// highlighted transfer among the transfers, the highlighted transaction among
/// the others. Leaving the review does nothing to the books.
pub proof fn the_highlighted_item_is_settled(s: AppState)
    ensures
        ({
            let v = s.plaid_staged;
            let yes = s.after_staged(v.after_key(crate::input::KeyCode::Enter).1).1;
            let no = s.after_staged(v.after_key(crate::input::KeyCode::Char('n')).1).1;
            let left = s.after_staged(v.after_key(crate::input::KeyCode::Esc).1).1;
            &&& v.section is Transfers && v.transfer_index < v.transfers.len() ==> yes
                == StagedDuty::ImportTransfer(
                v.transfers[v.transfer_index as int].candidate_id@,
            ) && no == StagedDuty::RejectTransfer(
                v.transfers[v.transfer_index as int].candidate_id@,
            )
            &&& v.section is Unmatched && v.unmatched_index < v.unmatched.len() ==> yes
                == StagedDuty::ImportOne(v.unmatched[v.unmatched_index as int].id@) && no
                is Nothing
            &&& left is Nothing
        }),
{
}

/// Importing all transfers imports each of them once, in order; importing
/// everything checks the balances unless the check is to be skipped.
pub proof fn everything_staged_is_imported(s: AppState, path: Seq<char>)
    requires
        s.database_path == Some(path),
    ensures
        s.after_staged(
            plaid_staged::StagedWish::ConfirmAllTransfers,
        ).1 matches StagedDuty::ImportTransfers(p, ids) && p == path && ids.len()
            == s.plaid_staged.transfers.len() && forall|i: int|
            0 <= i < ids.len() ==> #[trigger] ids[i] == s.plaid_staged.transfers[i].candidate_id@,
        s.after_staged(plaid_staged::StagedWish::ImportAll).1 == StagedDuty::ImportAll(path, true),
        s.after_staged(plaid_staged::StagedWish::ImportAllSkipBalanceCheck).1
            == StagedDuty::ImportAll(path, false),
{
}

impl App {
    fn transfer_ids(&self) -> (r: Vec<String>)
        ensures
            text::texts(r@) == candidate_ids(self@.plaid_staged.transfers),
            r@.len() == self@.plaid_staged.transfers.len(),
    {
        proof {
            reveal(App::state);
        }
        list_candidates(&self.plaid_staged.transfer_candidates)
    }

    fn count_staged(&self) -> (r: usize)
        requires
            self@.staged_total() <= usize::MAX,
        ensures
            r == self@.staged_total(),
    {
        proof {
            reveal(App::state);
        }
        self.plaid_staged.total_pending()
    }

    fn import_everything(&mut self, check_balances: bool) -> (r: StagedTask)
        requires
            old(self)@.wf(),
            old(self)@.staged_total() <= usize::MAX,
        ensures
            (final(self)@, r@) == old(self)@.importing_all(check_balances),
            final(self)@.wf(),
    {
        match self.open_path() {
            Some(path) => {
                let n = text::count(self.count_staged());
                self.start_background(text::cat3("Importing ", n.as_str(), " transactions..."));
                StagedTask::ImportAll { path, check_balances }
            },
            None => StagedTask::Nothing,
        }
    }

    /// Does what the user asked for the staged transactions; returns what is
    /// left to be done.
    pub fn handle_staged_action(&mut self, action: StagedAction) -> (r: StagedTask)
        requires
            old(self)@.wf(),
            old(self)@.staged_total() <= usize::MAX,
        ensures
            (final(self)@, r@) == old(self)@.after_staged(action@),
            final(self)@.wf(),
    {
        match action {
            StagedAction::Nothing => StagedTask::Nothing,
            StagedAction::Back => {
                self.close_staged();
                StagedTask::Nothing
            },
            StagedAction::ConfirmTransfer(id) => StagedTask::ImportTransfer(id),
            StagedAction::RejectTransfer(id) => StagedTask::RejectTransfer(id),
            StagedAction::ConfirmAllTransfers => match self.open_path() {
                Some(path) => {
                    let ids = self.transfer_ids();
                    let n = text::count(ids.len());
                    self.start_background(text::cat3("Importing ", n.as_str(), " transfers..."));
                    StagedTask::ImportTransfers { path, ids }
                },
                None => StagedTask::Nothing,
            },
            StagedAction::ImportUnmatched(id) => StagedTask::ImportOne(id),
            StagedAction::ImportAll => self.import_everything(true),
            StagedAction::ImportAllSkipBalanceCheck => self.import_everything(false),
        }
    }
}

/// What became of a staged transaction or of a transfer.
pub enum StagedDone {
    TransferImported(Result<(), String>),
    TransferRejected(Result<(), String>),
    Imported(Result<(), String>),
}

impl StagedDone {
    /// The message to the user.
    pub open spec fn message(self) -> Seq<char> {
        match self {
            StagedDone::TransferImported(result) => outcomes::told(
                result,
                "Transfer imported successfully"@,
                "Failed to import transfer: "@,
            ),
            StagedDone::TransferRejected(result) => outcomes::told(
                result,
                "Transfer candidate rejected"@,
                "Failed to reject transfer: "@,
            ),
            StagedDone::Imported(result) => outcomes::told(
                result,
                "Transaction imported"@,
                "Failed to import: "@,
            ),
        }
    }

    /// What has to be loaded again: a rejection leaves the books as they are.
    pub open spec fn reload(self) -> Reload {
        match self {
            StagedDone::TransferImported(Ok(_)) => Reload::StagedAndBooks,
            StagedDone::TransferRejected(Ok(_)) => Reload::Staged,
            StagedDone::Imported(Ok(_)) => Reload::StagedAndBooks,
            _ => Reload::Nothing,
        }
    }

    fn write_message(&self) -> (r: String)
        ensures
            r@ == self.message(),
    {
        match self {
            StagedDone::TransferImported(result) => outcomes::tell(
                result,
                text::owned("Transfer imported successfully"),
                "Failed to import transfer: ",
            ),
            StagedDone::TransferRejected(result) => outcomes::tell(
                result,
                text::owned("Transfer candidate rejected"),
                "Failed to reject transfer: ",
            ),
            StagedDone::Imported(result) => outcomes::tell(
                result,
                text::owned("Transaction imported"),
                "Failed to import: ",
            ),
        }
    }
}

impl App {
    /// Tells the user what became of a staged transaction; returns what has to
    /// be loaded again.
    pub fn staged_done(&mut self, done: &StagedDone) -> (r: Reload)
        requires
            old(self)@.wf(),
        ensures
            final(self)@ == old(self)@.staged_said(done.message()),
            final(self)@.wf(),
            r == done.reload(),
    {
        let message = done.write_message();
        self.say_staged(message);
        match done {
            StagedDone::TransferImported(Ok(_)) => Reload::StagedAndBooks,
            StagedDone::TransferRejected(Ok(_)) => Reload::Staged,
            StagedDone::Imported(Ok(_)) => Reload::StagedAndBooks,
            _ => Reload::Nothing,
        }
    }
}

/// What the import of several transfers came to, from what became of each of
/// them.
pub fn transfers_result(result: Result<Vec<Option<bool>>, String>) -> (r: BackgroundResult)
    ensures
        r matches BackgroundResult::Staged { message, all_done } && !all_done && message@ == (
        match result {
            Ok(v) => "Confirmed "@ + text::decimal(outcomes::counted(v@, true)) + " transfers, "@
                + text::decimal(outcomes::counted(v@, false)) + " errors"@,
            Err(e) => "Import failed: "@ + e@,
        }),
{
    let message = match result {
        Ok(v) => {
            let (good, bad): (usize, usize) = outcomes::tally(&v);
            let a = text::count(good);
            let b = text::count(bad);
            text::cat5("Confirmed ", a.as_str(), " transfers, ", b.as_str(), " errors")
        },
        Err(e) => text::cat2("Import failed: ", e.as_str()),
    };
    BackgroundResult::Staged { message, all_done: false }
}

/// What the import of everything came to, from how many transfers and how many
/// other transactions were imported. The review is over if any were.
pub fn import_all_result(result: Result<(u32, u32), String>) -> (r: BackgroundResult)
    ensures
        r matches BackgroundResult::Staged { message, all_done } && match result {
            Ok((transfers, unmatched)) => message@ == "Imported "@ + text::decimal(
                transfers as nat,
            ) + " transfers, "@ + text::decimal(unmatched as nat) + " unmatched"@ && all_done == (
            wrap32(transfers + unmatched) > 0),
            Err(e) => message@ == "Import failed: "@ + e@ && !all_done,
        },
{
    match result {
        Ok((transfers, unmatched)) => {
            let a = text::number(transfers as u64);
            let b = text::number(unmatched as u64);
            BackgroundResult::Staged {
                message: text::cat5(
                    "Imported ",
                    a.as_str(),
                    " transfers, ",
                    b.as_str(),
                    " unmatched",
                ),
                all_done: plus32(transfers, unmatched) > 0,
            }
        },
        Err(e) => BackgroundResult::Staged {
            message: text::cat2("Import failed: ", e.as_str()),
            all_done: false,
        },
    }
}

} // verus!
