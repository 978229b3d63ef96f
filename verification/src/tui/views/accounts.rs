//! The chart of accounts.

use vstd::prelude::*;

use crate::domain::Account;
use crate::input::KeyCode;
use crate::lists;
use crate::money;
use crate::queries::AccountBalance;
use crate::selection;
use crate::selection::Selection;
use crate::text;
use crate::tui::paint;
use crate::tui::paint::{Line, Listing, Row, RowView};
use crate::tui::theme;
use crate::tui::theme::{Color, Style};
use crate::tui::views::report_tree;
use crate::tui::views::report_tree::{Place, TreeInput};
use crate::tui::widgets;

verus! {

/// The bank account that an account is linked to.
pub struct PlaidMappingSummary {
    pub institution_name: String,
    pub mask: Option<String>,
}

/// An account and the bank account it is linked to.
pub struct PlaidMapping {
    pub account_id: String,
    pub summary: PlaidMappingSummary,
}

/// An account in its place in the chart.
pub struct TreeNode {
    pub account: Account,
    pub depth: usize,
    pub is_last_child: bool,
    pub ancestor_is_last: Vec<bool>,
}

/// The meaning of an account in its place in the chart.
#[verifier::ext_equal]
pub ghost struct ChartNode {
    pub account: Account,
    pub depth: nat,
    pub is_last: bool,
    pub ancestors: Seq<bool>,
}

impl View for TreeNode {
    type V = ChartNode;

    open spec fn view(&self) -> ChartNode {
        ChartNode {
            account: self.account,
            depth: self.depth as nat,
            is_last: self.is_last_child,
            ancestors: self.ancestor_is_last@,
        }
    }
}

/// The accounts as nodes of a tree.
pub open spec fn account_nodes(v: Seq<Account>) -> Seq<report_tree::TreeNode> {
    v.map_values(
        |a: Account|
            report_tree::TreeNode {
                id: a.id@,
                number: a.account_number@,
                name: a.name@,
                parent: text::opt_text(a.parent_id),
                balance: 0,
            },
    )
}

/// The chart of some accounts.
pub open spec fn chart_of(v: Seq<Account>) -> Seq<ChartNode> {
    report_tree::chart(account_nodes(v)).map_values(
        |p: Place|
            ChartNode {
                account: v[p.index],
                depth: p.depth,
                is_last: p.is_last,
                ancestors: p.ancestors,
            },
    )
}

/// The chart of accounts screen.
pub struct AccountsView {
    pub accounts: Vec<Account>,
    pub balances: Vec<AccountBalance>,
    /// Later entries for an account replace earlier ones.
    pub plaid_mappings: Vec<PlaidMapping>,
    pub state: Selection,
    /// The account whose ledger is to be opened.
    pub selected_account: Option<Account>,
    pub tree_nodes: Vec<TreeNode>,
}

/// The meaning of the chart of accounts screen.
#[verifier::ext_equal]
pub ghost struct AccountsState {
    pub accounts: Seq<Account>,
    pub balances: Seq<AccountBalance>,
    pub plaid_mappings: Seq<PlaidMapping>,
    pub state: Selection,
    pub selected_account: Option<Account>,
    pub nodes: Seq<ChartNode>,
}

impl AccountsState {
    /// The state of a new screen.
    pub open spec fn fresh() -> AccountsState {
        AccountsState {
            accounts: Seq::empty(),
            balances: Seq::empty(),
            plaid_mappings: Seq::empty(),
            state: Selection::none(),
            selected_account: None,
            nodes: Seq::empty(),
        }
    }
}

impl View for AccountsView {
    type V = AccountsState;

    open spec fn view(&self) -> AccountsState {
        AccountsState {
            accounts: self.accounts@,
            balances: self.balances@,
            plaid_mappings: self.plaid_mappings@,
            state: self.state,
            selected_account: self.selected_account,
            nodes: self.tree_nodes@.map_values(|n: TreeNode| n@),
        }
    }
}

/// The selection kept inside a list of `n` items; with items one is always
/// highlighted.
pub open spec fn refitted(s: Selection, n: nat) -> Selection {
    if n == 0 {
        s.moved(None)
    } else {
        match s.selected {
            None => s.moved(Some(0)),
            Some(i) => if i >= n {
                s.moved(Some((n - 1) as usize))
            } else {
                s
            },
        }
    }
}

/// Keeps a selection inside a list of `n` items.
pub fn refit(s: Selection, n: usize) -> (r: Selection)
    ensures
        r == refitted(s, n as nat),
{
    if n == 0 {
        s.moved(None)
    } else {
        match s.selected {
            None => s.moved(Some(0)),
            Some(i) => if i >= n {
                s.moved(Some(n - 1))
            } else {
                s
            },
        }
    }
}

impl AccountsState {
    pub open spec fn with_accounts(self, accounts: Seq<Account>) -> AccountsState {
        let nodes = chart_of(accounts);
        AccountsState { accounts, nodes, state: refitted(self.state, nodes.len()), ..self }
    }

    /// The highlighted account.
    pub open spec fn current(self) -> Option<Account> {
        match self.state.selected {
            Some(i) => if i < self.nodes.len() {
                Some(self.nodes[i as int].account)
            } else {
                None
            },
            None => None,
        }
    }

    pub open spec fn moved(self, i: usize) -> AccountsState {
        AccountsState { state: self.state.moved(Some(i)), ..self }
    }

    pub open spec fn after_key(self, key: KeyCode) -> AccountsState {
        let n = self.nodes.len();
        match key {
            KeyCode::Up | KeyCode::Char('k') => if n == 0 {
                self
            } else {
                self.moved(
                    match self.state.selected {
                        Some(i) => selection::up_around(Some(i), n),
                        None => 0,
                    },
                )
            },
            KeyCode::Down | KeyCode::Char('j') => if n == 0 {
                self
            } else {
                self.moved(selection::down_around(self.state.selected, n))
            },
            KeyCode::Home => if n == 0 {
                self
            } else {
                self.moved(0)
            },
            KeyCode::End => if n == 0 {
                self
            } else {
                self.moved((n - 1) as usize)
            },
            KeyCode::Enter => match self.current() {
                Some(a) => AccountsState { selected_account: Some(a), ..self },
                None => self,
            },
            _ => self,
        }
    }

    /// The balance of an account; nothing if none is known.
    pub open spec fn balance_of(self, id: Seq<char>) -> int {
        match lists::first_position(
            self.balances.len(),
            |i: int| self.balances[i].account_id@ == id,
        ) {
            Some(i) => self.balances[i as int].balance as int,
            None => 0,
        }
    }

    /// The bank account that an account is linked to, as it is shown.
    pub open spec fn mapping_text(self, id: Seq<char>) -> Seq<char> {
        match report_tree::last_position(
            self.plaid_mappings.len(),
            |i: int| self.plaid_mappings[i].account_id@ == id,
        ) {
            Some(i) => summary_text(self.plaid_mappings[i].summary),
            None => Seq::empty(),
        }
    }

    pub open spec fn row(self, node: ChartNode) -> RowView {
        let a = node.account;
        let balance = self.balance_of(a.id@);
        RowView {
            cells: paint::plain_cells(
                seq![
                    a.account_number@,
                    report_tree::tree_prefix(node.depth, node.is_last, node.ancestors) + a.name@,
                    a.account_type.title(),
                    widgets::currency(
                        if a.account_type.debit_side() {
                            balance
                        } else {
                            money::wrap64(-balance)
                        },
                    ),
                    self.mapping_text(a.id@),
                    if a.is_active {
                        "Active"@
                    } else {
                        "Inactive"@
                    },
                ],
            ),
            style: if a.is_active {
                Style::plain()
            } else {
                theme::colored(Color::DarkGray)
            },
        }
    }
}

/// The row of an account shows its number, its kind, and its balance: as it
/// stands in the books for assets and expenses, with the opposite sign for the
/// rest, and zero if no balance is known.
pub proof fn rows_show_balances(s: AccountsState, node: ChartNode)
    requires
        s.balances.len() <= usize::MAX,
    ensures
        ({
            let cells = s.row(node).cells;
            let a = node.account;
            &&& cells.len() == 6
            &&& cells[0].0 == a.account_number@
            &&& cells[2].0 == a.account_type.title()
            &&& forall|i: int|
                0 <= i < s.balances.len() && (#[trigger] s.balances[i]).account_id@ == a.id@ && (
                forall|j: int| 0 <= j < i ==> (#[trigger] s.balances[j]).account_id@ != a.id@) ==> {
                    &&& a.account_type is Asset || a.account_type is Expense ==> cells[3].0
                        == widgets::currency(s.balances[i].balance as int)
                    &&& (a.account_type is Liability || a.account_type is Equity
                        || a.account_type is Revenue) && s.balances[i].balance != i64::MIN
                        ==> cells[3].0 == widgets::currency(-s.balances[i].balance)
                }
            &&& (forall|i: int|
                0 <= i < s.balances.len() ==> (#[trigger] s.balances[i]).account_id@ != a.id@)
                ==> cells[3].0 == widgets::currency(0)
            &&& cells[5].0 == (if a.is_active {
                "Active"@
            } else {
                "Inactive"@
            })
        }),
{
    let a = node.account;
    let p = |i: int| s.balances[i].account_id@ == a.id@;
    lists::first_position_is_first(s.balances.len(), p);
    assert forall|i: int|
        0 <= i < s.balances.len() && (#[trigger] s.balances[i]).account_id@ == a.id@ && (forall|
            j: int,
        |
            0 <= j < i ==> (#[trigger] s.balances[j]).account_id@ != a.id@) implies s.balance_of(
        a.id@,
    ) == s.balances[i].balance by {
        assert(p(i));
    }
}

pub open spec fn summary_text(m: PlaidMappingSummary) -> Seq<char> {
    match m.mask {
        Some(mask) => m.institution_name@ + " ***"@ + mask@,
        None => m.institution_name@,
    }
}

/// After new accounts are set, and after any key, the highlighted position is
/// in the chart.
pub proof fn highlighted_account_exists(s: AccountsState, accounts: Seq<Account>, key: KeyCode)
    requires
        chart_of(accounts).len() <= usize::MAX,
    ensures
        ({
            let t = s.with_accounts(accounts);
            &&& t.nodes.len() > 0 ==> t.current() is Some
            &&& t.nodes.len() > 0 ==> t.after_key(key).current() is Some
        }),
{
}

/// Checks that accounts can be shown as a chart.
pub fn can_chart(accounts: &Vec<Account>) -> (r: bool)
    ensures
        r == report_tree::walkable(account_nodes(accounts@)),
{
    let inputs = account_inputs(accounts);
    report_tree::is_walkable(&inputs)
}

fn account_inputs(accounts: &Vec<Account>) -> (r: Vec<TreeInput<'_>>)
    ensures
        report_tree::nodes(r@) == account_nodes(accounts@),
{
    let mut out: Vec<TreeInput<'_>> = Vec::new();
    let mut i: usize = 0;
    assert(report_tree::nodes(out@) =~= account_nodes(accounts@.take(0)));
    while i < accounts.len()
        invariant
            i <= accounts@.len(),
            report_tree::nodes(out@) == account_nodes(accounts@.take(i as int)),
        decreases accounts@.len() - i,
    {
        let a = &accounts[i];
        let ghost sofar = out@;
        out.push(
            TreeInput {
                account_id: a.id.as_str(),
                account_number: a.account_number.as_str(),
                account_name: a.name.as_str(),
                parent_id: report_tree::parent_str(&a.parent_id),
                balance: 0,
            },
        );
        proof {
            let want = account_nodes(accounts@)[i as int];
            assert(out@.last()@ =~= want);
            assert(report_tree::nodes(out@) =~= report_tree::nodes(sofar).push(want));
            assert(account_nodes(accounts@.take(i + 1)) =~= account_nodes(
                accounts@.take(i as int),
            ).push(want));
        }
        i = i + 1;
    }
    assert(accounts@.take(i as int) =~= accounts@);
    out
}

impl AccountsView {
    pub fn new() -> (r: Self)
        ensures
            r@ == AccountsState::fresh(),
    {
        let r = AccountsView {
            accounts: Vec::new(),
            balances: Vec::new(),
            plaid_mappings: Vec::new(),
            state: Selection::none(),
            selected_account: None,
            tree_nodes: Vec::new(),
        };
        assert(r@.nodes =~= Seq::<ChartNode>::empty());
        r
    }

    /// Takes over the accounts and builds their chart.
    pub fn set_accounts(&mut self, accounts: Vec<Account>)
        requires
            report_tree::walkable(account_nodes(accounts@)),
        ensures
            final(self)@ == old(self)@.with_accounts(accounts@),
    {
        self.accounts = accounts;
        self.rebuild_tree();
        self.state = refit(self.state, self.tree_nodes.len());
    }

    fn rebuild_tree(&mut self)
        requires
            report_tree::walkable(account_nodes(old(self).accounts@)),
        ensures
            final(self)@ == (AccountsState {
                nodes: chart_of(old(self).accounts@),
                ..old(self)@
            }),
    {
        let placed = {
            let inputs = account_inputs(&self.accounts);
            let placed = report_tree::place_accounts(&inputs);
            assert(inputs@.len() == self.accounts@.len()) by {
                assert(report_tree::nodes(inputs@).len() == inputs@.len());
                assert(account_nodes(self.accounts@).len() == self.accounts@.len());
            }
            placed
        };
        let mut nodes: Vec<TreeNode> = Vec::new();
        let ghost view = |n: TreeNode| n@;
        let ghost f = |p: Place|
            ChartNode {
                account: self.accounts@[p.index],
                depth: p.depth,
                is_last: p.is_last,
                ancestors: p.ancestors,
            };
        let mut i: usize = 0;
        while i < placed.len()
            invariant
                i <= placed@.len(),
                view == (|n: TreeNode| n@),
                f == (|p: Place|
                    ChartNode {
                        account: self.accounts@[p.index],
                        depth: p.depth,
                        is_last: p.is_last,
                        ancestors: p.ancestors,
                    }),
                forall|k: int|
                    0 <= k < placed@.len() ==> (#[trigger] placed@[k]).index
                        < self.accounts@.len(),
                nodes@.map_values(view) =~= report_tree::places(placed@.take(i as int)).map_values(
                    f,
                ),
            decreases placed@.len() - i,
        {
            let p = &placed[i];
            let ghost before = nodes@;
            let node = TreeNode {
                account: self.accounts[p.index].duplicate(),
                depth: p.depth,
                is_last_child: p.is_last_child,
                ancestor_is_last: report_tree::copy_flags(&p.ancestor_is_last),
            };
            assert(node@ =~= f(p@));
            nodes.push(node);
            proof {
                assert(nodes@.map_values(view) =~= before.map_values(view).push(node@));
                assert(report_tree::places(placed@.take(i + 1)) =~= report_tree::places(
                    placed@.take(i as int),
                ).push(p@));
            }
            i = i + 1;
        }
        assert(placed@.take(i as int) =~= placed@);
        self.tree_nodes = nodes;
    }

    pub fn handle_key(&mut self, key: KeyCode)
        ensures
            final(self)@ == old(self)@.after_key(key),
    {
        let n: usize = self.tree_nodes.len();
        match key {
            KeyCode::Up | KeyCode::Char('k') => {
                if n > 0 {
                    let i: usize = match self.state.selected {
                        Some(i) => selection::move_up_around(Some(i), n),
                        None => 0,
                    };
                    self.state = self.state.moved(Some(i));
                }
            },
            KeyCode::Down | KeyCode::Char('j') => {
                if n > 0 {
                    let i: usize = selection::move_down_around(self.state.selected, n);
                    self.state = self.state.moved(Some(i));
                }
            },
            KeyCode::Home => {
                if n > 0 {
                    self.state = self.state.moved(Some(0));
                }
            },
            KeyCode::End => {
                if n > 0 {
                    self.state = self.state.moved(Some(n - 1));
                }
            },
            KeyCode::Enter => {
                self.select_current();
            },
            _ => {},
        }
    }

    fn select_current(&mut self)
        ensures
            final(self)@ == (match old(self)@.current() {
                Some(a) => AccountsState { selected_account: Some(a), ..old(self)@ },
                None => old(self)@,
            }),
    {
        if let Some(i) = self.state.selected {
            if i < self.tree_nodes.len() {
                assert(self@.nodes[i as int] == self.tree_nodes@[i as int]@);
                self.selected_account = Some(self.tree_nodes[i].account.duplicate());
            }
        }
    }

    /// The highlighted account.
    pub fn get_selected_account(&self) -> (r: Option<&Account>)
        ensures
            r is Some <==> self@.current() is Some,
            r is Some ==> *r->0 == self@.current()->0,
    {
        match self.state.selected {
            Some(i) => if i < self.tree_nodes.len() {
                assert(self@.nodes[i as int] == self.tree_nodes@[i as int]@);
                Some(&self.tree_nodes[i].account)
            } else {
                None
            },
            None => None,
        }
    }

    /// Hands over the account whose ledger is to be opened, once.
    pub fn take_selected_account(&mut self) -> (r: Option<Account>)
        ensures
            r == old(self).selected_account,
            final(self)@ == (AccountsState { selected_account: None, ..old(self)@ }),
    {
        self.selected_account.take()
    }

    fn get_balance(&self, account_id: &str) -> (r: i64)
        ensures
            r == self@.balance_of(account_id@),
    {
        let ghost p = |i: int| self@.balances[i].account_id@ == account_id@;
        let mut i: usize = 0;
        while i < self.balances.len()
            invariant
                i <= self.balances@.len(),
                p == (|i: int| self@.balances[i].account_id@ == account_id@),
                forall|j: int| 0 <= j < i ==> !#[trigger] p(j),
            decreases self.balances@.len() - i,
        {
            let found: bool = text::same_text(self.balances[i].account_id.as_str(), account_id);
            assert(found == p(i as int));
            if found {
                proof {
                    lists::first_position_is_first(self.balances@.len(), p);
                }
                return self.balances[i].balance;
            }
            i = i + 1;
        }
        proof {
            lists::first_position_is_first(self.balances@.len(), p);
        }
        0
    }

    fn show_mapping(&self, account_id: &str) -> (r: String)
        ensures
            r@ == self@.mapping_text(account_id@),
    {
        let ghost p = |i: int| self@.plaid_mappings[i].account_id@ == account_id@;
        let n: usize = self.plaid_mappings.len();
        let mut i: usize = n;
        while i > 0
            invariant
                i <= n,
                n == self.plaid_mappings@.len(),
                p == (|i: int| self@.plaid_mappings[i].account_id@ == account_id@),
                report_tree::last_position(n as nat, p) == report_tree::last_position(i as nat, p),
            decreases i,
        {
            let m = &self.plaid_mappings[i - 1];
            let found: bool = text::same_text(m.account_id.as_str(), account_id);
            assert(found == p(i - 1));
            if found {
                return match &m.summary.mask {
                    Some(mask) => text::cat3(
                        m.summary.institution_name.as_str(),
                        " ***",
                        mask.as_str(),
                    ),
                    None => m.summary.institution_name.clone(),
                };
            }
            i = i - 1;
        }
        String::new()
    }

    fn draw_row(&self, node: &TreeNode) -> (r: Row)
        ensures
            r@ == self@.row(node@),
    {
        let a = &node.account;
        let balance: i64 = self.get_balance(a.id.as_str());
        let shown: i64 = if a.account_type.is_debit_side() {
            balance
        } else {
            money::negated(balance)
        };
        let prefix = report_tree::make_tree_prefix(
            node.depth,
            node.is_last_child,
            &node.ancestor_is_last,
        );
        let mut line: Line = Listing::new();
        paint::push_str(&mut line, a.account_number.as_str());
        paint::push_text(&mut line, text::cat2(prefix.as_str(), a.name.as_str()));
        paint::push_str(&mut line, a.account_type.label());
        paint::push_text(&mut line, widgets::format_currency(shown));
        paint::push_text(&mut line, self.show_mapping(a.id.as_str()));
        paint::push_str(
            &mut line,
            if a.is_active {
                "Active"
            } else {
                "Inactive"
            },
        );
        assert(line@ =~= self@.row(node@).cells);
        paint::row(
            line,
            if a.is_active {
                Style::plain()
            } else {
                theme::colored(Color::DarkGray)
            },
        )
    }

    /// Draws the rows of the chart.
    pub fn draw(&self) -> (r: Listing<Row>)
        ensures
            r@ == self@.nodes.map_values(|n: ChartNode| self@.row(n)),
    {
        let mut rows: Listing<Row> = Listing::new();
        let mut i: usize = 0;
        let ghost f = |n: ChartNode| self@.row(n);
        while i < self.tree_nodes.len()
            invariant
                i <= self.tree_nodes@.len(),
                f == (|n: ChartNode| self@.row(n)),
                rows@ =~= self@.nodes.take(i as int).map_values(f),
            decreases self.tree_nodes@.len() - i,
        {
            rows.push(self.draw_row(&self.tree_nodes[i]));
            i = i + 1;
        }
        assert(self@.nodes.take(i as int) =~= self@.nodes);
        rows
    }
}

impl Default for AccountsView {
    fn default() -> (r: Self)
        ensures
            r@ == AccountsState::fresh(),
    {
        Self::new()
    }
}

} // verus!
