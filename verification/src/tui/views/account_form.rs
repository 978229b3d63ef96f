//! The form for a new account, or for changing one.

use vstd::prelude::*;

use crate::domain;
use crate::domain::{Account, AccountType};
use crate::input::KeyCode;
use crate::lists;
use crate::selection;
use crate::selection::Selection;
use crate::text;
use crate::tui::paint;
use crate::tui::paint::{Line, LineView, Listing, Rect};
use crate::tui::theme;
use crate::tui::theme::Theme;
use crate::tui::views::entry_form;
use crate::tui::widgets;
use crate::tui::widgets::{FieldPainting, FieldView};

verus! {

/// What the form was closed with.
pub enum AccountFormResult {
    Nothing,
    Cancel,
    Create(NewAccountData),
    Update(UpdateAccountData),
}

/// An account to be created.
pub struct NewAccountData {
    pub account_type: AccountType,
    pub account_number: String,
    pub name: String,
    pub parent_id: Option<String>,
    pub description: Option<String>,
}

/// An account to be changed.
pub struct UpdateAccountData {
    pub account_id: String,
    pub account_number: String,
    pub name: String,
    pub parent_id: Option<String>,
    pub description: Option<String>,
}

/// The meaning of what the form was closed with.
#[verifier::ext_equal]
pub ghost enum AccountOutcome {
    Nothing,
    Cancel,
    Create {
        account_type: AccountType,
        number: Seq<char>,
        name: Seq<char>,
        parent: Option<Seq<char>>,
        description: Option<Seq<char>>,
    },
    Update {
        id: Seq<char>,
        number: Seq<char>,
        name: Seq<char>,
        parent: Option<Seq<char>>,
        description: Option<Seq<char>>,
    },
}

impl View for AccountFormResult {
    type V = AccountOutcome;

    open spec fn view(&self) -> AccountOutcome {
        match self {
            AccountFormResult::Nothing => AccountOutcome::Nothing,
            AccountFormResult::Cancel => AccountOutcome::Cancel,
            AccountFormResult::Create(d) => AccountOutcome::Create {
                account_type: d.account_type,
                number: d.account_number@,
                name: d.name@,
                parent: text::opt_text(d.parent_id),
                description: text::opt_text(d.description),
            },
            AccountFormResult::Update(d) => AccountOutcome::Update {
                id: d.account_id@,
                number: d.account_number@,
                name: d.name@,
                parent: text::opt_text(d.parent_id),
                description: text::opt_text(d.description),
            },
        }
    }
}

/// The fields of the form.
#[derive(Debug, Clone, Copy, PartialEq, Eq, Structural)]
pub enum FormField {
    AccountType,
    AccountNumber,
    Name,
    Parent,
    Description,
}

impl FormField {
    pub open spec fn following(self) -> FormField {
        match self {
            FormField::AccountType => FormField::AccountNumber,
            FormField::AccountNumber => FormField::Name,
            FormField::Name => FormField::Parent,
            FormField::Parent => FormField::Description,
            FormField::Description => FormField::AccountType,
        }
    }

    pub open spec fn preceding(self) -> FormField {
        match self {
            FormField::AccountType => FormField::Description,
            FormField::AccountNumber => FormField::AccountType,
            FormField::Name => FormField::AccountNumber,
            FormField::Parent => FormField::Name,
            FormField::Description => FormField::Parent,
        }
    }

    pub fn next(&self) -> (r: Self)
        ensures
            r == self.following(),
    {
        match self {
            FormField::AccountType => FormField::AccountNumber,
            FormField::AccountNumber => FormField::Name,
            FormField::Name => FormField::Parent,
            FormField::Parent => FormField::Description,
            FormField::Description => FormField::AccountType,
        }
    }

    pub fn prev(&self) -> (r: Self)
        ensures
            r == self.preceding(),
    {
        match self {
            FormField::AccountType => FormField::Description,
            FormField::AccountNumber => FormField::AccountType,
            FormField::Name => FormField::AccountNumber,
            FormField::Parent => FormField::Name,
            FormField::Description => FormField::Parent,
        }
    }
}

/// Tab and Shift-Tab undo each other and go through all five fields.
pub proof fn fields_form_a_cycle(f: FormField)
    ensures
        f.following().preceding() == f,
        f.preceding().following() == f,
        f.following().following().following().following().following() == f,
        f.following() != f,
{
}

/// The kinds of accounts in the order they are offered.
pub const ACCOUNT_TYPES: [AccountType; 5] = [
    AccountType::Asset,
    AccountType::Liability,
    AccountType::Equity,
    AccountType::Revenue,
    AccountType::Expense,
];

/// The kind of account offered at a place.
pub open spec fn type_at(i: int) -> AccountType {
    if i == 0 {
        AccountType::Asset
    } else if i == 1 {
        AccountType::Liability
    } else if i == 2 {
        AccountType::Equity
    } else if i == 3 {
        AccountType::Revenue
    } else {
        AccountType::Expense
    }
}

/// The place a kind of account is offered at.
pub open spec fn place_of_type(t: AccountType) -> usize {
    match t {
        AccountType::Asset => 0,
        AccountType::Liability => 1,
        AccountType::Equity => 2,
        AccountType::Revenue => 3,
        AccountType::Expense => 4,
    }
}

fn find_type(t: AccountType) -> (r: usize)
    ensures
        r == place_of_type(t),
        r < 5,
{
    match t {
        AccountType::Asset => 0,
        AccountType::Liability => 1,
        AccountType::Equity => 2,
        AccountType::Revenue => 3,
        AccountType::Expense => 4,
    }
}

fn type_of(i: usize) -> (r: AccountType)
    requires
        i < 5,
    ensures
        r == type_at(i as int),
{
    ACCOUNT_TYPES[i]
}

/// Each kind of account is found at the place it is offered at.
pub proof fn types_are_where_they_are_offered(t: AccountType, i: int)
    requires
        0 <= i < 5,
    ensures
        type_at(place_of_type(t) as int) == t,
        place_of_type(type_at(i)) == i,
{
}

/// The form.
pub struct AccountForm {
    pub visible: bool,
    pub result: AccountFormResult,
    /// The account that is changed; none if one is created.
    pub editing_account_id: Option<String>,
    pub active_field: FormField,
    pub account_type_index: usize,
    pub account_number: String,
    pub name: String,
    /// Zero stands for no parent, other numbers for the accounts in order.
    pub parent_index: usize,
    pub description: String,
    pub available_parents: Vec<Account>,
    pub error_message: Option<String>,
    pub type_list_state: Selection,
    pub parent_list_state: Selection,
    pub show_type_dropdown: bool,
    pub show_parent_dropdown: bool,
    pub parent_filter: String,
}

/// The meaning of the form.
#[verifier::ext_equal]
pub ghost struct AccountFormState {
    pub visible: bool,
    pub result: AccountOutcome,
    pub editing: Option<Seq<char>>,
    pub active_field: FormField,
    pub account_type_index: int,
    pub account_number: Seq<char>,
    pub name: Seq<char>,
    pub parent_index: int,
    pub description: Seq<char>,
    pub available_parents: Seq<Account>,
    pub error_message: Option<Seq<char>>,
    pub type_list_state: Selection,
    pub parent_list_state: Selection,
    pub show_type_dropdown: bool,
    pub show_parent_dropdown: bool,
    pub parent_filter: Seq<char>,
}

impl AccountFormState {
    /// The state of a new screen.
    pub open spec fn fresh() -> AccountFormState {
        AccountFormState {
            visible: false,
            result: AccountOutcome::Nothing,
            editing: None,
            active_field: FormField::AccountType,
            account_type_index: 0,
            account_number: Seq::empty(),
            name: Seq::empty(),
            parent_index: 0,
            description: Seq::empty(),
            available_parents: Seq::empty(),
            error_message: None,
            type_list_state: Selection::at(0),
            parent_list_state: Selection::at(0),
            show_type_dropdown: false,
            show_parent_dropdown: false,
            parent_filter: Seq::empty(),
        }
    }
}

impl View for AccountForm {
    type V = AccountFormState;

    open spec fn view(&self) -> AccountFormState {
        AccountFormState {
            visible: self.visible,
            result: self.result@,
            editing: text::opt_text(self.editing_account_id),
            active_field: self.active_field,
            account_type_index: self.account_type_index as int,
            account_number: self.account_number@,
            name: self.name@,
            parent_index: self.parent_index as int,
            description: self.description@,
            available_parents: self.available_parents@,
            error_message: text::opt_text(self.error_message),
            type_list_state: self.type_list_state,
            parent_list_state: self.parent_list_state,
            show_type_dropdown: self.show_type_dropdown,
            show_parent_dropdown: self.show_parent_dropdown,
            parent_filter: self.parent_filter@,
        }
    }
}

/// Whether an account is offered as a parent under a filter in lower case.
pub open spec fn parent_fits(a: Account, lower: Seq<char>) -> bool {
    text::has_text(text::lowercase(a.account_number@), lower) || text::has_text(
        text::lowercase(a.name@),
        lower,
    )
}

/// The accounts except one.
pub open spec fn others(accounts: Seq<Account>, id: Seq<char>) -> Seq<Account>
    decreases accounts.len(),
{
    if accounts.len() == 0 {
        Seq::empty()
    } else {
        let before = others(accounts.drop_last(), id);
        if accounts.last().id@ == id {
            before
        } else {
            before.push(accounts.last())
        }
    }
}

/// The place of a parent in the list that starts with "no parent".
pub open spec fn parent_place(accounts: Seq<Account>, parent: Option<Seq<char>>) -> int {
    match parent {
        Some(id) => match domain::place_of(accounts, id) {
            Some(i) => i + 1,
            None => 0,
        },
        None => 0,
    }
}

impl AccountFormState {
    /// The kind of account is one of those offered.
    pub open spec fn wf(self) -> bool {
        &&& 0 <= self.account_type_index < 5
        &&& self.type_list_state.selected is Some ==> self.type_list_state.selected->0 < 5
        &&& self.available_parents.len() < usize::MAX
    }

    /// The places offered in the list of parents.
    pub open spec fn filtered(self) -> Seq<usize> {
        let n = self.available_parents.len();
        let lower = text::lowercase(self.parent_filter);
        if self.parent_filter.len() == 0 {
            Seq::new(n + 1, |i: int| i as usize)
        } else {
            let first: Seq<usize> = if text::has_text("none"@, lower) {
                seq![0]
            } else {
                Seq::empty()
            };
            first + lists::positions(
                n,
                |i: int| parent_fits(self.available_parents[i], lower),
            ).map_values(|i: usize| (i + 1) as usize)
        }
    }

    pub open spec fn shown_new(
        self,
        accounts: Seq<Account>,
        account_type: Option<AccountType>,
        parent: Option<Seq<char>>,
        number: Seq<char>,
    ) -> AccountFormState {
        let t = match account_type {
            Some(t) => place_of_type(t),
            None => 0,
        };
        let p = parent_place(accounts, parent);
        AccountFormState {
            visible: true,
            result: AccountOutcome::Nothing,
            editing: None,
            active_field: FormField::AccountType,
            account_type_index: t as int,
            account_number: number,
            name: Seq::empty(),
            parent_index: p,
            description: Seq::empty(),
            available_parents: accounts,
            error_message: None,
            type_list_state: self.type_list_state.moved(Some(t)),
            parent_list_state: self.parent_list_state.moved(Some(p as usize)),
            show_type_dropdown: false,
            show_parent_dropdown: false,
            parent_filter: Seq::empty(),
        }
    }

    /// The form filled with an account; it is no parent of itself.
    pub open spec fn shown_edit(self, a: Account, accounts: Seq<Account>) -> AccountFormState {
        let t = place_of_type(a.account_type);
        let parents = others(accounts, a.id@);
        let p = parent_place(parents, text::opt_text(a.parent_id));
        AccountFormState {
            visible: true,
            result: AccountOutcome::Nothing,
            editing: Some(a.id@),
            active_field: FormField::AccountNumber,
            account_type_index: t as int,
            account_number: a.account_number@,
            name: a.name@,
            parent_index: p,
            description: text::text_or_empty(a.description),
            available_parents: parents,
            error_message: None,
            type_list_state: self.type_list_state.moved(Some(t)),
            parent_list_state: self.parent_list_state.moved(Some(p as usize)),
            show_type_dropdown: false,
            show_parent_dropdown: false,
            parent_filter: Seq::empty(),
        }
    }

    /// The list of parents closed.
    pub open spec fn parent_closed(self) -> AccountFormState {
        AccountFormState { show_parent_dropdown: false, parent_filter: Seq::empty(), ..self }
    }

    /// Leaving a field closes the list of parents.
    pub open spec fn field_left(self) -> AccountFormState {
        if self.active_field == FormField::Parent {
            self.parent_closed()
        } else {
            self
        }
    }

    pub open spec fn type_place(self) -> usize {
        match self.type_list_state.selected {
            Some(i) => i,
            None => 0,
        }
    }

    pub open spec fn after_type_key(self, key: KeyCode) -> AccountFormState {
        match key {
            KeyCode::Esc => AccountFormState { show_type_dropdown: false, ..self },
            KeyCode::Enter => AccountFormState {
                account_type_index: match self.type_list_state.selected {
                    Some(i) => i as int,
                    None => self.account_type_index,
                },
                show_type_dropdown: false,
                ..self
            },
            KeyCode::Up | KeyCode::Char('k') => AccountFormState {
                type_list_state: self.type_list_state.moved(
                    Some(selection::up_around(Some(self.type_place()), 5)),
                ),
                ..self
            },
            KeyCode::Down | KeyCode::Char('j') => AccountFormState {
                type_list_state: self.type_list_state.moved(
                    Some(selection::down_around(Some(self.type_place()), 5)),
                ),
                ..self
            },
            _ => self,
        }
    }

    /// The first parent that matches the filter chosen.
    pub open spec fn first_match(self) -> AccountFormState {
        if self.filtered().len() > 0 {
            AccountFormState {
                parent_list_state: self.parent_list_state.moved(Some(0)),
                parent_index: self.filtered()[0] as int,
                ..self
            }
        } else {
            self
        }
    }

    pub open spec fn parent_list_place(self) -> usize {
        match self.parent_list_state.selected {
            Some(i) => i,
            None => 0,
        }
    }

    /// The next or the previous parent that matches the filter chosen.
    pub open spec fn next_match(self, down: bool) -> AccountFormState {
        let n = self.filtered().len();
        if n == 0 {
            self
        } else {
            let i = if down {
                selection::down_around(Some(self.parent_list_place()), n)
            } else {
                selection::up_around(Some(self.parent_list_place()), n)
            };
            AccountFormState {
                parent_list_state: self.parent_list_state.moved(Some(i)),
                parent_index: if i < n {
                    self.filtered()[i as int] as int
                } else {
                    self.parent_index
                },
                ..self
            }
        }
    }

    pub open spec fn after_parent_key(self, key: KeyCode) -> AccountFormState {
        match key {
            KeyCode::Esc => self.parent_closed(),
            KeyCode::Enter => AccountFormState {
                parent_index: match self.parent_list_state.selected {
                    Some(i) => if i < self.filtered().len() {
                        self.filtered()[i as int] as int
                    } else {
                        self.parent_index
                    },
                    None => self.parent_index,
                },
                ..self.parent_closed()
            },
            KeyCode::Up => self.next_match(false),
            KeyCode::Down => self.next_match(true),
            KeyCode::Backspace => (AccountFormState {
                parent_filter: text::without_last(self.parent_filter),
                ..self
            }).first_match(),
            KeyCode::Char(c) => (AccountFormState {
                parent_filter: self.parent_filter.push(c),
                ..self
            }).first_match(),
            _ => self,
        }
    }

    /// A key in the parent field while its list is closed.
    pub open spec fn after_parent_field_key(self, key: KeyCode) -> AccountFormState {
        match key {
            KeyCode::Char(c) => AccountFormState {
                error_message: None,
                ..(AccountFormState {
                    show_parent_dropdown: true,
                    parent_filter: self.parent_filter.push(c),
                    ..self
                }).first_match()
            },
            KeyCode::Backspace => AccountFormState {
                error_message: None,
                ..if self.parent_filter.len() > 0 {
                    (AccountFormState {
                        parent_filter: text::without_last(self.parent_filter),
                        ..self
                    }).first_match()
                } else {
                    self
                }
            },
            KeyCode::Up => (AccountFormState { show_parent_dropdown: true, ..self }).next_match(
                false,
            ),
            KeyCode::Down => (AccountFormState { show_parent_dropdown: true, ..self }).next_match(
                true,
            ),
            _ => self,
        }
    }

    pub open spec fn field_text(self) -> Seq<char> {
        match self.active_field {
            FormField::AccountNumber => self.account_number,
            FormField::Name => self.name,
            FormField::Description => self.description,
            _ => Seq::empty(),
        }
    }

    pub open spec fn with_field(self, s: Seq<char>) -> AccountFormState {
        match self.active_field {
            FormField::AccountNumber => AccountFormState {
                account_number: s,
                error_message: None,
                ..self
            },
            FormField::Name => AccountFormState { name: s, error_message: None, ..self },
            FormField::Description => AccountFormState {
                description: s,
                error_message: None,
                ..self
            },
            _ => self,
        }
    }

    pub open spec fn after_field_key(self, key: KeyCode) -> AccountFormState {
        if self.active_field == FormField::Parent {
            self.after_parent_field_key(key)
        } else {
            match key {
                KeyCode::Char(c) => self.with_field(self.field_text().push(c)),
                KeyCode::Backspace => self.with_field(text::without_last(self.field_text())),
                _ => self,
            }
        }
    }

    /// The identifier of the chosen parent.
    pub open spec fn parent_id(self) -> Option<Seq<char>> {
        if 0 < self.parent_index <= self.available_parents.len() {
            Some(self.available_parents[self.parent_index - 1].id@)
        } else {
            None
        }
    }

    pub open spec fn submitted(self) -> AccountFormState {
        let number = text::trimmed(self.account_number);
        let name = text::trimmed(self.name);
        let description = entry_form::given(self.description);
        if number.len() == 0 {
            AccountFormState {
                error_message: Some("Account number is required"@),
                active_field: FormField::AccountNumber,
                ..self
            }
        } else if name.len() == 0 {
            AccountFormState {
                error_message: Some("Account name is required"@),
                active_field: FormField::Name,
                ..self
            }
        } else {
            AccountFormState {
                result: match self.editing {
                    Some(id) => AccountOutcome::Update {
                        id,
                        number,
                        name,
                        parent: self.parent_id(),
                        description,
                    },
                    None => AccountOutcome::Create {
                        account_type: type_at(self.account_type_index),
                        number,
                        name,
                        parent: self.parent_id(),
                        description,
                    },
                },
                ..self
            }
        }
    }

    pub open spec fn after_enter(self) -> AccountFormState {
        match self.active_field {
            FormField::AccountType => AccountFormState {
                show_type_dropdown: self.show_type_dropdown || self.editing is None,
                ..self
            },
            FormField::Parent => AccountFormState { show_parent_dropdown: true, ..self },
            _ => self.submitted(),
        }
    }

    pub open spec fn after_key(self, key: KeyCode) -> AccountFormState {
        if self.show_type_dropdown {
            self.after_type_key(key)
        } else if self.show_parent_dropdown {
            self.after_parent_key(key)
        } else {
            match key {
                KeyCode::Esc => if self.active_field == FormField::Parent
                    && self.parent_filter.len() > 0 {
                    self.parent_closed()
                } else {
                    AccountFormState { result: AccountOutcome::Cancel, ..self }
                },
                KeyCode::Tab => AccountFormState {
                    active_field: self.active_field.following(),
                    ..self.field_left()
                },
                KeyCode::BackTab => AccountFormState {
                    active_field: self.active_field.preceding(),
                    ..self.field_left()
                },
                KeyCode::Enter => self.after_enter(),
                KeyCode::Up | KeyCode::Down => if self.active_field == FormField::Parent {
                    self.after_field_key(key)
                } else if key == KeyCode::Down {
                    AccountFormState { active_field: self.active_field.following(), ..self }
                } else {
                    AccountFormState { active_field: self.active_field.preceding(), ..self }
                },
                _ => self.after_field_key(key),
            }
        }
    }
}

/// An account that is changed is not among its possible parents.
pub proof fn no_account_is_its_own_parent(accounts: Seq<Account>, id: Seq<char>)
    ensures
        others(accounts, id).len() <= accounts.len(),
        forall|i: int|
            0 <= i < others(accounts, id).len() ==> (#[trigger] others(accounts, id)[i]).id@ != id,
    decreases accounts.len(),
{
    if accounts.len() > 0 {
        no_account_is_its_own_parent(accounts.drop_last(), id);
    }
}

/// The form makes or changes an account exactly if its number and its name are
/// not blank. A new account gets the chosen type, an existing one is changed
/// under its own identifier; both get what was typed without surrounding white
/// space, and the chosen parent, if any.
pub proof fn accounts_are_submitted_as_typed(s: AccountFormState)
    requires
        s.result is Nothing,
    ensures
        ({
            let t = s.submitted();
            let number = text::trimmed(s.account_number);
            let name = text::trimmed(s.name);
            let parent = if 0 < s.parent_index <= s.available_parents.len() {
                Some(s.available_parents[s.parent_index - 1].id@)
            } else {
                None
            };
            let good = number.len() > 0 && name.len() > 0;
            &&& !good <==> t.result is Nothing
            &&& !good ==> t.error_message is Some
            &&& good && s.editing is None ==> (t.result matches AccountOutcome::Create {
                account_type: a,
                number: n,
                name: m,
                parent: p,
                description: d,
            } && a == type_at(s.account_type_index) && n == number && m == name && p == parent)
            &&& good && s.editing is Some ==> (t.result matches AccountOutcome::Update {
                id: i,
                number: n,
                name: m,
                parent: p,
                description: d,
            } && Some(i) == s.editing && n == number && m == name && p == parent)
        }),
{
}

/// What the form submits names an account: its number and its name are not
/// blank, and they are the trimmed texts of the fields.
pub proof fn submitted_accounts_are_named(s: AccountFormState)
    requires
        s.result is Nothing,
        !(s.submitted().result is Nothing),
    ensures
        match s.submitted().result {
            AccountOutcome::Create { number, name, .. } => number.len() > 0 && name.len() > 0
                && number == text::trimmed(s.account_number) && name == text::trimmed(s.name)
                && s.editing is None,
            AccountOutcome::Update { id, number, name, .. } => number.len() > 0 && name.len() > 0
                && number == text::trimmed(s.account_number) && name == text::trimmed(s.name)
                && s.editing == Some(id),
            _ => false,
        },
{
}

fn copy_others(accounts: &Vec<Account>, id: &str) -> (r: Vec<Account>)
    ensures
        r@ == others(accounts@, id@),
        r@.len() <= accounts@.len(),
{
    let mut out: Vec<Account> = Vec::new();
    let mut i: usize = 0;
    while i < accounts.len()
        invariant
            i <= accounts@.len(),
            out@ == others(accounts@.take(i as int), id@),
        decreases accounts@.len() - i,
    {
        proof {
            let upto = accounts@.take(i + 1);
            assert(upto.drop_last() =~= accounts@.take(i as int));
        }
        if !text::same_text(accounts[i].id.as_str(), id) {
            out.push(accounts[i].duplicate());
        }
        i = i + 1;
    }
    assert(accounts@.take(i as int) =~= accounts@);
    proof {
        no_account_is_its_own_parent(accounts@, id@);
    }
    out
}

impl AccountForm {
    pub fn new() -> (r: Self)
        ensures
            r@ == AccountFormState::fresh(),
            r@.wf(),
    {
        AccountForm {
            visible: false,
            result: AccountFormResult::Nothing,
            editing_account_id: None,
            active_field: FormField::AccountType,
            account_type_index: 0,
            account_number: String::new(),
            name: String::new(),
            parent_index: 0,
            description: String::new(),
            available_parents: Vec::new(),
            error_message: None,
            type_list_state: Selection::at(0),
            parent_list_state: Selection::at(0),
            show_type_dropdown: false,
            show_parent_dropdown: false,
            parent_filter: String::new(),
        }
    }

    /// Opens the form for a new account.
    pub fn show(&mut self, existing_accounts: Vec<Account>)
        requires
            existing_accounts@.len() < usize::MAX,
        ensures
            final(self)@ == old(self)@.shown_new(existing_accounts@, None, None, Seq::empty()),
            final(self)@.wf(),
    {
        self.show_with_defaults(existing_accounts, None, None, None);
    }

    /// Opens the form for a new account with some of its fields filled.
    pub fn show_with_defaults(
        &mut self,
        existing_accounts: Vec<Account>,
        account_type: Option<AccountType>,
        parent_id: Option<&str>,
        account_number: Option<String>,
    )
        requires
            existing_accounts@.len() < usize::MAX,
        ensures
            final(self)@ == old(self)@.shown_new(
                existing_accounts@,
                account_type,
                match parent_id {
                    Some(p) => Some(p@),
                    None => None,
                },
                text::text_or_empty(account_number),
            ),
            final(self)@.wf(),
    {
        let t: usize = match account_type {
            Some(t) => find_type(t),
            None => 0,
        };
        let p: usize = match parent_id {
            Some(pid) => match domain::find_account(&existing_accounts, pid) {
                Some(i) => i + 1,
                None => 0,
            },
            None => 0,
        };
        self.visible = true;
        self.result = AccountFormResult::Nothing;
        self.editing_account_id = None;
        self.active_field = FormField::AccountType;
        self.error_message = None;
        self.show_type_dropdown = false;
        self.show_parent_dropdown = false;
        self.parent_filter.clear();
        self.account_type_index = t;
        self.type_list_state = self.type_list_state.moved(Some(t));
        self.account_number = match account_number {
            Some(n) => n,
            None => String::new(),
        };
        self.name.clear();
        self.description.clear();
        self.available_parents = existing_accounts;
        self.parent_index = p;
        self.parent_list_state = self.parent_list_state.moved(Some(p));
    }

    /// Opens the form for changing an account.
    pub fn show_edit(&mut self, account: &Account, existing_accounts: Vec<Account>)
        requires
            existing_accounts@.len() < usize::MAX,
        ensures
            final(self)@ == old(self)@.shown_edit(*account, existing_accounts@),
            final(self)@.wf(),
    {
        let parents = copy_others(&existing_accounts, account.id.as_str());
        let t: usize = find_type(account.account_type);
        let p: usize = match &account.parent_id {
            Some(pid) => match domain::find_account(&parents, pid.as_str()) {
                Some(i) => i + 1,
                None => 0,
            },
            None => 0,
        };
        self.visible = true;
        self.result = AccountFormResult::Nothing;
        self.editing_account_id = Some(account.id.clone());
        self.active_field = FormField::AccountNumber;
        self.error_message = None;
        self.show_type_dropdown = false;
        self.show_parent_dropdown = false;
        self.parent_filter.clear();
        self.account_type_index = t;
        self.type_list_state = self.type_list_state.moved(Some(t));
        self.account_number = account.account_number.clone();
        self.name = account.name.clone();
        self.description = text::or_empty(&account.description);
        self.available_parents = parents;
        self.parent_index = p;
        self.parent_list_state = self.parent_list_state.moved(Some(p));
    }

    /// Whether an account is changed.
    pub fn is_editing(&self) -> (r: bool)
        ensures
            r == (self@.editing is Some),
    {
        self.editing_account_id.is_some()
    }

    /// Closes the form.
    pub fn close(&mut self)
        ensures
            final(self)@ == (AccountFormState { visible: false, ..old(self)@ }),
    {
        self.visible = false;
    }

    fn close_parents(&mut self)
        ensures
            final(self)@ == old(self)@.parent_closed(),
    {
        self.show_parent_dropdown = false;
        self.parent_filter.clear();
    }

    fn leave_field(&mut self)
        ensures
            final(self)@ == old(self)@.field_left(),
    {
        if self.active_field == FormField::Parent {
            self.close_parents();
        }
    }

    pub fn handle_key(&mut self, key: KeyCode)
        requires
            old(self)@.wf(),
        ensures
            final(self)@ == old(self)@.after_key(key),
            final(self)@.wf(),
    {
        if self.show_type_dropdown {
            self.handle_type_dropdown_key(key);
            return ;
        }
        if self.show_parent_dropdown {
            self.handle_parent_dropdown_key(key);
            return ;
        }
        match key {
            KeyCode::Esc => {
                if self.active_field == FormField::Parent
                    && self.parent_filter.as_str().unicode_len() > 0 {
                    self.close_parents();
                } else {
                    self.result = AccountFormResult::Cancel;
                }
            },
            KeyCode::Tab => {
                self.leave_field();
                self.active_field = self.active_field.next();
            },
            KeyCode::BackTab => {
                self.leave_field();
                self.active_field = self.active_field.prev();
            },
            KeyCode::Enter => {
                self.handle_enter();
            },
            KeyCode::Up => {
                if self.active_field == FormField::Parent {
                    self.handle_field_input(key);
                } else {
                    self.active_field = self.active_field.prev();
                }
            },
            KeyCode::Down => {
                if self.active_field == FormField::Parent {
                    self.handle_field_input(key);
                } else {
                    self.active_field = self.active_field.next();
                }
            },
            _ => {
                self.handle_field_input(key);
            },
        }
    }

    fn handle_enter(&mut self)
        requires
            old(self)@.wf(),
        ensures
            final(self)@ == old(self)@.after_enter(),
            final(self)@.wf(),
    {
        match self.active_field {
            FormField::AccountType => {
                if !self.is_editing() {
                    self.show_type_dropdown = true;
                }
            },
            FormField::Parent => {
                self.show_parent_dropdown = true;
            },
            _ => {
                self.submit();
            },
        }
    }

    fn handle_type_dropdown_key(&mut self, key: KeyCode)
        requires
            old(self)@.wf(),
        ensures
            final(self)@ == old(self)@.after_type_key(key),
            final(self)@.wf(),
    {
        let at: usize = match self.type_list_state.selected {
            Some(i) => i,
            None => 0,
        };
        match key {
            KeyCode::Esc => {
                self.show_type_dropdown = false;
            },
            KeyCode::Enter => {
                if let Some(i) = self.type_list_state.selected {
                    self.account_type_index = i;
                }
                self.show_type_dropdown = false;
            },
            KeyCode::Up | KeyCode::Char('k') => {
                let i: usize = selection::move_up_around(Some(at), 5);
                self.type_list_state = self.type_list_state.moved(Some(i));
            },
            KeyCode::Down | KeyCode::Char('j') => {
                let i: usize = selection::move_down_around(Some(at), 5);
                self.type_list_state = self.type_list_state.moved(Some(i));
            },
            _ => {},
        }
    }

    fn handle_parent_dropdown_key(&mut self, key: KeyCode)
        requires
            old(self)@.wf(),
        ensures
            final(self)@ == old(self)@.after_parent_key(key),
            final(self)@.wf(),
    {
        match key {
            KeyCode::Esc => {
                self.close_parents();
            },
            KeyCode::Enter => {
                if let Some(i) = self.parent_list_state.selected {
                    let filtered = self.filtered_parent_indices();
                    if i < filtered.len() {
                        self.parent_index = filtered[i];
                    }
                }
                self.close_parents();
            },
            KeyCode::Up => {
                self.navigate_filtered_parents(false);
            },
            KeyCode::Down => {
                self.navigate_filtered_parents(true);
            },
            KeyCode::Backspace => {
                self.parent_filter.pop();
                self.update_parent_selection_from_filter();
            },
            KeyCode::Char(c) => {
                self.parent_filter.push(c);
                self.update_parent_selection_from_filter();
            },
            _ => {},
        }
    }

    /// The places in the list of parents that match the filter: zero for no
    /// parent, then the accounts.
    pub fn filtered_parent_indices(&self) -> (r: Vec<usize>)
        requires
            self@.wf(),
        ensures
            r@ == self@.filtered(),
            forall|k: int|
                0 <= k < r@.len() ==> (#[trigger] r@[k]) <= self.available_parents@.len(),
    {
        let n: usize = self.available_parents.len();
        let mut out: Vec<usize> = Vec::new();
        if self.parent_filter.as_str().unicode_len() == 0 {
            let mut i: usize = 0;
            while i <= n
                invariant
                    i <= n + 1,
                    n < usize::MAX,
                    out@ =~= Seq::new(i as nat, |i: int| i as usize),
                decreases n + 1 - i,
            {
                out.push(i);
                i = i + 1;
            }
            return out;
        }
        let lower = self.parent_filter.as_str().to_lowercase();
        if text::contains("none", lower.as_str()) {
            out.push(0);
        }
        let ghost first = out@;
        let ghost p = |i: int| parent_fits(self.available_parents@[i], lower@);
        let ghost up = |i: usize| (i + 1) as usize;
        let mut i: usize = 0;
        assert(lists::positions(0, p).map_values(up) =~= Seq::<usize>::empty());
        while i < n
            invariant
                i <= n,
                n == self.available_parents@.len(),
                n < usize::MAX,
                p == (|i: int| parent_fits(self.available_parents@[i], lower@)),
                up == (|i: usize| (i + 1) as usize),
                out@ =~= first + lists::positions(i as nat, p).map_values(up),
                forall|k: int| 0 <= k < out@.len() ==> (#[trigger] out@[k]) <= n,
            decreases n - i,
        {
            let number = self.available_parents[i].account_number.as_str().to_lowercase();
            let name = self.available_parents[i].name.as_str().to_lowercase();
            let fits: bool = text::contains(number.as_str(), lower.as_str()) || text::contains(
                name.as_str(),
                lower.as_str(),
            );
            assert(fits == p(i as int));
            if fits {
                out.push(i + 1);
            }
            i = i + 1;
        }
        proof {
            let q = |i: int|
                parent_fits(self@.available_parents[i], text::lowercase(self@.parent_filter));
            assert(p =~= q);
        }
        out
    }

    fn update_parent_selection_from_filter(&mut self)
        requires
            old(self)@.wf(),
        ensures
            final(self)@ == old(self)@.first_match(),
            final(self)@.wf(),
    {
        let filtered = self.filtered_parent_indices();
        if filtered.len() > 0 {
            self.parent_list_state = self.parent_list_state.moved(Some(0));
            self.parent_index = filtered[0];
        }
    }

    fn navigate_filtered_parents(&mut self, down: bool)
        requires
            old(self)@.wf(),
        ensures
            final(self)@ == old(self)@.next_match(down),
            final(self)@.wf(),
    {
        let filtered = self.filtered_parent_indices();
        let n: usize = filtered.len();
        if n == 0 {
            return ;
        }
        let at: usize = match self.parent_list_state.selected {
            Some(i) => i,
            None => 0,
        };
        let i: usize = if down {
            selection::move_down_around(Some(at), n)
        } else {
            selection::move_up_around(Some(at), n)
        };
        self.parent_list_state = self.parent_list_state.moved(Some(i));
        if i < n {
            self.parent_index = filtered[i];
        }
    }

    fn handle_parent_field_key(&mut self, key: KeyCode)
        requires
            old(self)@.wf(),
        ensures
            final(self)@ == old(self)@.after_parent_field_key(key),
            final(self)@.wf(),
    {
        match key {
            KeyCode::Char(c) => {
                self.show_parent_dropdown = true;
                self.parent_filter.push(c);
                self.update_parent_selection_from_filter();
                self.error_message = None;
            },
            KeyCode::Backspace => {
                if self.parent_filter.as_str().unicode_len() > 0 {
                    self.parent_filter.pop();
                    self.update_parent_selection_from_filter();
                }
                self.error_message = None;
            },
            KeyCode::Up => {
                self.show_parent_dropdown = true;
                self.navigate_filtered_parents(false);
            },
            KeyCode::Down => {
                self.show_parent_dropdown = true;
                self.navigate_filtered_parents(true);
            },
            _ => {},
        }
    }

    fn handle_field_input(&mut self, key: KeyCode)
        requires
            old(self)@.wf(),
        ensures
            final(self)@ == old(self)@.after_field_key(key),
            final(self)@.wf(),
    {
        match self.active_field {
            FormField::Parent => {
                self.handle_parent_field_key(key);
            },
            FormField::AccountNumber => match key {
                KeyCode::Char(c) => {
                    self.account_number.push(c);
                    self.error_message = None;
                },
                KeyCode::Backspace => {
                    self.account_number.pop();
                    self.error_message = None;
                },
                _ => {},
            },
            FormField::Name => match key {
                KeyCode::Char(c) => {
                    self.name.push(c);
                    self.error_message = None;
                },
                KeyCode::Backspace => {
                    self.name.pop();
                    self.error_message = None;
                },
                _ => {},
            },
            FormField::Description => match key {
                KeyCode::Char(c) => {
                    self.description.push(c);
                    self.error_message = None;
                },
                KeyCode::Backspace => {
                    self.description.pop();
                    self.error_message = None;
                },
                _ => {},
            },
            FormField::AccountType => {},
        }
    }

    fn submit(&mut self)
        requires
            old(self)@.wf(),
        ensures
            final(self)@ == old(self)@.submitted(),
            final(self)@.wf(),
    {
        let number = text::trim(self.account_number.as_str());
        let name = text::trim(self.name.as_str());
        if number.as_str().unicode_len() == 0 {
            self.error_message = Some(text::owned("Account number is required"));
            self.active_field = FormField::AccountNumber;
            return ;
        }
        if name.as_str().unicode_len() == 0 {
            self.error_message = Some(text::owned("Account name is required"));
            self.active_field = FormField::Name;
            return ;
        }
        let parent_id: Option<String> = if self.parent_index > 0 && self.parent_index
            <= self.available_parents.len() {
            Some(self.available_parents[self.parent_index - 1].id.clone())
        } else {
            None
        };
        let description = entry_form::given_text(self.description.as_str());
        self.result = match &self.editing_account_id {
            Some(id) => AccountFormResult::Update(
                UpdateAccountData {
                    account_id: id.clone(),
                    account_number: number,
                    name,
                    parent_id,
                    description,
                },
            ),
            None => AccountFormResult::Create(
                NewAccountData {
                    account_type: type_of(self.account_type_index),
                    account_number: number,
                    name,
                    parent_id,
                    description,
                },
            ),
        };
    }
}

impl Default for AccountForm {
    fn default() -> (r: Self)
        ensures
            r@ == AccountFormState::fresh(),
            r@.wf(),
    {
        Self::new()
    }
}

// ---- drawing ----

/// The form as it is drawn.
pub struct AccountFormPainting {
    pub title: &'static str,
    pub account_type: FieldPainting,
    pub number: FieldPainting,
    pub name: FieldPainting,
    pub parent: FieldPainting,
    pub description: FieldPainting,
    pub help: Line,
    pub types: Option<Line>,
    pub parents: Option<ParentsPainting>,
}

/// The list of parents; without a match only a message.
pub struct ParentsPainting {
    pub title: String,
    pub items: Line,
}

pub open spec fn dropdown_field(
    label: Seq<char>,
    value: Seq<char>,
    is_active: bool,
    theme: &Theme,
) -> FieldView {
    widgets::framed(label, value + " ▼"@, is_active, theme)
}

pub open spec fn readonly_field(label: Seq<char>, value: Seq<char>, theme: &Theme) -> FieldView {
    FieldView {
        content: value,
        style: theme::colored(theme.fg_disabled),
        border_style: theme::colored(theme.fg_disabled),
        title: " "@ + label + " "@,
    }
}

impl AccountFormState {
    pub open spec fn type_field(self, theme: &Theme) -> FieldView {
        let value = type_at(self.account_type_index).title();
        if self.editing is Some {
            readonly_field("Account Type (read-only)"@, value, theme)
        } else {
            dropdown_field(
                "Account Type"@,
                value,
                self.active_field == FormField::AccountType,
                theme,
            )
        }
    }

    /// An item of the list of parents.
    pub open spec fn parent_text(self, place: int) -> Seq<char> {
        if 0 < place <= self.available_parents.len() {
            entry_form::account_text(self.available_parents[place - 1])
        } else {
            "(None)"@
        }
    }

    pub open spec fn parent_field(self, theme: &Theme) -> FieldView {
        if self.active_field == FormField::Parent && self.parent_filter.len() > 0 {
            widgets::framed(
                "Parent Account (type to search)"@,
                self.parent_filter + "█"@,
                true,
                theme,
            )
        } else {
            dropdown_field(
                "Parent Account"@,
                self.parent_text(self.parent_index),
                self.active_field == FormField::Parent,
                theme,
            )
        }
    }

    pub open spec fn help_line(self, theme: &Theme) -> LineView {
        match self.error_message {
            Some(e) => seq![(e, theme::colored(theme.error))],
            None => {
                let h = theme.header;
                let a = paint::hint(Seq::empty(), "Tab"@, ": next field  "@, h);
                let b = paint::hint(a, "Enter"@, ": select/submit  "@, h);
                paint::hint(b, "Esc"@, ": cancel"@, h)
            },
        }
    }

    pub open spec fn parents_title(self) -> Seq<char> {
        if self.parent_filter.len() == 0 {
            " Select Parent "@
        } else {
            " "@ + text::decimal(self.filtered().len()) + " matches "@
        }
    }

    pub open spec fn offered_parents(self) -> LineView {
        self.filtered().map_values(|i: usize| paint::raw_view(self.parent_text(i as int)))
    }
}

/// The kinds of accounts as they are offered.
pub open spec fn offered_types() -> LineView {
    Seq::new(5, |i: int| paint::raw_view(type_at(i).title()))
}

impl AccountForm {
    fn show_parent(&self, place: usize) -> (r: String)
        ensures
            r@ == self@.parent_text(place as int),
    {
        if place > 0 && place <= self.available_parents.len() {
            let a = &self.available_parents[place - 1];
            text::cat3(a.account_number.as_str(), " - ", a.name.as_str())
        } else {
            text::owned("(None)")
        }
    }

    fn draw_type_field(&self, theme: &Theme) -> (r: FieldPainting)
        requires
            self@.wf(),
        ensures
            r@ == self@.type_field(theme),
    {
        let kind = type_of(self.account_type_index);
        if self.is_editing() {
            FieldPainting {
                content: text::owned(kind.label()),
                style: theme::colored(theme.fg_disabled),
                border_style: theme::colored(theme.fg_disabled),
                title: text::cat3(" ", "Account Type (read-only)", " "),
            }
        } else {
            widgets::frame_field(
                "Account Type",
                text::cat2(kind.label(), " ▼"),
                self.active_field == FormField::AccountType,
                theme,
            )
        }
    }

    fn draw_parent_field(&self, theme: &Theme) -> (r: FieldPainting)
        ensures
            r@ == self@.parent_field(theme),
    {
        let active: bool = self.active_field == FormField::Parent;
        if active && self.parent_filter.as_str().unicode_len() > 0 {
            widgets::frame_field(
                "Parent Account (type to search)",
                text::cat2(self.parent_filter.as_str(), "█"),
                true,
                theme,
            )
        } else {
            let value = self.show_parent(self.parent_index);
            widgets::frame_field(
                "Parent Account",
                text::cat2(value.as_str(), " ▼"),
                active,
                theme,
            )
        }
    }

    fn draw_help(&self, theme: &Theme) -> (r: Line)
        ensures
            r@ == self@.help_line(theme),
    {
        match &self.error_message {
            Some(e) => paint::styled_line(e.as_str(), theme::colored(theme.error)),
            None => {
                let mut line: Line = Listing::new();
                paint::push_hint(&mut line, "Tab", ": next field  ", theme.header);
                paint::push_hint(&mut line, "Enter", ": select/submit  ", theme.header);
                paint::push_hint(&mut line, "Esc", ": cancel", theme.header);
                line
            },
        }
    }

    fn draw_type_dropdown(&self) -> (r: Line)
        ensures
            r@ == offered_types(),
    {
        let mut items: Line = Listing::new();
        let mut i: usize = 0;
        while i < 5
            invariant
                i <= 5,
                items@ =~= Seq::new(i as nat, |i: int| paint::raw_view(type_at(i).title())),
            decreases 5 - i,
        {
            paint::push_str(&mut items, type_of(i).label());
            i = i + 1;
        }
        items
    }

    fn draw_parent_dropdown(&self) -> (r: ParentsPainting)
        requires
            self@.wf(),
        ensures
            r.title@ == self@.parents_title(),
            r.items@ == self@.offered_parents(),
    {
        let filtered = self.filtered_parent_indices();
        let mut items: Line = Listing::new();
        let mut i: usize = 0;
        let ghost f = |i: usize| paint::raw_view(self@.parent_text(i as int));
        while i < filtered.len()
            invariant
                i <= filtered@.len(),
                f == (|i: usize| paint::raw_view(self@.parent_text(i as int))),
                items@ =~= filtered@.take(i as int).map_values(f),
            decreases filtered@.len() - i,
        {
            paint::push_text(&mut items, self.show_parent(filtered[i]));
            i = i + 1;
        }
        assert(filtered@.take(i as int) =~= filtered@);
        let title = if self.parent_filter.as_str().unicode_len() == 0 {
            text::owned(" Select Parent ")
        } else {
            let n = text::count(filtered.len());
            text::cat3(" ", n.as_str(), " matches ")
        };
        ParentsPainting { title, items }
    }

    /// Where a list of `n` items goes below the field it belongs to; without
    /// items there is room for a message.
    pub fn dropdown_area(anchor: Rect, n: usize) -> (r: Rect)
        requires
            anchor.y + anchor.height <= u16::MAX,
            n <= 65533,
        ensures
            r.x == anchor.x,
            r.y == anchor.y + anchor.height,
            r.width == anchor.width,
            r.height == (if n == 0 {
                3
            } else if n + 2 < 10 {
                n + 2
            } else {
                10
            }),
    {
        Rect {
            x: anchor.x,
            y: anchor.y + anchor.height,
            width: anchor.width,
            height: if n == 0 {
                3
            } else if n < 8 {
                n as u16 + 2
            } else {
                10
            },
        }
    }

    /// Draws the form.
    pub fn draw(&self, theme: &Theme) -> (r: AccountFormPainting)
        requires
            self@.wf(),
        ensures
            r.title@ == (if self@.editing is Some {
                " Edit Account "@
            } else {
                " New Account "@
            }),
            r.account_type@ == self@.type_field(theme),
            r.number@ == widgets::input_field(
                "Account Number"@,
                self.account_number@,
                self.active_field == FormField::AccountNumber,
                '█',
                theme,
            ),
            r.name@ == widgets::input_field(
                "Name"@,
                self.name@,
                self.active_field == FormField::Name,
                '█',
                theme,
            ),
            r.parent@ == self@.parent_field(theme),
            r.description@ == widgets::input_field(
                "Description"@,
                self.description@,
                self.active_field == FormField::Description,
                '█',
                theme,
            ),
            r.help@ == self@.help_line(theme),
            r.types is Some <==> self.show_type_dropdown,
            r.types is Some ==> r.types->0@ == offered_types(),
            r.parents is Some <==> self.show_parent_dropdown,
            r.parents is Some ==> r.parents->0.title@ == self@.parents_title()
                && r.parents->0.items@ == self@.offered_parents(),
    {
        let number = widgets::draw_input(
            "Account Number",
            self.account_number.as_str(),
            self.active_field == FormField::AccountNumber,
            '█',
            theme,
        );
        let name = widgets::draw_input(
            "Name",
            self.name.as_str(),
            self.active_field == FormField::Name,
            '█',
            theme,
        );
        let description = widgets::draw_input(
            "Description",
            self.description.as_str(),
            self.active_field == FormField::Description,
            '█',
            theme,
        );
        let types = if self.show_type_dropdown {
            Some(self.draw_type_dropdown())
        } else {
            None
        };
        let parents = if self.show_parent_dropdown {
            Some(self.draw_parent_dropdown())
        } else {
            None
        };
        AccountFormPainting {
            title: if self.is_editing() {
                " Edit Account "
            } else {
                " New Account "
            },
            account_type: self.draw_type_field(theme),
            number,
            name,
            parent: self.draw_parent_field(theme),
            description,
            help: self.draw_help(theme),
            types,
            parents,
        }
    }
}

} // verus!
