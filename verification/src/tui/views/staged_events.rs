//! Events that a service delivered and that wait to be imported.

use vstd::prelude::*;

use crate::collections::TextMap;
use crate::domain::Account;
use crate::input::KeyCode;
use crate::lists;
use crate::money;
use crate::selection;
use crate::text;
use crate::tui::paint;
use crate::tui::paint::{Line, LineView, Listing, Page, Rect, Row, RowView};
use crate::tui::theme;
use crate::tui::theme::{Color, Style, Theme};
use crate::tui::widgets;

verus! {

/// Whether a staged event can be imported.
pub enum StagedEventReadiness {
    Ready,
    /// The keys that no account is assigned to.
    NeedsMapping(Vec<String>),
}

/// A staged event as it is listed.
pub struct StagedEventDisplay {
    pub id: String,
    pub event_type: String,
    pub timestamp: String,
    pub description: String,
    pub amount_cents: Option<i64>,
    pub status: String,
    pub error_message: Option<String>,
    pub readiness: StagedEventReadiness,
}

/// What the program is to do for the screen.
pub enum ServiceStagedAction {
    Nothing,
    ImportSingle(String),
    ImportAll,
    OpenMappingEditor(String),
    SaveMapping { key: String, account_id: String },
    Back,
}

/// The meaning of what the program is to do.
#[verifier::ext_equal]
pub ghost enum StagedWish {
    Nothing,
    ImportSingle(Seq<char>),
    ImportAll,
    OpenMappingEditor(Seq<char>),
    SaveMapping { key: Seq<char>, account_id: Seq<char> },
    Back,
}

impl View for ServiceStagedAction {
    type V = StagedWish;

    open spec fn view(&self) -> StagedWish {
        match self {
            ServiceStagedAction::Nothing => StagedWish::Nothing,
            ServiceStagedAction::ImportSingle(id) => StagedWish::ImportSingle(id@),
            ServiceStagedAction::ImportAll => StagedWish::ImportAll,
            ServiceStagedAction::OpenMappingEditor(id) => StagedWish::OpenMappingEditor(id@),
            ServiceStagedAction::SaveMapping { key, account_id } => StagedWish::SaveMapping {
                key: key@,
                account_id: account_id@,
            },
            ServiceStagedAction::Back => StagedWish::Back,
        }
    }
}

/// The editor that assigns accounts to keys, one key after the other.
pub struct MappingEditorState {
    pub visible: bool,
    pub missing_keys: Vec<String>,
    pub current_key_index: usize,
    pub available_accounts: Vec<Account>,
    pub filter: String,
    pub filtered_indices: Vec<usize>,
    pub selected_index: usize,
    pub pending_assignments: TextMap,
}

/// The meaning of the editor.
#[verifier::ext_equal]
pub ghost struct EditorState {
    pub visible: bool,
    pub missing_keys: Seq<Seq<char>>,
    pub current_key_index: int,
    pub available_accounts: Seq<Account>,
    pub filter: Seq<char>,
    pub filtered: Seq<usize>,
    pub selected: usize,
    pub pending: Map<Seq<char>, Seq<char>>,
}

impl View for MappingEditorState {
    type V = EditorState;

    open spec fn view(&self) -> EditorState {
        EditorState {
            visible: self.visible,
            missing_keys: text::texts(self.missing_keys@),
            current_key_index: self.current_key_index as int,
            available_accounts: self.available_accounts@,
            filter: self.filter@,
            filtered: self.filtered_indices@,
            selected: self.selected_index,
            pending: self.pending_assignments@,
        }
    }
}

/// Whether an account is offered under a filter: it is active, and its name
/// or number holds the filter in upper or lower case.
pub open spec fn account_fits(a: Account, filter: Seq<char>) -> bool {
    let lower = text::lowercase(filter);
    a.is_active && (filter.len() == 0 || text::has_text(text::lowercase(a.name@), lower)
        || text::has_text(text::lowercase(a.account_number@), lower))
}

impl EditorState {
    /// The editor before it is opened.
    pub open spec fn fresh() -> EditorState {
        EditorState {
            visible: false,
            missing_keys: Seq::empty(),
            current_key_index: 0,
            available_accounts: Seq::empty(),
            filter: Seq::empty(),
            filtered: Seq::empty(),
            selected: 0,
            pending: Map::empty(),
        }
    }

    /// The offered accounts exist.
    pub open spec fn wf(self) -> bool {
        forall|k: int|
            0 <= k < self.filtered.len() ==> (#[trigger] self.filtered[k])
                < self.available_accounts.len()
    }

    /// The offered accounts brought up to date.
    pub open spec fn refiltered(self) -> EditorState {
        let filtered = lists::positions(
            self.available_accounts.len(),
            |i: int| account_fits(self.available_accounts[i], self.filter),
        );
        EditorState {
            filtered,
            selected: if self.selected >= filtered.len() {
                0
            } else {
                self.selected
            },
            ..self
        }
    }

    pub open spec fn opened(self, keys: Seq<Seq<char>>, accounts: Seq<Account>) -> EditorState {
        EditorState {
            visible: true,
            ..(EditorState {
                missing_keys: keys,
                current_key_index: 0,
                available_accounts: accounts,
                filter: Seq::empty(),
                selected: 0,
                pending: Map::empty(),
                ..self
            }).refiltered()
        }
    }

    pub open spec fn closed_(self) -> EditorState {
        EditorState {
            visible: false,
            missing_keys: Seq::empty(),
            filter: Seq::empty(),
            pending: Map::empty(),
            ..self
        }
    }

    /// The key that an account is assigned to now.
    pub open spec fn key(self) -> Option<Seq<char>> {
        if self.current_key_index < self.missing_keys.len() {
            Some(self.missing_keys[self.current_key_index])
        } else {
            None
        }
    }

    /// The next key, or the editor closed after the last one.
    pub open spec fn advanced(self) -> EditorState {
        if self.current_key_index + 1 < self.missing_keys.len() {
            (EditorState {
                current_key_index: self.current_key_index + 1,
                filter: Seq::empty(),
                selected: 0,
                ..self
            }).refiltered()
        } else {
            self.closed_()
        }
    }

    /// The highlighted account.
    pub open spec fn account(self) -> Option<Account> {
        if self.selected < self.filtered.len() && self.filtered[self.selected as int]
            < self.available_accounts.len() {
            Some(self.available_accounts[self.filtered[self.selected as int] as int])
        } else {
            None
        }
    }

    pub open spec fn after_key(self, key: KeyCode) -> (EditorState, StagedWish) {
        match key {
            KeyCode::Esc => (self.closed_(), StagedWish::Nothing),
            KeyCode::Enter => (
                self,
                match (self.key(), self.account()) {
                    (Some(k), Some(a)) => StagedWish::SaveMapping { key: k, account_id: a.id@ },
                    _ => StagedWish::Nothing,
                },
            ),
            KeyCode::Down | KeyCode::Char('j') => (
                EditorState {
                    selected: selection::down_to_last(self.selected, self.filtered.len()),
                    ..self
                },
                StagedWish::Nothing,
            ),
            KeyCode::Up | KeyCode::Char('k') => (
                EditorState { selected: selection::up_to_first(self.selected), ..self },
                StagedWish::Nothing,
            ),
            KeyCode::Tab => (self.advanced(), StagedWish::Nothing),
            KeyCode::Backspace => (
                (EditorState {
                    filter: text::without_last(self.filter),
                    ..self
                }).refiltered(),
                StagedWish::Nothing,
            ),
            KeyCode::Char(c) => (
                (EditorState { filter: self.filter.push(c), ..self }).refiltered(),
                StagedWish::Nothing,
            ),
            _ => (self, StagedWish::Nothing),
        }
    }
}

/// Accounts that are offered for a key are active.
pub proof fn offered_accounts_are_active(s: EditorState, k: int)
    requires
        s.available_accounts.len() <= usize::MAX,
        0 <= k < s.refiltered().filtered.len(),
    ensures
        s.refiltered().filtered[k] < s.available_accounts.len(),
        s.available_accounts[s.refiltered().filtered[k] as int].is_active,
{
    let p = |i: int| account_fits(s.available_accounts[i], s.filter);
    lists::positions_are_exact(s.available_accounts.len(), p);
    assert(p(s.refiltered().filtered[k] as int));
}

/// Advancing through `n` keys, one at a time, closes the editor after the
/// last one and not before.
pub proof fn editor_closes_after_last_key(s: EditorState)
    requires
        s.visible,
        0 <= s.current_key_index < s.missing_keys.len(),
    ensures
        s.advanced().visible <==> s.current_key_index < s.missing_keys.len() - 1,
        s.advanced().visible ==> s.advanced().current_key_index == s.current_key_index + 1
            && s.advanced().missing_keys == s.missing_keys,
{
}

impl EditorState {
    /// The editor after it advanced several times.
    pub open spec fn advanced_times(self, k: nat) -> EditorState
        decreases k,
    {
        if k == 0 {
            self
        } else {
            self.advanced_times((k - 1) as nat).advanced()
        }
    }
}

/// Once opened, the editor offers every key once, in order, each time with an
/// empty filter and all active accounts from the first one on; after the last
/// key it is closed.
pub proof fn every_key_is_offered_once(
    s: EditorState,
    keys: Seq<Seq<char>>,
    accounts: Seq<Account>,
    k: nat,
)
    requires
        keys.len() > 0,
    ensures
        ({
            let e = s.opened(keys, accounts).advanced_times(k);
            &&& k < keys.len() ==> {
                &&& e.visible
                &&& e.key() == Some(keys[k as int])
                &&& e.filter.len() == 0
                &&& e.selected == 0
                &&& e.available_accounts == accounts
                &&& e.filtered == lists::positions(accounts.len(), |i: int| accounts[i].is_active)
            }
            &&& k >= keys.len() ==> !e.visible && e.key() is None
        }),
    decreases k,
{
    let e = s.opened(keys, accounts).advanced_times(k);
    let p = |i: int| accounts[i].is_active;
    let q = |i: int| account_fits(accounts[i], Seq::<char>::empty());
    lists::positions_agree(accounts.len(), q, p);
    if k > 0 {
        every_key_is_offered_once(s, keys, accounts, (k - 1) as nat);
        still_offering(s, keys, accounts, (k - 1) as nat);
        still_offering(s, keys, accounts, k);
    }
}

/// Which key the editor is at after it advanced several times.
proof fn still_offering(
    s: EditorState,
    keys: Seq<Seq<char>>,
    accounts: Seq<Account>,
    k: nat,
)
    requires
        keys.len() > 0,
    ensures
        ({
            let e = s.opened(keys, accounts).advanced_times(k);
            &&& e.available_accounts == accounts
            &&& e.filter == Seq::<char>::empty()
            &&& k < keys.len() ==> e.missing_keys == keys && e.current_key_index == k
                && e.visible && e.selected == 0 && e == e.refiltered()
            &&& k >= keys.len() ==> e.missing_keys.len() == 0 && !e.visible
                && e.current_key_index >= 0
        }),
    decreases k,
{
    if k > 0 {
        still_offering(s, keys, accounts, (k - 1) as nat);
    }
}

impl MappingEditorState {
    pub fn new() -> (r: Self)
        ensures
            r@ == EditorState::fresh(),
            r@.wf(),
    {
        let r = MappingEditorState {
            visible: false,
            missing_keys: Vec::new(),
            current_key_index: 0,
            available_accounts: Vec::new(),
            filter: String::new(),
            filtered_indices: Vec::new(),
            selected_index: 0,
            pending_assignments: TextMap::new(),
        };
        assert(r@.missing_keys =~= Seq::<Seq<char>>::empty());
        r
    }

    /// Opens the editor for the keys without an account.
    pub fn open(&mut self, missing_keys: Vec<String>, accounts: Vec<Account>)
        ensures
            final(self)@ == old(self)@.opened(text::texts(missing_keys@), accounts@),
            final(self)@.wf(),
    {
        self.missing_keys = missing_keys;
        self.current_key_index = 0;
        self.available_accounts = accounts;
        self.filter.clear();
        self.selected_index = 0;
        self.pending_assignments.clear();
        self.visible = true;
        self.update_filtered();
    }

    pub fn close(&mut self)
        ensures
            final(self)@ == old(self)@.closed_(),
    {
        self.visible = false;
        self.missing_keys = Vec::new();
        self.filter.clear();
        self.pending_assignments.clear();
        assert(self@.missing_keys =~= Seq::<Seq<char>>::empty());
    }

    /// The key that an account is assigned to now.
    pub fn current_key(&self) -> (r: Option<&str>)
        ensures
            match r {
                Some(k) => self@.key() == Some(k@),
                None => self@.key() is None,
            },
    {
        if self.current_key_index < self.missing_keys.len() {
            Some(self.missing_keys[self.current_key_index].as_str())
        } else {
            None
        }
    }

    /// Goes on to the next key, or closes the editor after the last one.
    pub fn advance_or_close(&mut self)
        ensures
            final(self)@ == old(self)@.advanced(),
            old(self)@.wf() ==> final(self)@.wf(),
    {
        if self.missing_keys.len() > 0 && self.current_key_index < self.missing_keys.len() - 1 {
            self.current_key_index = self.current_key_index + 1;
            self.filter.clear();
            self.selected_index = 0;
            self.update_filtered();
        } else {
            self.close();
        }
    }

    pub fn update_filtered(&mut self)
        ensures
            final(self)@ == old(self)@.refiltered(),
            final(self)@.wf(),
    {
        let lower = self.filter.as_str().to_lowercase();
        let all: bool = self.filter.as_str().unicode_len() == 0;
        let mut out: Vec<usize> = Vec::new();
        let mut i: usize = 0;
        let ghost p = |i: int| account_fits(self@.available_accounts[i], self@.filter);
        while i < self.available_accounts.len()
            invariant
                i <= self.available_accounts@.len(),
                lower@ == text::lowercase(self.filter@),
                all == (self.filter@.len() == 0),
                p == (|i: int| account_fits(self@.available_accounts[i], self@.filter)),
                out@ == lists::positions(i as nat, p),
            decreases self.available_accounts@.len() - i,
        {
            let a = &self.available_accounts[i];
            let name = a.name.as_str().to_lowercase();
            let number = a.account_number.as_str().to_lowercase();
            let fits: bool = a.is_active && (all || text::contains(name.as_str(), lower.as_str())
                || text::contains(number.as_str(), lower.as_str()));
            assert(fits == p(i as int));
            if fits {
                out.push(i);
            }
            i = i + 1;
        }
        proof {
            lists::positions_are_exact(self.available_accounts@.len(), p);
        }
        if self.selected_index >= out.len() {
            self.selected_index = 0;
        }
        self.filtered_indices = out;
    }

    /// The highlighted account.
    pub fn selected_account(&self) -> (r: Option<&Account>)
        ensures
            r is Some <==> self@.account() is Some,
            r is Some ==> *r->0 == self@.account()->0,
    {
        if self.selected_index < self.filtered_indices.len() {
            let i: usize = self.filtered_indices[self.selected_index];
            if i < self.available_accounts.len() {
                return Some(&self.available_accounts[i]);
            }
        }
        None
    }

    pub fn handle_key(&mut self, key: KeyCode) -> (r: ServiceStagedAction)
        requires
            old(self)@.wf(),
        ensures
            (final(self)@, r@) == old(self)@.after_key(key),
            final(self)@.wf(),
    {
        match key {
            KeyCode::Esc => {
                self.close();
                ServiceStagedAction::Nothing
            },
            KeyCode::Enter => {
                match (self.current_key(), self.selected_account()) {
                    (Some(k), Some(a)) => ServiceStagedAction::SaveMapping {
                        key: text::owned(k),
                        account_id: a.id.clone(),
                    },
                    _ => ServiceStagedAction::Nothing,
                }
            },
            KeyCode::Down | KeyCode::Char('j') => {
                self.selected_index = selection::move_down(
                    self.selected_index,
                    self.filtered_indices.len(),
                );
                ServiceStagedAction::Nothing
            },
            KeyCode::Up | KeyCode::Char('k') => {
                self.selected_index = selection::move_up(self.selected_index);
                ServiceStagedAction::Nothing
            },
            KeyCode::Tab => {
                self.advance_or_close();
                ServiceStagedAction::Nothing
            },
            KeyCode::Backspace => {
                self.filter.pop();
                self.update_filtered();
                ServiceStagedAction::Nothing
            },
            KeyCode::Char(c) => {
                self.filter.push(c);
                self.update_filtered();
                ServiceStagedAction::Nothing
            },
            _ => ServiceStagedAction::Nothing,
        }
    }
}

/// The staged events screen.
pub struct StagedEventsView {
    pub events: Vec<StagedEventDisplay>,
    pub selected: usize,
    pub visible: bool,
    pub service_id: String,
    pub service_name: String,
    pub status_message: Option<String>,
    pub mapping_editor: MappingEditorState,
}

/// The meaning of the staged events screen.
#[verifier::ext_equal]
pub ghost struct StagedState {
    pub events: Seq<StagedEventDisplay>,
    pub selected: usize,
    pub visible: bool,
    pub service_id: Seq<char>,
    pub service_name: Seq<char>,
    pub status: Option<Seq<char>>,
    pub editor: EditorState,
}

impl View for StagedEventsView {
    type V = StagedState;

    open spec fn view(&self) -> StagedState {
        StagedState {
            events: self.events@,
            selected: self.selected,
            visible: self.visible,
            service_id: self.service_id@,
            service_name: self.service_name@,
            status: text::opt_text(self.status_message),
            editor: self.mapping_editor@,
        }
    }
}

impl StagedState {
    /// The screen before it is opened.
    pub open spec fn fresh() -> StagedState {
        StagedState {
            events: Seq::empty(),
            selected: 0,
            visible: false,
            service_id: Seq::empty(),
            service_name: Seq::empty(),
            status: None,
            editor: EditorState::fresh(),
        }
    }

    /// The highlighted event.
    pub open spec fn current(self) -> Option<StagedEventDisplay> {
        if self.selected < self.events.len() {
            Some(self.events[self.selected as int])
        } else {
            None
        }
    }

    pub open spec fn after_key(self, key: KeyCode) -> (StagedState, StagedWish) {
        if self.editor.visible {
            let (editor, wish) = self.editor.after_key(key);
            (StagedState { editor, ..self }, wish)
        } else {
            match key {
                KeyCode::Esc | KeyCode::Char('q') => (self, StagedWish::Back),
                KeyCode::Down | KeyCode::Char('j') => (
                    StagedState {
                        selected: selection::down_to_last(self.selected, self.events.len()),
                        ..self
                    },
                    StagedWish::Nothing,
                ),
                KeyCode::Up | KeyCode::Char('k') => (
                    StagedState { selected: selection::up_to_first(self.selected), ..self },
                    StagedWish::Nothing,
                ),
                KeyCode::Enter => (
                    self,
                    match self.current() {
                        Some(e) => match e.readiness {
                            StagedEventReadiness::Ready => StagedWish::ImportSingle(e.id@),
                            StagedEventReadiness::NeedsMapping(_) => StagedWish::OpenMappingEditor(
                                e.id@,
                            ),
                        },
                        None => StagedWish::Nothing,
                    },
                ),
                KeyCode::Char('m') => (
                    self,
                    match self.current() {
                        Some(e) => StagedWish::OpenMappingEditor(e.id@),
                        None => StagedWish::Nothing,
                    },
                ),
                KeyCode::Char('I') => (self, StagedWish::ImportAll),
                _ => (self, StagedWish::Nothing),
            }
        }
    }

    /// How many of the first `n` events are ready.
    pub open spec fn ready_count(self, n: nat) -> nat
        decreases n,
    {
        if n == 0 {
            0
        } else {
            self.ready_count((n - 1) as nat) + if self.events[n - 1].readiness is Ready {
                1nat
            } else {
                0
            }
        }
    }
}

/// Only events that are ready are imported one by one.
pub proof fn single_imports_are_ready(s: StagedState, key: KeyCode, id: Seq<char>)
    requires
        s.after_key(key).1 == StagedWish::ImportSingle(id),
    ensures
        s.current() is Some,
        s.current()->0.id@ == id,
        s.current()->0.readiness is Ready,
{
}

proof fn ready_count_is_bounded(s: StagedState, n: nat)
    ensures
        s.ready_count(n) <= n,
    decreases n,
{
    if n > 0 {
        ready_count_is_bounded(s, (n - 1) as nat);
    }
}

impl StagedEventsView {
    pub fn new() -> (r: Self)
        ensures
            r@ == StagedState::fresh(),
            r@.editor.wf(),
    {
        StagedEventsView {
            events: Vec::new(),
            selected: 0,
            visible: false,
            service_id: String::new(),
            service_name: String::new(),
            status_message: None,
            mapping_editor: MappingEditorState::new(),
        }
    }

    /// Opens the screen for a service.
    pub fn show(&mut self, service_id: String, service_name: String)
        ensures
            final(self)@ == (StagedState {
                service_id: service_id@,
                service_name: service_name@,
                visible: true,
                selected: 0,
                status: None,
                ..old(self)@
            }),
    {
        self.service_id = service_id;
        self.service_name = service_name;
        self.visible = true;
        self.selected = 0;
        self.status_message = None;
    }

    /// Closes the screen and its editor.
    pub fn close(&mut self)
        ensures
            final(self)@ == (StagedState {
                visible: false,
                editor: old(self)@.editor.closed_(),
                ..old(self)@
            }),
    {
        self.visible = false;
        self.mapping_editor.close();
    }

    pub fn set_events(&mut self, events: Vec<StagedEventDisplay>)
        ensures
            final(self)@ == (StagedState {
                events: events@,
                selected: selection::kept_within(old(self).selected, events@.len()),
                ..old(self)@
            }),
    {
        self.events = events;
        self.selected = selection::keep_within(self.selected, self.events.len());
    }

    pub fn handle_key(&mut self, key: KeyCode) -> (r: ServiceStagedAction)
        requires
            old(self)@.editor.wf(),
        ensures
            (final(self)@, r@) == old(self)@.after_key(key),
            final(self)@.editor.wf(),
    {
        if self.mapping_editor.visible {
            return self.mapping_editor.handle_key(key);
        }
        match key {
            KeyCode::Esc | KeyCode::Char('q') => ServiceStagedAction::Back,
            KeyCode::Down | KeyCode::Char('j') => {
                self.selected = selection::move_down(self.selected, self.events.len());
                ServiceStagedAction::Nothing
            },
            KeyCode::Up | KeyCode::Char('k') => {
                self.selected = selection::move_up(self.selected);
                ServiceStagedAction::Nothing
            },
            KeyCode::Enter => {
                if self.selected < self.events.len() {
                    let e = &self.events[self.selected];
                    match &e.readiness {
                        StagedEventReadiness::Ready => ServiceStagedAction::ImportSingle(
                            e.id.clone(),
                        ),
                        StagedEventReadiness::NeedsMapping(_) =>
                            ServiceStagedAction::OpenMappingEditor(e.id.clone()),
                    }
                } else {
                    ServiceStagedAction::Nothing
                }
            },
            KeyCode::Char('m') => {
                if self.selected < self.events.len() {
                    ServiceStagedAction::OpenMappingEditor(self.events[self.selected].id.clone())
                } else {
                    ServiceStagedAction::Nothing
                }
            },
            KeyCode::Char('I') => ServiceStagedAction::ImportAll,
            _ => ServiceStagedAction::Nothing,
        }
    }
}

impl Default for StagedEventsView {
    fn default() -> (r: Self)
        ensures
            r@ == StagedState::fresh(),
            r@.editor.wf(),
    {
        Self::new()
    }
}

// ---- drawing ----

/// The screen as it is drawn.
pub struct StagedPainting {
    pub title: String,
    pub summary: Line,
    /// Nothing if there are no events.
    pub rows: Option<Listing<Row>>,
    pub help: Line,
    pub editor: Option<EditorPainting>,
}

/// The editor as it is drawn.
pub struct EditorPainting {
    pub title: String,
    pub filter: Line,
    pub accounts: Page,
    pub selected: usize,
}

impl EditorState {
    pub open spec fn title(self) -> Seq<char> {
        " Assign Mapping: "@ + self.key()->0 + " ("@ + text::decimal(
            (self.current_key_index + 1) as nat,
        ) + "/"@ + text::decimal(self.missing_keys.len()) + ") "@
    }

    pub open spec fn filter_line(self, theme: &Theme) -> LineView {
        seq![
            (" > "@, theme::colored(theme.accent)),
            if self.filter.len() == 0 {
                ("Type to filter accounts..."@, theme::colored(theme.fg_dim))
            } else {
                (self.filter, theme::colored(theme.fg))
            },
        ]
    }

    pub open spec fn account_line(self, i: int, theme: &Theme) -> LineView {
        let a = self.available_accounts[self.filtered[i] as int];
        let here = i == self.selected;
        seq![
            (
                (if here {
                    "> "@
                } else {
                    "  "@
                }) + a.account_number@ + " "@ + a.name@,
                if here {
                    theme::bold_colored(theme.accent)
                } else {
                    theme::colored(theme.fg)
                },
            ),
        ]
    }
}

impl MappingEditorState {
    /// Draws the editor, if it is open on a key.
    pub fn draw(&self, theme: &Theme) -> (r: Option<EditorPainting>)
        requires
            self@.wf(),
        ensures
            r is Some <==> self.visible && self@.key() is Some,
            r is Some ==> {
                &&& r->0.title@ == self@.title()
                &&& r->0.filter@ == self@.filter_line(theme)
                &&& r->0.accounts@ == Seq::new(
                    self@.filtered.len(),
                    |i: int| self@.account_line(i, theme),
                )
                &&& r->0.selected == self.selected_index
            },
    {
        if !self.visible {
            return None;
        }
        let key = match self.current_key() {
            Some(k) => text::owned(k),
            None => {
                return None;
            },
        };
        let keys: usize = self.missing_keys.len();
        assert(self.current_key_index < keys);
        let at = text::count(self.current_key_index + 1);
        let n = text::count(keys);
        let mut title = text::cat5(" Assign Mapping: ", key.as_str(), " (", at.as_str(), "/");
        title.append(n.as_str());
        title.append(") ");
        let filter = paint::list2(
            paint::styled(" > ", theme::colored(theme.accent)),
            if self.filter.as_str().unicode_len() == 0 {
                paint::styled("Type to filter accounts...", theme::colored(theme.fg_dim))
            } else {
                paint::styled(self.filter.as_str(), theme::colored(theme.fg))
            },
        );
        let mut accounts: Page = Listing::new();
        let mut i: usize = 0;
        while i < self.filtered_indices.len()
            invariant
                i <= self.filtered_indices@.len(),
                self@.wf(),
                accounts@ =~= Seq::new(i as nat, |i: int| self@.account_line(i, theme)),
            decreases self.filtered_indices@.len() - i,
        {
            assert(self@.filtered[i as int] < self@.available_accounts.len());
            let a = &self.available_accounts[self.filtered_indices[i]];
            let here: bool = i == self.selected_index;
            let shown = text::cat4(
                if here {
                    "> "
                } else {
                    "  "
                },
                a.account_number.as_str(),
                " ",
                a.name.as_str(),
            );
            let style = if here {
                theme::bold_colored(theme.accent)
            } else {
                theme::colored(theme.fg)
            };
            accounts.push(paint::styled_owned_line(shown, style));
            i = i + 1;
        }
        Some(EditorPainting { title, filter, accounts, selected: self.selected_index })
    }

    /// The rectangle of the editor: at most fifty by twenty cells, at least
    /// thirty by ten, in the middle of an area.
    pub fn modal_area(&self, area: Rect) -> (r: Rect)
        requires
            area.x + area.width <= u16::MAX,
            area.y + area.height <= u16::MAX,
        ensures
            r.width == at_least(at_most(area.width, 50), 30),
            r.height == at_least(at_most(area.height, 20), 10),
            r.x == area.x + (if area.width >= r.width {
                (area.width - r.width) / 2
            } else {
                0
            }),
            r.y == area.y + (if area.height >= r.height {
                (area.height - r.height) / 2
            } else {
                0
            }),
    {
        let width: u16 = if area.width > 50 {
            50
        } else if area.width < 30 {
            30
        } else {
            area.width
        };
        let height: u16 = if area.height > 20 {
            20
        } else if area.height < 10 {
            10
        } else {
            area.height
        };
        Rect {
            x: area.x + area.width.saturating_sub(width) / 2,
            y: area.y + area.height.saturating_sub(height) / 2,
            width,
            height,
        }
    }
}

pub open spec fn at_most(n: u16, m: u16) -> u16 {
    if n < m {
        n
    } else {
        m
    }
}

pub open spec fn at_least(n: u16, m: u16) -> u16 {
    if n > m {
        n
    } else {
        m
    }
}

/// The mark in front of an event.
pub open spec fn icon(e: StagedEventDisplay, theme: &Theme) -> (Seq<char>, Style) {
    match e.readiness {
        StagedEventReadiness::Ready => if e.status@ == "error"@ {
            (" ! "@, theme::colored(theme.error))
        } else {
            (" * "@, theme::colored(theme.success))
        },
        StagedEventReadiness::NeedsMapping(_) => (" ? "@, theme::colored(Color::Yellow)),
    }
}

pub open spec fn info(e: StagedEventDisplay) -> Seq<char> {
    match e.readiness {
        StagedEventReadiness::Ready => text::text_or(e.error_message, "Ready"@),
        StagedEventReadiness::NeedsMapping(keys) => "Need: "@ + text::joined(
            text::texts(keys@),
            ", "@,
        ),
    }
}

/// The first ten bytes of the time of an event, or all of it if it cannot be
/// cut there.
pub open spec fn day_part(timestamp: Seq<char>) -> Seq<char> {
    if text::cuts_evenly(timestamp, 10) {
        text::byte_head(timestamp, 10)
    } else {
        timestamp
    }
}

pub open spec fn can_show(e: StagedEventDisplay) -> bool {
    widgets::can_truncate(e.description@, 30) && widgets::can_truncate(info(e), 30)
}

pub open spec fn event_row(e: StagedEventDisplay, selected: bool, theme: &Theme) -> RowView {
    RowView {
        cells: seq![
            icon(e, theme),
            paint::raw_view(e.event_type@),
            paint::raw_view(day_part(e.timestamp@)),
            paint::raw_view(widgets::truncated(e.description@, 30)),
            paint::raw_view(
                match e.amount_cents {
                    Some(a) => "$"@ + money::signed_dollars(a as int),
                    None => Seq::empty(),
                },
            ),
            paint::raw_view(widgets::truncated(info(e), 30)),
        ],
        style: if selected {
            theme::bold_colored(theme.accent)
        } else {
            theme::colored(theme.fg)
        },
    }
}

fn write_info(e: &StagedEventDisplay) -> (r: String)
    ensures
        r@ == info(*e),
{
    match &e.readiness {
        StagedEventReadiness::Ready => text::or_text(&e.error_message, "Ready"),
        StagedEventReadiness::NeedsMapping(keys) => {
            let all = text::join(keys, ", ");
            text::cat2("Need: ", all.as_str())
        },
    }
}

/// Checks that an event can be shown in a row.
pub fn is_showable(e: &StagedEventDisplay) -> (r: bool)
    ensures
        r == can_show(*e),
{
    let i = write_info(e);
    widgets::fits(e.description.as_str(), 30) && widgets::fits(i.as_str(), 30)
}

fn draw_event(e: &StagedEventDisplay, selected: bool, theme: &Theme) -> (r: Row)
    requires
        can_show(*e),
    ensures
        r@ == event_row(*e, selected, theme),
{
    let mark = match &e.readiness {
        StagedEventReadiness::Ready => if text::same_text(e.status.as_str(), "error") {
            paint::styled(" ! ", theme::colored(theme.error))
        } else {
            paint::styled(" * ", theme::colored(theme.success))
        },
        StagedEventReadiness::NeedsMapping(_) => paint::styled(
            " ? ",
            theme::colored(Color::Yellow),
        ),
    };
    let day = match text::first_bytes(e.timestamp.as_str(), 10) {
        Some(d) => d,
        None => e.timestamp.clone(),
    };
    let amount = match e.amount_cents {
        Some(a) => {
            let d = money::signed_dollar_text(a);
            text::cat2("$", d.as_str())
        },
        None => String::new(),
    };
    let i = write_info(e);
    let mut line: Line = Listing::new();
    line.push(mark);
    paint::push_str(&mut line, e.event_type.as_str());
    paint::push_text(&mut line, day);
    paint::push_text(&mut line, widgets::truncate(e.description.as_str(), 30));
    paint::push_text(&mut line, amount);
    paint::push_text(&mut line, widgets::truncate(i.as_str(), 30));
    assert(line@ =~= event_row(*e, selected, theme).cells);
    paint::row(
        line,
        if selected {
            theme::bold_colored(theme.accent)
        } else {
            theme::colored(theme.fg)
        },
    )
}

impl StagedState {
    pub open spec fn summary_line(self, theme: &Theme) -> LineView {
        let n = self.events.len();
        let ready = self.ready_count(n);
        let rest = (n - ready) as nat;
        seq![
            (text::decimal(n) + " staged"@, theme::colored(theme.fg)),
            paint::raw_view("  |  "@),
            (text::decimal(ready) + " ready"@, theme::colored(theme.success)),
            paint::raw_view("  |  "@),
            (
                text::decimal(rest) + " need mappings"@,
                theme::colored(
                    if rest > 0 {
                        Color::Yellow
                    } else {
                        theme.fg_dim
                    },
                ),
            ),
        ]
    }

    pub open spec fn can_draw(self) -> bool {
        &&& self.editor.wf()
        &&& forall|i: int| 0 <= i < self.events.len() ==> can_show(#[trigger] self.events[i])
    }

    pub open spec fn help_line(self, theme: &Theme) -> LineView {
        match self.status {
            Some(m) => seq![(m, theme::colored(theme.accent))],
            None => seq![
                (
                    " j/k: navigate  Enter: import/map  m: edit mappings  I: import all ready  Esc: back"@,
                    theme::colored(theme.fg_dim),
                ),
            ],
        }
    }
}

impl StagedEventsView {
    fn draw_summary(&self, theme: &Theme) -> (r: Line)
        ensures
            r@ == self@.summary_line(theme),
    {
        let n: usize = self.events.len();
        let mut ready: usize = 0;
        let mut i: usize = 0;
        while i < n
            invariant
                i <= n,
                n == self.events@.len(),
                ready == self@.ready_count(i as nat),
                ready <= i,
            decreases n - i,
        {
            if matches!(self.events[i].readiness, StagedEventReadiness::Ready) {
                ready = ready + 1;
            }
            i = i + 1;
        }
        let rest: usize = n - ready;
        let a = text::count(n);
        let b = text::count(ready);
        let c = text::count(rest);
        let mut line: Line = Listing::new();
        line.push(
            paint::styled_owned(text::cat2(a.as_str(), " staged"), theme::colored(theme.fg)),
        );
        paint::push_str(&mut line, "  |  ");
        line.push(
            paint::styled_owned(text::cat2(b.as_str(), " ready"), theme::colored(theme.success)),
        );
        paint::push_str(&mut line, "  |  ");
        line.push(
            paint::styled_owned(
                text::cat2(c.as_str(), " need mappings"),
                theme::colored(
                    if rest > 0 {
                        Color::Yellow
                    } else {
                        theme.fg_dim
                    },
                ),
            ),
        );
        assert(line@ =~= self@.summary_line(theme));
        line
    }

    /// Draws the screen.
    pub fn render(&self, theme: &Theme) -> (r: StagedPainting)
        requires
            self@.can_draw(),
        ensures
            r.title@ == " Staged Events: "@ + self.service_name@ + " "@,
            r.summary@ == self@.summary_line(theme),
            r.rows is Some <==> self.events@.len() > 0,
            r.rows is Some ==> r.rows->0@ == Seq::new(
                self.events@.len(),
                |i: int| event_row(self.events@[i], i == self.selected, theme),
            ),
            r.help@ == self@.help_line(theme),
            r.editor is Some <==> self@.editor.visible && self@.editor.key() is Some,
            r.editor is Some ==> {
                let e = self@.editor;
                &&& r.editor->0.title@ == e.title()
                &&& r.editor->0.filter@ == e.filter_line(theme)
                &&& r.editor->0.accounts@ == Seq::new(
                    e.filtered.len(),
                    |i: int| e.account_line(i, theme),
                )
                &&& r.editor->0.selected == e.selected
            },
    {
        let rows = if self.events.len() == 0 {
            None
        } else {
            let mut rows: Listing<Row> = Listing::new();
            let mut i: usize = 0;
            while i < self.events.len()
                invariant
                    i <= self.events@.len(),
                    self@.can_draw(),
                    rows@ =~= Seq::new(
                        i as nat,
                        |i: int| event_row(self.events@[i], i == self.selected, theme),
                    ),
                decreases self.events@.len() - i,
            {
                assert(can_show(self@.events[i as int]));
                rows.push(draw_event(&self.events[i], i == self.selected, theme));
                i = i + 1;
            }
            Some(rows)
        };
        let help = match &self.status_message {
            Some(m) => paint::styled_line(m.as_str(), theme::colored(theme.accent)),
            None => paint::styled_line(
                " j/k: navigate  Enter: import/map  m: edit mappings  I: import all ready  Esc: back",
                theme::colored(theme.fg_dim),
            ),
        };
        StagedPainting {
            title: text::cat3(" Staged Events: ", self.service_name.as_str(), " "),
            summary: self.draw_summary(theme),
            rows,
            help,
            editor: self.mapping_editor.draw(theme),
        }
    }
}

} // verus!
