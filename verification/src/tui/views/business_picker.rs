//! The screen on which a business is chosen, added, renamed, archived or
//! restored.

use vstd::prelude::*;

use crate::input::KeyCode;
use crate::lists;
use crate::selection;
use crate::selection::Selection;
use crate::text;
use crate::tui::paint;
use crate::tui::paint::{Line, LineView, Listing, Page};
use crate::tui::theme;
use crate::tui::theme::Theme;
use crate::tui::views::entry_form;
use crate::tui::views::startup;

verus! {

/// A business and the file of its books.
pub struct Business {
    pub id: String,
    pub name: String,
    pub display_name: Option<String>,
    pub db_path: String,
    /// Where the file was before it was archived.
    pub original_path: Option<String>,
}

impl Business {
    /// What the business is shown as.
    pub open spec fn shown(self) -> Seq<char> {
        text::text_or(self.display_name, self.name@)
    }

    pub fn label(&self) -> (r: String)
        ensures
            r@ == self.shown(),
    {
        text::or_text(&self.display_name, self.name.as_str())
    }

    /// An exact copy.
    pub fn duplicate(&self) -> (r: Business)
        ensures
            r == *self,
    {
        Business {
            id: self.id.clone(),
            name: self.name.clone(),
            display_name: text::clone_opt(&self.display_name),
            db_path: self.db_path.clone(),
            original_path: text::clone_opt(&self.original_path),
        }
    }
}

/// What the program is to do for the picker.
pub enum PickerAction {
    Nothing,
    OpenBusiness(Business),
    AddNew(String),
    AddExisting(String),
    ImportFound(Vec<String>),
}

/// The meaning of what the program is to do.
#[verifier::ext_equal]
pub ghost enum PickerWish {
    Nothing,
    OpenBusiness(Business),
    AddNew(Seq<char>),
    AddExisting(Seq<char>),
    ImportFound(Seq<Seq<char>>),
}

impl View for PickerAction {
    type V = PickerWish;

    open spec fn view(&self) -> PickerWish {
        match self {
            PickerAction::Nothing => PickerWish::Nothing,
            PickerAction::OpenBusiness(b) => PickerWish::OpenBusiness(*b),
            PickerAction::AddNew(p) => PickerWish::AddNew(p@),
            PickerAction::AddExisting(p) => PickerWish::AddExisting(p@),
            PickerAction::ImportFound(v) => PickerWish::ImportFound(text::texts(v@)),
        }
    }
}

/// What the picker shows.
pub enum PickerMode {
    List,
    ArchivedList,
    AddMenu,
    AddNewInput,
    AddOpenInput,
    RenameInput { biz_id: String },
    ConfirmArchive { biz_id: String },
    ConfirmRestore { biz_id: String },
    FirstRunImport,
}

/// The meaning of what the picker shows.
#[verifier::ext_equal]
pub ghost enum Mode {
    List,
    ArchivedList,
    AddMenu,
    AddNewInput,
    AddOpenInput,
    Rename(Seq<char>),
    ConfirmArchive(Seq<char>),
    ConfirmRestore(Seq<char>),
    FirstRunImport,
}

impl View for PickerMode {
    type V = Mode;

    open spec fn view(&self) -> Mode {
        match self {
            PickerMode::List => Mode::List,
            PickerMode::ArchivedList => Mode::ArchivedList,
            PickerMode::AddMenu => Mode::AddMenu,
            PickerMode::AddNewInput => Mode::AddNewInput,
            PickerMode::AddOpenInput => Mode::AddOpenInput,
            PickerMode::RenameInput { biz_id } => Mode::Rename(biz_id@),
            PickerMode::ConfirmArchive { biz_id } => Mode::ConfirmArchive(biz_id@),
            PickerMode::ConfirmRestore { biz_id } => Mode::ConfirmRestore(biz_id@),
            PickerMode::FirstRunImport => Mode::FirstRunImport,
        }
    }
}

/// What the registry of businesses is asked to do at once.
pub enum PickerRequest {
    Nothing,
    /// A custom name; none clears it.
    Rename { id: String, name: Option<String> },
    Archive(String),
    Restore(String),
    /// Remember that databases were looked for.
    MarkScanned,
    /// Find out whether a file exists.
    CheckPath(String),
}

/// The meaning of what the registry is asked to do.
#[verifier::ext_equal]
pub ghost enum Request {
    Nothing,
    Rename(Seq<char>, Option<Seq<char>>),
    Archive(Seq<char>),
    Restore(Seq<char>),
    MarkScanned,
    CheckPath(Seq<char>),
}

impl View for PickerRequest {
    type V = Request;

    open spec fn view(&self) -> Request {
        match self {
            PickerRequest::Nothing => Request::Nothing,
            PickerRequest::Rename { id, name } => Request::Rename(id@, text::opt_text(*name)),
            PickerRequest::Archive(id) => Request::Archive(id@),
            PickerRequest::Restore(id) => Request::Restore(id@),
            PickerRequest::MarkScanned => Request::MarkScanned,
            PickerRequest::CheckPath(p) => Request::CheckPath(p@),
        }
    }
}

/// The business picker.
pub struct BusinessPickerView {
    pub action: PickerAction,
    pub mode: PickerMode,
    pub list_state: Selection,
    pub add_menu_state: Selection,
    pub import_state: Selection,
    pub active: Vec<Business>,
    pub archived: Vec<Business>,
    pub import_candidates: Vec<String>,
    pub import_selected: Vec<bool>,
    pub input_buffer: String,
    pub error_message: Option<String>,
    pub status_message: Option<String>,
}

/// The meaning of the business picker.
#[verifier::ext_equal]
pub ghost struct PickerState {
    pub action: PickerWish,
    pub mode: Mode,
    pub list_state: Selection,
    pub add_menu_state: Selection,
    pub import_state: Selection,
    pub active: Seq<Business>,
    pub archived: Seq<Business>,
    pub candidates: Seq<Seq<char>>,
    pub chosen: Seq<bool>,
    pub input: Seq<char>,
    pub error: Option<Seq<char>>,
    pub status: Option<Seq<char>>,
}

impl View for BusinessPickerView {
    type V = PickerState;

    open spec fn view(&self) -> PickerState {
        PickerState {
            action: self.action@,
            mode: self.mode@,
            list_state: self.list_state,
            add_menu_state: self.add_menu_state,
            import_state: self.import_state,
            active: self.active@,
            archived: self.archived@,
            candidates: text::texts(self.import_candidates@),
            chosen: self.import_selected@,
            input: self.input_buffer@,
            error: text::opt_text(self.error_message),
            status: text::opt_text(self.status_message),
        }
    }
}

/// A selection moved one up or down around a list of `n` items.
pub open spec fn stepped(s: Selection, n: nat, down: bool) -> Selection {
    if n == 0 {
        s.moved(None)
    } else {
        let i = match s.selected {
            Some(i) => i as int,
            None => 0,
        };
        let to = if down {
            i + 1
        } else {
            i - 1
        };
        s.moved(Some((to % (n as int)) as usize))
    }
}

/// Moves a selection one up or down around a list of `n` items.
pub fn move_selection(s: Selection, n: usize, down: bool) -> (r: Selection)
    requires
        s.selected is Some ==> s.selected->0 < usize::MAX,
    ensures
        r == stepped(s, n as nat, down),
{
    if n == 0 {
        return s.moved(None);
    }
    let i: usize = match s.selected {
        Some(i) => i,
        None => 0,
    };
    let to: usize = if down {
        (i + 1) % n
    } else if i > 0 {
        (i - 1) % n
    } else {
        proof {
            vstd::arithmetic::div_mod::lemma_fundamental_div_mod_converse(
                -1,
                n as int,
                -1,
                n as int - 1,
            );
        }
        n - 1
    };
    s.moved(Some(to))
}

/// A selection inside a list, stepped up and down again, is where it was.
pub proof fn steps_undo_each_other(s: Selection, n: nat, i: usize)
    requires
        s.selected == Some(i),
        i < n <= usize::MAX,
    ensures
        stepped(stepped(s, n, true), n, false) == s,
        stepped(stepped(s, n, false), n, true) == s,
{
    let m = n as int;
    if i + 1 == m {
        assert(m % m == 0) by (nonlinear_arith)
            requires
                m > 0,
        ;
        assert((-1int) % m == m - 1) by (nonlinear_arith)
            requires
                m > 0,
        ;
    }
    if i == 0 {
        assert((-1int) % m == m - 1) by (nonlinear_arith)
            requires
                m > 0,
        ;
        assert(m % m == 0) by (nonlinear_arith)
            requires
                m > 0,
        ;
    }
    assert(i as int % m == i) by (nonlinear_arith)
        requires
            0 <= i < m,
    ;
    if i + 1 < m {
        assert((i + 1) % m == i + 1) by (nonlinear_arith)
            requires
                0 <= i,
                i + 1 < m,
        ;
    }
    if i > 0 {
        assert((i - 1) % m == i - 1) by (nonlinear_arith)
            requires
                0 < i < m,
        ;
    }
}

/// The file name offered for a new database.
pub open spec fn suggested_name() -> Seq<char> {
    "accountir.db"@
}

pub fn suggest_new_db_name() -> (r: String)
    ensures
        r@ == suggested_name(),
{
    text::owned("accountir.db")
}

/// The business highlighted in a list.
pub open spec fn chosen_in(v: Seq<Business>, s: Selection) -> Option<Business> {
    match s.selected {
        Some(i) => if i < v.len() {
            Some(v[i as int])
        } else {
            None
        },
        None => None,
    }
}

/// The candidates that are marked.
pub open spec fn marked(candidates: Seq<Seq<char>>, chosen: Seq<bool>, n: nat) -> Seq<Seq<char>>
    decreases n,
{
    if n == 0 {
        Seq::empty()
    } else {
        let before = marked(candidates, chosen, (n - 1) as nat);
        if chosen[n - 1] {
            before.push(candidates[n - 1])
        } else {
            before
        }
    }
}

/// A selection kept inside a list of businesses that may have changed.
pub open spec fn reselected(s: Selection, n: nat) -> Selection {
    match s.selected {
        Some(i) => if i >= n && n > 0 {
            s.moved(Some((n - 1) as usize))
        } else if n == 0 {
            s.moved(None)
        } else {
            s
        },
        None => if n > 0 {
            s.moved(Some(0))
        } else {
            s
        },
    }
}

impl PickerState {
    /// There is a mark for every candidate.
    pub open spec fn wf(self) -> bool {
        &&& self.candidates.len() == self.chosen.len()
        &&& self.list_state.selected is Some ==> self.list_state.selected->0 < usize::MAX
        &&& self.import_state.selected is Some ==> self.import_state.selected->0 < usize::MAX
        &&& self.add_menu_state.selected is Some ==> self.add_menu_state.selected->0 < usize::MAX
    }

    /// The picker when the program starts. Without a business, and unless it
    /// was done before, the databases that were found are offered.
    pub open spec fn first(
        active: Seq<Business>,
        archived: Seq<Business>,
        scanned: bool,
        found: Seq<Seq<char>>,
    ) -> PickerState {
        let offer = active.len() == 0 && !scanned && found.len() > 0;
        PickerState {
            action: PickerWish::Nothing,
            mode: if offer {
                Mode::FirstRunImport
            } else {
                Mode::List
            },
            list_state: selection::first_of(active.len()),
            add_menu_state: Selection::at(0),
            import_state: if offer {
                Selection::at(0)
            } else {
                Selection::none()
            },
            active,
            archived,
            candidates: if offer {
                found
            } else {
                Seq::empty()
            },
            chosen: if offer {
                Seq::new(found.len(), |i: int| true)
            } else {
                Seq::empty()
            },
            input: Seq::empty(),
            error: None,
            status: None,
        }
    }

    pub open spec fn with_lists(
        self,
        active: Seq<Business>,
        archived: Seq<Business>,
    ) -> PickerState {
        PickerState {
            active,
            archived,
            list_state: reselected(self.list_state, active.len()),
            ..self
        }
    }

    /// A key takes old messages away.
    pub open spec fn without_messages(self) -> PickerState {
        PickerState { error: None, status: None, ..self }
    }

    /// A change of what is shown takes old errors away.
    pub open spec fn in_mode(self, mode: Mode) -> PickerState {
        PickerState {
            mode,
            error: if mode == self.mode {
                self.error
            } else {
                None
            },
            ..self
        }
    }

    pub open spec fn after_list_key(self, key: KeyCode) -> PickerState {
        let b = chosen_in(self.active, self.list_state);
        match key {
            KeyCode::Up | KeyCode::Char('k') => PickerState {
                list_state: stepped(self.list_state, self.active.len(), false),
                ..self
            },
            KeyCode::Down | KeyCode::Char('j') => PickerState {
                list_state: stepped(self.list_state, self.active.len(), true),
                ..self
            },
            KeyCode::Enter => match b {
                Some(b) => PickerState { action: PickerWish::OpenBusiness(b), ..self },
                None => self,
            },
            KeyCode::Char('+') | KeyCode::Char('n') => (PickerState {
                add_menu_state: Selection::at(0),
                ..self
            }).in_mode(Mode::AddMenu),
            KeyCode::Char('a') => match b {
                Some(b) => self.in_mode(Mode::ConfirmArchive(b.id@)),
                None => self,
            },
            KeyCode::Char('r') => match b {
                Some(b) => (PickerState { input: b.shown(), ..self }).in_mode(Mode::Rename(b.id@)),
                None => self,
            },
            KeyCode::Char('v') => (PickerState {
                list_state: selection::first_of(self.archived.len()),
                ..self
            }).in_mode(Mode::ArchivedList),
            _ => self,
        }
    }

    pub open spec fn after_archived_key(self, key: KeyCode) -> PickerState {
        match key {
            KeyCode::Up | KeyCode::Char('k') => PickerState {
                list_state: stepped(self.list_state, self.archived.len(), false),
                ..self
            },
            KeyCode::Down | KeyCode::Char('j') => PickerState {
                list_state: stepped(self.list_state, self.archived.len(), true),
                ..self
            },
            KeyCode::Char('v') | KeyCode::Esc => (PickerState {
                list_state: selection::first_of(self.active.len()),
                ..self
            }).in_mode(Mode::List),
            KeyCode::Char('R') => match chosen_in(self.archived, self.list_state) {
                Some(b) => self.in_mode(Mode::ConfirmRestore(b.id@)),
                None => self,
            },
            _ => self,
        }
    }

    pub open spec fn after_menu_key(self, key: KeyCode) -> PickerState {
        match key {
            KeyCode::Esc => self.in_mode(Mode::List),
            KeyCode::Up | KeyCode::Char('k') => PickerState {
                add_menu_state: stepped(self.add_menu_state, 2, false),
                ..self
            },
            KeyCode::Down | KeyCode::Char('j') => PickerState {
                add_menu_state: stepped(self.add_menu_state, 2, true),
                ..self
            },
            KeyCode::Enter => if self.add_menu_state.selected is None
                || self.add_menu_state.selected->0 == 0 {
                (PickerState { input: suggested_name(), ..self }).in_mode(Mode::AddNewInput)
            } else {
                (PickerState { input: Seq::empty(), ..self }).in_mode(Mode::AddOpenInput)
            },
            _ => self,
        }
    }

    pub open spec fn after_path_key(self, key: KeyCode) -> (PickerState, Request) {
        match key {
            KeyCode::Esc => (
                (PickerState { input: Seq::empty(), ..self }).in_mode(Mode::AddMenu),
                Request::Nothing,
            ),
            KeyCode::Enter => {
                let path = text::trimmed(self.input);
                if path.len() == 0 {
                    (
                        PickerState { error: Some("Please enter a file path"@), ..self },
                        Request::Nothing,
                    )
                } else {
                    (self, Request::CheckPath(path))
                }
            },
            KeyCode::Backspace => (
                PickerState { input: text::without_last(self.input), ..self },
                Request::Nothing,
            ),
            KeyCode::Char(c) => (
                PickerState { input: self.input.push(c), ..self },
                Request::Nothing,
            ),
            _ => (self, Request::Nothing),
        }
    }

    /// What follows from whether the file exists: a new database needs a free
    /// name, an existing one a file.
    pub open spec fn path_checked(self, path: Seq<char>, exists_: bool) -> PickerState {
        match self.mode {
            Mode::AddNewInput => if exists_ {
                PickerState {
                    error: Some("File already exists. Use 'Import existing' instead."@),
                    ..self
                }
            } else {
                PickerState { action: PickerWish::AddNew(path), ..self }
            },
            Mode::AddOpenInput => if exists_ {
                PickerState { action: PickerWish::AddExisting(path), ..self }
            } else {
                PickerState { error: Some("File does not exist."@), ..self }
            },
            _ => self,
        }
    }

    pub open spec fn after_rename_key(self, key: KeyCode, id: Seq<char>) -> (PickerState, Request) {
        match key {
            KeyCode::Esc => (
                (PickerState { input: Seq::empty(), ..self }).in_mode(Mode::List),
                Request::Nothing,
            ),
            KeyCode::Enter => (self, Request::Rename(id, entry_form::given(self.input))),
            KeyCode::Backspace => (
                PickerState { input: text::without_last(self.input), ..self },
                Request::Nothing,
            ),
            KeyCode::Char(c) => (
                PickerState { input: self.input.push(c), ..self },
                Request::Nothing,
            ),
            _ => (self, Request::Nothing),
        }
    }

    /// The picker after the registry renamed the business, or did not.
    pub open spec fn renamed(
        self,
        failure: Option<Seq<char>>,
        active: Seq<Business>,
        archived: Seq<Business>,
    ) -> PickerState {
        match failure {
            None => (PickerState {
                status: Some(
                    if entry_form::given(self.input) is Some {
                        "Renamed"@
                    } else {
                        "Cleared custom name (now mirrors company name)"@
                    },
                ),
                input: Seq::empty(),
                ..self
            }).in_mode(Mode::List).with_lists(active, archived),
            Some(e) => PickerState { error: Some("Rename failed: "@ + e), ..self },
        }
    }

    /// The picker after the registry archived the business to a path, or did
    /// not.
    pub open spec fn archived_to(
        self,
        outcome: Result<Seq<char>, Seq<char>>,
        active: Seq<Business>,
        archived: Seq<Business>,
    ) -> PickerState {
        match outcome {
            Ok(path) => (PickerState { status: Some("Archived to "@ + path), ..self }).in_mode(
                Mode::List,
            ).with_lists(active, archived),
            Err(e) => PickerState {
                error: Some("Archive failed: "@ + e),
                ..self.in_mode(Mode::List)
            },
        }
    }

    /// The picker after the registry restored the business to a path, or did
    /// not.
    pub open spec fn restored_to(
        self,
        outcome: Result<Seq<char>, Seq<char>>,
        active: Seq<Business>,
        archived: Seq<Business>,
    ) -> PickerState {
        match outcome {
            Ok(path) => {
                let s = (PickerState { status: Some("Restored to "@ + path), ..self }).with_lists(
                    active,
                    archived,
                );
                if archived.len() == 0 {
                    (PickerState {
                        list_state: selection::first_of(active.len()),
                        ..s
                    }).in_mode(Mode::List)
                } else {
                    (PickerState {
                        list_state: selection::first_of(archived.len()),
                        ..s
                    }).in_mode(Mode::ArchivedList)
                }
            },
            Err(e) => PickerState {
                error: Some("Restore failed: "@ + e),
                ..self.in_mode(Mode::ArchivedList)
            },
        }
    }

    pub open spec fn after_import_key(self, key: KeyCode) -> (PickerState, Request) {
        match key {
            KeyCode::Up | KeyCode::Char('k') => (
                PickerState {
                    import_state: stepped(self.import_state, self.candidates.len(), false),
                    ..self
                },
                Request::Nothing,
            ),
            KeyCode::Down | KeyCode::Char('j') => (
                PickerState {
                    import_state: stepped(self.import_state, self.candidates.len(), true),
                    ..self
                },
                Request::Nothing,
            ),
            KeyCode::Char(' ') => (
                match self.import_state.selected {
                    Some(i) => if i < self.chosen.len() {
                        PickerState {
                            chosen: self.chosen.update(i as int, !self.chosen[i as int]),
                            ..self
                        }
                    } else {
                        self
                    },
                    None => self,
                },
                Request::Nothing,
            ),
            KeyCode::Char('a') => (
                PickerState {
                    chosen: Seq::new(self.chosen.len(), |i: int| !all_on(self.chosen)),
                    ..self
                },
                Request::Nothing,
            ),
            KeyCode::Enter => {
                let picks = marked(self.candidates, self.chosen, self.chosen.len());
                (
                    if picks.len() == 0 {
                        self.in_mode(Mode::List)
                    } else {
                        PickerState { action: PickerWish::ImportFound(picks), ..self }
                    },
                    Request::MarkScanned,
                )
            },
            KeyCode::Esc => (self.in_mode(Mode::List), Request::MarkScanned),
            _ => (self, Request::Nothing),
        }
    }

    pub open spec fn after_confirm_key(
        self,
        key: KeyCode,
        request: Request,
        back: Mode,
    ) -> (PickerState, Request) {
        match key {
            KeyCode::Char('y') | KeyCode::Char('Y') | KeyCode::Enter => (self, request),
            KeyCode::Esc | KeyCode::Char('n') | KeyCode::Char('N') => (
                self.in_mode(back),
                Request::Nothing,
            ),
            _ => (self, Request::Nothing),
        }
    }

    pub open spec fn after_key(self, key: KeyCode) -> (PickerState, Request) {
        self.without_messages().after_fresh_key(key)
    }

    /// A key while no message is shown.
    pub open spec fn after_fresh_key(self, key: KeyCode) -> (PickerState, Request) {
        match self.mode {
            Mode::List => (self.after_list_key(key), Request::Nothing),
            Mode::ArchivedList => (self.after_archived_key(key), Request::Nothing),
            Mode::AddMenu => (self.after_menu_key(key), Request::Nothing),
            Mode::AddNewInput | Mode::AddOpenInput => self.after_path_key(key),
            Mode::Rename(id) => self.after_rename_key(key, id),
            Mode::ConfirmArchive(id) => self.after_confirm_key(
                key,
                Request::Archive(id),
                Mode::List,
            ),
            Mode::ConfirmRestore(id) => self.after_confirm_key(
                key,
                Request::Restore(id),
                Mode::ArchivedList,
            ),
            Mode::FirstRunImport => self.after_import_key(key),
        }
    }
}

/// Whether every mark is set.
pub open spec fn all_on(chosen: Seq<bool>) -> bool {
    forall|i: int| 0 <= i < chosen.len() ==> #[trigger] chosen[i]
}

/// Nothing is archived or restored without a confirmation.
pub proof fn moving_files_needs_confirmation(s: PickerState, key: KeyCode, id: Seq<char>)
    ensures
        s.after_key(key).1 == Request::Archive(id) ==> s.mode == Mode::ConfirmArchive(id) && (key
            == KeyCode::Enter || key == KeyCode::Char('y') || key == KeyCode::Char('Y')),
        s.after_key(key).1 == Request::Restore(id) ==> s.mode == Mode::ConfirmRestore(id) && (key
            == KeyCode::Enter || key == KeyCode::Char('y') || key == KeyCode::Char('Y')),
{
}

/// A key leaves no old message: what is shown after it does not depend on what
/// was shown before.
pub proof fn old_messages_are_cleared(s: PickerState, key: KeyCode)
    ensures
        s.after_key(key) == s.without_messages().after_key(key),
        s.after_key(key).0.status is None,
{
}

/// A failure to move a file is told.
pub proof fn failures_are_told(
    s: PickerState,
    e: Seq<char>,
    active: Seq<Business>,
    archived: Seq<Business>,
)
    ensures
        s.archived_to(Err(e), active, archived).error == Some("Archive failed: "@ + e),
        s.archived_to(Err(e), active, archived).mode is List,
        s.restored_to(Err(e), active, archived).error == Some("Restore failed: "@ + e),
        s.restored_to(Err(e), active, archived).mode is ArchivedList,
{
}

/// A new database never takes the place of an existing file, and only existing
/// files are added.
pub proof fn added_files_are_free_or_exist(s: PickerState, path: Seq<char>, there: bool)
    requires
        s.action is Nothing,
    ensures
        s.path_checked(path, there).action is AddNew ==> !there,
        s.path_checked(path, there).action is AddExisting ==> there,
{
}

fn reselect(s: Selection, n: usize) -> (r: Selection)
    ensures
        r == reselected(s, n as nat),
{
    match s.selected {
        Some(i) => if i >= n && n > 0 {
            s.moved(Some(n - 1))
        } else if n == 0 {
            s.moved(None)
        } else {
            s
        },
        None => if n > 0 {
            s.moved(Some(0))
        } else {
            s
        },
    }
}

fn copy_chosen(v: &Vec<Business>, s: Selection) -> (r: Option<Business>)
    ensures
        r == chosen_in(v@, s),
{
    match s.selected {
        Some(i) => if i < v.len() {
            Some(v[i].duplicate())
        } else {
            None
        },
        None => None,
    }
}

fn flags_of(n: usize, value: bool) -> (r: Vec<bool>)
    ensures
        r@ == Seq::new(n as nat, |i: int| value),
{
    let mut out: Vec<bool> = Vec::new();
    let mut i: usize = 0;
    while i < n
        invariant
            i <= n,
            out@ =~= Seq::new(i as nat, |i: int| value),
        decreases n - i,
    {
        out.push(value);
        i = i + 1;
    }
    out
}

impl BusinessPickerView {
    /// The picker when the program starts; the answer says that looking for
    /// databases found nothing and need not be done again.
    pub fn new(
        active: Vec<Business>,
        archived: Vec<Business>,
        first_run_scanned: bool,
        found: Vec<String>,
    ) -> (r: (Self, PickerRequest))
        ensures
            r.0@ == PickerState::first(
                active@,
                archived@,
                first_run_scanned,
                text::texts(found@),
            ),
            r.0@.wf(),
            r.1@ == (if active@.len() == 0 && !first_run_scanned && found@.len() == 0 {
                Request::MarkScanned
            } else {
                Request::Nothing
            }),
    {
        let fresh: bool = active.len() == 0 && !first_run_scanned;
        let offer: bool = fresh && found.len() > 0;
        let request = if fresh && found.len() == 0 {
            PickerRequest::MarkScanned
        } else {
            PickerRequest::Nothing
        };
        let chosen = if offer {
            flags_of(found.len(), true)
        } else {
            Vec::new()
        };
        let candidates = if offer {
            found
        } else {
            Vec::new()
        };
        let view = BusinessPickerView {
            action: PickerAction::Nothing,
            mode: if offer {
                PickerMode::FirstRunImport
            } else {
                PickerMode::List
            },
            list_state: selection::select_first_of(active.len()),
            add_menu_state: Selection::at(0),
            import_state: if offer {
                Selection::at(0)
            } else {
                Selection::none()
            },
            active,
            archived,
            import_candidates: candidates,
            import_selected: chosen,
            input_buffer: String::new(),
            error_message: None,
            status_message: None,
        };
        assert(view@ =~= PickerState::first(
            active@,
            archived@,
            first_run_scanned,
            text::texts(found@),
        ));
        (view, request)
    }

    /// Takes over the businesses as the registry has them now.
    pub fn refresh(&mut self, active: Vec<Business>, archived: Vec<Business>)
        requires
            old(self)@.wf(),
        ensures
            final(self)@ == old(self)@.with_lists(active@, archived@),
            final(self)@.wf(),
    {
        self.active = active;
        self.archived = archived;
        self.list_state = reselect(self.list_state, self.active.len());
    }

    pub fn has_action(&self) -> (r: bool)
        ensures
            r == !(self.action is Nothing),
    {
        !matches!(self.action, PickerAction::Nothing)
    }

    pub fn set_status(&mut self, msg: String)
        ensures
            final(self)@ == (PickerState { status: Some(msg@), ..old(self)@ }),
    {
        self.status_message = Some(msg);
    }

    fn set_mode(&mut self, mode: PickerMode)
        requires
            mode@ != old(self)@.mode,
        ensures
            final(self)@ == old(self)@.in_mode(mode@),
    {
        self.mode = mode;
        self.error_message = None;
    }

    pub fn handle_key(&mut self, key: KeyCode) -> (r: PickerRequest)
        requires
            old(self)@.wf(),
        ensures
            (final(self)@, r@) == old(self)@.after_key(key),
            final(self)@.wf(),
    {
        self.error_message = None;
        self.status_message = None;
        match &self.mode {
            PickerMode::List => {
                self.handle_list_key(key);
                PickerRequest::Nothing
            },
            PickerMode::ArchivedList => {
                self.handle_archived_key(key);
                PickerRequest::Nothing
            },
            PickerMode::AddMenu => {
                self.handle_add_menu_key(key);
                PickerRequest::Nothing
            },
            PickerMode::AddNewInput | PickerMode::AddOpenInput => self.handle_path_input_key(key),
            PickerMode::RenameInput { biz_id } => {
                let id = biz_id.clone();
                self.handle_rename_input_key(key, id)
            },
            PickerMode::ConfirmArchive { biz_id } => {
                let id = biz_id.clone();
                match key {
                    KeyCode::Char('y') | KeyCode::Char('Y') | KeyCode::Enter => {
                        PickerRequest::Archive(id)
                    },
                    KeyCode::Esc | KeyCode::Char('n') | KeyCode::Char('N') => {
                        self.set_mode(PickerMode::List);
                        PickerRequest::Nothing
                    },
                    _ => PickerRequest::Nothing,
                }
            },
            PickerMode::ConfirmRestore { biz_id } => {
                let id = biz_id.clone();
                match key {
                    KeyCode::Char('y') | KeyCode::Char('Y') | KeyCode::Enter => {
                        PickerRequest::Restore(id)
                    },
                    KeyCode::Esc | KeyCode::Char('n') | KeyCode::Char('N') => {
                        self.set_mode(PickerMode::ArchivedList);
                        PickerRequest::Nothing
                    },
                    _ => PickerRequest::Nothing,
                }
            },
            PickerMode::FirstRunImport => self.handle_import_key(key),
        }
    }

    fn handle_list_key(&mut self, key: KeyCode)
        requires
            old(self)@.wf(),
            old(self)@.mode is List,
        ensures
            final(self)@ == old(self)@.after_list_key(key),
            final(self)@.wf(),
    {
        let n: usize = self.active.len();
        match key {
            KeyCode::Up | KeyCode::Char('k') => {
                self.list_state = move_selection(self.list_state, n, false);
            },
            KeyCode::Down | KeyCode::Char('j') => {
                self.list_state = move_selection(self.list_state, n, true);
            },
            KeyCode::Enter => {
                if let Some(b) = copy_chosen(&self.active, self.list_state) {
                    self.action = PickerAction::OpenBusiness(b);
                }
            },
            KeyCode::Char('+') | KeyCode::Char('n') => {
                self.add_menu_state = Selection::at(0);
                self.set_mode(PickerMode::AddMenu);
            },
            KeyCode::Char('a') => {
                if let Some(b) = copy_chosen(&self.active, self.list_state) {
                    self.set_mode(PickerMode::ConfirmArchive { biz_id: b.id });
                }
            },
            KeyCode::Char('r') => {
                if let Some(b) = copy_chosen(&self.active, self.list_state) {
                    self.input_buffer = b.label();
                    self.set_mode(PickerMode::RenameInput { biz_id: b.id });
                }
            },
            KeyCode::Char('v') => {
                self.list_state = selection::select_first_of(self.archived.len());
                self.set_mode(PickerMode::ArchivedList);
            },
            _ => {},
        }
    }

    fn handle_archived_key(&mut self, key: KeyCode)
        requires
            old(self)@.wf(),
            old(self)@.mode is ArchivedList,
        ensures
            final(self)@ == old(self)@.after_archived_key(key),
            final(self)@.wf(),
    {
        let n: usize = self.archived.len();
        match key {
            KeyCode::Up | KeyCode::Char('k') => {
                self.list_state = move_selection(self.list_state, n, false);
            },
            KeyCode::Down | KeyCode::Char('j') => {
                self.list_state = move_selection(self.list_state, n, true);
            },
            KeyCode::Char('v') | KeyCode::Esc => {
                self.list_state = selection::select_first_of(self.active.len());
                self.set_mode(PickerMode::List);
            },
            KeyCode::Char('R') => {
                if let Some(b) = copy_chosen(&self.archived, self.list_state) {
                    self.set_mode(PickerMode::ConfirmRestore { biz_id: b.id });
                }
            },
            _ => {},
        }
    }

    fn handle_add_menu_key(&mut self, key: KeyCode)
        requires
            old(self)@.wf(),
            old(self)@.mode is AddMenu,
        ensures
            final(self)@ == old(self)@.after_menu_key(key),
            final(self)@.wf(),
    {
        match key {
            KeyCode::Esc => {
                self.set_mode(PickerMode::List);
            },
            KeyCode::Up | KeyCode::Char('k') => {
                self.add_menu_state = move_selection(self.add_menu_state, 2, false);
            },
            KeyCode::Down | KeyCode::Char('j') => {
                self.add_menu_state = move_selection(self.add_menu_state, 2, true);
            },
            KeyCode::Enter => {
                let at: usize = match self.add_menu_state.selected {
                    Some(i) => i,
                    None => 0,
                };
                if at == 0 {
                    self.input_buffer = suggest_new_db_name();
                    self.set_mode(PickerMode::AddNewInput);
                } else {
                    self.input_buffer.clear();
                    self.set_mode(PickerMode::AddOpenInput);
                }
            },
            _ => {},
        }
    }

    fn handle_path_input_key(&mut self, key: KeyCode) -> (r: PickerRequest)
        requires
            old(self)@.wf(),
            old(self)@.mode is AddNewInput || old(self)@.mode is AddOpenInput,
        ensures
            (final(self)@, r@) == old(self)@.after_path_key(key),
            final(self)@.wf(),
    {
        match key {
            KeyCode::Esc => {
                self.input_buffer.clear();
                self.set_mode(PickerMode::AddMenu);
                PickerRequest::Nothing
            },
            KeyCode::Enter => {
                let path = text::trim(self.input_buffer.as_str());
                if path.as_str().unicode_len() == 0 {
                    self.error_message = Some(text::owned("Please enter a file path"));
                    PickerRequest::Nothing
                } else {
                    PickerRequest::CheckPath(path)
                }
            },
            KeyCode::Backspace => {
                self.input_buffer.pop();
                PickerRequest::Nothing
            },
            KeyCode::Char(c) => {
                self.input_buffer.push(c);
                PickerRequest::Nothing
            },
            _ => PickerRequest::Nothing,
        }
    }

    /// Goes on with a path after it was looked up.
    pub fn path_checked(&mut self, path: String, exists_: bool)
        requires
            old(self)@.wf(),
        ensures
            final(self)@ == old(self)@.path_checked(path@, exists_),
            final(self)@.wf(),
    {
        match &self.mode {
            PickerMode::AddNewInput => {
                if exists_ {
                    self.error_message = Some(
                        text::owned("File already exists. Use 'Import existing' instead."),
                    );
                } else {
                    self.action = PickerAction::AddNew(path);
                }
            },
            PickerMode::AddOpenInput => {
                if exists_ {
                    self.action = PickerAction::AddExisting(path);
                } else {
                    self.error_message = Some(text::owned("File does not exist."));
                }
            },
            _ => {},
        }
    }

    fn handle_rename_input_key(&mut self, key: KeyCode, id: String) -> (r: PickerRequest)
        requires
            old(self)@.wf(),
            old(self)@.mode == Mode::Rename(id@),
        ensures
            (final(self)@, r@) == old(self)@.after_rename_key(key, id@),
            final(self)@.wf(),
    {
        match key {
            KeyCode::Esc => {
                self.input_buffer.clear();
                self.set_mode(PickerMode::List);
                PickerRequest::Nothing
            },
            KeyCode::Enter => PickerRequest::Rename {
                id,
                name: entry_form::given_text(self.input_buffer.as_str()),
            },
            KeyCode::Backspace => {
                self.input_buffer.pop();
                PickerRequest::Nothing
            },
            KeyCode::Char(c) => {
                self.input_buffer.push(c);
                PickerRequest::Nothing
            },
            _ => PickerRequest::Nothing,
        }
    }

    /// Goes on after the registry renamed the business, or failed to.
    pub fn renamed(
        &mut self,
        failure: Option<String>,
        active: Vec<Business>,
        archived: Vec<Business>,
    )
        requires
            old(self)@.wf(),
            old(self)@.mode is Rename,
        ensures
            final(self)@ == old(self)@.renamed(text::opt_text(failure), active@, archived@),
            final(self)@.wf(),
    {
        match failure {
            None => {
                self.status_message = Some(
                    if entry_form::given_text(self.input_buffer.as_str()).is_some() {
                        text::owned("Renamed")
                    } else {
                        text::owned("Cleared custom name (now mirrors company name)")
                    },
                );
                self.input_buffer.clear();
                self.set_mode(PickerMode::List);
                self.refresh(active, archived);
            },
            Some(e) => {
                self.error_message = Some(text::cat2("Rename failed: ", e.as_str()));
            },
        }
    }

    /// Goes on after the registry archived the business, or failed to.
    pub fn archived_to(
        &mut self,
        outcome: Result<String, String>,
        active: Vec<Business>,
        archived: Vec<Business>,
    )
        requires
            old(self)@.wf(),
            old(self)@.mode is ConfirmArchive,
        ensures
            final(self)@ == old(self)@.archived_to(result_text(outcome), active@, archived@),
            final(self)@.wf(),
    {
        match outcome {
            Ok(path) => {
                self.status_message = Some(text::cat2("Archived to ", path.as_str()));
                self.set_mode(PickerMode::List);
                self.refresh(active, archived);
            },
            Err(e) => {
                self.set_mode(PickerMode::List);
                self.error_message = Some(text::cat2("Archive failed: ", e.as_str()));
            },
        }
    }

    /// Goes on after the registry restored the business, or failed to.
    pub fn restored_to(
        &mut self,
        outcome: Result<String, String>,
        active: Vec<Business>,
        archived: Vec<Business>,
    )
        requires
            old(self)@.wf(),
            old(self)@.mode is ConfirmRestore,
        ensures
            final(self)@ == old(self)@.restored_to(result_text(outcome), active@, archived@),
            final(self)@.wf(),
    {
        match outcome {
            Ok(path) => {
                self.status_message = Some(text::cat2("Restored to ", path.as_str()));
                self.refresh(active, archived);
                if self.archived.len() == 0 {
                    self.list_state = selection::select_first_of(self.active.len());
                    self.set_mode(PickerMode::List);
                } else {
                    self.list_state = selection::select_first_of(self.archived.len());
                    self.set_mode(PickerMode::ArchivedList);
                }
            },
            Err(e) => {
                self.set_mode(PickerMode::ArchivedList);
                self.error_message = Some(text::cat2("Restore failed: ", e.as_str()));
            },
        }
    }

    fn all_chosen(&self) -> (r: bool)
        ensures
            r == all_on(self.import_selected@),
    {
        let mut i: usize = 0;
        while i < self.import_selected.len()
            invariant
                i <= self.import_selected@.len(),
                forall|j: int| 0 <= j < i ==> #[trigger] self.import_selected@[j],
            decreases self.import_selected@.len() - i,
        {
            if !self.import_selected[i] {
                assert(!self.import_selected@[i as int]);
                return false;
            }
            i = i + 1;
        }
        true
    }

    fn collect_marked(&self) -> (r: Vec<String>)
        requires
            self@.wf(),
        ensures
            text::texts(r@) == marked(self@.candidates, self@.chosen, self@.chosen.len()),
            text::texts(r@).len() == r@.len(),
    {
        let mut out: Vec<String> = Vec::new();
        let mut i: usize = 0;
        assert(text::texts(out@) =~= marked(self@.candidates, self@.chosen, 0));
        while i < self.import_selected.len()
            invariant
                i <= self.import_selected@.len(),
                self.import_selected@.len() == self.import_candidates@.len(),
                text::texts(out@) == marked(self@.candidates, self@.chosen, i as nat),
            decreases self.import_selected@.len() - i,
        {
            if self.import_selected[i] {
                let ghost before = text::texts(out@);
                out.push(self.import_candidates[i].clone());
                assert(text::texts(out@) =~= before.push(self@.candidates[i as int]));
            }
            i = i + 1;
        }
        out
    }

    fn handle_import_key(&mut self, key: KeyCode) -> (r: PickerRequest)
        requires
            old(self)@.wf(),
            old(self)@.mode is FirstRunImport,
        ensures
            (final(self)@, r@) == old(self)@.after_import_key(key),
            final(self)@.wf(),
    {
        let n: usize = self.import_candidates.len();
        match key {
            KeyCode::Up | KeyCode::Char('k') => {
                self.import_state = move_selection(self.import_state, n, false);
                PickerRequest::Nothing
            },
            KeyCode::Down | KeyCode::Char('j') => {
                self.import_state = move_selection(self.import_state, n, true);
                PickerRequest::Nothing
            },
            KeyCode::Char(' ') => {
                if let Some(i) = self.import_state.selected {
                    if i < self.import_selected.len() {
                        let on: bool = self.import_selected[i];
                        self.import_selected.set(i, !on);
                    }
                }
                PickerRequest::Nothing
            },
            KeyCode::Char('a') => {
                let on: bool = self.all_chosen();
                self.import_selected = flags_of(self.import_selected.len(), !on);
                PickerRequest::Nothing
            },
            KeyCode::Enter => {
                let picks = self.collect_marked();
                if picks.len() == 0 {
                    self.set_mode(PickerMode::List);
                } else {
                    self.action = PickerAction::ImportFound(picks);
                }
                PickerRequest::MarkScanned
            },
            KeyCode::Esc => {
                self.set_mode(PickerMode::List);
                PickerRequest::MarkScanned
            },
            _ => PickerRequest::Nothing,
        }
    }
}

pub open spec fn result_text(r: Result<String, String>) -> Result<Seq<char>, Seq<char>> {
    match r {
        Ok(s) => Ok(s@),
        Err(s) => Err(s@),
    }
}

/// The database files among the paths of a directory, sorted.
pub fn scan_cwd_for_dbs(listed: &Vec<String>) -> (r: Vec<String>)
    ensures
        text::texts(r@) == startup::sorted_paths(
            startup::database_files(text::texts(listed@)),
        ),
{
    let found = startup::pick_databases(listed);
    startup::sort_paths(&found)
}

// ---- drawing ----

/// The picker as it is drawn.
pub struct PickerPainting {
    pub title: Page,
    pub body: BodyPainting,
    pub footer: Page,
}

/// The middle part of the picker.
pub struct BodyPainting {
    /// The title in the border.
    pub title: &'static str,
    /// Lines above the frame.
    pub header: Page,
    pub lines: Page,
    /// The highlighted line, where the lines are a list.
    pub highlighted: Option<Selection>,
}

/// The meaning of the middle part.
#[verifier::ext_equal]
pub ghost struct BodyView {
    pub title: Seq<char>,
    pub header: Seq<LineView>,
    pub lines: Seq<LineView>,
    pub highlighted: Option<Selection>,
}

impl View for BodyPainting {
    type V = BodyView;

    open spec fn view(&self) -> BodyView {
        BodyView {
            title: self.title@,
            header: self.header@,
            lines: self.lines@,
            highlighted: self.highlighted,
        }
    }
}

/// How long ago something was, given in seconds.
pub open spec fn ago(secs: int) -> Seq<char> {
    if secs < 60 {
        "just now"@
    } else if secs < 3600 {
        text::decimal((secs / 60) as nat) + "m ago"@
    } else if secs < 86_400 {
        text::decimal((secs / 3600) as nat) + "h ago"@
    } else if secs < 2_592_000 {
        text::decimal((secs / 86_400) as nat) + "d ago"@
    } else if secs < 31_536_000 {
        text::decimal((secs / 2_592_000) as nat) + "mo ago"@
    } else {
        text::decimal((secs / 31_536_000) as nat) + "y ago"@
    }
}

pub fn relative_time(secs: i64) -> (r: String)
    ensures
        r@ == ago(secs as int),
{
    if secs < 60 {
        return text::owned("just now");
    }
    let s: u64 = secs as u64;
    let (n, unit): (u64, &str) = if s < 3600 {
        (s / 60, "m ago")
    } else if s < 86_400 {
        (s / 3600, "h ago")
    } else if s < 2_592_000 {
        (s / 86_400, "d ago")
    } else if s < 31_536_000 {
        (s / 2_592_000, "mo ago")
    } else {
        (s / 31_536_000, "y ago")
    };
    let number = text::number(n);
    text::cat2(number.as_str(), unit)
}

/// A path with the home directory written as a tilde.
pub open spec fn abbreviated(path: Seq<char>, home: Option<Seq<char>>) -> Seq<char> {
    match home {
        Some(h) => match text::after_prefix(path, h) {
            Some(rest) => "~"@ + rest,
            None => path,
        },
        None => path,
    }
}

pub fn abbrev_path(path: &str, home: &Option<String>) -> (r: String)
    ensures
        r@ == abbreviated(path@, text::opt_text(*home)),
{
    match home {
        Some(h) => match text::strip_prefix(path, h.as_str()) {
            Some(rest) => text::cat2("~", rest.as_str()),
            None => text::owned(path),
        },
        None => text::owned(path),
    }
}

/// A text of at most `max` characters as it is, a longer one cut to end with
/// an ellipsis.
pub open spec fn clipped(s: Seq<char>, max: nat) -> Seq<char> {
    if s.len() <= max {
        s
    } else {
        s.take(
            if max > 0 {
                max - 1
            } else {
                0
            },
        ) + "…"@
    }
}

fn clip(s: &str, max: usize) -> (r: String)
    ensures
        r@ == clipped(s@, max as nat),
{
    let chars = text::chars_of(s);
    if chars.len() <= max {
        text::owned(s)
    } else {
        let head = text::text_of(&chars, 0, max.saturating_sub(1));
        assert(head@ =~= s@.take(
            if max > 0 {
                max - 1
            } else {
                0
            },
        ));
        text::cat2(head.as_str(), "…")
    }
}

/// A business in the list.
pub open spec fn business_line(
    b: Business,
    age: Option<i64>,
    archived: bool,
    home: Option<Seq<char>>,
    theme: &Theme,
) -> LineView {
    seq![
        (text::padded_right(clipped(b.shown(), 32), 32), theme::colored(theme.fg)),
        (
            text::padded_left(
                match age {
                    Some(secs) => ago(secs as int),
                    None => "never"@,
                },
                14,
            ),
            theme::colored(theme.fg_dim),
        ),
        paint::raw_view("  "@),
        (
            abbreviated(
                if archived {
                    text::text_or(b.original_path, b.db_path@)
                } else {
                    b.db_path@
                },
                home,
            ),
            theme::colored(theme.fg_dim),
        ),
    ]
}

fn draw_business(
    b: &Business,
    age: Option<i64>,
    archived: bool,
    home: &Option<String>,
    theme: &Theme,
) -> (r: Line)
    ensures
        r@ == business_line(*b, age, archived, text::opt_text(*home), theme),
{
    let label = b.label();
    let label = clip(label.as_str(), 32);
    let last = match age {
        Some(secs) => relative_time(secs),
        None => text::owned("never"),
    };
    let path = if archived {
        text::or_text(&b.original_path, b.db_path.as_str())
    } else {
        b.db_path.clone()
    };
    paint::list4(
        paint::styled_owned(text::pad_right(label.as_str(), 32), theme::colored(theme.fg)),
        paint::styled_owned(text::pad_left(last.as_str(), 14), theme::colored(theme.fg_dim)),
        paint::raw("  "),
        paint::styled_owned(abbrev_path(path.as_str(), home), theme::colored(theme.fg_dim)),
    )
}

pub open spec fn list_body(
    v: Seq<Business>,
    ages: Seq<Option<i64>>,
    archived: bool,
    state: Selection,
    home: Option<Seq<char>>,
    theme: &Theme,
) -> BodyView {
    BodyView {
        title: if archived {
            " Archived "@
        } else {
            " Businesses "@
        },
        header: Seq::empty(),
        lines: if v.len() == 0 {
            seq![
                seq![
                    (
                        if archived {
                            "No archived businesses. Press 'v' to return."@
                        } else {
                            "No businesses yet. Press '+' to add one."@
                        },
                        theme::colored(theme.fg_dim),
                    ),
                ],
            ]
        } else {
            Seq::new(v.len(), |i: int| business_line(v[i], ages[i], archived, home, theme))
        },
        highlighted: if v.len() == 0 {
            None
        } else {
            Some(state)
        },
    }
}

fn draw_list(
    v: &Vec<Business>,
    ages: &Vec<Option<i64>>,
    archived: bool,
    state: Selection,
    home: &Option<String>,
    theme: &Theme,
) -> (r: BodyPainting)
    requires
        ages@.len() == v@.len(),
    ensures
        r@ == list_body(v@, ages@, archived, state, text::opt_text(*home), theme),
{
    let title = if archived {
        " Archived "
    } else {
        " Businesses "
    };
    let header: Page = Listing::new();
    if v.len() == 0 {
        let message = if archived {
            "No archived businesses. Press 'v' to return."
        } else {
            "No businesses yet. Press '+' to add one."
        };
        let lines = paint::list1(paint::styled_line(message, theme::colored(theme.fg_dim)));
        return BodyPainting { title, header, lines, highlighted: None };
    }
    let mut lines: Page = Listing::new();
    let mut i: usize = 0;
    while i < v.len()
        invariant
            i <= v@.len(),
            ages@.len() == v@.len(),
            lines@ =~= Seq::new(
                i as nat,
                |i: int| business_line(v@[i], ages@[i], archived, text::opt_text(*home), theme),
            ),
        decreases v@.len() - i,
    {
        lines.push(draw_business(&v[i], ages[i], archived, home, theme));
        i = i + 1;
    }
    BodyPainting { title, header, lines, highlighted: Some(state) }
}

/// What is typed, with the error behind it or a cursor.
pub open spec fn input_line(
    input: Seq<char>,
    error: Option<Seq<char>>,
    theme: &Theme,
) -> LineView {
    match error {
        Some(e) => seq![(input + " ("@ + e + ")"@, theme::colored(theme.error))],
        None => seq![(input + "█"@, theme::colored(theme.input_active_fg))],
    }
}

/// Draws what is typed, with the error behind it or a cursor.
pub fn draw_input_line(input: &str, error: &Option<String>, theme: &Theme) -> (r: Line)
    ensures
        r@ == input_line(input@, text::opt_text(*error), theme),
{
    match error {
        Some(e) => paint::styled_owned_line(
            text::cat4(input, " (", e.as_str(), ")"),
            theme::colored(theme.error),
        ),
        None => paint::styled_owned_line(
            text::cat2(input, "█"),
            theme::colored(theme.input_active_fg),
        ),
    }
}

/// The first business with an identifier.
pub open spec fn with_id(v: Seq<Business>, id: Seq<char>) -> Option<Business> {
    match lists::first_position(v.len(), |i: int| v[i].id@ == id) {
        Some(i) => Some(v[i as int]),
        None => None,
    }
}

fn find_business(v: &Vec<Business>, id: &str) -> (r: Option<Business>)
    ensures
        r == with_id(v@, id@),
{
    let mut i: usize = 0;
    let ghost p = |i: int| v@[i].id@ == id@;
    while i < v.len()
        invariant
            i <= v@.len(),
            p == (|i: int| v@[i].id@ == id@),
            forall|j: int| 0 <= j < i ==> !#[trigger] p(j),
        decreases v@.len() - i,
    {
        let found: bool = text::same_text(v[i].id.as_str(), id);
        assert(found == p(i as int));
        if found {
            proof {
                lists::first_position_is_first(v@.len(), p);
            }
            return Some(v[i].duplicate());
        }
        i = i + 1;
    }
    proof {
        lists::first_position_is_first(v@.len(), p);
    }
    None
}

/// The question whether a business is to be archived or restored.
pub open spec fn confirm_body(
    b: Option<Business>,
    restore: bool,
    archive_dir: Seq<char>,
    home: Option<Seq<char>>,
    theme: &Theme,
) -> BodyView {
    let to = if restore {
        "Will move the file back to: "@ + (match b {
            Some(b) => match b.original_path {
                Some(p) => abbreviated(p@, home),
                None => "(unknown)"@,
            },
            None => "(unknown)"@,
        })
    } else {
        "Will move the file into: "@ + archive_dir
    };
    BodyView {
        title: if restore {
            " Restore business "@
        } else {
            " Archive business "@
        },
        header: Seq::empty(),
        lines: seq![
            paint::blank_view(),
            seq![
                paint::raw_view("  Are you sure you want to "@),
                (
                    if restore {
                        "restore"@
                    } else {
                        "archive"@
                    },
                    theme::bold_colored(theme.header),
                ),
                paint::raw_view(" \""@),
                (
                    match b {
                        Some(b) => b.shown(),
                        None => Seq::empty(),
                    },
                    theme::colored(theme.fg),
                ),
                paint::raw_view("\"?"@),
            ],
            paint::blank_view(),
            seq![("  "@ + to, theme::colored(theme.fg_dim))],
            paint::blank_view(),
            seq![("  [Y]es / [N]o / Esc to cancel"@, theme::colored(theme.accent))],
        ],
        highlighted: None,
    }
}

fn draw_confirm(
    b: &Option<Business>,
    restore: bool,
    archive_dir: &str,
    home: &Option<String>,
    theme: &Theme,
) -> (r: BodyPainting)
    ensures
        r@ == confirm_body(*b, restore, archive_dir@, text::opt_text(*home), theme),
{
    let to = if restore {
        let dest = match b {
            Some(b) => match &b.original_path {
                Some(p) => abbrev_path(p.as_str(), home),
                None => text::owned("(unknown)"),
            },
            None => text::owned("(unknown)"),
        };
        text::cat2("Will move the file back to: ", dest.as_str())
    } else {
        text::cat2("Will move the file into: ", archive_dir)
    };
    let label = match b {
        Some(b) => b.label(),
        None => String::new(),
    };
    let mut question: Line = Listing::new();
    question.push(paint::raw("  Are you sure you want to "));
    question.push(
        paint::styled(
            if restore {
                "restore"
            } else {
                "archive"
            },
            theme::bold_colored(theme.header),
        ),
    );
    question.push(paint::raw(" \""));
    question.push(paint::styled_owned(label, theme::colored(theme.fg)));
    question.push(paint::raw("\"?"));
    let mut lines: Page = Listing::new();
    lines.push(paint::blank());
    lines.push(question);
    lines.push(paint::blank());
    lines.push(
        paint::styled_owned_line(text::cat2("  ", to.as_str()), theme::colored(theme.fg_dim)),
    );
    lines.push(paint::blank());
    lines.push(
        paint::styled_line("  [Y]es / [N]o / Esc to cancel", theme::colored(theme.accent)),
    );
    let r = BodyPainting {
        title: if restore {
            " Restore business "
        } else {
            " Archive business "
        },
        header: Listing::new(),
        lines,
        highlighted: None,
    };
    proof {
        let want = confirm_body(*b, restore, archive_dir@, text::opt_text(*home), theme);
        assert(question@ =~= want.lines[1]);
        assert(r@.lines =~= want.lines);
    }
    r
}

impl PickerState {
    pub open spec fn subtitle(self) -> Seq<char> {
        match self.mode {
            Mode::ArchivedList => "Archived businesses"@,
            Mode::FirstRunImport => "Import existing databases"@,
            _ => "Choose a business to work on"@,
        }
    }

    pub open spec fn import_body(self, theme: &Theme) -> BodyView {
        BodyView {
            title: " Import candidates "@,
            header: seq![
                seq![
                    (
                        "Found "@ + text::decimal(self.candidates.len())
                            + " accountir database file(s) in the current directory."@,
                        theme::colored(theme.fg),
                    ),
                ],
                seq![
                    (
                        "Choose which to import as businesses (Space toggles, 'a' toggles all, Enter confirms, Esc skips)."@,
                        theme::colored(theme.fg_dim),
                    ),
                ],
            ],
            lines: Seq::new(
                self.candidates.len(),
                |i: int|
                    seq![
                        (
                            if self.chosen[i] {
                                "[x]"@
                            } else {
                                "[ ]"@
                            },
                            theme::colored(theme.accent),
                        ),
                        paint::raw_view("  "@),
                        paint::raw_view(self.candidates[i]),
                    ],
            ),
            highlighted: Some(self.import_state),
        }
    }

    pub open spec fn body(
        self,
        ages: Seq<Option<i64>>,
        archive_dir: Seq<char>,
        home: Option<Seq<char>>,
        theme: &Theme,
    ) -> BodyView {
        match self.mode {
            Mode::List => list_body(self.active, ages, false, self.list_state, home, theme),
            Mode::ArchivedList => list_body(
                self.archived,
                ages,
                true,
                self.list_state,
                home,
                theme,
            ),
            Mode::AddMenu => BodyView {
                title: " Add business "@,
                header: Seq::empty(),
                lines: seq![
                    seq![paint::raw_view("Create new database file"@)],
                    seq![paint::raw_view("Import existing database file"@)],
                ],
                highlighted: Some(self.add_menu_state),
            },
            Mode::AddNewInput => BodyView {
                title: " New database file path "@,
                header: Seq::empty(),
                lines: seq![input_line(self.input, self.error, theme)],
                highlighted: None,
            },
            Mode::AddOpenInput => BodyView {
                title: " Existing database file path "@,
                header: Seq::empty(),
                lines: seq![input_line(self.input, self.error, theme)],
                highlighted: None,
            },
            Mode::Rename(_) => BodyView {
                title: " Rename business "@,
                header: Seq::empty(),
                lines: seq![
                    seq![
                        (
                            "Set a custom display name for this business (empty = use company name)."@,
                            theme::colored(theme.fg_dim),
                        ),
                    ],
                    paint::blank_view(),
                    input_line(self.input, self.error, theme),
                ],
                highlighted: None,
            },
            Mode::ConfirmArchive(id) => confirm_body(
                with_id(self.active, id),
                false,
                archive_dir,
                home,
                theme,
            ),
            Mode::ConfirmRestore(id) => confirm_body(
                with_id(self.archived, id),
                true,
                archive_dir,
                home,
                theme,
            ),
            Mode::FirstRunImport => self.import_body(theme),
        }
    }

    pub open spec fn key_hint(self) -> Seq<char> {
        match self.mode {
            Mode::List =>
                "Enter open  +/n add  a archive  r rename  v archived  ?/help  q quit"@,
            Mode::ArchivedList => "R restore  v back  q quit"@,
            Mode::AddMenu => "Enter select  Esc back"@,
            Mode::AddNewInput | Mode::AddOpenInput => "Enter confirm  Esc cancel"@,
            Mode::Rename(_) => "Enter save (empty = clear)  Esc cancel"@,
            Mode::ConfirmArchive(_) | Mode::ConfirmRestore(_) => "Y confirm  N/Esc cancel"@,
            Mode::FirstRunImport => "Space toggle  a toggle-all  Enter import  Esc skip"@,
        }
    }

    /// The keys, and below them the last message: a status before an error,
    /// in the colour of an error if there is one.
    pub open spec fn footer(self, theme: &Theme) -> Seq<LineView> {
        let first = seq![(self.key_hint(), theme::colored(theme.accent))];
        let message = match self.status {
            Some(s) => Some(s),
            None => self.error,
        };
        match message {
            Some(m) => seq![
                first,
                seq![
                    (
                        m,
                        theme::colored(
                            if self.error is Some {
                                theme.error
                            } else {
                                theme.fg_dim
                            },
                        ),
                    ),
                ],
            ],
            None => seq![first],
        }
    }

    /// How many businesses are listed with their age.
    pub open spec fn listed(self) -> nat {
        match self.mode {
            Mode::List => self.active.len(),
            Mode::ArchivedList => self.archived.len(),
            _ => 0,
        }
    }
}

impl BusinessPickerView {
    fn draw_import(&self, theme: &Theme) -> (r: BodyPainting)
        requires
            self@.wf(),
        ensures
            r@ == self@.import_body(theme),
    {
        let n = text::count(self.import_candidates.len());
        let first = text::cat3(
            "Found ",
            n.as_str(),
            " accountir database file(s) in the current directory.",
        );
        let header = paint::list2(
            paint::styled_owned_line(first, theme::colored(theme.fg)),
            paint::styled_line(
                "Choose which to import as businesses (Space toggles, 'a' toggles all, Enter confirms, Esc skips).",
                theme::colored(theme.fg_dim),
            ),
        );
        let mut lines: Page = Listing::new();
        let mut i: usize = 0;
        while i < self.import_candidates.len()
            invariant
                i <= self.import_candidates@.len(),
                self@.wf(),
                lines@ =~= Seq::new(
                    i as nat,
                    |i: int|
                        seq![
                            (
                                if self@.chosen[i] {
                                    "[x]"@
                                } else {
                                    "[ ]"@
                                },
                                theme::colored(theme.accent),
                            ),
                            paint::raw_view("  "@),
                            paint::raw_view(self@.candidates[i]),
                        ],
                ),
            decreases self.import_candidates@.len() - i,
        {
            let mark = if self.import_selected[i] {
                "[x]"
            } else {
                "[ ]"
            };
            lines.push(
                paint::list3(
                    paint::styled(mark, theme::colored(theme.accent)),
                    paint::raw("  "),
                    paint::raw(self.import_candidates[i].as_str()),
                ),
            );
            i = i + 1;
        }
        BodyPainting {
            title: " Import candidates ",
            header,
            lines,
            highlighted: Some(self.import_state),
        }
    }

    fn draw_body(
        &self,
        ages: &Vec<Option<i64>>,
        archive_dir: &str,
        home: &Option<String>,
        theme: &Theme,
    ) -> (r: BodyPainting)
        requires
            self@.wf(),
            ages@.len() == self@.listed(),
        ensures
            r@ == self@.body(ages@, archive_dir@, text::opt_text(*home), theme),
    {
        match &self.mode {
            PickerMode::List => draw_list(
                &self.active,
                ages,
                false,
                self.list_state,
                home,
                theme,
            ),
            PickerMode::ArchivedList => draw_list(
                &self.archived,
                ages,
                true,
                self.list_state,
                home,
                theme,
            ),
            PickerMode::AddMenu => BodyPainting {
                title: " Add business ",
                header: Listing::new(),
                lines: paint::list2(
                    paint::raw_line(text::owned("Create new database file")),
                    paint::raw_line(text::owned("Import existing database file")),
                ),
                highlighted: Some(self.add_menu_state),
            },
            PickerMode::AddNewInput => BodyPainting {
                title: " New database file path ",
                header: Listing::new(),
                lines: paint::list1(
                    draw_input_line(self.input_buffer.as_str(), &self.error_message, theme),
                ),
                highlighted: None,
            },
            PickerMode::AddOpenInput => BodyPainting {
                title: " Existing database file path ",
                header: Listing::new(),
                lines: paint::list1(
                    draw_input_line(self.input_buffer.as_str(), &self.error_message, theme),
                ),
                highlighted: None,
            },
            PickerMode::RenameInput { .. } => BodyPainting {
                title: " Rename business ",
                header: Listing::new(),
                lines: paint::list3(
                    paint::styled_line(
                        "Set a custom display name for this business (empty = use company name).",
                        theme::colored(theme.fg_dim),
                    ),
                    paint::blank(),
                    draw_input_line(self.input_buffer.as_str(), &self.error_message, theme),
                ),
                highlighted: None,
            },
            PickerMode::ConfirmArchive { biz_id } => draw_confirm(
                &find_business(&self.active, biz_id.as_str()),
                false,
                archive_dir,
                home,
                theme,
            ),
            PickerMode::ConfirmRestore { biz_id } => draw_confirm(
                &find_business(&self.archived, biz_id.as_str()),
                true,
                archive_dir,
                home,
                theme,
            ),
            PickerMode::FirstRunImport => self.draw_import(theme),
        }
    }

    fn hint(&self) -> (r: &'static str)
        ensures
            r@ == self@.key_hint(),
    {
        match &self.mode {
            PickerMode::List =>
                "Enter open  +/n add  a archive  r rename  v archived  ?/help  q quit",
            PickerMode::ArchivedList => "R restore  v back  q quit",
            PickerMode::AddMenu => "Enter select  Esc back",
            PickerMode::AddNewInput | PickerMode::AddOpenInput => "Enter confirm  Esc cancel",
            PickerMode::RenameInput { .. } => "Enter save (empty = clear)  Esc cancel",
            PickerMode::ConfirmArchive { .. } | PickerMode::ConfirmRestore { .. } =>
                "Y confirm  N/Esc cancel",
            PickerMode::FirstRunImport => "Space toggle  a toggle-all  Enter import  Esc skip",
        }
    }

    fn draw_footer(&self, theme: &Theme) -> (r: Page)
        ensures
            r@ == self@.footer(theme),
    {
        let mut page: Page = Listing::new();
        page.push(paint::styled_line(self.hint(), theme::colored(theme.accent)));
        let color = if self.error_message.is_some() {
            theme.error
        } else {
            theme.fg_dim
        };
        match &self.status_message {
            Some(m) => {
                page.push(paint::styled_line(m.as_str(), theme::colored(color)));
            },
            None => {
                if let Some(m) = &self.error_message {
                    page.push(paint::styled_line(m.as_str(), theme::colored(color)));
                }
            },
        }
        assert(page@ =~= self@.footer(theme));
        page
    }

    /// Draws the picker. The ages are the seconds since the listed businesses
    /// were opened.
    pub fn draw(
        &self,
        ages: &Vec<Option<i64>>,
        archive_dir: &str,
        home: &Option<String>,
        theme: &Theme,
    ) -> (r: PickerPainting)
        requires
            self@.wf(),
            ages@.len() == self@.listed(),
        ensures
            r.title@ == seq![
                paint::blank_view(),
                seq![("  A C C O U N T I R"@, theme::bold_colored(theme.accent))],
                paint::blank_view(),
                seq![("  "@ + self@.subtitle(), theme::colored(theme.header))],
            ],
            r.body@ == self@.body(ages@, archive_dir@, text::opt_text(*home), theme),
            r.footer@ == self@.footer(theme),
    {
        let subtitle = match &self.mode {
            PickerMode::ArchivedList => "Archived businesses",
            PickerMode::FirstRunImport => "Import existing databases",
            _ => "Choose a business to work on",
        };
        let title = paint::list4(
            paint::blank(),
            paint::styled_line("  A C C O U N T I R", theme::bold_colored(theme.accent)),
            paint::blank(),
            paint::styled_owned_line(text::cat2("  ", subtitle), theme::colored(theme.header)),
        );
        PickerPainting {
            title,
            body: self.draw_body(ages, archive_dir, home, theme),
            footer: self.draw_footer(theme),
        }
    }
}

} // verus!
