//! The screen on which a database file is created or opened.

use vstd::prelude::*;

use crate::input::KeyCode;
use crate::lists;
use crate::lists::{SortKey, SortValue};
use crate::selection;
use crate::selection::Selection;
use crate::text;
use crate::tui::paint;
use crate::tui::paint::{Line, LineView, Listing, Page};
use crate::tui::theme;
use crate::tui::theme::Theme;
use crate::tui::views::business_picker;

verus! {

/// What the program is to do.
pub enum StartupAction {
    Nothing,
    NewDatabase(String),
    OpenDatabase(String),
}

/// The meaning of what the program is to do.
#[verifier::ext_equal]
pub ghost enum StartupWish {
    Nothing,
    NewDatabase(Seq<char>),
    OpenDatabase(Seq<char>),
}

impl View for StartupAction {
    type V = StartupWish;

    open spec fn view(&self) -> StartupWish {
        match self {
            StartupAction::Nothing => StartupWish::Nothing,
            StartupAction::NewDatabase(p) => StartupWish::NewDatabase(p@),
            StartupAction::OpenDatabase(p) => StartupWish::OpenDatabase(p@),
        }
    }
}

/// Whether the menu is used or a path typed.
#[derive(Debug, Clone, Copy, PartialEq, Eq, Structural)]
pub enum InputMode {
    Menu,
    NewPath,
    OpenPath,
}

/// The startup screen.
pub struct StartupView {
    pub action: StartupAction,
    pub menu_state: Selection,
    pub input_mode: InputMode,
    pub input_buffer: String,
    pub recent_databases: Vec<String>,
    pub error_message: Option<String>,
}

/// The meaning of the startup screen.
#[verifier::ext_equal]
pub ghost struct StartupState {
    pub action: StartupWish,
    pub menu_state: Selection,
    pub input_mode: InputMode,
    pub input: Seq<char>,
    pub recent: Seq<Seq<char>>,
    pub error: Option<Seq<char>>,
}

impl StartupState {
    /// The state of a new screen.
    pub open spec fn fresh(recent: Seq<Seq<char>>) -> StartupState {
        StartupState {
            action: StartupWish::Nothing,
            menu_state: Selection::at(0),
            input_mode: InputMode::Menu,
            input: Seq::empty(),
            recent,
            error: None,
        }
    }
}

impl View for StartupView {
    type V = StartupState;

    open spec fn view(&self) -> StartupState {
        StartupState {
            action: self.action@,
            menu_state: self.menu_state,
            input_mode: self.input_mode,
            input: self.input_buffer@,
            recent: text::texts(self.recent_databases@),
            error: text::opt_text(self.error_message),
        }
    }
}

/// Paths with those of the first `n` others that are not among them yet.
pub open spec fn joined_paths(known: Seq<Seq<char>>, others: Seq<Seq<char>>, n: nat) -> Seq<
    Seq<char>,
>
    decreases n,
{
    if n == 0 {
        known
    } else {
        let before = joined_paths(known, others, (n - 1) as nat);
        if before.contains(others[n - 1]) {
            before
        } else {
            before.push(others[n - 1])
        }
    }
}

/// Joining paths drops none and repeats none.
pub proof fn joined_paths_are_distinct(known: Seq<Seq<char>>, others: Seq<Seq<char>>, n: nat)
    requires
        n <= others.len(),
        known.no_duplicates(),
    ensures
        joined_paths(known, others, n).no_duplicates(),
        forall|i: int|
            0 <= i < n ==> joined_paths(known, others, n).contains(#[trigger] others[i]),
        forall|i: int|
            0 <= i < known.len() ==> joined_paths(known, others, n).contains(#[trigger] known[i]),
    decreases n,
{
    if n > 0 {
        joined_paths_are_distinct(known, others, (n - 1) as nat);
        let before = joined_paths(known, others, (n - 1) as nat);
        let all = joined_paths(known, others, n);
        assert forall|x: Seq<char>| before.contains(x) implies all.contains(x) by {
            let k = choose|k: int| 0 <= k < before.len() && before[k] == x;
            assert(all[k] == x);
        }
        assert(all.contains(others[n - 1])) by {
            if !before.contains(others[n - 1]) {
                assert(all.last() == others[n - 1]);
            }
        }
    }
}

fn has_path(v: &Vec<String>, path: &str) -> (r: bool)
    ensures
        r == text::texts(v@).contains(path@),
{
    let mut i: usize = 0;
    while i < v.len()
        invariant
            i <= v@.len(),
            forall|j: int| 0 <= j < i ==> (#[trigger] v@[j])@ != path@,
        decreases v@.len() - i,
    {
        if text::same_text(v[i].as_str(), path) {
            assert(text::texts(v@)[i as int] == path@);
            return true;
        }
        i = i + 1;
    }
    proof {
        if text::texts(v@).contains(path@) {
            let k = choose|k: int| 0 <= k < v@.len() && text::texts(v@)[k] == path@;
            assert(v@[k]@ == path@);
        }
    }
    false
}

/// The usual names of databases.
pub const USUAL_NAMES: [&'static str; 3] = ["accountir.db", "accounts.db", "ledger.db"];

/// Whether a path names a database file: the name behind the last slash ends in
/// ".db" and has more than that.
pub open spec fn is_database_file(path: Seq<char>) -> bool {
    let n = path.len();
    n > 3 && path.skip(n - 3) == ".db"@ && path[n - 4] != '/'
}

/// The database files among several paths.
pub open spec fn database_files(paths: Seq<Seq<char>>) -> Seq<Seq<char>> {
    paths.filter(|p: Seq<char>| is_database_file(p))
}

/// Paths in the order of their texts.
pub open spec fn sorted_paths(paths: Seq<Seq<char>>) -> Seq<Seq<char>> {
    lists::order_of(
        paths.map_values(|p: Seq<char>| SortValue::Words(p)),
        false,
    ).map_values(|k: usize| paths[k as int])
}

/// Checks that a path names a database file.
pub fn names_database(path: &str) -> (r: bool)
    ensures
        r == is_database_file(path@),
{
    let v = text::chars_of(path);
    let n: usize = v.len();
    if n <= 3 {
        return false;
    }
    proof {
        reveal_strlit(".db");
        let end = path@.skip(n - 3);
        assert(end[0] == v@[n - 3] && end[1] == v@[n - 2] && end[2] == v@[n - 1]);
        assert(end =~= ".db"@ <==> end[0] == '.' && end[1] == 'd' && end[2] == 'b');
    }
    v[n - 3] == '.' && v[n - 2] == 'd' && v[n - 1] == 'b' && v[n - 4] != '/'
}

/// Picks the database files out of several paths.
pub fn pick_databases(listed: &Vec<String>) -> (r: Vec<String>)
    ensures
        text::texts(r@) == database_files(text::texts(listed@)),
{
    let ghost all = text::texts(listed@);
    let ghost keep = |p: Seq<char>| is_database_file(p);
    let mut out: Vec<String> = Vec::new();
    let mut i: usize = 0;
    proof {
        reveal(Seq::filter);
        assert(text::texts(out@) =~= all.take(0).filter(keep));
    }
    while i < listed.len()
        invariant
            i <= listed@.len(),
            all == text::texts(listed@),
            keep == (|p: Seq<char>| is_database_file(p)),
            text::texts(out@) == all.take(i as int).filter(keep),
        decreases listed@.len() - i,
    {
        let ghost before = text::texts(out@);
        proof {
            reveal(Seq::filter);
            let next = all.take(i + 1);
            assert(next.drop_last() =~= all.take(i as int));
            assert(next.last() == listed@[i as int]@);
            assert(keep(listed@[i as int]@) == is_database_file(listed@[i as int]@));
        }
        if names_database(listed[i].as_str()) {
            out.push(listed[i].clone());
            assert(text::texts(out@) =~= before.push(listed@[i as int]@));
        }
        i = i + 1;
    }
    assert(all.take(i as int) =~= all);
    out
}

/// Sorts paths by their texts.
pub fn sort_paths(paths: &Vec<String>) -> (r: Vec<String>)
    ensures
        text::texts(r@) == sorted_paths(text::texts(paths@)),
{
    let ghost all = text::texts(paths@);
    let mut keys: Vec<SortKey> = Vec::new();
    let mut i: usize = 0;
    while i < paths.len()
        invariant
            i <= paths@.len(),
            keys@.len() == i,
            forall|k: int| 0 <= k < i ==> (#[trigger] keys@[k])@ == SortValue::Words(paths@[k]@),
        decreases paths@.len() - i,
    {
        keys.push(SortKey::Words(text::owned(paths[i].as_str())));
        i = i + 1;
    }
    let order = lists::stable_order(&keys, false);
    assert(lists::sort_values(keys@) =~= all.map_values(|p: Seq<char>| SortValue::Words(p)));
    let mut out: Vec<String> = Vec::new();
    let mut k: usize = 0;
    while k < order.len()
        invariant
            k <= order@.len(),
            out@.len() == k,
            all == text::texts(paths@),
            forall|j: int| 0 <= j < order@.len() ==> (#[trigger] order@[j]) < paths@.len(),
            forall|j: int| 0 <= j < k ==> (#[trigger] out@[j])@ == all[order@[j] as int],
        decreases order@.len() - k,
    {
        out.push(paths[order[k]].clone());
        k = k + 1;
    }
    assert(text::texts(out@) =~= sorted_paths(all));
    out
}

/// The databases offered: those under the usual names, and the other database
/// files of the directory.
pub fn find_recent_databases(usual: Vec<String>, listed: &Vec<String>) -> (r: Vec<String>)
    ensures
        ({
            let found = database_files(text::texts(listed@));
            text::texts(r@) == joined_paths(text::texts(usual@), found, found.len())
        }),
{
    let found = pick_databases(listed);
    let mut out = usual;
    let mut i: usize = 0;
    while i < found.len()
        invariant
            i <= found@.len(),
            text::texts(out@) == joined_paths(
                text::texts(usual@),
                text::texts(found@),
                i as nat,
            ),
        decreases found@.len() - i,
    {
        assert(text::texts(found@)[i as int] == found@[i as int]@);
        if !has_path(&out, found[i].as_str()) {
            let ghost before = text::texts(out@);
            out.push(found[i].clone());
            assert(text::texts(out@) =~= before.push(found@[i as int]@));
        }
        i = i + 1;
    }
    out
}

/// What is offered was known under a usual name, or is a database file of the
/// directory; and every database file of the directory is offered.
pub proof fn offered_files_are_databases(
    usual: Seq<Seq<char>>,
    listed: Seq<Seq<char>>,
    p: Seq<char>,
)
    ensures
        ({
            let found = database_files(listed);
            joined_paths(usual, found, found.len()).contains(p) <==> usual.contains(p) || (
            listed.contains(p) && is_database_file(p))
        }),
{
    let found = database_files(listed);
    joined_contains(usual, found, found.len(), p);
    filtered_contains(listed, p);
    assert(found.take(found.len() as int) =~= found);
}

proof fn joined_contains(known: Seq<Seq<char>>, others: Seq<Seq<char>>, n: nat, p: Seq<char>)
    requires
        n <= others.len(),
    ensures
        joined_paths(known, others, n).contains(p) <==> known.contains(p) || others.take(
            n as int,
        ).contains(p),
    decreases n,
{
    let all = joined_paths(known, others, n);
    let first = others.take(n as int);
    if n > 0 {
        joined_contains(known, others, (n - 1) as nat, p);
        let before = joined_paths(known, others, (n - 1) as nat);
        let front = others.take(n - 1);
        if before.contains(p) {
            let k = choose|k: int| 0 <= k < before.len() && before[k] == p;
            assert(all[k] == p);
        }
        if front.contains(p) {
            let k = choose|k: int| 0 <= k < front.len() && front[k] == p;
            assert(first[k] == p);
        }
        if first.contains(p) {
            let k = choose|k: int| 0 <= k < first.len() && first[k] == p;
            if k < n - 1 {
                assert(front[k] == p);
            } else if !before.contains(p) {
                assert(all.last() == p);
            }
        }
        if all.contains(p) && !before.contains(p) {
            assert(others[n - 1] == p);
            assert(first[n - 1] == p);
        }
    } else {
        assert(first.len() == 0);
    }
}

proof fn filtered_contains(listed: Seq<Seq<char>>, p: Seq<char>)
    ensures
        database_files(listed).contains(p) <==> listed.contains(p) && is_database_file(p),
    decreases listed.len(),
{
    reveal(Seq::filter);
    let keep = |q: Seq<char>| is_database_file(q);
    if listed.len() > 0 {
        let front = listed.drop_last();
        let last = listed.last();
        filtered_contains(front, p);
        let all = database_files(listed);
        let before = database_files(front);
        if before.contains(p) {
            let k = choose|k: int| 0 <= k < before.len() && before[k] == p;
            assert(all[k] == p);
        }
        if front.contains(p) {
            let k = choose|k: int| 0 <= k < front.len() && front[k] == p;
            assert(listed[k] == p);
        }
        assert(keep(last) == is_database_file(last));
        if last == p {
            assert(listed[listed.len() - 1] == p);
            if is_database_file(p) {
                assert(all.last() == p);
            }
        }
        if listed.contains(p) && last != p {
            let k = choose|k: int| 0 <= k < listed.len() && listed[k] == p;
            assert(front[k] == p);
        }
        if all.contains(p) {
            let k = choose|k: int| 0 <= k < all.len() && all[k] == p;
            if k < before.len() {
                assert(before[k] == p);
            } else {
                assert(p == last && is_database_file(last));
            }
        }
    }
}

impl StartupState {
    pub open spec fn menu_len(self) -> nat {
        if self.recent.len() == 0 {
            2
        } else {
            3 + self.recent.len()
        }
    }

    /// The items of the menu: two commands, and the databases under a line.
    pub open spec fn menu_item(self, i: int) -> Seq<char> {
        if i == 0 {
            "Create New Database"@
        } else if i == 1 {
            "Open Database..."@
        } else if i == 2 {
            "─── Recent Databases ───"@
        } else {
            "  "@ + self.recent[i - 3]
        }
    }

    pub open spec fn place(self) -> usize {
        match self.menu_state.selected {
            Some(i) => i,
            None => 0,
        }
    }

    pub open spec fn chosen(self) -> StartupState {
        let i = self.place();
        if i == 0 {
            StartupState {
                input_mode: InputMode::NewPath,
                input: "accountir.db"@,
                error: None,
                ..self
            }
        } else if i == 1 {
            StartupState {
                input_mode: InputMode::OpenPath,
                input: Seq::empty(),
                error: None,
                ..self
            }
        } else if i >= 3 && i - 3 < self.recent.len() {
            StartupState { action: StartupWish::OpenDatabase(self.recent[i - 3]), ..self }
        } else {
            self
        }
    }

    pub open spec fn after_menu_key(self, key: KeyCode) -> StartupState {
        match key {
            KeyCode::Up | KeyCode::Char('k') => StartupState {
                menu_state: self.menu_state.moved(
                    Some(selection::up_around(Some(self.place()), self.menu_len())),
                ),
                ..self
            },
            KeyCode::Down | KeyCode::Char('j') => StartupState {
                menu_state: self.menu_state.moved(
                    Some(selection::down_around(Some(self.place()), self.menu_len())),
                ),
                ..self
            },
            KeyCode::Enter => self.chosen(),
            _ => self,
        }
    }

    /// The screen after a key, and the path that has to be looked up.
    pub open spec fn after_key(self, key: KeyCode) -> (StartupState, Option<Seq<char>>) {
        if self.input_mode == InputMode::Menu {
            (self.after_menu_key(key), None)
        } else {
            match key {
                KeyCode::Esc => (
                    StartupState {
                        input_mode: InputMode::Menu,
                        input: Seq::empty(),
                        error: None,
                        ..self
                    },
                    None,
                ),
                KeyCode::Enter => if self.input.len() == 0 {
                    (StartupState { error: Some("Please enter a file path"@), ..self }, None)
                } else {
                    (self, Some(self.input))
                },
                KeyCode::Backspace => (
                    StartupState { input: text::without_last(self.input), ..self },
                    None,
                ),
                KeyCode::Char(c) => (StartupState { input: self.input.push(c), ..self }, None),
                _ => (self, None),
            }
        }
    }

    pub open spec fn path_checked(self, path: Seq<char>, there: bool) -> StartupState {
        match self.input_mode {
            InputMode::NewPath => if there {
                StartupState {
                    error: Some("File already exists. Use 'Open' instead."@),
                    ..self
                }
            } else {
                StartupState { action: StartupWish::NewDatabase(path), ..self }
            },
            InputMode::OpenPath => if there {
                StartupState { action: StartupWish::OpenDatabase(path), ..self }
            } else {
                StartupState { error: Some("File does not exist."@), ..self }
            },
            InputMode::Menu => self,
        }
    }
}

/// A new database never takes the place of an existing file.
pub proof fn new_databases_are_new(s: StartupState, path: Seq<char>, there: bool)
    requires
        s.action is Nothing,
    ensures
        s.path_checked(path, there).action is NewDatabase ==> !there,
        s.path_checked(path, there).action is OpenDatabase ==> there,
{
}

impl StartupView {
    pub fn new(recent: Vec<String>) -> (r: Self)
        ensures
            r@ == StartupState::fresh(text::texts(recent@)),
    {
        StartupView {
            action: StartupAction::Nothing,
            menu_state: Selection::at(0),
            input_mode: InputMode::Menu,
            input_buffer: String::new(),
            recent_databases: recent,
            error_message: None,
        }
    }

    pub fn has_action(&self) -> (r: bool)
        ensures
            r == !(self.action is Nothing),
    {
        !matches!(self.action, StartupAction::Nothing)
    }

    /// Handles a key; the answer is a path that has to be looked up.
    pub fn handle_key(&mut self, key: KeyCode) -> (r: Option<String>)
        requires
            old(self).recent_databases@.len() < usize::MAX - 3,
        ensures
            (final(self)@, text::opt_text(r)) == old(self)@.after_key(key),
            final(self).recent_databases == old(self).recent_databases,
    {
        match self.input_mode {
            InputMode::Menu => {
                self.handle_menu_key(key);
                None
            },
            _ => self.handle_input_key(key),
        }
    }

    fn handle_menu_key(&mut self, key: KeyCode)
        requires
            old(self).recent_databases@.len() < usize::MAX - 3,
        ensures
            final(self)@ == old(self)@.after_menu_key(key),
            final(self).recent_databases == old(self).recent_databases,
    {
        let n: usize = if self.recent_databases.len() == 0 {
            2
        } else {
            3 + self.recent_databases.len()
        };
        let at: usize = match self.menu_state.selected {
            Some(i) => i,
            None => 0,
        };
        match key {
            KeyCode::Up | KeyCode::Char('k') => {
                let i: usize = selection::move_up_around(Some(at), n);
                self.menu_state = self.menu_state.moved(Some(i));
            },
            KeyCode::Down | KeyCode::Char('j') => {
                let i: usize = selection::move_down_around(Some(at), n);
                self.menu_state = self.menu_state.moved(Some(i));
            },
            KeyCode::Enter => {
                self.select_menu_item();
            },
            _ => {},
        }
    }

    fn select_menu_item(&mut self)
        ensures
            final(self)@ == old(self)@.chosen(),
            final(self).recent_databases == old(self).recent_databases,
    {
        let at: usize = match self.menu_state.selected {
            Some(i) => i,
            None => 0,
        };
        if at == 0 {
            self.input_mode = InputMode::NewPath;
            self.input_buffer = text::owned("accountir.db");
            self.error_message = None;
        } else if at == 1 {
            self.input_mode = InputMode::OpenPath;
            self.input_buffer.clear();
            self.error_message = None;
        } else if at >= 3 && at - 3 < self.recent_databases.len() {
            assert(self@.recent[at - 3] == self.recent_databases@[at - 3]@);
            self.action = StartupAction::OpenDatabase(self.recent_databases[at - 3].clone());
        }
    }

    fn handle_input_key(&mut self, key: KeyCode) -> (r: Option<String>)
        requires
            old(self).input_mode != InputMode::Menu,
        ensures
            (final(self)@, text::opt_text(r)) == old(self)@.after_key(key),
            final(self).recent_databases == old(self).recent_databases,
    {
        match key {
            KeyCode::Esc => {
                self.input_mode = InputMode::Menu;
                self.input_buffer.clear();
                self.error_message = None;
                None
            },
            KeyCode::Enter => {
                if self.input_buffer.as_str().unicode_len() == 0 {
                    self.error_message = Some(text::owned("Please enter a file path"));
                    None
                } else {
                    Some(self.input_buffer.clone())
                }
            },
            KeyCode::Backspace => {
                self.input_buffer.pop();
                None
            },
            KeyCode::Char(c) => {
                self.input_buffer.push(c);
                None
            },
            _ => None,
        }
    }

    /// Goes on with a path after it was looked up.
    pub fn path_checked(&mut self, path: String, exists_: bool)
        ensures
            final(self)@ == old(self)@.path_checked(path@, exists_),
    {
        match self.input_mode {
            InputMode::NewPath => {
                if exists_ {
                    self.error_message = Some(
                        text::owned("File already exists. Use 'Open' instead."),
                    );
                } else {
                    self.action = StartupAction::NewDatabase(path);
                }
            },
            InputMode::OpenPath => {
                if exists_ {
                    self.action = StartupAction::OpenDatabase(path);
                } else {
                    self.error_message = Some(text::owned("File does not exist."));
                }
            },
            InputMode::Menu => {},
        }
    }
}

// ---- drawing ----

/// The startup screen as it is drawn.
pub struct StartupPainting {
    pub title: Page,
    pub menu: Page,
    /// The title of the line below the menu; empty over the help.
    pub bottom_title: &'static str,
    pub bottom: Line,
}

pub open spec fn title_lines(theme: &Theme) -> Seq<LineView> {
    seq![
        paint::blank_view(),
        seq![("  ╔═══════════════════════════════════════╗"@, theme::colored(theme.accent))],
        seq![
            ("  ║          A C C O U N T I R            ║"@, theme::bold_colored(theme.accent)),
        ],
        seq![("  ║   Event-Sourced Accounting System     ║"@, theme::colored(theme.accent))],
        seq![("  ╚═══════════════════════════════════════╝"@, theme::colored(theme.accent))],
    ]
}

impl StartupState {
    pub open spec fn menu_line(self, i: int, theme: &Theme) -> LineView {
        seq![
            (
                self.menu_item(i),
                theme::colored(
                    if i == 2 {
                        theme.fg_dim
                    } else if i < 2 {
                        theme.fg
                    } else {
                        theme.header
                    },
                ),
            ),
        ]
    }

    pub open spec fn bottom_line(self, theme: &Theme) -> LineView {
        if self.input_mode == InputMode::Menu {
            let a = paint::hint(Seq::empty(), "↑/↓"@, " navigate  "@, theme.header);
            let b = paint::hint(a, "Enter"@, " select  "@, theme.header);
            paint::hint(b, "q"@, " quit"@, theme.header)
        } else {
            business_picker::input_line(self.input, self.error, theme)
        }
    }
}

impl StartupView {
    /// The items of the menu.
    pub fn get_menu_items(&self) -> (r: Vec<String>)
        ensures
            text::texts(r@) == Seq::new(self@.menu_len(), |i: int| self@.menu_item(i)),
    {
        let mut items: Vec<String> = Vec::new();
        items.push(text::owned("Create New Database"));
        items.push(text::owned("Open Database..."));
        if self.recent_databases.len() > 0 {
            items.push(text::owned("─── Recent Databases ───"));
            let mut i: usize = 0;
            assert(text::texts(items@) =~= Seq::new(3, |i: int| self@.menu_item(i)));
            while i < self.recent_databases.len()
                invariant
                    i <= self.recent_databases@.len(),
                    text::texts(items@) =~= Seq::new(
                        (3 + i) as nat,
                        |i: int| self@.menu_item(i),
                    ),
                decreases self.recent_databases@.len() - i,
            {
                assert(self@.recent[i as int] == self.recent_databases@[i as int]@);
                assert(self@.menu_item(3 + i) == "  "@ + self@.recent[i as int]);
                let ghost before = text::texts(items@);
                items.push(text::cat2("  ", self.recent_databases[i].as_str()));
                assert(text::texts(items@) =~= before.push(self@.menu_item(3 + i)));
                i = i + 1;
            }
        } else {
            assert(text::texts(items@) =~= Seq::new(2, |i: int| self@.menu_item(i)));
        }
        items
    }

    /// Draws the startup screen.
    pub fn draw(&self, theme: &Theme) -> (r: StartupPainting)
        ensures
            r.title@ == title_lines(theme),
            r.menu@ == Seq::new(self@.menu_len(), |i: int| self@.menu_line(i, theme)),
            r.bottom_title@ == (match self.input_mode {
                InputMode::Menu => ""@,
                InputMode::NewPath => " New Database Path "@,
                InputMode::OpenPath => " Open Database Path "@,
            }),
            r.bottom@ == self@.bottom_line(theme),
    {
        let accent = theme::colored(theme.accent);
        let mut title: Page = Listing::new();
        title.push(paint::blank());
        title.push(paint::styled_line("  ╔═══════════════════════════════════════╗", accent));
        title.push(
            paint::styled_line(
                "  ║          A C C O U N T I R            ║",
                theme::bold_colored(theme.accent),
            ),
        );
        title.push(paint::styled_line("  ║   Event-Sourced Accounting System     ║", accent));
        title.push(paint::styled_line("  ╚═══════════════════════════════════════╝", accent));
        let items = self.get_menu_items();
        let mut menu: Page = Listing::new();
        let mut i: usize = 0;
        while i < items.len()
            invariant
                i <= items@.len(),
                text::texts(items@) == Seq::new(self@.menu_len(), |i: int| self@.menu_item(i)),
                text::texts(items@).len() == items@.len(),
                menu@ =~= Seq::new(i as nat, |i: int| self@.menu_line(i, theme)),
            decreases items@.len() - i,
        {
            let color = if i == 2 {
                theme.fg_dim
            } else if i < 2 {
                theme.fg
            } else {
                theme.header
            };
            assert(text::texts(items@)[i as int] == items@[i as int]@);
            menu.push(paint::styled_line(items[i].as_str(), theme::colored(color)));
            i = i + 1;
        }
        let bottom = match self.input_mode {
            InputMode::Menu => {
                let mut line: Line = Listing::new();
                paint::push_hint(&mut line, "↑/↓", " navigate  ", theme.header);
                paint::push_hint(&mut line, "Enter", " select  ", theme.header);
                paint::push_hint(&mut line, "q", " quit", theme.header);
                line
            },
            _ => business_picker::draw_input_line(
                self.input_buffer.as_str(),
                &self.error_message,
                theme,
            ),
        };
        StartupPainting {
            title,
            menu,
            bottom_title: match self.input_mode {
                InputMode::Menu => "",
                InputMode::NewPath => " New Database Path ",
                InputMode::OpenPath => " Open Database Path ",
            },
            bottom,
        }
    }
}

} // verus!
