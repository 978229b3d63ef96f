//! The modal that links an account to a bank account.

use vstd::prelude::*;

use crate::input::KeyCode;
use crate::text;
use crate::tui::paint;
use crate::tui::paint::{Line, LineView, Listing, Page, Rect};
use crate::tui::theme;
use crate::tui::theme::{Style, Theme};
use crate::tui::widgets;

verus! {

/// A bank account that an account can be linked to.
pub struct PlaidAccountOption {
    pub item_id: String,
    pub plaid_account_id: String,
    pub institution_name: String,
    pub account_name: String,
    pub mask: Option<String>,
    pub account_type: String,
    /// The account it is linked to already.
    pub mapped_to_local_id: Option<String>,
    pub mapped_to_local_name: Option<String>,
}

/// What the modal was closed with.
pub enum PlaidLinkResult {
    Nothing,
    Cancel,
    Link { item_id: String, plaid_account_id: String, local_account_id: String },
    Unlink { item_id: String, plaid_account_id: String, local_account_id: String },
}

/// The meaning of what the modal was closed with.
#[verifier::ext_equal]
pub ghost enum LinkOutcome {
    Nothing,
    Cancel,
    Link { item: Seq<char>, plaid: Seq<char>, local: Seq<char> },
    Unlink { item: Seq<char>, plaid: Seq<char>, local: Seq<char> },
}

impl View for PlaidLinkResult {
    type V = LinkOutcome;

    open spec fn view(&self) -> LinkOutcome {
        match self {
            PlaidLinkResult::Nothing => LinkOutcome::Nothing,
            PlaidLinkResult::Cancel => LinkOutcome::Cancel,
            PlaidLinkResult::Link { item_id, plaid_account_id, local_account_id } =>
                LinkOutcome::Link {
                item: item_id@,
                plaid: plaid_account_id@,
                local: local_account_id@,
            },
            PlaidLinkResult::Unlink { item_id, plaid_account_id, local_account_id } =>
                LinkOutcome::Unlink {
                item: item_id@,
                plaid: plaid_account_id@,
                local: local_account_id@,
            },
        }
    }
}

/// The bank account that the account is linked to.
pub struct CurrentMapping {
    pub item_id: String,
    pub plaid_account_id: String,
    pub local_account_id: String,
    pub institution_name: String,
    pub plaid_account_name: String,
    pub mask: Option<String>,
}

/// The modal.
pub struct PlaidLinkModal {
    pub visible: bool,
    pub result: PlaidLinkResult,
    pub local_account_id: String,
    pub local_account_name: String,
    pub current_mapping: Option<CurrentMapping>,
    pub available_accounts: Vec<PlaidAccountOption>,
    pub selected: usize,
}

/// The meaning of the modal.
#[verifier::ext_equal]
pub ghost struct LinkState {
    pub visible: bool,
    pub result: LinkOutcome,
    pub local_id: Seq<char>,
    pub local_name: Seq<char>,
    pub current: Option<CurrentMapping>,
    pub options: Seq<PlaidAccountOption>,
    pub selected: int,
}

impl LinkState {
    /// The state of a new screen.
    pub open spec fn fresh() -> LinkState {
        LinkState {
            visible: false,
            result: LinkOutcome::Nothing,
            local_id: Seq::empty(),
            local_name: Seq::empty(),
            current: None,
            options: Seq::empty(),
            selected: 0,
        }
    }
}

impl View for PlaidLinkModal {
    type V = LinkState;

    open spec fn view(&self) -> LinkState {
        LinkState {
            visible: self.visible,
            result: self.result@,
            local_id: self.local_account_id@,
            local_name: self.local_account_name@,
            current: self.current_mapping,
            options: self.available_accounts@,
            selected: self.selected as int,
        }
    }
}

/// Whether a bank account is free for an account: linked to none, or to it.
pub open spec fn is_free(a: PlaidAccountOption, local_id: Seq<char>) -> bool {
    a.mapped_to_local_id is None || text::opt_text(a.mapped_to_local_id) == Some(local_id)
}

impl LinkState {
    /// The modal closed, with the account forgotten.
    pub open spec fn closed(self) -> LinkState {
        LinkState { result: self.result, ..LinkState::fresh() }
    }

    /// The highlighted position is in the list, if there is one.
    pub open spec fn wf(self) -> bool {
        self.selected == 0 || 0 <= self.selected < self.options.len()
    }

    pub open spec fn after_key(self, key: KeyCode) -> LinkState {
        let n = self.options.len();
        match key {
            KeyCode::Esc => LinkState { result: LinkOutcome::Cancel, ..self },
            KeyCode::Char('j') | KeyCode::Down => if n == 0 {
                self
            } else {
                LinkState {
                    selected: if self.selected + 1 == n {
                        0
                    } else {
                        self.selected + 1
                    },
                    ..self
                }
            },
            KeyCode::Char('k') | KeyCode::Up => if n == 0 {
                self
            } else {
                LinkState {
                    selected: if self.selected == 0 {
                        n - 1
                    } else {
                        self.selected - 1
                    },
                    ..self
                }
            },
            KeyCode::Enter => if self.selected < n && is_free(
                self.options[self.selected],
                self.local_id,
            ) {
                let a = self.options[self.selected];
                LinkState {
                    result: LinkOutcome::Link {
                        item: a.item_id@,
                        plaid: a.plaid_account_id@,
                        local: self.local_id,
                    },
                    ..self
                }
            } else {
                self
            },
            KeyCode::Char('u') => match self.current {
                Some(m) => LinkState {
                    result: LinkOutcome::Unlink {
                        item: m.item_id@,
                        plaid: m.plaid_account_id@,
                        local: m.local_account_id@,
                    },
                    ..self
                },
                None => self,
            },
            _ => self,
        }
    }
}

/// A bank account that belongs to another account is never linked.
pub proof fn taken_accounts_are_not_linked(s: LinkState, key: KeyCode)
    requires
        !(s.result is Link),
        s.after_key(key).result is Link,
    ensures
        is_free(s.options[s.selected], s.local_id),
        s.after_key(key).result->Link_local == s.local_id,
{
}

impl PlaidLinkModal {
    pub fn new() -> (r: Self)
        ensures
            r@ == LinkState::fresh(),
    {
        PlaidLinkModal {
            visible: false,
            result: PlaidLinkResult::Nothing,
            local_account_id: String::new(),
            local_account_name: String::new(),
            current_mapping: None,
            available_accounts: Vec::new(),
            selected: 0,
        }
    }

    pub fn show(
        &mut self,
        local_account_id: String,
        local_account_name: String,
        current_mapping: Option<CurrentMapping>,
        available_accounts: Vec<PlaidAccountOption>,
    )
        ensures
            final(self)@ == (LinkState {
                visible: true,
                result: LinkOutcome::Nothing,
                local_id: local_account_id@,
                local_name: local_account_name@,
                current: current_mapping,
                options: available_accounts@,
                selected: 0,
            }),
    {
        self.visible = true;
        self.result = PlaidLinkResult::Nothing;
        self.local_account_id = local_account_id;
        self.local_account_name = local_account_name;
        self.current_mapping = current_mapping;
        self.available_accounts = available_accounts;
        self.selected = 0;
    }

    /// Closes the modal and forgets the account.
    pub fn close(&mut self)
        ensures
            final(self)@ == old(self)@.closed(),
    {
        self.visible = false;
        self.local_account_id.clear();
        self.local_account_name.clear();
        self.current_mapping = None;
        self.available_accounts = Vec::new();
        self.selected = 0;
    }

    pub fn handle_key(&mut self, key: KeyCode)
        requires
            old(self)@.wf(),
        ensures
            final(self)@ == old(self)@.after_key(key),
            final(self)@.wf(),
    {
        let n: usize = self.available_accounts.len();
        match key {
            KeyCode::Esc => {
                self.result = PlaidLinkResult::Cancel;
            },
            KeyCode::Char('j') | KeyCode::Down => {
                if n > 0 {
                    self.selected = if self.selected + 1 == n {
                        0
                    } else {
                        self.selected + 1
                    };
                }
            },
            KeyCode::Char('k') | KeyCode::Up => {
                if n > 0 {
                    self.selected = if self.selected == 0 {
                        n - 1
                    } else {
                        self.selected - 1
                    };
                }
            },
            KeyCode::Enter => {
                if self.selected < n {
                    let a = &self.available_accounts[self.selected];
                    if a.mapped_to_local_id.is_none() || text::opt_is(
                        &a.mapped_to_local_id,
                        self.local_account_id.as_str(),
                    ) {
                        self.result = PlaidLinkResult::Link {
                            item_id: a.item_id.clone(),
                            plaid_account_id: a.plaid_account_id.clone(),
                            local_account_id: self.local_account_id.clone(),
                        };
                    }
                }
            },
            KeyCode::Char('u') => {
                if let Some(m) = &self.current_mapping {
                    self.result = PlaidLinkResult::Unlink {
                        item_id: m.item_id.clone(),
                        plaid_account_id: m.plaid_account_id.clone(),
                        local_account_id: m.local_account_id.clone(),
                    };
                }
            },
            _ => {},
        }
    }
}

impl Default for PlaidLinkModal {
    fn default() -> (r: Self)
        ensures
            r@ == LinkState::fresh(),
    {
        Self::new()
    }
}

// ---- drawing ----

/// An optional mask between two texts.
pub open spec fn masked(name: Seq<char>, lead: Seq<char>, mask: Option<String>, tail: Seq<char>) -> Seq<
    char,
> {
    match mask {
        Some(m) => name + lead + m@ + tail,
        None => name,
    }
}

fn write_masked(name: String, lead: &str, mask: &Option<String>, tail: &str) -> (r: String)
    ensures
        r@ == masked(name@, lead@, *mask, tail@),
{
    match mask {
        Some(m) => text::cat4(name.as_str(), lead, m.as_str(), tail),
        None => name,
    }
}

pub open spec fn linked_lines(m: CurrentMapping, theme: &Theme) -> Seq<LineView> {
    seq![
        seq![
            ("Linked: "@, theme::colored(theme.success)),
            paint::raw_view(
                masked(
                    m.institution_name@ + " - "@ + m.plaid_account_name@,
                    " (***"@,
                    m.mask,
                    ")"@,
                ),
            ),
        ],
        seq![
            ("  u: unlink"@, theme::bold_colored(theme.header)),
            paint::raw_view("  Esc: cancel"@),
        ],
    ]
}

fn draw_linked(m: &CurrentMapping, theme: &Theme) -> (r: Page)
    ensures
        r@ == linked_lines(*m, theme),
{
    let name = text::cat3(m.institution_name.as_str(), " - ", m.plaid_account_name.as_str());
    let shown = write_masked(name, " (***", &m.mask, ")");
    paint::list2(
        paint::list2(
            paint::styled("Linked: ", theme::colored(theme.success)),
            paint::raw_owned(shown),
        ),
        paint::list2(
            paint::styled("  u: unlink", theme::bold_colored(theme.header)),
            paint::raw("  Esc: cancel"),
        ),
    )
}

/// A bank account in the list.
pub open spec fn option_line(
    a: PlaidAccountOption,
    selected: bool,
    local_id: Seq<char>,
    theme: &Theme,
) -> LineView {
    let here = text::opt_text(a.mapped_to_local_id) == Some(local_id);
    let elsewhere = a.mapped_to_local_id is Some && !here;
    let style = if selected {
        theme.selected_style()
    } else if elsewhere {
        theme::colored(theme.fg_disabled)
    } else {
        Style::plain()
    };
    let start: LineView = seq![
        (
            if selected {
                "> "@
            } else {
                "  "@
            },
            style,
        ),
        (
            masked(a.institution_name@ + " - "@ + a.account_name@, " ***"@, a.mask, ""@),
            style,
        ),
    ];
    if here {
        start.push((" (current)"@, style.on_fg(theme.success)))
    } else if elsewhere {
        start.push(
            (
                " (mapped to "@ + text::text_or(a.mapped_to_local_name, "?"@) + ")"@,
                style.on_fg(theme.fg_disabled),
            ),
        )
    } else {
        start
    }
}

fn draw_option(a: &PlaidAccountOption, selected: bool, local_id: &str, theme: &Theme) -> (r: Line)
    ensures
        r@ == option_line(*a, selected, local_id@, theme),
{
    let here: bool = text::opt_is(&a.mapped_to_local_id, local_id);
    let elsewhere: bool = a.mapped_to_local_id.is_some() && !here;
    let style = if selected {
        theme.selected_style()
    } else if elsewhere {
        theme::colored(theme.fg_disabled)
    } else {
        Style::plain()
    };
    let name = text::cat3(a.institution_name.as_str(), " - ", a.account_name.as_str());
    let shown = write_masked(name, " ***", &a.mask, "");
    let mut line = paint::list2(
        paint::styled(
            if selected {
                "> "
            } else {
                "  "
            },
            style,
        ),
        paint::styled_owned(shown, style),
    );
    if here {
        line.push(paint::styled(" (current)", style.on_fg(theme.success)));
    } else if elsewhere {
        let other = text::or_text(&a.mapped_to_local_name, "?");
        line.push(
            paint::styled_owned(
                text::cat3(" (mapped to ", other.as_str(), ")"),
                style.on_fg(theme.fg_disabled),
            ),
        );
    }
    line
}

pub open spec fn no_options_lines(theme: &Theme) -> Seq<LineView> {
    seq![
        seq![("No Plaid items connected."@, theme::colored(theme.fg_dim))],
        seq![
            ("Press "@, theme::colored(theme.fg_dim)),
            ("6"@, theme::colored(theme.header)),
            (" to open the Plaid view and connect a bank."@, theme::colored(theme.fg_dim)),
        ],
    ]
}

pub open spec fn help_line(theme: &Theme) -> LineView {
    let a = paint::hint(Seq::empty(), "Enter"@, ": link  "@, theme.header);
    let b = paint::hint(a, "j/k"@, ": navigate  "@, theme.header);
    paint::hint(b, "Esc"@, ": cancel"@, theme.header)
}

impl LinkState {
    /// The lines that say what the account is linked to.
    pub open spec fn status_lines(self, theme: &Theme) -> Seq<LineView> {
        match self.current {
            Some(m) => linked_lines(m, theme),
            None => seq![
                seq![("Not linked to any Plaid account"@, theme::colored(theme.fg_dim))],
            ],
        }
    }

    pub open spec fn option_lines(self, theme: &Theme) -> Seq<LineView> {
        Seq::new(
            self.options.len(),
            |i: int| option_line(self.options[i], i == self.selected, self.local_id, theme),
        )
    }

    pub open spec fn lines(self, theme: &Theme) -> Seq<LineView> {
        let head = self.status_lines(theme).push(paint::blank_view());
        if self.options.len() == 0 {
            head + no_options_lines(theme)
        } else {
            (head.push(seq![("Available Plaid accounts:"@, theme::bold())]).push(
                paint::blank_view(),
            ) + self.option_lines(theme)).push(paint::blank_view()).push(help_line(theme))
        }
    }
}

impl PlaidLinkModal {
    /// The rectangle of the modal.
    pub fn modal_area(&self, area: Rect) -> (r: Rect)
        ensures
            r == widgets::centered_box(area, 60, 20),
    {
        widgets::modal_box(area, 60, 20)
    }

    pub fn title(&self) -> (r: String)
        ensures
            r@ == " Plaid Link: "@ + self.local_account_name@ + " "@,
    {
        text::cat3(" Plaid Link: ", self.local_account_name.as_str(), " ")
    }

    /// Draws the lines of the modal.
    pub fn draw(&self, theme: &Theme) -> (r: Page)
        ensures
            r@ == self@.lines(theme),
    {
        let mut page = match &self.current_mapping {
            Some(m) => draw_linked(m, theme),
            None => paint::list1(
                paint::styled_line(
                    "Not linked to any Plaid account",
                    theme::colored(theme.fg_dim),
                ),
            ),
        };
        page.push(paint::blank());
        if self.available_accounts.len() == 0 {
            page.push(
                paint::styled_line("No Plaid items connected.", theme::colored(theme.fg_dim)),
            );
            page.push(
                paint::list3(
                    paint::styled("Press ", theme::colored(theme.fg_dim)),
                    paint::styled("6", theme::colored(theme.header)),
                    paint::styled(
                        " to open the Plaid view and connect a bank.",
                        theme::colored(theme.fg_dim),
                    ),
                ),
            );
            assert(page@ =~= self@.lines(theme));
            return page;
        }
        page.push(paint::styled_line("Available Plaid accounts:", theme::bold()));
        page.push(paint::blank());
        let ghost head = page@;
        let mut i: usize = 0;
        assert(page@ =~= head + self@.option_lines(theme).take(0));
        while i < self.available_accounts.len()
            invariant
                i <= self.available_accounts@.len(),
                page@ =~= head + self@.option_lines(theme).take(i as int),
            decreases self.available_accounts@.len() - i,
        {
            page.push(
                draw_option(
                    &self.available_accounts[i],
                    i == self.selected,
                    self.local_account_id.as_str(),
                    theme,
                ),
            );
            i = i + 1;
        }
        assert(self@.option_lines(theme).take(i as int) =~= self@.option_lines(theme));
        page.push(paint::blank());
        let mut help: Line = Listing::new();
        paint::push_hint(&mut help, "Enter", ": link  ", theme.header);
        paint::push_hint(&mut help, "j/k", ": navigate  ", theme.header);
        paint::push_hint(&mut help, "Esc", ": cancel", theme.header);
        page.push(help);
        page
    }
}

} // verus!
