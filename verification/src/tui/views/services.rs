//! The event services screen.

use vstd::prelude::*;

use crate::domain::ReportingFrequency;
use crate::input::KeyCode;
use crate::queries::ServiceDisplay;
use crate::selection;
use crate::text;
use crate::tui::paint;
use crate::tui::paint::{Line, Listing, Row, RowView};
use crate::tui::theme;
use crate::tui::theme::Theme;

verus! {

/// What the program is to do for the screen.
pub enum ServiceAction {
    Nothing,
    Register,
    Sync(String),
    Review(String),
    Remove(String),
    /// Post the sales of a service less often. A cycle rather than a menu, as
    /// there are only four choices.
    CycleReporting(String, ReportingFrequency),
}

/// The meaning of what the program is to do.
#[verifier::ext_equal]
pub ghost enum ServiceWish {
    Nothing,
    Register,
    Sync(Seq<char>),
    Review(Seq<char>),
    Remove(Seq<char>),
    CycleReporting(Seq<char>, ReportingFrequency),
}

impl View for ServiceAction {
    type V = ServiceWish;

    open spec fn view(&self) -> ServiceWish {
        match self {
            ServiceAction::Nothing => ServiceWish::Nothing,
            ServiceAction::Register => ServiceWish::Register,
            ServiceAction::Sync(id) => ServiceWish::Sync(id@),
            ServiceAction::Review(id) => ServiceWish::Review(id@),
            ServiceAction::Remove(id) => ServiceWish::Remove(id@),
            ServiceAction::CycleReporting(id, f) => ServiceWish::CycleReporting(id@, *f),
        }
    }
}

/// The event services screen.
pub struct ServicesView {
    pub services: Vec<ServiceDisplay>,
    pub selected: usize,
    pub status_message: Option<String>,
}

/// The meaning of the event services screen.
#[verifier::ext_equal]
pub ghost struct ServicesState {
    pub services: Seq<ServiceDisplay>,
    pub selected: usize,
    pub status: Option<Seq<char>>,
}

impl View for ServicesView {
    type V = ServicesState;

    open spec fn view(&self) -> ServicesState {
        ServicesState {
            services: self.services@,
            selected: self.selected,
            status: text::opt_text(self.status_message),
        }
    }
}

impl ServicesState {
    /// The highlighted service.
    pub open spec fn current(self) -> Option<ServiceDisplay> {
        if self.selected < self.services.len() {
            Some(self.services[self.selected as int])
        } else {
            None
        }
    }

    pub open spec fn after_key(self, key: KeyCode) -> (ServicesState, ServiceWish) {
        match key {
            KeyCode::Char('j') | KeyCode::Down => (
                ServicesState {
                    selected: selection::down_to_last(self.selected, self.services.len()),
                    ..self
                },
                ServiceWish::Nothing,
            ),
            KeyCode::Char('k') | KeyCode::Up => (
                ServicesState { selected: selection::up_to_first(self.selected), ..self },
                ServiceWish::Nothing,
            ),
            KeyCode::Char('a') => (self, ServiceWish::Register),
            KeyCode::Char(c) => (
                self,
                match self.current() {
                    None => ServiceWish::Nothing,
                    Some(s) => if c == 's' {
                        ServiceWish::Sync(s.id@)
                    } else if c == 'r' {
                        ServiceWish::Review(s.id@)
                    } else if c == 'f' {
                        ServiceWish::CycleReporting(s.id@, s.reporting.following())
                    } else if c == 'd' {
                        ServiceWish::Remove(s.id@)
                    } else {
                        ServiceWish::Nothing
                    },
                },
            ),
            _ => (self, ServiceWish::Nothing),
        }
    }
}

/// The next frequency in the cycle, wrapping.
///
/// Ordered as an escalation — every sale, then daily, weekly, monthly — so that
/// holding `f` walks from most detail to least.
pub fn next_frequency(current: ReportingFrequency) -> (r: ReportingFrequency)
    ensures
        r == current.following(),
{
    match current {
        ReportingFrequency::PerEvent => ReportingFrequency::Daily,
        ReportingFrequency::Daily => ReportingFrequency::Weekly,
        ReportingFrequency::Weekly => ReportingFrequency::Monthly,
        ReportingFrequency::Monthly => ReportingFrequency::PerEvent,
    }
}

pub open spec fn service_row(s: ServiceDisplay, selected: bool, theme: &Theme) -> RowView {
    RowView {
        cells: paint::plain_cells(
            seq![
                s.name@,
                s.root_url@,
                s.reporting.title(),
                s.status@,
                text::text_or(s.last_synced_at, "never"@),
                text::signed_decimal(s.events_processed as int),
                text::signed_decimal(s.entries_created as int),
            ],
        ),
        style: if selected {
            theme::bold_colored(theme.accent)
        } else {
            theme::colored(theme.fg)
        },
    }
}

fn draw_service(s: &ServiceDisplay, selected: bool, theme: &Theme) -> (r: Row)
    ensures
        r@ == service_row(*s, selected, theme),
{
    let mut cells: Line = Listing::new();
    paint::push_str(&mut cells, s.name.as_str());
    paint::push_str(&mut cells, s.root_url.as_str());
    paint::push_str(&mut cells, s.reporting.label());
    paint::push_str(&mut cells, s.status.as_str());
    paint::push_text(&mut cells, text::or_text(&s.last_synced_at, "never"));
    paint::push_text(&mut cells, text::signed_number(s.events_processed));
    paint::push_text(&mut cells, text::signed_number(s.entries_created));
    assert(cells@ =~= service_row(*s, selected, theme).cells);
    paint::row(
        cells,
        if selected {
            theme::bold_colored(theme.accent)
        } else {
            theme::colored(theme.fg)
        },
    )
}

/// The screen as it is drawn: a message if no service is registered.
pub enum ServicesPainting {
    Empty(Line),
    Table { rows: Listing<Row>, status: Option<Line> },
}

impl ServicesView {
    pub fn new() -> (r: Self)
        ensures
            r@ == (ServicesState { services: Seq::empty(), selected: 0, status: None }),
    {
        ServicesView { services: Vec::new(), selected: 0, status_message: None }
    }

    pub fn set_services(&mut self, services: Vec<ServiceDisplay>)
        ensures
            final(self)@ == (ServicesState {
                services: services@,
                selected: selection::kept_within(old(self).selected, services@.len()),
                ..old(self)@
            }),
    {
        self.services = services;
        self.selected = selection::keep_within(self.selected, self.services.len());
    }

    pub fn handle_key(&mut self, key: KeyCode) -> (r: ServiceAction)
        ensures
            (final(self)@, r@) == old(self)@.after_key(key),
    {
        match key {
            KeyCode::Char('j') | KeyCode::Down => {
                self.selected = selection::move_down(self.selected, self.services.len());
                ServiceAction::Nothing
            },
            KeyCode::Char('k') | KeyCode::Up => {
                self.selected = selection::move_up(self.selected);
                ServiceAction::Nothing
            },
            KeyCode::Char('a') => ServiceAction::Register,
            KeyCode::Char(c) => {
                if self.selected >= self.services.len() {
                    return ServiceAction::Nothing;
                }
                let s = &self.services[self.selected];
                match c {
                    's' => ServiceAction::Sync(s.id.clone()),
                    'r' => ServiceAction::Review(s.id.clone()),
                    'f' => ServiceAction::CycleReporting(s.id.clone(), next_frequency(s.reporting)),
                    'd' => ServiceAction::Remove(s.id.clone()),
                    _ => ServiceAction::Nothing,
                }
            },
            _ => ServiceAction::Nothing,
        }
    }

    /// Draws the screen.
    pub fn render(&self, theme: &Theme) -> (r: ServicesPainting)
        ensures
            self.services@.len() == 0 ==> (r matches ServicesPainting::Empty(line) && line@ == seq![
                (
                    text::text_or(
                        self.status_message,
                        "No event services registered. Press 'a' to add one."@,
                    ),
                    theme::colored(theme.fg_dim),
                ),
            ]),
            self.services@.len() > 0 ==> (r matches ServicesPainting::Table { rows, status } && {
                &&& rows@ == Seq::new(
                    self.services@.len(),
                    |i: int| service_row(self.services@[i], i == self.selected, theme),
                )
                &&& match status {
                    Some(line) => self@.status is Some && line@ == seq![
                        (self@.status->0, theme::colored(theme.accent)),
                    ],
                    None => self@.status is None,
                }
            }),
    {
        if self.services.len() == 0 {
            let message = text::or_text(
                &self.status_message,
                "No event services registered. Press 'a' to add one.",
            );
            return ServicesPainting::Empty(
                paint::styled_owned_line(message, theme::colored(theme.fg_dim)),
            );
        }
        let mut rows: Listing<Row> = Listing::new();
        let mut i: usize = 0;
        while i < self.services.len()
            invariant
                i <= self.services@.len(),
                rows@ =~= Seq::new(
                    i as nat,
                    |i: int| service_row(self.services@[i], i == self.selected, theme),
                ),
            decreases self.services@.len() - i,
        {
            rows.push(draw_service(&self.services[i], i == self.selected, theme));
            i = i + 1;
        }
        let status = match &self.status_message {
            Some(m) => Some(paint::styled_line(m.as_str(), theme::colored(theme.accent))),
            None => None,
        };
        ServicesPainting::Table { rows, status }
    }
}

impl Default for ServicesView {
    fn default() -> (r: Self)
        ensures
            r@ == (ServicesState { services: Seq::empty(), selected: 0, status: None }),
    {
        Self::new()
    }
}

} // verus!
