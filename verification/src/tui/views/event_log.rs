//! The log of everything that happened to the books.

use vstd::prelude::*;

use crate::date::Date;
use crate::events;
use crate::events::Event;
use crate::input::KeyCode;
use crate::selection;
use crate::text;
use crate::tui::paint;
use crate::tui::paint::{Line, LineView, Listing, Page};
use crate::tui::theme::{Color, Style};

verus! {

/// A moment, to the second.
#[derive(Debug, Clone, Copy, PartialEq, Eq, Structural)]
pub struct Timestamp {
    pub date: Date,
    pub hour: u32,
    pub minute: u32,
    pub second: u32,
}

impl Timestamp {
    /// The moment as `YYYY-MM-DD HH:MM:SS`.
    pub open spec fn written(self) -> Seq<char> {
        self.date.iso() + " "@ + text::two_digits(self.hour as nat) + ":"@ + text::two_digits(
            self.minute as nat,
        ) + ":"@ + text::two_digits(self.second as nat)
    }

    pub fn write(&self) -> (r: String)
        ensures
            r@ == self.written(),
    {
        let day = self.date.iso_text();
        let h = text::at_least_two(self.hour as u64);
        let m = text::at_least_two(self.minute as u64);
        let s = text::at_least_two(self.second as u64);
        let mut out = text::cat5(day.as_str(), " ", h.as_str(), ":", m.as_str());
        out.append(":");
        out.append(s.as_str());
        out
    }
}

/// An event as the log holds it.
pub struct StoredEvent {
    pub id: i64,
    pub timestamp: Timestamp,
    pub event_type: String,
    pub entity_id: Option<String>,
    pub event: Event,
}

/// The event log screen.
pub struct EventLogView {
    pub events: Vec<StoredEvent>,
    pub scroll_offset: usize,
    pub selected: Option<usize>,
}

/// The colour of a kind of event.
pub open spec fn type_color(t: Seq<char>) -> Color {
    if text::begins_with(t, "journal"@) {
        Color::Green
    } else if text::begins_with(t, "account"@) {
        Color::Yellow
    } else if text::begins_with(t, "company"@) {
        Color::Magenta
    } else if text::begins_with(t, "user"@) {
        Color::Blue
    } else if text::begins_with(t, "reconciliation"@) || text::begins_with(t, "transaction"@) {
        Color::Cyan
    } else if text::begins_with(t, "fiscal"@) || text::begins_with(t, "period"@)
        || text::begins_with(t, "year"@) {
        Color::Red
    } else {
        Color::White
    }
}

fn color_of_type(t: &str) -> (r: Color)
    ensures
        r == type_color(t@),
{
    if text::starts_with(t, "journal") {
        Color::Green
    } else if text::starts_with(t, "account") {
        Color::Yellow
    } else if text::starts_with(t, "company") {
        Color::Magenta
    } else if text::starts_with(t, "user") {
        Color::Blue
    } else if text::starts_with(t, "reconciliation") || text::starts_with(t, "transaction") {
        Color::Cyan
    } else if text::starts_with(t, "fiscal") || text::starts_with(t, "period")
        || text::starts_with(t, "year") {
        Color::Red
    } else {
        Color::White
    }
}

/// Whether an event can be shown in a line.
pub open spec fn can_show(e: StoredEvent) -> bool {
    &&& e.event.can_summarize()
    &&& text::can_shorten(text::text_or(e.entity_id, "-"@), 12, 12)
}

/// The style of a line of the log.
pub open spec fn line_style(selected: bool) -> Style {
    if selected {
        Style::plain().on_bg(Color::DarkGray).on_fg(Color::White)
    } else {
        Style::plain()
    }
}

/// An event in a line.
pub open spec fn event_line(e: StoredEvent, selected: bool) -> LineView {
    let style = line_style(selected);
    seq![
        (
            text::padded_left(text::signed_decimal(e.id as int), 5) + " "@,
            style.on_fg(Color::DarkGray),
        ),
        (e.timestamp.written() + " "@, style),
        (
            text::padded_right(e.event_type@, 28) + " "@,
            style.on_fg(type_color(e.event_type@)),
        ),
        (
            text::padded_right(text::shortened(text::text_or(e.entity_id, "-"@), 12, 12), 15)
                + " "@,
            style.on_fg(Color::Cyan),
        ),
        (e.event.summary(), style),
    ]
}

/// Checks that an event can be shown in a line.
pub fn is_showable(e: &StoredEvent) -> (r: bool)
    ensures
        r == can_show(*e),
{
    let entity = text::or_text(&e.entity_id, "-");
    e.event.can_be_summarized() && text::can_be_shortened(entity.as_str(), 12, 12)
}

fn draw_event(e: &StoredEvent, selected: bool) -> (r: Line)
    requires
        can_show(*e),
    ensures
        r@ == event_line(*e, selected),
{
    let style = if selected {
        Style::plain().on_bg(Color::DarkGray).on_fg(Color::White)
    } else {
        Style::plain()
    };
    let id = text::signed_number(e.id);
    let id = text::pad_left(id.as_str(), 5);
    let moment = e.timestamp.write();
    let kind = text::pad_right(e.event_type.as_str(), 28);
    let entity = text::or_text(&e.entity_id, "-");
    let entity = text::shorten(entity.as_str(), 12, 12);
    let entity = text::pad_right(entity.as_str(), 15);
    let mut line: Line = Listing::new();
    line.push(paint::styled_owned(text::cat2(id.as_str(), " "), style.on_fg(Color::DarkGray)));
    line.push(paint::styled_owned(text::cat2(moment.as_str(), " "), style));
    line.push(
        paint::styled_owned(
            text::cat2(kind.as_str(), " "),
            style.on_fg(color_of_type(e.event_type.as_str())),
        ),
    );
    line.push(paint::styled_owned(text::cat2(entity.as_str(), " "), style.on_fg(Color::Cyan)));
    line.push(paint::styled_owned(events::format_event_summary(&e.event), style));
    line
}

/// The meaning of the log.
#[verifier::ext_equal]
pub ghost struct LogState {
    pub events: Seq<StoredEvent>,
    pub scroll_offset: usize,
    pub selected: Option<usize>,
}

impl LogState {
    /// The log after a key.
    pub open spec fn after_key(self, key: KeyCode) -> LogState {
        LogState {
            selected: match target(self, key) {
                Some(to) => to,
                None => self.selected,
            },
            ..self
        }
    }

    /// The state of a new screen.
    pub open spec fn fresh() -> LogState {
        LogState { events: Seq::empty(), scroll_offset: 0, selected: Some(0) }
    }
}

impl View for EventLogView {
    type V = LogState;

    open spec fn view(&self) -> LogState {
        LogState {
            events: self.events@,
            scroll_offset: self.scroll_offset,
            selected: self.selected,
        }
    }
}

/// The position after moving by some events, inside a log of `n` events.
pub open spec fn moved_by(selected: Option<usize>, n: nat, delta: int) -> Option<usize> {
    if n == 0 {
        selected
    } else {
        let to = (match selected {
            Some(i) => i as int,
            None => 0,
        }) + delta;
        Some(
            if to < 0 {
                0
            } else if to > n - 1 {
                (n - 1) as usize
            } else {
                to as usize
            },
        )
    }
}

/// The last event, if there is one.
pub open spec fn last_of(n: nat) -> Option<usize> {
    if n == 0 {
        None
    } else {
        Some((n - 1) as usize)
    }
}

/// What a key makes of the highlighted position; nothing if it is not for the
/// log.
pub open spec fn target(s: LogState, key: KeyCode) -> Option<Option<usize>> {
    let n = s.events.len();
    match key {
        KeyCode::Up | KeyCode::Char('k') => Some(moved_by(s.selected, n, -1)),
        KeyCode::Down | KeyCode::Char('j') => Some(moved_by(s.selected, n, 1)),
        KeyCode::PageUp => Some(moved_by(s.selected, n, -10)),
        KeyCode::PageDown => Some(moved_by(s.selected, n, 10)),
        KeyCode::Home => Some(
            if n == 0 {
                None
            } else {
                Some(0)
            },
        ),
        KeyCode::End => Some(last_of(n)),
        _ => None,
    }
}

/// What the event log shows: a message if it is empty.
pub struct LogPainting {
    pub empty: bool,
    pub lines: Page,
    /// The first shown event, for the scroll bar.
    pub first: usize,
    /// Whether there are more events than lines.
    pub scrollbar: bool,
}

impl EventLogView {
    pub fn new() -> (r: Self)
        ensures
            r@ == LogState::fresh(),
    {
        EventLogView { events: Vec::new(), scroll_offset: 0, selected: Some(0) }
    }

    /// Shows other events, the latest one highlighted.
    pub fn set_events(&mut self, events: Vec<StoredEvent>)
        ensures
            final(self).events == events,
            final(self).selected == last_of(events@.len()),
            final(self).scroll_offset == old(self).scroll_offset,
    {
        self.events = events;
        if self.events.len() > 0 {
            self.selected = Some(self.events.len() - 1);
        } else {
            self.selected = None;
        }
    }

    /// What a key makes of the highlighted position; nothing if it is not for
    /// the log.
    pub open spec fn key_target(self, key: KeyCode) -> Option<Option<usize>> {
        target(self@, key)
    }

    pub fn handle_key(&mut self, key: KeyCode) -> (r: bool)
        ensures
            r == (old(self).key_target(key) is Some),
            final(self)@ == old(self)@.after_key(key),
    {
        match key {
            KeyCode::Up | KeyCode::Char('k') => {
                self.move_selection(true, 1);
                true
            },
            KeyCode::Down | KeyCode::Char('j') => {
                self.move_selection(false, 1);
                true
            },
            KeyCode::PageUp => {
                self.move_selection(true, 10);
                true
            },
            KeyCode::PageDown => {
                self.move_selection(false, 10);
                true
            },
            KeyCode::Home => {
                self.selected = if self.events.len() == 0 {
                    None
                } else {
                    Some(0)
                };
                true
            },
            KeyCode::End => {
                self.selected = if self.events.len() == 0 {
                    None
                } else {
                    Some(self.events.len() - 1)
                };
                true
            },
            _ => false,
        }
    }

    /// Moves the highlighted position up or down, stopping at the ends.
    pub fn move_selection(&mut self, up: bool, steps: usize)
        ensures
            final(self).selected == moved_by(
                old(self).selected,
                old(self).events@.len(),
                if up {
                    -steps
                } else {
                    steps as int
                },
            ),
            final(self).events == old(self).events,
            final(self).scroll_offset == old(self).scroll_offset,
    {
        let n: usize = self.events.len();
        if n == 0 {
            return ;
        }
        let at: usize = match self.selected {
            Some(i) => i,
            None => 0,
        };
        let to: usize = if up {
            at.saturating_sub(steps)
        } else {
            at.saturating_add(steps)
        };
        self.selected = Some(
            if to > n - 1 {
                n - 1
            } else {
                to
            },
        );
    }

    /// Whether the log can be drawn on the given number of lines: the events
    /// that are shown can be, and the highlighted one has room.
    pub open spec fn can_draw(self, height: nat) -> bool {
        &&& forall|i: int|
            self.first_shown(height) <= i < self.first_shown(height) + self.shown_count(height)
                ==> can_show(#[trigger] self.events@[i])
        &&& height > 0 || self.events@.len() == 0 || self.selected is None || self.selected->0
            < self.scroll_offset
    }

    /// The first event shown on the given number of lines.
    pub open spec fn first_shown(self, height: nat) -> usize {
        match self.selected {
            Some(i) => if i < self.scroll_offset {
                i
            } else {
                selection::scrolled(self.scroll_offset, i, height)
            },
            None => self.scroll_offset,
        }
    }

    /// How many events are shown.
    pub open spec fn shown_count(self, height: nat) -> nat {
        let first = self.first_shown(height) as nat;
        let n = self.events@.len();
        if first >= n {
            0
        } else if n - first < height {
            (n - first) as nat
        } else {
            height
        }
    }

    /// The first event shown on the given number of lines, and how many are.
    fn window(&self, height: u16) -> (r: (usize, usize))
        ensures
            r.0 == self.first_shown(height as nat),
            r.1 == self.shown_count(height as nat),
            r.1 > 0 ==> r.0 + r.1 <= self.events@.len(),
    {
        let n: usize = self.events.len();
        let first: usize = match self.selected {
            Some(i) => if i < self.scroll_offset {
                i
            } else {
                selection::scroll_to(self.scroll_offset, i, height as usize)
            },
            None => self.scroll_offset,
        };
        let count: usize = if first >= n {
            0
        } else if n - first < height as usize {
            n - first
        } else {
            height as usize
        };
        (first, count)
    }

    /// Checks that the log can be drawn on the given number of lines.
    pub fn is_drawable(&self, height: u16) -> (r: bool)
        ensures
            r == self.can_draw(height as nat),
    {
        let room: bool = match self.selected {
            Some(i) => height > 0 || self.events.len() == 0 || i < self.scroll_offset,
            None => true,
        };
        let n: usize = self.events.len();
        let (first, count) = self.window(height);
        let mut k: usize = 0;
        while k < count
            invariant
                k <= count,
                n == self.events@.len(),
                count > 0 ==> first + count <= n,
                first == self.first_shown(height as nat),
                count == self.shown_count(height as nat),
                forall|i: int| first <= i < first + k ==> can_show(#[trigger] self.events@[i]),
            decreases count - k,
        {
            if !is_showable(&self.events[first + k]) {
                assert(!can_show(self.events@[first + k]));
                return false;
            }
            k = k + 1;
        }
        room
    }

    /// Draws the log on the given number of lines.
    pub fn draw(&self, height: u16) -> (r: LogPainting)
        requires
            self.can_draw(height as nat),
        ensures
            r.empty == (self.events@.len() == 0),
            r.empty ==> r.lines@.len() == 0 && !r.scrollbar,
            !r.empty ==> {
                &&& r.first == self.first_shown(height as nat)
                &&& r.scrollbar == (self.events@.len() > height)
                &&& r.lines@ == Seq::new(
                    self.shown_count(height as nat),
                    |k: int|
                        event_line(
                            self.events@[r.first + k],
                            self.selected == Some((r.first + k) as usize),
                        ),
                )
            },
    {
        let n: usize = self.events.len();
        let mut lines: Page = Listing::new();
        if n == 0 {
            return LogPainting { empty: true, lines, first: 0, scrollbar: false };
        }
        let (first, count) = self.window(height);
        let mut k: usize = 0;
        while k < count
            invariant
                k <= count,
                n == self.events@.len(),
                count > 0 ==> first + count <= n,
                first == self.first_shown(height as nat),
                count == self.shown_count(height as nat),
                self.can_draw(height as nat),
                lines@ =~= Seq::new(
                    k as nat,
                    |k: int|
                        event_line(
                            self.events@[first + k],
                            self.selected == Some((first + k) as usize),
                        ),
                ),
            decreases count - k,
        {
            let at: usize = first + k;
            let selected: bool = match self.selected {
                Some(i) => i == at,
                None => false,
            };
            assert(can_show(self.events@[at as int]));
            lines.push(draw_event(&self.events[at], selected));
            k = k + 1;
        }
        LogPainting { empty: false, lines, first, scrollbar: n > height as usize }
    }

    pub fn title(&self) -> (r: String)
        ensures
            r@ == " Event Log ("@ + text::decimal(self.events@.len()) + " events) "@,
    {
        let n = text::count(self.events.len());
        text::cat3(" Event Log (", n.as_str(), " events) ")
    }
}

/// The highlighted event is always among the shown ones.
pub proof fn highlighted_event_is_shown(v: EventLogView, height: nat)
    requires
        height > 0,
        v.selected is Some,
        v.selected->0 < v.events@.len(),
    ensures
        v.first_shown(height) <= v.selected->0 < v.first_shown(height) + v.shown_count(height),
{
    selection::scrolled_shows_selected(v.scroll_offset, v.selected->0, height);
}

/// Keys leave the highlighted event inside the log.
pub proof fn keys_stay_in_the_log(v: EventLogView, key: KeyCode)
    requires
        v.key_target(key) is Some,
        v.events@.len() > 0,
        v.events@.len() <= usize::MAX,
    ensures
        v.key_target(key)->0 is Some,
        v.key_target(key)->0->0 < v.events@.len(),
{
}

impl Default for EventLogView {
    fn default() -> (r: Self)
        ensures
            r@ == LogState::fresh(),
    {
        Self::new()
    }
}

} // verus!
