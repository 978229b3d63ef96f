//! The modal that says what became of the events of a service.

use vstd::prelude::*;

use crate::input::KeyCode;
use crate::queries::{SyncEventResult, SyncEventStatus};
use crate::text;
use crate::tui::paint;
use crate::tui::paint::{Line, LineView, Listing, Page, Rect};
use crate::tui::theme;
use crate::tui::theme::{Color, Style, Theme};

verus! {

/// How many events were handled, how many entries they made, and how many
/// errors.
#[derive(Debug, Clone, Copy, PartialEq, Eq, Structural)]
pub struct SyncSummary {
    pub events_processed: u32,
    pub entries_created: u32,
    pub errors: u32,
}

/// The modal.
pub struct SyncResultsModal {
    pub visible: bool,
    pub service_name: String,
    pub results: Vec<SyncEventResult>,
    pub summary: SyncSummary,
    pub scroll_offset: usize,
}

/// The meaning of the modal.
#[verifier::ext_equal]
pub ghost struct ResultsState {
    pub visible: bool,
    pub service_name: Seq<char>,
    pub results: Seq<SyncEventResult>,
    pub summary: SyncSummary,
    pub scroll_offset: usize,
}

impl View for SyncResultsModal {
    type V = ResultsState;

    open spec fn view(&self) -> ResultsState {
        ResultsState {
            visible: self.visible,
            service_name: self.service_name@,
            results: self.results@,
            summary: self.summary,
            scroll_offset: self.scroll_offset,
        }
    }
}

impl ResultsState {
    pub open spec fn closed(self) -> ResultsState {
        ResultsState { visible: false, results: Seq::empty(), ..self }
    }

    /// The modal after a key, and whether the key closed it.
    pub open spec fn after_key(self, key: KeyCode) -> (ResultsState, bool) {
        match key {
            KeyCode::Esc | KeyCode::Enter | KeyCode::Char('q') => (self.closed(), true),
            KeyCode::Up | KeyCode::Char('k') => (
                if self.scroll_offset > 0 {
                    ResultsState { scroll_offset: (self.scroll_offset - 1) as usize, ..self }
                } else {
                    self
                },
                false,
            ),
            KeyCode::Down | KeyCode::Char('j') => (
                if self.scroll_offset + 1 < self.results.len() {
                    ResultsState { scroll_offset: (self.scroll_offset + 1) as usize, ..self }
                } else {
                    self
                },
                false,
            ),
            _ => (self, false),
        }
    }

    /// The first result shown on the given number of lines.
    pub open spec fn first_shown(self, height: nat) -> nat {
        let most = if self.results.len() >= height {
            (self.results.len() - height) as nat
        } else {
            0
        };
        if self.scroll_offset <= most {
            self.scroll_offset as nat
        } else {
            most
        }
    }

    /// How many results are shown on the given number of lines.
    pub open spec fn shown_count(self, height: nat) -> nat {
        if self.results.len() <= height {
            self.results.len()
        } else {
            height
        }
    }

    /// The results shown on the given number of lines.
    pub open spec fn shown(self, height: nat) -> Seq<SyncEventResult> {
        let first = self.first_shown(height) as int;
        self.results.subrange(first, first + self.shown_count(height))
    }

    pub open spec fn can_draw(self, height: nat) -> bool {
        forall|i: int|
            0 <= i < self.shown(height).len() ==> can_show(#[trigger] self.shown(height)[i])
    }
}

/// However the results are scrolled, as many of them are shown as there is
/// room for.
pub proof fn results_fill_the_lines(s: ResultsState, height: nat)
    ensures
        s.first_shown(height) + s.shown_count(height) <= s.results.len(),
        s.shown(height).len() == s.shown_count(height),
        s.shown_count(height) == height || s.shown(height) == s.results,
{
    assert(s.results.subrange(0, s.results.len() as int) =~= s.results);
}

/// The first eight bytes of an identifier.
pub open spec fn short_id(id: Seq<char>) -> Seq<char> {
    if text::byte_len(id) > 8 {
        text::byte_head(id, 8)
    } else {
        id
    }
}

/// Whether an identifier has a character boundary after eight bytes.
pub open spec fn has_short_id(id: Seq<char>) -> bool {
    text::byte_len(id) > 8 ==> text::cuts_evenly(id, 8)
}

fn is_short_enough(id: &str) -> (r: bool)
    ensures
        r == has_short_id(id@),
{
    !text::longer_than(id, 8) || text::first_bytes(id, 8).is_some()
}

fn shorten_id(id: &str) -> (r: String)
    requires
        has_short_id(id@),
    ensures
        r@ == short_id(id@),
{
    if text::longer_than(id, 8) {
        if let Some(start) = text::first_bytes(id, 8) {
            return start;
        }
    }
    text::owned(id)
}

/// Whether a result can be shown in a line.
pub open spec fn can_show(r: SyncEventResult) -> bool {
    &&& has_short_id(r.event_id@)
    &&& match r.status {
        SyncEventStatus::Created { entry_id } => has_short_id(entry_id@),
        _ => true,
    }
}

/// The mark of a result, what it says, and its style.
pub open spec fn status_parts(s: SyncEventStatus, theme: &Theme) -> (Seq<char>, Seq<char>, Style) {
    match s {
        SyncEventStatus::Created { entry_id } => (
            " + "@,
            "Created entry "@ + short_id(entry_id@),
            theme::colored(theme.success),
        ),
        SyncEventStatus::Skipped { reason } => (
            " - "@,
            "Skipped: "@ + reason@,
            theme::colored(Color::Yellow),
        ),
        SyncEventStatus::Error { message } => (
            " ! "@,
            "Error: "@ + message@,
            theme::bold_colored(theme.error),
        ),
    }
}

/// A result in a line.
pub open spec fn result_line(r: SyncEventResult, theme: &Theme) -> LineView {
    let (mark, words, style) = status_parts(r.status, theme);
    seq![
        (mark, style),
        (text::padded_right(r.event_type@, 20) + " "@, theme::colored(theme.fg_dim)),
        (
            text::padded_right(short_id(r.event_id@), 10) + " "@,
            theme::colored(theme.fg_dim),
        ),
        (words, style),
    ]
}

/// Checks that a result can be shown in a line.
pub fn is_showable(r: &SyncEventResult) -> (b: bool)
    ensures
        b == can_show(*r),
{
    let entry: bool = match &r.status {
        SyncEventStatus::Created { entry_id } => is_short_enough(entry_id.as_str()),
        _ => true,
    };
    is_short_enough(r.event_id.as_str()) && entry
}

/// Draws a result in a line.
fn draw_result(r: &SyncEventResult, theme: &Theme) -> (line: Line)
    requires
        can_show(*r),
    ensures
        line@ == result_line(*r, theme),
{
    let id = shorten_id(r.event_id.as_str());
    let (mark, words, style) = match &r.status {
        SyncEventStatus::Created { entry_id } => {
            let e = shorten_id(entry_id.as_str());
            (" + ", text::cat2("Created entry ", e.as_str()), theme::colored(theme.success))
        },
        SyncEventStatus::Skipped { reason } => (
            " - ",
            text::cat2("Skipped: ", reason.as_str()),
            theme::colored(Color::Yellow),
        ),
        SyncEventStatus::Error { message } => (
            " ! ",
            text::cat2("Error: ", message.as_str()),
            theme::bold_colored(theme.error),
        ),
    };
    let kind = text::pad_right(r.event_type.as_str(), 20);
    let id = text::pad_right(id.as_str(), 10);
    paint::list4(
        paint::styled(mark, style),
        paint::styled_owned(text::cat2(kind.as_str(), " "), theme::colored(theme.fg_dim)),
        paint::styled_owned(text::cat2(id.as_str(), " "), theme::colored(theme.fg_dim)),
        paint::styled_owned(words, style),
    )
}

pub open spec fn summary_line(s: SyncSummary, theme: &Theme) -> LineView {
    seq![
        ("Processed: "@, theme::colored(theme.fg_dim)),
        (text::decimal(s.events_processed as nat), theme::colored(theme.fg)),
        paint::raw_view("  "@),
        ("Created: "@, theme::colored(theme.fg_dim)),
        (text::decimal(s.entries_created as nat), theme::colored(theme.success)),
        paint::raw_view("  "@),
        ("Errors: "@, theme::colored(theme.fg_dim)),
        (
            text::decimal(s.errors as nat),
            if s.errors > 0 {
                theme::bold_colored(theme.error)
            } else {
                theme::colored(theme.success)
            },
        ),
    ]
}

/// Every number of the summary stands behind its label, and every result says
/// what became of the event, with the entry, the reason or the message that
/// belongs to it.
pub proof fn numbers_stand_behind_their_labels(
    s: SyncSummary,
    r: SyncEventResult,
    theme: &Theme,
)
    ensures
        ({
            let line = summary_line(s, theme);
            &&& line.len() == 8
            &&& line[0].0 == "Processed: "@ && line[1].0 == text::decimal(
                s.events_processed as nat,
            )
            &&& line[3].0 == "Created: "@ && line[4].0 == text::decimal(s.entries_created as nat)
            &&& line[6].0 == "Errors: "@ && line[7].0 == text::decimal(s.errors as nat)
        }),
        r.status matches SyncEventStatus::Created { entry_id } ==> result_line(r, theme)[3].0
            == "Created entry "@ + short_id(entry_id@),
        r.status matches SyncEventStatus::Skipped { reason } ==> result_line(r, theme)[3].0
            == "Skipped: "@ + reason@,
        r.status matches SyncEventStatus::Error { message } ==> result_line(r, theme)[3].0
            == "Error: "@ + message@,
{
}

fn draw_summary(s: &SyncSummary, theme: &Theme) -> (r: Line)
    ensures
        r@ == summary_line(*s, theme),
{
    let mut line: Line = Listing::new();
    line.push(paint::styled("Processed: ", theme::colored(theme.fg_dim)));
    line.push(
        paint::styled_owned(text::number(s.events_processed as u64), theme::colored(theme.fg)),
    );
    paint::push_str(&mut line, "  ");
    line.push(paint::styled("Created: ", theme::colored(theme.fg_dim)));
    line.push(
        paint::styled_owned(text::number(s.entries_created as u64), theme::colored(theme.success)),
    );
    paint::push_str(&mut line, "  ");
    line.push(paint::styled("Errors: ", theme::colored(theme.fg_dim)));
    line.push(
        paint::styled_owned(
            text::number(s.errors as u64),
            if s.errors > 0 {
                theme::bold_colored(theme.error)
            } else {
                theme::colored(theme.success)
            },
        ),
    );
    assert(line@ =~= summary_line(*s, theme));
    line
}

/// A rectangle in the middle of an area that takes the given percentages of
/// its columns and rows, rounded down.
pub open spec fn portion(percent_x: u16, percent_y: u16, area: Rect) -> Rect {
    let width = area.width * percent_x / 100;
    let height = area.height * percent_y / 100;
    Rect {
        x: (area.x + (area.width - width) / 2) as u16,
        y: (area.y + (area.height - height) / 2) as u16,
        width: width as u16,
        height: height as u16,
    }
}

/// A rectangle in the middle of an area that takes the given percentages of
/// its columns and rows.
pub fn centered_rect(percent_x: u16, percent_y: u16, area: Rect) -> (r: Rect)
    requires
        percent_x <= 100,
        percent_y <= 100,
        area.width * percent_x <= u16::MAX,
        area.height * percent_y <= u16::MAX,
        area.x + area.width <= u16::MAX,
        area.y + area.height <= u16::MAX,
    ensures
        r == portion(percent_x, percent_y, area),
        area.x <= r.x && r.x + r.width <= area.x + area.width,
        area.y <= r.y && r.y + r.height <= area.y + area.height,
{
    proof {
        let w = area.width as int;
        let h = area.height as int;
        let p = percent_x as int;
        let q = percent_y as int;
        assert(w * p / 100 <= w) by (nonlinear_arith)
            requires
                0 <= p <= 100,
                w >= 0,
        ;
        assert(h * q / 100 <= h) by (nonlinear_arith)
            requires
                0 <= q <= 100,
                h >= 0,
        ;
        assert(w * p >= 0) by (nonlinear_arith)
            requires
                p >= 0,
                w >= 0,
        ;
        assert(h * q >= 0) by (nonlinear_arith)
            requires
                q >= 0,
                h >= 0,
        ;
    }
    let width: u16 = area.width * percent_x / 100;
    let height: u16 = area.height * percent_y / 100;
    Rect {
        x: area.x + (area.width - width) / 2,
        y: area.y + (area.height - height) / 2,
        width,
        height,
    }
}

/// The modal as it is drawn on a number of lines for the results.
pub struct ResultsPainting {
    pub title: String,
    pub color: Color,
    pub summary: Line,
    pub lines: Page,
    /// How many results precede the shown ones.
    pub first: usize,
    pub scrollbar: bool,
}

impl SyncResultsModal {
    pub fn new() -> (r: Self)
        ensures
            r@ == (ResultsState {
                visible: false,
                service_name: Seq::empty(),
                results: Seq::empty(),
                summary: SyncSummary { events_processed: 0, entries_created: 0, errors: 0 },
                scroll_offset: 0,
            }),
    {
        SyncResultsModal {
            visible: false,
            service_name: String::new(),
            results: Vec::new(),
            summary: SyncSummary { events_processed: 0, entries_created: 0, errors: 0 },
            scroll_offset: 0,
        }
    }

    pub fn show(
        &mut self,
        service_name: String,
        results: Vec<SyncEventResult>,
        events_processed: u32,
        entries_created: u32,
        errors: u32,
    )
        ensures
            final(self)@ == (ResultsState {
                visible: true,
                service_name: service_name@,
                results: results@,
                summary: SyncSummary { events_processed, entries_created, errors },
                scroll_offset: 0,
            }),
    {
        self.service_name = service_name;
        self.results = results;
        self.summary = SyncSummary { events_processed, entries_created, errors };
        self.scroll_offset = 0;
        self.visible = true;
    }

    /// Closes the modal and forgets the results.
    pub fn close(&mut self)
        ensures
            final(self)@ == old(self)@.closed(),
    {
        self.visible = false;
        self.results = Vec::new();
    }

    /// Handles a key, and says whether it closed the modal.
    pub fn handle_key(&mut self, key: KeyCode) -> (r: bool)
        ensures
            (final(self)@, r) == old(self)@.after_key(key),
    {
        match key {
            KeyCode::Esc | KeyCode::Enter | KeyCode::Char('q') => {
                self.close();
                true
            },
            KeyCode::Up | KeyCode::Char('k') => {
                if self.scroll_offset > 0 {
                    self.scroll_offset = self.scroll_offset - 1;
                }
                false
            },
            KeyCode::Down | KeyCode::Char('j') => {
                let most: usize = self.results.len().saturating_sub(1);
                if self.scroll_offset < most {
                    self.scroll_offset = self.scroll_offset + 1;
                }
                false
            },
            _ => false,
        }
    }

    /// Checks that the modal can be drawn with the given number of lines for the
    /// results: if it is open, the identifiers of the shown ones can be cut.
    pub fn is_drawable(&self, height: u16) -> (r: bool)
        ensures
            r == (self.visible ==> self@.can_draw(height as nat)),
    {
        if !self.visible {
            return true;
        }
        let n: usize = self.results.len();
        let (first, count) = self.window(height);
        let ghost shown = self@.shown(height as nat);
        let mut k: usize = 0;
        while k < count
            invariant
                k <= count,
                count == shown.len(),
                first + count <= n,
                n == self.results@.len(),
                self.visible,
                shown == self.results@.subrange(first as int, first + count),
                shown == self@.shown(height as nat),
                forall|i: int| 0 <= i < k ==> can_show(#[trigger] shown[i]),
            decreases count - k,
        {
            assert(self.results@[first + k] == shown[k as int]);
            if !is_showable(&self.results[first + k]) {
                assert(!can_show(self@.shown(height as nat)[k as int]));
                return false;
            }
            k = k + 1;
        }
        true
    }

    /// The first result shown on the given number of lines, and how many are.
    fn window(&self, height: u16) -> (r: (usize, usize))
        ensures
            r.0 == self@.first_shown(height as nat),
            r.1 == self@.shown_count(height as nat),
            r.0 + r.1 <= self.results@.len(),
            self@.shown(height as nat) == self.results@.subrange(r.0 as int, r.0 + r.1),
            self@.shown(height as nat).len() == r.1,
    {
        proof {
            results_fill_the_lines(self@, height as nat);
        }
        let n: usize = self.results.len();
        let room: usize = height as usize;
        let most: usize = n.saturating_sub(room);
        let first: usize = if self.scroll_offset <= most {
            self.scroll_offset
        } else {
            most
        };
        let count: usize = if n <= room {
            n
        } else {
            room
        };
        (first, count)
    }

    /// Draws the modal with the given number of lines for the results, if it is
    /// open.
    pub fn draw(&self, height: u16, theme: &Theme) -> (r: Option<ResultsPainting>)
        requires
            self.visible ==> self@.can_draw(height as nat),
        ensures
            r is Some <==> self.visible,
            r is Some ==> {
                &&& r->0.title@ == " Sync Results: "@ + self.service_name@ + " "@
                &&& r->0.color == (if self.summary.errors > 0 {
                    theme.error
                } else {
                    theme.accent
                })
                &&& r->0.summary@ == summary_line(self.summary, theme)
                &&& r->0.first == self@.first_shown(height as nat)
                &&& r->0.scrollbar == (self.results@.len() > height)
                &&& self.results@.len() == 0 ==> r->0.lines@ == seq![
                    seq![("No events processed."@, theme::colored(theme.fg_dim))],
                ]
                &&& self.results@.len() > 0 ==> r->0.lines@ == self@.shown(
                    height as nat,
                ).map_values(|e: SyncEventResult| result_line(e, theme))
            },
    {
        if !self.visible {
            return None;
        }
        let n: usize = self.results.len();
        let (first, count) = self.window(height);
        let ghost shown = self@.shown(height as nat);
        let ghost f = |e: SyncEventResult| result_line(e, theme);
        let mut lines: Page = Listing::new();
        let mut k: usize = 0;
        while k < count
            invariant
                k <= count,
                count == shown.len(),
                first + count <= n,
                n == self.results@.len(),
                shown == self.results@.subrange(first as int, first + count),
                shown == self@.shown(height as nat),
                f == (|e: SyncEventResult| result_line(e, theme)),
                forall|i: int| 0 <= i < count ==> can_show(#[trigger] shown[i]),
                lines@ =~= shown.take(k as int).map_values(f),
            decreases count - k,
        {
            let item = &self.results[first + k];
            assert(*item == shown[k as int]);
            lines.push(draw_result(item, theme));
            k = k + 1;
        }
        assert(shown.take(k as int) =~= shown);
        if n == 0 {
            lines.push(paint::styled_line("No events processed.", theme::colored(theme.fg_dim)));
            assert(lines@ =~= seq![
                seq![("No events processed."@, theme::colored(theme.fg_dim))],
            ]);
        }
        Some(
            ResultsPainting {
                title: text::cat3(" Sync Results: ", self.service_name.as_str(), " "),
                color: if self.summary.errors > 0 {
                    theme.error
                } else {
                    theme.accent
                },
                summary: draw_summary(&self.summary, theme),
                lines,
                first,
                scrollbar: n > height as usize,
            },
        )
    }
}

} // verus!
