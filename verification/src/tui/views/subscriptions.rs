//! The modal that lists recurring transactions.

use vstd::prelude::*;

use crate::input::KeyCode;
use crate::lists;
use crate::money;
use crate::queries::{DetectedSubscription, SubscriptionFrequency};
use crate::selection;
use crate::text;
use crate::tui::paint;
use crate::tui::paint::{Line, LineView, Listing, Rect, Row, RowView};
use crate::tui::theme;
use crate::tui::theme::{Style, Theme};
use crate::tui::widgets;

verus! {

/// The modal.
pub struct SubscriptionsModal {
    pub visible: bool,
    pub subscriptions: Vec<DetectedSubscription>,
    pub selected: usize,
    pub scroll: usize,
}

/// The meaning of the modal.
#[verifier::ext_equal]
pub ghost struct SubscriptionsState {
    pub visible: bool,
    pub subscriptions: Seq<DetectedSubscription>,
    pub selected: usize,
    pub scroll: usize,
}

impl View for SubscriptionsModal {
    type V = SubscriptionsState;

    open spec fn view(&self) -> SubscriptionsState {
        SubscriptionsState {
            visible: self.visible,
            subscriptions: self.subscriptions@,
            selected: self.selected,
            scroll: self.scroll,
        }
    }
}

impl SubscriptionsState {
    pub open spec fn closed(self) -> SubscriptionsState {
        SubscriptionsState { visible: false, subscriptions: Seq::empty(), ..self }
    }

    /// The modal after a key, and whether it took the key.
    pub open spec fn after_key(self, key: KeyCode) -> (SubscriptionsState, bool) {
        let n = self.subscriptions.len();
        if !self.visible {
            (self, false)
        } else {
            (
                match key {
                    KeyCode::Esc | KeyCode::Char('q') => self.closed(),
                    KeyCode::Down | KeyCode::Char('j') => SubscriptionsState {
                        selected: selection::down_to_last(self.selected, n),
                        ..self
                    },
                    KeyCode::Up | KeyCode::Char('k') => SubscriptionsState {
                        selected: selection::up_to_first(self.selected),
                        ..self
                    },
                    KeyCode::Home => SubscriptionsState { selected: 0, ..self },
                    KeyCode::End => if n > 0 {
                        SubscriptionsState { selected: (n - 1) as usize, ..self }
                    } else {
                        self
                    },
                    _ => self,
                },
                true,
            )
        }
    }
}

/// No key takes the highlight out of the list.
pub proof fn keys_stay_in_the_list(s: SubscriptionsState, key: KeyCode)
    requires
        s.subscriptions.len() <= usize::MAX,
        s.selected < s.subscriptions.len(),
        s.after_key(key).0.subscriptions.len() > 0,
    ensures
        s.after_key(key).0.selected < s.after_key(key).0.subscriptions.len(),
{
}

/// Cents as dollars, the sign, if any, on the whole dollars.
pub open spec fn amount_text(cents: int) -> Seq<char> {
    let whole = (text::magnitude(cents) / 100) as int;
    "$"@ + text::signed_decimal(
        if cents < 0 {
            -whole
        } else {
            whole
        },
    ) + "."@ + text::two_digits(text::magnitude(cents) % 100)
}

fn format_amount(cents: i64) -> (r: String)
    ensures
        r@ == amount_text(cents as int),
{
    let all: u64 = text::abs_of(cents);
    let whole: i64 = (all / 100) as i64;
    let dollars = text::signed_number(
        if cents < 0 {
            -whole
        } else {
            whole
        },
    );
    let rest = text::at_least_two(all % 100);
    text::cat4("$", dollars.as_str(), ".", rest.as_str())
}

/// The absolute value of an amount in 64 bits.
pub open spec fn absolute(cents: int) -> int {
    money::wrap64(text::magnitude(cents) as int)
}

fn absolute_of(cents: i64) -> (r: i64)
    ensures
        r == absolute(cents as int),
{
    if cents < 0 {
        money::negated(cents)
    } else {
        cents
    }
}

/// How often a subscription falls due in a month, in double precision.
pub open spec fn monthly_factor(f: SubscriptionFrequency) -> Option<money::Dyadic> {
    match f {
        SubscriptionFrequency::Weekly => Some(money::nearest_double(433, 100)),
        SubscriptionFrequency::Biweekly => Some(money::nearest_double(217, 100)),
        SubscriptionFrequency::Monthly => None,
        SubscriptionFrequency::Quarterly => Some(money::nearest_double(1, 3)),
        SubscriptionFrequency::Annual => Some(money::nearest_double(1, 12)),
    }
}

/// What a subscription costs in a month: its amount times the factor, both in
/// double precision, rounded to whole cents.
pub open spec fn monthly_share(cents: int, f: SubscriptionFrequency) -> int {
    let n = text::magnitude(cents);
    let share = match monthly_factor(f) {
        Some(factor) => money::nearest_integer(money::product(n, factor)),
        None => money::nearest_integer(money::rounded(n)),
    };
    if absolute(cents) < 0 {
        if share > 0x8000_0000_0000_0000 {
            -0x8000_0000_0000_0000
        } else {
            -share
        }
    } else if share > 0x7fff_ffff_ffff_ffff {
        0x7fff_ffff_ffff_ffff
    } else {
        share as int
    }
}

fn share_of(cents: i64, f: SubscriptionFrequency) -> (r: i64)
    ensures
        r == monthly_share(cents as int, f),
{
    let n: u64 = text::abs_of(cents);
    proof {
        money::known_doubles();
    }
    let share: u128 = match f {
        SubscriptionFrequency::Weekly => money::nearest_multiple(n, 0x11_51eb_851e_b852, 50),
        SubscriptionFrequency::Biweekly => money::nearest_multiple(n, 0x11_5c28_f5c2_8f5c, 51),
        SubscriptionFrequency::Monthly => money::nearest_of(n),
        SubscriptionFrequency::Quarterly => money::nearest_multiple(n, 0x15_5555_5555_5555, 54),
        SubscriptionFrequency::Annual => money::nearest_multiple(n, 0x15_5555_5555_5555, 56),
    };
    if absolute_of(cents) < 0 {
        if share >= 0x8000_0000_0000_0000 {
            i64::MIN
        } else {
            -(share as i64)
        }
    } else if share > 0x7fff_ffff_ffff_ffff {
        i64::MAX
    } else {
        share as i64
    }
}

/// What all subscriptions cost in a month.
pub open spec fn monthly_total(v: Seq<DetectedSubscription>) -> int {
    money::wrap64(
        money::total(
            v.map_values(|s: DetectedSubscription| monthly_share(s.avg_amount as int, s.frequency)),
        ),
    )
}

proof fn total_by_position(v: Seq<int>)
    ensures
        money::total(v) == lists::sum_at(v.len(), |i: int| v[i]),
    decreases v.len(),
{
    if v.len() > 0 {
        let before = v.drop_last();
        total_by_position(before);
        lists::sums_agree(before.len(), |i: int| before[i], |i: int| v[i]);
    }
}

/// The monthly cost adds up what every subscription costs in a month. One that
/// falls due monthly costs its amount without its sign.
pub proof fn monthly_costs_add_up(v: Seq<DetectedSubscription>)
    ensures
        monthly_total(v) == money::wrap64(
            lists::sum_at(
                v.len(),
                |i: int| monthly_share(v[i].avg_amount as int, v[i].frequency),
            ),
        ),
        forall|cents: int|
            -0x20_0000_0000_0000 < cents < 0x20_0000_0000_0000 ==> #[trigger] monthly_share(
                cents,
                SubscriptionFrequency::Monthly,
            ) == (if cents < 0 {
                -cents
            } else {
                cents
            }),
{
    let shares = v.map_values(
        |s: DetectedSubscription| monthly_share(s.avg_amount as int, s.frequency),
    );
    total_by_position(shares);
    lists::sums_agree(
        v.len(),
        |i: int| shares[i],
        |i: int| monthly_share(v[i].avg_amount as int, v[i].frequency),
    );
    assert forall|cents: int|
        -0x20_0000_0000_0000 < cents < 0x20_0000_0000_0000 implies #[trigger] monthly_share(
        cents,
        SubscriptionFrequency::Monthly,
    ) == (if cents < 0 {
        -cents
    } else {
        cents
    }) by {
        let n = text::magnitude(cents);
        assert(money::scale_down(n, 1, 0) == (1nat, 0int));
        assert(money::half_even(n, 1) == n);
        assert(money::two_to(0) == 1);
        assert(money::nearest_integer(money::rounded(n)) == n);
    }
}

fn sum_of_shares(v: &Vec<DetectedSubscription>) -> (r: i64)
    ensures
        r == monthly_total(v@),
{
    let ghost f = |s: DetectedSubscription| monthly_share(s.avg_amount as int, s.frequency);
    let mut sum: i64 = 0;
    let mut i: usize = 0;
    while i < v.len()
        invariant
            i <= v@.len(),
            f == (|s: DetectedSubscription| monthly_share(s.avg_amount as int, s.frequency)),
            sum == money::wrap64(money::total(v@.take(i as int).map_values(f))),
        decreases v@.len() - i,
    {
        let share: i64 = share_of(v[i].avg_amount, v[i].frequency);
        proof {
            let next = v@.take(i + 1).map_values(f);
            assert(next.drop_last() =~= v@.take(i as int).map_values(f));
            assert(next.last() == share);
            money::wrapping_is_uniform(
                money::total(v@.take(i as int).map_values(f)),
                share as int,
            );
        }
        sum = money::plus(sum, share);
        i = i + 1;
    }
    assert(v@.take(i as int) =~= v@);
    sum
}

pub open spec fn subscription_row(s: DetectedSubscription, selected: bool, theme: &Theme) -> RowView {
    RowView {
        cells: paint::plain_cells(
            seq![
                widgets::truncated(s.memo@, 40),
                s.frequency.title(),
                amount_text(absolute(s.avg_amount as int)),
                text::decimal(s.occurrence_count as nat),
                s.last_date.iso(),
            ],
        ),
        style: if selected {
            theme.selected_style()
        } else {
            Style::plain()
        },
    }
}

fn draw_subscription(s: &DetectedSubscription, selected: bool, theme: &Theme) -> (r: Row)
    requires
        widgets::can_truncate(s.memo@, 40),
    ensures
        r@ == subscription_row(*s, selected, theme),
{
    let mut cells: Line = Listing::new();
    paint::push_text(&mut cells, widgets::truncate(s.memo.as_str(), 40));
    paint::push_str(&mut cells, s.frequency.label());
    paint::push_text(&mut cells, format_amount(absolute_of(s.avg_amount)));
    paint::push_text(&mut cells, text::count(s.occurrence_count));
    paint::push_text(&mut cells, s.last_date.iso_text());
    assert(cells@ =~= subscription_row(*s, selected, theme).cells);
    paint::row(
        cells,
        if selected {
            theme.selected_style()
        } else {
            Style::plain()
        },
    )
}

/// The rectangle of the modal in an area that starts at the origin: at most
/// one hundred columns, and margins of three columns and two rows.
pub open spec fn modal_rect(area: Rect) -> Rect {
    let w = widgets::fitted(100, area.width, 6);
    let h = widgets::fitted(area.height, area.height, 4);
    Rect {
        x: ((area.width - w) / 2) as u16,
        y: ((area.height - h) / 2) as u16,
        width: w,
        height: h,
    }
}

/// The modal as it is drawn: a message if nothing recurs.
pub enum SubscriptionsPainting {
    Empty(Line),
    Table { title: String, rows: Listing<Row>, help: Line },
}

impl SubscriptionsState {
    /// The modal scrolled for a table of the given height, header included.
    pub open spec fn scrolled(self, table_height: nat) -> SubscriptionsState {
        SubscriptionsState {
            scroll: selection::scrolled(self.scroll, self.selected, room(table_height)),
            ..self
        }
    }

    /// How many subscriptions a table of the given height shows.
    pub open spec fn shown_count(self, table_height: nat) -> nat {
        let n = self.subscriptions.len();
        if self.scroll >= n {
            0
        } else if n - self.scroll < room(table_height) {
            (n - self.scroll) as nat
        } else {
            room(table_height)
        }
    }

    /// The modal after it was drawn with a table of the given height: scrolled,
    /// if it is open and shows any.
    pub open spec fn drawn(self, table_height: nat) -> SubscriptionsState {
        if self.visible && self.subscriptions.len() > 0 {
            self.scrolled(table_height)
        } else {
            self
        }
    }

    /// Whether, if the modal is open, the shown subscriptions have names that
    /// can be cut.
    pub open spec fn can_draw(self, table_height: nat) -> bool {
        self.visible ==> forall|k: int|
            0 <= k < self.shown_count(table_height) ==> widgets::can_truncate(
                #[trigger] self.subscriptions[self.scroll + k].memo@,
                40,
            )
    }

    pub open spec fn rows(self, table_height: nat, theme: &Theme) -> Seq<RowView> {
        Seq::new(
            self.shown_count(table_height),
            |k: int|
                subscription_row(
                    self.subscriptions[self.scroll + k],
                    self.scroll + k == self.selected,
                    theme,
                ),
        )
    }

    pub open spec fn title(self) -> Seq<char> {
        " Find Subscriptions ("@ + text::decimal(self.subscriptions.len()) + " found, ~"@
            + amount_text(monthly_total(self.subscriptions)) + "/mo) "@
    }
}

/// The lines of a table below its header.
pub open spec fn room(table_height: nat) -> nat {
    if table_height > 0 {
        (table_height - 1) as nat
    } else {
        0
    }
}

pub open spec fn help_line(theme: &Theme) -> LineView {
    let a = paint::hint(Seq::empty(), "j/k"@, ": navigate  "@, theme.header);
    paint::hint(a, "Esc"@, ": close"@, theme.header)
}

/// The highlighted subscription is always among the shown ones.
pub proof fn highlighted_subscription_is_shown(s: SubscriptionsState, table_height: nat)
    requires
        table_height > 1,
        s.selected < s.subscriptions.len(),
    ensures
        ({
            let t = s.scrolled(table_height);
            t.scroll <= t.selected < t.scroll + t.shown_count(table_height)
        }),
{
    selection::scrolled_shows_selected(s.scroll, s.selected, room(table_height));
}

impl SubscriptionsModal {
    pub fn new() -> (r: Self)
        ensures
            r@ == (SubscriptionsState {
                visible: false,
                subscriptions: Seq::empty(),
                selected: 0,
                scroll: 0,
            }),
    {
        SubscriptionsModal { visible: false, subscriptions: Vec::new(), selected: 0, scroll: 0 }
    }

    pub fn show(&mut self, subscriptions: Vec<DetectedSubscription>)
        ensures
            final(self)@ == (SubscriptionsState {
                visible: true,
                subscriptions: subscriptions@,
                selected: 0,
                scroll: 0,
            }),
    {
        self.subscriptions = subscriptions;
        self.visible = true;
        self.selected = 0;
        self.scroll = 0;
    }

    /// Closes the modal and forgets the subscriptions.
    pub fn close(&mut self)
        ensures
            final(self)@ == old(self)@.closed(),
    {
        self.visible = false;
        self.subscriptions = Vec::new();
    }

    /// Handles a key, and says whether the modal took it.
    pub fn handle_key(&mut self, key: KeyCode) -> (r: bool)
        ensures
            (final(self)@, r) == old(self)@.after_key(key),
    {
        if !self.visible {
            return false;
        }
        match key {
            KeyCode::Esc | KeyCode::Char('q') => {
                self.close();
            },
            KeyCode::Down | KeyCode::Char('j') => {
                self.selected = selection::move_down(self.selected, self.subscriptions.len());
            },
            KeyCode::Up | KeyCode::Char('k') => {
                self.selected = selection::move_up(self.selected);
            },
            KeyCode::Home => {
                self.selected = 0;
            },
            KeyCode::End => {
                let n: usize = self.subscriptions.len();
                if n > 0 {
                    self.selected = n - 1;
                }
            },
            _ => {},
        }
        true
    }

    /// The rectangle of the modal.
    pub fn modal_area(&self, area: Rect) -> (r: Rect)
        ensures
            r == modal_rect(area),
    {
        let left: u16 = area.width.saturating_sub(6);
        let width: u16 = if left < 100 {
            left
        } else {
            100
        };
        let height: u16 = area.height.saturating_sub(4);
        Rect { x: (area.width - width) / 2, y: (area.height - height) / 2, width, height }
    }

    /// How many subscriptions a table of the given height shows from one on.
    fn count_shown(&self, first: usize, table_height: u16) -> (r: usize)
        ensures
            r == (SubscriptionsState { scroll: first, ..self@ }).shown_count(table_height as nat),
            r > 0 ==> first + r <= self.subscriptions.len(),
    {
        let n: usize = self.subscriptions.len();
        let visible: usize = table_height.saturating_sub(1) as usize;
        if first >= n {
            0
        } else if n - first < visible {
            n - first
        } else {
            visible
        }
    }

    /// Checks that the modal can be drawn with a table of the given height,
    /// header included: if it is open, the names shown in it can be cut.
    pub fn is_drawable(&self, table_height: u16) -> (r: bool)
        ensures
            r == self@.drawn(table_height as nat).can_draw(table_height as nat),
    {
        if !self.visible || self.subscriptions.len() == 0 {
            assert(self.subscriptions@.len() == 0 ==> self@.can_draw(table_height as nat));
            return true;
        }
        let first: usize = selection::scroll_to(
            self.scroll,
            self.selected,
            table_height.saturating_sub(1) as usize,
        );
        let count: usize = self.count_shown(first, table_height);
        let n: usize = self.subscriptions.len();
        let ghost state = self@.drawn(table_height as nat);
        let mut k: usize = 0;
        while k < count
            invariant
                k <= count,
                state == self@.drawn(table_height as nat),
                state.visible,
                state.scroll == first,
                state.subscriptions == self.subscriptions@,
                count > 0 ==> first + count <= n,
                n == self.subscriptions@.len(),
                count == state.shown_count(table_height as nat),
                forall|i: int|
                    0 <= i < k ==> widgets::can_truncate(
                        #[trigger] state.subscriptions[state.scroll + i].memo@,
                        40,
                    ),
            decreases count - k,
        {
            let s = &self.subscriptions[first + k];
            assert(*s == state.subscriptions[state.scroll + k]);
            if !widgets::fits(s.memo.as_str(), 40) {
                assert(!widgets::can_truncate(
                    state.subscriptions[state.scroll + k as int].memo@,
                    40,
                ));
                return false;
            }
            k = k + 1;
        }
        true
    }

    /// Draws the modal, if it is open, with a table of the given height, header
    /// included, after scrolling the highlighted subscription into view.
    pub fn render(&mut self, table_height: u16, theme: &Theme) -> (r: Option<
        SubscriptionsPainting,
    >)
        requires
            old(self)@.drawn(table_height as nat).can_draw(table_height as nat),
        ensures
            final(self)@ == old(self)@.drawn(table_height as nat),
            r is Some <==> old(self).visible,
            r is Some ==> final(self).painted(r->0, table_height, theme),
    {
        if !self.visible {
            return None;
        }
        if self.subscriptions.len() > 0 {
            self.scroll = selection::scroll_to(
                self.scroll,
                self.selected,
                table_height.saturating_sub(1) as usize,
            );
        }
        Some(self.draw_scrolled(table_height, theme))
    }

    /// Whether a painting shows the modal as it is scrolled.
    pub open spec fn painted(
        &self,
        r: SubscriptionsPainting,
        table_height: u16,
        theme: &Theme,
    ) -> bool {
        &&& self.subscriptions@.len() == 0 ==> (r matches SubscriptionsPainting::Empty(line)
            && line@ == seq![
            (
                "  No recurring transactions detected in Uncategorized."@,
                theme::colored(theme.fg_dim),
            ),
        ])
        &&& self.subscriptions@.len() > 0 ==> (r matches SubscriptionsPainting::Table {
            title,
            rows,
            help,
        } && title@ == self@.title() && rows@ == self@.rows(table_height as nat, theme) && help@
            == help_line(theme))
    }

    fn draw_scrolled(&self, table_height: u16, theme: &Theme) -> (r: SubscriptionsPainting)
        requires
            self.visible,
            self@.can_draw(table_height as nat),
        ensures
            self.painted(r, table_height, theme),
    {
        if self.subscriptions.len() == 0 {
            return SubscriptionsPainting::Empty(
                paint::styled_line(
                    "  No recurring transactions detected in Uncategorized.",
                    theme::colored(theme.fg_dim),
                ),
            );
        }
        let count: usize = self.count_shown(self.scroll, table_height);
        let len: usize = self.subscriptions.len();
        let ghost all = self@.rows(table_height as nat, theme);
        let mut rows: Listing<Row> = Listing::new();
        let mut k: usize = 0;
        while k < count
            invariant
                k <= count,
                count == self@.shown_count(table_height as nat),
                count > 0 ==> self.scroll + count <= len,
                len == self.subscriptions@.len(),
                self.visible,
                self@.can_draw(table_height as nat),
                all == self@.rows(table_height as nat, theme),
                rows@ =~= all.take(k as int),
            decreases count - k,
        {
            let at: usize = self.scroll + k;
            assert(widgets::can_truncate(
                self@.subscriptions[self@.scroll + k as int].memo@,
                40,
            ));
            rows.push(draw_subscription(&self.subscriptions[at], at == self.selected, theme));
            k = k + 1;
        }
        assert(all.take(k as int) =~= all);
        let n = text::count(self.subscriptions.len());
        let total = format_amount(sum_of_shares(&self.subscriptions));
        let title = text::cat5(
            " Find Subscriptions (",
            n.as_str(),
            " found, ~",
            total.as_str(),
            "/mo) ",
        );
        let mut help: Line = Listing::new();
        paint::push_hint(&mut help, "j/k", ": navigate  ", theme.header);
        paint::push_hint(&mut help, "Esc", ": close", theme.header);
        SubscriptionsPainting::Table { title, rows, help }
    }
}

impl Default for SubscriptionsModal {
    fn default() -> (r: Self)
        ensures
            r@ == (SubscriptionsState {
                visible: false,
                subscriptions: Seq::empty(),
                selected: 0,
                scroll: 0,
            }),
    {
        Self::new()
    }
}

} // verus!
