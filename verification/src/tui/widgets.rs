//! Pieces shared by the screens: text fields, modal rectangles, currency text.

use vstd::prelude::*;

use crate::money;
use crate::text;
use crate::tui::paint::Rect;
use crate::tui::theme::{Style, Theme};

verus! {

/// A labelled one-line input.
pub struct TextField<'a> {
    pub area: Rect,
    pub label: &'a str,
    pub value: &'a str,
    pub is_secret: bool,
    pub is_active: bool,
    pub cursor: char,
}

impl<'a> TextField<'a> {
    pub fn new(area: Rect, label: &'a str, value: &'a str, is_active: bool) -> (r: Self)
        ensures
            r == (TextField { area, label, value, is_secret: false, is_active, cursor: '█' }),
    {
        TextField { area, label, value, is_secret: false, is_active, cursor: '█' }
    }

    /// The same field with its text masked.
    pub fn secret(self) -> (r: Self)
        ensures
            r == (TextField { is_secret: true, ..self }),
    {
        TextField { is_secret: true, ..self }
    }

    /// The same field with another cursor.
    pub fn cursor(self, cursor: char) -> (r: Self)
        ensures
            r == (TextField { cursor, ..self }),
    {
        TextField { cursor, ..self }
    }
}

/// A text field as it is drawn: its text, the style of the text, the style of
/// the border and the title in the border.
pub struct FieldPainting {
    pub content: String,
    pub style: Style,
    pub border_style: Style,
    pub title: String,
}

/// The meaning of a drawn text field.
#[verifier::ext_equal]
pub ghost struct FieldView {
    pub content: Seq<char>,
    pub style: Style,
    pub border_style: Style,
    pub title: Seq<char>,
}

impl View for FieldPainting {
    type V = FieldView;

    open spec fn view(&self) -> FieldView {
        FieldView {
            content: self.content@,
            style: self.style,
            border_style: self.border_style,
            title: self.title@,
        }
    }
}

/// The text a field shows: one star per byte of a secret, and the cursor at
/// the end of the active field.
pub open spec fn field_text(
    value: Seq<char>,
    is_secret: bool,
    is_active: bool,
    cursor: char,
) -> Seq<char> {
    let shown = if is_secret {
        text::filled('*', text::byte_len(value))
    } else {
        value
    };
    if is_active {
        shown.push(cursor)
    } else {
        shown
    }
}

/// The style of the text in a field.
pub open spec fn field_style(is_active: bool, theme: &Theme) -> Style {
    if is_active {
        theme.input_active_style()
    } else {
        theme.input_inactive_style()
    }
}

/// The style of the border of a field.
pub open spec fn field_border(is_active: bool, theme: &Theme) -> Style {
    if is_active {
        theme.input_active_border_style()
    } else {
        theme.input_inactive_border_style()
    }
}

/// A field with the given text in it.
pub open spec fn framed(
    label: Seq<char>,
    content: Seq<char>,
    is_active: bool,
    theme: &Theme,
) -> FieldView {
    FieldView {
        content,
        style: field_style(is_active, theme),
        border_style: field_border(is_active, theme),
        title: " "@ + label + " "@,
    }
}

/// A plain text field with a cursor.
pub open spec fn input_field(
    label: Seq<char>,
    value: Seq<char>,
    is_active: bool,
    cursor: char,
    theme: &Theme,
) -> FieldView {
    framed(label, field_text(value, false, is_active, cursor), is_active, theme)
}

pub fn style_of_field(is_active: bool, theme: &Theme) -> (r: Style)
    ensures
        r == field_style(is_active, theme),
{
    if is_active {
        theme.input_active_style()
    } else {
        theme.input_inactive_style()
    }
}

pub fn border_of_field(is_active: bool, theme: &Theme) -> (r: Style)
    ensures
        r == field_border(is_active, theme),
{
    if is_active {
        theme.input_active_border_style()
    } else {
        theme.input_inactive_border_style()
    }
}

/// Draws a field with the given text in it.
pub fn frame_field(label: &str, content: String, is_active: bool, theme: &Theme) -> (r:
    FieldPainting)
    ensures
        r@ == framed(label@, content@, is_active, theme),
{
    FieldPainting {
        content,
        style: style_of_field(is_active, theme),
        border_style: border_of_field(is_active, theme),
        title: text::cat3(" ", label, " "),
    }
}

/// Draws a plain text field with a cursor.
pub fn draw_input(label: &str, value: &str, is_active: bool, cursor: char, theme: &Theme) -> (r:
    FieldPainting)
    ensures
        r@ == input_field(label@, value@, is_active, cursor, theme),
{
    let mut content = text::owned(value);
    if is_active {
        content.push(cursor);
    }
    frame_field(label, content, is_active, theme)
}

pub fn draw_text_field(field: &TextField, theme: &Theme) -> (r: FieldPainting)
    ensures
        r@ == framed(
            field.label@,
            field_text(field.value@, field.is_secret, field.is_active, field.cursor),
            field.is_active,
            theme,
        ),
{
    let mut content = if field.is_secret {
        text::mask(field.value, '*')
    } else {
        text::owned(field.value)
    };
    if field.is_active {
        content.push(field.cursor);
    }
    frame_field(field.label, content, field.is_active, theme)
}

/// A percentage of a length, rounded to whole cells.
pub open spec fn share(length: u16, percent: int) -> int {
    (length * percent + 50) / 100
}

/// The rows of an area between a share above and the same share below.
pub open spec fn middle_rows(side: u16, middle: u16, area: Rect) -> Rect {
    let above = share(area.height, side as int);
    let upto = share(area.height, side + middle);
    Rect { y: (area.y + above) as u16, height: (upto - above) as u16, ..area }
}

/// The columns of an area between a share to the left and the same share to
/// the right.
pub open spec fn middle_columns(side: u16, middle: u16, area: Rect) -> Rect {
    let before = share(area.width, side as int);
    let upto = share(area.width, side + middle);
    Rect { x: (area.x + before) as u16, width: (upto - before) as u16, ..area }
}

/// `ratatui::layout::Layout::split` divides an area from top to bottom into parts of given
/// percentages; the middle one of three is returned. Percentages that fit into
/// the area are all met, one part after the other without gaps, and each border
/// is rounded to the nearest cell, halves up. The area must end inside the
/// terminal's coordinates, else it would be clipped first.
#[verifier::external_body]
fn middle_row(side: u16, middle: u16, area: Rect) -> (r: Rect)
    requires
        2 * side + middle <= 100,
        area.x + area.width <= u16::MAX,
        area.y + area.height <= u16::MAX,
    ensures
        r == middle_rows(side, middle, area),
{
    let parts = ratatui::layout::Layout::default()
        .direction(ratatui::layout::Direction::Vertical)
        .constraints([
            ratatui::layout::Constraint::Percentage(side),
            ratatui::layout::Constraint::Percentage(middle),
            ratatui::layout::Constraint::Percentage(side),
        ])
        .split(ratatui::layout::Rect::new(area.x, area.y, area.width, area.height));
    Rect { x: parts[1].x, y: parts[1].y, width: parts[1].width, height: parts[1].height }
}

/// `ratatui::layout::Layout::split` divides an area from left to right into parts of given
/// percentages; the middle one of three is returned. Percentages that fit into
/// the area are all met, one part after the other without gaps, and each border
/// is rounded to the nearest cell, halves up. The area must end inside the
/// terminal's coordinates, else it would be clipped first.
#[verifier::external_body]
fn middle_column(side: u16, middle: u16, area: Rect) -> (r: Rect)
    requires
        2 * side + middle <= 100,
        area.x + area.width <= u16::MAX,
        area.y + area.height <= u16::MAX,
    ensures
        r == middle_columns(side, middle, area),
{
    let parts = ratatui::layout::Layout::default()
        .direction(ratatui::layout::Direction::Horizontal)
        .constraints([
            ratatui::layout::Constraint::Percentage(side),
            ratatui::layout::Constraint::Percentage(middle),
            ratatui::layout::Constraint::Percentage(side),
        ])
        .split(ratatui::layout::Rect::new(area.x, area.y, area.width, area.height));
    Rect { x: parts[1].x, y: parts[1].y, width: parts[1].width, height: parts[1].height }
}

/// Whether a rectangle lies inside an area.
pub open spec fn lies_inside(r: Rect, area: Rect) -> bool {
    &&& area.x <= r.x
    &&& r.x + r.width <= area.x + area.width
    &&& area.y <= r.y
    &&& r.y + r.height <= area.y + area.height
}

/// Shares of a length are ordered like the percentages, and never exceed it.
proof fn shares_are_ordered(length: u16, a: int, b: int)
    requires
        0 <= a <= b <= 100,
    ensures
        0 <= share(length, a) <= share(length, b) <= length,
{
    assert(0 <= length * a <= length * b <= length * 100) by (nonlinear_arith)
        requires
            0 <= a <= b <= 100,
            0 <= length,
    ;
}

/// A rectangle in the middle of an area that takes the given percentages of its
/// columns and rows.
pub open spec fn centered_area(percent_x: u16, percent_y: u16, area: Rect) -> Rect {
    let band = middle_rows(((100 - percent_y) / 2) as u16, percent_y, area);
    middle_columns(((100 - percent_x) / 2) as u16, percent_x, band)
}

/// A centered rectangle lies inside its area.
pub proof fn centered_rectangles_lie_inside(percent_x: u16, percent_y: u16, area: Rect)
    requires
        percent_x <= 100,
        percent_y <= 100,
        area.x + area.width <= u16::MAX,
        area.y + area.height <= u16::MAX,
    ensures
        lies_inside(centered_area(percent_x, percent_y, area), area),
{
    let x = (100 - percent_x) / 2;
    let y = (100 - percent_y) / 2;
    shares_are_ordered(area.height, y, y + percent_y);
    shares_are_ordered(area.width, x, x + percent_x);
}

pub fn centered_rect(percent_x: u16, percent_y: u16, area: Rect) -> (r: Rect)
    requires
        percent_x <= 100,
        percent_y <= 100,
        area.x + area.width <= u16::MAX,
        area.y + area.height <= u16::MAX,
    ensures
        r == centered_area(percent_x, percent_y, area),
{
    proof {
        let y = (100 - percent_y) / 2;
        shares_are_ordered(area.height, y, y + percent_y);
    }
    let band = middle_row((100 - percent_y) / 2, percent_y, area);
    middle_column((100 - percent_x) / 2, percent_x, band)
}

/// The part of an area inside margins on all sides.
pub open spec fn inner_area(area: Rect, margin_x: u16, margin_y: u16) -> Rect {
    Rect {
        x: (area.x + margin_x) as u16,
        y: (area.y + margin_y) as u16,
        width: if area.width >= 2 * margin_x {
            (area.width - 2 * margin_x) as u16
        } else {
            0
        },
        height: if area.height >= 2 * margin_y {
            (area.height - 2 * margin_y) as u16
        } else {
            0
        },
    }
}

pub fn inner_rect(area: Rect, margin_x: u16, margin_y: u16) -> (r: Rect)
    requires
        area.x + margin_x <= u16::MAX,
        area.y + margin_y <= u16::MAX,
        2 * margin_x <= u16::MAX,
        2 * margin_y <= u16::MAX,
    ensures
        r == inner_area(area, margin_x, margin_y),
{
    Rect {
        x: area.x + margin_x,
        y: area.y + margin_y,
        width: area.width.saturating_sub(margin_x * 2),
        height: area.height.saturating_sub(margin_y * 2),
    }
}

/// The smaller of a size and what an area leaves after a margin.
pub open spec fn fitted(size: u16, space: u16, margin: u16) -> u16 {
    let left = if space >= margin {
        (space - margin) as u16
    } else {
        0
    };
    if size <= left {
        size
    } else {
        left
    }
}

/// A box of the given size, made to fit with a margin of four cells in each
/// direction, in the middle of an area that starts at the origin.
pub open spec fn centered_box(area: Rect, width: u16, height: u16) -> Rect {
    let w = fitted(width, area.width, 4);
    let h = fitted(height, area.height, 4);
    Rect {
        x: ((area.width - w) / 2) as u16,
        y: ((area.height - h) / 2) as u16,
        width: w,
        height: h,
    }
}

fn fit(size: u16, space: u16, margin: u16) -> (r: u16)
    ensures
        r == fitted(size, space, margin),
        r <= space,
{
    let left: u16 = space.saturating_sub(margin);
    if size <= left {
        size
    } else {
        left
    }
}

/// A box of the given size in the middle of an area, made to fit.
pub fn modal_box(area: Rect, width: u16, height: u16) -> (r: Rect)
    ensures
        r == centered_box(area, width, height),
{
    let w: u16 = fit(width, area.width, 4);
    let h: u16 = fit(height, area.height, 4);
    Rect { x: (area.width - w) / 2, y: (area.height - h) / 2, width: w, height: h }
}

/// Cents as currency: negative amounts in parentheses.
pub open spec fn currency(cents: int) -> Seq<char> {
    if cents < 0 {
        "($"@ + money::dollars(text::magnitude(cents)) + ")"@
    } else {
        "$"@ + money::dollars(text::magnitude(cents))
    }
}

pub fn format_currency(cents: i64) -> (r: String)
    ensures
        r@ == currency(cents as int),
{
    let amount = money::dollar_text(text::abs_of(cents));
    if cents < 0 {
        text::cat3("($", amount.as_str(), ")")
    } else {
        text::cat2("$", amount.as_str())
    }
}

/// Three less than a limit, but not below zero.
pub open spec fn less_three(max_len: nat) -> nat {
    if max_len >= 3 {
        (max_len - 3) as nat
    } else {
        0
    }
}

/// Whether a text can be cut to `max_len` bytes between two characters.
pub open spec fn can_truncate(s: Seq<char>, max_len: nat) -> bool {
    text::can_shorten(s, max_len, less_three(max_len))
}

/// A text of at most `max_len` bytes as it is, a longer one cut to make room
/// for three dots.
pub open spec fn truncated(s: Seq<char>, max_len: nat) -> Seq<char> {
    text::shortened(s, max_len, less_three(max_len))
}

/// Checks that a text can be cut to `max_len` bytes between two characters.
pub fn fits(s: &str, max_len: usize) -> (r: bool)
    ensures
        r == can_truncate(s@, max_len as nat),
{
    text::can_be_shortened(s, max_len, max_len.saturating_sub(3))
}

pub fn truncate(s: &str, max_len: usize) -> (r: String)
    requires
        can_truncate(s@, max_len as nat),
    ensures
        r@ == truncated(s@, max_len as nat),
{
    text::shorten(s, max_len, max_len.saturating_sub(3))
}

} // verus!
