//! What a screen shows, as plain values: styled pieces of text, lines made of
//! them, table rows, and rectangles.

use vstd::prelude::*;

use crate::text;
use crate::tui::theme;
use crate::tui::theme::{Color, Style};

verus! {

/// A piece of text in one style.
pub struct Span {
    pub text: String,
    pub style: Style,
}

impl View for Span {
    type V = (Seq<char>, Style);

    open spec fn view(&self) -> (Seq<char>, Style) {
        (self.text@, self.style)
    }
}

/// A list whose meaning is the list of its items' meanings.
pub struct Listing<T> {
    pub items: Vec<T>,
}

impl<T: View> View for Listing<T> {
    type V = Seq<T::V>;

    open spec fn view(&self) -> Seq<T::V> {
        self.items@.map_values(|t: T| t@)
    }
}

/// A line of text.
pub type Line = Listing<Span>;

/// Several lines of text.
pub type Page = Listing<Listing<Span>>;

/// The meaning of a line.
pub type LineView = Seq<(Seq<char>, Style)>;

impl<T: View> Listing<T> {
    pub fn new() -> (r: Self)
        ensures
            r@ == Seq::<T::V>::empty(),
    {
        let r = Listing { items: Vec::new() };
        assert(r@ =~= Seq::<T::V>::empty());
        r
    }

    pub fn push(&mut self, item: T)
        ensures
            final(self)@ == old(self)@.push(item@),
    {
        self.items.push(item);
        assert(self@ =~= old(self)@.push(item@));
    }

    pub fn len(&self) -> (r: usize)
        ensures
            r == self@.len(),
    {
        self.items.len()
    }
}

/// A list of one item.
pub fn list1<T: View>(a: T) -> (r: Listing<T>)
    ensures
        r@ == seq![a@],
{
    let mut r = Listing::new();
    r.push(a);
    r
}

/// A list of two items.
pub fn list2<T: View>(a: T, b: T) -> (r: Listing<T>)
    ensures
        r@ == seq![a@, b@],
{
    let mut r = list1(a);
    r.push(b);
    r
}

/// A list of three items.
pub fn list3<T: View>(a: T, b: T, c: T) -> (r: Listing<T>)
    ensures
        r@ == seq![a@, b@, c@],
{
    let mut r = list2(a, b);
    r.push(c);
    r
}

/// A list of four items.
pub fn list4<T: View>(a: T, b: T, c: T, d: T) -> (r: Listing<T>)
    ensures
        r@ == seq![a@, b@, c@, d@],
{
    let mut r = list3(a, b, c);
    r.push(d);
    r
}

/// Text in the terminal's own style.
pub open spec fn raw_view(s: Seq<char>) -> (Seq<char>, Style) {
    (s, Style::plain())
}

/// A piece of text in the terminal's own style.
pub fn raw(s: &str) -> (r: Span)
    ensures
        r@ == raw_view(s@),
{
    Span { text: text::owned(s), style: Style::plain() }
}

/// A piece of text in the terminal's own style.
pub fn raw_owned(s: String) -> (r: Span)
    ensures
        r@ == raw_view(s@),
{
    Span { text: s, style: Style::plain() }
}

/// A piece of text in the given style.
pub fn styled(s: &str, style: Style) -> (r: Span)
    ensures
        r@ == (s@, style),
{
    Span { text: text::owned(s), style }
}

/// A piece of text in the given style.
pub fn styled_owned(s: String, style: Style) -> (r: Span)
    ensures
        r@ == (s@, style),
{
    Span { text: s, style }
}

/// The empty line: one empty piece of text.
pub open spec fn blank_view() -> LineView {
    seq![raw_view(""@)]
}

/// An empty line.
pub fn blank() -> (r: Line)
    ensures
        r@ == blank_view(),
{
    list1(raw(""))
}

/// A table row: its cells and the style of the whole row.
pub struct Row {
    pub cells: Listing<Span>,
    pub style: Style,
}

/// The meaning of a table row.
#[verifier::ext_equal]
pub ghost struct RowView {
    pub cells: LineView,
    pub style: Style,
}

impl View for Row {
    type V = RowView;

    open spec fn view(&self) -> RowView {
        RowView { cells: self.cells@, style: self.style }
    }
}

/// A row of cells in one style.
pub fn row(cells: Listing<Span>, style: Style) -> (r: Row)
    ensures
        r@ == (RowView { cells: cells@, style }),
{
    Row { cells, style }
}

/// A rectangle of the terminal, in cells.
#[derive(Debug, Clone, Copy, PartialEq, Eq, Structural)]
pub struct Rect {
    pub x: u16,
    pub y: u16,
    pub width: u16,
    pub height: u16,
}

/// A line with one more key and what it does.
pub open spec fn hint(line: LineView, key: Seq<char>, action: Seq<char>, color: Color) -> LineView {
    line.push((key, theme::colored(color))).push(raw_view(action))
}

/// Adds a key and what it does to a line.
pub fn push_hint(line: &mut Line, key: &str, action: &str, color: Color)
    ensures
        final(line)@ == hint(old(line)@, key@, action@, color),
{
    line.push(styled(key, theme::colored(color)));
    line.push(raw(action));
}

/// A line that holds one piece of text in the terminal's own style.
pub fn raw_line(s: String) -> (r: Line)
    ensures
        r@ == seq![raw_view(s@)],
{
    list1(raw_owned(s))
}

/// An optional line as it is drawn.
pub open spec fn opt_line(line: Option<Line>) -> Option<LineView> {
    match line {
        Some(l) => Some(l@),
        None => None,
    }
}

/// A line that holds one piece of text in a style.
pub fn styled_line(s: &str, style: Style) -> (r: Line)
    ensures
        r@ == seq![(s@, style)],
{
    list1(styled(s, style))
}

/// A line that holds one piece of text in a style.
pub fn styled_owned_line(s: String, style: Style) -> (r: Line)
    ensures
        r@ == seq![(s@, style)],
{
    list1(styled_owned(s, style))
}

/// Texts as plain cells.
pub open spec fn plain_cells(v: Seq<Seq<char>>) -> LineView {
    v.map_values(|s: Seq<char>| raw_view(s))
}

/// Adds plain text to a line.
pub fn push_text(line: &mut Line, s: String)
    ensures
        final(line)@ == old(line)@.push(raw_view(s@)),
{
    line.push(raw_owned(s));
}

/// Adds plain text to a line.
pub fn push_str(line: &mut Line, s: &str)
    ensures
        final(line)@ == old(line)@.push(raw_view(s@)),
{
    line.push(raw(s));
}

/// Whether a row shows a text in the column with a heading.
pub open spec fn shows_under(
    headings: LineView,
    row: RowView,
    heading: Seq<char>,
    shown: Seq<char>,
) -> bool {
    &&& row.cells.len() == headings.len()
    &&& exists|k: int| 0 <= k < headings.len() && (#[trigger] headings[k]).0 == heading
    &&& forall|k: int|
        0 <= k < headings.len() && (#[trigger] headings[k]).0 == heading ==> row.cells[k].0 == shown
}

} // verus!
