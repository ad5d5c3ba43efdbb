//! What the screens put on the terminal: areas, styles, styled text and drawing operations.
//!
//! A screen is rendered into a list of [`Draw`] operations, which are then painted in order.

use vstd::prelude::*;
use vstd::utf8::*;

verus! {

// ── Areas ────────────────────────────────────────────────────────────────────

/// A rectangle of terminal cells.
#[derive(Debug, Clone, Copy, PartialEq, Eq, Structural)]
pub struct Area {
    pub x: u16,
    pub y: u16,
    pub width: u16,
    pub height: u16,
}

/// `a` moved on by `d` cells, at most to the last cell.
pub open spec fn plus(a: u16, d: int) -> u16 {
    if a + d <= u16::MAX {
        (a + d) as u16
    } else {
        u16::MAX
    }
}

/// `a` moved on by `d` cells, at most to the last cell.
pub fn moved(a: u16, d: u16) -> (r: u16)
    ensures
        r == plus(a, d as int),
{
    if a <= u16::MAX - d {
        a + d
    } else {
        u16::MAX
    }
}

/// The gap before something of size `inner` that is centred in `outer` cells.
pub open spec fn gap(outer: u16, inner: u16) -> u16 {
    if outer > inner {
        ((outer - inner) / 2) as u16
    } else {
        0
    }
}

/// The gap before something of size `inner` that is centred in `outer` cells.
pub fn gap_before(outer: u16, inner: u16) -> (r: u16)
    ensures
        r == gap(outer, inner),
{
    if outer > inner {
        (outer - inner) / 2
    } else {
        0
    }
}

/// The smaller of two sizes.
pub open spec fn least(a: u16, b: u16) -> u16 {
    if a <= b {
        a
    } else {
        b
    }
}

/// The smaller of two sizes.
pub fn least_of(a: u16, b: u16) -> (r: u16)
    ensures
        r == least(a, b),
{
    if a <= b {
        a
    } else {
        b
    }
}

/// `a` less `b`, at least zero.
pub open spec fn minus(a: u16, b: u16) -> u16 {
    if a > b {
        (a - b) as u16
    } else {
        0
    }
}

/// `a` less `b`, at least zero.
pub fn reduced(a: u16, b: u16) -> (r: u16)
    ensures
        r == minus(a, b),
{
    if a > b {
        a - b
    } else {
        0
    }
}

/// One row of `area` at height `y` for something `width` cells wide, centred.
pub open spec fn centred_row(area: Area, y: u16, width: u16) -> Area {
    Area {
        x: plus(area.x, gap(area.width, width) as int),
        y,
        width: least(width, area.width),
        height: 1,
    }
}

/// One row of `area` at height `y` for something `width` cells wide, centred.
pub fn centred(area: Area, y: u16, width: u16) -> (r: Area)
    ensures
        r == centred_row(area, y, width),
{
    Area {
        x: moved(area.x, gap_before(area.width, width)),
        y,
        width: least_of(width, area.width),
        height: 1,
    }
}

/// The place of a bordered input field at height `y`: 42 cells wide, less where `area` is too
/// narrow for that with a margin of two cells, and three rows high.
pub open spec fn field_row(area: Area, y: u16) -> Area {
    let width = least(42, minus(area.width, 4));
    Area { x: plus(area.x, gap(area.width, width) as int), y, width, height: 3 }
}

/// The place of a bordered input field at height `y`.
pub fn field(area: Area, y: u16) -> (r: Area)
    ensures
        r == field_row(area, y),
{
    let width: u16 = least_of(42, reduced(area.width, 4));
    Area { x: moved(area.x, gap_before(area.width, width)), y, width, height: 3 }
}

/// The number of bytes of a text, as a cell count.
pub open spec fn byte_width(t: Seq<char>) -> u16 {
    encode_utf8(t).len() as u16
}

/// The number of bytes of a text, as a cell count.
pub fn bytes_wide(s: &str) -> (r: u16)
    ensures
        r == byte_width(s@),
{
    #[verifier::truncate]
    (s.as_bytes().len() as u16)
}

/// The number of characters of a text, as a cell count.
pub open spec fn char_width(t: Seq<char>) -> u16 {
    t.len() as u16
}

/// The number of characters of a text, as a cell count.
pub fn chars_wide(s: &str) -> (r: u16)
    ensures
        r == char_width(s@),
{
    #[verifier::truncate]
    (s.unicode_len() as u16)
}

// ── Styles ───────────────────────────────────────────────────────────────────

/// The colours in use.
#[derive(Debug, Clone, Copy, PartialEq, Eq, Structural)]
pub enum Color {
    /// The colour that the terminal starts with.
    Reset,
    Black,
    White,
    Red,
    Green,
    Yellow,
    Magenta,
    Cyan,
    DarkGray,
}

/// How text looks. What is not set is left as it is.
#[derive(Debug, Clone, Copy, PartialEq, Eq)]
pub struct Style {
    pub fg: Option<Color>,
    pub bg: Option<Color>,
    pub bold: bool,
    pub dim: bool,
}

/// A style that changes nothing.
#[verifier::allow_in_spec]
pub fn plain() -> Style
    returns
        (Style { fg: None, bg: None, bold: false, dim: false }),
{
    Style { fg: None, bg: None, bold: false, dim: false }
}

/// Text in a colour.
#[verifier::allow_in_spec]
pub fn colored(c: Color) -> Style
    returns
        (Style { fg: Some(c), bg: None, bold: false, dim: false }),
{
    Style { fg: Some(c), bg: None, bold: false, dim: false }
}

/// Bold text in a colour.
#[verifier::allow_in_spec]
pub fn bold(c: Color) -> Style
    returns
        (Style { fg: Some(c), bg: None, bold: true, dim: false }),
{
    Style { fg: Some(c), bg: None, bold: true, dim: false }
}

/// Text in one colour on another.
#[verifier::allow_in_spec]
pub fn on(fg: Color, bg: Color) -> Style
    returns
        (Style { fg: Some(fg), bg: Some(bg), bold: false, dim: false }),
{
    Style { fg: Some(fg), bg: Some(bg), bold: false, dim: false }
}

/// Text on a background.
#[verifier::allow_in_spec]
pub fn over(bg: Color) -> Style
    returns
        (Style { fg: None, bg: Some(bg), bold: false, dim: false }),
{
    Style { fg: None, bg: Some(bg), bold: false, dim: false }
}

// ── Styled text ──────────────────────────────────────────────────────────────

/// A piece of text in one style.
#[derive(Debug)]
pub struct Span {
    pub text: String,
    pub style: Style,
}

/// A row of text.
#[derive(Debug)]
pub struct Line {
    pub spans: Vec<Span>,
}

/// What a [`Span`] shows.
pub ghost struct SpanView {
    pub text: Seq<char>,
    pub style: Style,
}

/// A piece of text in one style.
pub open spec fn styled(text: Seq<char>, style: Style) -> SpanView {
    SpanView { text, style }
}

impl View for Span {
    type V = SpanView;

    open spec fn view(&self) -> SpanView {
        SpanView { text: self.text@, style: self.style }
    }
}

impl View for Line {
    type V = Seq<SpanView>;

    open spec fn view(&self) -> Seq<SpanView> {
        self.spans@.map_values(|s: Span| s@)
    }
}

/// What the lines show, one after the other.
pub open spec fn shown(lines: Seq<Line>) -> Seq<Seq<SpanView>> {
    lines.map_values(|l: Line| l@)
}

/// A piece of text in one style.
pub fn span(text: &str, style: Style) -> (r: Span)
    ensures
        r@ == styled(text@, style),
{
    Span { text: text.to_string(), style }
}

/// A piece of text in one style.
pub fn span_of(text: String, style: Style) -> (r: Span)
    ensures
        r@ == styled(text@, style),
{
    Span { text, style }
}

impl Line {
    /// A row without text.
    pub fn new() -> (r: Line)
        ensures
            r@ == Seq::<SpanView>::empty(),
    {
        Line { spans: Vec::new() }
    }

    /// The row with one more piece of text at its end.
    pub fn with(self, s: Span) -> (r: Line)
        ensures
            r@ == self@.push(s@),
    {
        let mut spans = self.spans;
        let ghost before = spans@;
        spans.push(s);
        assert(spans@.map_values(|s: Span| s@) == before.map_values(|s: Span| s@).push(s@));
        Line { spans }
    }
}

/// A row of one piece of text.
pub fn line(s: Span) -> (r: Line)
    ensures
        r@ == seq![s@],
{
    Line::new().with(s)
}

/// Adds a row.
pub fn add_line(lines: &mut Vec<Line>, l: Line)
    ensures
        shown(final(lines)@) == shown(old(lines)@).push(l@),
{
    lines.push(l);
    assert(shown(lines@) == shown(old(lines)@).push(l@));
}

/// A list of one row.
pub fn just_line(l: Line) -> (r: Vec<Line>)
    ensures
        shown(r@) == seq![l@],
{
    let mut lines: Vec<Line> = Vec::new();
    lines.push(l);
    assert(shown(lines@) == seq![l@]);
    lines
}

// ── Drawing operations ───────────────────────────────────────────────────────

/// A border with a title.
#[derive(Debug)]
pub struct Frame {
    pub title: String,
    /// Whether the corners are rounded.
    pub rounded: bool,
    pub style: Style,
}

/// What a [`Frame`] shows.
pub ghost struct FrameView {
    pub title: Seq<char>,
    pub rounded: bool,
    pub style: Style,
}

impl View for Frame {
    type V = FrameView;

    open spec fn view(&self) -> FrameView {
        FrameView { title: self.title@, rounded: self.rounded, style: self.style }
    }
}

/// A border with a title.
pub open spec fn framed(title: Seq<char>, rounded: bool, style: Style) -> FrameView {
    FrameView { title, rounded, style }
}

/// A border with a title.
pub fn frame(title: &str, rounded: bool, style: Style) -> (r: Frame)
    ensures
        r@ == framed(title@, rounded, style),
{
    Frame { title: title.to_string(), rounded, style }
}

/// One step of painting.
#[derive(Debug)]
pub enum Draw {
    /// Resets all cells of an area.
    Clear { area: Area },
    /// Gives all cells of an area a style.
    Fill { area: Area, style: Style },
    /// Draws a border along the edges of an area.
    Border { area: Area, frame: Frame },
    /// Writes rows of text, inside a border where there is one.
    Text {
        area: Area,
        frame: Option<Frame>,
        lines: Vec<Line>,
        style: Style,
        /// Whether rows that are too long are continued on the next.
        wrap: bool,
        /// Whether rows are centred.
        centred: bool,
    },
    /// Writes a list, inside a border where there is one, with the selected item marked.
    List {
        area: Area,
        frame: Option<Frame>,
        items: Vec<Vec<Line>>,
        highlight: Style,
        symbol: String,
        selected: Option<usize>,
        /// The item from which on the list was shown last.
        offset: usize,
    },
}

/// What a [`Draw`] operation paints.
pub ghost enum DrawView {
    Clear { area: Area },
    Fill { area: Area, style: Style },
    Border { area: Area, frame: FrameView },
    Text {
        area: Area,
        frame: Option<FrameView>,
        lines: Seq<Seq<SpanView>>,
        style: Style,
        wrap: bool,
        centred: bool,
    },
    List {
        area: Area,
        frame: Option<FrameView>,
        items: Seq<Seq<Seq<SpanView>>>,
        highlight: Style,
        symbol: Seq<char>,
        selected: Option<usize>,
        offset: usize,
    },
}

/// What an optional border shows.
pub open spec fn frame_view(f: Option<Frame>) -> Option<FrameView> {
    match f {
        Some(f) => Some(f@),
        None => None,
    }
}

/// What the items of a list show.
pub open spec fn items_shown(items: Seq<Vec<Line>>) -> Seq<Seq<Seq<SpanView>>> {
    items.map_values(|i: Vec<Line>| shown(i@))
}

impl View for Draw {
    type V = DrawView;

    open spec fn view(&self) -> DrawView {
        match self {
            Draw::Clear { area } => DrawView::Clear { area: *area },
            Draw::Fill { area, style } => DrawView::Fill { area: *area, style: *style },
            Draw::Border { area, frame } => DrawView::Border { area: *area, frame: frame@ },
            Draw::Text { area, frame, lines, style, wrap, centred } => DrawView::Text {
                area: *area,
                frame: frame_view(*frame),
                lines: shown(lines@),
                style: *style,
                wrap: *wrap,
                centred: *centred,
            },
            Draw::List { area, frame, items, highlight, symbol, selected, offset } => DrawView::List {
                area: *area,
                frame: frame_view(*frame),
                items: items_shown(items@),
                highlight: *highlight,
                symbol: symbol@,
                selected: *selected,
                offset: *offset,
            },
        }
    }
}

/// What a list of operations paints, in order.
pub open spec fn drawn(ops: Seq<Draw>) -> Seq<DrawView> {
    ops.map_values(|d: Draw| d@)
}

/// Adds an operation.
pub fn put(ops: &mut Vec<Draw>, d: Draw)
    ensures
        drawn(final(ops)@) == drawn(old(ops)@).push(d@),
{
    ops.push(d);
    assert(drawn(ops@) == drawn(old(ops)@).push(d@));
}

/// Adds all operations of another list.
pub fn put_all(ops: &mut Vec<Draw>, more: Vec<Draw>)
    ensures
        drawn(final(ops)@) == drawn(old(ops)@) + drawn(more@),
{
    let mut more = more;
    let ghost added = more@;
    ops.append(&mut more);
    assert(drawn(ops@) == drawn(old(ops)@) + drawn(added));
}

/// Adds an item to the items of a list.
pub fn add_item(items: &mut Vec<Vec<Line>>, item: Vec<Line>)
    ensures
        items_shown(final(items)@) == items_shown(old(items)@).push(shown(item@)),
{
    items.push(item);
    assert(items_shown(items@) == items_shown(old(items)@).push(shown(item@)));
}

/// Rows of text without border, wrapping or alignment.
pub open spec fn text_op(area: Area, lines: Seq<Seq<SpanView>>, style: Style) -> DrawView {
    DrawView::Text { area, frame: None, lines, style, wrap: false, centred: false }
}

/// Rows of text without border, wrapping or alignment.
pub fn text(area: Area, lines: Vec<Line>, style: Style) -> (r: Draw)
    ensures
        r@ == text_op(area, shown(lines@), style),
{
    Draw::Text { area, frame: None, lines, style, wrap: false, centred: false }
}

/// One unstyled row in the middle of an area of a style.
pub open spec fn centred_op(area: Area, t: Seq<char>, style: Style) -> DrawView {
    DrawView::Text {
        area,
        frame: None,
        lines: seq![seq![styled(t, plain())]],
        style,
        wrap: false,
        centred: true,
    }
}

/// One unstyled row in the middle of an area of a style.
pub fn centred_text(area: Area, t: &str, style: Style) -> (r: Draw)
    ensures
        r@ == centred_op(area, t@, style),
{
    Draw::Text {
        area,
        frame: None,
        lines: just_line(line(span(t, plain()))),
        style,
        wrap: false,
        centred: true,
    }
}

/// One unstyled row in an area of a style.
pub open spec fn row_op(area: Area, t: Seq<char>, style: Style) -> DrawView {
    text_op(area, seq![seq![styled(t, plain())]], style)
}

/// One unstyled row in an area of a style.
pub fn row(area: Area, t: &str, style: Style) -> (r: Draw)
    ensures
        r@ == row_op(area, t@, style),
{
    text(area, just_line(line(span(t, plain()))), style)
}

/// One row inside a border.
pub open spec fn boxed_op(area: Area, frame: FrameView, t: Seq<char>, style: Style) -> DrawView {
    DrawView::Text {
        area,
        frame: Some(frame),
        lines: seq![seq![styled(t, plain())]],
        style,
        wrap: false,
        centred: false,
    }
}

/// One row inside a border.
pub fn boxed(area: Area, frame: Frame, t: String, style: Style) -> (r: Draw)
    ensures
        r@ == boxed_op(area, frame@, t@, style),
{
    Draw::Text {
        area,
        frame: Some(frame),
        lines: just_line(line(span_of(t, plain()))),
        style,
        wrap: false,
        centred: false,
    }
}

} // verus!
