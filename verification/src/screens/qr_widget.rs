//! QR codes in the terminal, two rows of modules to one row of text:
//!   `█` both dark, `▀` the upper one dark, `▄` the lower one dark, blank both light.
//!
//! Around the code there is a quiet zone of two light modules, which scanners rely on.

use vstd::prelude::*;

use crate::draw::{
    add_line, byte_width, bytes_wide, colored, drawn, gap, gap_before, least, least_of, line, moved,
    on, plain, plus, put, row, row_op, shown, span, span_of, styled, text, text_op, Area, Color,
    Draw, DrawView, Line, SpanView, Style,
};

verus! {

/// The width of the quiet zone on each side, in modules.
pub const QUIET: usize = 2;

/// How much of a code can be damaged without it becoming unreadable.
#[derive(Debug, Clone, Copy, PartialEq, Eq, Structural)]
pub enum Correction {
    Low,
    Medium,
    Quartile,
    High,
}

/// The QR code for a text: the number of modules on each side, and row by row which of them are
/// dark; nothing where the text does not fit into a code.
pub uninterp spec fn qr_symbol(data: Seq<char>, level: Correction) -> Option<(usize, Seq<bool>)>;

/// Calls `qrcode::QrCode::with_error_correction_level`, and `width` and `to_colors` of the code:
/// a code has 21 to 177 modules on each side.
#[verifier::external_body]
fn encode(data: &str, level: Correction) -> (r: Option<(usize, Vec<bool>)>)
    ensures
        match r {
            Some(code) => {
                &&& qr_symbol(data@, level) == Some((code.0, code.1@))
                &&& 21 <= code.0 <= 177
                &&& code.1@.len() == code.0 * code.0
            },
            None => qr_symbol(data@, level) is None,
        },
{
    let level = match level {
        Correction::Low => qrcode::EcLevel::L,
        Correction::Medium => qrcode::EcLevel::M,
        Correction::Quartile => qrcode::EcLevel::Q,
        Correction::High => qrcode::EcLevel::H,
    };
    match qrcode::QrCode::with_error_correction_level(data, level) {
        Ok(code) => Some((
            code.width(),
            code.to_colors().into_iter().map(|c| c == qrcode::Color::Dark).collect(),
        )),
        Err(_) => None,
    }
}

/// Whether the module in a row and a column is dark, counted with the quiet zone.
pub open spec fn is_dark(width: usize, modules: Seq<bool>, r: int, c: int) -> bool {
    &&& QUIET <= r < width + QUIET
    &&& QUIET <= c < width + QUIET
    &&& modules[(r - QUIET) * width + (c - QUIET)]
}

/// The character for two modules, one above the other.
pub open spec fn half_blocks(upper: bool, lower: bool) -> char {
    if upper && lower {
        '█'
    } else if upper {
        '▀'
    } else if lower {
        '▄'
    } else {
        ' '
    }
}

/// The number of modules on each side with the quiet zone.
pub open spec fn padded_width(width: usize) -> nat {
    (width + 2 * QUIET) as nat
}

/// The number of rows of text for that many rows of modules.
pub open spec fn text_rows(width: usize) -> nat {
    ((padded_width(width) + 1) / 2) as nat
}

/// The `h`th row of text of a code: dark modules in one colour on a background of the other.
pub open spec fn qr_line(width: usize, modules: Seq<bool>, h: int, style: Style) -> Seq<SpanView> {
    Seq::new(
        padded_width(width),
        |c: int|
            styled(
                seq![
                    half_blocks(
                        is_dark(width, modules, 2 * h, c),
                        is_dark(width, modules, 2 * h + 1, c),
                    ),
                ],
                style,
            ),
    )
}

/// All rows of text of a code.
pub open spec fn qr_lines(width: usize, modules: Seq<bool>, style: Style) -> Seq<Seq<SpanView>> {
    Seq::new(text_rows(width), |h: int| qr_line(width, modules, h, style))
}

/// A QR code with an optional caption.
#[derive(Debug)]
pub struct QrWidget<'a> {
    /// What to encode.
    pub data: &'a str,
    /// What is written below the code.
    pub caption: Option<&'a str>,
    /// The colour of dark modules.
    pub fg: Color,
    /// The colour of light modules.
    pub bg: Color,
}

/// The text in an option.
pub open spec fn text_in(t: Option<&str>) -> Option<Seq<char>> {
    match t {
        Some(t) => Some(t@),
        None => None,
    }
}

/// What a QR code shows: the code and the caption below it, centred, or a note where the text
/// does not fit into a code.
pub open spec fn qr_drawing(
    symbol: Option<(usize, Seq<bool>)>,
    caption: Option<Seq<char>>,
    fg: Color,
    bg: Color,
    area: Area,
) -> Seq<DrawView> {
    match symbol {
        None => {
            let note = "[ QR unavailable ]"@;
            if area.height > 0 {
                seq![
                    row_op(
                        Area {
                            x: plus(area.x, gap(area.width, byte_width(note)) as int),
                            y: area.y,
                            width: byte_width(note),
                            height: 1,
                        },
                        note,
                        colored(Color::DarkGray),
                    ),
                ]
            } else {
                Seq::empty()
            }
        },
        Some((width, modules)) => {
            let code = qr_lines(width, modules, on(fg, bg));
            let lines = match caption {
                Some(c) => code.push(seq![styled(c, colored(Color::DarkGray))]),
                None => code,
            };
            let w = padded_width(width) as u16;
            let h = lines.len() as u16;
            seq![
                text_op(
                    Area {
                        x: plus(area.x, gap(area.width, w) as int),
                        y: plus(area.y, gap(area.height, h) as int),
                        width: least(w, area.width),
                        height: least(h, area.height),
                    },
                    lines,
                    plain(),
                ),
            ]
        },
    }
}

/// The number of columns and rows of a code.
pub open spec fn qr_size(symbol: Option<(usize, Seq<bool>)>) -> Option<(u16, u16)> {
    match symbol {
        Some((width, _)) => Some((padded_width(width) as u16, text_rows(width) as u16)),
        None => None,
    }
}

/// Whether a module is dark, counted with the quiet zone.
fn dark(width: usize, modules: &Vec<bool>, r: usize, c: usize) -> (b: bool)
    requires
        width <= 177,
        modules@.len() == width * width,
    ensures
        b == is_dark(width, modules@, r as int, c as int),
{
    if r < QUIET || c < QUIET || r >= width + QUIET || c >= width + QUIET {
        return false;
    }
    let i: usize = r - QUIET;
    let j: usize = c - QUIET;
    assert(0 <= i * width + j < width * width && i * width <= 177 * 177) by (nonlinear_arith)
        requires
            0 <= i < width,
            0 <= j < width,
            width <= 177,
    ;
    modules[i * width + j]
}

/// The `h`th row of text of a code.
fn code_row(width: usize, modules: &Vec<bool>, h: usize, style: Style) -> (r: Line)
    requires
        width <= 177,
        h <= 200,
        modules@.len() == width * width,
    ensures
        r@ == qr_line(width, modules@, h as int, style),
{
    let n: usize = width + 2 * QUIET;
    let mut l = Line::new();
    let mut c: usize = 0;
    while c < n
        invariant
            c <= n,
            n == width + 2 * QUIET,
            width <= 177,
            h <= 200,
            modules@.len() == width * width,
            l@ == qr_line(width, modules@, h as int, style).take(c as int),
        decreases n - c,
    {
        let upper = dark(width, modules, 2 * h, c);
        let lower = dark(width, modules, 2 * h + 1, c);
        let ch: char = if upper && lower {
            '█'
        } else if upper {
            '▀'
        } else if lower {
            '▄'
        } else {
            ' '
        };
        let mut cell = String::new();
        cell.push(ch);
        assert(cell@ == seq![ch]);
        l = l.with(span_of(cell, style));
        c = c + 1;
        assert(l@ == qr_line(width, modules@, h as int, style).take(c as int));
    }
    assert(l@ == qr_line(width, modules@, h as int, style));
    l
}

impl<'a> QrWidget<'a> {
    /// A code in white on the background of the terminal, without caption.
    pub fn new(data: &'a str) -> (r: Self)
        ensures
            r.data@ == data@,
            r.caption is None,
            r.fg == Color::White,
            r.bg == Color::Reset,
    {
        QrWidget { data, caption: None, fg: Color::White, bg: Color::Reset }
    }

    /// The code with a caption.
    pub fn caption(self, caption: &'a str) -> (r: Self)
        ensures
            r == (QrWidget { caption: Some(caption), ..self }),
    {
        QrWidget { data: self.data, caption: Some(caption), fg: self.fg, bg: self.bg }
    }

    /// The number of columns and rows that a code of the given size takes.
    pub fn size_of(code: &Option<(usize, Vec<bool>)>) -> (r: Option<(u16, u16)>)
        requires
            code is Some ==> (code->0).0 <= 177,
        ensures
            r == match *code {
                Some(c) => qr_size(Some((c.0, c.1@))),
                None => None,
            },
    {
        match code {
            Some(c) => {
                let n: usize = c.0 + 2 * QUIET;
                Some((n as u16, ((n + 1) / 2) as u16))
            },
            None => None,
        }
    }

    /// The number of columns and rows that the code for a text takes, or nothing where the text
    /// is too long for a code.
    pub fn size_hint(data: &str) -> (r: Option<(u16, u16)>)
        ensures
            match r {
                Some(size) => {
                    &&& qr_symbol(data@, Correction::Medium) matches Some(code)
                    &&& size.0 == padded_width(code.0) && size.1 == text_rows(code.0)
                    &&& 25 <= size.0 <= 181 && 13 <= size.1 <= 91
                },
                None => qr_symbol(data@, Correction::Medium) is None,
            },
            r == qr_size(qr_symbol(data@, Correction::Medium)),
    {
        let code = encode(data, Correction::Medium);
        QrWidget::size_of(&code)
    }

    /// Draws a code that was made already.
    pub fn draw(&self, code: &Option<(usize, Vec<bool>)>, area: Area) -> (r: Vec<Draw>)
        requires
            code is Some ==> (code->0).0 <= 177 && (code->0).1@.len() == (code->0).0 * (code->0).0,
        ensures
            drawn(r@) == qr_drawing(
                match *code {
                    Some(c) => Some((c.0, c.1@)),
                    None => None,
                },
                text_in(self.caption),
                self.fg,
                self.bg,
                area,
            ),
    {
        let mut ops: Vec<Draw> = Vec::new();
        match code {
            None => {
                if area.height > 0 {
                    let note = "[ QR unavailable ]";
                    let w: u16 = bytes_wide(note);
                    let place = Area {
                        x: moved(area.x, gap_before(area.width, w)),
                        y: area.y,
                        width: w,
                        height: 1,
                    };
                    put(&mut ops, row(place, note, colored(Color::DarkGray)));
                }
                assert(drawn(ops@) == qr_drawing(
                    None,
                    text_in(self.caption),
                    self.fg,
                    self.bg,
                    area,
                ));
            },
            Some(c) => {
                let width: usize = c.0;
                let modules = &c.1;
                let style = on(self.fg, self.bg);
                let n: usize = (width + 2 * QUIET + 1) / 2;
                let mut lines: Vec<Line> = Vec::new();
                let mut h: usize = 0;
                while h < n
                    invariant
                        h <= n,
                        n == text_rows(width),
                        width <= 177,
                        modules@.len() == width * width,
                        shown(lines@) == qr_lines(width, modules@, style).take(h as int),
                    decreases n - h,
                {
                    add_line(&mut lines, code_row(width, modules, h, style));
                    h = h + 1;
                    assert(shown(lines@) == qr_lines(width, modules@, style).take(h as int));
                }
                assert(shown(lines@) == qr_lines(width, modules@, style));
                if let Some(caption) = self.caption {
                    add_line(&mut lines, line(span(caption, colored(Color::DarkGray))));
                }
                let w: u16 = (width + 2 * QUIET) as u16;
                let rows: u16 = if self.caption.is_some() {
                    (n + 1) as u16
                } else {
                    n as u16
                };
                let place = Area {
                    x: moved(area.x, gap_before(area.width, w)),
                    y: moved(area.y, gap_before(area.height, rows)),
                    width: least_of(w, area.width),
                    height: least_of(rows, area.height),
                };
                put(&mut ops, text(place, lines, plain()));
                assert(drawn(ops@) == qr_drawing(
                    Some((width, modules@)),
                    text_in(self.caption),
                    self.fg,
                    self.bg,
                    area,
                ));
            },
        }
        ops
    }

    /// Draws the code.
    pub fn render(&self, area: Area) -> (r: Vec<Draw>)
        ensures
            drawn(r@) == qr_drawing(
                qr_symbol(self.data@, Correction::Medium),
                text_in(self.caption),
                self.fg,
                self.bg,
                area,
            ),
    {
        let code = encode(self.data, Correction::Medium);
        self.draw(&code, area)
    }
}

/// The size that is announced for a code is the size that it is drawn with: that many rows of
/// text, each of that many columns.
pub proof fn size_matches_drawing(width: usize, modules: Seq<bool>, style: Style)
    requires
        width <= 177,
    ensures
        qr_size(Some((width, modules))) == Some(
            (padded_width(width) as u16, qr_lines(width, modules, style).len() as u16),
        ),
        forall|h: int|
            0 <= h < text_rows(width) ==> (#[trigger] qr_lines(width, modules, style)[h]).len()
                == padded_width(width),
{
}

/// The quiet zone is light: no module in the two rows or columns at an edge is dark.
pub proof fn quiet_zone_is_light(width: usize, modules: Seq<bool>, r: int, c: int)
    requires
        r < QUIET || c < QUIET || r >= width + QUIET || c >= width + QUIET,
    ensures
        !is_dark(width, modules, r, c),
{
}

} // verus!
