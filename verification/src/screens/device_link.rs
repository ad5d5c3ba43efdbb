//! Device link form: takes the link token from another device.

use vstd::prelude::*;

use crate::draw::{
    bold, boxed, boxed_op, byte_width, bytes_wide, centred, centred_row, char_width, chars_wide,
    colored, drawn, field, field_row, frame, framed, gap, gap_before, moved, plus, put, row, row_op,
    Area, Color, Draw, DrawView,
};
use crate::text::{cat2, without_last};

verus! {

/// The device link form.
#[derive(Debug)]
pub struct DeviceLinkScreen {
    pub token: String,
    pub status: Option<String>,
    pub is_error: bool,
}

/// The line at the bottom.
pub const LINK_HINT: &'static str = "Enter=link   Esc=back   Ctrl+C=quit";

/// What the form shows: the title, the field with the token and a cursor, the status where there
/// is one, and the hint.
pub open spec fn link_drawing(s: DeviceLinkScreen, area: Area) -> Seq<DrawView> {
    let title = "Link existing device"@;
    let y = plus(area.y, gap(area.height, 8) as int);
    let y_field = plus(y, 2);
    let y_status = plus(y_field, 4);
    let head = seq![
        row_op(centred_row(area, y, byte_width(title)), title, bold(Color::Cyan)),
        boxed_op(
            field_row(area, y_field),
            framed(" Link token "@, false, colored(Color::Cyan)),
            s.token@ + "_"@,
            colored(Color::White),
        ),
    ];
    match s.status {
        Some(msg) => head + seq![
            row_op(
                centred_row(area, y_status, char_width(msg@)),
                msg@,
                bold(
                    if s.is_error {
                        Color::Red
                    } else {
                        Color::Green
                    },
                ),
            ),
            row_op(
                centred_row(area, plus(y_status, 1), byte_width(LINK_HINT@)),
                LINK_HINT@,
                colored(Color::DarkGray),
            ),
        ],
        None => head + seq![
            row_op(
                centred_row(area, y_status, byte_width(LINK_HINT@)),
                LINK_HINT@,
                colored(Color::DarkGray),
            ),
        ],
    }
}

impl DeviceLinkScreen {
    /// An empty form.
    pub open spec fn is_new(self) -> bool {
        self.token@ == ""@ && self.status is None && !self.is_error
    }

    /// An empty form.
    pub fn new() -> (r: Self)
        ensures
            r.is_new(),
    {
        DeviceLinkScreen { token: "".to_string(), status: None, is_error: false }
    }

    /// Adds a character to the token.
    pub fn push_char(&mut self, c: char)
        ensures
            *final(self) == (DeviceLinkScreen { token: final(self).token, ..*old(self) }),
            final(self).token@ == old(self).token@.push(c),
    {
        self.token.push(c);
    }

    /// Takes the last character of the token away.
    pub fn pop_char(&mut self)
        ensures
            *final(self) == (DeviceLinkScreen { token: final(self).token, ..*old(self) }),
            final(self).token@ == without_last(old(self).token@),
    {
        let _ = self.token.pop();
    }

    /// Shows a note or an error.
    pub fn set_status(&mut self, msg: &str, is_error: bool)
        ensures
            *final(self) == (DeviceLinkScreen { status: final(self).status, is_error, ..*old(self)
            }),
            final(self).status is Some && final(self).status->0@ == msg@,
    {
        self.status = Some(msg.to_string());
        self.is_error = is_error;
    }

    /// Shows nothing.
    pub fn clear_status(&mut self)
        ensures
            *final(self) == (DeviceLinkScreen { status: None, ..*old(self) }),
    {
        self.status = None;
    }

    /// Draws the form.
    pub fn render(&self, area: Area) -> (r: Vec<Draw>)
        ensures
            drawn(r@) == link_drawing(*self, area),
    {
        let title = "Link existing device";
        let mut ops: Vec<Draw> = Vec::new();
        let mut y: u16 = moved(area.y, gap_before(area.height, 8));
        put(&mut ops, row(centred(area, y, bytes_wide(title)), title, bold(Color::Cyan)));
        y = moved(y, 2);
        put(
            &mut ops,
            boxed(
                field(area, y),
                frame(" Link token ", false, colored(Color::Cyan)),
                cat2(self.token.as_str(), "_"),
                colored(Color::White),
            ),
        );
        y = moved(y, 4);
        if let Some(msg) = &self.status {
            let color = if self.is_error {
                Color::Red
            } else {
                Color::Green
            };
            let m: &str = msg.as_str();
            put(&mut ops, row(centred(area, y, chars_wide(m)), m, bold(color)));
            y = moved(y, 1);
        }
        put(
            &mut ops,
            row(centred(area, y, bytes_wide(LINK_HINT)), LINK_HINT, colored(Color::DarkGray)),
        );
        assert(drawn(ops@) == link_drawing(*self, area));
        ops
    }
}

} // verus!
