//! Onboarding screen: the form of the first run.

use vstd::prelude::*;

use crate::draw::{
    bold, boxed, boxed_op, byte_width, bytes_wide, centred, centred_row, char_width, chars_wide,
    colored, drawn, field, field_row, frame, framed, gap, gap_before, least, least_of, minus, moved,
    plus, put, reduced, row, row_op, Area, Color, Draw, DrawView,
};
use crate::text::{cat2, typed_within, without_last};

verus! {

pub const BANNER_1: &'static str =
    r" ██████╗ ██████╗ ███╗   ██╗███████╗████████╗██████╗ ██╗   ██╗ ██████╗████████╗";

pub const BANNER_2: &'static str =
    r"██╔════╝██╔═══██╗████╗  ██║██╔════╝╚══██╔══╝██╔══██╗██║   ██║██╔════╝╚══██╔══╝";

pub const BANNER_3: &'static str =
    r"██║     ██║   ██║██╔██╗ ██║███████╗   ██║   ██████╔╝██║   ██║██║        ██║   ";

pub const BANNER_4: &'static str =
    r"██║     ██║   ██║██║╚██╗██║╚════██║   ██║   ██╔══██╗██║   ██║██║        ██║   ";

pub const BANNER_5: &'static str =
    r"╚██████╗╚██████╔╝██║ ╚████║███████║   ██║   ██║  ██║╚██████╔╝╚██████╗   ██║   ";

pub const BANNER_6: &'static str =
    r" ╚═════╝ ╚═════╝ ╚═╝  ╚═══╝╚══════╝   ╚═╝   ╚═╝  ╚═╝ ╚═════╝  ╚═════╝   ╚═╝  ";

pub const NARROW_1: &'static str =
    r" ___ ___  _  _ ___ _____ ___ _   _  ___ _____";

pub const NARROW_2: &'static str =
    r"/  __/ _ \| \| / __|_   _| _ \ | | |/ __|_   _|";

pub const NARROW_3: &'static str =
    r"| (_| (_) | .` \__ \ | | |   / |_| | (__  | |";

pub const NARROW_4: &'static str =
    r" \___\___/|_|\_|___/ |_| |_|_\\___/ \___| |_|";

/// The line below the banner.
pub const TAGLINE: &'static str =
    "end-to-end encrypted  \u{b7}  quantum-resistant  \u{b7}  open protocol";

/// The line at the bottom.
pub const ONBOARDING_HINT: &'static str =
    "Enter=register (username optional)   Tab=link existing device   q=quit";

/// The rows of the banner: the full one on terminals of at least 80 columns, a compact one below.
pub open spec fn banner_rows(width: u16) -> Seq<&'static str> {
    if width >= 80 {
        seq![BANNER_1, BANNER_2, BANNER_3, BANNER_4, BANNER_5, BANNER_6]
    } else {
        seq![NARROW_1, NARROW_2, NARROW_3, NARROW_4]
    }
}

/// The rows of the banner.
fn banner(width: u16) -> (r: Vec<&'static str>)
    ensures
        r@ == banner_rows(width),
{
    if width >= 80 {
        vec![BANNER_1, BANNER_2, BANNER_3, BANNER_4, BANNER_5, BANNER_6]
    } else {
        vec![NARROW_1, NARROW_2, NARROW_3, NARROW_4]
    }
}

/// The fields of the form.
#[derive(Debug, Clone, Copy, PartialEq, Eq, Structural)]
pub enum OnboardingField {
    /// The name to register with. There is no password: a device is known by its keys.
    Username,
}

/// The length of a username, in bytes, after which no character is taken.
pub const USERNAME_LIMIT: usize = 32;

/// The onboarding form.
#[derive(Debug)]
pub struct OnboardingScreen {
    pub username: String,
    pub focused_field: OnboardingField,
    pub status: Option<String>,
    pub is_error: bool,
}

/// The `i`th row of the banner, which begins at height `y`.
pub open spec fn banner_op(area: Area, y: u16, i: int) -> DrawView {
    let rows = banner_rows(area.width);
    let x = plus(area.x, gap(area.width, char_width(rows[0]@)) as int);
    row_op(
        Area {
            x,
            y: plus(y, i),
            width: least(char_width(rows[i]@), minus(area.width, minus(x, area.x))),
            height: 1,
        },
        rows[i]@,
        bold(Color::White),
    )
}

/// What the onboarding screen shows, centred from top to bottom: the banner, the tagline, the
/// field with the username and a cursor, the status where there is one, and the hint.
pub open spec fn onboarding_drawing(s: OnboardingScreen, area: Area) -> Seq<DrawView> {
    let h = banner_rows(area.width).len();
    let y = plus(area.y, gap(area.height, (h + 9) as u16) as int);
    let y_tag = plus(y, h as int + 1);
    let y_field = plus(y_tag, 2);
    let y_status = plus(y_field, 4);
    let head = Seq::new(h, |i: int| banner_op(area, y, i)) + seq![
        row_op(centred_row(area, y_tag, char_width(TAGLINE@)), TAGLINE@, colored(Color::DarkGray)),
        boxed_op(
            field_row(area, y_field),
            framed(" Username / Display name "@, false, colored(Color::Cyan)),
            s.username@ + "_"@,
            colored(Color::White),
        ),
    ];
    let with_status = match s.status {
        Some(msg) => head.push(
            row_op(
                centred_row(area, y_status, char_width(msg@)),
                msg@,
                bold(
                    if s.is_error {
                        Color::Red
                    } else {
                        Color::Green
                    },
                ),
            ),
        ),
        None => head,
    };
    let y_hint = if s.status is Some {
        plus(y_status, 1)
    } else {
        y_status
    };
    with_status.push(
        row_op(
            centred_row(area, y_hint, byte_width(ONBOARDING_HINT@)),
            ONBOARDING_HINT@,
            colored(Color::DarkGray),
        ),
    )
}

impl OnboardingScreen {
    /// Whether the form is as it is at first.
    pub open spec fn is_new(self) -> bool {
        &&& self.username@ == ""@
        &&& self.focused_field == OnboardingField::Username
        &&& self.status is None
        &&& !self.is_error
    }

    /// An empty form.
    pub fn new() -> (r: Self)
        ensures
            r.is_new(),
    {
        OnboardingScreen {
            username: "".to_string(),
            focused_field: OnboardingField::Username,
            status: None,
            is_error: false,
        }
    }

    /// Adds a character to the username, unless it has reached its limit.
    pub fn push_char(&mut self, c: char)
        ensures
            *final(self) == (OnboardingScreen { username: final(self).username, ..*old(self) }),
            final(self).username@ == typed_within(old(self).username@, c, USERNAME_LIMIT),
    {
        if self.username.as_str().as_bytes().len() < USERNAME_LIMIT {
            self.username.push(c);
        }
    }

    /// Takes the last character of the username away.
    pub fn pop_char(&mut self)
        ensures
            *final(self) == (OnboardingScreen { username: final(self).username, ..*old(self) }),
            final(self).username@ == without_last(old(self).username@),
    {
        let _ = self.username.pop();
    }

    /// Goes to the next field; there is one only, so nothing changes.
    pub fn next_field(&mut self)
        ensures
            *final(self) == *old(self),
    {
    }

    /// Draws the screen.
    pub fn render(&self, area: Area) -> (r: Vec<Draw>)
        ensures
            drawn(r@) == onboarding_drawing(*self, area),
    {
        let rows = banner(area.width);
        let h: u16 = rows.len() as u16;
        let mut ops: Vec<Draw> = Vec::new();
        let mut y: u16 = moved(area.y, gap_before(area.height, h + 9));
        let x: u16 = moved(area.x, gap_before(area.width, chars_wide(rows[0])));
        let mut i: usize = 0;
        while i < rows.len()
            invariant
                i <= rows@.len() <= 6,
                rows@ == banner_rows(area.width),
                x == plus(area.x, gap(area.width, char_width(rows@[0]@)) as int),
                drawn(ops@) == Seq::new(i as nat, |j: int| banner_op(area, y, j)),
            decreases rows@.len() - i,
        {
            let place = Area {
                x,
                y: moved(y, i as u16),
                width: least_of(chars_wide(rows[i]), reduced(area.width, reduced(x, area.x))),
                height: 1,
            };
            put(&mut ops, row(place, rows[i], bold(Color::White)));
            i = i + 1;
            assert(drawn(ops@) == Seq::new(i as nat, |j: int| banner_op(area, y, j)));
        }
        y = moved(y, h + 1);
        put(
            &mut ops,
            row(centred(area, y, chars_wide(TAGLINE)), TAGLINE, colored(Color::DarkGray)),
        );
        y = moved(y, 2);
        put(
            &mut ops,
            boxed(
                field(area, y),
                frame(" Username / Display name ", false, colored(Color::Cyan)),
                cat2(self.username.as_str(), "_"),
                colored(Color::White),
            ),
        );
        y = moved(y, 4);
        if let Some(msg) = &self.status {
            let color = if self.is_error {
                Color::Red
            } else {
                Color::Green
            };
            let m: &str = msg.as_str();
            put(&mut ops, row(centred(area, y, chars_wide(m)), m, bold(color)));
            y = moved(y, 1);
        }
        put(
            &mut ops,
            row(
                centred(area, y, bytes_wide(ONBOARDING_HINT)),
                ONBOARDING_HINT,
                colored(Color::DarkGray),
            ),
        );
        assert(drawn(ops@) == onboarding_drawing(*self, area));
        ops
    }
}

} // verus!
