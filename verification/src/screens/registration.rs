//! Registration screen: an animated checklist.

use vstd::prelude::*;

use crate::draw::{
    bold, byte_width, bytes_wide, centred, centred_row, char_width, chars_wide, colored, drawn, gap,
    gap_before, just_line, least, least_of, line, minus, moved, plain, plus, put, reduced, row,
    row_op, span, span_of, styled, text, text_op, Area, Color, Draw, DrawView,
};
use crate::text::{cat2, cat3};

verus! {

/// The number of steps of a registration.
pub const STEP_COUNT: usize = 7;

/// The labels of the steps, in order.
pub open spec fn step_labels() -> Seq<&'static str> {
    seq![
        "Generating signing key  (Ed25519)",
        "Generating identity key (X25519)",
        "Generating signed pre-key (X25519)",
        "Signing pre-key",
        "Connecting to Construct",
        "Solving proof-of-work",
        "Registering identity",
    ]
}

/// The labels of the steps, in order.
pub fn steps() -> (r: Vec<&'static str>)
    ensures
        r@ == step_labels(),
        r@.len() == STEP_COUNT,
{
    vec![
        "Generating signing key  (Ed25519)",
        "Generating identity key (X25519)",
        "Generating signed pre-key (X25519)",
        "Signing pre-key",
        "Connecting to Construct",
        "Solving proof-of-work",
        "Registering identity",
    ]
}

/// The frames of the spinner, three columns each: scattered dots that converge into a line.
pub open spec fn spinner_frames() -> Seq<&'static str> {
    seq!["∙ ∙", " ∙ ", "∙∙ ", " ∙∙", "·∙·", "·→·", "·──", "───"]
}

/// The frames of the spinner.
fn spinner() -> (r: Vec<&'static str>)
    ensures
        r@ == spinner_frames(),
        r@.len() == 8,
{
    vec!["∙ ∙", " ∙ ", "∙∙ ", " ∙∙", "·∙·", "·→·", "·──", "───"]
}

/// The progress of a registration.
#[derive(Debug)]
pub struct RegistrationScreen {
    /// The index of the active step: all steps before it are done. With the number of steps here
    /// the registration is complete.
    pub active_step: usize,
    /// Counts the ticks of the spinner.
    pub spinner_tick: u8,
}

/// The number of columns of the longest of the first `n` labels.
pub open spec fn widest_label(labels: Seq<&'static str>, n: nat) -> u16
    decreases n,
{
    if n == 0 {
        0
    } else {
        let before = widest_label(labels, (n - 1) as nat);
        let last = char_width(labels[n - 1]@);
        if last > before {
            last
        } else {
            before
        }
    }
}

/// The mark before the `i`th step and its colour, and the colour of the label: a tick for what is
/// done, the spinner for what is under way, and nothing for what is still to come.
pub open spec fn step_mark(s: RegistrationScreen, i: int) -> (Seq<char>, Color, Color) {
    if i < s.active_step {
        ("[ ✓ ]"@, Color::Green, Color::DarkGray)
    } else if i == s.active_step {
        (
            "["@ + spinner_frames()[s.spinner_tick as int % 8]@ + "]"@,
            Color::Cyan,
            Color::White,
        )
    } else {
        ("[   ]"@, Color::DarkGray, Color::DarkGray)
    }
}

/// The width of a row of the checklist: the mark, a blank, the longest label and a margin.
pub open spec fn step_width() -> u16 {
    plus(widest_label(step_labels(), STEP_COUNT as nat), 7)
}

/// The row of the `i`th step in a checklist that begins at height `y`.
pub open spec fn step_op(s: RegistrationScreen, area: Area, y: u16, i: int) -> DrawView {
    let x = plus(area.x, gap(area.width, step_width()) as int);
    let (mark, mark_color, label_color) = step_mark(s, i);
    text_op(
        Area {
            x,
            y: plus(y, i),
            width: least(step_width(), minus(area.width, minus(x, area.x))),
            height: 1,
        },
        seq![
            seq![
                styled(mark + " "@, bold(mark_color)),
                styled(step_labels()[i]@, colored(label_color)),
            ],
        ],
        plain(),
    )
}

/// What the registration screen shows: the title, a row for each step and the hint.
pub open spec fn registration_drawing(s: RegistrationScreen, area: Area) -> Seq<DrawView> {
    let y = plus(area.y, gap(area.height, (STEP_COUNT + 4) as u16) as int);
    let y_steps = plus(y, 2);
    let y_hint = plus(plus(y_steps, STEP_COUNT as int), 1);
    let title = "INITIALIZING IDENTITY"@;
    let hint = "Ctrl+C to abort"@;
    seq![row_op(centred_row(area, y, char_width(title)), title, bold(Color::Cyan))]
        + Seq::new(STEP_COUNT as nat, |i: int| step_op(s, area, y_steps, i)) + seq![
        row_op(centred_row(area, y_hint, byte_width(hint)), hint, colored(Color::DarkGray)),
    ]
}

impl RegistrationScreen {
    /// A registration of which nothing is done.
    pub fn new() -> (r: Self)
        ensures
            r.active_step == 0,
            r.spinner_tick == 0,
    {
        RegistrationScreen { active_step: 0, spinner_tick: 0 }
    }

    /// Makes `step` the active one, unless a later one is active already: a registration never
    /// falls back.
    pub fn advance(&mut self, step: usize)
        ensures
            final(self).active_step >= old(self).active_step,
            final(self).active_step == if step > old(self).active_step {
                step
            } else {
                old(self).active_step
            },
            final(self).spinner_tick == old(self).spinner_tick,
    {
        if step > self.active_step {
            self.active_step = step;
        }
    }

    /// Turns the spinner on by one frame.
    pub fn tick(&mut self)
        ensures
            final(self).active_step == old(self).active_step,
            final(self).spinner_tick == (old(self).spinner_tick + 1) % 256,
    {
        self.spinner_tick = if self.spinner_tick == 255 {
            0
        } else {
            self.spinner_tick + 1
        };
    }

    /// The row of the `i`th step.
    fn step_row(
        &self,
        area: Area,
        y: u16,
        x: u16,
        width: u16,
        labels: &Vec<&'static str>,
        i: usize,
    ) -> (r: Draw)
        requires
            labels@ == step_labels(),
            i < STEP_COUNT,
            width == step_width(),
            x == plus(area.x, gap(area.width, step_width()) as int),
        ensures
            r@ == step_op(*self, area, y, i as int),
    {
        let frames = spinner();
        let frame: &'static str = frames[self.spinner_tick as usize % 8];
        let (mark, mark_color, label_color) = if i < self.active_step {
            ("[ ✓ ]".to_string(), Color::Green, Color::DarkGray)
        } else if i == self.active_step {
            (cat3("[", frame, "]"), Color::Cyan, Color::White)
        } else {
            ("[   ]".to_string(), Color::DarkGray, Color::DarkGray)
        };
        let first = span_of(cat2(mark.as_str(), " "), bold(mark_color));
        let content = line(first).with(span(labels[i], colored(label_color)));
        assert(content@ == seq![
            styled(mark@ + " "@, bold(mark_color)),
            styled(labels@[i as int]@, colored(label_color)),
        ]);
        let place = Area {
            x,
            y: moved(y, i as u16),
            width: least_of(width, reduced(area.width, reduced(x, area.x))),
            height: 1,
        };
        text(place, just_line(content), plain())
    }

    /// Draws the screen.
    pub fn render(&self, area: Area) -> (r: Vec<Draw>)
        ensures
            drawn(r@) == registration_drawing(*self, area),
    {
        let mut ops: Vec<Draw> = Vec::new();
        let mut y: u16 = moved(area.y, gap_before(area.height, 11));
        let title = "INITIALIZING IDENTITY";
        put(&mut ops, row(centred(area, y, chars_wide(title)), title, bold(Color::Cyan)));
        y = moved(y, 2);
        let labels = steps();
        let mut widest: u16 = 0;
        let mut k: usize = 0;
        while k < labels.len()
            invariant
                k <= labels@.len(),
                labels@ == step_labels(),
                widest == widest_label(labels@, k as nat),
            decreases labels@.len() - k,
        {
            let w: u16 = chars_wide(labels[k]);
            if w > widest {
                widest = w;
            }
            k = k + 1;
        }
        let width: u16 = moved(widest, 7);
        let x: u16 = moved(area.x, gap_before(area.width, width));
        let ghost head = drawn(ops@);
        let mut i: usize = 0;
        while i < labels.len()
            invariant
                i <= labels@.len(),
                labels@ == step_labels(),
                labels@.len() == STEP_COUNT,
                width == step_width(),
                x == plus(area.x, gap(area.width, step_width()) as int),
                drawn(ops@) == head + Seq::new(i as nat, |j: int| step_op(*self, area, y, j)),
            decreases labels@.len() - i,
        {
            put(&mut ops, self.step_row(area, y, x, width, &labels, i));
            i = i + 1;
            assert(drawn(ops@) == head + Seq::new(i as nat, |j: int| step_op(*self, area, y, j)));
        }
        y = moved(moved(y, 7), 1);
        let hint = "Ctrl+C to abort";
        put(&mut ops, row(centred(area, y, bytes_wide(hint)), hint, colored(Color::DarkGray)));
        assert(drawn(ops@) == registration_drawing(*self, area));
        ops
    }
}

} // verus!
