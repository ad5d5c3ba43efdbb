//! The open conversation: its messages and the box to write in.

use vstd::prelude::*;

use crate::draw::{
    add_line, bold, boxed, boxed_op, colored, drawn, frame, framed, line, plain, put, shown, span,
    span_of, styled, Area, Color, Draw, DrawView, Line, SpanView,
};
use crate::layout::{inner_area, inside_border, is_split, split, Share};
use crate::text::{cat2, cat3, decimal, decimal_text, without_last};

verus! {

/// Which way a message went.
#[derive(Debug, Clone, Copy, PartialEq, Eq, Structural)]
pub enum MessageKind {
    Sent,
    Received,
}

/// A message of the open conversation.
#[derive(Debug)]
pub struct ChatMessage {
    pub id: String,
    pub kind: MessageKind,
    pub text: String,
    /// Hours and minutes.
    pub time: String,
}

/// The open conversation.
#[derive(Debug)]
pub struct ChatViewPane {
    pub contact_name: String,
    pub messages: Vec<ChatMessage>,
    /// What has been written and not sent yet.
    pub compose: String,
    pub focused: bool,
    pub compose_focused: bool,
    /// How many messages are skipped at the bottom; with 0 the latest is shown.
    pub scroll_offset: usize,
}

/// A way to scroll.
#[derive(Debug, Clone, Copy, PartialEq, Eq, Structural)]
pub enum Scroll {
    /// That many messages up, to older ones.
    Up(usize),
    /// That many messages down, to newer ones.
    Down(usize),
    /// To the oldest message.
    Top,
    /// To the latest message.
    Bottom,
}

/// Whether a message has the given parts.
pub open spec fn is_message(
    m: ChatMessage,
    id: Seq<char>,
    kind: MessageKind,
    text: Seq<char>,
    time: Seq<char>,
) -> bool {
    m.id@ == id && m.kind == kind && m.text@ == text && m.time@ == time
}

/// The messages that fit on `height` rows when `offset` of `total` are skipped at the bottom: the
/// index of the first and the index after the last.
pub open spec fn window(total: nat, offset: nat, height: nat) -> (nat, nat) {
    let end = if total > offset {
        (total - offset) as nat
    } else {
        0
    };
    let start = if end > height {
        (end - height) as nat
    } else {
        0
    };
    (start, end)
}

/// The offset `n` messages further up, at most `max`.
pub open spec fn offset_up(offset: int, n: int, max: int) -> int {
    if offset + n < max {
        offset + n
    } else {
        max
    }
}

/// The offset `n` messages further down, at least 0.
pub open spec fn offset_down(offset: int, n: int) -> int {
    if offset > n {
        offset - n
    } else {
        0
    }
}

/// The offset after a message was added: 0 stays 0, so that the message is seen, and any other
/// grows by one, so that what is shown stays.
pub open spec fn offset_after_new(offset: int) -> int {
    if offset == 0 {
        0
    } else {
        offset + 1
    }
}

/// The row of a message: one that was sent is indented and followed by its time, one that was
/// received comes after its time.
pub open spec fn message_line(m: ChatMessage) -> Seq<SpanView> {
    let time = styled("["@ + m.time@ + "] "@, colored(Color::DarkGray));
    match m.kind {
        MessageKind::Sent => seq![
            styled("  "@, plain()),
            styled(m.text@, bold(Color::White)),
            styled("  "@, plain()),
            time,
        ],
        MessageKind::Received => seq![time, styled(m.text@, colored(Color::Cyan))],
    }
}

/// The rows that are shown on `height` rows: the messages of the window, and below them a note
/// where newer messages are skipped.
pub open spec fn message_lines(p: ChatViewPane, height: nat) -> Seq<Seq<SpanView>> {
    let (start, end) = window(p.messages@.len(), p.scroll_offset as nat, height);
    let lines = Seq::new((end - start) as nat, |i: int| message_line(p.messages@[start + i]));
    if p.scroll_offset > 0 {
        lines.push(
            seq![
                styled(
                    "  ↑ "@ + decimal_text(p.scroll_offset as nat)
                        + " older  PgUp/PgDn  End=latest"@,
                    colored(Color::Yellow),
                ),
            ],
        )
    } else {
        lines
    }
}

/// The colour of the border of something that has the focus or not.
pub open spec fn focus_color(focused: bool) -> Color {
    if focused {
        Color::Cyan
    } else {
        Color::DarkGray
    }
}

/// What the conversation shows: a border with the name of the contact, the messages in the upper
/// part of what is inside it and the box to write in in the lower part.
pub open spec fn chat_view_drawing(p: ChatViewPane, area: Area, upper: Area, lower: Area) -> Seq<
    DrawView,
> {
    seq![
        DrawView::Border {
            area,
            frame: framed(
                " "@ + p.contact_name@ + " "@,
                true,
                colored(focus_color(p.focused || p.compose_focused)),
            ),
        },
        DrawView::Text {
            area: upper,
            frame: None,
            lines: message_lines(p, upper.height as nat),
            style: plain(),
            wrap: true,
            centred: false,
        },
        boxed_op(
            lower,
            framed(" Message "@, true, colored(focus_color(p.compose_focused))),
            p.compose@ + "_"@,
            colored(Color::White),
        ),
    ]
}

/// The colour of the border of something that has the focus or not.
pub fn border_color(focused: bool) -> (r: Color)
    ensures
        r == focus_color(focused),
{
    if focused {
        Color::Cyan
    } else {
        Color::DarkGray
    }
}

/// The row of a message.
fn message_row(m: &ChatMessage) -> (r: Line)
    ensures
        r@ == message_line(*m),
{
    let time = span_of(cat3("[", m.time.as_str(), "] "), colored(Color::DarkGray));
    let ghost t = time@;
    let r = match m.kind {
        MessageKind::Sent => line(span("  ", plain())).with(
            span(m.text.as_str(), bold(Color::White)),
        ).with(span("  ", plain())).with(time),
        MessageKind::Received => line(time).with(span(m.text.as_str(), colored(Color::Cyan))),
    };
    assert(r@ == message_line(*m));
    r
}

/// How the inside of the conversation is divided: the messages, and three rows for the box to write
/// in.
pub open spec fn conversation_shares() -> Seq<Share> {
    seq![Share::Min(1), Share::Length(3)]
}

impl ChatViewPane {
    /// Whether nothing but the three example messages is shown, and nothing is written.
    pub open spec fn is_new(self, contact_name: Seq<char>) -> bool {
        &&& self.contact_name@ == contact_name
        &&& self.messages@.len() == 3
        &&& is_message(self.messages@[0], "1"@, MessageKind::Received, "Привет!"@, "11:42"@)
        &&& is_message(self.messages@[1], "2"@, MessageKind::Received, "Как дела?"@, "11:43"@)
        &&& is_message(self.messages@[2], "3"@, MessageKind::Sent, "Отлично!"@, "11:44"@)
        &&& self.compose@ == ""@
        &&& self.scroll_offset == 0
    }

    /// A conversation with a greeting in it.
    pub fn new(contact_name: String) -> (r: Self)
        ensures
            r.contact_name == contact_name,
            r.is_new(contact_name@),
            !r.focused,
            !r.compose_focused,
    {
        let mut messages: Vec<ChatMessage> = Vec::new();
        messages.push(
            ChatMessage {
                id: "1".to_string(),
                kind: MessageKind::Received,
                text: "Привет!".to_string(),
                time: "11:42".to_string(),
            },
        );
        messages.push(
            ChatMessage {
                id: "2".to_string(),
                kind: MessageKind::Received,
                text: "Как дела?".to_string(),
                time: "11:43".to_string(),
            },
        );
        messages.push(
            ChatMessage {
                id: "3".to_string(),
                kind: MessageKind::Sent,
                text: "Отлично!".to_string(),
                time: "11:44".to_string(),
            },
        );
        ChatViewPane {
            contact_name,
            messages,
            compose: "".to_string(),
            focused: false,
            compose_focused: false,
            scroll_offset: 0,
        }
    }

    /// Writes a character.
    pub fn push_char(&mut self, c: char)
        ensures
            *final(self) == (ChatViewPane { compose: final(self).compose, ..*old(self) }),
            final(self).compose@ == old(self).compose@.push(c),
    {
        self.compose.push(c);
    }

    /// Takes the last character away.
    pub fn pop_char(&mut self)
        ensures
            *final(self) == (ChatViewPane { compose: final(self).compose, ..*old(self) }),
            final(self).compose@ == without_last(old(self).compose@),
    {
        let _ = self.compose.pop();
    }

    /// Hands out what was written and empties the box.
    pub fn take_compose(&mut self) -> (r: String)
        ensures
            r == old(self).compose,
            *final(self) == (ChatViewPane { compose: final(self).compose, ..*old(self) }),
            final(self).compose@ == ""@,
    {
        let mut taken = "".to_string();
        std::mem::swap(&mut taken, &mut self.compose);
        taken
    }

    /// The largest offset: with it the oldest message is the last one shown.
    pub open spec fn max_offset(self) -> int {
        if self.messages@.len() > 0 {
            self.messages@.len() - 1
        } else {
            0
        }
    }

    /// Scrolls up by `n` messages, to older ones.
    pub fn scroll_up(&mut self, n: usize)
        ensures
            *final(self) == (ChatViewPane {
                scroll_offset: final(self).scroll_offset,
                ..*old(self)
            }),
            final(self).scroll_offset == offset_up(
                old(self).scroll_offset as int,
                n as int,
                old(self).max_offset(),
            ),
    {
        let len: usize = self.messages.len();
        let max: usize = if len > 0 {
            len - 1
        } else {
            0
        };
        self.scroll_offset = if self.scroll_offset < max && n < max - self.scroll_offset {
            self.scroll_offset + n
        } else {
            max
        };
    }

    /// Scrolls down by `n` messages, to newer ones.
    pub fn scroll_down(&mut self, n: usize)
        ensures
            *final(self) == (ChatViewPane {
                scroll_offset: final(self).scroll_offset,
                ..*old(self)
            }),
            final(self).scroll_offset == offset_down(old(self).scroll_offset as int, n as int),
    {
        self.scroll_offset = if self.scroll_offset > n {
            self.scroll_offset - n
        } else {
            0
        };
    }

    /// Goes to the oldest message.
    pub fn scroll_to_top(&mut self)
        ensures
            *final(self) == (ChatViewPane {
                scroll_offset: final(self).scroll_offset,
                ..*old(self)
            }),
            final(self).scroll_offset == old(self).max_offset(),
    {
        let len: usize = self.messages.len();
        self.scroll_offset = if len > 0 {
            len - 1
        } else {
            0
        };
    }

    /// Goes to the latest message.
    pub fn scroll_to_bottom(&mut self)
        ensures
            *final(self) == (ChatViewPane { scroll_offset: 0, ..*old(self) }),
    {
        self.scroll_offset = 0;
    }

    /// The conversation scrolled.
    pub open spec fn scrolled(self, s: Scroll) -> ChatViewPane {
        let offset = self.scroll_offset as int;
        ChatViewPane {
            scroll_offset: match s {
                Scroll::Up(n) => offset_up(offset, n as int, self.max_offset()) as usize,
                Scroll::Down(n) => offset_down(offset, n as int) as usize,
                Scroll::Top => self.max_offset() as usize,
                Scroll::Bottom => 0,
            },
            ..self
        }
    }

    /// Scrolls.
    pub fn scroll(&mut self, s: Scroll)
        ensures
            *final(self) == old(self).scrolled(s),
    {
        match s {
            Scroll::Up(n) => self.scroll_up(n),
            Scroll::Down(n) => self.scroll_down(n),
            Scroll::Top => self.scroll_to_top(),
            Scroll::Bottom => self.scroll_to_bottom(),
        }
    }

    /// Called after a message was added: at the bottom the view stays at the bottom, and further
    /// up it stays where it is.
    pub fn on_new_message(&mut self)
        requires
            old(self).scroll_offset < usize::MAX,
        ensures
            *final(self) == (ChatViewPane {
                scroll_offset: final(self).scroll_offset,
                ..*old(self)
            }),
            final(self).scroll_offset == offset_after_new(old(self).scroll_offset as int),
    {
        if self.scroll_offset != 0 {
            self.scroll_offset = self.scroll_offset + 1;
        }
    }

    /// The rows that are shown on `height` rows.
    fn lines(&self, height: usize) -> (r: Vec<Line>)
        ensures
            shown(r@) == message_lines(*self, height as nat),
    {
        let total: usize = self.messages.len();
        let end: usize = if total > self.scroll_offset {
            total - self.scroll_offset
        } else {
            0
        };
        let start: usize = if end > height {
            end - height
        } else {
            0
        };
        let mut lines: Vec<Line> = Vec::new();
        let mut i: usize = start;
        while i < end
            invariant
                start <= i <= end <= self.messages@.len(),
                shown(lines@) == Seq::new(
                    (i - start) as nat,
                    |j: int| message_line(self.messages@[start + j]),
                ),
            decreases end - i,
        {
            add_line(&mut lines, message_row(&self.messages[i]));
            i = i + 1;
            assert(shown(lines@) == Seq::new(
                (i - start) as nat,
                |j: int| message_line(self.messages@[start + j]),
            ));
        }
        if self.scroll_offset > 0 {
            let hint = cat3(
                "  ↑ ",
                decimal(self.scroll_offset as u64).as_str(),
                " older  PgUp/PgDn  End=latest",
            );
            add_line(&mut lines, line(span_of(hint, colored(Color::Yellow))));
        }
        assert(shown(lines@) == message_lines(*self, height as nat));
        lines
    }

    /// Draws the conversation, with the messages in `upper` and the box to write in in `lower`.
    pub fn draw(&self, area: Area, upper: Area, lower: Area) -> (r: Vec<Draw>)
        ensures
            drawn(r@) == chat_view_drawing(*self, area, upper, lower),
    {
        let mut ops: Vec<Draw> = Vec::new();
        let title = cat3(" ", self.contact_name.as_str(), " ");
        let outer = frame(
            title.as_str(),
            true,
            colored(border_color(self.focused || self.compose_focused)),
        );
        put(&mut ops, Draw::Border { area, frame: outer });
        let lines = self.lines(upper.height as usize);
        put(
            &mut ops,
            Draw::Text {
                area: upper,
                frame: None,
                lines,
                style: plain(),
                wrap: true,
                centred: false,
            },
        );
        put(
            &mut ops,
            boxed(
                lower,
                frame(" Message ", true, colored(border_color(self.compose_focused))),
                cat2(self.compose.as_str(), "_"),
                colored(Color::White),
            ),
        );
        assert(drawn(ops@) == chat_view_drawing(*self, area, upper, lower));
        ops
    }

    /// Draws the conversation. Three rows inside the border are asked for to write in, and the
    /// rest for the messages.
    pub fn render(&self, area: Area) -> (r: Vec<Draw>)
        ensures
            exists|parts: Seq<Area>|
                #[trigger] is_split(true, inner_area(area), conversation_shares(), parts)
                    && drawn(r@) == chat_view_drawing(*self, area, parts[0], parts[1]),
    {
        let shares: Vec<Share> = vec![Share::Min(1), Share::Length(3)];
        assert(shares@ == conversation_shares());
        let parts = split(true, inside_border(area), &shares);
        let r = self.draw(area, parts[0], parts[1]);
        assert(is_split(true, inner_area(area), conversation_shares(), parts@));
        assert(drawn(r@) == chat_view_drawing(*self, area, parts@[0], parts@[1]));
        r
    }
}

/// A message that arrives while older ones are read does not move what is shown: the window holds
/// the same messages as before.
pub proof fn reading_is_not_disturbed(
    before: ChatViewPane,
    m: ChatMessage,
    after: ChatViewPane,
    height: nat,
)
    requires
        0 < before.scroll_offset <= before.messages@.len(),
        after.messages@ == before.messages@.push(m),
        after.scroll_offset == offset_after_new(before.scroll_offset as int),
    ensures
        ({
            let w = window(before.messages@.len(), before.scroll_offset as nat, height);
            let v = window(after.messages@.len(), after.scroll_offset as nat, height);
            &&& w == v
            &&& before.messages@.subrange(w.0 as int, w.1 as int) == after.messages@.subrange(
                w.0 as int,
                w.1 as int,
            )
        }),
{
    let w = window(before.messages@.len(), before.scroll_offset as nat, height);
    assert(before.messages@.subrange(w.0 as int, w.1 as int) == after.messages@.subrange(
        w.0 as int,
        w.1 as int,
    ));
}

/// A message that arrives while the latest is shown is shown itself, as the last one.
pub proof fn latest_is_followed(
    before: ChatViewPane,
    m: ChatMessage,
    after: ChatViewPane,
    height: nat,
)
    requires
        before.scroll_offset == 0,
        height > 0,
        after.messages@ == before.messages@.push(m),
        after.scroll_offset == offset_after_new(before.scroll_offset as int),
    ensures
        ({
            let v = window(after.messages@.len(), after.scroll_offset as nat, height);
            v.0 < v.1 && after.messages@[v.1 - 1] == m
        }),
{
}

/// Scrolling down undoes scrolling up, unless the oldest message stopped it.
pub proof fn scroll_down_undoes_scroll_up(offset: int, n: int, max: int)
    requires
        0 <= offset,
        0 <= n,
        offset + n <= max,
    ensures
        offset_down(offset_up(offset, n, max), n) == offset,
{
}

} // verus!
