//! The list of contacts.

use vstd::prelude::*;

use crate::draw::{
    add_item, add_line, bold, colored, drawn, frame, framed, items_shown, line, plain, put, shown,
    span, span_of, styled, Area, Color, Draw, DrawView, Line, SpanView, Style,
};
use crate::screens::chat_view::{border_color, focus_color};
use crate::text::{cat2, cat3, decimal, decimal_text, from_chars, to_chars};

verus! {

/// A contact in the list.
#[derive(Debug)]
pub struct Contact {
    pub id: String,
    pub display_name: String,
    pub unread: usize,
    pub last_message: Option<String>,
}

/// The list of contacts, one of which may be selected.
#[derive(Debug)]
pub struct ChatListPane {
    pub contacts: Vec<Contact>,
    pub selected: Option<usize>,
    pub focused: bool,
}

/// The longest preview of a message.
pub const PREVIEW_LIMIT: usize = 18;

/// The beginning of a message, with an ellipsis where it was cut.
pub open spec fn preview_of(t: Seq<char>) -> Seq<char> {
    if t.len() > PREVIEW_LIMIT {
        t.take(PREVIEW_LIMIT as int) + "…"@
    } else {
        t
    }
}

/// Bold text in whatever colour there is.
#[verifier::allow_in_spec]
pub fn strong() -> Style
    returns
        (Style { fg: None, bg: None, bold: true, dim: false }),
{
    Style { fg: None, bg: None, bold: true, dim: false }
}

/// The two rows of a contact: its name with the number of unread messages, and the beginning of
/// its last message.
pub open spec fn contact_lines(c: Contact) -> Seq<Seq<SpanView>> {
    seq![
        seq![
            styled(c.display_name@, strong()),
            if c.unread > 0 {
                styled(" ["@ + decimal_text(c.unread as nat) + "]"@, bold(Color::Yellow))
            } else {
                styled(""@, plain())
            },
        ],
        seq![
            match c.last_message {
                Some(last) => styled("\n  "@ + preview_of(last@), colored(Color::DarkGray)),
                None => styled(""@, plain()),
            },
        ],
    ]
}

/// What the list of contacts shows.
pub open spec fn chat_list_drawing(p: ChatListPane, area: Area) -> Seq<DrawView> {
    seq![
        DrawView::List {
            area,
            frame: Some(framed(" Contacts "@, false, colored(focus_color(p.focused)))),
            items: p.contacts@.map_values(|c: Contact| contact_lines(c)),
            highlight: Style {
                fg: Some(Color::Black),
                bg: Some(Color::Cyan),
                bold: true,
                dim: false,
            },
            symbol: "▶ "@,
            selected: p.selected,
            offset: 0,
        },
    ]
}

/// The beginning of a message.
fn preview(s: &str) -> (r: String)
    ensures
        r@ == preview_of(s@),
{
    let cs = to_chars(s);
    if cs.len() > PREVIEW_LIMIT {
        let head = from_chars(&cs, 0, PREVIEW_LIMIT);
        assert(head@ == s@.take(PREVIEW_LIMIT as int));
        cat2(head.as_str(), "…")
    } else {
        s.to_string()
    }
}

/// The two rows of a contact.
fn contact_rows(c: &Contact) -> (r: Vec<Line>)
    ensures
        shown(r@) == contact_lines(*c),
{
    let badge = if c.unread > 0 {
        span_of(cat3(" [", decimal(c.unread as u64).as_str(), "]"), bold(Color::Yellow))
    } else {
        span("", plain())
    };
    let last = match &c.last_message {
        Some(t) => span_of(cat2("\n  ", preview(t.as_str()).as_str()), colored(Color::DarkGray)),
        None => span("", plain()),
    };
    let mut rows: Vec<Line> = Vec::new();
    add_line(&mut rows, line(span(c.display_name.as_str(), strong())).with(badge));
    add_line(&mut rows, line(last));
    assert(shown(rows@) == contact_lines(*c)) by {
        assert(shown(rows@)[0] == contact_lines(*c)[0]);
        assert(shown(rows@)[1] == contact_lines(*c)[1]);
    }
    rows
}

/// Whether the contact at `index` was taken out of a list. The contact that comes to stand there is
/// selected then, or the last one, or none where the list is empty. Beyond the end of the list
/// nothing changes.
pub open spec fn removed_at(before: ChatListPane, index: usize, after: ChatListPane) -> bool {
    if index >= before.contacts@.len() {
        after == before
    } else {
        &&& after.contacts@ == before.contacts@.remove(index as int)
        &&& after.focused == before.focused
        &&& after.selected == if before.contacts@.len() == 1 {
            None
        } else if index < before.contacts@.len() - 1 {
            Some(index)
        } else {
            Some((index - 1) as usize)
        }
    }
}

impl ChatListPane {
    /// What is selected is in the list.
    pub open spec fn wf(self) -> bool {
        self.selected is Some ==> self.selected->0 < self.contacts@.len()
    }

    /// The selected contact.
    pub open spec fn chosen(self) -> Option<Contact> {
        match self.selected {
            Some(i) => if i < self.contacts@.len() {
                Some(self.contacts@[i as int])
            } else {
                None
            },
            None => None,
        }
    }

    /// What is selected after going down: the next contact, if there is one.
    pub open spec fn after_next(self) -> Option<usize> {
        match self.selected {
            Some(i) => Some(
                if i + 1 < self.contacts@.len() {
                    (i + 1) as usize
                } else {
                    i
                },
            ),
            None => None,
        }
    }

    /// What is selected after going up: the contact before, if there is one.
    pub open spec fn after_prev(self) -> Option<usize> {
        match self.selected {
            Some(i) => Some(
                if i > 0 {
                    (i - 1) as usize
                } else {
                    0
                },
            ),
            None => None,
        }
    }

    /// An empty list that has the focus.
    pub fn new() -> (r: Self)
        ensures
            r.wf(),
            r.contacts@.len() == 0,
            r.selected is None,
            r.focused,
    {
        ChatListPane { contacts: Vec::new(), selected: None, focused: true }
    }

    /// Replaces the whole list and selects its first contact.
    pub fn set_contacts(&mut self, contacts: Vec<Contact>)
        ensures
            final(self).wf(),
            final(self).contacts == contacts,
            final(self).selected == if contacts@.len() > 0 {
                Some(0usize)
            } else {
                None
            },
            final(self).focused == old(self).focused,
    {
        self.selected = if contacts.len() > 0 {
            Some(0)
        } else {
            None
        };
        self.contacts = contacts;
    }

    /// Adds a contact at the end; if none was selected, the first one is then.
    pub fn add_contact(&mut self, contact: Contact)
        requires
            old(self).wf(),
        ensures
            final(self).wf(),
            final(self).contacts@ == old(self).contacts@.push(contact),
            final(self).selected == if old(self).selected is None {
                Some(0usize)
            } else {
                old(self).selected
            },
            final(self).focused == old(self).focused,
    {
        self.contacts.push(contact);
        if self.selected.is_none() {
            self.selected = Some(0);
        }
    }

    /// Selects the next contact, if there is one.
    pub fn next(&mut self)
        requires
            old(self).wf(),
        ensures
            final(self).wf(),
            *final(self) == (ChatListPane { selected: final(self).selected, ..*old(self) }),
            final(self).selected == old(self).after_next(),
    {
        if let Some(i) = self.selected {
            let len: usize = self.contacts.len();
            if i + 1 < len {
                self.selected = Some(i + 1);
            }
        }
    }

    /// Selects the contact before, if there is one.
    pub fn prev(&mut self)
        requires
            old(self).wf(),
        ensures
            final(self).wf(),
            *final(self) == (ChatListPane { selected: final(self).selected, ..*old(self) }),
            final(self).selected == old(self).after_prev(),
    {
        if let Some(i) = self.selected {
            if i > 0 {
                self.selected = Some(i - 1);
            }
        }
    }

    /// The selected contact.
    pub fn selected_contact(&self) -> (r: Option<&Contact>)
        ensures
            r == match self.chosen() {
                Some(c) => Some(&c),
                None => None,
            },
    {
        match self.selected {
            Some(i) => if i < self.contacts.len() {
                Some(&self.contacts[i])
            } else {
                None
            },
            None => None,
        }
    }

    /// Takes the contact at `index` out of the list, if there is one. The contact that comes to
    /// stand there is selected then, or the last one, or none where the list is empty.
    pub fn remove_at(&mut self, index: usize)
        requires
            old(self).wf(),
        ensures
            final(self).wf(),
            removed_at(*old(self), index, *final(self)),
    {
        if index >= self.contacts.len() {
            return;
        }
        let _ = self.contacts.remove(index);
        let len: usize = self.contacts.len();
        self.selected = if len == 0 {
            None
        } else if index < len {
            Some(index)
        } else {
            Some(len - 1)
        };
    }

    /// Draws the list.
    pub fn render(&self, area: Area) -> (r: Vec<Draw>)
        ensures
            drawn(r@) == chat_list_drawing(*self, area),
    {
        let mut items: Vec<Vec<Line>> = Vec::new();
        let mut i: usize = 0;
        while i < self.contacts.len()
            invariant
                i <= self.contacts@.len(),
                items_shown(items@) == self.contacts@.take(i as int).map_values(
                    |c: Contact| contact_lines(c),
                ),
            decreases self.contacts@.len() - i,
        {
            add_item(&mut items, contact_rows(&self.contacts[i]));
            i = i + 1;
            assert(items_shown(items@) == self.contacts@.take(i as int).map_values(
                |c: Contact| contact_lines(c),
            ));
        }
        assert(self.contacts@.take(i as int) == self.contacts@);
        let mut ops: Vec<Draw> = Vec::new();
        put(
            &mut ops,
            Draw::List {
                area,
                frame: Some(frame(" Contacts ", false, colored(border_color(self.focused)))),
                items,
                highlight: Style {
                    fg: Some(Color::Black),
                    bg: Some(Color::Cyan),
                    bold: true,
                    dim: false,
                },
                symbol: "▶ ".to_string(),
                selected: self.selected,
                offset: 0,
            },
        );
        assert(drawn(ops@) == chat_list_drawing(*self, area));
        ops
    }
}

} // verus!
