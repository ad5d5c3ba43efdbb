//! Settings: server and transport, device identity, safety number, key export, logout.

use vstd::prelude::*;

use crate::draw::{
    add_item, bold, colored, drawn, frame, framed, items_shown, just_line, line, plain, put, shown,
    span, span_of, styled, text, text_op, Area, Color, Draw, DrawView, Line, SpanView,
};
use crate::layout::{inner_area, inside_border, is_split, split, Share};
use crate::screens::contact_search::{row_before, row_highlight};
use crate::text::{cat2, contains, occurs_in};

verus! {

/// What the user asked for on the settings screen.
#[derive(Debug, Clone, Copy, PartialEq, Eq, Structural)]
pub enum SettingsAction {
    /// L: log out and clear the session.
    Logout,
    /// S: show the safety number.
    ShowSafetyNumber,
    /// E: export the identity key.
    ExportKeys,
    /// Show the identity as a QR code.
    ShowMyQr,
    /// Esc or B: go back.
    Back,
}

/// A row of the settings.
#[derive(Debug)]
pub struct SettingsItem {
    pub label: String,
    pub value: String,
    pub action: Option<SettingsAction>,
}

/// The settings screen.
#[derive(Debug)]
pub struct SettingsScreen {
    pub server: String,
    pub transport_label: String,
    pub device_id: String,
    pub user_id: String,
    pub pq_active: bool,
    pub selected: Option<usize>,
    /// The row from which on the list was shown last.
    pub offset: usize,
    pub items: Vec<SettingsItem>,
}

/// Whether a row has the given parts.
pub open spec fn is_item(
    i: SettingsItem,
    label: Seq<char>,
    value: Seq<char>,
    action: Option<SettingsAction>,
) -> bool {
    i.label@ == label && i.value@ == value && i.action == action
}

/// The row below the selected one, at most the last, or the first where none was selected.
pub open spec fn next_setting(selected: Option<usize>) -> Option<usize> {
    match selected {
        Some(i) => Some(
            if i < 9 {
                (i + 1) as usize
            } else {
                9
            },
        ),
        None => Some(0usize),
    }
}

/// `t` followed by blanks up to `width` characters.
pub open spec fn padded_right(t: Seq<char>, width: nat) -> Seq<char> {
    if t.len() < width {
        t + Seq::new((width - t.len()) as nat, |i: int| ' ')
    } else {
        t
    }
}

/// The line between what is shown and what can be done.
pub const SEPARATOR: &'static str = "  ─────────────────────────────────────────";

/// A row as it is shown: the separator where there is no label, the label alone where there is
/// something to do, in red where that is to log out, and the label with the value otherwise.
pub open spec fn item_line(i: SettingsItem) -> Seq<SpanView> {
    if i.label@.len() == 0 {
        seq![styled(SEPARATOR@, colored(Color::DarkGray))]
    } else if i.action is Some {
        seq![
            styled(
                "  "@ + i.label@,
                bold(
                    if occurs_in("Logout"@, i.label@) {
                        Color::Red
                    } else {
                        Color::Cyan
                    },
                ),
            ),
        ]
    } else {
        seq![
            styled("  "@ + padded_right(i.label@, 16), colored(Color::DarkGray)),
            styled(i.value@, colored(Color::White)),
        ]
    }
}

/// What the settings screen shows: a border and, in the two parts of what is inside it, the hint
/// and the rows.
pub open spec fn settings_drawing(s: SettingsScreen, area: Area, parts: Seq<Area>) -> Seq<
    DrawView,
> {
    seq![
        DrawView::Border { area, frame: framed(" ◆ Settings "@, true, colored(Color::Cyan)) },
        text_op(
            parts[0],
            seq![
                seq![styled("  ↑↓ navigate  Enter=select  Esc=back"@, colored(Color::DarkGray))],
            ],
            plain(),
        ),
        DrawView::List {
            area: parts[1],
            frame: None,
            items: s.items@.map_values(|i: SettingsItem| seq![item_line(i)]),
            highlight: row_highlight(),
            symbol: "▶ "@,
            selected: s.selected,
            offset: s.offset,
        },
    ]
}

/// A row of the settings.
fn item(label: &str, value: &str, action: Option<SettingsAction>) -> (r: SettingsItem)
    ensures
        is_item(r, label@, value@, action),
{
    SettingsItem { label: label.to_string(), value: value.to_string(), action }
}

/// `s` followed by blanks up to `width` characters.
fn pad_right(s: &str, width: usize) -> (r: String)
    ensures
        r@ == padded_right(s@, width as nat),
{
    let mut r = s.to_string();
    let mut n: usize = s.unicode_len();
    while n < width
        invariant
            n == r@.len(),
            s@.len() <= n,
            n <= width || n == s@.len(),
            r@ == s@ + Seq::new((n - s@.len()) as nat, |i: int| ' '),
        decreases width - n,
    {
        r.push(' ');
        n = n + 1;
        assert(r@ == s@ + Seq::new((n - s@.len()) as nat, |i: int| ' '));
    }
    assert(r@ == padded_right(s@, width as nat));
    r
}

/// A row as it is shown.
fn item_row(i: &SettingsItem) -> (r: Line)
    ensures
        r@ == item_line(*i),
{
    if i.label.as_str().is_empty() {
        line(span(SEPARATOR, colored(Color::DarkGray)))
    } else if i.action.is_some() {
        let color = if contains(i.label.as_str(), "Logout") {
            Color::Red
        } else {
            Color::Cyan
        };
        line(span_of(cat2("  ", i.label.as_str()), bold(color)))
    } else {
        let label = cat2("  ", pad_right(i.label.as_str(), 16).as_str());
        let r = line(span_of(label, colored(Color::DarkGray))).with(
            span(i.value.as_str(), colored(Color::White)),
        );
        assert(r@ == item_line(*i));
        r
    }
}

/// How the inside of the settings is divided: a row for the hint, and the list.
pub open spec fn settings_shares() -> Seq<Share> {
    seq![Share::Length(1), Share::Min(1)]
}

impl SettingsScreen {
    /// The ten rows and which of them is selected.
    pub open spec fn wf(self) -> bool {
        &&& self.items@.len() == 10
        &&& self.selected is Some ==> self.selected->0 < 10
    }

    /// Whether the screen shows these values.
    pub open spec fn shows(
        self,
        server: Seq<char>,
        transport_label: Seq<char>,
        device_id: Seq<char>,
        user_id: Seq<char>,
        pq_active: bool,
    ) -> bool {
        &&& self.server@ == server
        &&& self.transport_label@ == transport_label
        &&& self.device_id@ == device_id
        &&& self.user_id@ == user_id
        &&& self.pq_active == pq_active
        &&& self.items@.len() == 10
        &&& is_item(self.items@[0], "Server"@, server, None)
        &&& is_item(self.items@[1], "Transport"@, transport_label, None)
        &&& is_item(self.items@[2], "Device ID"@, device_id, None)
        &&& is_item(self.items@[3], "User ID"@, user_id, None)
        &&& is_item(
            self.items@[4],
            "Post-quantum"@,
            if pq_active {
                "yes (Kyber-768)"@
            } else {
                "no (classic)"@
            },
            None,
        )
        &&& is_item(self.items@[5], ""@, ""@, None)
        &&& is_item(
            self.items@[6],
            "[S] Safety number"@,
            ""@,
            Some(SettingsAction::ShowSafetyNumber),
        )
        &&& is_item(self.items@[7], "[E] Export keys"@, ""@, Some(SettingsAction::ExportKeys))
        &&& is_item(self.items@[8], "[L] Logout"@, ""@, Some(SettingsAction::Logout))
        &&& is_item(self.items@[9], "[Esc] Back"@, ""@, Some(SettingsAction::Back))
    }

    /// The settings with the given values; the first row with something to do is selected.
    pub fn new(
        server: &str,
        transport_label: &str,
        device_id: &str,
        user_id: &str,
        pq_active: bool,
    ) -> (r: Self)
        ensures
            r.shows(server@, transport_label@, device_id@, user_id@, pq_active),
            r.selected == Some(6usize),
            r.offset == 0,
            r.wf(),
    {
        let pq = if pq_active {
            "yes (Kyber-768)"
        } else {
            "no (classic)"
        };
        let mut items: Vec<SettingsItem> = Vec::new();
        items.push(item("Server", server, None));
        items.push(item("Transport", transport_label, None));
        items.push(item("Device ID", device_id, None));
        items.push(item("User ID", user_id, None));
        items.push(item("Post-quantum", pq, None));
        items.push(item("", "", None));
        items.push(item("[S] Safety number", "", Some(SettingsAction::ShowSafetyNumber)));
        items.push(item("[E] Export keys", "", Some(SettingsAction::ExportKeys)));
        items.push(item("[L] Logout", "", Some(SettingsAction::Logout)));
        items.push(item("[Esc] Back", "", Some(SettingsAction::Back)));
        SettingsScreen {
            server: server.to_string(),
            transport_label: transport_label.to_string(),
            device_id: device_id.to_string(),
            user_id: user_id.to_string(),
            pq_active,
            selected: Some(6),
            offset: 0,
            items,
        }
    }

    /// Selects the next row, at most the last one.
    pub fn next(&mut self)
        requires
            old(self).wf(),
        ensures
            final(self).wf(),
            *final(self) == (SettingsScreen { selected: final(self).selected, ..*old(self) }),
            final(self).selected == next_setting(old(self).selected),
    {
        let i: usize = match self.selected {
            Some(i) => if i < 9 {
                i + 1
            } else {
                9
            },
            None => 0,
        };
        self.selected = Some(i);
    }

    /// Selects the row before, at least the first one.
    pub fn prev(&mut self)
        requires
            old(self).wf(),
        ensures
            final(self).wf(),
            *final(self) == (SettingsScreen { selected: final(self).selected, ..*old(self) }),
            final(self).selected == row_before(old(self).selected),
    {
        let i: usize = match self.selected {
            Some(i) => if i > 0 {
                i - 1
            } else {
                0
            },
            None => 0,
        };
        self.selected = Some(i);
    }

    /// What the selected row does.
    pub open spec fn confirmed(self) -> Option<SettingsAction> {
        match self.selected {
            Some(i) => if i < self.items@.len() {
                self.items@[i as int].action
            } else {
                None
            },
            None => None,
        }
    }

    /// What the selected row does.
    pub fn confirm(&self) -> (r: Option<SettingsAction>)
        ensures
            r == self.confirmed(),
    {
        match self.selected {
            Some(i) => if i < self.items.len() {
                self.items[i].action
            } else {
                None
            },
            None => None,
        }
    }

    /// Shows other values.
    pub fn update(
        &mut self,
        server: &str,
        transport_label: &str,
        device_id: &str,
        user_id: &str,
        pq_active: bool,
    )
        ensures
            final(self).shows(server@, transport_label@, device_id@, user_id@, pq_active),
            final(self).selected == Some(6usize),
            final(self).offset == 0,
            final(self).wf(),
    {
        *self = SettingsScreen::new(server, transport_label, device_id, user_id, pq_active);
    }

    /// Draws the settings with the given parts of what is inside the border.
    pub fn draw(&self, area: Area, parts: &Vec<Area>) -> (r: Vec<Draw>)
        requires
            parts@.len() == 2,
        ensures
            drawn(r@) == settings_drawing(*self, area, parts@),
    {
        let mut ops: Vec<Draw> = Vec::new();
        put(
            &mut ops,
            Draw::Border { area, frame: frame(" ◆ Settings ", true, colored(Color::Cyan)) },
        );
        let hint = span("  ↑↓ navigate  Enter=select  Esc=back", colored(Color::DarkGray));
        put(&mut ops, text(parts[0], just_line(line(hint)), plain()));
        let mut items: Vec<Vec<Line>> = Vec::new();
        let mut i: usize = 0;
        while i < self.items.len()
            invariant
                i <= self.items@.len(),
                items_shown(items@) == self.items@.take(i as int).map_values(
                    |i: SettingsItem| seq![item_line(i)],
                ),
            decreases self.items@.len() - i,
        {
            add_item(&mut items, just_line(item_row(&self.items[i])));
            i = i + 1;
            assert(items_shown(items@) == self.items@.take(i as int).map_values(
                |i: SettingsItem| seq![item_line(i)],
            ));
        }
        assert(self.items@.take(i as int) == self.items@);
        put(
            &mut ops,
            Draw::List {
                area: parts[1],
                frame: None,
                items,
                highlight: row_highlight(),
                symbol: "▶ ".to_string(),
                selected: self.selected,
                offset: self.offset,
            },
        );
        assert(drawn(ops@) == settings_drawing(*self, area, parts@));
        ops
    }

    /// Draws the settings. One row inside the border is asked for for the hint and the rest for the
    /// rows.
    pub fn render(&self, area: Area) -> (r: Vec<Draw>)
        ensures
            exists|parts: Seq<Area>|
                #[trigger] is_split(true, inner_area(area), settings_shares(), parts) && drawn(r@)
                    == settings_drawing(*self, area, parts),
    {
        let shares: Vec<Share> = vec![Share::Length(1), Share::Min(1)];
        assert(shares@ == settings_shares());
        let parts = split(true, inside_border(area), &shares);
        let r = self.draw(area, &parts);
        assert(is_split(true, inner_area(area), settings_shares(), parts@));
        assert(drawn(r@) == settings_drawing(*self, area, parts@));
        r
    }
}

} // verus!
