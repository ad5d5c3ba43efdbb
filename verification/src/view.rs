//! What the client shows: the screen of the moment and what lies over it.

use vstd::prelude::*;

use crate::app::{is_place_of, App, Screen};
use crate::draw::{
    centred_op, centred_text, colored, drawn, gap, gap_before, just_line, least, least_of, line,
    minus, moved, on, over, plain, plus, put, put_all, reduced, span, span_of, styled, text,
    text_op, Area, Color, Draw, DrawView, SpanView, Style,
};
use crate::layout::{inner_area, inside_border, is_split, split, Share};
use crate::screens::chat_list::{chat_list_drawing, Contact};
use crate::screens::chat_view::{chat_view_drawing, conversation_shares};
use crate::screens::connection_status::{status_line, StatusBar};
use crate::screens::contact_search::{search_drawing, search_shares};
use crate::screens::device_link::link_drawing;
use crate::screens::onboarding::onboarding_drawing;
use crate::screens::qr_widget::{qr_drawing, qr_size, qr_symbol, text_in, Correction, QrWidget};
use crate::screens::registration::registration_drawing;
use crate::screens::safety_number::safety_drawing;
use crate::screens::settings::{settings_drawing, settings_shares};
use crate::screens::unlock::unlock_drawing;
use crate::text::cat3;

verus! {

/// The last row but one of the terminal.
pub open spec fn bottom_row(area: Area) -> Area {
    Area { x: 0, y: minus(area.height, 2), width: area.width, height: 1 }
}

/// The last row but one of the terminal.
fn bottom(area: Area) -> (r: Area)
    ensures
        r == bottom_row(area),
{
    Area { x: 0, y: reduced(area.height, 2), width: area.width, height: 1 }
}

/// What is shown while something is under way.
pub open spec fn spinner_op(area: Area, msg: Seq<char>) -> DrawView {
    text_op(
        bottom_row(area),
        seq![seq![styled("  ⠋ "@, colored(Color::Cyan)), styled(msg, colored(Color::White))]],
        plain(),
    )
}

/// What is shown while something is under way.
fn spinner(area: Area, msg: &str) -> (r: Draw)
    ensures
        r@ == spinner_op(area, msg@),
{
    let l = line(span("  ⠋ ", colored(Color::Cyan))).with(span(msg, colored(Color::White)));
    assert(l@ == seq![styled("  ⠋ "@, colored(Color::Cyan)), styled(msg@, colored(Color::White))]);
    text(bottom(area), just_line(l), plain())
}

/// What is shown when an authentication failed.
pub open spec fn error_op(area: Area, msg: Seq<char>) -> DrawView {
    text_op(
        bottom_row(area),
        seq![seq![styled("  ✗ "@ + msg + "  (any key to retry)"@, colored(Color::Red))]],
        plain(),
    )
}

/// What is shown when an authentication failed.
fn error_overlay(area: Area, msg: &str) -> (r: Draw)
    ensures
        r@ == error_op(area, msg@),
{
    let note = cat3("  ✗ ", msg, "  (any key to retry)");
    text(bottom(area), just_line(line(span_of(note, colored(Color::Red)))), plain())
}

/// The name of a contact in a list, or its ID where it is not in it.
pub open spec fn name_in(contacts: Seq<Contact>, id: Seq<char>, place: Option<usize>) -> Seq<char> {
    match place {
        Some(i) => contacts[i as int].display_name@,
        None => id,
    }
}

/// What is shown while the user is asked whether a contact is to be deleted.
pub open spec fn confirm_op(area: Area, name: Seq<char>) -> DrawView {
    text_op(
        bottom_row(area),
        seq![
            seq![
                styled("  ⚠ Remove node "@, colored(Color::Yellow)),
                styled(name, colored(Color::White)),
                styled(
                    " and all messages? [y] confirm  [any] cancel"@,
                    colored(Color::Yellow),
                ),
            ],
        ],
        over(Color::Black),
    )
}

/// What is shown while the user is asked whether a contact is to be deleted.
fn confirm_bar(area: Area, name: &str) -> (r: Draw)
    ensures
        r@ == confirm_op(area, name@),
{
    let l = line(span("  ⚠ Remove node ", colored(Color::Yellow))).with(
        span(name, colored(Color::White)),
    ).with(span(" and all messages? [y] confirm  [any] cancel", colored(Color::Yellow)));
    assert(l@ == seq![
        styled("  ⚠ Remove node "@, colored(Color::Yellow)),
        styled(name@, colored(Color::White)),
        styled(" and all messages? [y] confirm  [any] cancel"@, colored(Color::Yellow)),
    ]);
    text(bottom(area), just_line(l), over(Color::Black))
}

/// The keys that are named in the title of the main screen.
pub const MAIN_KEYS: &'static str =
    "Tab=switch  ↑↓/jk=nav  i=compose  s=settings  n=add node  x=remove node  q=quit";

/// The title of the main screen.
pub open spec fn title_line() -> Seq<SpanView> {
    seq![
        styled(" ◆ Construct "@, colored(Color::Cyan)),
        styled("TUI"@, colored(Color::White)),
        styled("  "@, plain()),
        styled(MAIN_KEYS@, colored(Color::DarkGray)),
    ]
}

/// The places of the parts of the main screen.
#[derive(Debug, Clone, Copy, PartialEq, Eq, Structural)]
pub struct MainPlaces {
    pub title: Area,
    pub contacts: Area,
    pub conversation: Area,
    /// Inside the conversation: the messages.
    pub messages: Area,
    /// Inside the conversation: the box to write in.
    pub compose: Area,
    pub status: Area,
}

/// How the terminal is divided on the main screen: a row for the title, the body and a row for the
/// status bar.
pub open spec fn main_rows() -> Seq<Share> {
    seq![Share::Length(1), Share::Min(1), Share::Length(1)]
}

/// How the body is divided on the main screen: a quarter for the contacts, the rest for the
/// conversation.
pub open spec fn main_columns() -> Seq<Share> {
    seq![Share::Percentage(25), Share::Percentage(75)]
}

/// How the terminal is divided for the own QR code: the code, and a row for the hint.
pub open spec fn identity_shares() -> Seq<Share> {
    seq![Share::Min(1), Share::Length(1)]
}

/// The places on the main screen, by the division of the terminal into rows, of the body into columns
/// and of the inside of the conversation.
pub open spec fn main_places(root: Seq<Area>, body: Seq<Area>, chat: Seq<Area>) -> MainPlaces {
    MainPlaces {
        title: root[0],
        contacts: body[0],
        conversation: body[1],
        messages: chat[0],
        compose: chat[1],
        status: root[2],
    }
}

/// Whether the main screen may have these places in a terminal.
pub open spec fn may_be_placed(area: Area, at: MainPlaces) -> bool {
    exists|root: Seq<Area>, body: Seq<Area>, chat: Seq<Area>|
        #[trigger] is_split(true, area, main_rows(), root) && #[trigger] is_split(
            false,
            root[1],
            main_columns(),
            body,
        ) && #[trigger] is_split(true, inner_area(body[1]), conversation_shares(), chat) && at
            == main_places(root, body, chat)
}

/// What the main screen shows: the title, the contacts, the conversation and the status bar.
pub open spec fn main_drawing(app: App, at: MainPlaces, now_ms: u64) -> Seq<DrawView> {
    seq![text_op(at.title, seq![title_line()], plain())] + chat_list_drawing(
        app.chat_list,
        at.contacts,
    ) + chat_view_drawing(app.chat_view, at.conversation, at.messages, at.compose) + seq![
        text_op(
            at.status,
            seq![status_line(app.connection, app.status@, 0, app.pq_active, now_ms)],
            plain(),
        ),
    ]
}

/// The style of the second part of the hint below a QR code.
#[verifier::allow_in_spec]
pub fn faint() -> Style
    returns
        (Style { fg: Some(Color::DarkGray), bg: None, bold: false, dim: true }),
{
    Style { fg: Some(Color::DarkGray), bg: None, bold: false, dim: true }
}

/// The hint below the own QR code.
pub open spec fn qr_hint_op(area: Area) -> DrawView {
    DrawView::Text {
        area,
        frame: None,
        lines: seq![
            seq![
                styled(
                    "  Scan with Construct iOS to add as node  "@,
                    colored(Color::DarkGray),
                ),
                styled("[ any key to return ]"@, faint()),
            ],
        ],
        style: plain(),
        wrap: false,
        centred: true,
    }
}

/// The place of something of a size in the middle of an area.
pub open spec fn middle_of(area: Area, w: u16, h: u16) -> Area {
    Area {
        x: plus(area.x, gap(area.width, w) as int),
        y: plus(area.y, gap(area.height, h) as int),
        width: least(w, area.width),
        height: least(h, area.height),
    }
}

/// What the own QR code shows: the code with the user ID below it in `upper` and a hint in `lower`,
/// or a note where there is nothing to encode yet or it does not fit into a code.
pub open spec fn identity_drawing(
    area: Area,
    upper: Area,
    lower: Area,
    payload: Option<Seq<char>>,
    user_id: Seq<char>,
) -> Seq<DrawView> {
    let ground = seq![
        DrawView::Clear { area },
        DrawView::Fill { area, style: over(Color::Black) },
    ];
    match payload {
        None => ground.push(centred_op(area, "Generating invite…"@, colored(Color::DarkGray))),
        Some(data) => {
            let symbol = qr_symbol(data, Correction::Medium);
            ground.push(qr_hint_op(lower)) + match qr_size(symbol) {
                Some((w, h)) => qr_drawing(
                    symbol,
                    Some(user_id),
                    Color::Black,
                    Color::White,
                    middle_of(upper, w, h),
                ),
                None => seq![
                    centred_op(
                        upper,
                        "[ QR unavailable — payload too large ]"@,
                        colored(Color::DarkGray),
                    ),
                ],
            }
        },
    }
}

/// What the client shows on the main screen.
pub open spec fn shows_main(app: App, area: Area, now_ms: u64, ops: Seq<DrawView>) -> bool {
    exists|at: MainPlaces| #[trigger]
        may_be_placed(area, at) && match app.delete_confirm {
            Some(id) => exists|place: Option<usize>|
                is_place_of(app.chat_list.contacts@, id@, place) && ops == main_drawing(
                    app,
                    at,
                    now_ms,
                ).push(
                    confirm_op(
                        area,
                        #[trigger] name_in(app.chat_list.contacts@, id@, place),
                    ),
                ),
            None => ops == main_drawing(app, at, now_ms),
        }
}

/// What the client shows. `invite` is what the own QR code encodes.
pub open spec fn shows(
    app: App,
    area: Area,
    now_ms: u64,
    invite: Option<Seq<char>>,
    ops: Seq<DrawView>,
) -> bool {
    match app.screen {
        Screen::Main => shows_main(app, area, now_ms, ops),
        Screen::Settings => exists|parts: Seq<Area>|
            #[trigger] is_split(true, inner_area(area), settings_shares(), parts) && ops
                == settings_drawing(app.settings_screen, area, parts),
        Screen::ContactSearch => exists|parts: Seq<Area>|
            #[trigger] is_split(true, inner_area(area), search_shares(), parts) && ops
                == search_drawing(app.contact_search, area, parts),
        Screen::SafetyNumber => match app.safety_number {
            Some(sn) => ops == safety_drawing(sn, area),
            None => exists|parts: Seq<Area>|
                #[trigger] is_split(true, inner_area(area), settings_shares(), parts) && ops
                    == settings_drawing(app.settings_screen, area, parts),
        },
        Screen::IdentityQr => exists|parts: Seq<Area>|
            #[trigger] is_split(true, area, identity_shares(), parts) && ops == identity_drawing(
                area,
                parts[0],
                parts[1],
                invite,
                app.user_id@,
            ),
        Screen::DeviceLink => ops == link_drawing(app.device_link, area),
        Screen::Registering => ops == registration_drawing(app.registration, area),
        Screen::Unlock | Screen::SetPassphrase => ops == unlock_drawing(app.unlock_screen, area),
        Screen::Startup => ops == onboarding_drawing(app.onboarding, area).push(
            spinner_op(area, "Restoring session…"@),
        ),
        Screen::Connecting(msg) => ops == onboarding_drawing(app.onboarding, area).push(
            spinner_op(area, msg@),
        ),
        Screen::AuthError(msg) => ops == onboarding_drawing(app.onboarding, area).push(
            error_op(area, msg@),
        ),
        Screen::Onboarding => ops == onboarding_drawing(app.onboarding, area),
    }
}

impl App {
    /// Draws the main screen in the given places.
    pub fn draw_main(&self, at: MainPlaces, now_ms: u64) -> (r: Vec<Draw>)
        ensures
            drawn(r@) == main_drawing(*self, at, now_ms),
    {
        let title = line(span(" ◆ Construct ", colored(Color::Cyan))).with(
            span("TUI", colored(Color::White)),
        ).with(span("  ", plain())).with(span(MAIN_KEYS, colored(Color::DarkGray)));
        assert(title@ == title_line());
        let mut ops: Vec<Draw> = Vec::new();
        put(&mut ops, text(at.title, just_line(title), plain()));
        put_all(&mut ops, self.chat_list.render(at.contacts));
        put_all(&mut ops, self.chat_view.draw(at.conversation, at.messages, at.compose));
        let bar = StatusBar {
            connection: &self.connection,
            status_text: self.status.as_str(),
            unread_count: 0,
            pq_active: self.pq_active,
        };
        put_all(&mut ops, bar.render(at.status, now_ms));
        assert(drawn(ops@) == main_drawing(*self, at, now_ms));
        ops
    }

    /// Draws the main screen: one row each for the title and the status bar, a quarter of what is
    /// left for the contacts and the rest for the conversation.
    fn render_main(&self, area: Area, now_ms: u64) -> (r: Vec<Draw>)
        ensures
            exists|at: MainPlaces| #[trigger]
                may_be_placed(area, at) && drawn(r@) == main_drawing(*self, at, now_ms),
    {
        let rows: Vec<Share> = vec![Share::Length(1), Share::Min(1), Share::Length(1)];
        assert(rows@ == main_rows());
        let root = split(true, area, &rows);
        let columns: Vec<Share> = vec![Share::Percentage(25), Share::Percentage(75)];
        assert(columns@ == main_columns());
        let body = split(false, root[1], &columns);
        let inner: Vec<Share> = vec![Share::Min(1), Share::Length(3)];
        assert(inner@ == conversation_shares());
        let chat = split(true, inside_border(body[1]), &inner);
        let at = MainPlaces {
            title: root[0],
            contacts: body[0],
            conversation: body[1],
            messages: chat[0],
            compose: chat[1],
            status: root[2],
        };
        let r = self.draw_main(at, now_ms);
        proof {
            assert(is_split(true, area, main_rows(), root@));
            assert(is_split(false, root@[1], main_columns(), body@));
            assert(is_split(true, inner_area(body@[1]), conversation_shares(), chat@));
            assert(at == main_places(root@, body@, chat@));
            assert(may_be_placed(area, at));
        }
        r
    }

    /// Draws the main screen and, where the user is asked whether a contact is to be deleted, the
    /// question over it.
    fn render_main_and_question(&self, area: Area, now_ms: u64) -> (r: Vec<Draw>)
        ensures
            shows_main(*self, area, now_ms, drawn(r@)),
    {
        let mut ops = self.render_main(area, now_ms);
        let ghost at = choose|at: MainPlaces| #[trigger]
            may_be_placed(area, at) && drawn(ops@) == main_drawing(*self, at, now_ms);
        if let Some(id) = &self.delete_confirm {
            let place = self.place_of(id.as_str());
            let name: &str = match place {
                Some(i) => self.chat_list.contacts[i].display_name.as_str(),
                None => id.as_str(),
            };
            put(&mut ops, confirm_bar(area, name));
            assert(drawn(ops@) == main_drawing(*self, at, now_ms).push(
                confirm_op(area, name_in(self.chat_list.contacts@, id@, place)),
            ));
        }
        ops
    }

    /// Draws the own identity as a QR code, in the given places.
    pub fn draw_identity(
        &self,
        area: Area,
        upper: Area,
        lower: Area,
        invite: Option<&str>,
    ) -> (r: Vec<Draw>)
        ensures
            drawn(r@) == identity_drawing(area, upper, lower, text_in(invite), self.user_id@),
    {
        let mut ops: Vec<Draw> = Vec::new();
        put(&mut ops, Draw::Clear { area });
        put(&mut ops, Draw::Fill { area, style: over(Color::Black) });
        let data: &str = match invite {
            Some(d) => d,
            None => {
                put(
                    &mut ops,
                    centred_text(area, "Generating invite…", colored(Color::DarkGray)),
                );
                assert(drawn(ops@) == identity_drawing(
                    area,
                    upper,
                    lower,
                    text_in(invite),
                    self.user_id@,
                ));
                return ops;
            },
        };
        let hint = line(
            span("  Scan with Construct iOS to add as node  ", colored(Color::DarkGray)),
        ).with(span("[ any key to return ]", faint()));
        assert(hint@ == seq![
            styled("  Scan with Construct iOS to add as node  "@, colored(Color::DarkGray)),
            styled("[ any key to return ]"@, faint()),
        ]);
        put(
            &mut ops,
            Draw::Text {
                area: lower,
                frame: None,
                lines: just_line(hint),
                style: plain(),
                wrap: false,
                centred: true,
            },
        );
        match QrWidget::size_hint(data) {
            Some((w, h)) => {
                let place = Area {
                    x: moved(upper.x, gap_before(upper.width, w)),
                    y: moved(upper.y, gap_before(upper.height, h)),
                    width: least_of(w, upper.width),
                    height: least_of(h, upper.height),
                };
                let widget = QrWidget {
                    data,
                    caption: Some(self.user_id.as_str()),
                    fg: Color::Black,
                    bg: Color::White,
                };
                put_all(&mut ops, widget.render(place));
            },
            None => put(
                &mut ops,
                centred_text(
                    upper,
                    "[ QR unavailable — payload too large ]",
                    colored(Color::DarkGray),
                ),
            ),
        }
        assert(drawn(ops@) == identity_drawing(
            area,
            upper,
            lower,
            text_in(invite),
            self.user_id@,
        ));
        ops
    }

    /// Draws the own identity as a QR code, with one row for the hint.
    fn render_identity_qr_fullscreen(&self, area: Area, invite: Option<&str>) -> (r: Vec<Draw>)
        ensures
            exists|parts: Seq<Area>|
                #[trigger] is_split(true, area, identity_shares(), parts) && drawn(r@)
                    == identity_drawing(
                    area,
                    parts[0],
                    parts[1],
                    text_in(invite),
                    self.user_id@,
                ),
    {
        let shares: Vec<Share> = vec![Share::Min(1), Share::Length(1)];
        assert(shares@ == identity_shares());
        let parts = split(true, area, &shares);
        let r = self.draw_identity(area, parts[0], parts[1], invite);
        assert(is_split(true, area, identity_shares(), parts@));
        assert(drawn(r@) == identity_drawing(
            area,
            parts@[0],
            parts@[1],
            text_in(invite),
            self.user_id@,
        ));
        r
    }

    /// Draws the screen of the moment. Where the safety number is to be shown and there is none, the
    /// settings are shown again.
    pub fn render(&mut self, area: Area, now_ms: u64, invite: Option<&str>) -> (r: Vec<Draw>)
        requires
            old(self).wf(),
        ensures
            final(self).wf(),
            *final(self) == if old(self).screen is SafetyNumber && old(self).safety_number is None {
                App { screen: Screen::Settings, ..*old(self) }
            } else {
                *old(self)
            },
            shows(*old(self), area, now_ms, text_in(invite), drawn(r@)),
    {
        match &self.screen {
            Screen::Main => self.render_main_and_question(area, now_ms),
            Screen::Settings => self.settings_screen.render(area),
            Screen::ContactSearch => self.contact_search.render(area),
            Screen::SafetyNumber => match &self.safety_number {
                Some(sn) => sn.render(area),
                None => {
                    self.screen = Screen::Settings;
                    self.settings_screen.render(area)
                },
            },
            Screen::IdentityQr => self.render_identity_qr_fullscreen(area, invite),
            Screen::DeviceLink => self.device_link.render(area),
            Screen::Registering => self.registration.render(area),
            Screen::Unlock | Screen::SetPassphrase => self.unlock_screen.render(area),
            Screen::Startup => {
                let mut ops = self.onboarding.render(area);
                put(&mut ops, spinner(area, "Restoring session…"));
                ops
            },
            Screen::Connecting(msg) => {
                let mut ops = self.onboarding.render(area);
                put(&mut ops, spinner(area, msg.as_str()));
                ops
            },
            Screen::AuthError(msg) => {
                let mut ops = self.onboarding.render(area);
                put(&mut ops, error_overlay(area, msg.as_str()));
                ops
            },
            Screen::Onboarding => self.onboarding.render(area),
        }
    }
}

} // verus!
