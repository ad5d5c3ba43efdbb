use construct_tui::draw::{Area, Color, Draw};
use construct_tui::screens::chat_list::{ChatListPane, Contact};
use construct_tui::screens::chat_view::{ChatViewPane, Scroll};
use construct_tui::screens::connection_status::{ConnectionState, StatusBar};
use construct_tui::screens::contact_search::{ContactSearchScreen, SearchResult};
use construct_tui::screens::device_link::DeviceLinkScreen;
use construct_tui::screens::onboarding::OnboardingScreen;
use construct_tui::screens::qr_widget::QrWidget;
use construct_tui::screens::registration::RegistrationScreen;
use construct_tui::screens::safety_number::{compute_safety_number, groups_text};
use construct_tui::screens::settings::{SettingsAction, SettingsScreen};
use construct_tui::screens::unlock::{UnlockMode, UnlockScreen};
use sha2::{Digest, Sha512};

const AREA: Area = Area { x: 0, y: 0, width: 80, height: 24 };

fn contact(id: &str) -> Contact {
    Contact {
        id: id.to_string(),
        display_name: format!("name of {id}"),
        unread: 0,
        last_message: None,
    }
}

fn result(id: &str) -> SearchResult {
    SearchResult {
        user_id: id.to_string(),
        username: id.to_string(),
        display_name: id.to_string(),
    }
}

/// All text in the order in which it is painted.
fn painted(ops: &[Draw]) -> String {
    let mut out = String::new();
    for op in ops {
        match op {
            Draw::Border { frame, .. } => out.push_str(&frame.title),
            Draw::Text { frame, lines, .. } => {
                if let Some(f) = frame {
                    out.push_str(&f.title);
                }
                for line in lines {
                    for span in &line.spans {
                        out.push_str(&span.text);
                    }
                    out.push('\n');
                }
            }
            Draw::List { frame, items, .. } => {
                if let Some(f) = frame {
                    out.push_str(&f.title);
                }
                for line in items.iter().flatten() {
                    for span in &line.spans {
                        out.push_str(&span.text);
                    }
                    out.push('\n');
                }
            }
            _ => {}
        }
    }
    out
}

#[test]
fn contacts_are_selected() {
    let mut list = ChatListPane::new();
    assert!(list.selected_contact().is_none());
    list.next();
    list.prev();
    assert!(list.selected_contact().is_none());
    list.set_contacts(vec![contact("a"), contact("b"), contact("c")]);
    assert_eq!(list.selected, Some(0));
    list.next();
    list.next();
    list.next();
    assert_eq!(list.selected_contact().unwrap().id, "c");
    list.prev();
    assert_eq!(list.selected_contact().unwrap().id, "b");
}

#[test]
fn selection_follows_a_removal() {
    let mut list = ChatListPane::new();
    list.set_contacts(vec![contact("a"), contact("b"), contact("c")]);
    list.remove_at(9);
    assert_eq!(list.contacts.len(), 3);
    list.remove_at(1);
    assert_eq!(list.selected_contact().unwrap().id, "c");
    list.remove_at(1);
    assert_eq!(list.selected_contact().unwrap().id, "a");
    list.remove_at(0);
    assert!(list.selected.is_none());
    list.add_contact(contact("d"));
    assert_eq!(list.selected, Some(0));
    list.add_contact(contact("e"));
    assert_eq!(list.selected, Some(0));
}

#[test]
fn contacts_are_drawn() {
    let mut list = ChatListPane::new();
    let mut c = contact("a");
    c.unread = 3;
    c.last_message = Some("a message that is longer than the list".to_string());
    list.set_contacts(vec![c]);
    let text = painted(&list.render(AREA));
    assert!(text.contains("name of a"));
    assert!(text.contains("a message that is …"));
}

#[test]
fn compose_box_is_edited() {
    let mut view = ChatViewPane::new("bob".to_string());
    view.push_char('h');
    view.push_char('é');
    view.push_char('!');
    view.pop_char();
    assert_eq!(view.take_compose(), "hé");
    assert_eq!(view.compose, "");
    view.pop_char();
    assert_eq!(view.compose, "");
}

#[test]
fn conversation_is_scrolled() {
    let mut view = ChatViewPane::new("bob".to_string());
    assert_eq!(view.messages.len(), 3);
    view.on_new_message();
    assert_eq!(view.scroll_offset, 0);
    view.scroll_up(1);
    assert_eq!(view.scroll_offset, 1);
    view.on_new_message();
    assert_eq!(view.scroll_offset, 2);
    view.scroll_up(usize::MAX);
    assert_eq!(view.scroll_offset, 2);
    view.scroll_down(1);
    assert_eq!(view.scroll_offset, 1);
    view.scroll_to_bottom();
    assert_eq!(view.scroll_offset, 0);
    view.scroll_to_top();
    assert_eq!(view.scroll_offset, 2);
    view.scroll(Scroll::Down(10));
    assert_eq!(view.scroll_offset, 0);
    view.scroll(Scroll::Up(1));
    view.scroll(Scroll::Bottom);
    assert_eq!(view.scroll_offset, 0);
    view.messages.clear();
    view.scroll_to_top();
    assert_eq!(view.scroll_offset, 0);
}

#[test]
fn visible_messages_are_drawn() {
    let mut view = ChatViewPane::new("bob".to_string());
    let upper = Area { x: 1, y: 1, width: 78, height: 2 };
    let lower = Area { x: 1, y: 20, width: 78, height: 3 };
    let text = painted(&view.draw(AREA, upper, lower));
    assert!(text.contains(" bob "));
    assert!(!text.contains("Привет!"));
    assert!(text.contains("[11:43] Как дела?"));
    assert!(text.contains("  Отлично!  [11:44] "));
    assert!(text.contains(" Message _"));
    view.scroll_up(1);
    let text = painted(&view.draw(AREA, upper, lower));
    assert!(text.contains("Привет!") && text.contains("Как дела?"));
    assert!(!text.contains("Отлично!"));
    assert!(text.contains("  ↑ 1 older  PgUp/PgDn  End=latest"));
    assert!(painted(&view.render(AREA)).contains("Привет!"));
}

#[test]
fn connection_has_a_label() {
    let label = |c: ConnectionState| c.label(10_000);
    assert_eq!(label(ConnectionState::Disconnected), "✗ disconnected");
    assert_eq!(
        label(ConnectionState::Connecting { transport: "direct".to_string() }),
        "⠋ connecting (direct)…"
    );
    assert_eq!(
        label(ConnectionState::Connected { transport: "obfs4".to_string(), latency_ms: None }),
        "● obfs4"
    );
    assert_eq!(
        label(ConnectionState::Connected { transport: "obfs4".to_string(), latency_ms: Some(42) }),
        "● obfs4  42ms"
    );
    let retry = |next_retry_ms| ConnectionState::Reconnecting {
        attempt: 2,
        next_retry_ms,
        interval_ms: 5000,
    };
    assert_eq!(label(retry(15_900)), "↺ reconnecting (attempt 2, retry in 5s)");
    assert_eq!(label(retry(9_000)), "↺ reconnecting (attempt 2, retry in 0s)");
    assert_eq!(ConnectionState::Disconnected.color(), Color::Red);
}

#[test]
fn status_bar_is_drawn() {
    let connection = ConnectionState::Disconnected;
    let bar = StatusBar {
        connection: &connection,
        status_text: "Ready",
        unread_count: 2,
        pq_active: true,
    };
    let text = painted(&bar.render(AREA, 0));
    assert_eq!(text, " ✗ disconnected [PQ]  │  2 unread  │ Ready\n");
}

#[test]
fn search_is_edited_and_answered() {
    let mut search = ContactSearchScreen::new();
    search.push_char('n');
    search.push_char('e');
    search.pop_char();
    assert_eq!(search.query, "n");
    assert!(search.selected().is_none());
    search.searching = true;
    search.set_results(vec![result("a"), result("b")]);
    assert!(!search.searching);
    assert_eq!(search.selected().unwrap().user_id, "a");
    search.next();
    search.next();
    assert_eq!(search.selected().unwrap().user_id, "b");
    search.prev();
    assert_eq!(search.selected().unwrap().user_id, "a");
    search.set_results(vec![]);
    assert!(search.selected().is_none());
    assert_eq!(search.status.as_deref(), Some("No results"));
    search.set_error("down".to_string());
    assert!(search.is_error);
    assert!(painted(&search.render(AREA)).contains("  down"));
    search.reset();
    assert_eq!(search.query, "");
    assert!(search.status.is_none());
}

#[test]
fn link_token_is_edited() {
    let mut link = DeviceLinkScreen::new();
    link.push_char('a');
    link.push_char('b');
    link.pop_char();
    assert_eq!(link.token, "a");
    link.set_status("wrong", true);
    assert!(link.is_error);
    assert!(painted(&link.render(AREA)).contains("wrong"));
    link.clear_status();
    assert!(link.status.is_none());
    assert!(painted(&link.render(AREA)).contains("a_"));
}

#[test]
fn username_is_limited() {
    let mut form = OnboardingScreen::new();
    for _ in 0..40 {
        form.push_char('x');
    }
    assert_eq!(form.username.len(), 32);
    form.pop_char();
    assert_eq!(form.username.len(), 31);
    form.push_char('é');
    assert_eq!(form.username.len(), 33);
    form.next_field();
    assert_eq!(form.username.len(), 33);
}

#[test]
fn banner_scales_down() {
    let form = OnboardingScreen::new();
    let narrow = Area { x: 0, y: 0, width: 79, height: 24 };
    assert!(painted(&form.render(AREA)).contains("██████╗"));
    assert!(!painted(&form.render(narrow)).contains("██████╗"));
    assert!(painted(&form.render(narrow)).contains(r"\___\___/|_|\_|___/"));
}

#[test]
fn registration_advances() {
    let mut r = RegistrationScreen::new();
    assert_eq!((r.active_step, r.spinner_tick), (0, 0));
    r.advance(3);
    assert_eq!(r.active_step, 3);
    r.advance(1);
    assert_eq!(r.active_step, 3);
    r.spinner_tick = 255;
    r.tick();
    assert_eq!(r.spinner_tick, 0);
    let text = painted(&r.render(AREA));
    assert!(text.contains("Signing pre-key"));
    assert!(text.contains("Registering identity"));
}

#[test]
fn settings_are_navigated() {
    let mut s = SettingsScreen::new("srv", "direct", "dev", "user", true);
    assert_eq!(s.selected, Some(6));
    assert_eq!(s.confirm(), Some(SettingsAction::ShowSafetyNumber));
    s.next();
    assert_eq!(s.confirm(), Some(SettingsAction::ExportKeys));
    s.next();
    assert_eq!(s.confirm(), Some(SettingsAction::Logout));
    s.next();
    s.next();
    assert_eq!(s.confirm(), Some(SettingsAction::Back));
    for _ in 0..20 {
        s.prev();
    }
    assert_eq!(s.selected, Some(0));
    assert_eq!(s.confirm(), None);
    let text = painted(&s.render(AREA));
    assert!(text.contains("  Server          srv"));
    assert!(text.contains("yes (Kyber-768)"));
    s.update("other", "obfs4", "d", "u", false);
    assert_eq!(s.server, "other");
    assert_eq!(s.items[4].value, "no (classic)");
}

#[test]
fn passphrase_is_typed_and_taken() {
    let mut u = UnlockScreen::new(UnlockMode::Unlock);
    assert!(u.is_empty());
    u.push_char('ä');
    u.push_char('b');
    u.pop_char();
    assert!(!u.is_empty());
    let text = painted(&u.render(AREA));
    assert!(text.contains(" Passphrase •••\n"));
    assert!(!text.contains('ä'));
    assert_eq!(u.take_passphrase().bytes().as_slice(), "ä".as_bytes());
    assert!(u.is_empty());
    for _ in 0..200 {
        u.push_char('x');
    }
    assert_eq!(u.passphrase.len(), 128);
    u.set_error("wrong".to_string());
    assert!(painted(&u.render(AREA)).contains("wrong"));
    u.clear_error();
    assert!(u.error.is_none());
    u.reset_for_mode(UnlockMode::SetNew);
    assert!(u.is_empty());
    assert!(painted(&u.render(AREA)).contains(" Choose a passphrase "));
}

#[test]
fn drawing_hides_the_passphrase() {
    let mut a = UnlockScreen::new(UnlockMode::Unlock);
    let mut b = UnlockScreen::new(UnlockMode::Unlock);
    a.push_char('a');
    b.push_char('z');
    assert_eq!(painted(&a.render(AREA)), painted(&b.render(AREA)));
}

#[test]
fn qr_code_is_drawn() {
    let code = qrcode::QrCode::with_error_correction_level("hello", qrcode::EcLevel::M).unwrap();
    let n = code.width();
    assert_eq!(QrWidget::size_hint("hello"), Some(((n + 4) as u16, ((n + 5) / 2) as u16)));
    let widget = QrWidget::new("hello").caption("scan me");
    let text = painted(&widget.render(AREA));
    assert!(text.contains("scan me"));
    let rows: Vec<&str> = text.lines().filter(|l| !l.contains("scan")).collect();
    assert_eq!(rows.len(), (n + 5) / 2);
    let colors = code.to_colors();
    let dark = |x: usize, y: usize| {
        x >= 2 && y >= 2 && x < n + 2 && y < n + 2
            && colors[(y - 2) * n + (x - 2)] == qrcode::Color::Dark
    };
    for (r, row) in rows.iter().enumerate() {
        let cells: Vec<char> = row.chars().collect();
        assert_eq!(cells.len(), n + 4);
        for (x, cell) in cells.iter().enumerate() {
            let expected = match (dark(x, 2 * r), dark(x, 2 * r + 1)) {
                (true, true) => '█',
                (true, false) => '▀',
                (false, true) => '▄',
                (false, false) => ' ',
            };
            assert_eq!(*cell, expected);
        }
    }
}

#[test]
fn too_long_data_has_no_qr_code() {
    let data = "x".repeat(3000);
    assert_eq!(QrWidget::size_hint(&data), None);
}

#[test]
fn safety_number_is_made_from_sha512() {
    let (a, b) = ([1u8; 32], [2u8; 32]);
    let mut hasher = Sha512::new();
    hasher.update(b"construct-safety-number-v1\0");
    hasher.update(a);
    hasher.update(b);
    let digest = hasher.finalize().to_vec();
    let groups: Vec<String> = digest
        .chunks(5)
        .take(12)
        .map(|c| {
            let n = c.iter().fold(0u64, |n, byte| n * 256 + u64::from(*byte));
            format!("{:05}", n % 100_000)
        })
        .collect();
    assert_eq!(compute_safety_number(&b, &a), groups.join(" "));
    assert_eq!(groups_text(&digest), groups.join(" "));
}

#[test]
fn parts_of_a_screen_lie_one_below_the_other() {
    let area = Area { x: 3, y: 2, width: 40, height: 12 };
    let ops = SettingsScreen::new("srv", "direct", "dev", "user", false).render(area);
    assert_eq!(ops.len(), 3);
    assert!(matches!(
        &ops[1],
        Draw::Text { area: Area { x: 4, y: 3, width: 38, height: 1 }, .. }
    ));
    assert!(matches!(
        &ops[2],
        Draw::List { area: Area { x: 4, y: 4, width: 38, height: 9 }, offset: 0, .. }
    ));
}
