use nodo_tui::app::{App, Inventory};
use nodo_tui::entity::{Peer, Service};
use nodo_tui::handler::{
    handle_key_events, handle_key_events_checked, KeyCode, KeyEvent, KeyModifiers,
};
use nodo_tui::layout::LayoutMode;

fn dashboard() -> App<'static> {
    App::new(Inventory {
        peers: vec![Peer {
            id: "north".to_string(),
            uri: "10.0.0.1:4000".to_string(),
            gas: "1e0".to_string(),
            rpi: Some("proof".to_string()),
        }],
        clients: Vec::new(),
        instances: Vec::new(),
        services: vec![
            Service { id: "s1".to_string(), tag: "any".to_string() },
            Service { id: "s2".to_string(), tag: "web".to_string() },
        ],
        envs: Vec::new(),
        tunnels: Vec::new(),
    })
}

fn plain(code: KeyCode) -> KeyEvent {
    KeyEvent { code, modifiers: KeyModifiers::Plain }
}

fn shift(code: KeyCode) -> KeyEvent {
    KeyEvent { code, modifiers: KeyModifiers::Shift }
}

fn control(code: KeyCode) -> KeyEvent {
    KeyEvent { code, modifiers: KeyModifiers::Control }
}

fn type_text(app: &mut App<'_>, text: &str) {
    for ch in text.chars() {
        assert_eq!(handle_key_events(plain(KeyCode::Char(ch)), app), None);
    }
}

#[test]
fn arrow_keys_navigate() {
    let mut app = dashboard();
    assert_eq!(handle_key_events(plain(KeyCode::Down), &mut app), None);
    assert_eq!(app.peers.selected_id(), Some("north"));
    handle_key_events(plain(KeyCode::Right), &mut app);
    assert_eq!(app.tabs.index(), 1);
    handle_key_events(plain(KeyCode::Left), &mut app);
    handle_key_events(plain(KeyCode::Left), &mut app);
    assert_eq!(app.tabs.index(), 5);
    handle_key_events(plain(KeyCode::Up), &mut app);
    assert_eq!(app.tunnels.selected_index(), None);
}

#[test]
fn shifted_arrows_drive_the_side_panels() {
    let mut app = dashboard();
    handle_key_events(shift(KeyCode::Up), &mut app);
    handle_key_events(shift(KeyCode::Up), &mut app);
    assert_eq!(app.layout.mode(), LayoutMode::Double);
    handle_key_events(shift(KeyCode::Right), &mut app);
    assert_eq!(app.layout.visible_panels(), vec!["cpu-usage", "tui-logs"]);
    handle_key_events(shift(KeyCode::Left), &mut app);
    handle_key_events(shift(KeyCode::Left), &mut app);
    assert_eq!(app.layout.visible_panels(), vec!["logs", "ram-usage"]);
    assert_eq!(app.tabs.index(), 0);
    handle_key_events(shift(KeyCode::Down), &mut app);
    assert_eq!(app.peers.selected_index(), None);
}

#[test]
fn quit_keys_stop_the_dashboard() {
    for key in [
        plain(KeyCode::Esc),
        plain(KeyCode::Char('q')),
        control(KeyCode::Char('c')),
        control(KeyCode::Char('C')),
    ] {
        let mut app = dashboard();
        assert_eq!(handle_key_events(key, &mut app), None);
        assert!(!app.running);
    }
}

#[test]
fn other_keys_do_nothing() {
    for key in [
        plain(KeyCode::Enter),
        plain(KeyCode::Backspace),
        plain(KeyCode::Other),
        plain(KeyCode::Char('x')),
        shift(KeyCode::Char('q')),
        shift(KeyCode::Char('C')),
        control(KeyCode::Char('q')),
        control(KeyCode::Left),
        KeyEvent { code: KeyCode::Left, modifiers: KeyModifiers::Other },
        KeyEvent { code: KeyCode::Esc, modifiers: KeyModifiers::Other },
    ] {
        let mut app = dashboard();
        assert_eq!(handle_key_events(key, &mut app), None);
        assert!(app.running);
        assert_eq!(app.tabs.index(), 0);
        assert!(!app.modal.is_open());
        assert_eq!(app.peers.selected_index(), None);
        assert_eq!(app.layout.mode(), LayoutMode::Hidden);
    }
}

#[test]
fn c_opens_the_popup_on_the_peers_tab_only() {
    let mut app = dashboard();
    handle_key_events(plain(KeyCode::Right), &mut app);
    handle_key_events(plain(KeyCode::Char('c')), &mut app);
    assert!(!app.modal.is_open());
    handle_key_events(plain(KeyCode::Left), &mut app);
    handle_key_events(plain(KeyCode::Char('C')), &mut app);
    assert!(app.modal.is_open());
}

#[test]
fn open_popup_takes_every_key() {
    let mut app = dashboard();
    handle_key_events(plain(KeyCode::Char('c')), &mut app);
    type_text(&mut app, "qde");
    assert_eq!(app.modal.buffer(), "qde");
    assert!(app.running);
    handle_key_events(plain(KeyCode::Right), &mut app);
    handle_key_events(plain(KeyCode::Down), &mut app);
    handle_key_events(shift(KeyCode::Up), &mut app);
    assert_eq!(app.tabs.index(), 0);
    assert_eq!(app.peers.selected_index(), None);
    assert_eq!(app.layout.mode(), LayoutMode::Hidden);
    handle_key_events(control(KeyCode::Char('c')), &mut app);
    assert!(app.running);
    assert_eq!(app.modal.buffer(), "qdec");
    handle_key_events(plain(KeyCode::Backspace), &mut app);
    assert_eq!(app.modal.buffer(), "qde");
    handle_key_events(plain(KeyCode::Esc), &mut app);
    assert!(!app.modal.is_open());
    assert_eq!(app.modal.buffer(), "");
    assert!(app.running);
}

#[test]
fn enter_submits_an_address() {
    let mut app = dashboard();
    handle_key_events(plain(KeyCode::Char('c')), &mut app);
    type_text(&mut app, "192.168.1.5:8080");
    assert_eq!(handle_key_events(plain(KeyCode::Enter), &mut app), Some(0));
    assert!(!app.modal.is_open());
    assert_eq!(app.modal.buffer(), "");
    assert_eq!(
        app.commands[0].args(),
        &vec!["connect".to_string(), "192.168.1.5:8080".to_string()]
    );
}

#[test]
fn enter_keeps_a_text_that_is_no_address() {
    let mut app = dashboard();
    handle_key_events(plain(KeyCode::Char('c')), &mut app);
    type_text(&mut app, "not-a-host");
    assert_eq!(handle_key_events(plain(KeyCode::Enter), &mut app), None);
    assert!(app.modal.is_open());
    assert_eq!(app.modal.buffer(), "not-a-host");
    assert!(app.commands.is_empty());
}

#[test]
fn e_executes_the_selected_service() {
    let mut app = dashboard();
    for _ in 0..3 {
        handle_key_events(plain(KeyCode::Right), &mut app);
    }
    assert_eq!(handle_key_events(plain(KeyCode::Char('e')), &mut app), None);
    handle_key_events(plain(KeyCode::Up), &mut app);
    handle_key_events(plain(KeyCode::Up), &mut app);
    assert_eq!(handle_key_events(plain(KeyCode::Char('e')), &mut app), Some(0));
    assert_eq!(app.commands[0].args(), &vec!["execute".to_string(), "s2".to_string()]);
}

#[test]
fn d_prunes_the_selected_peer() {
    let mut app = dashboard();
    assert_eq!(handle_key_events(plain(KeyCode::Char('d')), &mut app), None);
    handle_key_events(plain(KeyCode::Down), &mut app);
    assert_eq!(handle_key_events(plain(KeyCode::Char('d')), &mut app), Some(0));
    assert_eq!(app.commands[0].args(), &vec!["prune:peer".to_string(), "north".to_string()]);
}

#[test]
fn checked_handler_takes_the_verdict_from_the_caller() {
    let mut app = dashboard();
    handle_key_events(plain(KeyCode::Char('c')), &mut app);
    type_text(&mut app, "whatever");
    assert_eq!(handle_key_events_checked(plain(KeyCode::Enter), &mut app, false), None);
    assert!(app.modal.is_open());
    assert_eq!(handle_key_events_checked(plain(KeyCode::Enter), &mut app, true), Some(0));
    assert_eq!(app.commands[0].args(), &vec!["connect".to_string(), "whatever".to_string()]);
    assert_eq!(handle_key_events_checked(plain(KeyCode::Down), &mut app, true), None);
    assert_eq!(app.peers.selected_id(), Some("north"));
}
