use nodo_tui::app::{App, Inventory};
use nodo_tui::controls::get_controls_text;
use nodo_tui::entity::{Client, Container, Env, Peer, Service, Tunnel};

const ALWAYS: &str = "Left/Right for menu  |  Up/Down for table rows  |  Press 'o' and 'p' to rotate the block views sections  |  Press 'm' to change the block view layout";

fn dashboard() -> App<'static> {
    App::new(Inventory {
        peers: vec![Peer {
            id: "p".to_string(),
            uri: "h:1".to_string(),
            gas: "0e0".to_string(),
            rpi: None,
        }],
        clients: vec![Client { id: "c".to_string(), gas: "0e0".to_string() }],
        instances: vec![Container {
            id: "i".to_string(),
            ip: "1.1.1.1".to_string(),
            gas: "0e0".to_string(),
        }],
        services: vec![Service { id: "s".to_string(), tag: "any".to_string() }],
        envs: vec![Env {
            id: "K".to_string(),
            value: "v".to_string(),
            info: String::new(),
            group: String::new(),
        }],
        tunnels: vec![Tunnel {
            id: "t".to_string(),
            uri: "u".to_string(),
            service: "s".to_string(),
            live: true,
        }],
    })
}

#[test]
fn peers_tab_without_selection() {
    let app = dashboard();
    assert_eq!(
        get_controls_text(&app),
        format!("{}  |  Press 'c' to connect to a new peer", ALWAYS)
    );
}

#[test]
fn peers_tab_with_selection() {
    let mut app = dashboard();
    app.on_down();
    assert_eq!(
        get_controls_text(&app),
        format!(
            "{}  |  Press 'd' to delete the peer.  |  Press 'c' to connect to a new peer",
            ALWAYS
        )
    );
}

#[test]
fn peers_tab_with_the_popup_open() {
    let mut app = dashboard();
    app.open_popup();
    assert_eq!(get_controls_text(&app), format!("{}  |  Press 'esc' to close", ALWAYS));
}

#[test]
fn other_tabs_without_selection_give_the_general_hints() {
    let mut app = dashboard();
    for _ in 1..6 {
        app.on_right();
        assert_eq!(get_controls_text(&app), ALWAYS);
    }
}

#[test]
fn other_tabs_with_selection() {
    let hints = [
        "  |  Press 'd' to delete the client.",
        "  |  Press 'd' to delete the instance.",
        "  |  Press 'e' to execute an instance.  |  Press 'd' to delete the service.",
        "  |  Press 'e' to edit.",
        "",
    ];
    let mut app = dashboard();
    for hint in hints {
        app.on_right();
        app.on_down();
        assert_eq!(get_controls_text(&app), format!("{}{}", ALWAYS, hint));
    }
    assert_eq!(app.tabs.index(), 5);
    assert_eq!(app.tunnels.selected_id(), Some("t"));
}
