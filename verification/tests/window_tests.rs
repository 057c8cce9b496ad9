use openconnect_gui_win::model::{Command, Event, OidcServer, PasswordServer, StoredServer};
use openconnect_gui_win::window::{
    main_window_action, split_command_param, status_line, ButtonLabel, MainWindowAction,
    WindowState, IDC_CONNECT_BTN, IDC_MANAGE_BTN, IDC_SERVER_COMBO,
};

fn pw(name: &str) -> StoredServer {
    StoredServer::Password(PasswordServer {
        name: name.to_string(),
        server: format!("https://{}.example.com", name),
        username: "alice".to_string(),
        password: Some("secret".to_string()),
        allow_insecure: None,
        updated_at: None,
    })
}

fn oidc(name: &str) -> StoredServer {
    StoredServer::Oidc(OidcServer {
        name: name.to_string(),
        server: format!("https://{}.example.com", name),
        issuer: "https://id.example.com".to_string(),
        client_id: "gui".to_string(),
        client_secret: None,
        allow_insecure: Some(true),
        updated_at: None,
    })
}

fn status(s: &str, m: Option<&str>) -> Event {
    Event::StatusChanged { status: s.to_string(), message: m.map(|x| x.to_string()) }
}

fn loaded(w: &mut WindowState, servers: Vec<StoredServer>, default: Option<&str>) {
    w.apply_event(Event::ConfigsLoaded { servers, default: default.map(|d| d.to_string()) });
}

#[test]
fn fresh_window_shows_disconnected_panel_with_disabled_button() {
    let w = WindowState::new();
    assert_eq!(w.current_status, "INITIALIZED");
    let l = w.refresh_ui();
    assert!(l.disconnected_panel);
    assert!(!l.connecting_panel && !l.connected_panel && !l.error_panel);
    assert_eq!(l.button_label, ButtonLabel::Connect);
    assert!(!l.button_enabled);
    assert!(w.handle_connect().is_none());
}

#[test]
fn configs_loaded_selects_default_or_first() {
    let mut w = WindowState::new();
    let u = w.apply_event(Event::ConfigsLoaded { servers: vec![pw("a"), oidc("b")], default: None });
    assert!(u.servers_reloaded);
    assert_eq!(w.selected_server.as_deref(), Some("a"));
    loaded(&mut w, vec![pw("a"), oidc("b")], Some("b"));
    assert_eq!(w.selected_server.as_deref(), Some("b"));
    loaded(&mut w, vec![], None);
    assert_eq!(w.selected_server, None);
    assert_eq!(w.current_status, "INITIALIZED");
}

#[test]
fn combo_lists_names_and_selects_by_name() {
    let mut w = WindowState::new();
    loaded(&mut w, vec![pw("a"), oidc("b"), pw("b")], Some("b"));
    let c = w.update_server_combo();
    assert_eq!(c.items, vec!["a".to_string(), "b".to_string(), "b".to_string()]);
    assert_eq!(c.selection, Some(1));
    w.selected_server = Some("zzz".to_string());
    assert_eq!(w.update_server_combo().selection, None);
    w.selected_server = None;
    assert_eq!(w.update_server_combo().selection, Some(0));
    let empty = WindowState::new();
    assert_eq!(empty.update_server_combo().selection, None);
    assert!(empty.update_server_combo().items.is_empty());
}

#[test]
fn server_info_lines_by_kind() {
    let mut w = WindowState::new();
    loaded(&mut w, vec![pw("a"), oidc("b")], Some("a"));
    let t = w.update_server_info();
    assert_eq!(t.type_line, "Type: Password");
    assert_eq!(t.url_line, "Server: https://a.example.com");
    assert_eq!(t.extra_line, "Username: alice");
    w.selected_server = Some("b".to_string());
    let t = w.update_server_info();
    assert_eq!(t.type_line, "Type: OIDC");
    assert_eq!(t.url_line, "Server: https://b.example.com");
    assert_eq!(t.extra_line, "Issuer: https://id.example.com");
    w.selected_server = Some("missing".to_string());
    let t = w.update_server_info();
    assert_eq!((t.type_line.as_str(), t.url_line.as_str(), t.extra_line.as_str()), ("", "", ""));
}

#[test]
fn combo_change_selects_in_range_only() {
    let mut w = WindowState::new();
    loaded(&mut w, vec![pw("a"), oidc("b")], None);
    assert!(w.handle_combo_change(1));
    assert_eq!(w.selected_server.as_deref(), Some("b"));
    assert!(!w.handle_combo_change(2));
    assert!(!w.handle_combo_change(-1));
    assert_eq!(w.selected_server.as_deref(), Some("b"));
}

#[test]
fn connect_button_sends_command_by_server_kind() {
    let mut w = WindowState::new();
    loaded(&mut w, vec![pw("a"), oidc("b")], Some("a"));
    assert_eq!(w.handle_connect(), Some(Command::ConnectPassword { server_name: "a".to_string() }));
    w.handle_combo_change(1);
    assert_eq!(w.handle_connect(), Some(Command::ConnectOidc { server_name: "b".to_string() }));
    w.selected_server = Some("gone".to_string());
    assert_eq!(w.handle_connect(), None);
}

#[test]
fn connected_status_turns_button_into_disconnect() {
    let mut w = WindowState::new();
    loaded(&mut w, vec![pw("a")], None);
    let u = w.apply_event(status("CONNECTED", None));
    assert_eq!(u.connected_text.as_deref(), Some("Connected to VPN"));
    assert_eq!(u.status_text.as_deref(), Some("CONNECTED"));
    assert!(w.is_connected());
    let l = w.refresh_ui();
    assert!(l.connected_panel && !l.disconnected_panel && !l.connecting_panel);
    assert_eq!(l.button_label, ButtonLabel::Disconnect);
    assert!(l.button_enabled);
    assert_eq!(w.handle_connect(), Some(Command::Disconnect));
}

#[test]
fn connecting_and_disconnecting_statuses() {
    let mut w = WindowState::new();
    let u = w.apply_event(status("CONNECTING", Some("handshake")));
    assert_eq!(u.connecting_text.as_deref(), Some("Connecting...\nhandshake"));
    assert_eq!(u.status_text.as_deref(), Some("CONNECTING: handshake"));
    let l = w.refresh_ui();
    assert!(l.connecting_panel && !l.disconnected_panel);
    assert_eq!(l.button_label, ButtonLabel::Unchanged);
    assert!(!l.button_enabled);
    let u = w.apply_event(status("CONNECTING", None));
    assert_eq!(u.connecting_text.as_deref(), Some("Connecting...\n"));
    let u = w.apply_event(status("DISCONNECTING", None));
    assert_eq!(u.connecting_text.as_deref(), Some("Disconnecting..."));
    assert!(u.connected_text.is_none() && u.error_text.is_none());
}

#[test]
fn error_status_and_error_event() {
    let mut w = WindowState::new();
    let u = w.apply_event(status("ERROR", None));
    assert_eq!(u.error_text.as_deref(), Some("Unknown error"));
    let u = w.apply_event(status("ERROR", Some("bad cert")));
    assert_eq!(u.error_text.as_deref(), Some("bad cert"));
    assert_eq!(u.status_text.as_deref(), Some("ERROR: bad cert"));
    w.current_status = "CONNECTED".to_string();
    let u = w.apply_event(Event::Error("boom".to_string()));
    assert_eq!(w.current_status, "ERROR");
    assert_eq!(u.status_text.as_deref(), Some("ERROR: boom"));
    assert_eq!(u.error_text.as_deref(), Some("boom"));
    let l = w.refresh_ui();
    assert!(l.error_panel && l.disconnected_panel);
}

#[test]
fn unknown_status_changes_only_status_line() {
    let mut w = WindowState::new();
    let u = w.apply_event(status("WEIRD", Some("x")));
    assert_eq!(u.status_text.as_deref(), Some("WEIRD: x"));
    assert!(u.connecting_text.is_none() && u.connected_text.is_none() && u.error_text.is_none());
    let l = w.refresh_ui();
    assert!(!l.disconnected_panel && !l.connecting_panel && !l.connected_panel && !l.error_panel);
}

#[test]
fn panels_are_exclusive_for_every_status() {
    for s in ["INITIALIZED", "DISCONNECTED", "ERROR", "CONNECTING", "DISCONNECTING", "CONNECTED", "OTHER"] {
        let mut w = WindowState::new();
        w.current_status = s.to_string();
        let l = w.refresh_ui();
        let shown = [l.disconnected_panel, l.connecting_panel, l.connected_panel]
            .iter()
            .filter(|b| **b)
            .count();
        assert!(shown <= 1, "{}", s);
        assert!(!l.error_panel || l.disconnected_panel, "{}", s);
    }
}

#[test]
fn status_line_formats() {
    assert_eq!(status_line("CONNECTED", None), "CONNECTED");
    assert_eq!(status_line("ERROR", Some("x")), "ERROR: x");
}

#[test]
fn command_param_split_and_dispatch() {
    assert_eq!(split_command_param(0x0001_03E9), (1001, 1));
    assert_eq!(split_command_param(0x0000_03EB), (1003, 0));
    assert_eq!(split_command_param(0xABCD_0001_03EA), (1002, 1));
    assert_eq!(main_window_action(IDC_SERVER_COMBO, 1), MainWindowAction::ServerSelected);
    assert_eq!(main_window_action(IDC_SERVER_COMBO, 0), MainWindowAction::Ignore);
    assert_eq!(main_window_action(IDC_CONNECT_BTN, 0), MainWindowAction::ConnectClicked);
    assert_eq!(main_window_action(IDC_MANAGE_BTN, 0), MainWindowAction::ManageServers);
    assert_eq!(main_window_action(42, 0), MainWindowAction::Ignore);
}

#[test]
fn load_without_default_shows_first_at_position_zero() {
    let mut w = WindowState::new();
    loaded(&mut w, vec![oidc("x"), pw("y")], None);
    assert_eq!(w.update_server_combo().selection, Some(0));
}

#[test]
fn command_param_roundtrip_law() {
    for (id, code) in [(1001u16, 1u16), (0, 0), (0xFFFF, 0xFFFF), (2014, 0)] {
        let w = ((code as usize) << 16) | id as usize;
        assert_eq!(split_command_param(w), (id as i32, code as u32));
    }
}
