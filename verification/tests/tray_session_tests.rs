use openconnect_gui_win::model::{Command, Event, OidcServer, PasswordServer, StoredServer};
use openconnect_gui_win::session::{
    events_after_command, oidc_auth_config, password_entrypoint, peer_cert_invalid, status_event,
    ConnectionStatus, EntrypointParams, OidcLogin, OidcStage,
};
use openconnect_gui_win::text::to_utf16;
use openconnect_gui_win::tray::{
    tray_icon, tray_menu, tray_notify_action, tray_selection, tray_tooltip, TrayAction, TrayIcon,
    TrayNotify, IDM_QUIT, IDM_SERVER_BASE, IDM_SHOW,
};
use openconnect_gui_win::window::WindowState;

fn pw(name: &str) -> StoredServer {
    StoredServer::Password(PasswordServer {
        name: name.to_string(),
        server: "https://p".to_string(),
        username: "u".to_string(),
        password: None,
        allow_insecure: Some(true),
        updated_at: None,
    })
}

fn oidc_plain(name: &str) -> OidcServer {
    OidcServer {
        name: name.to_string(),
        server: "https://o".to_string(),
        issuer: "https://id".to_string(),
        client_id: "cid".to_string(),
        client_secret: Some("sec".to_string()),
        allow_insecure: None,
        updated_at: None,
    }
}

#[test]
fn tray_menu_labels_and_ids() {
    let servers = vec![pw("a"), StoredServer::Oidc(oidc_plain("b"))];
    let m = tray_menu(&servers, Some("b"));
    assert_eq!(m.len(), 2);
    assert_eq!((m[0].id, m[0].label.as_str()), (IDM_SERVER_BASE, "Connect a"));
    assert_eq!((m[1].id, m[1].label.as_str()), (IDM_SERVER_BASE + 1, "Disconnect b"));
    let m = tray_menu(&servers, None);
    assert_eq!(m[1].label, "Connect b");
    assert!(tray_menu(&vec![], Some("a")).is_empty());
}

#[test]
fn tray_selection_actions() {
    let servers = vec![pw("a"), StoredServer::Oidc(oidc_plain("b"))];
    assert_eq!(tray_selection(IDM_SHOW, &servers, None), TrayAction::ShowWindow);
    assert_eq!(tray_selection(IDM_QUIT, &servers, None), TrayAction::Quit);
    assert_eq!(tray_selection(0, &servers, None), TrayAction::Nothing);
    assert_eq!(tray_selection(3050, &servers, None), TrayAction::Nothing);
    assert_eq!(tray_selection(IDM_SERVER_BASE + 2, &servers, None), TrayAction::Nothing);
    assert_eq!(
        tray_selection(IDM_SERVER_BASE, &servers, None),
        TrayAction::Send(Command::ConnectPassword { server_name: "a".to_string() })
    );
    assert_eq!(
        tray_selection(IDM_SERVER_BASE + 1, &servers, Some("a")),
        TrayAction::Send(Command::ConnectOidc { server_name: "b".to_string() })
    );
    assert_eq!(tray_selection(IDM_SERVER_BASE + 1, &servers, Some("b")), TrayAction::Send(Command::Disconnect));
}

#[test]
fn tray_label_matches_action_law() {
    let servers = vec![pw("a"), StoredServer::Oidc(oidc_plain("b")), pw("c")];
    for connected in [None, Some("a"), Some("b"), Some("zz")] {
        let m = tray_menu(&servers, connected);
        for e in &m {
            let action = tray_selection(e.id, &servers, connected);
            let disconnects = action == TrayAction::Send(Command::Disconnect);
            assert_eq!(e.label.starts_with("Disconnect "), disconnects);
        }
    }
}

#[test]
fn tray_notifications() {
    assert_eq!(tray_notify_action(0x0205), TrayNotify::ShowMenu);
    assert_eq!(tray_notify_action(0x007B), TrayNotify::ShowMenu);
    assert_eq!(tray_notify_action(0x0203), TrayNotify::ShowWindow);
    assert_eq!(tray_notify_action(0x0001_0203), TrayNotify::ShowWindow);
    assert_eq!(tray_notify_action(0x0200), TrayNotify::Nothing);
    assert_eq!(tray_icon(true), TrayIcon::Connected);
    assert_eq!(tray_icon(false), TrayIcon::Disconnected);
}

#[test]
fn tray_tooltip_is_cut_to_capacity() {
    let full = to_utf16("OpenConnect VPN");
    assert_eq!(tray_tooltip(128), full);
    assert_eq!(tray_tooltip(4), full[..4].to_vec());
    assert!(tray_tooltip(0).is_empty());
}

#[test]
fn status_events_for_each_state() {
    let cases = vec![
        (ConnectionStatus::Initialized, "INITIALIZED", None),
        (ConnectionStatus::Connecting("step".to_string()), "CONNECTING", Some("step")),
        (ConnectionStatus::Connected, "CONNECTED", None),
        (ConnectionStatus::Disconnecting, "DISCONNECTING", None),
        (ConnectionStatus::Disconnected, "DISCONNECTED", None),
        (ConnectionStatus::Error("e".to_string()), "ERROR", Some("e")),
    ];
    for (s, name, msg) in cases {
        assert_eq!(
            status_event(s),
            Event::StatusChanged { status: name.to_string(), message: msg.map(|m| m.to_string()) }
        );
    }
}

#[test]
fn status_event_reaches_window_law() {
    let mut w = WindowState::new();
    w.apply_event(status_event(ConnectionStatus::Connected));
    assert!(w.is_connected());
    w.apply_event(status_event(ConnectionStatus::Disconnected));
    assert!(!w.is_connected());
    assert!(w.refresh_ui().disconnected_panel);
    w.apply_event(status_event(ConnectionStatus::Error("x".to_string())));
    assert!(w.refresh_ui().error_panel);
}

#[test]
fn peer_cert_report_rejects() {
    let (e, accept) = peer_cert_invalid("AB:CD");
    assert!(!accept);
    assert_eq!(
        e,
        Event::StatusChanged {
            status: "ERROR".to_string(),
            message: Some(
                "Peer certificate invalid. Enable 'Allow insecure' in server config to connect.\nFingerprint: AB:CD"
                    .to_string()
            ),
        }
    );
}

#[test]
fn events_after_each_command() {
    let servers = vec![pw("a")];
    let loaded = Event::ConfigsLoaded { servers: servers.clone(), default: Some("a".to_string()) };
    let err = || Err("failed".to_string());
    let e = events_after_command(&Command::GetConfigs, Ok(()), servers.clone(), Some("a".to_string()));
    assert_eq!(e, vec![loaded.clone()]);
    let up = Command::UpsertServer(pw("a"));
    assert_eq!(events_after_command(&up, Ok(()), servers.clone(), Some("a".to_string())), vec![loaded.clone()]);
    assert_eq!(
        events_after_command(&up, err(), servers.clone(), Some("a".to_string())),
        vec![Event::Error("failed".to_string()), loaded.clone()]
    );
    let rm = Command::RemoveServer("a".to_string());
    assert_eq!(
        events_after_command(&rm, err(), servers.clone(), Some("a".to_string())),
        vec![Event::Error("failed".to_string()), loaded.clone()]
    );
    let sd = Command::SetDefault("a".to_string());
    assert!(events_after_command(&sd, Ok(()), servers.clone(), None).is_empty());
    assert_eq!(events_after_command(&sd, err(), servers.clone(), None), vec![Event::Error("failed".to_string())]);
    let c = Command::ConnectPassword { server_name: "a".to_string() };
    assert!(events_after_command(&c, Ok(()), servers.clone(), None).is_empty());
    assert_eq!(events_after_command(&Command::Disconnect, err(), vec![], None), vec![Event::Error("failed".to_string())]);
}

#[test]
fn password_connection_parameters() {
    let p = PasswordServer {
        name: "a".to_string(),
        server: "https://p".to_string(),
        username: "u".to_string(),
        password: None,
        allow_insecure: None,
        updated_at: None,
    };
    let e = password_entrypoint(&p);
    assert_eq!(
        e,
        EntrypointParams {
            name: "a".to_string(),
            server: "https://p".to_string(),
            username: Some("u".to_string()),
            password: Some(String::new()),
            cookie: None,
            accept_insecure_cert: false,
            enable_udp: Some(true),
        }
    );
    let q = PasswordServer { password: Some("pw".to_string()), allow_insecure: Some(true), ..p };
    let e = password_entrypoint(&q);
    assert_eq!(e.password.as_deref(), Some("pw"));
    assert!(e.accept_insecure_cert);
}

#[test]
fn oidc_login_with_matching_state_connects() {
    let s = oidc_plain("o");
    let c = oidc_auth_config(&s, "http://localhost:8080/callback");
    assert_eq!(c.issuer_url, "https://id");
    assert_eq!(c.client_id, "cid");
    assert_eq!(c.client_secret.as_deref(), Some("sec"));
    assert_eq!(c.redirect_uri, "http://localhost:8080/callback");
    assert!(c.use_pkce_challenge);
    let (mut login, ev) = OidcLogin::begin(s, "state-1".to_string());
    assert_eq!(
        ev,
        Event::StatusChanged {
            status: "CONNECTING".to_string(),
            message: Some("Opening browser for authentication...".to_string()),
        }
    );
    assert_eq!(login.on_callback("state-1"), Ok(()));
    assert_eq!(login.stage, OidcStage::ExchangingToken);
    let p = login.on_cookie(Some("cookie=1".to_string())).unwrap();
    assert_eq!(p.cookie.as_deref(), Some("cookie=1"));
    assert_eq!(p.name, "o");
    assert_eq!(p.server, "https://o");
    assert_eq!(p.username, None);
    assert_eq!(p.enable_udp, None);
    assert!(!p.accept_insecure_cert);
    assert_eq!(login.stage, OidcStage::Finished);
}

#[test]
fn oidc_login_failures() {
    let (mut login, _) = OidcLogin::begin(oidc_plain("o"), "state-1".to_string());
    assert_eq!(login.on_callback("state-2"), Err("OIDC state validation failed".to_string()));
    assert_eq!(login.on_cookie(Some("c".to_string())), Err("OIDC state validation failed".to_string()));
    let (mut login, _) = OidcLogin::begin(oidc_plain("o"), "s".to_string());
    assert_eq!(login.on_cookie(Some("c".to_string())), Err("OIDC state validation failed".to_string()));
    let (mut login, _) = OidcLogin::begin(oidc_plain("o"), "s".to_string());
    login.on_callback("s").unwrap();
    assert_eq!(login.on_cookie(None), Err("Failed to obtain cookie".to_string()));
}

#[test]
fn quitting_disconnects_first() {
    assert_eq!(openconnect_gui_win::tray::quit_commands(), vec![Command::Disconnect]);
}

#[test]
fn import_ignores_tabs_and_line_breaks_around_text() {
    let plain = openconnect_gui_win::import::parse_import("bm90IGpzb24=");
    let padded = openconnect_gui_win::import::parse_import("\t\n bm90IGpzb24=\u{3000}\r\n");
    assert_eq!(plain, padded);
    assert!(padded.is_some());
}
