use openconnect_gui_win::dialog::{
    dialog_action, editor_setup, AuthType, DialogAction, DialogMode, ImportedFields, SaveOutcome,
    ServerForm, IDC_DLG_AUTH_TYPE, IDC_DLG_CANCEL, IDC_DLG_DELETE, IDC_DLG_IMPORT, IDC_DLG_SAVE,
};
use openconnect_gui_win::import::parse_import;
use openconnect_gui_win::model::{Command, OidcServer, PasswordServer, StoredServer};

fn pw_server() -> StoredServer {
    StoredServer::Password(PasswordServer {
        name: "Office".to_string(),
        server: "https://vpn.example.com".to_string(),
        username: "alice".to_string(),
        password: Some("pw".to_string()),
        allow_insecure: None,
        updated_at: Some("2024-01-01".to_string()),
    })
}

fn oidc_server() -> StoredServer {
    StoredServer::Oidc(OidcServer {
        name: "Cloud".to_string(),
        server: "https://cloud.example.com".to_string(),
        issuer: "https://id.example.com".to_string(),
        client_id: "gui".to_string(),
        client_secret: Some(String::new()),
        allow_insecure: Some(true),
        updated_at: None,
    })
}

fn no_import() -> ImportedFields {
    ImportedFields {
        name: None,
        server: None,
        auth_type: None,
        username: None,
        password: None,
        issuer: None,
        client_id: None,
        client_secret: None,
        allow_insecure: None,
    }
}

#[test]
fn save_requires_name_and_url() {
    let mut f = ServerForm::empty();
    assert_eq!(f.on_save(), SaveOutcome::Invalid("Name and Server URL are required.".to_string()));
    f.name = "x".to_string();
    assert_eq!(f.on_save(), SaveOutcome::Invalid("Name and Server URL are required.".to_string()));
    f.server_url = "https://x".to_string();
    assert!(matches!(f.on_save(), SaveOutcome::Save(_)));
}

#[test]
fn save_requires_issuer_and_client_id_for_oidc() {
    let mut f = ServerForm::empty();
    f.name = "x".to_string();
    f.server_url = "https://x".to_string();
    f.switch_auth_type(AuthType::Oidc);
    let msg = SaveOutcome::Invalid("Issuer and Client ID are required for OIDC.".to_string());
    assert_eq!(f.on_save(), msg);
    f.issuer = "https://id".to_string();
    assert_eq!(f.on_save(), msg);
    f.client_id = "c".to_string();
    assert!(matches!(f.on_save(), SaveOutcome::Save(_)));
}

#[test]
fn save_password_server_with_default() {
    let mut f = ServerForm::empty();
    f.name = "Office".to_string();
    f.server_url = "https://vpn".to_string();
    f.username = "bob".to_string();
    f.set_default = true;
    f.allow_insecure = true;
    let expected = vec![
        Command::UpsertServer(StoredServer::Password(PasswordServer {
            name: "Office".to_string(),
            server: "https://vpn".to_string(),
            username: "bob".to_string(),
            password: None,
            allow_insecure: Some(true),
            updated_at: None,
        })),
        Command::SetDefault("Office".to_string()),
    ];
    assert_eq!(f.on_save(), SaveOutcome::Save(expected));
}

#[test]
fn save_oidc_server_keeps_secret() {
    let mut f = ServerForm::empty();
    f.name = "C".to_string();
    f.server_url = "https://c".to_string();
    f.auth_type = AuthType::Oidc;
    f.issuer = "https://id".to_string();
    f.client_id = "gui".to_string();
    f.client_secret = "s".to_string();
    f.username = "ignored".to_string();
    let expected = vec![Command::UpsertServer(StoredServer::Oidc(OidcServer {
        name: "C".to_string(),
        server: "https://c".to_string(),
        issuer: "https://id".to_string(),
        client_id: "gui".to_string(),
        client_secret: Some("s".to_string()),
        allow_insecure: Some(false),
        updated_at: None,
    }))];
    assert_eq!(f.on_save(), SaveOutcome::Save(expected));
}

#[test]
fn edit_then_save_roundtrip_law() {
    let f = ServerForm::from_server(&pw_server());
    assert_eq!(f.auth_type, AuthType::Password);
    assert_eq!(f.password, "pw");
    assert!(!f.allow_insecure);
    let expected = StoredServer::Password(PasswordServer {
        name: "Office".to_string(),
        server: "https://vpn.example.com".to_string(),
        username: "alice".to_string(),
        password: Some("pw".to_string()),
        allow_insecure: Some(false),
        updated_at: None,
    });
    assert_eq!(f.on_save(), SaveOutcome::Save(vec![Command::UpsertServer(expected)]));

    let g = ServerForm::from_server(&oidc_server());
    assert_eq!(g.auth_type, AuthType::Oidc);
    let expected = StoredServer::Oidc(OidcServer {
        name: "Cloud".to_string(),
        server: "https://cloud.example.com".to_string(),
        issuer: "https://id.example.com".to_string(),
        client_id: "gui".to_string(),
        client_secret: None,
        allow_insecure: Some(true),
        updated_at: None,
    });
    assert_eq!(g.on_save(), SaveOutcome::Save(vec![Command::UpsertServer(expected)]));
}

#[test]
fn import_replaces_given_fields_only() {
    let mut f = ServerForm::from_server(&pw_server());
    let mut imp = no_import();
    imp.name = Some("New".to_string());
    imp.auth_type = Some("oidc".to_string());
    imp.issuer = Some("https://iss".to_string());
    imp.allow_insecure = Some(true);
    f.apply_import(&imp);
    assert_eq!(f.name, "New");
    assert_eq!(f.auth_type, AuthType::Oidc);
    assert_eq!(f.issuer, "https://iss");
    assert!(f.allow_insecure);
    assert_eq!(f.username, "alice");
    assert_eq!(f.server_url, "https://vpn.example.com");
    let once = f.clone();
    f.apply_import(&imp);
    assert_eq!(f, once);
}

#[test]
fn import_auth_type_values() {
    let mut f = ServerForm::empty();
    f.auth_type = AuthType::Oidc;
    let mut imp = no_import();
    imp.auth_type = Some("OIDC".to_string());
    f.apply_import(&imp);
    assert_eq!(f.auth_type, AuthType::Oidc);
    imp.auth_type = Some("password".to_string());
    f.apply_import(&imp);
    assert_eq!(f.auth_type, AuthType::Password);
    let before = f.clone();
    f.apply_import(&no_import());
    assert_eq!(f, before);
}

#[test]
fn parse_import_reads_base64_json() {
    let text = "  eyJuYW1lIjoiT2ZmaWNlIiwic2VydmVyIjoiaHR0cHM6Ly92cG4uZXhhbXBsZS5jb20iLCJhdXRoVHlwZSI6Im9pZGMiLCJpc3N1ZXIiOiJodHRwczovL2lkLmV4YW1wbGUuY29tIiwiY2xpZW50SWQiOiJndWkiLCJhbGxvd0luc2VjdXJlIjp0cnVlLCJ1c2VybmFtZSI6NDJ9\r\n";
    let f = parse_import(text).expect("valid base64");
    assert_eq!(f.name.as_deref(), Some("Office"));
    assert_eq!(f.server.as_deref(), Some("https://vpn.example.com"));
    assert_eq!(f.auth_type.as_deref(), Some("oidc"));
    assert_eq!(f.issuer.as_deref(), Some("https://id.example.com"));
    assert_eq!(f.client_id.as_deref(), Some("gui"));
    assert_eq!(f.allow_insecure, Some(true));
    // a number is not a string: the field stays unset
    assert_eq!(f.username, None);
    assert_eq!(f.password, None);
    assert_eq!(f.client_secret, None);
}

#[test]
fn parse_import_members_of_other_types() {
    let text = "eyJuYW1lIjoiSG9tZSIsImF1dGhUeXBlIjoicGFzc3dvcmQiLCJwYXNzd29yZCI6InB3IiwiY2xpZW50U2VjcmV0IjoiczMiLCJhbGxvd0luc2VjdXJlIjoieWVzIn0=";
    let f = parse_import(text).unwrap();
    assert_eq!(f.name.as_deref(), Some("Home"));
    assert_eq!(f.password.as_deref(), Some("pw"));
    assert_eq!(f.client_secret.as_deref(), Some("s3"));
    assert_eq!(f.allow_insecure, None);
    let mut form = ServerForm::empty();
    form.apply_import(&f);
    assert_eq!(form.name, "Home");
    assert_eq!(form.auth_type, AuthType::Password);
    assert_eq!(form.password, "pw");
}

#[test]
fn parse_import_rejects_non_base64_and_ignores_non_json() {
    assert_eq!(parse_import("not base64!"), None);
    assert_eq!(parse_import("{\"name\":\"x\"}"), None);
    let f = parse_import("bm90IGpzb24=").unwrap();
    assert_eq!(f, no_import());
    let f = parse_import("").unwrap();
    assert_eq!(f, no_import());
}

#[test]
fn delete_prompt_and_command() {
    let edit = DialogMode::Edit { name: "Office".to_string() };
    assert_eq!(
        edit.delete_prompt().as_deref(),
        Some("Are you sure you want to delete server 'Office'?")
    );
    assert_eq!(edit.delete_command(true), Some(Command::RemoveServer("Office".to_string())));
    assert_eq!(edit.delete_command(false), None);
    assert_eq!(DialogMode::Add.delete_prompt(), None);
    assert_eq!(DialogMode::Add.delete_command(true), None);
}

#[test]
fn editor_setup_modes() {
    let servers = vec![pw_server(), oidc_server()];
    let e = editor_setup(&servers, Some("Cloud".to_string()));
    assert_eq!(e.mode, DialogMode::Edit { name: "Cloud".to_string() });
    assert!(e.delete_enabled);
    assert_eq!(e.form.auth_type, AuthType::Oidc);
    assert_eq!(e.form.issuer, "https://id.example.com");
    assert!(e.form.allow_insecure);
    let e = editor_setup(&servers, Some("Nope".to_string()));
    assert_eq!(e.mode, DialogMode::Edit { name: "Nope".to_string() });
    assert_eq!(e.form, ServerForm::empty());
    let e = editor_setup(&servers, None);
    assert_eq!(e.mode, DialogMode::Add);
    assert!(!e.delete_enabled);
    assert_eq!(e.form, ServerForm::empty());
}

#[test]
fn auth_combo_and_groups() {
    assert_eq!(AuthType::Password.combo_index(), 0);
    assert_eq!(AuthType::Oidc.combo_index(), 1);
    assert_eq!(AuthType::from_combo_index(1), AuthType::Oidc);
    assert_eq!(AuthType::from_combo_index(0), AuthType::Password);
    assert_eq!(AuthType::from_combo_index(-1), AuthType::Password);
    assert_eq!(AuthType::Password.group_visibility(), (true, false));
    assert_eq!(AuthType::Oidc.group_visibility(), (false, true));
}

#[test]
fn dialog_control_dispatch() {
    assert_eq!(dialog_action(IDC_DLG_AUTH_TYPE, 1), DialogAction::AuthTypeSelected);
    assert_eq!(dialog_action(IDC_DLG_AUTH_TYPE, 3), DialogAction::Ignore);
    assert_eq!(dialog_action(IDC_DLG_SAVE, 0), DialogAction::Save);
    assert_eq!(dialog_action(IDC_DLG_DELETE, 0), DialogAction::Delete);
    assert_eq!(dialog_action(IDC_DLG_CANCEL, 0), DialogAction::Cancel);
    assert_eq!(dialog_action(IDC_DLG_IMPORT, 0), DialogAction::Import);
    assert_eq!(dialog_action(1, 0), DialogAction::Ignore);
}
