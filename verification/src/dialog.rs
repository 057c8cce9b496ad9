//! The server editor: the values of its fields, how a stored server fills
//! them, what saving, deleting and importing do.
use vstd::prelude::*;

use crate::model::{
    find_server, opt_str_view, servers_view, first_index_named, Command, CommandView, OidcServer,
    OidcServerView, PasswordServer, PasswordServerView, StoredServer, StoredServerView,
};
use crate::text::{concat, owned};

verus! {

/// Control identifiers of the server editor.
pub const IDC_DLG_NAME: i32 = 2001;
pub const IDC_DLG_SERVER_URL: i32 = 2002;
pub const IDC_DLG_AUTH_TYPE: i32 = 2003;
pub const IDC_DLG_USERNAME: i32 = 2004;
pub const IDC_DLG_PASSWORD: i32 = 2005;
pub const IDC_DLG_ISSUER: i32 = 2006;
pub const IDC_DLG_CLIENT_ID: i32 = 2007;
pub const IDC_DLG_CLIENT_SECRET: i32 = 2008;
pub const IDC_DLG_ALLOW_INSECURE: i32 = 2009;
pub const IDC_DLG_SET_DEFAULT: i32 = 2010;
pub const IDC_DLG_SAVE: i32 = 2011;
pub const IDC_DLG_DELETE: i32 = 2012;
pub const IDC_DLG_CANCEL: i32 = 2013;
pub const IDC_DLG_IMPORT: i32 = 2014;
pub const IDC_DLG_PASSWORD_GROUP: i32 = 2015;
pub const IDC_DLG_OIDC_GROUP: i32 = 2016;

/// How a server authenticates.
#[derive(Clone, Copy, Debug, PartialEq, Eq, Structural)]
pub enum AuthType {
    Password,
    Oidc,
}

/// Whether the editor adds a new server or edits the one with `name`.
#[derive(Clone, Debug, PartialEq, Eq)]
pub enum DialogMode {
    Add,
    Edit { name: String },
}

/// The values of the editor's fields.
#[derive(Clone, Debug, PartialEq, Eq)]
pub struct ServerForm {
    pub name: String,
    pub server_url: String,
    pub auth_type: AuthType,
    pub username: String,
    pub password: String,
    pub issuer: String,
    pub client_id: String,
    pub client_secret: String,
    pub allow_insecure: bool,
    pub set_default: bool,
}

pub struct ServerFormView {
    pub name: Seq<char>,
    pub server_url: Seq<char>,
    pub auth_type: AuthType,
    pub username: Seq<char>,
    pub password: Seq<char>,
    pub issuer: Seq<char>,
    pub client_id: Seq<char>,
    pub client_secret: Seq<char>,
    pub allow_insecure: bool,
    pub set_default: bool,
}

impl View for ServerForm {
    type V = ServerFormView;

    open spec fn view(&self) -> ServerFormView {
        ServerFormView {
            name: self.name@,
            server_url: self.server_url@,
            auth_type: self.auth_type,
            username: self.username@,
            password: self.password@,
            issuer: self.issuer@,
            client_id: self.client_id@,
            client_secret: self.client_secret@,
            allow_insecure: self.allow_insecure,
            set_default: self.set_default,
        }
    }
}

/// What pressing "Save" leads to: a validation message, or the commands to
/// send.
#[derive(Clone, Debug, PartialEq, Eq)]
pub enum SaveOutcome {
    Invalid(String),
    Save(Vec<Command>),
}

pub enum SaveOutcomeView {
    Invalid(Seq<char>),
    Save(Seq<CommandView>),
}

impl View for SaveOutcome {
    type V = SaveOutcomeView;

    open spec fn view(&self) -> SaveOutcomeView {
        match self {
            SaveOutcome::Invalid(m) => SaveOutcomeView::Invalid(m@),
            SaveOutcome::Save(cmds) => SaveOutcomeView::Save(cmds@.map_values(|c: Command| c@)),
        }
    }
}

/// What a command notification of the editor asks for.
#[derive(Clone, Debug, PartialEq, Eq)]
pub enum DialogAction {
    AuthTypeSelected,
    Save,
    Delete,
    Cancel,
    Import,
    Ignore,
}

/// The fields that an imported configuration sets; `None` leaves a field
/// as it is.
#[derive(Clone, Debug, PartialEq, Eq)]
pub struct ImportedFields {
    pub name: Option<String>,
    pub server: Option<String>,
    pub auth_type: Option<String>,
    pub username: Option<String>,
    pub password: Option<String>,
    pub issuer: Option<String>,
    pub client_id: Option<String>,
    pub client_secret: Option<String>,
    pub allow_insecure: Option<bool>,
}

pub struct ImportedFieldsView {
    pub name: Option<Seq<char>>,
    pub server: Option<Seq<char>>,
    pub auth_type: Option<Seq<char>>,
    pub username: Option<Seq<char>>,
    pub password: Option<Seq<char>>,
    pub issuer: Option<Seq<char>>,
    pub client_id: Option<Seq<char>>,
    pub client_secret: Option<Seq<char>>,
    pub allow_insecure: Option<bool>,
}

impl View for ImportedFields {
    type V = ImportedFieldsView;

    open spec fn view(&self) -> ImportedFieldsView {
        ImportedFieldsView {
            name: opt_str_view(self.name),
            server: opt_str_view(self.server),
            auth_type: opt_str_view(self.auth_type),
            username: opt_str_view(self.username),
            password: opt_str_view(self.password),
            issuer: opt_str_view(self.issuer),
            client_id: opt_str_view(self.client_id),
            client_secret: opt_str_view(self.client_secret),
            allow_insecure: self.allow_insecure,
        }
    }
}

/// How the editor starts: its mode, its fields, and whether "Delete" is
/// enabled.
#[derive(Clone, Debug, PartialEq, Eq)]
pub struct EditorSetup {
    pub mode: DialogMode,
    pub form: ServerForm,
    pub delete_enabled: bool,
}

// ---------------------------------------------------------------------------
// Specification
// ---------------------------------------------------------------------------

/// The fields of a fresh editor: all empty, nothing checked, password
/// authentication.
pub open spec fn empty_form() -> ServerFormView {
    ServerFormView {
        name: Seq::empty(),
        server_url: Seq::empty(),
        auth_type: AuthType::Password,
        username: Seq::empty(),
        password: Seq::empty(),
        issuer: Seq::empty(),
        client_id: Seq::empty(),
        client_secret: Seq::empty(),
        allow_insecure: false,
        set_default: false,
    }
}

pub open spec fn text_or_empty(o: Option<Seq<char>>) -> Seq<char> {
    match o {
        Some(t) => t,
        None => Seq::empty(),
    }
}

pub open spec fn nonempty_or_none(t: Seq<char>) -> Option<Seq<char>> {
    if t.len() == 0 {
        None
    } else {
        Some(t)
    }
}

/// The fields of a fresh editor after a stored server fills them.
pub open spec fn form_of_server(s: StoredServerView) -> ServerFormView {
    match s {
        StoredServerView::Password(p) => ServerFormView {
            name: p.name,
            server_url: p.server,
            auth_type: AuthType::Password,
            username: p.username,
            password: text_or_empty(p.password),
            allow_insecure: p.allow_insecure == Some(true),
            ..empty_form()
        },
        StoredServerView::Oidc(o) => ServerFormView {
            name: o.name,
            server_url: o.server,
            auth_type: AuthType::Oidc,
            issuer: o.issuer,
            client_id: o.client_id,
            client_secret: text_or_empty(o.client_secret),
            allow_insecure: o.allow_insecure == Some(true),
            ..empty_form()
        },
    }
}

/// The server that saving the fields `f` stores.
pub open spec fn saved_server(f: ServerFormView) -> StoredServerView {
    match f.auth_type {
        AuthType::Password => StoredServerView::Password(
            PasswordServerView {
                name: f.name,
                server: f.server_url,
                username: f.username,
                password: nonempty_or_none(f.password),
                allow_insecure: Some(f.allow_insecure),
                updated_at: None,
            },
        ),
        AuthType::Oidc => StoredServerView::Oidc(
            OidcServerView {
                name: f.name,
                server: f.server_url,
                issuer: f.issuer,
                client_id: f.client_id,
                client_secret: nonempty_or_none(f.client_secret),
                allow_insecure: Some(f.allow_insecure),
                updated_at: None,
            },
        ),
    }
}

/// What saving the fields `f` leads to. The name and the server URL are
/// required, and for OpenID Connect the issuer and the client ID too.
/// Saving stores the server and, when "Set as default" is checked, makes it
/// the default.
pub open spec fn save_outcome(f: ServerFormView) -> SaveOutcomeView {
    if f.name.len() == 0 || f.server_url.len() == 0 {
        SaveOutcomeView::Invalid("Name and Server URL are required."@)
    } else if f.auth_type == AuthType::Oidc && (f.issuer.len() == 0 || f.client_id.len() == 0) {
        SaveOutcomeView::Invalid("Issuer and Client ID are required for OIDC."@)
    } else if f.set_default {
        SaveOutcomeView::Save(
            seq![CommandView::UpsertServer(saved_server(f)), CommandView::SetDefault(f.name)],
        )
    } else {
        SaveOutcomeView::Save(seq![CommandView::UpsertServer(saved_server(f))])
    }
}

pub open spec fn replace_text(current: Seq<char>, new: Option<Seq<char>>) -> Seq<char> {
    match new {
        Some(t) => t,
        None => current,
    }
}

/// The authentication kind an imported `authType` value selects, if any.
pub open spec fn imported_auth(t: Option<Seq<char>>) -> Option<AuthType> {
    match t {
        Some(v) => if v == "password"@ {
            Some(AuthType::Password)
        } else if v == "oidc"@ {
            Some(AuthType::Oidc)
        } else {
            None
        },
        None => None,
    }
}

/// The fields `f` after an import: each imported value replaces its field.
pub open spec fn form_after_import(f: ServerFormView, imp: ImportedFieldsView) -> ServerFormView {
    ServerFormView {
        name: replace_text(f.name, imp.name),
        server_url: replace_text(f.server_url, imp.server),
        auth_type: match imported_auth(imp.auth_type) {
            Some(a) => a,
            None => f.auth_type,
        },
        username: replace_text(f.username, imp.username),
        password: replace_text(f.password, imp.password),
        issuer: replace_text(f.issuer, imp.issuer),
        client_id: replace_text(f.client_id, imp.client_id),
        client_secret: replace_text(f.client_secret, imp.client_secret),
        allow_insecure: match imp.allow_insecure {
            Some(b) => b,
            None => f.allow_insecure,
        },
        set_default: f.set_default,
    }
}

/// A stored server as saving it back unchanged from the editor stores it:
/// an empty password or client secret is dropped, "allow insecure" is
/// always recorded, and the update time is cleared.
pub open spec fn normalized(s: StoredServerView) -> StoredServerView {
    match s {
        StoredServerView::Password(p) => StoredServerView::Password(
            PasswordServerView {
                password: nonempty_or_none(text_or_empty(p.password)),
                allow_insecure: Some(p.allow_insecure == Some(true)),
                updated_at: None,
                ..p
            },
        ),
        StoredServerView::Oidc(o) => StoredServerView::Oidc(
            OidcServerView {
                client_secret: nonempty_or_none(text_or_empty(o.client_secret)),
                allow_insecure: Some(o.allow_insecure == Some(true)),
                updated_at: None,
                ..o
            },
        ),
    }
}

/// The fields a stored server requires before it can be saved.
pub open spec fn has_required_fields(s: StoredServerView) -> bool {
    match s {
        StoredServerView::Password(p) => p.name.len() > 0 && p.server.len() > 0,
        StoredServerView::Oidc(o) => o.name.len() > 0 && o.server.len() > 0 && o.issuer.len() > 0
            && o.client_id.len() > 0,
    }
}

// ---------------------------------------------------------------------------
// Laws
// ---------------------------------------------------------------------------

/// Opening a stored server in the editor and saving it without changes
/// stores the same server, up to `normalized`, and nothing else.
pub proof fn lemma_edit_save_roundtrip(s: StoredServerView)
    requires
        has_required_fields(s),
    ensures
        save_outcome(form_of_server(s)) == SaveOutcomeView::Save(
            seq![CommandView::UpsertServer(normalized(s))],
        ),
{
    match s {
        StoredServerView::Password(p) => {
            assert(saved_server(form_of_server(s)) == normalized(s));
        },
        StoredServerView::Oidc(o) => {
            assert(saved_server(form_of_server(s)) == normalized(s));
        },
    }
}

/// Importing the same configuration twice leaves the fields as importing it
/// once does.
pub proof fn lemma_import_idempotent(f: ServerFormView, imp: ImportedFieldsView)
    ensures
        form_after_import(form_after_import(f, imp), imp) == form_after_import(f, imp),
{
}

/// Saving succeeds exactly when the name and the server URL are filled in
/// and, for OpenID Connect, the issuer and the client ID too. A successful
/// save first stores the server under the form's name, of the form's kind;
/// when "Set as default" is checked, whatever the kind, it then sends
/// `SetDefault` with that name as its second and last command; when it is
/// not checked, it sends no `SetDefault` at all.
pub proof fn lemma_save_commands(f: ServerFormView)
    ensures
        (save_outcome(f) is Save) <==> (f.name.len() > 0 && f.server_url.len() > 0 && (f.auth_type
            == AuthType::Oidc ==> f.issuer.len() > 0 && f.client_id.len() > 0)),
        save_outcome(f) matches SaveOutcomeView::Save(cmds) ==> {
            &&& cmds.len() >= 1
            &&& cmds[0] matches CommandView::UpsertServer(srv)
            &&& srv.name() == f.name
            &&& (srv is Password <==> f.auth_type == AuthType::Password)
            &&& f.set_default ==> cmds.len() == 2 && cmds.last() == CommandView::SetDefault(f.name)
            &&& !f.set_default ==> forall|i: int| 0 <= i < cmds.len() ==> !(#[trigger] cmds[i]
                is SetDefault)
        },
{
    if let SaveOutcomeView::Save(cmds) = save_outcome(f) {
        if !f.set_default {
            assert(cmds.len() == 1);
        }
    }
}

/// Each imported member sets its own field and no other: a present member
/// replaces the field of the same meaning, an absent one leaves it as it
/// was; `authType` selects password for "password", OpenID Connect for
/// "oidc", and changes nothing for any other value; "Set as default" is
/// never imported.
pub proof fn lemma_import_fields(f: ServerFormView, imp: ImportedFieldsView)
    ensures
        ({
            let g = form_after_import(f, imp);
            &&& imp.name matches Some(v) ==> g.name == v
            &&& imp.name is None ==> g.name == f.name
            &&& imp.server matches Some(v) ==> g.server_url == v
            &&& imp.server is None ==> g.server_url == f.server_url
            &&& imp.username matches Some(v) ==> g.username == v
            &&& imp.username is None ==> g.username == f.username
            &&& imp.password matches Some(v) ==> g.password == v
            &&& imp.password is None ==> g.password == f.password
            &&& imp.issuer matches Some(v) ==> g.issuer == v
            &&& imp.issuer is None ==> g.issuer == f.issuer
            &&& imp.client_id matches Some(v) ==> g.client_id == v
            &&& imp.client_id is None ==> g.client_id == f.client_id
            &&& imp.client_secret matches Some(v) ==> g.client_secret == v
            &&& imp.client_secret is None ==> g.client_secret == f.client_secret
            &&& imp.allow_insecure matches Some(b) ==> g.allow_insecure == b
            &&& imp.allow_insecure is None ==> g.allow_insecure == f.allow_insecure
            &&& imp.auth_type == Some("password"@) ==> g.auth_type == AuthType::Password
            &&& imp.auth_type == Some("oidc"@) ==> g.auth_type == AuthType::Oidc
            &&& (imp.auth_type != Some("password"@) && imp.auth_type != Some("oidc"@))
                ==> g.auth_type == f.auth_type
            &&& g.set_default == f.set_default
        }),
{
    reveal_strlit("password");
    reveal_strlit("oidc");
    assert("password"@.len() != "oidc"@.len());
}

/// Saving stores exactly the server that the fields describe: applying the
/// saved server to a fresh editor gives back the fields, but for the ones
/// that the other kind of authentication uses, "Set as default", and a
/// password or client secret that is empty.
pub proof fn lemma_save_then_edit(f: ServerFormView)
    requires
        save_outcome(f) is Save,
    ensures
        form_of_server(saved_server(f)).name == f.name,
        form_of_server(saved_server(f)).server_url == f.server_url,
        form_of_server(saved_server(f)).auth_type == f.auth_type,
        form_of_server(saved_server(f)).allow_insecure == f.allow_insecure,
        f.auth_type == AuthType::Password ==> form_of_server(saved_server(f)).username
            == f.username && form_of_server(saved_server(f)).password == f.password,
        f.auth_type == AuthType::Oidc ==> form_of_server(saved_server(f)).issuer == f.issuer
            && form_of_server(saved_server(f)).client_id == f.client_id && form_of_server(
            saved_server(f),
        ).client_secret == f.client_secret,
{
}

// ---------------------------------------------------------------------------
// Implementation
// ---------------------------------------------------------------------------

impl AuthType {
    /// The position of this kind in the authentication combo box.
    pub fn combo_index(&self) -> (i: usize)
        ensures
            i == (if *self == AuthType::Password {
                0usize
            } else {
                1usize
            }),
    {
        match self {
            AuthType::Password => 0,
            AuthType::Oidc => 1,
        }
    }

    /// The kind selected at position `idx` of the combo box: the second entry
    /// is OpenID Connect, anything else is password.
    pub fn from_combo_index(idx: isize) -> (a: AuthType)
        ensures
            a == (if idx == 1 {
                AuthType::Oidc
            } else {
                AuthType::Password
            }),
    {
        if idx == 1 {
            AuthType::Oidc
        } else {
            AuthType::Password
        }
    }

    /// Which group of fields is visible: (password group, OIDC group).
    pub fn group_visibility(&self) -> (v: (bool, bool))
        ensures
            v.0 == (*self == AuthType::Password),
            v.1 == (*self == AuthType::Oidc),
    {
        match self {
            AuthType::Password => (true, false),
            AuthType::Oidc => (false, true),
        }
    }
}

/// What a command notification from control `ctrl_id` with code `notify`
/// asks of the editor.
pub fn dialog_action(ctrl_id: i32, notify: u32) -> (a: DialogAction)
    ensures
        a is AuthTypeSelected <==> ctrl_id == IDC_DLG_AUTH_TYPE && notify
            == crate::window::CBN_SELCHANGE_CODE,
        a is Save <==> ctrl_id == IDC_DLG_SAVE,
        a is Delete <==> ctrl_id == IDC_DLG_DELETE,
        a is Cancel <==> ctrl_id == IDC_DLG_CANCEL,
        a is Import <==> ctrl_id == IDC_DLG_IMPORT,
{
    if ctrl_id == IDC_DLG_AUTH_TYPE && notify == crate::window::CBN_SELCHANGE_CODE {
        DialogAction::AuthTypeSelected
    } else if ctrl_id == IDC_DLG_SAVE {
        DialogAction::Save
    } else if ctrl_id == IDC_DLG_DELETE {
        DialogAction::Delete
    } else if ctrl_id == IDC_DLG_CANCEL {
        DialogAction::Cancel
    } else if ctrl_id == IDC_DLG_IMPORT {
        DialogAction::Import
    } else {
        DialogAction::Ignore
    }
}

fn copy_opt(o: &Option<String>) -> (r: Option<String>)
    ensures
        opt_str_view(r) == opt_str_view(*o),
{
    match o {
        Some(s) => Some(s.clone()),
        None => None,
    }
}

fn text_or_blank(o: &Option<String>) -> (r: String)
    ensures
        r@ == text_or_empty(opt_str_view(*o)),
{
    match o {
        Some(s) => s.clone(),
        None => String::new(),
    }
}

fn blank_to_none(t: &String) -> (r: Option<String>)
    ensures
        opt_str_view(r) == nonempty_or_none(t@),
{
    if t.as_str().is_empty() {
        None
    } else {
        Some(t.clone())
    }
}

impl ServerForm {
    /// The fields of a fresh editor.
    pub fn empty() -> (f: ServerForm)
        ensures
            f@ == empty_form(),
    {
        ServerForm {
            name: String::new(),
            server_url: String::new(),
            auth_type: AuthType::Password,
            username: String::new(),
            password: String::new(),
            issuer: String::new(),
            client_id: String::new(),
            client_secret: String::new(),
            allow_insecure: false,
            set_default: false,
        }
    }

    /// Fills a fresh editor with a stored server.
    pub fn from_server(server: &StoredServer) -> (f: ServerForm)
        ensures
            f@ == form_of_server(server@),
    {
        let mut f = ServerForm::empty();
        match server {
            StoredServer::Password(s) => {
                f.name = s.name.clone();
                f.server_url = s.server.clone();
                f.username = s.username.clone();
                f.password = text_or_blank(&s.password);
                f.allow_insecure = match s.allow_insecure {
                    Some(b) => b,
                    None => false,
                };
                f.auth_type = AuthType::Password;
            },
            StoredServer::Oidc(s) => {
                f.name = s.name.clone();
                f.server_url = s.server.clone();
                f.issuer = s.issuer.clone();
                f.client_id = s.client_id.clone();
                f.client_secret = text_or_blank(&s.client_secret);
                f.allow_insecure = match s.allow_insecure {
                    Some(b) => b,
                    None => false,
                };
                f.auth_type = AuthType::Oidc;
            },
        }
        f
    }

    /// Switches the kind of authentication; the other fields stay.
    pub fn switch_auth_type(&mut self, auth_type: AuthType)
        ensures
            final(self)@ == (ServerFormView { auth_type, ..old(self)@ }),
    {
        self.auth_type = auth_type;
    }

    /// The server that saving these fields stores.
    pub fn saved_server(&self) -> (s: StoredServer)
        ensures
            s@ == saved_server(self@),
    {
        match self.auth_type {
            AuthType::Password => StoredServer::Password(
                PasswordServer {
                    name: self.name.clone(),
                    server: self.server_url.clone(),
                    username: self.username.clone(),
                    password: blank_to_none(&self.password),
                    allow_insecure: Some(self.allow_insecure),
                    updated_at: None,
                },
            ),
            AuthType::Oidc => StoredServer::Oidc(
                OidcServer {
                    name: self.name.clone(),
                    server: self.server_url.clone(),
                    issuer: self.issuer.clone(),
                    client_id: self.client_id.clone(),
                    client_secret: blank_to_none(&self.client_secret),
                    allow_insecure: Some(self.allow_insecure),
                    updated_at: None,
                },
            ),
        }
    }

    /// What pressing "Save" leads to.
    pub fn on_save(&self) -> (o: SaveOutcome)
        ensures
            o@ == save_outcome(self@),
    {
        if self.name.as_str().is_empty() || self.server_url.as_str().is_empty() {
            return SaveOutcome::Invalid(owned("Name and Server URL are required."));
        }
        if self.auth_type == AuthType::Oidc && (self.issuer.as_str().is_empty()
            || self.client_id.as_str().is_empty()) {
            return SaveOutcome::Invalid(owned("Issuer and Client ID are required for OIDC."));
        }
        let mut commands: Vec<Command> = Vec::new();
        commands.push(Command::UpsertServer(self.saved_server()));
        if self.set_default {
            commands.push(Command::SetDefault(self.name.clone()));
        }
        proof {
            let cv = commands@.map_values(|c: Command| c@);
            if self.set_default {
                assert(cv =~= seq![
                    CommandView::UpsertServer(saved_server(self@)),
                    CommandView::SetDefault(self@.name),
                ]);
            } else {
                assert(cv =~= seq![CommandView::UpsertServer(saved_server(self@))]);
            }
        }
        SaveOutcome::Save(commands)
    }

    /// Applies an imported configuration to the fields.
    pub fn apply_import(&mut self, imp: &ImportedFields)
        ensures
            final(self)@ == form_after_import(old(self)@, imp@),
    {
        if let Some(v) = &imp.name {
            self.name = v.clone();
        }
        if let Some(v) = &imp.server {
            self.server_url = v.clone();
        }
        if let Some(v) = &imp.auth_type {
            if crate::text::str_eq(v.as_str(), "password") {
                self.switch_auth_type(AuthType::Password);
            } else if crate::text::str_eq(v.as_str(), "oidc") {
                self.switch_auth_type(AuthType::Oidc);
            }
        }
        if let Some(v) = &imp.username {
            self.username = v.clone();
        }
        if let Some(v) = &imp.password {
            self.password = v.clone();
        }
        if let Some(v) = &imp.issuer {
            self.issuer = v.clone();
        }
        if let Some(v) = &imp.client_id {
            self.client_id = v.clone();
        }
        if let Some(v) = &imp.client_secret {
            self.client_secret = v.clone();
        }
        if let Some(b) = imp.allow_insecure {
            self.allow_insecure = b;
        }
    }
}

impl DialogMode {
    pub open spec fn edited_name(&self) -> Option<Seq<char>> {
        match self {
            DialogMode::Add => None,
            DialogMode::Edit { name } => Some(name@),
        }
    }

    /// The question asked before deleting: only a server being edited can be
    /// deleted.
    pub fn delete_prompt(&self) -> (p: Option<String>)
        ensures
            match self.edited_name() {
                Some(n) => p matches Some(t) && t@ == "Are you sure you want to delete server '"@ + n
                    + "'?"@,
                None => p is None,
            },
    {
        match self {
            DialogMode::Add => None,
            DialogMode::Edit { name } => {
                let head = concat("Are you sure you want to delete server '", name.as_str());
                Some(concat(head.as_str(), "'?"))
            },
        }
    }

    /// The command sent after the question: removal of the edited server
    /// when the user confirmed, nothing otherwise.
    pub fn delete_command(&self, confirmed: bool) -> (c: Option<Command>)
        ensures
            match self.edited_name() {
                Some(n) => if confirmed {
                    c matches Some(cmd) && cmd@ == CommandView::RemoveServer(n)
                } else {
                    c is None
                },
                None => c is None,
            },
    {
        match self {
            DialogMode::Edit { name } => if confirmed {
                Some(Command::RemoveServer(name.clone()))
            } else {
                None
            },
            DialogMode::Add => None,
        }
    }
}

/// How the editor starts for the server list `servers` and the selection
/// `selected_name`: editing the selected server, its fields filled from the
/// first server of that name when there is one; adding a new server when
/// nothing is selected. "Delete" is enabled only when editing.
pub fn editor_setup(servers: &Vec<StoredServer>, selected_name: Option<String>) -> (e:
    EditorSetup)
    ensures
        e.mode.edited_name() == opt_str_view(selected_name),
        e.delete_enabled == (selected_name is Some),
        match selected_name {
            Some(n) => match first_index_named(servers_view(servers@), n@) {
                Some(i) => e.form@ == form_of_server(servers@[i]@),
                None => e.form@ == empty_form(),
            },
            None => e.form@ == empty_form(),
        },
{
    match selected_name {
        Some(name) => {
            let form = match find_server(servers, name.as_str()) {
                Some(i) => ServerForm::from_server(&servers[i]),
                None => ServerForm::empty(),
            };
            EditorSetup { mode: DialogMode::Edit { name }, form, delete_enabled: true }
        },
        None => EditorSetup { mode: DialogMode::Add, form: ServerForm::empty(), delete_enabled: false },
    }
}

} // verus!
