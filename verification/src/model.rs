//! Stored server configurations and the messages exchanged between the user
//! interface and the background session.
use vstd::prelude::*;

use crate::text::str_eq;

verus! {

/// A server reached with a user name and a password.
#[derive(Clone, Debug, PartialEq, Eq)]
pub struct PasswordServer {
    pub name: String,
    pub server: String,
    pub username: String,
    pub password: Option<String>,
    pub allow_insecure: Option<bool>,
    pub updated_at: Option<String>,
}

/// A server reached through an OpenID Connect login.
#[derive(Clone, Debug, PartialEq, Eq)]
pub struct OidcServer {
    pub name: String,
    pub server: String,
    pub issuer: String,
    pub client_id: String,
    pub client_secret: Option<String>,
    pub allow_insecure: Option<bool>,
    pub updated_at: Option<String>,
}

/// A stored server configuration.
#[derive(Clone, Debug, PartialEq, Eq)]
pub enum StoredServer {
    Password(PasswordServer),
    Oidc(OidcServer),
}

pub open spec fn opt_str_view(o: Option<String>) -> Option<Seq<char>> {
    match o {
        Some(s) => Some(s@),
        None => None,
    }
}

pub struct PasswordServerView {
    pub name: Seq<char>,
    pub server: Seq<char>,
    pub username: Seq<char>,
    pub password: Option<Seq<char>>,
    pub allow_insecure: Option<bool>,
    pub updated_at: Option<Seq<char>>,
}

pub struct OidcServerView {
    pub name: Seq<char>,
    pub server: Seq<char>,
    pub issuer: Seq<char>,
    pub client_id: Seq<char>,
    pub client_secret: Option<Seq<char>>,
    pub allow_insecure: Option<bool>,
    pub updated_at: Option<Seq<char>>,
}

pub enum StoredServerView {
    Password(PasswordServerView),
    Oidc(OidcServerView),
}

impl View for PasswordServer {
    type V = PasswordServerView;

    open spec fn view(&self) -> PasswordServerView {
        PasswordServerView {
            name: self.name@,
            server: self.server@,
            username: self.username@,
            password: opt_str_view(self.password),
            allow_insecure: self.allow_insecure,
            updated_at: opt_str_view(self.updated_at),
        }
    }
}

impl View for OidcServer {
    type V = OidcServerView;

    open spec fn view(&self) -> OidcServerView {
        OidcServerView {
            name: self.name@,
            server: self.server@,
            issuer: self.issuer@,
            client_id: self.client_id@,
            client_secret: opt_str_view(self.client_secret),
            allow_insecure: self.allow_insecure,
            updated_at: opt_str_view(self.updated_at),
        }
    }
}

impl View for StoredServer {
    type V = StoredServerView;

    open spec fn view(&self) -> StoredServerView {
        match self {
            StoredServer::Password(s) => StoredServerView::Password(s@),
            StoredServer::Oidc(s) => StoredServerView::Oidc(s@),
        }
    }
}

impl StoredServerView {
    /// The name under which the server is stored.
    pub open spec fn name(self) -> Seq<char> {
        match self {
            StoredServerView::Password(s) => s.name,
            StoredServerView::Oidc(s) => s.name,
        }
    }
}

impl StoredServer {
    /// The name under which the server is stored.
    pub fn name(&self) -> (r: &String)
        ensures
            r@ == self@.name(),
    {
        match self {
            StoredServer::Password(s) => &s.name,
            StoredServer::Oidc(s) => &s.name,
        }
    }

    pub fn is_password(&self) -> (r: bool)
        ensures
            r == (self@ is Password),
    {
        match self {
            StoredServer::Password(_) => true,
            StoredServer::Oidc(_) => false,
        }
    }
}

/// The views of a list of servers.
pub open spec fn servers_view(servers: Seq<StoredServer>) -> Seq<StoredServerView> {
    servers.map_values(|s: StoredServer| s@)
}

/// The index of the first server of `servers` named `name`, if any.
pub open spec fn first_index_named(servers: Seq<StoredServerView>, name: Seq<char>) -> Option<int> {
    if exists|i: int| 0 <= i < servers.len() && #[trigger] servers[i].name() == name {
        Some(
            choose|i: int|
                0 <= i < servers.len() && #[trigger] servers[i].name() == name && forall|j: int|
                    0 <= j < i ==> #[trigger] servers[j].name() != name,
        )
    } else {
        None
    }
}

pub proof fn lemma_first_index_named(servers: Seq<StoredServerView>, name: Seq<char>, i: int)
    requires
        0 <= i < servers.len(),
        servers[i].name() == name,
        forall|j: int| 0 <= j < i ==> #[trigger] servers[j].name() != name,
    ensures
        first_index_named(servers, name) == Some(i),
{
    let k = choose|k: int|
        0 <= k < servers.len() && #[trigger] servers[k].name() == name && forall|j: int|
            0 <= j < k ==> #[trigger] servers[j].name() != name;
    assert(0 <= k < servers.len() && servers[k].name() == name && forall|j: int|
        0 <= j < k ==> #[trigger] servers[j].name() != name);
    if k < i {
        assert(servers[k].name() != name);
    } else if k > i {
        assert(servers[i].name() != name);
    }
}

/// Finds the first server named `name`.
pub fn find_server(servers: &Vec<StoredServer>, name: &str) -> (r: Option<usize>)
    ensures
        r matches Some(i) ==> Some(i as int) == first_index_named(servers_view(servers@), name@),
        r is None ==> first_index_named(servers_view(servers@), name@) is None,
        r matches Some(i) ==> i < servers@.len() && servers@[i as int]@.name() == name@,
{
    let ghost sv = servers_view(servers@);
    let mut i: usize = 0;
    while i < servers.len()
        invariant
            sv == servers_view(servers@),
            i <= servers@.len(),
            forall|j: int| 0 <= j < i ==> #[trigger] sv[j].name() != name@,
        decreases servers@.len() - i,
    {
        if str_eq(servers[i].name().as_str(), name) {
            proof {
                lemma_first_index_named(sv, name@, i as int);
            }
            return Some(i);
        }
        i = i + 1;
    }
    None
}

// ---------------------------------------------------------------------------
// Messages
// ---------------------------------------------------------------------------

/// Commands sent from the UI thread to the background session.
#[derive(Clone, Debug, PartialEq, Eq)]
pub enum Command {
    ConnectPassword { server_name: String },
    ConnectOidc { server_name: String },
    Disconnect,
    GetConfigs,
    UpsertServer(StoredServer),
    SetDefault(String),
    RemoveServer(String),
}

/// Events sent from the background session to the UI thread.
#[derive(Clone, Debug, PartialEq, Eq)]
pub enum Event {
    StatusChanged { status: String, message: Option<String> },
    ConfigsLoaded { servers: Vec<StoredServer>, default: Option<String> },
    Error(String),
}

pub enum CommandView {
    ConnectPassword { server_name: Seq<char> },
    ConnectOidc { server_name: Seq<char> },
    Disconnect,
    GetConfigs,
    UpsertServer(StoredServerView),
    SetDefault(Seq<char>),
    RemoveServer(Seq<char>),
}

pub enum EventView {
    StatusChanged { status: Seq<char>, message: Option<Seq<char>> },
    ConfigsLoaded { servers: Seq<StoredServerView>, default: Option<Seq<char>> },
    Error(Seq<char>),
}

impl View for Command {
    type V = CommandView;

    open spec fn view(&self) -> CommandView {
        match self {
            Command::ConnectPassword { server_name } => CommandView::ConnectPassword {
                server_name: server_name@,
            },
            Command::ConnectOidc { server_name } => CommandView::ConnectOidc {
                server_name: server_name@,
            },
            Command::Disconnect => CommandView::Disconnect,
            Command::GetConfigs => CommandView::GetConfigs,
            Command::UpsertServer(s) => CommandView::UpsertServer(s@),
            Command::SetDefault(n) => CommandView::SetDefault(n@),
            Command::RemoveServer(n) => CommandView::RemoveServer(n@),
        }
    }
}

impl View for Event {
    type V = EventView;

    open spec fn view(&self) -> EventView {
        match self {
            Event::StatusChanged { status, message } => EventView::StatusChanged {
                status: status@,
                message: opt_str_view(*message),
            },
            Event::ConfigsLoaded { servers, default } => EventView::ConfigsLoaded {
                servers: servers_view(servers@),
                default: opt_str_view(*default),
            },
            Event::Error(e) => EventView::Error(e@),
        }
    }
}

/// The command that connects to `server`, under the name `name`: by password
/// or by OpenID Connect, after the kind of the server.
pub open spec fn connect_command_for(server: StoredServerView, name: Seq<char>) -> CommandView {
    match server {
        StoredServerView::Password(_) => CommandView::ConnectPassword { server_name: name },
        StoredServerView::Oidc(_) => CommandView::ConnectOidc { server_name: name },
    }
}

/// Builds the command that connects to `server`.
pub fn connect_command(server: &StoredServer, name: &String) -> (c: Command)
    ensures
        c@ == connect_command_for(server@, name@),
{
    if server.is_password() {
        Command::ConnectPassword { server_name: name.clone() }
    } else {
        Command::ConnectOidc { server_name: name.clone() }
    }
}

} // verus!
