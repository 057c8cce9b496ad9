//! Decisions of the background session: what it reports after a command,
//! how connection states are reported, which parameters a connection is
//! made with, and the steps of an OpenID Connect login.
use vstd::prelude::*;

use crate::model::{
    opt_str_view, servers_view, Command, CommandView, Event, EventView, OidcServer, OidcServerView,
    PasswordServer, PasswordServerView, StoredServer, StoredServerView,
};
use crate::dialog::{saved_server, AuthType, ServerFormView};
use crate::text::{concat, owned, str_eq};
use crate::window::{busy_status, connected_status, error_status, idle_status};

verus! {

/// The states a VPN connection reports.
#[derive(Clone, Debug, PartialEq, Eq)]
pub enum ConnectionStatus {
    Initialized,
    Connecting(String),
    Connected,
    Disconnecting,
    Disconnected,
    Error(String),
}

pub enum ConnectionStatusView {
    Initialized,
    Connecting(Seq<char>),
    Connected,
    Disconnecting,
    Disconnected,
    Error(Seq<char>),
}

impl View for ConnectionStatus {
    type V = ConnectionStatusView;

    open spec fn view(&self) -> ConnectionStatusView {
        match self {
            ConnectionStatus::Initialized => ConnectionStatusView::Initialized,
            ConnectionStatus::Connecting(m) => ConnectionStatusView::Connecting(m@),
            ConnectionStatus::Connected => ConnectionStatusView::Connected,
            ConnectionStatus::Disconnecting => ConnectionStatusView::Disconnecting,
            ConnectionStatus::Disconnected => ConnectionStatusView::Disconnected,
            ConnectionStatus::Error(e) => ConnectionStatusView::Error(e@),
        }
    }
}

/// The name under which a connection state is reported.
pub open spec fn status_name(s: ConnectionStatusView) -> Seq<char> {
    match s {
        ConnectionStatusView::Initialized => "INITIALIZED"@,
        ConnectionStatusView::Connecting(_) => "CONNECTING"@,
        ConnectionStatusView::Connected => "CONNECTED"@,
        ConnectionStatusView::Disconnecting => "DISCONNECTING"@,
        ConnectionStatusView::Disconnected => "DISCONNECTED"@,
        ConnectionStatusView::Error(_) => "ERROR"@,
    }
}

/// The message that goes with a connection state.
pub open spec fn status_message(s: ConnectionStatusView) -> Option<Seq<char>> {
    match s {
        ConnectionStatusView::Connecting(m) => Some(m),
        ConnectionStatusView::Error(e) => Some(e),
        _ => None,
    }
}

/// The event that reports a change of connection state.
pub fn status_event(s: ConnectionStatus) -> (e: Event)
    ensures
        e@ == (EventView::StatusChanged { status: status_name(s@), message: status_message(s@) }),
{
    match s {
        ConnectionStatus::Initialized => Event::StatusChanged {
            status: owned("INITIALIZED"),
            message: None,
        },
        ConnectionStatus::Connecting(m) => Event::StatusChanged {
            status: owned("CONNECTING"),
            message: Some(m),
        },
        ConnectionStatus::Connected => Event::StatusChanged {
            status: owned("CONNECTED"),
            message: None,
        },
        ConnectionStatus::Disconnecting => Event::StatusChanged {
            status: owned("DISCONNECTING"),
            message: None,
        },
        ConnectionStatus::Disconnected => Event::StatusChanged {
            status: owned("DISCONNECTED"),
            message: None,
        },
        ConnectionStatus::Error(e) => Event::StatusChanged {
            status: owned("ERROR"),
            message: Some(e),
        },
    }
}

/// A reported connection state puts the main window in the matching mode:
/// connected only for `Connected`, busy for `Connecting` and
/// `Disconnecting`, idle for the others, with the error panel for `Error`.
pub proof fn lemma_status_modes(s: ConnectionStatusView)
    ensures
        connected_status(status_name(s)) <==> s is Connected,
        busy_status(status_name(s)) <==> (s is Connecting || s is Disconnecting),
        idle_status(status_name(s)) <==> (s is Initialized || s is Disconnected || s is Error),
        error_status(status_name(s)) <==> s is Error,
{
    reveal_strlit("INITIALIZED");
    reveal_strlit("DISCONNECTED");
    reveal_strlit("ERROR");
    reveal_strlit("CONNECTING");
    reveal_strlit("DISCONNECTING");
    reveal_strlit("CONNECTED");
    assert("INITIALIZED"@.len() == 11);
    assert("DISCONNECTED"@.len() == 12);
    assert("ERROR"@.len() == 5);
    assert("CONNECTING"@.len() == 10);
    assert("DISCONNECTING"@.len() == 13);
    assert("CONNECTED"@.len() == 9);
}

/// The report of a peer certificate that failed verification, and whether
/// to go on connecting (never: the server must be configured to allow
/// insecure certificates).
pub fn peer_cert_invalid(fingerprint: &str) -> (r: (Event, bool))
    ensures
        r.0@ == (EventView::StatusChanged {
            status: "ERROR"@,
            message: Some(
                "Peer certificate invalid. Enable 'Allow insecure' in server config to connect.\nFingerprint: "@
                    + fingerprint@,
            ),
        }),
        !r.1,
{
    let message = concat(
        "Peer certificate invalid. Enable 'Allow insecure' in server config to connect.\nFingerprint: ",
        fingerprint,
    );
    (Event::StatusChanged { status: owned("ERROR"), message: Some(message) }, false)
}

// ---------------------------------------------------------------------------
// Commands
// ---------------------------------------------------------------------------

/// The events the session sends once the work for `cmd` is done, `outcome`
/// being how it ended and (`servers`, `default`) the stored configurations
/// afterwards.
///
/// A failure is reported as an `Error` event with its message. Asking for
/// the configurations, storing a server and removing a server then report
/// the configurations; connecting, disconnecting and setting the default
/// report nothing more.
pub open spec fn command_events(
    cmd: CommandView,
    outcome: Result<(), Seq<char>>,
    servers: Seq<StoredServerView>,
    default: Option<Seq<char>>,
) -> Seq<EventView> {
    let failure = match outcome {
        Ok(()) => Seq::<EventView>::empty(),
        Err(e) => seq![EventView::Error(e)],
    };
    let configs = EventView::ConfigsLoaded { servers, default };
    match cmd {
        CommandView::GetConfigs => seq![configs],
        CommandView::UpsertServer(_) | CommandView::RemoveServer(_) => failure.push(configs),
        _ => failure,
    }
}

/// What the session reports after a command: a failure of any command
/// but asking for the configurations is reported first, as one `Error`
/// event with the failure's message; nothing else is ever reported as an
/// error. Asking for the configurations, storing a server and removing a
/// server end with the configurations as they now stand; no other command
/// reports them.
pub proof fn lemma_command_reports(
    cmd: CommandView,
    outcome: Result<(), Seq<char>>,
    servers: Seq<StoredServerView>,
    default: Option<Seq<char>>,
)
    ensures
        ({
            let evs = command_events(cmd, outcome, servers, default);
            let reports_configs = cmd is GetConfigs || cmd is UpsertServer || cmd is RemoveServer;
            let fails = outcome is Err && !(cmd is GetConfigs);
            &&& evs.len() == (if fails { 1int } else { 0int }) + (if reports_configs {
                1int
            } else {
                0int
            })
            &&& !(cmd is GetConfigs) ==> (outcome matches Err(e) ==> evs[0] == EventView::Error(e))
            &&& forall|i: int|
                0 <= i < evs.len() && (#[trigger] evs[i]) is Error ==> fails && i == 0
            &&& reports_configs ==> evs.last() == (EventView::ConfigsLoaded { servers, default })
            &&& !reports_configs ==> forall|i: int|
                0 <= i < evs.len() ==> !((#[trigger] evs[i]) is ConfigsLoaded)
        }),
{
}

pub open spec fn outcome_view(o: Result<(), String>) -> Result<(), Seq<char>> {
    match o {
        Ok(()) => Ok(()),
        Err(e) => Err(e@),
    }
}

/// Builds the events of `command_events`.
pub fn events_after_command(
    cmd: &Command,
    outcome: Result<(), String>,
    servers: Vec<StoredServer>,
    default: Option<String>,
) -> (events: Vec<Event>)
    ensures
        events@.map_values(|e: Event| e@) == command_events(
            cmd@,
            outcome_view(outcome),
            servers_view(servers@),
            opt_str_view(default),
        ),
{
    let ghost out_v = outcome_view(outcome);
    let ghost servers_v = servers_view(servers@);
    let ghost default_v = opt_str_view(default);
    let mut events: Vec<Event> = Vec::new();
    let reports_configs = match cmd {
        Command::GetConfigs | Command::UpsertServer(_) | Command::RemoveServer(_) => true,
        _ => false,
    };
    match cmd {
        Command::GetConfigs => {},
        _ => match outcome {
            Ok(()) => {},
            Err(e) => events.push(Event::Error(e)),
        },
    }
    if reports_configs {
        events.push(Event::ConfigsLoaded { servers, default });
    }
    proof {
        let ev = events@.map_values(|e: Event| e@);
        assert(ev =~= command_events(cmd@, out_v, servers_v, default_v));
    }
    events
}

// ---------------------------------------------------------------------------
// Connection parameters
// ---------------------------------------------------------------------------

/// The parameters a VPN connection is opened with. `enable_udp` is `None`
/// when the connection keeps the library's default.
#[derive(Clone, Debug, PartialEq, Eq)]
pub struct EntrypointParams {
    pub name: String,
    pub server: String,
    pub username: Option<String>,
    pub password: Option<String>,
    pub cookie: Option<String>,
    pub accept_insecure_cert: bool,
    pub enable_udp: Option<bool>,
}

pub struct EntrypointParamsView {
    pub name: Seq<char>,
    pub server: Seq<char>,
    pub username: Option<Seq<char>>,
    pub password: Option<Seq<char>>,
    pub cookie: Option<Seq<char>>,
    pub accept_insecure_cert: bool,
    pub enable_udp: Option<bool>,
}

impl View for EntrypointParams {
    type V = EntrypointParamsView;

    open spec fn view(&self) -> EntrypointParamsView {
        EntrypointParamsView {
            name: self.name@,
            server: self.server@,
            username: opt_str_view(self.username),
            password: opt_str_view(self.password),
            cookie: opt_str_view(self.cookie),
            accept_insecure_cert: self.accept_insecure_cert,
            enable_udp: self.enable_udp,
        }
    }
}

/// The parameters for a password server (its password already decrypted):
/// a missing password is sent as the empty one, insecure certificates are
/// accepted only when the server allows them, and UDP is enabled.
pub open spec fn password_entrypoint_of(s: PasswordServerView) -> EntrypointParamsView {
    EntrypointParamsView {
        name: s.name,
        server: s.server,
        username: Some(s.username),
        password: Some(
            match s.password {
                Some(p) => p,
                None => Seq::empty(),
            },
        ),
        cookie: None,
        accept_insecure_cert: s.allow_insecure == Some(true),
        enable_udp: Some(true),
    }
}

/// The parameters for an OpenID Connect server once its login gave `cookie`.
pub open spec fn oidc_entrypoint_of(s: OidcServerView, cookie: Seq<char>) -> EntrypointParamsView {
    EntrypointParamsView {
        name: s.name,
        server: s.server,
        username: None,
        password: None,
        cookie: Some(cookie),
        accept_insecure_cert: s.allow_insecure == Some(true),
        enable_udp: None,
    }
}

/// A password connection uses the server's name, address and user name,
/// its password or else the empty one, and UDP; it accepts an insecure
/// certificate exactly when the server records that it allows one.
pub proof fn lemma_password_connection(s: PasswordServerView)
    ensures
        ({
            let p = password_entrypoint_of(s);
            &&& p.accept_insecure_cert <==> s.allow_insecure == Some(true)
            &&& p.name == s.name && p.server == s.server
            &&& p.username == Some(s.username)
            &&& s.password matches Some(pw) ==> p.password == Some(pw)
            &&& s.password is None ==> p.password == Some(Seq::<char>::empty())
            &&& p.cookie is None
            &&& p.enable_udp == Some(true)
        }),
{
}

/// An OpenID Connect connection uses the server's name and address and
/// the login's cookie, no user name or password; it accepts an insecure
/// certificate exactly when the server records that it allows one.
pub proof fn lemma_oidc_connection(s: OidcServerView, cookie: Seq<char>)
    ensures
        ({
            let p = oidc_entrypoint_of(s, cookie);
            &&& p.accept_insecure_cert <==> s.allow_insecure == Some(true)
            &&& p.name == s.name && p.server == s.server
            &&& p.cookie == Some(cookie)
            &&& p.username is None && p.password is None
        }),
{
}

/// The "Allow insecure certificate" box of the editor decides whether the
/// connection to the saved server accepts an insecure certificate, and the
/// password typed in is the one sent (an empty field sends the empty
/// password).
pub proof fn lemma_editor_decides_connection(f: ServerFormView)
    requires
        f.auth_type == AuthType::Password,
    ensures
        saved_server(f) matches StoredServerView::Password(s) && password_entrypoint_of(s).accept_insecure_cert
            == f.allow_insecure && password_entrypoint_of(s).password == Some(f.password)
            && password_entrypoint_of(s).username == Some(f.username),
{
}

/// Builds `password_entrypoint_of`.
pub fn password_entrypoint(s: &PasswordServer) -> (p: EntrypointParams)
    ensures
        p@ == password_entrypoint_of(s@),
{
    EntrypointParams {
        name: s.name.clone(),
        server: s.server.clone(),
        username: Some(s.username.clone()),
        password: Some(
            match &s.password {
                Some(p) => p.clone(),
                None => String::new(),
            },
        ),
        cookie: None,
        accept_insecure_cert: match s.allow_insecure {
            Some(b) => b,
            None => false,
        },
        enable_udp: Some(true),
    }
}

fn oidc_entrypoint(s: &OidcServer, cookie: String) -> (p: EntrypointParams)
    ensures
        p@ == oidc_entrypoint_of(s@, cookie@),
{
    EntrypointParams {
        name: s.name.clone(),
        server: s.server.clone(),
        username: None,
        password: None,
        cookie: Some(cookie),
        accept_insecure_cert: match s.allow_insecure {
            Some(b) => b,
            None => false,
        },
        enable_udp: None,
    }
}

/// The configuration of an OpenID Connect authorization request.
#[derive(Clone, Debug, PartialEq, Eq)]
pub struct OidcAuthConfig {
    pub issuer_url: String,
    pub redirect_uri: String,
    pub client_id: String,
    pub client_secret: Option<String>,
    pub use_pkce_challenge: bool,
}

/// The authorization request for an OpenID Connect server: its issuer,
/// client ID and client secret, the given redirect URI, with a PKCE
/// challenge.
pub fn oidc_auth_config(s: &OidcServer, redirect_uri: &str) -> (c: OidcAuthConfig)
    ensures
        c.issuer_url@ == s.issuer@,
        c.redirect_uri@ == redirect_uri@,
        c.client_id@ == s.client_id@,
        opt_str_view(c.client_secret) == opt_str_view(s.client_secret),
        c.use_pkce_challenge,
{
    OidcAuthConfig {
        issuer_url: s.issuer.clone(),
        redirect_uri: owned(redirect_uri),
        client_id: s.client_id.clone(),
        client_secret: match &s.client_secret {
            Some(x) => Some(x.clone()),
            None => None,
        },
        use_pkce_challenge: true,
    }
}

// ---------------------------------------------------------------------------
// OpenID Connect login
// ---------------------------------------------------------------------------

/// Where an OpenID Connect login stands.
#[derive(Clone, Debug, PartialEq, Eq)]
pub enum OidcStage {
    AwaitingCallback { request_state: String },
    ExchangingToken,
    Finished,
}

pub enum OidcStageView {
    AwaitingCallback { request_state: Seq<char> },
    ExchangingToken,
    Finished,
}

impl View for OidcStage {
    type V = OidcStageView;

    open spec fn view(&self) -> OidcStageView {
        match self {
            OidcStage::AwaitingCallback { request_state } => OidcStageView::AwaitingCallback {
                request_state: request_state@,
            },
            OidcStage::ExchangingToken => OidcStageView::ExchangingToken,
            OidcStage::Finished => OidcStageView::Finished,
        }
    }
}

/// An OpenID Connect login to `server` in progress.
#[derive(Clone, Debug, PartialEq, Eq)]
pub struct OidcLogin {
    pub server: OidcServer,
    pub stage: OidcStage,
}

/// The stage after the browser calls back with the state `callback`: the
/// login goes on only if the state matches the one of the request.
pub open spec fn stage_after_callback(stage: OidcStageView, callback: Seq<char>) -> OidcStageView {
    match stage {
        OidcStageView::AwaitingCallback { request_state } => if request_state == callback {
            OidcStageView::ExchangingToken
        } else {
            OidcStageView::Finished
        },
        _ => OidcStageView::Finished,
    }
}

/// What the login gives once the cookie was asked for: the connection
/// parameters when the token exchange was under way and a cookie came back.
pub open spec fn login_result(
    stage: OidcStageView,
    server: OidcServerView,
    cookie: Option<Seq<char>>,
) -> Result<EntrypointParamsView, Seq<char>> {
    match stage {
        OidcStageView::ExchangingToken => match cookie {
            Some(c) => Ok(oidc_entrypoint_of(server, c)),
            None => Err("Failed to obtain cookie"@),
        },
        _ => Err("OIDC state validation failed"@),
    }
}

/// A login only ever yields connection parameters when the state the
/// browser called back with is the state of the request.
pub proof fn lemma_login_needs_matching_state(
    request_state: Seq<char>,
    callback: Seq<char>,
    server: OidcServerView,
    cookie: Option<Seq<char>>,
)
    ensures
        login_result(
            stage_after_callback(OidcStageView::AwaitingCallback { request_state }, callback),
            server,
            cookie,
        ) is Ok ==> request_state == callback && cookie is Some,
{
}

impl OidcLogin {
    /// Starts a login whose authorization request carries the state
    /// `request_state`; the event tells the window that the browser opens.
    pub fn begin(server: OidcServer, request_state: String) -> (r: (OidcLogin, Event))
        ensures
            r.0.server == server,
            r.0.stage@ == (OidcStageView::AwaitingCallback { request_state: request_state@ }),
            r.1@ == (EventView::StatusChanged {
                status: "CONNECTING"@,
                message: Some("Opening browser for authentication..."@),
            }),
    {
        let event = Event::StatusChanged {
            status: owned("CONNECTING"),
            message: Some(owned("Opening browser for authentication...")),
        };
        (OidcLogin { server, stage: OidcStage::AwaitingCallback { request_state } }, event)
    }

    /// Takes in the state the browser called back with. A state that differs
    /// from the request's ends the login with an error.
    pub fn on_callback(&mut self, callback_state: &str) -> (r: Result<(), String>)
        ensures
            final(self).server == old(self).server,
            final(self).stage@ == stage_after_callback(old(self).stage@, callback_state@),
            r is Ok <==> final(self).stage@ is ExchangingToken,
            r matches Err(e) ==> e@ == "OIDC state validation failed"@,
    {
        let matches = match &self.stage {
            OidcStage::AwaitingCallback { request_state } => str_eq(
                request_state.as_str(),
                callback_state,
            ),
            _ => false,
        };
        if matches {
            self.stage = OidcStage::ExchangingToken;
            Ok(())
        } else {
            self.stage = OidcStage::Finished;
            Err(owned("OIDC state validation failed"))
        }
    }

    /// Takes in the cookie that the token exchange gave, if any, and ends the
    /// login.
    pub fn on_cookie(&mut self, cookie: Option<String>) -> (r: Result<EntrypointParams, String>)
        ensures
            final(self).server == old(self).server,
            final(self).stage@ is Finished,
            match login_result(old(self).stage@, old(self).server@, opt_str_view(cookie)) {
                Ok(p) => (r matches Ok(q) && q@ == p),
                Err(e) => (r matches Err(f) && f@ == e),
            },
    {
        let exchanging = match &self.stage {
            OidcStage::ExchangingToken => true,
            _ => false,
        };
        self.stage = OidcStage::Finished;
        if !exchanging {
            return Err(owned("OIDC state validation failed"));
        }
        match cookie {
            Some(c) => Ok(oidc_entrypoint(&self.server, c)),
            None => Err(owned("Failed to obtain cookie")),
        }
    }
}

} // verus!
