//! The state of the main window and what it shows.
use vstd::prelude::*;

use crate::model::{
    connect_command, connect_command_for, find_server, first_index_named, lemma_first_index_named, opt_str_view, servers_view,
    Command, Event, EventView, StoredServer, StoredServerView,
};
use crate::text::{concat, owned, str_eq};

verus! {

/// Control identifiers of the main window.
pub const IDC_SERVER_COMBO: i32 = 1001;
pub const IDC_MANAGE_BTN: i32 = 1002;
pub const IDC_CONNECT_BTN: i32 = 1003;
pub const IDC_SERVER_TYPE_LABEL: i32 = 1004;
pub const IDC_SERVER_URL_LABEL: i32 = 1005;
pub const IDC_SERVER_EXTRA_LABEL: i32 = 1006;
pub const IDC_STATUS_LABEL: i32 = 1007;
pub const IDC_PANEL_DISCONNECTED: i32 = 1008;
pub const IDC_PANEL_CONNECTING: i32 = 1009;
pub const IDC_PANEL_CONNECTED: i32 = 1010;
pub const IDC_PANEL_ERROR: i32 = 1011;
pub const IDC_PANEL_CONNECTING_TEXT: i32 = 1012;
pub const IDC_PANEL_CONNECTED_TEXT: i32 = 1013;
pub const IDC_PANEL_ERROR_TEXT: i32 = 1014;

/// Width and height of the main window.
pub const WINDOW_WIDTH: i32 = 700;
pub const WINDOW_HEIGHT: i32 = 500;

/// Notification code a combo box sends when its selection changes.
pub const CBN_SELCHANGE_CODE: u32 = 1;

// ---------------------------------------------------------------------------
// Status names
// ---------------------------------------------------------------------------

/// Statuses in which no connection is up or being made.
pub open spec fn idle_status(s: Seq<char>) -> bool {
    s == "INITIALIZED"@ || s == "DISCONNECTED"@ || s == "ERROR"@
}

/// Statuses in which a connection is being made or torn down.
pub open spec fn busy_status(s: Seq<char>) -> bool {
    s == "CONNECTING"@ || s == "DISCONNECTING"@
}

pub open spec fn connected_status(s: Seq<char>) -> bool {
    s == "CONNECTED"@
}

pub open spec fn error_status(s: Seq<char>) -> bool {
    s == "ERROR"@
}

/// The idle, busy and connected panels are never shown together, and the
/// error panel only ever shows together with the idle panel.
pub proof fn lemma_panels_exclusive(status: Seq<char>)
    ensures
        !(idle_status(status) && busy_status(status)),
        !(idle_status(status) && connected_status(status)),
        !(busy_status(status) && connected_status(status)),
        error_status(status) ==> idle_status(status),
{
    reveal_strlit("INITIALIZED");
    reveal_strlit("DISCONNECTED");
    reveal_strlit("ERROR");
    reveal_strlit("CONNECTING");
    reveal_strlit("DISCONNECTING");
    reveal_strlit("CONNECTED");
    assert("INITIALIZED"@.len() == 11);
    assert("DISCONNECTED"@.len() == 12);
    assert("ERROR"@.len() == 5);
    assert("CONNECTING"@.len() == 10);
    assert("DISCONNECTING"@.len() == 13);
    assert("CONNECTED"@.len() == 9);
}

/// Loading servers without a default selects the first server, and the
/// combo box then shows it at position 0.
pub proof fn lemma_load_selects_first(servers: Seq<StoredServerView>)
    requires
        servers.len() > 0,
    ensures
        selection_after_load(servers, None) == Some(servers[0].name()),
        first_index_named(servers, servers[0].name()) == Some(0int),
{
    lemma_first_index_named(servers, servers[0].name(), 0);
}

fn is_idle(s: &str) -> (r: bool)
    ensures
        r == idle_status(s@),
{
    str_eq(s, "INITIALIZED") || str_eq(s, "DISCONNECTED") || str_eq(s, "ERROR")
}

fn is_busy(s: &str) -> (r: bool)
    ensures
        r == busy_status(s@),
{
    str_eq(s, "CONNECTING") || str_eq(s, "DISCONNECTING")
}

// ---------------------------------------------------------------------------
// Window state
// ---------------------------------------------------------------------------

/// What the main window knows: the stored servers, the one selected, and the
/// last connection status it was told of.
#[derive(Clone, Debug, PartialEq, Eq)]
pub struct WindowState {
    pub servers: Vec<StoredServer>,
    pub selected_server: Option<String>,
    pub current_status: String,
}

/// What the connect button shows.
#[derive(Clone, Debug, PartialEq, Eq)]
pub enum ButtonLabel {
    Unchanged,
    Connect,
    Disconnect,
}

/// Which panels are visible and how the connect button looks.
#[derive(Clone, Debug, PartialEq, Eq)]
pub struct PanelLayout {
    pub disconnected_panel: bool,
    pub connecting_panel: bool,
    pub connected_panel: bool,
    pub error_panel: bool,
    pub button_label: ButtonLabel,
    pub button_enabled: bool,
}

/// The contents of the server combo box.
#[derive(Clone, Debug, PartialEq, Eq)]
pub struct ComboContents {
    pub items: Vec<String>,
    pub selection: Option<usize>,
}

/// The three lines that describe the selected server.
#[derive(Clone, Debug, PartialEq, Eq)]
pub struct ServerInfoText {
    pub type_line: String,
    pub url_line: String,
    pub extra_line: String,
}

/// The labels that an event changes; `None` leaves a label as it is.
#[derive(Clone, Debug, PartialEq, Eq)]
pub struct UiUpdate {
    pub status_text: Option<String>,
    pub connecting_text: Option<String>,
    pub connected_text: Option<String>,
    pub error_text: Option<String>,
    pub servers_reloaded: bool,
}

/// What a command notification of the main window asks for.
#[derive(Clone, Debug, PartialEq, Eq)]
pub enum MainWindowAction {
    ServerSelected,
    ConnectClicked,
    ManageServers,
    Ignore,
}

/// The text of the status line: the status, then `": "` and the message when
/// there is one.
pub open spec fn status_line_text(status: Seq<char>, message: Option<Seq<char>>) -> Seq<char> {
    match message {
        Some(m) => status + ": "@ + m,
        None => status,
    }
}

/// The server that the selection names, if the selection names one.
pub open spec fn selected_in(servers: Seq<StoredServerView>, selected: Option<Seq<char>>) -> Option<
    StoredServerView,
> {
    match selected {
        Some(name) => match first_index_named(servers, name) {
            Some(i) => Some(servers[i]),
            None => None,
        },
        None => None,
    }
}

/// The selection after a list of servers is loaded with a default: the
/// default, or else the first server's name.
pub open spec fn selection_after_load(servers: Seq<StoredServerView>, default: Option<Seq<char>>) -> Option<
    Seq<char>,
> {
    match default {
        Some(d) => Some(d),
        None => if servers.len() > 0 {
            Some(servers[0].name())
        } else {
            None
        },
    }
}

/// Builds the status line text.
pub fn status_line(status: &str, message: Option<&str>) -> (r: String)
    ensures
        r@ == status_line_text(
            status@,
            match message {
                Some(m) => Some(m@),
                None => None,
            },
        ),
{
    match message {
        Some(m) => {
            let head = concat(status, ": ");
            concat(head.as_str(), m)
        },
        None => owned(status),
    }
}

/// Splits the `WPARAM` of a command message into the control identifier
/// (low word) and the notification code (high word).
pub fn split_command_param(wparam: usize) -> (r: (i32, u32))
    ensures
        r.0 == wparam % 0x10000,
        r.1 == (wparam / 0x10000) % 0x10000,
{
    let low = wparam & 0xFFFF;
    let high = (wparam >> 16) & 0xFFFF;
    assert(low == wparam % 0x10000) by (bit_vector)
        requires
            low == wparam & 0xFFFF,
    ;
    assert(high == (wparam / 0x10000) % 0x10000) by (bit_vector)
        requires
            high == (wparam >> 16) & 0xFFFF,
    ;
    (low as i32, high as u32)
}

/// A command message built from a control identifier and a notification
/// code splits back into the two.
pub proof fn lemma_command_param_roundtrip(ctrl_id: int, code: int)
    requires
        0 <= ctrl_id < 0x10000,
        0 <= code < 0x10000,
    ensures
        (code * 0x10000 + ctrl_id) % 0x10000 == ctrl_id,
        ((code * 0x10000 + ctrl_id) / 0x10000) % 0x10000 == code,
{
    assert((code * 0x10000 + ctrl_id) % 0x10000 == ctrl_id) by (nonlinear_arith)
        requires
            0 <= ctrl_id < 0x10000,
            0 <= code,
    ;
    assert((code * 0x10000 + ctrl_id) / 0x10000 == code) by (nonlinear_arith)
        requires
            0 <= ctrl_id < 0x10000,
            0 <= code,
    ;
}

/// What a command notification from control `ctrl_id` with code `notify`
/// asks of the main window.
pub fn main_window_action(ctrl_id: i32, notify: u32) -> (a: MainWindowAction)
    ensures
        a is ServerSelected <==> ctrl_id == IDC_SERVER_COMBO && notify == CBN_SELCHANGE_CODE,
        a is ConnectClicked <==> ctrl_id == IDC_CONNECT_BTN,
        a is ManageServers <==> ctrl_id == IDC_MANAGE_BTN,
{
    if ctrl_id == IDC_SERVER_COMBO && notify == CBN_SELCHANGE_CODE {
        MainWindowAction::ServerSelected
    } else if ctrl_id == IDC_CONNECT_BTN {
        MainWindowAction::ConnectClicked
    } else if ctrl_id == IDC_MANAGE_BTN {
        MainWindowAction::ManageServers
    } else {
        MainWindowAction::Ignore
    }
}

impl WindowState {
    pub open spec fn servers_v(&self) -> Seq<StoredServerView> {
        servers_view(self.servers@)
    }

    pub open spec fn selected_v(&self) -> Option<Seq<char>> {
        opt_str_view(self.selected_server)
    }

    /// The state of a freshly created window: no servers, nothing selected,
    /// status `INITIALIZED`.
    pub fn new() -> (w: WindowState)
        ensures
            w.servers@.len() == 0,
            w.selected_server is None,
            w.current_status@ == "INITIALIZED"@,
    {
        WindowState {
            servers: Vec::new(),
            selected_server: None,
            current_status: owned("INITIALIZED"),
        }
    }

    /// Whether the last status was `CONNECTED`.
    pub fn is_connected(&self) -> (r: bool)
        ensures
            r == connected_status(self.current_status@),
    {
        str_eq(self.current_status.as_str(), "CONNECTED")
    }

    /// Which panels to show and how the connect button looks.
    pub fn refresh_ui(&self) -> (l: PanelLayout)
        ensures
            l.disconnected_panel == idle_status(self.current_status@),
            l.connecting_panel == busy_status(self.current_status@),
            l.connected_panel == connected_status(self.current_status@),
            l.error_panel == error_status(self.current_status@),
            connected_status(self.current_status@) ==> l.button_label is Disconnect
                && l.button_enabled,
            !connected_status(self.current_status@) && idle_status(self.current_status@) ==> (
            l.button_label is Connect && l.button_enabled == self.selected_server is Some),
            !connected_status(self.current_status@) && !idle_status(self.current_status@) ==> (
            l.button_label is Unchanged && !l.button_enabled),
    {
        let status = self.current_status.as_str();
        let idle = is_idle(status);
        let connecting = is_busy(status);
        let connected = self.is_connected();
        let error = str_eq(status, "ERROR");
        let (button_label, button_enabled) = if connected {
            (ButtonLabel::Disconnect, true)
        } else if idle {
            (ButtonLabel::Connect, self.selected_server.is_some())
        } else {
            (ButtonLabel::Unchanged, false)
        };
        PanelLayout {
            disconnected_panel: idle,
            connecting_panel: connecting,
            connected_panel: connected,
            error_panel: error,
            button_label,
            button_enabled,
        }
    }

    /// The names to list in the server combo box and the entry to select.
    pub fn update_server_combo(&self) -> (c: ComboContents)
        ensures
            c.items@.len() == self.servers@.len(),
            forall|i: int| 0 <= i < c.items@.len() ==> #[trigger] c.items@[i]@ == self.servers_v()[i].name(),
            self.selected_server matches Some(name) ==> match c.selection {
                Some(i) => first_index_named(self.servers_v(), name@) == Some(i as int),
                None => first_index_named(self.servers_v(), name@) is None,
            },
            self.selected_server is None ==> (c.selection == if self.servers@.len() > 0 {
                Some(0usize)
            } else {
                None
            }),
    {
        let mut items: Vec<String> = Vec::new();
        let mut i: usize = 0;
        while i < self.servers.len()
            invariant
                i <= self.servers@.len(),
                items@.len() == i,
                forall|k: int| 0 <= k < i ==> #[trigger] items@[k]@ == self.servers_v()[k].name(),
            decreases self.servers@.len() - i,
        {
            items.push(self.servers[i].name().clone());
            i = i + 1;
        }
        let selection = match &self.selected_server {
            Some(name) => find_server(&self.servers, name.as_str()),
            None => if self.servers.len() > 0 {
                Some(0)
            } else {
                None
            },
        };
        ComboContents { items, selection }
    }

    /// The server the selection names, if any.
    pub fn selected(&self) -> (r: Option<&StoredServer>)
        ensures
            match r {
                Some(s) => selected_in(self.servers_v(), self.selected_v()) == Some(s@),
                None => selected_in(self.servers_v(), self.selected_v()) is None,
            },
    {
        match &self.selected_server {
            Some(name) => match find_server(&self.servers, name.as_str()) {
                Some(i) => Some(&self.servers[i]),
                None => None,
            },
            None => None,
        }
    }

    /// The lines that describe the selected server.
    pub fn update_server_info(&self) -> (t: ServerInfoText)
        ensures
            match selected_in(self.servers_v(), self.selected_v()) {
                Some(StoredServerView::Password(s)) => {
                    &&& t.type_line@ == "Type: Password"@
                    &&& t.url_line@ == "Server: "@ + s.server
                    &&& t.extra_line@ == "Username: "@ + s.username
                },
                Some(StoredServerView::Oidc(s)) => {
                    &&& t.type_line@ == "Type: OIDC"@
                    &&& t.url_line@ == "Server: "@ + s.server
                    &&& t.extra_line@ == "Issuer: "@ + s.issuer
                },
                None => {
                    &&& t.type_line@ == ""@
                    &&& t.url_line@ == ""@
                    &&& t.extra_line@ == ""@
                },
            },
    {
        match self.selected() {
            Some(StoredServer::Password(s)) => ServerInfoText {
                type_line: owned("Type: Password"),
                url_line: concat("Server: ", s.server.as_str()),
                extra_line: concat("Username: ", s.username.as_str()),
            },
            Some(StoredServer::Oidc(s)) => ServerInfoText {
                type_line: owned("Type: OIDC"),
                url_line: concat("Server: ", s.server.as_str()),
                extra_line: concat("Issuer: ", s.issuer.as_str()),
            },
            None => ServerInfoText { type_line: owned(""), url_line: owned(""), extra_line: owned("") },
        }
    }

    /// Selects the server at combo index `idx`. Returns whether the
    /// selection changed; an index outside the list changes nothing.
    pub fn handle_combo_change(&mut self, idx: isize) -> (changed: bool)
        ensures
            changed == (0 <= idx < old(self).servers@.len()),
            final(self).servers == old(self).servers,
            final(self).current_status == old(self).current_status,
            changed ==> final(self).selected_v() == Some(old(self).servers_v()[idx as int].name()),
            !changed ==> final(self).selected_server == old(self).selected_server,
    {
        if idx >= 0 && (idx as usize) < self.servers.len() {
            let name = self.servers[idx as usize].name().clone();
            self.selected_server = Some(name);
            true
        } else {
            false
        }
    }

    /// The command the connect button sends: `Disconnect` while connected;
    /// otherwise a connect command for the selected server, by the kind of
    /// that server; nothing when no stored server is selected.
    pub fn handle_connect(&self) -> (c: Option<Command>)
        ensures
            connected_status(self.current_status@) ==> (c matches Some(cmd) && cmd@
                is Disconnect),
            !connected_status(self.current_status@) ==> match selected_in(
                self.servers_v(),
                self.selected_v(),
            ) {
                Some(s) => (c matches Some(cmd) && cmd@ == connect_command_for(s, s.name())),
                None => c is None,
            },
    {
        if self.is_connected() {
            return Some(Command::Disconnect);
        }
        match self.selected() {
            Some(server) => Some(connect_command(server, server.name())),
            None => None,
        }
    }

    /// Takes in an event from the background session and says which labels
    /// change.
    ///
    /// A status change records the status and shows it in the status line; a
    /// connecting status also shows its message in the connecting panel, a
    /// disconnecting status shows "Disconnecting...", a connected status shows
    /// "Connected to VPN" and an error status shows its message (or "Unknown
    /// error"). Loaded configurations replace the server list and select the
    /// default, or else the first server. An error records the `ERROR` status
    /// and shows the error.
    pub fn apply_event(&mut self, event: Event) -> (u: UiUpdate)
        ensures
            match event@ {
                EventView::StatusChanged { status, message } => {
                    &&& final(self).current_status@ == status
                    &&& final(self).servers == old(self).servers
                    &&& final(self).selected_server == old(self).selected_server
                    &&& u.status_text matches Some(t) && t@ == status_line_text(status, message)
                    &&& !u.servers_reloaded
                    &&& if status == "CONNECTING"@ {
                        &&& u.connecting_text matches Some(t) && t@ == "Connecting...\n"@ + match message {
                            Some(m) => m,
                            None => ""@,
                        }
                        &&& u.connected_text is None && u.error_text is None
                    } else if status == "DISCONNECTING"@ {
                        &&& u.connecting_text matches Some(t) && t@ == "Disconnecting..."@
                        &&& u.connected_text is None && u.error_text is None
                    } else if status == "CONNECTED"@ {
                        &&& u.connected_text matches Some(t) && t@ == "Connected to VPN"@
                        &&& u.connecting_text is None && u.error_text is None
                    } else if status == "ERROR"@ {
                        &&& u.error_text matches Some(t) && t@ == match message {
                            Some(m) => m,
                            None => "Unknown error"@,
                        }
                        &&& u.connecting_text is None && u.connected_text is None
                    } else {
                        u.connecting_text is None && u.connected_text is None && u.error_text is None
                    }
                },
                EventView::ConfigsLoaded { servers, default } => {
                    &&& final(self).servers_v() == servers
                    &&& final(self).selected_v() == selection_after_load(servers, default)
                    &&& final(self).current_status == old(self).current_status
                    &&& u.servers_reloaded
                    &&& u.status_text is None && u.connecting_text is None
                    &&& u.connected_text is None && u.error_text is None
                },
                EventView::Error(e) => {
                    &&& final(self).current_status@ == "ERROR"@
                    &&& final(self).servers == old(self).servers
                    &&& final(self).selected_server == old(self).selected_server
                    &&& u.status_text matches Some(t) && t@ == "ERROR: "@ + e
                    &&& u.error_text matches Some(t) && t@ == e
                    &&& !u.servers_reloaded
                    &&& u.connecting_text is None && u.connected_text is None
                },
            },
    {
        match event {
            Event::StatusChanged { status, message } => {
                let status_text = match &message {
                    Some(m) => status_line(status.as_str(), Some(m.as_str())),
                    None => status_line(status.as_str(), None),
                };
                let mut u = UiUpdate {
                    status_text: Some(status_text),
                    connecting_text: None,
                    connected_text: None,
                    error_text: None,
                    servers_reloaded: false,
                };
                let s = status.as_str();
                if str_eq(s, "CONNECTING") {
                    let m = match &message {
                        Some(m) => m.as_str(),
                        None => "",
                    };
                    u.connecting_text = Some(concat("Connecting...\n", m));
                } else if str_eq(s, "DISCONNECTING") {
                    u.connecting_text = Some(owned("Disconnecting..."));
                } else if str_eq(s, "CONNECTED") {
                    u.connected_text = Some(owned("Connected to VPN"));
                } else if str_eq(s, "ERROR") {
                    let m = match &message {
                        Some(m) => m.as_str(),
                        None => "Unknown error",
                    };
                    u.error_text = Some(owned(m));
                }
                self.current_status = status;
                u
            },
            Event::ConfigsLoaded { servers, default } => {
                let selected = match default {
                    Some(d) => Some(d),
                    None => if servers.len() > 0 {
                        Some(servers[0].name().clone())
                    } else {
                        None
                    },
                };
                self.servers = servers;
                self.selected_server = selected;
                UiUpdate {
                    status_text: None,
                    connecting_text: None,
                    connected_text: None,
                    error_text: None,
                    servers_reloaded: true,
                }
            },
            Event::Error(err) => {
                let status_text = status_line("ERROR", Some(err.as_str()));
                proof {
                    reveal_strlit("ERROR");
                    reveal_strlit(": ");
                    reveal_strlit("ERROR: ");
                    assert("ERROR"@ + ": "@ =~= "ERROR: "@);
                    assert(status_text@ =~= "ERROR: "@ + err@);
                }
                let error_text = owned(err.as_str());
                self.current_status = owned("ERROR");
                UiUpdate {
                    status_text: Some(status_text),
                    connecting_text: None,
                    connected_text: None,
                    error_text: Some(error_text),
                    servers_reloaded: false,
                }
            },
        }
    }
}

} // verus!
