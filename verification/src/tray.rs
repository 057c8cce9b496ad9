//! The notification-area icon: its menu and what a choice in it does.
use vstd::prelude::*;

use crate::model::{
    connect_command, connect_command_for, servers_view, Command, CommandView, StoredServer,
    StoredServerView,
};
use crate::text::{concat, str_eq, to_utf16, utf16_encoded};

verus! {

/// Message identifier of the tray icon's notifications (`WM_USER + 100`).
pub const WM_TRAY_NOTIFY: u32 = 0x0400 + 100;

/// Menu item identifiers.
pub const IDM_SHOW: usize = 3001;
pub const IDM_QUIT: usize = 3002;
pub const IDM_SERVER_BASE: usize = 3100;

/// Mouse messages the tray icon reports.
pub const WM_CONTEXTMENU_CODE: u32 = 0x007B;
pub const WM_LBUTTONDBLCLK_CODE: u32 = 0x0203;
pub const WM_RBUTTONUP_CODE: u32 = 0x0205;

/// One entry of the "Servers" submenu.
#[derive(Clone, Debug, PartialEq, Eq)]
pub struct MenuEntry {
    pub id: usize,
    pub label: String,
}

/// What a choice in the tray menu does.
#[derive(Clone, Debug, PartialEq, Eq)]
pub enum TrayAction {
    ShowWindow,
    Quit,
    Send(Command),
    Nothing,
}

/// What a notification from the tray icon asks for.
#[derive(Clone, Debug, PartialEq, Eq)]
pub enum TrayNotify {
    ShowMenu,
    ShowWindow,
    Nothing,
}

/// Which icon the tray shows.
#[derive(Clone, Debug, PartialEq, Eq)]
pub enum TrayIcon {
    Connected,
    Disconnected,
}

/// `server` is the one the session is connected to.
pub open spec fn is_current(server: StoredServerView, connected: Option<Seq<char>>) -> bool {
    connected == Some(server.name())
}

/// The label of a server's menu entry.
pub open spec fn entry_label(server: StoredServerView, connected: Option<Seq<char>>) -> Seq<char> {
    if is_current(server, connected) {
        "Disconnect "@ + server.name()
    } else {
        "Connect "@ + server.name()
    }
}

/// What choosing the menu item `id` does, for the servers listed as
/// `servers`.
pub open spec fn tray_choice(
    id: usize,
    servers: Seq<StoredServerView>,
    connected: Option<Seq<char>>,
) -> Option<CommandView> {
    if id >= IDM_SERVER_BASE && id - IDM_SERVER_BASE < servers.len() {
        let s = servers[id - IDM_SERVER_BASE];
        if is_current(s, connected) {
            Some(CommandView::Disconnect)
        } else {
            Some(connect_command_for(s, s.name()))
        }
    } else {
        None
    }
}

/// The entries of the "Servers" submenu: one per server, in order, with the
/// identifier `IDM_SERVER_BASE + i`; the server the session is connected to
/// is offered for disconnection, the others for connection.
pub fn tray_menu(servers: &Vec<StoredServer>, connected_server: Option<&str>) -> (m: Vec<
    MenuEntry,
>)
    requires
        servers@.len() + IDM_SERVER_BASE <= usize::MAX,
    ensures
        m@.len() == servers@.len(),
        forall|i: int|
            0 <= i < m@.len() ==> {
                &&& (#[trigger] m@[i]).id == IDM_SERVER_BASE + i
                &&& m@[i].label@ == entry_label(
                    servers_view(servers@)[i],
                    match connected_server {
                        Some(c) => Some(c@),
                        None => None,
                    },
                )
            },
{
    let ghost connected = match connected_server {
        Some(c) => Some(c@),
        None => None,
    };
    let mut m: Vec<MenuEntry> = Vec::new();
    let mut i: usize = 0;
    while i < servers.len()
        invariant
            servers@.len() + IDM_SERVER_BASE <= usize::MAX,
            connected == match connected_server {
                Some(c) => Some(c@),
                None => None,
            },
            i <= servers@.len(),
            m@.len() == i,
            forall|k: int|
                0 <= k < i ==> {
                    &&& (#[trigger] m@[k]).id == IDM_SERVER_BASE + k
                    &&& m@[k].label@ == entry_label(servers_view(servers@)[k], connected)
                },
        decreases servers@.len() - i,
    {
        let name = servers[i].name();
        let current = match connected_server {
            Some(c) => str_eq(c, name.as_str()),
            None => false,
        };
        let label = if current {
            concat("Disconnect ", name.as_str())
        } else {
            concat("Connect ", name.as_str())
        };
        m.push(MenuEntry { id: IDM_SERVER_BASE + i, label });
        i = i + 1;
    }
    m
}

/// What choosing the menu item `selected` does: show the window, quit, send
/// the command that `tray_choice` gives for a server entry, or nothing for
/// any other identifier (the menu was dismissed).
pub fn tray_selection(
    selected: usize,
    servers: &Vec<StoredServer>,
    connected_server: Option<&str>,
) -> (a: TrayAction)
    ensures
        selected == IDM_SHOW ==> a is ShowWindow,
        selected == IDM_QUIT ==> a is Quit,
        selected != IDM_SHOW && selected != IDM_QUIT ==> match tray_choice(
            selected,
            servers_view(servers@),
            match connected_server {
                Some(c) => Some(c@),
                None => None,
            },
        ) {
            Some(c) => (a matches TrayAction::Send(cmd) && cmd@ == c),
            None => a is Nothing,
        },
{
    if selected == IDM_SHOW {
        return TrayAction::ShowWindow;
    }
    if selected == IDM_QUIT {
        return TrayAction::Quit;
    }
    if selected >= IDM_SERVER_BASE {
        let idx = selected - IDM_SERVER_BASE;
        if idx < servers.len() {
            let server = &servers[idx];
            let name = server.name();
            let current = match connected_server {
                Some(c) => str_eq(c, name.as_str()),
                None => false,
            };
            if current {
                return TrayAction::Send(Command::Disconnect);
            } else {
                return TrayAction::Send(connect_command(server, name));
            }
        }
    }
    TrayAction::Nothing
}

/// What a tray notification asks for: the low word of `lparam` names the
/// mouse event; a right click or a context-menu request opens the menu, a
/// double click shows the window.
pub fn tray_notify_action(lparam: isize) -> (a: TrayNotify)
    ensures
        ({
            let event = (lparam as int) % 0x10000;
            &&& a is ShowMenu <==> (event == WM_RBUTTONUP_CODE || event == WM_CONTEXTMENU_CODE)
            &&& a is ShowWindow <==> event == WM_LBUTTONDBLCLK_CODE
        }),
{
    let low = lparam & 0xFFFF;
    assert(low as int == (lparam as int) % 0x10000) by (bit_vector)
        requires
            low == lparam & 0xFFFF,
    ;
    let event = low as u32;
    if event == WM_RBUTTONUP_CODE || event == WM_CONTEXTMENU_CODE {
        TrayNotify::ShowMenu
    } else if event == WM_LBUTTONDBLCLK_CODE {
        TrayNotify::ShowWindow
    } else {
        TrayNotify::Nothing
    }
}

/// The commands sent before the application quits: the connection is
/// closed first.
pub fn quit_commands() -> (c: Vec<Command>)
    ensures
        c@.map_values(|x: Command| x@) == seq![CommandView::Disconnect],
{
    let mut c: Vec<Command> = Vec::new();
    c.push(Command::Disconnect);
    proof {
        assert(c@.map_values(|x: Command| x@) =~= seq![CommandView::Disconnect]);
    }
    c
}

/// The icon for the connection state.
pub fn tray_icon(connected: bool) -> (i: TrayIcon)
    ensures
        i is Connected <==> connected,
{
    if connected {
        TrayIcon::Connected
    } else {
        TrayIcon::Disconnected
    }
}

/// The tooltip of the tray icon as it is copied into a buffer of `capacity`
/// units: "OpenConnect VPN" in UTF-16 with its terminating zero, cut to the
/// capacity.
pub fn tray_tooltip(capacity: usize) -> (t: Vec<u16>)
    ensures
        ({
            let full = utf16_encoded("OpenConnect VPN"@).push(0u16);
            &&& t@.len() == if capacity < full.len() {
                capacity as int
            } else {
                full.len() as int
            }
            &&& t@ == full.take(t@.len() as int)
        }),
{
    let full = to_utf16("OpenConnect VPN");
    let n = if capacity < full.len() {
        capacity
    } else {
        full.len()
    };
    let mut t: Vec<u16> = Vec::new();
    let mut i: usize = 0;
    while i < n
        invariant
            n <= full@.len(),
            i <= n,
            t@ == full@.take(i as int),
        decreases n - i,
    {
        t.push(full[i]);
        proof {
            assert(full@.take(i + 1) =~= full@.take(i as int).push(full@[i as int]));
        }
        i = i + 1;
    }
    t
}

/// The entry of the server the session is connected to, of either kind, is
/// labelled "Disconnect <name>" and choosing it sends `Disconnect`; every
/// other server's entry is labelled "Connect <name>" and choosing it sends
/// the connect command of that server's kind with that name.
pub proof fn lemma_tray_entry(servers: Seq<StoredServerView>, connected: Option<Seq<char>>, i: int)
    requires
        0 <= i < servers.len(),
        IDM_SERVER_BASE + i <= usize::MAX,
    ensures
        ({
            let name = servers[i].name();
            let choice = tray_choice((IDM_SERVER_BASE + i) as usize, servers, connected);
            &&& connected == Some(name) ==> choice == Some(CommandView::Disconnect)
                && entry_label(servers[i], connected) == "Disconnect "@ + name
            &&& connected != Some(name) ==> entry_label(servers[i], connected) == "Connect "@
                + name
            &&& connected != Some(name) && servers[i] is Password ==> choice == Some(
                CommandView::ConnectPassword { server_name: name },
            )
            &&& connected != Some(name) && servers[i] is Oidc ==> choice == Some(
                CommandView::ConnectOidc { server_name: name },
            )
        }),
{
}

/// Identifiers that name neither an entry nor "Show Window" nor "Quit"
/// choose nothing.
pub proof fn lemma_tray_other_ids(id: usize, servers: Seq<StoredServerView>, connected: Option<
    Seq<char>,
>)
    requires
        id < IDM_SERVER_BASE || id >= IDM_SERVER_BASE + servers.len(),
    ensures
        tray_choice(id, servers, connected) is None,
{
}

/// Choosing a server's entry in the menu does what its label says: the
/// entry labelled "Disconnect" sends `Disconnect`, an entry labelled
/// "Connect" sends the connect command for that server.
pub proof fn lemma_menu_label_matches_action(
    servers: Seq<StoredServerView>,
    connected: Option<Seq<char>>,
    i: int,
)
    requires
        0 <= i < servers.len(),
        IDM_SERVER_BASE + i <= usize::MAX,
    ensures
        entry_label(servers[i], connected) == "Disconnect "@ + servers[i].name() <==> tray_choice(
            (IDM_SERVER_BASE + i) as usize,
            servers,
            connected,
        ) == Some(CommandView::Disconnect),
        entry_label(servers[i], connected) == "Connect "@ + servers[i].name() <==> tray_choice(
            (IDM_SERVER_BASE + i) as usize,
            servers,
            connected,
        ) == Some(connect_command_for(servers[i], servers[i].name())),
{
    reveal_strlit("Disconnect ");
    reveal_strlit("Connect ");
    let n = servers[i].name();
    assert(("Disconnect "@ + n)[0] == 'D');
    assert(("Connect "@ + n)[0] == 'C');
    assert(("Disconnect "@ + n) != ("Connect "@ + n));
    let d = connect_command_for(servers[i], n);
    assert(d !is Disconnect);
}

} // verus!
