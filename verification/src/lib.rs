//! Verified core of a Windows front end for OpenConnect VPN: the models of
//! stored servers, the main window, the server editor and the tray menu, the
//! decisions of the background session, and the text codecs they rely on.

pub mod text;
pub mod base64;
pub mod model;
pub mod window;
pub mod dialog;
pub mod import;
pub mod tray;
pub mod session;
