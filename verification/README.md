# openconnect_gui_win

A Windows front end for OpenConnect VPN, built around a library verified with
Verus.

- `src/` is the verified library: the stored-server model and the messages
  between the window and the background session (`model`), the main window's
  state and what it shows (`window`), the server editor (`dialog`), reading a
  shared configuration from base64 JSON (`import`, `base64`), the tray menu
  (`tray`), the session's decisions and the OpenID Connect login steps
  (`session`), and the text helpers they share (`text`).
- `app/` is the Win32 program around it: window procedures, controls,
  clipboard, tray icon, the tokio runtime and the calls into
  `openconnect_core` and `openconnect_oidc`.
- `tests/` runs the library on concrete values.
