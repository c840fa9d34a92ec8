# vpn_desktop

A Linux desktop front end for OpenVPN and the root helper it talks to over a
local Unix socket. The window runs as the user; the helper `vpn-desktopd`
runs as root, starts and stops OpenVPN, and reports its state, its log and
checks of its environment, one JSON message per line.

## Layout

- `src/` — the verified library (Verus):
  - `ipc` — the messages of the helper protocol;
  - `daemon` — the helper's state: its bounded, numbered log, its snapshot,
    its single session, and its answer to each request;
  - `openvpn` — the OpenVPN command line, credentials files, readiness and
    the steps of stopping the process;
  - `health` — the helper's environment report, built from what was observed;
  - `config` — profiles, proxies, selection, file locations, and passwords
    between the configuration and the keyring (they are written to no file);
  - `vpn` — connection requests, the diagnosis of helper failures and the
    decisions of the VPN worker;
  - `ipc_client` — what each helper message means for the window;
  - `app_state` — the window's state and its forms, log and presentation;
  - `text`, `paths` — the string and path operations the rest is built on.
- `tests/` — tests of the library.
- `app/` — the programs: sockets, threads, processes, files, serialization,
  the egui window and the tray icon. The window is `vpn-desktop`; started as
  `vpn-desktopd` or with `--daemon`, the same program is the helper.
