# OGHAB VPN

A VPN client that collects VLESS servers from public lists, finds out which of them work and how
fast they are, and connects to one of them through Xray. It runs on Windows, where it keeps an
Xray process, and on Android, where it talks to a VPN service through a Java class.

The crate is a library whose functions are verified with Verus against the contracts that they
carry:

- `uri`: servers as their VLESS URIs describe them
- `config`, `json`: the configuration that Xray is run with
- `sources`, `fetch`: the lists that are read and the servers that they name
- `scan`, `scan_task`, `probe`: the scan, which server is probed next, and what a probe says
- `manager`, `connect`, `assets`, `xray_log`: the connection, and the process that keeps it
- `bridge`: the calls to the VPN service of Android
- `text`, `platform`: what the others share
- `laws`: what holds of the library as a whole

The library decides; `app/` does. Scans, probes, connections and calls are state machines: the
library says what to do next, the application does it and reports what came of it.
