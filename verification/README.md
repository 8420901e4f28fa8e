# qbit-killswitch

A desktop daemon that watches the machine's public IP address and pauses every
qBittorrent transfer when the VPN tunnel drops or the IP changes, resuming them
when the VPN IP comes back.

## Layout

- `src/` — the verified library (Verus):
  - `state.rs` — the displayed states, IP addresses, GUI commands.
  - `config.rs` — settings, defaults, normalisation, validation, password
    resolution, the configuration file's location and loading outcome.
  - `monitor.rs` — the monitor as a state machine: events in, the next outside
    action out (log in, fetch the IP, count, pause, resume); its invariant and laws.
  - `ipcheck.rs` — the fallback sequence over the IP echo services.
  - `qbit.rs` — qBittorrent Web API answers: login verdicts, POST with one
    re-login after a 403, counting downloading torrents.
  - `form.rs` — the settings form and the save sequence (keychain, file).
  - `status.rs` — status bar, tray and window-close decisions.
  - `updater.rs` — release version check, asset choice, checksum verification.
  - `text.rs` — small verified string helpers.
- `app/` — the program: GUI (egui/eframe), tray, HTTP, keychain, files, and the
  async loop that performs the monitor's actions.
- `tests/` — tests of the library.
