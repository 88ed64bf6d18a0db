# bitwarden_desktop_next

The decision logic of a desktop password-manager client, written in Verus
and proved against its contracts.

- `src/` — the verified library. Each handler takes the app state and an
  event and returns the effect the caller performs (open a window, start an
  SDK call, copy to the clipboard); nothing in it renders or does I/O.
  - `session` — signed-in accounts, the active user, screen, sidebar,
    overlay and toast queue; switching, locking, unlocking, signing out,
    session-timeout plans, OS session events.
  - `platform` — native menu, tray, title bar, window events, key routing,
    the About window and account-switcher events.
  - `window` — per-window flags keyed by window id.
  - `magnify` — the hotkey launcher: sticky search, navigation, copy and
    the stale-decrypt guard.
  - `toast` — toasts and their appear / stay / fade-out timers.
  - `sidebar`, `account_switcher`, `drop_down`, `secret_field`,
    `virtual_list` — the models behind those widgets.
  - `repo` — the in-memory keyed store (read-after-write proved).
  - `totp`, `export`, `backend`, `instance_lock`, `debug_fmt`, `mock`,
    `domain`, `icons`, `ctx` — formatting, naming, start-up and small types.
- `tests/` — executable tests of the library.
- `app/` — a thin shell: single-instance socket I/O, the renderer
  environment and its persisted backend cache, and the floating-point
  visuals.
