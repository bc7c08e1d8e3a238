# dialkey (verified platform logic)

The Windows side of DialKey, a software macropad, as a library whose
behaviour is stated in `requires` / `ensures` contracts and proved with
Verus. The Win32 calls themselves (windows, hooks, the registry, GDI) sit
outside; the library holds what they decide:

- `host` — the resident message loop: which message arrived and what the
  loop does about it given which windows are open.
- `typing` — the keyboard hook's key filter (autorepeat), key routing,
  launch feedback, the dial-area rows and how the typing window paints them.
- `mouse_hook`, `mode_runtime` — the launch button, the mode-switch leader
  button, chord arming (only while a typing window is open: the keyboard is
  read at no other time) and the hook health check.
- `search` — the Search window: single window, single launch, the
  tap-alone Open-workdir key, target resolution and layout.
- `settings`, `settings_dispatch`, `settings_save`, `settings_layout`,
  `settings_general`, `settings_keys`, `settings_pages`, `settings_tabs`,
  `settings_restore`, `slots_choice` — the Settings window: tabs, commands,
  forms, saving, the slot-book choice and the layout of every tab.
- `tray`, `hotkey`, `autostart`, `launch_ipc`, `launch_queue`,
  `single_instance`, `shell`, `focus_existing`, `placement`, `locale` — the tray
  menu, the global hotkey, the Run-key autostart, `--launch` hand-off, the
  launch worker's queue, the single-instance mutex, shell-open, bringing an
  open target forward, window placement and the UI locale name.
- `text` — UTF-16 and ASCII text helpers, with the few standard-library
  calls the library relies on.

`app/` holds the process-wide state and the glue to `serde_json`, `anyhow`
and `tracing`.
