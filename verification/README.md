# niri night light, verified core

`src/` is a Verus library with the decision logic of niri's night light and of a few
session helpers, each function with a contract that Verus proves:

- `clock` — `HH:MM` clock times and their parser, with the exact error messages.
- `text` — the character-level pieces the parsers share: `str::trim`, `split_once`,
  `split_whitespace().next()` and unsigned integer parsing, specified as Rust defines them.
- `schedule` — the bedtime stage (wrapping midnight), temperature bounds and the switch
  that turns the feature on.
- `gamma_state` — when gamma ramps are sent to the outputs (first tick, external clients,
  reloads).
- `backlight` — honouring manual backlight changes, the sysfs-to-logind fallback, and what
  follows each attempt to apply a ratio.
- `sensor` — stale sensor files and `$XDG_RUNTIME_DIR` paths.
- `login1` — lid switch and sleep messages from logind, and what they amount to over a
  whole run of signals.
- `merge` — how a configuration part overrides settings and switches.
- `service_channel` — the Mutter service channel's client types.
- `spawning` — a child's environment, systemd scope names, and the double-fork handshake.

`app/` is the compositor side: configuration parsing with knuffel, the floating-point
colour temperature, solar and ambient-light models, sysfs and D-Bus I/O, and spawning.
