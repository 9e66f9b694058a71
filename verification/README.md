# joy2qlc

Turns joystick and gamepad input into OSC messages for QLC+, system key
presses, HTTP requests or external commands, as a `mappings.toml` file says.

## Layout

- `src/` is the library, written in Verus and verified: the configuration
  model and its lookups, what each action sends, which buttons are held and
  what a press, a release or an axis movement triggers, the OSC and MIDI
  messages, the decoding of incoming OSC packets for display, the terminal
  status panel, and the macOS LaunchAgent file.
- `app/` is the program around it: reading the controller (gilrs), the
  configuration file and its watcher, the UDP socket, key simulation,
  HTTP, the tray icon, and the floating-point arithmetic of axis values.
- `tests/` runs the library on concrete configurations and events.

## Mappings

Each `[[mappings]]` entry has an `input` (`type = "button"` or `"axis"`, and
the `code` gilrs gives the input, such as `South` or `LeftStickX`) and an
`action`:

- `note_on`, `note_off`, `control_change`, `program_change`: an OSC message,
  optionally repeated `count` times with `delay_ms` between sends;
- `control_change_from_axis`: a control change driven by an axis, gated by an
  optional `while_button`; releasing that button sends `release_value`
  (the integer 0 when absent);
- `key`: click a key (`Space`, `Enter`, the arrows, or a single character);
- `rest`: an HTTP request (`method`, `POST` by default; `url`; `body`);
- `exec`: run `cmd` with `args`.
