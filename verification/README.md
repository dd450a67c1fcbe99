# r8-core

Settings tool logic for the 8BitDo Retro R8 mouse adapter, verified with Verus.

- `src/actions.rs`: the side-button actions and their firmware map values.
- `src/config.rs`: the user's settings and their defaults.
- `src/hid.rs`: the vendor HID protocol: request packets, report framing,
  parsing of the DPI, button-map and battery replies.
- `src/firmware.rs`: writing button maps into the firmware with read-back
  verification and one retry, as a state machine driven by the caller.
- `src/remap.rs`: the software remapper's routing of input events and the
  events each action sends.
- `src/status.rs`: the live readings the settings window keeps and shows.
- `app/`: the remapper daemon `r8d` and the hidraw and settings-file I/O.
