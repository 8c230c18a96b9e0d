# vmlaunch

A single-window launcher for a KVM/SPICE virtual machine (`win11`): it starts
the VM through `virsh`, embeds the SPICE display in a GTK4 window, forwards
keyboard, mouse and clipboard, and shuts the VM down when the window closes.

## Layout

- `src/` — the library, verified with Verus:
  - `config` — the window state file: parsing (`key=value` lines, trimmed,
    with dimension limits), rendering, and its location; the round trip
    between the two is proved.
  - `vm` — interpretation of `virsh domstate` and `virsh domdisplay` output,
    and whether starting the VM is needed.
  - `spice::keymap` — GTK/evdev keycodes to XT scancodes.
  - `spice` — the input state of a SPICE session (held keys, button mask,
    channels, framebuffer geometry) and the messages each event calls for;
    `spice::protocol` holds the protocol constants and `spice::clipboard` the
    decisions of the clipboard bridge.
  - `ui` — mouse buttons, the close dialog, the shutdown poll and its
    timeout prompt (the VM is forced off only when the user chooses it), the
    fullscreen shortcut, and the display's render bookkeeping.
  - `text`, `decimal` — characters, whitespace, lines and decimal integers.
- `app/` — the GTK4 program around the library: windows and widgets, the
  `virsh` processes, the SpiceClientGLib calls and callbacks, file I/O, and
  the floating-point pointer mapping.
- `tests/` — tests of the library.
