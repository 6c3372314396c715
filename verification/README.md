# mylauncher

The view logic of a handheld game launcher and of its in-game menu, verified
with Verus.

- `src/` is the verified library:
  - `geom`: points, rectangles, sizes and the stylesheet values layout reads.
  - `style`: label alignment, font sizes and colours named by their role.
  - `text`: decimal formatting of the battery percentage.
  - `battery_indicator`: the status-bar battery indicator — rate-limited
    readings, its label and the placement of its icon.
  - `wifi_icon`: the WiFi icon — its state, what drawing it amounts to and
    the area it covers.
  - `ingame_menu`: layout of the in-game menu and what its keys and entries do.
  - `app`: the launcher's top-level view and the handling of saved state.
  - `input`: buttons and key events.
- `app/` holds what stays outside the proofs: reading the battery, loading
  theme images, floating-point rendering with tiny-skia, state files with
  serde_json, and carrying out menu actions with tokio.
- `tests/` runs the library on concrete values.
