# next_tablet_driver

The verified core of NextTabletDriver, a user-space driver for pen tablets.

`src/` is a Verus library. Verus verifies every function in it; each
function's `ensures` states what it returns or changes, except the
constructors of types that have a single value:

- `parsers/` — the vendor report parsers (Acepen, Bosto, FlooGoo, Genius,
  Huion Inspiroy, Lifetec, RobotPen, 10moon, UC-Logic, Veikk, ViewSonic,
  Wacom, XenceLabs, XENX, XP-Pen and the generic layouts). Each parser states
  through `ReportParser::step` the report and next parser state of every
  packet; `create_parser` picks a parser from a configured class name;
  `laws` relates the parsers to each other.
- `report` — the unified `TabletData` report, its view, the hex dump of a
  packet and the byte helpers.
- `tablet` — tablet descriptions, the order in which connected devices are
  tried, and the Base64 initialisation reports.
- `version`, `update` — release versions, the update decision and the
  choice of the installer asset.
- `config`, `domain` — configuration defaults.
- `logger`, `console` — the log whitelist, the bounded log buffer and the
  console's filtered view.
- `state`, `pipeline`, `websocket`, `settings`, `startup` — toast
  notifications, the tip button, the WebSocket server's decisions, profile
  naming and ordering, and the run-at-startup files.

`tests/` runs the library on concrete packets and values.

`app/` is the program around the library: HID access, configuration files,
the WebSocket server, the update download and the floating-point mapping of
pen positions to the screen.
