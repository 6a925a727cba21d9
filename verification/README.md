# mv7mute-core

Verified core of a small toolkit that mutes a Shure MV7 over its USB HID text
protocol, keeping the device locked at rest so that the operating system
cannot reset its mute state.

- `src/` is the library, verified with Verus:
  - `session.rs`: the invocation protocol as a state machine (open, `su adm`,
    `bootDSP C`, read and release the lock, run the command, re-lock, merge
    the results); the driver performs its actions and hands back events.
  - `laws.rs`: properties of the protocol over every history of outcomes
    (re-lock after use, lock and unlock leave the device as asked, toggles
    flip what they read, failures and re-lock failures are both reported,
    sessions are bounded), and, against a model of the microphone, that two
    mute toggles restore its state, a lock toggle lasts, and its lock is kept.
  - `protocol.rs`, `report.rs`, `text.rs`: command lines, reply recognition,
    HID report framing and decoding, string helpers.
  - `merge.rs`, `command.rs`: result merging and printed lines.
  - `tray.rs`, `icon.rs`, `startup.rs`: the tray's decisions, icon tinting,
    and the launch-at-startup command line.
- `app/` is the unverified shell: HID access through `hidapi`, the clock, the
  command line (`clap`), and the tray (`winit`, `tray-icon`), run when the
  executable is started under a name ending in `tray`.
- `tests/` drive the sessions against a scripted microphone.
