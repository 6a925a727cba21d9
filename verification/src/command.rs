//! The user-facing commands, the device state the tray shows, and the text
//! lines that report them.
use vstd::prelude::*;

verus! {

/// What an invocation of the command-line tool asks of the microphone.
#[derive(Clone, Copy, Debug, PartialEq, Eq, Structural)]
pub enum Command {
    /// Toggle mute state (default)
    Toggle,
    /// Mute the microphone
    On,
    /// Unmute the microphone
    Off,
    /// Print current mute state
    Status,
    /// Lock the device
    Lock,
    /// Unlock the device
    Unlock,
    /// Print version information
    Version,
}

/// Mute and lock state of the microphone as the tray reports it.
#[derive(Clone, Copy, Debug, PartialEq, Eq, Structural)]
pub struct DeviceState {
    pub muted: bool,
    pub locked: bool,
}

/// Version of this package, as `mv7mute version` reports it.
pub const VERSION: &'static str = "0.1.2";

/// The single line that `mv7mute version` prints.
pub open spec fn version_line() -> Seq<char> {
    "mv7mute "@ + VERSION@
}

/// The line that reports a mute state.
pub open spec fn mute_line(muted: bool) -> Seq<char> {
    if muted {
        "muted"@
    } else {
        "unmuted"@
    }
}

/// The line that reports a lock state.
pub open spec fn lock_line(locked: bool) -> Seq<char> {
    if locked {
        "locked"@
    } else {
        "unlocked"@
    }
}

/// Lines that a command prints without touching the device, if any.
pub open spec fn lines_without_device(command: Command) -> Option<Seq<Seq<char>>> {
    match command {
        Command::Version => Some(seq![version_line()]),
        _ => None,
    }
}

/// The views of a list of printed lines.
pub open spec fn lines_view(lines: Seq<String>) -> Seq<Seq<char>> {
    lines.map_values(|l: String| l@)
}

/// Builds the line that reports a mute state.
pub fn mute_text(muted: bool) -> (s: String)
    ensures
        s@ == mute_line(muted),
{
    if muted {
        "muted".to_owned()
    } else {
        "unmuted".to_owned()
    }
}

/// Builds the line that reports a lock state.
pub fn lock_text(locked: bool) -> (s: String)
    ensures
        s@ == lock_line(locked),
{
    if locked {
        "locked".to_owned()
    } else {
        "unlocked".to_owned()
    }
}

/// Builds the version line.
pub fn version_text() -> (s: String)
    ensures
        s@ == version_line(),
{
    let s = "mv7mute ".to_owned();
    s.concat(VERSION)
}

impl Command {
    /// The lines of a command that needs no device: only `Version` is one.
    pub fn output_without_device(self) -> (lines: Option<Vec<String>>)
        ensures
            match lines {
                Some(v) => lines_without_device(self) == Some(lines_view(v@)),
                None => lines_without_device(self) is None,
            },
    {
        match self {
            Command::Version => {
                let mut v: Vec<String> = Vec::new();
                v.push(version_text());
                assert(lines_view(v@) =~= seq![version_line()]);
                Some(v)
            },
            _ => None,
        }
    }
}

/// The printed lines name the state they report: `muted` exactly for a
/// muted microphone and `locked` exactly for a locked one, and a state and
/// its opposite never print the same line.
pub proof fn lines_name_the_state(muted: bool, locked: bool)
    ensures
        (mute_line(muted) == "muted"@) == muted,
        (mute_line(muted) == "unmuted"@) == !muted,
        (lock_line(locked) == "locked"@) == locked,
        (lock_line(locked) == "unlocked"@) == !locked,
        mute_line(muted) != mute_line(!muted),
        lock_line(locked) != lock_line(!locked),
{
    reveal_strlit("muted");
    reveal_strlit("unmuted");
    reveal_strlit("locked");
    reveal_strlit("unlocked");
    assert("muted"@.len() != "unmuted"@.len());
    assert("locked"@.len() != "unlocked"@.len());
}

} // verus!
