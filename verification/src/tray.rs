//! The decisions of the tray front end: what it shows for a state, what a
//! menu entry or a click asks for, and what its background worker runs.
use vstd::prelude::*;
use vstd::string::*;
use crate::command::DeviceState;
use crate::session::{Operation, Report};

verus! {

/// What the tray knows: the last device state read, or the last error.
#[derive(Clone, Debug)]
pub struct TrayState {
    pub device: Option<DeviceState>,
    pub last_error: Option<String>,
}

/// The message the tray shows before its first refresh.
pub open spec fn waiting_message() -> Seq<char> {
    "Waiting for first refresh"@
}

impl Default for TrayState {
    fn default() -> (s: Self)
        ensures
            s.device is None,
            s.last_error matches Some(e) && e@ == waiting_message(),
    {
        TrayState { device: None, last_error: Some("Waiting for first refresh".to_owned()) }
    }
}

/// What the background worker reports to the tray.
#[derive(Clone, Debug)]
pub enum WorkerEvent {
    StateUpdated(DeviceState),
    Error(String),
}

/// What the tray asks of its background worker.
#[derive(Clone, Copy, Debug, PartialEq, Eq, Structural)]
pub enum WorkerCommand {
    Refresh,
    Toggle,
    ToggleLock,
    Shutdown,
}

/// Why the background worker woke up.
#[derive(Clone, Copy, Debug, PartialEq, Eq, Structural)]
pub enum Wakeup {
    /// The tray sent a command.
    Command(WorkerCommand),
    /// The refresh interval passed without a command.
    TimedOut,
    /// The tray is gone.
    Disconnected,
}

/// The session the worker runs when it wakes up, or `None` when it stops:
/// a refresh, and every interval without a command, reads the state; the
/// toggles run their toggles; a shutdown or a vanished tray stops it.
pub open spec fn worker_operation(w: Wakeup) -> Option<Operation> {
    match w {
        Wakeup::Command(WorkerCommand::Refresh) | Wakeup::TimedOut => Some(Operation::QueryState),
        Wakeup::Command(WorkerCommand::Toggle) => Some(Operation::ToggleMute),
        Wakeup::Command(WorkerCommand::ToggleLock) => Some(Operation::ToggleLock),
        Wakeup::Command(WorkerCommand::Shutdown) | Wakeup::Disconnected => None,
    }
}

/// Decides what the worker does on waking up.
pub fn worker_step(w: Wakeup) -> (op: Option<Operation>)
    ensures
        op == worker_operation(w),
{
    match w {
        Wakeup::Command(WorkerCommand::Refresh) | Wakeup::TimedOut => Some(Operation::QueryState),
        Wakeup::Command(WorkerCommand::Toggle) => Some(Operation::ToggleMute),
        Wakeup::Command(WorkerCommand::ToggleLock) => Some(Operation::ToggleLock),
        Wakeup::Command(WorkerCommand::Shutdown) | Wakeup::Disconnected => None,
    }
}

/// The event the worker reports for the result of a session: the device
/// state it read, or the error it failed with. A report of printed lines,
/// which the worker's sessions never give, is reported as an error.
pub fn worker_event(result: Result<Report, String>) -> (ev: WorkerEvent)
    ensures
        result matches Ok(Report::State(s)) ==> ev matches WorkerEvent::StateUpdated(t) && t == s,
        result matches Err(e) ==> ev matches WorkerEvent::Error(m) && m@ == e@,
        result matches Ok(Report::Lines(_)) ==> ev matches WorkerEvent::Error(m) && m@
            == "Unexpected report from the device"@,
{
    match result {
        Ok(Report::State(s)) => WorkerEvent::StateUpdated(s),
        Ok(Report::Lines(_)) => WorkerEvent::Error("Unexpected report from the device".to_owned()),
        Err(e) => WorkerEvent::Error(e),
    }
}

impl TrayState {
    /// Takes in what the worker reported: a new state clears the error, an
    /// error clears the state.
    pub fn apply(&mut self, event: WorkerEvent)
        ensures
            event matches WorkerEvent::StateUpdated(s) ==> final(self).device == Some(s)
                && final(self).last_error is None,
            event matches WorkerEvent::Error(e) ==> final(self).device is None && (final(self).last_error matches Some(
                m,
            ) && m@ == e@),
    {
        match event {
            WorkerEvent::StateUpdated(state) => {
                self.device = Some(state);
                self.last_error = None;
            },
            WorkerEvent::Error(error) => {
                self.device = None;
                self.last_error = Some(error);
            },
        }
    }

    /// Records an error of the tray itself, keeping the device state.
    pub fn record_error(&mut self, error: String)
        ensures
            final(self).device == old(self).device,
            final(self).last_error matches Some(m) && m@ == error@,
    {
        self.last_error = Some(error);
    }
}

/// The texts of the three informative menu entries.
pub struct MenuLabels {
    pub status: String,
    pub lock: String,
    pub toggle_lock: String,
}

/// The status entry for a device state.
pub open spec fn status_label(s: DeviceState) -> Seq<char> {
    if s.muted {
        "Status: Muted"@
    } else {
        "Status: Unmuted"@
    }
}

/// The lock entry for a device state.
pub open spec fn lock_label(s: DeviceState) -> Seq<char> {
    if s.locked {
        "Lock: Locked"@
    } else {
        "Lock: Unlocked"@
    }
}

/// The lock-toggle entry for a device state: it names what it will do.
pub open spec fn toggle_lock_label(s: DeviceState) -> Seq<char> {
    if s.locked {
        "Unlock device"@
    } else {
        "Lock device"@
    }
}

/// The tooltip for a device state.
pub open spec fn state_tooltip(s: DeviceState) -> Seq<char> {
    "mv7mute: "@ + (if s.muted {
        "muted"@
    } else {
        "unmuted"@
    }) + " ("@ + (if s.locked {
        "locked"@
    } else {
        "unlocked"@
    }) + ")"@
}

impl TrayState {
    /// The menu texts for this state: those of the device state when there
    /// is one, else those of the error when there is one, else none (the
    /// menu is left as it is).
    pub fn menu_labels(&self) -> (labels: Option<MenuLabels>)
        ensures
            match self.device {
                Some(s) => labels matches Some(l) && l.status@ == status_label(s) && l.lock@
                    == lock_label(s) && l.toggle_lock@ == toggle_lock_label(s),
                None => match self.last_error {
                    Some(e) => labels matches Some(l) && l.status@ == "Status: unavailable"@
                        && l.lock@ == "Error: "@ + e@ && l.toggle_lock@ == "Toggle lock"@,
                    None => labels is None,
                },
            },
    {
        match self.device {
            Some(s) => {
                let status = if s.muted {
                    "Status: Muted".to_owned()
                } else {
                    "Status: Unmuted".to_owned()
                };
                let lock = if s.locked {
                    "Lock: Locked".to_owned()
                } else {
                    "Lock: Unlocked".to_owned()
                };
                let toggle_lock = if s.locked {
                    "Unlock device".to_owned()
                } else {
                    "Lock device".to_owned()
                };
                Some(MenuLabels { status, lock, toggle_lock })
            },
            None => match &self.last_error {
                Some(e) => {
                    let lock = "Error: ".to_owned().concat(e.as_str());
                    Some(
                        MenuLabels {
                            status: "Status: unavailable".to_owned(),
                            lock,
                            toggle_lock: "Toggle lock".to_owned(),
                        },
                    )
                },
                None => None,
            },
        }
    }

    /// The tooltip for this state: the device state, else the error, else
    /// the name of the tray.
    pub fn tooltip(&self) -> (t: String)
        ensures
            match self.device {
                Some(s) => t@ == state_tooltip(s),
                None => match self.last_error {
                    Some(e) => t@ == e@,
                    None => t@ == "mv7mute tray"@,
                },
            },
    {
        match self.device {
            Some(s) => {
                let t = "mv7mute: ".to_owned();
                let t = t.concat(
                    if s.muted {
                        "muted"
                    } else {
                        "unmuted"
                    },
                );
                let t = t.concat(" (");
                let t = t.concat(
                    if s.locked {
                        "locked"
                    } else {
                        "unlocked"
                    },
                );
                t.concat(")")
            },
            None => match &self.last_error {
                Some(e) => e.clone(),
                None => "mv7mute tray".to_owned(),
            },
        }
    }
}

/// Id of the menu entry that toggles mute.
pub const MENU_ID_TOGGLE: &'static str = "toggle";

/// Id of the menu entry that toggles the lock.
pub const MENU_ID_TOGGLE_LOCK: &'static str = "toggle-lock";

/// Id of the menu entry that refreshes the state.
pub const MENU_ID_REFRESH: &'static str = "refresh";

/// Id of the menu entry that quits.
pub const MENU_ID_QUIT: &'static str = "quit";

/// What a menu entry asks for.
#[derive(Clone, Copy, Debug, PartialEq, Eq, Structural)]
pub enum MenuAction {
    Toggle,
    ToggleLock,
    Refresh,
    Quit,
}

/// What the menu entry with id `id` asks for (`None` for other ids).
pub open spec fn menu_action_of(id: Seq<char>) -> Option<MenuAction> {
    if id == MENU_ID_TOGGLE@ {
        Some(MenuAction::Toggle)
    } else if id == MENU_ID_TOGGLE_LOCK@ {
        Some(MenuAction::ToggleLock)
    } else if id == MENU_ID_REFRESH@ {
        Some(MenuAction::Refresh)
    } else if id == MENU_ID_QUIT@ {
        Some(MenuAction::Quit)
    } else {
        None
    }
}

/// Decides what a menu event asks for.
pub fn menu_action(id: &str) -> (a: Option<MenuAction>)
    ensures
        a == menu_action_of(id@),
{
    let id = id.to_owned();
    if id == MENU_ID_TOGGLE.to_owned() {
        Some(MenuAction::Toggle)
    } else if id == MENU_ID_TOGGLE_LOCK.to_owned() {
        Some(MenuAction::ToggleLock)
    } else if id == MENU_ID_REFRESH.to_owned() {
        Some(MenuAction::Refresh)
    } else if id == MENU_ID_QUIT.to_owned() {
        Some(MenuAction::Quit)
    } else {
        None
    }
}

/// The worker command a menu action sends, if it sends one (quitting ends
/// the event loop instead).
pub fn menu_command(a: MenuAction) -> (c: Option<WorkerCommand>)
    ensures
        a == MenuAction::Toggle ==> c == Some(WorkerCommand::Toggle),
        a == MenuAction::ToggleLock ==> c == Some(WorkerCommand::ToggleLock),
        a == MenuAction::Refresh ==> c == Some(WorkerCommand::Refresh),
        a == MenuAction::Quit ==> c is None,
{
    match a {
        MenuAction::Toggle => Some(WorkerCommand::Toggle),
        MenuAction::ToggleLock => Some(WorkerCommand::ToggleLock),
        MenuAction::Refresh => Some(WorkerCommand::Refresh),
        MenuAction::Quit => None,
    }
}

/// Whether a click on the tray icon toggles mute: the release of the left
/// button does.
pub fn click_toggles_mute(left_button: bool, released: bool) -> (b: bool)
    ensures
        b == (left_button && released),
{
    left_button && released
}

/// `t` begins with `prefix`.
pub open spec fn begins_with(t: Seq<char>, prefix: Seq<char>) -> bool {
    prefix.len() <= t.len() && t.subrange(0, prefix.len() as int) == prefix
}

/// `t` ends with `suffix`.
pub open spec fn ends_with(t: Seq<char>, suffix: Seq<char>) -> bool {
    suffix.len() <= t.len() && t.subrange(t.len() - suffix.len(), t.len() as int) == suffix
}

/// The menu entries follow the state they show: the status entry says
/// `Muted` exactly when the microphone is muted, the lock entry says
/// `Locked` exactly when it is locked, and the lock toggle offers to unlock
/// exactly a locked microphone; the mute state never changes a lock entry
/// and the lock state never changes the status entry.
pub proof fn menu_labels_follow_the_state(s: DeviceState)
    ensures
        (status_label(s) == "Status: Muted"@) == s.muted,
        (status_label(s) == "Status: Unmuted"@) == !s.muted,
        (lock_label(s) == "Lock: Locked"@) == s.locked,
        (lock_label(s) == "Lock: Unlocked"@) == !s.locked,
        (toggle_lock_label(s) == "Unlock device"@) == s.locked,
        (toggle_lock_label(s) == "Lock device"@) == !s.locked,
{
    reveal_strlit("Status: Muted");
    reveal_strlit("Status: Unmuted");
    reveal_strlit("Lock: Locked");
    reveal_strlit("Lock: Unlocked");
    reveal_strlit("Unlock device");
    reveal_strlit("Lock device");
    assert("Status: Muted"@.len() != "Status: Unmuted"@.len());
    assert("Lock: Locked"@.len() != "Lock: Unlocked"@.len());
    assert("Unlock device"@.len() != "Lock device"@.len());
}

/// The tooltip of a device state names the mute state first and the lock
/// state last, each from its own flag: it begins with `mv7mute: muted `
/// exactly when the microphone is muted (`mv7mute: unmuted ` otherwise) and
/// ends with ` (locked)` exactly when it is locked (` (unlocked)`
/// otherwise).
pub proof fn tooltip_follows_the_state(s: DeviceState)
    ensures
        begins_with(state_tooltip(s), "mv7mute: muted "@) == s.muted,
        begins_with(state_tooltip(s), "mv7mute: unmuted "@) == !s.muted,
        ends_with(state_tooltip(s), " (locked)"@) == s.locked,
        ends_with(state_tooltip(s), " (unlocked)"@) == !s.locked,
{
    reveal_strlit("mv7mute: ");
    reveal_strlit("muted");
    reveal_strlit("unmuted");
    reveal_strlit(" (");
    reveal_strlit("locked");
    reveal_strlit("unlocked");
    reveal_strlit(")");
    reveal_strlit("mv7mute: muted ");
    reveal_strlit("mv7mute: unmuted ");
    reveal_strlit(" (locked)");
    reveal_strlit(" (unlocked)");
    let t = state_tooltip(s);
    let m: Seq<char> = if s.muted { "muted"@ } else { "unmuted"@ };
    let l: Seq<char> = if s.locked { "locked"@ } else { "unlocked"@ };
    assert(t == "mv7mute: "@ + m + " ("@ + l + ")"@);
    if s.muted {
        assert(t.subrange(0, 15) =~= "mv7mute: muted "@);
        assert(t[14] == ' ');
        assert(t.subrange(0, 17)[14] != "mv7mute: unmuted "@[14]);
    } else {
        assert(t.subrange(0, 17) =~= "mv7mute: unmuted "@);
        assert(t.subrange(0, 15)[9] != "mv7mute: muted "@[9]);
    }
    if s.locked {
        assert(t.subrange(t.len() - 9, t.len() as int) =~= " (locked)"@);
        assert(t.subrange(t.len() - 11, t.len() as int)[1] != " (unlocked)"@[1]);
    } else {
        assert(t.subrange(t.len() - 11, t.len() as int) =~= " (unlocked)"@);
        assert(t.subrange(t.len() - 9, t.len() as int)[1] != " (locked)"@[1]);
    }
}

} // verus!
