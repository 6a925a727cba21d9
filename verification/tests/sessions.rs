use mv7mute_core::{run, Action, Command, Event, Operation, Report, Session};
use std::collections::VecDeque;

/// A scripted microphone: it answers reads from a script, records every
/// command line written to it, and fails the writes it is told to fail.
#[derive(Default)]
struct FakeState {
    sent: Vec<String>,
    reads: VecDeque<Result<Option<String>, String>>,
    send_failures: Vec<(String, String)>,
}

impl FakeState {
    fn scripted(reads: Vec<Result<Option<&str>, &str>>) -> Self {
        FakeState {
            sent: Vec::new(),
            reads: reads
                .into_iter()
                .map(|entry| match entry {
                    Ok(Some(value)) => Ok(Some(value.to_string())),
                    Ok(None) => Ok(None),
                    Err(error) => Err(error.to_string()),
                })
                .collect(),
            send_failures: Vec::new(),
        }
    }

    fn send(&mut self, cmd: &str) -> Result<(), String> {
        self.sent.push(cmd.to_string());
        if let Some(index) = self.send_failures.iter().position(|(c, _)| c == cmd) {
            let (_, error) = self.send_failures.remove(index);
            return Err(error);
        }
        Ok(())
    }

    fn read(&mut self) -> Result<Option<String>, String> {
        self.reads.pop_front().unwrap_or(Ok(None))
    }
}

/// Runs a session against the scripted microphone, with a clock that moves
/// by the read timeout on every read.
fn drive(mut session: Session, fake: &mut FakeState) -> Result<Report, String> {
    let mut now: u64 = 0;
    loop {
        match session.action() {
            Action::OpenDevice => session.advance(Event::Opened(Ok(())), now),
            Action::Send(cmd) => {
                let result = fake.send(&cmd);
                session.advance(Event::Sent(result), now);
            }
            Action::Read(timeout) => {
                let result = fake.read();
                now += timeout as u64;
                session.advance(Event::Received(result), now);
            }
            Action::Done(result) => return result,
        }
    }
}

fn lines(result: Result<Report, String>) -> Result<Vec<String>, String> {
    result.map(|report| match report {
        Report::Lines(lines) => lines,
        Report::State(state) => panic!("unexpected state report {state:?}"),
    })
}

fn run_scripted(
    command: Command,
    reads: Vec<Result<Option<&'static str>, &'static str>>,
) -> (Result<Vec<String>, String>, FakeState) {
    let mut fake = FakeState::scripted(reads);
    let result = lines(drive(run(command), &mut fake));
    (result, fake)
}

fn run_with_failures(
    command: Command,
    reads: Vec<Result<Option<&'static str>, &'static str>>,
    failures: Vec<(&str, &str)>,
) -> (Result<Vec<String>, String>, FakeState) {
    let mut fake = FakeState::scripted(reads);
    fake.send_failures = failures
        .into_iter()
        .map(|(c, e)| (c.to_string(), e.to_string()))
        .collect();
    let result = lines(drive(run(command), &mut fake));
    (result, fake)
}

const LOCKED_DEVICE: [&str; 4] = ["su=adm", "dspBooted", "lock=on", "micMute=off"];

fn locked_device_reads() -> Vec<Result<Option<&'static str>, &'static str>> {
    LOCKED_DEVICE.iter().map(|r| Ok(Some(*r))).collect()
}

#[test]
fn toggle_restores_lock_when_device_started_locked() {
    let (result, state) = run_scripted(
        Command::Toggle,
        vec![
            Ok(Some("su=adm")),
            Ok(Some("dspBooted")),
            Ok(Some("lock=on")),
            Ok(Some("micMute=off")),
        ],
    );

    assert_eq!(result.unwrap(), vec!["muted"]);
    assert_eq!(
        state.sent,
        vec![
            "su adm",
            "bootDSP C",
            "lock",
            "lock off",
            "micMute",
            "micMute on",
            "lock on"
        ]
    );
}

#[test]
fn toggle_does_not_relock_when_device_started_unlocked() {
    let (result, state) = run_scripted(
        Command::Toggle,
        vec![
            Ok(Some("su=adm")),
            Ok(Some("dspBooted")),
            Ok(Some("lock=off")),
            Ok(Some("micMute=off")),
        ],
    );

    assert_eq!(result.unwrap(), vec!["muted"]);
    assert_eq!(
        state.sent,
        vec!["su adm", "bootDSP C", "lock", "micMute", "micMute on"]
    );
}

#[test]
fn unlock_leaves_device_unlocked() {
    let (result, state) = run_scripted(
        Command::Unlock,
        vec![
            Ok(Some("su=adm")),
            Ok(Some("dspBooted")),
            Ok(Some("lock=on")),
        ],
    );

    assert_eq!(result.unwrap(), vec!["unlocked"]);
    assert_eq!(
        state.sent,
        vec!["su adm", "bootDSP C", "lock", "lock off", "lock off"]
    );
}

#[test]
fn lock_leaves_device_locked_without_extra_restore() {
    let (result, state) = run_scripted(
        Command::Lock,
        vec![
            Ok(Some("su=adm")),
            Ok(Some("dspBooted")),
            Ok(Some("lock=on")),
        ],
    );

    assert_eq!(result.unwrap(), vec!["locked"]);
    assert_eq!(
        state.sent,
        vec!["su adm", "bootDSP C", "lock", "lock off", "lock on"]
    );
}

#[test]
fn status_restores_lock_and_reports_original_state() {
    let (result, state) = run_scripted(
        Command::Status,
        vec![
            Ok(Some("su=adm")),
            Ok(Some("dspBooted")),
            Ok(Some("lock=on")),
            Ok(Some("micMute=on")),
        ],
    );

    assert_eq!(result.unwrap(), vec!["muted", "locked"]);
    assert_eq!(state.sent.last().map(String::as_str), Some("lock on"));
}

#[test]
fn version_returns_package_version_without_device_io() {
    let mut fake = FakeState::scripted(vec![]);
    let result = lines(drive(run(Command::Version), &mut fake));

    assert_eq!(result.unwrap(), vec![format!("mv7mute {}", "0.1.2")]);
    assert!(fake.sent.is_empty());
}

#[test]
fn toggle_read_failure_still_attempts_relock() {
    let (result, state) = run_scripted(
        Command::Toggle,
        vec![
            Ok(Some("su=adm")),
            Ok(Some("dspBooted")),
            Ok(Some("lock=on")),
            Err("read failed"),
        ],
    );

    assert_eq!(result.unwrap_err(), "read failed");
    assert_eq!(state.sent.last().map(String::as_str), Some("lock on"));
}

#[test]
fn toggle_write_failure_still_attempts_relock() {
    let (result, state) = run_with_failures(
        Command::Toggle,
        vec![
            Ok(Some("su=adm")),
            Ok(Some("dspBooted")),
            Ok(Some("lock=on")),
            Ok(Some("micMute=off")),
        ],
        vec![("micMute on", "write failed")],
    );

    assert_eq!(result.unwrap_err(), "write failed");
    assert_eq!(state.sent.last().map(String::as_str), Some("lock on"));
}

#[test]
fn relock_failure_is_reported_as_command_failure() {
    let (result, _state) = run_with_failures(
        Command::Toggle,
        vec![
            Ok(Some("su=adm")),
            Ok(Some("dspBooted")),
            Ok(Some("lock=on")),
            Ok(Some("micMute=off")),
        ],
        vec![("lock on", "relock failed")],
    );

    assert_eq!(result.unwrap_err(), "Failed to restore lock: relock failed");
}

#[test]
fn command_and_relock_failures_are_both_reported() {
    let (result, _state) = run_with_failures(
        Command::Toggle,
        vec![
            Ok(Some("su=adm")),
            Ok(Some("dspBooted")),
            Ok(Some("lock=on")),
            Ok(Some("micMute=off")),
        ],
        vec![("micMute on", "write failed"), ("lock on", "relock failed")],
    );

    assert_eq!(
        result.unwrap_err(),
        "write failed; additionally failed to restore lock: relock failed"
    );
}

#[test]
fn on_and_off_set_mute_and_relock() {
    let (on, on_state) = run_scripted(Command::On, locked_device_reads());
    assert_eq!(on.unwrap(), vec!["muted"]);
    assert_eq!(
        on_state.sent,
        vec!["su adm", "bootDSP C", "lock", "lock off", "micMute on", "lock on"]
    );
    let (off, off_state) = run_scripted(Command::Off, locked_device_reads());
    assert_eq!(off.unwrap(), vec!["unmuted"]);
    assert_eq!(
        off_state.sent,
        vec!["su adm", "bootDSP C", "lock", "lock off", "micMute off", "lock on"]
    );
}

#[test]
fn toggle_unmutes_a_muted_device() {
    let (result, state) = run_scripted(
        Command::Toggle,
        vec![
            Ok(Some("su=adm")),
            Ok(Some("dspBooted")),
            Ok(Some("lock=off")),
            Ok(Some("micMute=on")),
        ],
    );
    assert_eq!(result.unwrap(), vec!["unmuted"]);
    assert_eq!(state.sent.last().map(String::as_str), Some("micMute off"));
}

#[test]
fn unrelated_messages_are_skipped_while_waiting() {
    let (result, _) = run_scripted(
        Command::Status,
        vec![
            Ok(None),
            Ok(Some("hello")),
            Ok(Some("su=adm")),
            Ok(Some("dspBooted")),
            Ok(Some("noise")),
            Ok(Some("lock=off")),
            Ok(Some("micMute=off")),
        ],
    );
    assert_eq!(result.unwrap(), vec!["unmuted", "unlocked"]);
}

#[test]
fn authentication_timeout_ends_the_session() {
    let (result, state) = run_scripted(Command::Toggle, vec![]);
    assert_eq!(result.unwrap_err(), "Timeout waiting for \"su=adm\"");
    assert_eq!(state.sent, vec!["su adm"]);
}

#[test]
fn lock_query_timeout_is_reported() {
    let (result, state) = run_scripted(
        Command::Status,
        vec![Ok(Some("su=adm")), Ok(Some("dspBooted"))],
    );
    assert_eq!(result.unwrap_err(), "Timeout waiting for lock response");
    assert_eq!(state.sent, vec!["su adm", "bootDSP C", "lock"]);
}

#[test]
fn mute_query_timeout_still_relocks() {
    let (result, state) = run_scripted(
        Command::Status,
        vec![Ok(Some("su=adm")), Ok(Some("dspBooted")), Ok(Some("lock=on"))],
    );
    assert_eq!(result.unwrap_err(), "Timeout waiting for micMute response");
    assert_eq!(state.sent.last().map(String::as_str), Some("lock on"));
}

#[test]
fn open_failure_sends_nothing() {
    let mut session = run(Command::Toggle);
    assert_eq!(session.action(), Action::OpenDevice);
    session.advance(Event::Opened(Err("MV7 not found".to_string())), 0);
    assert_eq!(session.action(), Action::Done(Err("MV7 not found".to_string())));
}

#[test]
fn unlock_failure_during_handshake_does_not_relock() {
    let (result, state) = run_with_failures(
        Command::Toggle,
        locked_device_reads(),
        vec![("lock off", "unlock failed")],
    );
    assert_eq!(result.unwrap_err(), "unlock failed");
    assert_eq!(state.sent, vec!["su adm", "bootDSP C", "lock", "lock off"]);
}

#[test]
fn events_that_do_not_answer_the_action_are_ignored() {
    let mut session = run(Command::Toggle);
    session.advance(Event::Sent(Ok(())), 0);
    assert_eq!(session.action(), Action::OpenDevice);
    session.advance(Event::Opened(Ok(())), 0);
    assert_eq!(session.action(), Action::Send("su adm".to_string()));
    session.advance(Event::Received(Ok(Some("su=adm".to_string()))), 0);
    assert_eq!(session.action(), Action::Send("su adm".to_string()));
}

#[test]
fn finished_session_ignores_events() {
    let mut session = run(Command::Version);
    assert!(session.is_finished());
    session.advance(Event::Opened(Ok(())), 0);
    assert!(session.is_finished());
}

fn state_of(result: Result<Report, String>) -> Result<mv7mute_core::DeviceState, String> {
    result.map(|report| match report {
        Report::State(state) => state,
        Report::Lines(lines) => panic!("unexpected lines {lines:?}"),
    })
}

#[test]
fn tray_query_reports_state_and_relocks() {
    let mut fake = FakeState::scripted(locked_device_reads());
    let state = state_of(drive(mv7mute_core::query_state(), &mut fake)).unwrap();
    assert_eq!(state, mv7mute_core::DeviceState { muted: false, locked: true });
    assert_eq!(fake.sent.last().map(String::as_str), Some("lock on"));
}

#[test]
fn tray_toggle_mute_flips_mute() {
    let mut fake = FakeState::scripted(locked_device_reads());
    let state = state_of(drive(mv7mute_core::toggle_mute_state(), &mut fake)).unwrap();
    assert_eq!(state, mv7mute_core::DeviceState { muted: true, locked: true });
    assert_eq!(
        fake.sent,
        vec!["su adm", "bootDSP C", "lock", "lock off", "micMute", "micMute on", "lock on"]
    );
}

#[test]
fn tray_toggle_lock_unlocks_a_locked_device() {
    let mut fake = FakeState::scripted(locked_device_reads());
    let state = state_of(drive(mv7mute_core::toggle_lock_state(), &mut fake)).unwrap();
    assert_eq!(state, mv7mute_core::DeviceState { muted: false, locked: false });
    assert_eq!(fake.sent, vec!["su adm", "bootDSP C", "lock", "lock off", "micMute"]);
}

#[test]
fn tray_toggle_lock_locks_an_unlocked_device() {
    let mut fake = FakeState::scripted(vec![
        Ok(Some("su=adm")),
        Ok(Some("dspBooted")),
        Ok(Some("lock=off")),
        Ok(Some("micMute=on")),
    ]);
    let state = state_of(drive(mv7mute_core::toggle_lock_state(), &mut fake)).unwrap();
    assert_eq!(state, mv7mute_core::DeviceState { muted: true, locked: true });
    assert_eq!(fake.sent, vec!["su adm", "bootDSP C", "lock", "micMute", "lock on"]);
}

#[test]
fn session_reports_its_operation() {
    assert_eq!(run(Command::Lock).operation(), Operation::Run(Command::Lock));
    assert_eq!(
        mv7mute_core::toggle_lock_state().operation(),
        Operation::ToggleLock
    );
}

/// A microphone with a state: it answers the handshake and the queries from
/// its state, and applies the lock and mute commands.
struct FakeDevice {
    muted: bool,
    locked: bool,
    pending: Option<String>,
    sent: Vec<String>,
}

impl FakeDevice {
    fn new(muted: bool, locked: bool) -> Self {
        FakeDevice { muted, locked, pending: None, sent: Vec::new() }
    }

    fn send(&mut self, cmd: &str) {
        self.sent.push(cmd.to_string());
        self.pending = match cmd {
            "su adm" => Some("su=adm".to_string()),
            "bootDSP C" => Some("dspBooted".to_string()),
            "lock" => Some(if self.locked { "lock=on" } else { "lock=off" }.to_string()),
            "micMute" => Some(if self.muted { "micMute=on" } else { "micMute=off" }.to_string()),
            "lock on" => { self.locked = true; None }
            "lock off" => { self.locked = false; None }
            "micMute on" => { self.muted = true; None }
            "micMute off" => { self.muted = false; None }
            _ => None,
        };
    }

    fn drive(&mut self, mut session: Session) -> Result<Report, String> {
        let mut now: u64 = 0;
        loop {
            match session.action() {
                Action::OpenDevice => session.advance(Event::Opened(Ok(())), now),
                Action::Send(cmd) => {
                    self.send(&cmd);
                    session.advance(Event::Sent(Ok(())), now);
                }
                Action::Read(timeout) => {
                    now += timeout as u64;
                    let reply = self.pending.take();
                    session.advance(Event::Received(Ok(reply)), now);
                }
                Action::Done(result) => return result,
            }
        }
    }

    fn state(&self) -> mv7mute_core::DeviceState {
        mv7mute_core::DeviceState { muted: self.muted, locked: self.locked }
    }
}

#[test]
fn two_toggles_restore_a_device() {
    for (muted, locked) in [(false, false), (false, true), (true, false), (true, true)] {
        let mut device = FakeDevice::new(muted, locked);
        let first = state_of(device.drive(mv7mute_core::toggle_mute_state())).unwrap();
        assert_eq!(first, mv7mute_core::DeviceState { muted: !muted, locked });
        assert_eq!(device.state(), first);
        let second = state_of(device.drive(mv7mute_core::toggle_mute_state())).unwrap();
        assert_eq!(second, mv7mute_core::DeviceState { muted, locked });
        assert_eq!(device.state(), second);
    }
}

#[test]
fn lock_toggle_lasts_on_a_device() {
    for (muted, locked) in [(false, false), (true, true)] {
        let mut device = FakeDevice::new(muted, locked);
        let toggled = state_of(device.drive(mv7mute_core::toggle_lock_state())).unwrap();
        assert_eq!(toggled, mv7mute_core::DeviceState { muted, locked: !locked });
        let read = state_of(device.drive(mv7mute_core::query_state())).unwrap();
        assert_eq!(read, toggled);
        assert_eq!(device.state(), toggled);
    }
}

#[test]
fn commands_keep_the_lock_of_a_device() {
    for command in [Command::Toggle, Command::On, Command::Off, Command::Status] {
        for locked in [false, true] {
            let mut device = FakeDevice::new(false, locked);
            lines(device.drive(run(command))).unwrap();
            assert_eq!(device.locked, locked);
        }
    }
}
