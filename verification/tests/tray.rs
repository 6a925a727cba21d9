use mv7mute_core::session::Report;
use mv7mute_core::tray::{
    click_toggles_mute, menu_action, menu_command, worker_event, worker_step, MenuAction,
    TrayState, Wakeup, WorkerCommand, WorkerEvent, MENU_ID_QUIT, MENU_ID_REFRESH,
    MENU_ID_TOGGLE, MENU_ID_TOGGLE_LOCK,
};
use mv7mute_core::{DeviceState, Operation};

#[test]
fn tray_starts_waiting_for_first_refresh() {
    let state = TrayState::default();
    assert_eq!(state.device, None);
    assert_eq!(state.last_error.as_deref(), Some("Waiting for first refresh"));
    let labels = state.menu_labels().unwrap();
    assert_eq!(labels.status, "Status: unavailable");
    assert_eq!(labels.lock, "Error: Waiting for first refresh");
    assert_eq!(labels.toggle_lock, "Toggle lock");
    assert_eq!(state.tooltip(), "Waiting for first refresh");
}

#[test]
fn state_update_replaces_error() {
    let mut state = TrayState::default();
    state.apply(WorkerEvent::StateUpdated(DeviceState { muted: true, locked: true }));
    assert_eq!(state.device, Some(DeviceState { muted: true, locked: true }));
    assert_eq!(state.last_error, None);
    let labels = state.menu_labels().unwrap();
    assert_eq!(labels.status, "Status: Muted");
    assert_eq!(labels.lock, "Lock: Locked");
    assert_eq!(labels.toggle_lock, "Unlock device");
    assert_eq!(state.tooltip(), "mv7mute: muted (locked)");
}

#[test]
fn unmuted_unlocked_labels() {
    let mut state = TrayState::default();
    state.apply(WorkerEvent::StateUpdated(DeviceState { muted: false, locked: false }));
    let labels = state.menu_labels().unwrap();
    assert_eq!(labels.status, "Status: Unmuted");
    assert_eq!(labels.lock, "Lock: Unlocked");
    assert_eq!(labels.toggle_lock, "Lock device");
    assert_eq!(state.tooltip(), "mv7mute: unmuted (unlocked)");
}

#[test]
fn error_replaces_state() {
    let mut state = TrayState::default();
    state.apply(WorkerEvent::StateUpdated(DeviceState { muted: true, locked: false }));
    state.apply(WorkerEvent::Error("MV7 not found".to_string()));
    assert_eq!(state.device, None);
    assert_eq!(state.menu_labels().unwrap().lock, "Error: MV7 not found");
    assert_eq!(state.tooltip(), "MV7 not found");
}

#[test]
fn empty_state_keeps_menu_and_names_the_tray() {
    let state = TrayState { device: None, last_error: None };
    assert!(state.menu_labels().is_none());
    assert_eq!(state.tooltip(), "mv7mute tray");
}

#[test]
fn recorded_error_keeps_device_state() {
    let mut state = TrayState { device: Some(DeviceState { muted: false, locked: true }), last_error: None };
    state.record_error("no tray".to_string());
    assert_eq!(state.device, Some(DeviceState { muted: false, locked: true }));
    assert_eq!(state.last_error.as_deref(), Some("no tray"));
}

#[test]
fn menu_ids_map_to_actions() {
    assert_eq!(menu_action(MENU_ID_TOGGLE), Some(MenuAction::Toggle));
    assert_eq!(menu_action("toggle-lock"), Some(MenuAction::ToggleLock));
    assert_eq!(menu_action(MENU_ID_TOGGLE_LOCK), Some(MenuAction::ToggleLock));
    assert_eq!(menu_action(MENU_ID_REFRESH), Some(MenuAction::Refresh));
    assert_eq!(menu_action(MENU_ID_QUIT), Some(MenuAction::Quit));
    assert_eq!(menu_action("status"), None);
    assert_eq!(menu_command(MenuAction::Toggle), Some(WorkerCommand::Toggle));
    assert_eq!(menu_command(MenuAction::ToggleLock), Some(WorkerCommand::ToggleLock));
    assert_eq!(menu_command(MenuAction::Refresh), Some(WorkerCommand::Refresh));
    assert_eq!(menu_command(MenuAction::Quit), None);
}

#[test]
fn only_left_release_toggles() {
    assert!(click_toggles_mute(true, true));
    assert!(!click_toggles_mute(true, false));
    assert!(!click_toggles_mute(false, true));
}

#[test]
fn worker_wakeups_choose_sessions() {
    assert_eq!(worker_step(Wakeup::TimedOut), Some(Operation::QueryState));
    assert_eq!(
        worker_step(Wakeup::Command(WorkerCommand::Refresh)),
        Some(Operation::QueryState)
    );
    assert_eq!(
        worker_step(Wakeup::Command(WorkerCommand::Toggle)),
        Some(Operation::ToggleMute)
    );
    assert_eq!(
        worker_step(Wakeup::Command(WorkerCommand::ToggleLock)),
        Some(Operation::ToggleLock)
    );
    assert_eq!(worker_step(Wakeup::Command(WorkerCommand::Shutdown)), None);
    assert_eq!(worker_step(Wakeup::Disconnected), None);
}

#[test]
fn worker_events_carry_results() {
    let state = DeviceState { muted: true, locked: false };
    match worker_event(Ok(Report::State(state))) {
        WorkerEvent::StateUpdated(s) => assert_eq!(s, state),
        other => panic!("unexpected {other:?}"),
    }
    match worker_event(Err("boom".to_string())) {
        WorkerEvent::Error(e) => assert_eq!(e, "boom"),
        other => panic!("unexpected {other:?}"),
    }
    match worker_event(Ok(Report::Lines(vec!["muted".to_string()]))) {
        WorkerEvent::Error(e) => assert_eq!(e, "Unexpected report from the device"),
        other => panic!("unexpected {other:?}"),
    }
}
