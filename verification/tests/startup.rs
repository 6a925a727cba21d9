use mv7mute_core::startup::{
    is_enabled, parse_run_command_path, run_command_for_exe, run_value_matches_current_exe,
    set_enabled, ProbedPath,
};
use std::path::{Path, PathBuf};

fn parse(command: &str) -> Option<PathBuf> {
    parse_run_command_path(command).map(PathBuf::from)
}

fn normalize(path: &Path) -> Result<String, String> {
    path.canonicalize()
        .map(|p| p.to_string_lossy().into_owned())
        .map_err(|error| error.to_string())
}

fn probe(path: &str) -> ProbedPath {
    let path = Path::new(path);
    ProbedPath {
        exists: path.exists(),
        normalized: normalize(path),
    }
}

#[test]
fn parse_run_command_path_handles_empty_string() {
    assert_eq!(parse(""), None);
    assert_eq!(parse("   "), None);
}

#[test]
fn parse_run_command_path_handles_quoted_commands() {
    assert_eq!(
        parse("\"C:\\\\Program Files\\\\mv7mute\\\\tray.exe\" --minimized"),
        Some(PathBuf::from(r"C:\\Program Files\\mv7mute\\tray.exe"))
    );
}

#[test]
fn parse_run_command_path_handles_unquoted_commands() {
    assert_eq!(
        parse(r"C:\mv7mute\tray.exe --minimized"),
        Some(PathBuf::from(r"C:\mv7mute\tray.exe"))
    );
}

#[test]
fn run_value_matches_current_exe_rejects_missing_target() {
    let missing = PathBuf::from(r"C:\definitely-missing\mv7mute-tray.exe");
    let configured =
        parse_run_command_path("\"C:\\definitely-missing\\mv7mute-tray.exe\"").map(|p| probe(&p));
    assert!(!run_value_matches_current_exe(configured, normalize(&missing))
        .expect("missing target should return false"));
}

#[test]
fn parse_run_command_path_rejects_unclosed_quote() {
    assert_eq!(parse("\"C:\\tray.exe --minimized"), None);
}

#[test]
fn parse_run_command_path_trims_unicode_white_space() {
    assert_eq!(
        parse("\u{3000}\ttray.exe\u{a0}--minimized "),
        Some(PathBuf::from("tray.exe"))
    );
    assert_eq!(parse("\u{2003}\u{85}"), None);
}

#[test]
fn run_command_doubles_quotes_in_the_path() {
    assert_eq!(
        run_command_for_exe(r"C:\mv7mute\tray.exe"),
        "\"C:\\mv7mute\\tray.exe\""
    );
    assert_eq!(run_command_for_exe("a\"b"), "\"a\"\"b\"");
    assert_eq!(run_command_for_exe(""), "\"\"");
}

#[test]
fn run_value_decision_follows_the_probe() {
    assert_eq!(run_value_matches_current_exe(None, Ok("x".to_string())), Ok(false));
    let missing = ProbedPath {
        exists: false,
        normalized: Err("gone".to_string()),
    };
    assert_eq!(
        run_value_matches_current_exe(Some(missing), Ok("x".to_string())),
        Ok(false)
    );
    let same = ProbedPath {
        exists: true,
        normalized: Ok("/opt/tray".to_string()),
    };
    assert_eq!(
        run_value_matches_current_exe(Some(same), Ok("/opt/tray".to_string())),
        Ok(true)
    );
    let other = ProbedPath {
        exists: true,
        normalized: Ok("/opt/stale".to_string()),
    };
    assert_eq!(
        run_value_matches_current_exe(Some(other), Ok("/opt/tray".to_string())),
        Ok(false)
    );
    let broken = ProbedPath {
        exists: true,
        normalized: Err("denied".to_string()),
    };
    assert_eq!(
        run_value_matches_current_exe(Some(broken), Err("later".to_string())),
        Err("denied".to_string())
    );
    let fine = ProbedPath {
        exists: true,
        normalized: Ok("/opt/tray".to_string()),
    };
    assert_eq!(
        run_value_matches_current_exe(Some(fine), Err("no exe".to_string())),
        Err("no exe".to_string())
    );
}

#[test]
fn run_value_matches_existing_same_file() {
    let current = PathBuf::from("/");
    let command = format!("\"{}\" --background", current.display());
    let configured = parse_run_command_path(&command).map(|p| probe(&p));
    assert!(run_value_matches_current_exe(configured, normalize(&current)).unwrap());
}

#[test]
fn startup_is_unsupported_off_windows() {
    assert_eq!(is_enabled(), Ok(false));
    assert_eq!(
        set_enabled(true),
        Err("Launch at startup is only supported on Windows".to_string())
    );
}

#[test]
fn written_run_command_names_the_program_again() {
    for exe in [r"C:\Program Files\mv7mute\mv7mute-tray.exe", "/usr/bin/tray", "x"] {
        let command = run_command_for_exe(exe);
        assert_eq!(parse_run_command_path(&command), Some(exe.to_string()));
    }
}
