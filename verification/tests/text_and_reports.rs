use mv7mute_core::merge::{merge_results, merge_value_results};
use mv7mute_core::protocol::{Outcome, Request};
use mv7mute_core::report::{decode_report, encode_report, is_mv7_interface, PID, VID};
use mv7mute_core::text::{chars_of, str_contains, trim_str};
use mv7mute_core::command::{lock_text, mute_text, version_text, Command};

#[test]
fn reports_carry_the_command_after_report_id_zero() {
    let report = encode_report("su adm");
    assert_eq!(report.len(), 65);
    assert_eq!(report[0], 0);
    assert_eq!(&report[1..7], b"su adm");
    assert!(report[7..].iter().all(|b| *b == 0));
}

#[test]
fn long_commands_are_cut_to_the_report_size() {
    let long = "x".repeat(80);
    let report = encode_report(&long);
    assert_eq!(report.len(), 65);
    assert!(report[1..].iter().all(|b| *b == b'x'));
}

#[test]
fn messages_end_at_the_first_nul_and_are_trimmed() {
    let mut buf = [0u8; 64];
    buf[..12].copy_from_slice(b"  lock=on \r\n");
    assert_eq!(decode_report(&buf, 64), Some("lock=on".to_string()));
    assert_eq!(decode_report(&buf, 0), None);
    let blank = [b' '; 64];
    assert_eq!(decode_report(&blank, 64), None);
    let full = [b'a'; 64];
    assert_eq!(decode_report(&full, 3), Some("aaa".to_string()));
}

#[test]
fn invalid_utf8_is_replaced() {
    let mut buf = [0u8; 64];
    buf[0] = b'o';
    buf[1] = 0xFF;
    buf[2] = b'k';
    assert_eq!(decode_report(&buf, 64), Some("o\u{FFFD}k".to_string()));
}

#[test]
fn only_the_mv7_text_interface_matches() {
    assert!(is_mv7_interface(0x14ED, 0x1012, 3));
    assert!(is_mv7_interface(VID, PID, 3));
    assert!(!is_mv7_interface(0x14ED, 0x1012, 0));
    assert!(!is_mv7_interface(0x14ED, 0x1013, 3));
    assert!(!is_mv7_interface(0x14EE, 0x1012, 3));
}

#[test]
fn substring_search_and_trim() {
    assert!(str_contains("xx micMute=on yy", "micMute=on"));
    assert!(!str_contains("micMute=of", "micMute=off"));
    assert!(str_contains("abc", ""));
    assert!(!str_contains("lock=off", "lock=on"));
    assert_eq!(trim_str("\u{2028} a b \u{3000}"), "a b");
    assert_eq!(trim_str(" \t "), "");
    assert_eq!(chars_of("héllo"), vec!['h', 'é', 'l', 'l', 'o']);
}

#[test]
fn requests_send_their_command_lines() {
    assert_eq!(Request::Authenticate.command(), "su adm");
    assert_eq!(Request::BootDsp.command(), "bootDSP C");
    assert_eq!(Request::QueryLock.command(), "lock");
    assert_eq!(Request::SetLock(true).command(), "lock on");
    assert_eq!(Request::SetLock(false).command(), "lock off");
    assert_eq!(Request::QueryMute.command(), "micMute");
    assert_eq!(Request::SetMute(true).command(), "micMute on");
    assert_eq!(Request::SetMute(false).command(), "micMute off");
    assert_eq!(Request::Authenticate.window_ms(), Some(3000));
    assert_eq!(Request::BootDsp.window_ms(), Some(5000));
    assert_eq!(Request::QueryLock.window_ms(), Some(2000));
    assert_eq!(Request::SetMute(true).window_ms(), None);
}

#[test]
fn replies_are_read_by_request() {
    assert_eq!(Request::QueryLock.read_reply("lock=on"), Some(Outcome::Flag(true)));
    assert_eq!(Request::QueryLock.read_reply("lock=off"), Some(Outcome::Flag(false)));
    assert_eq!(Request::QueryLock.read_reply("micMute=on"), None);
    assert_eq!(Request::QueryMute.read_reply("micMute=off"), Some(Outcome::Flag(false)));
    assert_eq!(Request::Authenticate.read_reply("su=adm ok"), Some(Outcome::Done));
    assert_eq!(Request::BootDsp.read_reply("su=adm"), None);
    assert_eq!(
        Request::QueryMute.timeout_message(),
        "Timeout waiting for micMute response"
    );
    assert_eq!(
        Request::BootDsp.timeout_message(),
        "Timeout waiting for \"dspBooted\""
    );
}

#[test]
fn merge_keeps_both_messages() {
    let ok: Result<Vec<String>, String> = Ok(vec!["muted".to_string()]);
    assert_eq!(merge_results(ok.clone(), Ok(())), ok);
    assert_eq!(
        merge_results(ok, Err("relock failed".to_string())),
        Err("Failed to restore lock: relock failed".to_string())
    );
    assert_eq!(
        merge_value_results::<u8>(Err("write failed".to_string()), Ok(())),
        Err("write failed".to_string())
    );
    assert_eq!(
        merge_value_results::<u8>(
            Err("write failed".to_string()),
            Err("relock failed".to_string())
        ),
        Err("write failed; additionally failed to restore lock: relock failed".to_string())
    );
}

#[test]
fn report_lines() {
    assert_eq!(mute_text(true), "muted");
    assert_eq!(mute_text(false), "unmuted");
    assert_eq!(lock_text(true), "locked");
    assert_eq!(lock_text(false), "unlocked");
    assert_eq!(version_text(), "mv7mute 0.1.2");
    assert_eq!(
        Command::Version.output_without_device(),
        Some(vec!["mv7mute 0.1.2".to_string()])
    );
    assert_eq!(Command::Toggle.output_without_device(), None);
}
