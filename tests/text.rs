use runcat::startup::{toggle_startup, StartupChange};
use runcat::text::{clock_text, quoted_path, to_wide_null, tooltip_buffer, tooltip_text};

#[test]
fn wide_ascii_with_terminator() {
    assert_eq!(to_wide_null("RunCat"), vec![82, 117, 110, 67, 97, 116, 0]);
    assert_eq!(to_wide_null(""), vec![0]);
}

#[test]
fn wide_non_ascii() {
    assert_eq!(to_wide_null("退出"), vec![0x9000, 0x51FA, 0]);
    assert_eq!(to_wide_null("a😀"), vec![97, 0xD83D, 0xDE00, 0]);
}

#[test]
fn tooltip_buffer_short_text_is_zero_padded() {
    let b = tooltip_buffer("ab");
    assert_eq!(b.len(), 128);
    assert_eq!(&b[..3], &[97, 98, 0]);
    assert!(b[3..].iter().all(|&u| u == 0));
}

#[test]
fn tooltip_buffer_truncates_to_127_units() {
    let long = "x".repeat(200);
    let b = tooltip_buffer(&long);
    assert_eq!(b.len(), 128);
    assert!(b[..127].iter().all(|&u| u == 120));
    assert_eq!(b[127], 0);
}

#[test]
fn tooltip_text_has_one_decimal() {
    assert_eq!(tooltip_text(123), "CPU: 12.3%");
    assert_eq!(tooltip_text(0), "CPU: 0.0%");
    assert_eq!(tooltip_text(1000), "CPU: 100.0%");
    assert_eq!(tooltip_text(7), "CPU: 0.7%");
}

#[test]
fn clock_text_pads_to_two_digits() {
    assert_eq!(clock_text(9, 5, 30), "09:05:30");
    assert_eq!(clock_text(23, 59, 0), "23:59:00");
}

#[test]
fn quoted_executable_path() {
    assert_eq!(quoted_path("C:\\Apps\\run cat.exe"), "\"C:\\Apps\\run cat.exe\"");
}

#[test]
fn startup_toggle_registers_when_absent() {
    match toggle_startup(false, "C:\\r.exe") {
        StartupChange::Register(cmd) => assert_eq!(cmd, "\"C:\\r.exe\""),
        StartupChange::Unregister => panic!("expected a registration"),
    }
}

#[test]
fn startup_toggle_unregisters_when_present() {
    assert!(matches!(toggle_startup(true, "C:\\r.exe"), StartupChange::Unregister));
}
