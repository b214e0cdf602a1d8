use rs1541fs::number::{
    decimal_string, parse_i32, parse_number, parse_u16, parse_u8, push_right_aligned, push_signed,
    push_two_digits,
};
use rs1541fs::shell::{help_lines, parse_command, report, report_status, ShellCommand};
use rs1541fs::cbmtype::{CbmError, CbmStatus};
use rs1541fs::text;
use rs1541fs::time::{Duration, Instant, SystemTime};

const SAMPLES: [&str; 14] = [
    "", " ", "a", " a b ", "a,b,,c", "\r\n", "a\r\nb\n", "a\n\nb", "\u{a0}x\u{2003}", "ID x ID y",
    "blocks free", "tab\there", "\u{85}", "a\rb",
];

#[test]
fn test_white_space_is_that_of_text() {
    for c in (0..0x11_0000u32).filter_map(char::from_u32) {
        assert_eq!(text::is_white(c), c.is_whitespace(), "{:?}", c);
    }
}

#[test]
fn test_texts_are_cut_as_text_is() {
    for s in SAMPLES {
        assert_eq!(text::trim(s), s.trim());
        assert_eq!(text::trim_end(s), s.trim_end());
        assert_eq!(text::lines(s), s.lines().collect::<Vec<_>>());
        assert_eq!(text::words(s), s.split_whitespace().collect::<Vec<_>>());
        assert_eq!(text::split(s, ','), s.split(',').collect::<Vec<_>>());
        assert_eq!(text::trim_end_char(s, ' '), s.trim_end_matches(' '));
        assert_eq!(text::trim_matches_char(s, ' '), s.trim_matches(' '));
        assert_eq!(text::to_lower(s), s.to_lowercase());
        for part in ["a", "ID ", "blocks free", "\n"] {
            assert_eq!(text::contains(s, part), s.contains(part));
            assert_eq!(text::starts_with(s, part), s.starts_with(part));
            assert_eq!(text::before(s, part), s.split(part).next().unwrap());
            assert_eq!(
                text::second_piece(s, part),
                s.split(part).nth(1).map(|p| p.to_string())
            );
        }
    }
    assert_eq!(text::to_lower("CBM_SFD-1001"), "cbm_sfd-1001");
}

#[test]
fn test_numbers_are_written() {
    for n in [0u64, 7, 10, 99, 100, 65535, u64::MAX] {
        assert_eq!(decimal_string(n), n.to_string());
        let mut s = String::new();
        push_two_digits(&mut s, n);
        assert_eq!(s, format!("{:02}", n));
        let mut s = String::new();
        push_right_aligned(&mut s, n, 4);
        assert_eq!(s, format!("{:4}", n));
    }
    for n in [0, 5, -5, i32::MIN, i32::MAX] {
        let mut s = String::new();
        push_signed(&mut s, n);
        assert_eq!(s, n.to_string());
    }
}

#[test]
fn test_numbers_are_read() {
    for s in [
        "", "0", "+7", "-7", "+", "-", "255", "256", "065", "65535", "65536", "99999999999999999999",
        "1a", " 1", "2147483647", "-2147483648", "-2147483649", "+-1",
    ] {
        assert_eq!(parse_u8(s), s.parse::<u8>().ok(), "{s}");
        assert_eq!(parse_u16(s), s.parse::<u16>().ok(), "{s}");
        assert_eq!(parse_i32(s), s.parse::<i32>().ok(), "{s}");
        assert_eq!(parse_number(s, u64::MAX), s.parse::<u64>().ok(), "{s}");
    }
    for n in [0u64, 8, 42, 255] {
        assert_eq!(parse_u8(&decimal_string(n)), Some(n as u8));
    }
}

#[test]
fn test_spans_are_written() {
    for (secs, nanos) in [
        (0, 0), (5, 0), (0, 1_500_000), (2, 500_000_000), (0, 999), (0, 1_000), (60, 1), (0, 120_000_000),
    ] {
        let expected = format!("{:?}", std::time::Duration::new(secs, nanos));
        assert_eq!(Duration { secs, nanos }.to_string(), expected);
    }
    assert_eq!(Duration::from_millis(1500), Duration { secs: 1, nanos: 500_000_000 });
    assert_eq!(Duration::from_millis(1500).as_millis(), 1500);
    assert!(Duration::from_secs(2).is_longer(&Duration::from_millis(1999)));
}

#[test]
fn test_points_of_time() {
    assert_eq!(Instant { nanos: 9 }.since(&Instant { nanos: 4 }), 5);
    assert_eq!(Instant { nanos: 4 }.since(&Instant { nanos: 9 }), 0);
    let at = |secs: i64| SystemTime::from_unix(secs, 0).unwrap();
    assert!(at(100).is_within(&Duration::from_secs(10), &at(91)));
    assert!(!at(100).is_within(&Duration::from_secs(10), &at(90)));
    assert!(at(100).has_passed(&Duration::from_secs(10), &at(90)));
    assert!(!at(100).has_passed(&Duration::from_secs(10), &at(91)));
    assert!(at(100).has_passed(&Duration::from_secs(10), &at(101)));
    assert!(SystemTime::from_unix(i64::MAX, 0).is_none());
    assert!(SystemTime::from_unix(i64::MIN, 0).is_none());
    assert!(at(-5).is_within(&Duration::from_secs(10), &at(-14)));
    assert!(at(5).has_passed(&Duration::from_secs(10), &at(-5)));
    assert!(SystemTime::from_unix(0, 1_000_000_000).is_none());
}

#[test]
fn test_times_of_zones() {
    let noon = SystemTime::from_unix(1_741_435_200, 5).unwrap();
    assert_eq!(noon.offset_text(0), "Sat Mar 08 12:00:00 +00:00 2025");
    assert_eq!(noon.offset_text(-5 * 3600), "Sat Mar 08 07:00:00 -05:00 2025");
    assert_eq!(noon.offset_text(45 * 1020), "Sun Mar 09 00:45:00 +12:45 2025");
    assert_eq!(noon.offset_text(-86_399), "Fri Mar 07 12:00:01 -23:59:59 2025");
    let start = SystemTime::from_unix(0, 0).unwrap();
    assert_eq!(start.offset_text(0), "Thu Jan 01 00:00:00 +00:00 1970");
    assert_eq!(start.offset_text(-60), "Wed Dec 31 23:59:00 -00:01 1969");
    let end = SystemTime::from_unix(253_402_300_799, 0).unwrap();
    assert_eq!(end.offset_text(0), "Fri Dec 31 23:59:59 +00:00 9999");
    let before = SystemTime::from_unix(-1, 999_999_999).unwrap();
    assert_eq!(before.offset_text(0), "Wed Dec 31 23:59:59 +00:00 1969");
    let last = SystemTime::from_unix(8_210_266_876_799, 999_999_999).unwrap();
    assert_eq!(last.offset_text(0), "Mon Dec 31 23:59:59 +00:00 +262142");
    assert!(last.offset_text(86_399).ends_with("+262143"));
    let first = SystemTime::from_unix(-8_334_601_228_800, 0).unwrap();
    assert!(first.offset_text(-86_399).ends_with("-262144"));
    assert!(SystemTime::from_unix(8_210_266_876_800, 0).is_none());
    assert!(SystemTime::from_unix(-8_334_601_228_801, 0).is_none());
}

#[test]
fn test_shell_commands() {
    for word in ["quit", "exit", "q", "x"] {
        assert!(matches!(parse_command(word), ShellCommand::Quit));
    }
    for word in ["reset", "resetbus", "busreset", "r", "b"] {
        assert!(matches!(parse_command(word), ShellCommand::ResetBus));
    }
    for word in ["u", "usbreset", "resetusb"] {
        assert!(matches!(parse_command(word), ShellCommand::ResetUsb));
    }
    assert!(matches!(parse_command("  id  "), ShellCommand::Identify));
    assert!(matches!(parse_command("s"), ShellCommand::Status));
    assert!(matches!(parse_command(" \t"), ShellCommand::Nothing));
    assert!(matches!(parse_command("?"), ShellCommand::Help));
    assert!(matches!(parse_command("QUIT"), ShellCommand::Unknown));
    match parse_command("cmd  s0:a   b") {
        ShellCommand::Command(s) => assert_eq!(s, "s0:a b"),
        other => panic!("{:?}", other),
    }
    match parse_command("c") {
        ShellCommand::Usage(s) => assert_eq!(s, "Usage: command <cmd-string>"),
        other => panic!("{:?}", other),
    }
    match parse_command("format disk aa") {
        ShellCommand::Format { name, id } => assert_eq!((name.as_str(), id.as_str()), ("disk", "aa")),
        other => panic!("{:?}", other),
    }
    match parse_command("f disk") {
        ShellCommand::Usage(s) => assert_eq!(s, "Usage: format <name> <id>"),
        other => panic!("{:?}", other),
    }
    assert_eq!(help_lines().len(), 9);
    assert_eq!(help_lines()[0], "Available commands:");
}

#[test]
fn test_shell_reports() {
    assert_eq!(report("Bus reset complete", &Ok(())), "Bus reset complete");
    let error = CbmError::TimeoutError { device: 8 };
    assert_eq!(
        report("done", &Err(error)),
        "Error: Device 8: Operation timed out"
    );
    let status = CbmStatus::new("00,OK,00,00", 8);
    assert_eq!(report_status(&status), "Status: 00,OK,00,00");
}
