use rs1541fs::bus_start::{
    BusAction, BusEvent, BusNext, BusReset, BusResetNext, BusStart,
};
use rs1541fs::cbm::CbmDriveUnit;
use rs1541fs::cbmtype::{CbmDeviceType, CbmErrorNumber, CbmFileType};
use rs1541fs::dir::{CbmDirListing, CbmDiskHeader, CbmFileEntry};
use rs1541fs::opencbm::{
    command_stdout, get_xum1541_bus_device_id, run_usbreset, should_retry, usb_reset,
    usbreset_command, BusReply, BusRequest, CallOutcome, CommandOutcome, OpenCbm, OpenCbmError,
    RawReturn, UsbResetNext,
};
use rs1541fs::session::{Cbm, InitSession, Next};
use rs1541fs::start::{
    bus_usb_reset, verify_device_identification, ProbeVerdict, ResetAction, ResetNext, StartAction,
    StartEvent, StartNext, StartSession,
};
use rs1541fs::{parse_lsusb_output, parse_usbreset_output};

const LISTING: &str = "   0 .\"test/demo  1/85 \" 8a 2a\n\
                       20   \"hello\"            prg\n\
                       1    \"notes\"            seq\n\
                       what is this\n\
                       643 blocks free.\n\
                       not read\n";

/// A reply of a drive to a request for its status.
fn status(text: &str) -> BusReply {
    let mut data = text.as_bytes().to_vec();
    data.push(b'\r');
    let n = data.len() as i32;
    BusReply::Got(data, n)
}

/// A reply with bytes that were read, in a buffer of a size.
fn got(bytes: &[u8], size: usize) -> BusReply {
    let mut data = bytes.to_vec();
    data.resize(size, 0);
    BusReply::Got(data, bytes.len() as i32)
}

fn failed() -> BusReply {
    BusReply::Failed(OpenCbmError::Other("broken".to_string()))
}

/// Answers every call of a command as a drive does that works.
fn works(request: &BusRequest) -> BusReply {
    match request {
        BusRequest::Write { data } => BusReply::Wrote(data.len() as i32),
        BusRequest::Status { .. } => status("00,OK,00,00"),
        BusRequest::ToPetscii { text } => BusReply::Converted(in_petscii(text)),
        BusRequest::ToAscii { data } => BusReply::Converted(data.to_ascii_lowercase()),
        _ => BusReply::Done,
    }
}

/// Stands for what the driver makes of a text: of letters, at least, without the shift.
fn in_petscii(text: &str) -> Vec<u8> {
    text.to_ascii_uppercase().into_bytes()
}

#[test]
fn test_listing_is_read() {
    let listing = CbmDirListing::parse(LISTING).unwrap();
    assert_eq!(
        listing.header,
        CbmDiskHeader {
            drive_number: 0,
            name: "test/demo  1/85".to_string(),
            id: "8a".to_string(),
        }
    );
    assert_eq!(listing.blocks_free, 643);
    assert_eq!(listing.num_files(), 3);
    assert_eq!(
        listing.files[0],
        CbmFileEntry::ValidFile {
            blocks: 20,
            filename: "hello".to_string(),
            file_type: CbmFileType::PRG,
        }
    );
    assert_eq!(listing.files[0].max_size(), Some(20 * 254));
    assert_eq!(listing.files[2].max_size(), None);
    assert_eq!(listing.num_blocks_used_valid(), 21);
    assert_eq!(listing.total_blocks(), 664);
    assert_eq!(
        listing.header.to_string(),
        "Drive 0 Header: \"test/demo  1/85\" ID: 8a"
    );
    assert_eq!(
        listing.files[0].to_string(),
        "Filename: \"hello.prg\"                Blocks:  20"
    );
    assert_eq!(
        listing.files[2].to_string(),
        "Invalid entry: what is this (Could not parse line format)"
    );
    assert!(listing.to_string().ends_with("Free blocks: 643\n"));
}

#[test]
fn test_listings_that_fail() {
    let text = |s: &str| CbmDirListing::parse(s).unwrap_err().to_string();
    assert!(text("").contains("Missing header line"));
    assert!(text("no header\n1 blocks free").contains("Invalid header format: no header"));
    assert!(text("300 .\"x\" aa\n1 blocks free").contains("Invalid drive number: 300"));
    assert!(text("0 .\"x\" aa\n1 \"f\" prg\n").contains("Missing blocks free line"));
    assert!(text("0 .\"x\" aa\nblocks free").contains("Invalid blocks free format"));
    assert!(text("0 .\"x\" aa\n70000 blocks free").contains("Invalid blocks free number: 70000"));
    match CbmDirListing::parse_file_entry("70000 \"big\" prg") {
        CbmFileEntry::InvalidFile { error, partial_filename, .. } => {
            assert_eq!(error, "Invalid block count");
            assert_eq!(partial_filename, Some("big".to_string()));
        }
        other => panic!("{:?}", other),
    }
}

#[test]
fn test_groups_of_lines() {
    let groups = |g: &[&str]| Some(g.iter().map(|s| s.to_string()).collect::<Vec<String>>());
    let entry = CbmFileEntry::from_groups("line", groups(&["", " 3 ", "name", "rel"]));
    assert_eq!(
        entry,
        CbmFileEntry::ValidFile {
            blocks: 3,
            filename: "name".to_string(),
            file_type: CbmFileType::REL,
        }
    );
    assert!(matches!(
        CbmFileEntry::from_groups("line", None),
        CbmFileEntry::InvalidFile { .. }
    ));
    let header = CbmDiskHeader::from_groups("line", groups(&["", "1", "disk  ", "id"])).unwrap();
    assert_eq!((header.drive_number, header.name.as_str()), (1, "disk"));
    assert!(CbmDiskHeader::from_groups("line", groups(&["", "1"])).is_err());
    assert_eq!(
        CbmDirListing::blocks_free_from_groups("line", groups(&["", "9"])),
        Ok(9)
    );
}

#[test]
fn test_command_is_sent() {
    let mut session = Cbm::send_command(9, "i0");
    let mut requests = Vec::new();
    loop {
        let request = session.request();
        let reply = works(&request);
        requests.push(format!("{:?}", request));
        match session.next(reply) {
            Next::Ask(s) => session = s,
            Next::Done(r) => {
                assert_eq!(r, Ok(()));
                break;
            }
        }
    }
    assert_eq!(
        requests,
        vec![
            "Listen { device: 9, channel: 15 }",
            "ToPetscii { text: \"i0\" }",
            "Write { data: [73, 48] }",
            "Unlisten",
        ]
    );
}

#[test]
fn test_command_that_fails() {
    let session = Cbm::send_command(9, "i0");
    match session.next(failed()) {
        Next::Done(Err(e)) => assert!(e.to_string().contains("Listen failed: broken")),
        _ => panic!("went on"),
    }
    let session = match Cbm::send_command(9, "i0").next(BusReply::Done) {
        Next::Ask(s) => s,
        Next::Done(_) => panic!("ended"),
    };
    let session = match session.next(BusReply::Converted(vec![73, 48])) {
        Next::Ask(s) => s,
        Next::Done(_) => panic!("ended"),
    };
    match session.next(BusReply::Wrote(1)) {
        Next::Done(Err(e)) => assert!(e.to_string().contains("Failed to write full command")),
        _ => panic!("went on"),
    }
}

#[test]
fn test_disk_commands() {
    match Cbm::format_disk(8, "disk", "a") {
        Next::Done(Err(e)) => assert!(e.to_string().contains("Disk ID must be 2 characters")),
        _ => panic!("went on"),
    }
    let start = match Cbm::format_disk(8, "disk", "aa") {
        Next::Ask(s) => s,
        Next::Done(_) => panic!("ended"),
    };
    for (mut session, bytes) in [
        (start, "N0:disk,aa"),
        (Cbm::delete_file(8, "old"), "S0:old"),
        (Cbm::validate_disk(8), "V"),
    ] {
        let mut written = Vec::new();
        let result = loop {
            let request = session.request();
            let mut reply = works(&request);
            if let BusRequest::Write { data } = &request {
                written = data.clone();
            }
            if let BusRequest::Status { .. } = &request {
                reply = status("26,WRITE PROTECT ON,18,00");
            }
            match session.next(reply) {
                Next::Ask(s) => session = s,
                Next::Done(r) => break r,
            }
        };
        assert_eq!(written, in_petscii(bytes));
        assert!(result.unwrap_err().to_string().contains("26,WRITE PROTECT ON,18,00"));
    }
}

#[test]
fn test_file_is_read_in_chunks() {
    let mut chunks = vec![got(&[], 256), got(&[7; 3], 256), got(&[5; 256], 256)];
    let mut session = Cbm::read_file(8, "file");
    let result = loop {
        let request = session.request();
        let reply = match &request {
            BusRequest::Read { size } => {
                assert_eq!(*size, 256);
                chunks.pop().unwrap()
            }
            other => works(other),
        };
        match session.next(reply) {
            Next::Ask(s) => session = s,
            Next::Done(r) => break r,
        }
    };
    let mut expected = vec![5u8; 256];
    expected.extend([7, 7, 7]);
    assert_eq!(result, Ok(expected));
}

#[test]
fn test_file_is_written_in_chunks() {
    let data: Vec<u8> = (0..600u32).map(|i| i as u8).collect();
    let mut session = Cbm::write_file(8, "file", data.clone());
    let mut written = Vec::new();
    let mut talking = false;
    let result = loop {
        let request = session.request();
        if let BusRequest::Listen { channel, .. } = &request {
            talking = *channel == 2;
        }
        if let (BusRequest::Write { data }, true) = (&request, talking) {
            assert!(data.len() <= 256);
            written.extend_from_slice(data);
        }
        match session.next(works(&request)) {
            Next::Ask(s) => session = s,
            Next::Done(r) => break r,
        }
    };
    assert_eq!(result, Ok(()));
    assert_eq!(written, data);
}

#[test]
fn test_drives_are_initialised() {
    let ignore = vec![CbmErrorNumber::DriveNotReady];
    let mut session = match InitSession::send_init(8, 2, ignore) {
        Next::Ask(s) => s,
        Next::Done(_) => panic!("ended"),
    };
    let mut statuses = vec![status("74,DRIVE NOT READY,00,00"), status("00,OK,00,00")];
    let result = loop {
        let request = session.request();
        let reply = match &request {
            BusRequest::Status { .. } => statuses.pop().unwrap(),
            other => works(other),
        };
        match session.next(reply) {
            Next::Ask(s) => session = s,
            Next::Done(r) => break r,
        }
    };
    let numbers: Vec<u8> = result.unwrap().list.iter().map(|s| s.number).collect();
    assert_eq!(numbers, vec![0, 74]);
}

#[test]
fn test_units_are_free_after_their_calls() {
    let mut unit = CbmDriveUnit::new(9, CbmDeviceType::Cbm4040);
    assert!(unit.reset().is_ok());
    assert!(unit.is_busy());
    assert!(unit.get_status(status("00,OK,00,00")).is_ok());
    assert!(!unit.is_busy());
    assert!(matches!(unit.ask_status(), BusRequest::Status { device: 9 }));
    assert!(unit.is_busy());
    assert!(unit.get_status(failed()).is_err());
    assert!(!unit.is_busy());
    for (text, numbers) in [("00,OK,00,00", Some(vec![0, 0])), ("21,READ ERROR,18,00", None)] {
        let mut next = unit.send_init(vec![]);
        assert!(unit.is_busy());
        let result = loop {
            match next {
                Next::Ask(session) => {
                    assert!(unit.is_busy());
                    let reply = match &session.request() {
                        BusRequest::Status { device: 9 } => status(text),
                        other => works(other),
                    };
                    next = unit.init_next(session, reply);
                }
                Next::Done(result) => break result,
            }
        };
        assert!(!unit.is_busy());
        let found: Option<Vec<u8>> =
            result.ok().map(|statuses| statuses.list.iter().map(|s| s.number).collect());
        assert_eq!(found, numbers);
    }
    unit.send_init(vec![]);
    assert_eq!(
        unit.init_panicked(Some("gone")).to_string(),
        "Device 0: Device error: Panic in opencbm: gone"
    );
    assert!(!unit.is_busy());
}

#[test]
fn test_statuses() {
    let reply = status("00,OK,00,00");
    assert_eq!(Cbm::get_status(8, reply).unwrap().to_string(), "00,OK,00,00");
    assert!(Cbm::get_status(8, failed()).is_err());
    assert!(Cbm::get_status(8, BusReply::NoHandle).is_err());
    assert_eq!(Cbm::reset_bus(BusReply::Done), Ok(()));
    assert!(Cbm::reset_bus(failed()).is_err());
    assert!(Cbm::identify(8, failed()).is_err());
}

/// The bytes of a directory as a drive sends them.
fn dir_bytes() -> Vec<u8> {
    let mut bytes = vec![1, 4];
    for (size, text) in [(0u16, ".\"DISK            \" ID 2A"), (7, "\"FILE\"   PRG"), (657, "BLOCKS FREE.")] {
        bytes.extend([1, 1]);
        bytes.extend(size.to_le_bytes());
        bytes.extend(text.as_bytes());
        bytes.push(0);
    }
    bytes
}

#[test]
fn test_directory_is_read() {
    let mut session = match Cbm::dir(8, Some(0)) {
        Next::Ask(s) => s,
        Next::Done(_) => panic!("ended"),
    };
    let bytes = dir_bytes();
    let mut at = 0;
    let mut opened = String::new();
    let mut names = Vec::new();
    let result = loop {
        let request = session.request();
        let reply = match &request {
            BusRequest::Open { name, .. } => {
                opened = name.clone();
                BusReply::Done
            }
            BusRequest::Read { size } => {
                let end = (at + size).min(bytes.len());
                let reply = got(&bytes[at..end], *size);
                at = end;
                reply
            }
            BusRequest::ToAscii { data } => {
                names.push(data.clone());
                works(&request)
            }
            other => works(other),
        };
        match session.next(reply) {
            Next::Ask(s) => session = s,
            Next::Done(r) => break r,
        }
    };
    assert_eq!(opened, "$0");
    assert_eq!(names[1], b"\"FILE\"   PRG");
    let listing = result.unwrap();
    assert_eq!(listing.header.name, "disk");
    assert_eq!(listing.header.id, "id");
    assert_eq!(listing.blocks_free, 657);
    assert_eq!(
        listing.files,
        vec![CbmFileEntry::ValidFile {
            blocks: 7,
            filename: "file".to_string(),
            file_type: CbmFileType::PRG,
        }]
    );
}

#[test]
fn test_directory_that_fails_is_closed() {
    match Cbm::dir(8, Some(2)) {
        Next::Done(Err(e)) => {
            assert!(e.to_string().contains("Invalid drive number 2 - must be 0 or 1"))
        }
        _ => panic!("went on"),
    }
    let mut session = match Cbm::dir(8, None) {
        Next::Ask(s) => s,
        Next::Done(_) => panic!("ended"),
    };
    let mut requests = Vec::new();
    let result = loop {
        let request = session.request();
        let reply = match &request {
            BusRequest::Read { .. } => failed(),
            other => works(other),
        };
        requests.push(request);
        match session.next(reply) {
            Next::Ask(s) => session = s,
            Next::Done(r) => break r,
        }
    };
    assert!(result.unwrap_err().to_string().contains("Failed to read load address: broken"));
    assert!(matches!(requests[requests.len() - 2], BusRequest::Untalk));
    assert!(matches!(requests[requests.len() - 1], BusRequest::Close { .. }));
}

#[test]
fn test_driver_is_opened() {
    let mut session = StartSession::new();
    let mut actions = Vec::new();
    loop {
        actions.push(session.action());
        match session.next(StartEvent::Done) {
            StartNext::Act(s) => session = s,
            StartNext::Open => break,
            StartNext::GiveUp(e) => panic!("{:?}", e),
        }
    }
    assert_eq!(
        actions,
        vec![StartAction::OpenDriver, StartAction::ResetBus, StartAction::Probe]
    );
}

#[test]
fn test_driver_gives_up() {
    let mut session = StartSession::new();
    let mut resets = 0;
    let mut closes = 0;
    let error = loop {
        let event = match session.action() {
            StartAction::CloseDriver => {
                closes += 1;
                StartEvent::Done
            }
            StartAction::Probe => {
                StartEvent::Failed(OpenCbmError::UsbError(Some(-1), "talk".to_string()))
            }
            StartAction::ResetUsb => {
                resets += 1;
                StartEvent::Done
            }
            _ => StartEvent::Done,
        };
        match session.next(event) {
            StartNext::Act(s) => session = s,
            StartNext::Open => panic!("opened"),
            StartNext::GiveUp(e) => break e,
        }
    };
    assert_eq!((resets, closes), (1, 2));
    assert_eq!(error.to_string(), "talk Some(-1)");
}

#[test]
fn test_probes() {
    assert!(matches!(
        verify_device_identification(false, StartEvent::Done),
        ProbeVerdict::Works
    ));
    let unknown = || StartEvent::Failed(OpenCbmError::UnknownDevice(String::new()));
    assert!(matches!(verify_device_identification(false, unknown()), ProbeVerdict::AskAgain));
    assert!(matches!(verify_device_identification(true, unknown()), ProbeVerdict::Works));
    assert!(matches!(
        verify_device_identification(true, StartEvent::Failed(OpenCbmError::ThreadTimeout)),
        ProbeVerdict::Broken(OpenCbmError::ThreadTimeout)
    ));
}

fn action_name(action: &BusAction) -> String {
    match action {
        BusAction::Run(command) => command.clone(),
        other => format!("{:?}", other),
    }
}

/// Opens the bus with the answers that a closure gives, and says what was done for it.
fn open_bus(mut answer: impl FnMut(&BusAction) -> BusEvent) -> (Vec<String>, BusNext) {
    let mut session: BusStart = Cbm::new();
    let mut actions = Vec::new();
    loop {
        let action = session.action();
        actions.push(action_name(&action));
        match session.next(answer(&action)) {
            BusNext::Act(next) => session = next,
            end => return (actions, end),
        }
    }
}

fn works_well(action: &BusAction) -> BusEvent {
    match action {
        BusAction::Run(command) if command == "lsusb" => BusEvent::Ran(ran(0, DEVICES)),
        BusAction::Run(_) => BusEvent::Ran(ran(0, b"xum1541 ok")),
        _ => BusEvent::Done,
    }
}

#[test]
fn test_bus_is_opened() {
    let (actions, end) = open_bus(works_well);
    assert!(matches!(end, BusNext::Open));
    assert_eq!(actions, vec!["OpenDriver", "ResetBus", "Identify"]);
    let (actions, end) = open_bus(|action| match action {
        BusAction::Identify => BusEvent::Failed(OpenCbmError::UnknownDevice(String::new())),
        other => works_well(other),
    });
    assert!(matches!(end, BusNext::Open));
    assert_eq!(actions, vec!["OpenDriver", "ResetBus", "Identify", "Identify"]);
}

#[test]
fn test_bus_is_tried_twice() {
    let (actions, end) = open_bus(|action| match action {
        BusAction::Identify => BusEvent::Failed(OpenCbmError::ThreadTimeout),
        other => works_well(other),
    });
    match end {
        BusNext::GiveUp(e) => assert_eq!(e.to_string(), "Device 0: Operation timed out"),
        other => panic!("{:?}", other),
    }
    let attempt = ["OpenDriver", "ResetBus", "Identify", "Pause", "CloseDriver"];
    let reset = ["Pause", "lsusb", "usbreset 003/017", "Pause"];
    assert_eq!(actions, [&attempt[..], &reset[..], &attempt[..]].concat());
    let mut opened = 0;
    let (actions, end) = open_bus(|action| match action {
        BusAction::OpenDriver => {
            opened += 1;
            if opened == 1 {
                BusEvent::Failed(OpenCbmError::ThreadTimeout)
            } else {
                BusEvent::Done
            }
        }
        other => works_well(other),
    });
    assert!(matches!(end, BusNext::Open));
    assert_eq!(
        actions,
        [
            "OpenDriver",
            "lsusb",
            "usbreset 003/017",
            "Pause",
            "OpenDriver",
            "ResetBus",
            "Identify",
        ]
    );
    let (_, end) = open_bus(|action| match action {
        BusAction::ResetBus => BusEvent::Failed(OpenCbmError::ThreadTimeout),
        BusAction::Run(_) => BusEvent::Ran(ran(0, b"nothing")),
        other => works_well(other),
    });
    match end {
        BusNext::GiveUp(e) => {
            assert_eq!(e.to_string(), "USB error: Failed to parse lsusb output: nothing")
        }
        other => panic!("{:?}", other),
    }
}

#[test]
fn test_adapter_is_reset_under_the_bus() {
    let mut session: BusReset = Cbm::blocking_usb_reset_will_lock();
    let mut actions = Vec::new();
    loop {
        let action = session.action();
        actions.push(action_name(&action));
        match session.next(works_well(&action)) {
            BusResetNext::Act(next) => session = next,
            BusResetNext::Open => break,
            BusResetNext::GiveUp(e) => panic!("{:?}", e),
        }
    }
    assert_eq!(
        actions,
        [
            "CloseDriver",
            "Pause",
            "lsusb",
            "usbreset 003/017",
            "Pause",
            "OpenDriver",
            "ResetBus",
            "Identify",
        ]
    );
}

fn returned(code: i32) -> CallOutcome {
    CallOutcome::Returned(RawReturn {
        code,
        data: vec![1, 2, 3],
        device_type: 4,
        description: "a drive".to_string(),
        os_code: Some(19),
        os_text: "no such device".to_string(),
    })
}

#[test]
fn test_calls_become_replies() {
    assert!(matches!(BusReply::new(&BusRequest::Reset, returned(0)), BusReply::Done));
    match BusReply::new(&BusRequest::Reset, returned(1)) {
        BusReply::Failed(e) => assert_eq!(
            e.to_string(),
            "Cannot access the XUM1541 - is it plugged in?"
        ),
        other => panic!("{:?}", other),
    }
    match BusReply::new(&BusRequest::Read { size: 3 }, returned(2)) {
        BusReply::Got(data, n) => assert_eq!((data, n), (vec![1, 2, 3], 2)),
        other => panic!("{:?}", other),
    }
    match BusReply::new(&BusRequest::Read { size: 3 }, returned(-4)) {
        BusReply::Failed(e) => assert_eq!(e.to_string(), "cbm_raw_read -4"),
        other => panic!("{:?}", other),
    }
    match BusReply::new(&BusRequest::Unlisten, CallOutcome::TimedOut) {
        BusReply::Failed(e) => assert_eq!(e.to_string(), "FFI call timed out"),
        other => panic!("{:?}", other),
    }
    assert!(should_retry(1, 1, Some(libc::ETIMEDOUT)));
    assert!(!should_retry(2, 1, Some(libc::ETIMEDOUT)));
    assert!(!should_retry(1, 1, None));
}

#[test]
fn test_driver_handle() {
    let mut driver = OpenCbm::open_driver(returned(0), 7).unwrap();
    assert!(driver.driver_opened);
    assert!(driver.reset().is_ok());
    assert_eq!(driver.close_driver(), 7);
    assert_eq!(driver.reset().unwrap_err().to_string(), "Invalid handle value");
    assert_eq!(driver.into_raw_values(), (0, true));
    assert!(OpenCbm::open_driver(returned(1), 7).is_err());
}

#[test]
fn test_adapter_is_found() {
    let output = "Bus 001 Device 002: ID 8087:0024 Intel Corp. Hub\n\
                  Bus 003 Device 017: ID 16d0:0504 MCS xum1541\n";
    assert_eq!(
        parse_lsusb_output(output, "16d0", "0504"),
        Some(("003".to_string(), "017".to_string()))
    );
    assert_eq!(parse_lsusb_output(output, "16d0", "0505"), None);
    assert_eq!(
        get_xum1541_bus_device_id(output).unwrap(),
        ("003".to_string(), "017".to_string())
    );
    assert!(get_xum1541_bus_device_id("").is_err());
    assert!(parse_usbreset_output("Resetting xum1541 ... ok\n", "xum1541", "ok"));
    assert!(!parse_usbreset_output("Resetting xum1541 ... failed\n", "xum1541", "ok"));
}

#[test]
fn test_commands_of_the_system() {
    let ran = |code: Option<i32>, out: &[u8]| CommandOutcome::Ran {
        code,
        stdout: out.to_vec(),
        stderr: b"bad".to_vec(),
    };
    assert_eq!(command_stdout("lsusb", ran(Some(0), b"a\xffb")), Ok("a\u{fffd}b".to_string()));
    assert!(command_stdout("lsusb", ran(Some(1), b"")).is_err());
    let command = usbreset_command("003", "017");
    assert!(command.contains("003/017"));
    let not_run = CommandOutcome::NotRun { code: None, error: "missing".to_string() };
    assert!(run_usbreset(&command, not_run).unwrap_err().to_string().contains("missing"));
}

fn ran(code: i32, out: &[u8]) -> CommandOutcome {
    CommandOutcome::Ran { code: Some(code), stdout: out.to_vec(), stderr: b"bad".to_vec() }
}

const DEVICES: &[u8] = b"Bus 001 Device 002: ID 1d6b:0002 hub\n\
    Bus 003 Device 017: ID 16d0:0504 MCS\n";

#[test]
fn test_adapter_is_reset() {
    let s = usb_reset();
    assert_eq!(s.command(), "lsusb");
    let s = match s.next(ran(0, DEVICES)) {
        UsbResetNext::Run(s) => s,
        other => panic!("{:?}", other),
    };
    assert_eq!(s.command(), "usbreset 003/017");
    assert!(matches!(s.next(ran(0, b"Resetting xum1541 ... ok")), UsbResetNext::Finished(Ok(_))));
    let error = |next: UsbResetNext| match next {
        UsbResetNext::Finished(Err(e)) => e,
        other => panic!("{:?}", other),
    };
    assert_eq!(
        error(usb_reset().next(ran(0, b"nothing"))),
        OpenCbmError::UsbError(None, "Failed to parse lsusb output: nothing".to_string())
    );
    assert_eq!(
        error(usb_reset().next(ran(3, DEVICES))),
        OpenCbmError::UsbError(Some(3), "Failed to run lsusb: bad".to_string())
    );
}

#[test]
fn test_adapter_of_the_bus_is_reset() {
    let s = bus_usb_reset(usb_reset(), ran(3, DEVICES)).unwrap().unwrap();
    assert_eq!(s.command(), "usbreset 003/017");
    assert!(bus_usb_reset(s, ran(7, b"xum1541 ok")).unwrap().is_none());
    let missing = CommandOutcome::NotRun { code: Some(2), error: "missing".to_string() };
    assert_eq!(
        bus_usb_reset(usb_reset(), missing).unwrap_err().to_string(),
        "USB error: Failed to run lsusb: missing"
    );
}

#[test]
fn test_adapter_is_reset_under_the_driver() {
    let mut driver = OpenCbm { handle: 7, driver_opened: true };
    let (handle, mut session) = driver.usb_device_reset();
    assert_eq!(handle, 7);
    assert_eq!(driver, OpenCbm { handle: 0, driver_opened: false });
    let mut actions = vec![session.action()];
    while let ResetNext::Act(next) = session.next(StartEvent::Done) {
        actions.push(next.action());
        session = next;
    }
    assert_eq!(
        actions,
        vec![
            ResetAction::CloseDriver,
            ResetAction::Start(StartAction::Pause),
            ResetAction::Start(StartAction::ResetUsb),
            ResetAction::Start(StartAction::Pause),
            ResetAction::Start(StartAction::OpenDriver),
            ResetAction::Start(StartAction::ResetBus),
            ResetAction::Start(StartAction::Probe),
        ]
    );
    driver.reopened(OpenCbm { handle: 9, driver_opened: true });
    assert_eq!(driver, OpenCbm { handle: 9, driver_opened: true });
    let (_, session) = driver.usb_device_reset();
    let lost = OpenCbmError::DriverNotOpen;
    assert!(matches!(
        session.next(StartEvent::Failed(lost)),
        ResetNext::GiveUp(OpenCbmError::DriverNotOpen)
    ));
}
