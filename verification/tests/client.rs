use rs1541fs::client::args::{Args, ClientOperation};
use rs1541fs::client::error::ClientError;
use rs1541fs::client::launch::{
    check_daemon_health, daemon_path, daemon_pid, ensure_daemon_running, file_name, looked,
    start_error, verify_daemon_process, LaunchEvent, LaunchNext, LaunchSession, LaunchStep,
};
use rs1541fs::client::request::{
    create_request, handle_response, parse_error, send_request, ResponseBuffer, SendEvent,
    SendNext, SendSession, SendStep, MAX_RESPONSE_SIZE,
};
use rs1541fs::cbmtype::CbmError;
use rs1541fs::error::{Error, Fs1541Error};
use rs1541fs::ipc::{Request, Response};
use rs1541fs::time::Instant;
use rs1541fs::validate::{FileMode, PathFacts, UserIds};
use rs1541fs::DEFAULT_DEVICE_NUM;
use std::path::Path;
use tempfile::TempDir;

const DEVICE_MIN_NUM: u8 = rs1541::DEVICE_MIN_NUM;
const DEVICE_MAX_NUM: u8 = rs1541::DEVICE_MAX_NUM;

fn facts_of(path: &Path) -> PathFacts {
    PathFacts {
        exists: path.exists(),
        canonical: match path.canonicalize() {
            Ok(p) => Ok(p.display().to_string()),
            Err(e) => Err(e.to_string()),
        },
        is_dir: path.is_dir(),
        has_entries: match path.read_dir() {
            Ok(mut entries) => Ok(entries.next().is_some()),
            Err(e) => Err(e.to_string()),
        },
        mode: if path.exists() {
            Some(FileMode { mode: 0o700, uid: 1000, gid: 1000 })
        } else {
            None
        },
        user: UserIds { uid: 1000, gid: 1000 },
    }
}

// Helper function to create a temporary directory for mount point tests
fn setup_test_dir() -> TempDir {
    TempDir::new().expect("Failed to create temp directory")
}

/// Validates with what the operating system says of the path that is named.
fn validate_for_test(args: Args) -> Result<Args, String> {
    let path = match &args.operation {
        ClientOperation::Mount { mountpoint, .. } => mountpoint.clone(),
        ClientOperation::Unmount { mountpoint, .. } => mountpoint.clone().unwrap_or_default(),
        _ => String::new(),
    };
    args.validate(&facts_of(Path::new(&path))).map_err(|e| e.to_string())
}

#[test]
fn test_default_mount_device_number() {
    let temp_dir = setup_test_dir();
    let mount_path = temp_dir.path().to_str().unwrap().to_string();

    let args = Args {
        operation: ClientOperation::Mount {
            device: DEFAULT_DEVICE_NUM,
            dummy_formats: false,
            mountpoint: mount_path,
            path: None,
        },
    };

    let validated = validate_for_test(args).unwrap();
    match validated.operation {
        ClientOperation::Mount { device, .. } => {
            assert_eq!(device, DEFAULT_DEVICE_NUM);
        }
        _ => panic!("Wrong operation type"),
    }
}

#[test]
fn test_valid_device_numbers() {
    let temp_dir = setup_test_dir();
    let mount_path = temp_dir.path().to_str().unwrap().to_string();

    for device in DEVICE_MIN_NUM..=DEVICE_MAX_NUM {
        let args = Args {
            operation: ClientOperation::Mount {
                device,
                dummy_formats: false,
                mountpoint: mount_path.clone(),
                path: None,
            },
        };

        let validated = validate_for_test(args).unwrap();
        match validated.operation {
            ClientOperation::Mount {
                device: validated_device,
                ..
            } => {
                assert_eq!(validated_device, device);
            }
            _ => panic!("Wrong operation type"),
        }
    }
}

#[test]
fn test_invalid_device_numbers() {
    let temp_dir = setup_test_dir();
    let mount_path = temp_dir.path().to_str().unwrap().to_string();

    // Test below minimum
    let args = Args {
        operation: ClientOperation::Mount {
            device: DEVICE_MIN_NUM - 1,
            dummy_formats: false,
            mountpoint: mount_path.clone(),
            path: None,
        },
    };
    assert!(validate_for_test(args).is_err());

    // Test above maximum
    let args = Args {
        operation: ClientOperation::Mount {
            device: DEVICE_MAX_NUM + 1,
            dummy_formats: false,
            mountpoint: mount_path,
            path: None,
        },
    };
    assert!(validate_for_test(args).is_err());
}

#[test]
fn test_identify_device_validation() {
    // Test valid device number
    let args = Args {
        operation: ClientOperation::Identify {
            device: DEFAULT_DEVICE_NUM,
        },
    };
    assert!(validate_for_test(args).is_ok());

    // Test invalid device number
    let args = Args {
        operation: ClientOperation::Identify {
            device: DEVICE_MAX_NUM + 1,
        },
    };
    assert!(validate_for_test(args).is_err());
}

#[test]
fn test_mount_path_validation() {
    let temp_dir = setup_test_dir();
    let mount_path = temp_dir.path().to_str().unwrap().to_string();

    // Test valid mountpoint
    let args = Args {
        operation: ClientOperation::Mount {
            device: DEFAULT_DEVICE_NUM,
            dummy_formats: false,
            mountpoint: mount_path,
            path: None,
        },
    };
    assert!(validate_for_test(args).is_ok());

    // Test nonexistent mountpoint
    let args = Args {
        operation: ClientOperation::Mount {
            device: DEFAULT_DEVICE_NUM,
            dummy_formats: false,
            mountpoint: "/this/path/does/not/exist".to_string(),
            path: None,
        },
    };
    assert!(validate_for_test(args).is_err());
}

#[test]
fn test_unmount_device_or_mountpoint() {
    let temp_dir = setup_test_dir();
    let mount_path = temp_dir.path().to_str().unwrap().to_string();

    // Test with both device and mountpoint (should fail)
    let args = Args {
        operation: ClientOperation::Unmount {
            device: Some(DEFAULT_DEVICE_NUM),
            mountpoint: Some(mount_path.clone()),
            path: None,
        },
    };
    let result = validate_for_test(args);
    assert!(result.is_err());
    assert_eq!(
        result.unwrap_err(),
        "Unmount validation failed | fs1541 error: Configuration error: Only specify --device or mountpoint on unmount"
    );

    // Test with only device (should succeed)
    let args = Args {
        operation: ClientOperation::Unmount {
            device: Some(DEFAULT_DEVICE_NUM),
            mountpoint: None,
            path: None,
        },
    };
    assert!(validate_for_test(args).is_ok());

    // Test with only mountpoint (should succeed)
    let args = Args {
        operation: ClientOperation::Unmount {
            device: None,
            mountpoint: Some(mount_path.clone()),
            path: None,
        },
    };
    assert!(validate_for_test(args).is_ok());

    // Test with invalid device number
    let args = Args {
        operation: ClientOperation::Unmount {
            device: Some(DEVICE_MAX_NUM + 1),
            mountpoint: None,
            path: None,
        },
    };
    assert!(validate_for_test(args).is_err());

    // Test with neither device nor mountpoint (should fail)
    let args = Args {
        operation: ClientOperation::Unmount {
            device: None,
            mountpoint: None,
            path: None,
        },
    };
    let result = validate_for_test(args);
    assert!(result.is_err());
    assert_eq!(
        result.unwrap_err(),
        "Unmount validation failed | fs1541 error: Configuration error: Either --device or mountpoint must be specified for unmount"
    );

    // Test with non-existent mountpoint
    let args = Args {
        operation: ClientOperation::Unmount {
            device: None,
            mountpoint: Some("/this/path/does/not/exist".to_string()),
            path: None,
        },
    };
    assert!(validate_for_test(args).is_err());
}

#[test]
fn test_resetbus_and_kill_no_validation() {
    // Test resetbus (should always succeed)
    let args = Args {
        operation: ClientOperation::Resetbus,
    };
    assert!(validate_for_test(args).is_ok());

    // Test kill (should always succeed)
    let args = Args {
        operation: ClientOperation::Kill,
    };
    assert!(validate_for_test(args).is_ok());
}

#[test]
fn test_operation_logging() {
    let temp_dir = setup_test_dir();
    let mount_path = temp_dir.path().to_str().unwrap().to_string();

    // Test logging for each operation type
    let operations = vec![
        ClientOperation::Resetbus,
        ClientOperation::Mount {
            device: DEFAULT_DEVICE_NUM,
            dummy_formats: false,
            mountpoint: mount_path.clone(),
            path: None,
        },
        ClientOperation::Unmount {
            device: Some(DEFAULT_DEVICE_NUM),
            mountpoint: None,
            path: None,
        },
        ClientOperation::Identify {
            device: DEFAULT_DEVICE_NUM,
        },
        ClientOperation::Kill,
    ];

    for operation in operations {
        // This just ensures logging doesn't panic
        operation.log();
    }
}

#[test]
fn test_operation_log_texts() {
    let mount = ClientOperation::Mount {
        device: 9,
        dummy_formats: true,
        mountpoint: "/mnt".to_string(),
        path: None,
    };
    assert_eq!(mount.log(), "Operation: Mount device 9 at '/mnt' with dummy formats");
    let unmount = ClientOperation::Unmount {
        device: None,
        mountpoint: Some("/mnt".to_string()),
        path: None,
    };
    assert_eq!(unmount.log(), "Operation: Unmount device 0 or mountpoint /mnt");
    assert_eq!(
        ClientOperation::Getstatus { device: 10 }.log(),
        "Operation: Get status of device 10"
    );
    assert_eq!(ClientOperation::Resetbus.log(), "Operation: Reset Bus");
    assert_eq!(ClientOperation::Kill.log(), "Operation: Kill daemon");
}

#[test]
fn test_paths_become_absolute() {
    let temp_dir = setup_test_dir();
    let mut facts = facts_of(temp_dir.path());
    facts.canonical = Ok("/home/disk".to_string());
    let args = Args {
        operation: ClientOperation::Mount {
            device: 8,
            dummy_formats: true,
            mountpoint: "disk".to_string(),
            path: None,
        },
    };
    match args.validate(&facts).unwrap().operation {
        ClientOperation::Mount { device, dummy_formats, mountpoint, path } => {
            assert_eq!(device, 8);
            assert!(dummy_formats);
            assert_eq!(mountpoint, "/home/disk");
            assert_eq!(path, Some("/home/disk".to_string()));
        }
        _ => panic!("Wrong operation type"),
    }
}

#[test]
fn test_verify_daemon_process_invalid_pid() {
    // The process of this number is not found
    let pid = daemon_pid(Ok("99999999\n".to_string())).unwrap();
    assert_eq!(pid, 99999999);
    match verify_daemon_process(None) {
        Err(Error::Fs1541 {
            message: _,
            error: Fs1541Error::Validation(_),
        }) => assert!(true),
        other => panic!("Expected Fs1541Error::Validation, got {:?}", other),
    }
}

#[test]
fn test_daemon_process_is_known_by_its_program() {
    assert!(verify_daemon_process(Some("1541fsd\0args")).is_ok());
    assert!(verify_daemon_process(Some("/usr/bin/1541fsd\0-f")).is_ok());
    assert!(verify_daemon_process(Some("/usr/bin/1541fs\0")).is_err());
    assert!(verify_daemon_process(Some("")).is_err());
    assert_eq!(
        verify_daemon_process(Some("sh\01541fsd")).unwrap_err().to_string(),
        "Process verification failed | fs1541 error: Validation error: Daemon process not found"
    );
}

#[test]
fn test_file_names_are_those_of_paths() {
    for path in [
        "", "/", ".", "..", "a", "/a", "a/b", "a/b/", "a/b//", "a/b/.", "a/b/./", "a/..", "./a",
        "./.", "a/./b", "../a", "//x//y",
    ] {
        let expected = Path::new(path).file_name().map(|n| n.to_str().unwrap().to_string());
        assert_eq!(file_name(path), expected, "{path}");
    }
}

#[test]
fn test_daemon_paths_are_joined() {
    for dir in ["", "/opt", "/opt/", "bin", "/"] {
        let expected = Path::new(dir).join("1541fsd").display().to_string();
        assert_eq!(daemon_path(dir), expected);
    }
}

#[test]
fn test_pid_files() {
    assert_eq!(daemon_pid(Ok(" 17 \n".to_string())), Ok(17));
    assert_eq!(daemon_pid(Ok("4294967295".to_string())), Ok(4294967295));
    for bad in ["", "x", "-1", "4294967296", "1 2"] {
        assert_eq!(
            daemon_pid(Ok(bad.to_string())).unwrap_err().to_string(),
            "Failed to parse PID | fs1541 error: Validation error: Invalid PID file content"
        );
    }
    assert_eq!(
        daemon_pid(Err("no such file".to_string())).unwrap_err().to_string(),
        "Failed to read PID file | fs1541 error: Validation error: no such file"
    );
}

#[test]
fn test_daemon_health() {
    assert!(check_daemon_health(Ok(Response::Pong)).is_ok());
    let error = check_daemon_health(Ok(Response::Dying)).unwrap_err();
    assert!(error.to_string().contains("Received invalid ping response from server"));
    let lost = Error::Io { message: "lost".to_string(), error: "link".to_string() };
    assert_eq!(
        check_daemon_health(Err(lost)).unwrap_err().to_string(),
        "lost | IO error: link"
    );
}

#[test]
fn test_daemon_startup() {
    let at = |secs: u128| Instant { nanos: secs * 1_000_000_000 };
    let bad = || Err(Error::Io { message: String::new(), error: String::new() });
    let no = || LaunchEvent::Failed { not_found: true, words: "gone".to_string() };
    let act = |next: LaunchNext| -> LaunchSession {
        match next {
            LaunchNext::Act(s) => s,
            other => panic!("{:?}", other),
        }
    };
    let path = "/x/1541fsd";
    let first = ensure_daemon_running(at(1));
    assert_eq!(first.action(), LaunchStep::CheckHealth);
    assert!(matches!(first.next(LaunchEvent::Done, path, at(1)), LaunchNext::Running));
    let launch = act(first.next(no(), path, at(1)));
    assert_eq!(launch.action(), LaunchStep::Launch);
    match launch.next(no(), path, at(1)) {
        LaunchNext::Fail(e) => assert_eq!(
            e.to_string(),
            "Failed to start daemon | fs1541 error: Operation error: Daemon executable '/x/1541fsd' not found"
        ),
        other => panic!("{:?}", other),
    }
    let look = act(launch.next(LaunchEvent::Done, path, at(2)));
    assert_eq!(look.action(), LaunchStep::Look);
    assert!(matches!(look.next(looked(&Ok(()), &Ok(())), path, at(9)), LaunchNext::Running));
    assert_eq!(act(look.next(looked(&bad(), &Ok(())), path, at(2))).action(), LaunchStep::Sleep);
    let sleep = act(look.next(looked(&Ok(()), &bad()), path, at(5)));
    assert_eq!(sleep.action(), LaunchStep::Sleep);
    assert_eq!(act(sleep.next(LaunchEvent::Done, path, at(5))).action(), LaunchStep::Look);
    match sleep.next(LaunchEvent::Done, path, at(6)) {
        LaunchNext::Fail(e) => assert_eq!(
            e.to_string(),
            "Daemon startup failed | fs1541 error: Timeout error: Timed out waiting for daemon to start Timer duration: 5s"
        ),
        other => panic!("{:?}", other),
    }
    assert_eq!(
        start_error("/x/1541fsd", true, "gone".to_string()).to_string(),
        "Failed to start daemon | fs1541 error: Operation error: Daemon executable '/x/1541fsd' not found"
    );
    assert_eq!(
        start_error("/x/1541fsd", false, "denied".to_string()).to_string(),
        "Failed to start daemon | IO error: denied"
    );
}

#[test]
fn test_requests_are_sent() {
    let act = |next: SendNext| -> SendSession {
        match next {
            SendNext::Act(s) => s,
            other => panic!("{:?}", other),
        }
    };
    let failed = |would_block: bool| SendEvent::Failed { would_block, error: "lost".to_string() };
    let words = |next: SendNext| match next {
        SendNext::Fail(e) => e.to_string(),
        other => panic!("{:?}", other),
    };
    let expected = [
        (SendStep::Connect, "Failed to connect to daemon | IO error: lost"),
        (SendStep::SetReadTimeout, "Failed to set read timeout | IO error: lost"),
        (SendStep::SetWriteTimeout, "Failed to set write timeout | IO error: lost"),
        (SendStep::WriteRequest, "Failed to serialize request | Serde error: lost"),
        (SendStep::WriteNewline, "Failed to write newline | IO error: lost"),
        (SendStep::Flush, "Failed to flush request | IO error: lost"),
        (SendStep::Read, "Failed to read response | IO error: lost"),
    ];
    let at = |n: usize| (0..n).fold(send_request(), |s, _| act(s.next(SendEvent::Done)));
    for (i, (step, text)) in expected.into_iter().enumerate() {
        assert_eq!(at(i).action(), step);
        assert_eq!(words(at(i).next(failed(false))), text);
    }
    assert_eq!(
        words(at(6).next(failed(true))),
        "Operation timed out | fs1541 error: Timeout error: Response read timed out Timer duration: 60s"
    );
    let s = act(at(6).next(SendEvent::Part(b"\"Po".to_vec())));
    let s = act(s.next(SendEvent::Part(b"ng\"".to_vec())));
    match s.next(SendEvent::Part(vec![])) {
        SendNext::Parse(data) => assert_eq!(data, "\"Pong\""),
        other => panic!("{:?}", other),
    }
    assert!(words(at(6).next(SendEvent::Part(vec![b' '; MAX_RESPONSE_SIZE + 1])))
        .starts_with("Response size exceeded limit"));
    assert_eq!(
        parse_error("eof".to_string()).to_string(),
        "Failed to parse response | Serde error: eof"
    );
}

#[test]
fn test_create_request_mount() {
    let operation = ClientOperation::Mount {
        device: 8,
        dummy_formats: true,
        mountpoint: "/test/mount".to_string(),
        path: None,
    };

    let request = create_request(operation);
    match request {
        Request::Mount {
            mountpoint,
            device,
            dummy_formats,
            bus_reset,
        } => {
            assert_eq!(mountpoint, "/test/mount");
            assert_eq!(device, 8);
            assert!(dummy_formats);
            assert!(!bus_reset);
        }
        _ => panic!("Expected Mount request"),
    }
}

#[test]
fn test_create_request_unmount() {
    let operation = ClientOperation::Unmount {
        device: Some(8),
        mountpoint: Some("/test/mount".to_string()),
        path: None,
    };

    let request = create_request(operation);
    match request {
        Request::Unmount { mountpoint, device } => {
            assert_eq!(mountpoint, Some("/test/mount".to_string()));
            assert_eq!(device, Some(8));
        }
        _ => panic!("Expected Unmount request"),
    }
}

#[test]
fn test_create_request_unmount_device_only() {
    let operation = ClientOperation::Unmount {
        device: Some(8),
        mountpoint: None,
        path: None,
    };

    let request = create_request(operation);
    match request {
        Request::Unmount { mountpoint, device } => {
            assert_eq!(mountpoint, None);
            assert_eq!(device, Some(8));
        }
        _ => panic!("Expected Unmount request"),
    }
}

#[test]
fn test_create_request_identify() {
    let operation = ClientOperation::Identify { device: 8 };

    let request = create_request(operation);
    match request {
        Request::Identify { device } => {
            assert_eq!(device, 8);
        }
        _ => panic!("Expected Identify request"),
    }
}

#[test]
fn test_create_request_resetbus() {
    let operation = ClientOperation::Resetbus;
    let request = create_request(operation);
    assert!(matches!(request, Request::BusReset));
}

#[test]
fn test_create_request_kill() {
    let operation = ClientOperation::Kill;
    let request = create_request(operation);
    assert!(matches!(request, Request::Die));
}

#[test]
fn test_response_handling() {
    let test_cases = vec![
        (Response::Error("test error".into()), true),
        (Response::MountSuccess, false),
        (Response::UnmountSuccess, false),
        (Response::BusResetSuccess, false),
        (Response::Pong, false),
        (Response::Dying, false),
        (
            Response::Identified {
                device_type: "Test Device".into(),
                description: "Test Description".into(),
            },
            false,
        ),
    ];

    for (response, should_error) in test_cases {
        let result = handle_response(response);
        assert_eq!(result.is_err(), should_error);
    }
}

#[test]
fn test_response_texts() {
    assert_eq!(handle_response(Response::Error("x".into())), Err("x".to_string()));
    assert_eq!(handle_response(Response::MountSuccess), Ok(None));
    assert_eq!(
        handle_response(Response::Identified {
            device_type: "1541".into(),
            description: "1540 or 1541".into(),
        }),
        Ok(Some("Model 1541 Description \"1540 or 1541\"".to_string()))
    );
    assert_eq!(
        handle_response(Response::GotStatus("00,OK,00,00".into())),
        Ok(Some("Status 00,OK,00,00".to_string()))
    );
}

#[test]
fn test_response_is_put_together() {
    let mut buffer = ResponseBuffer::new();
    assert!(buffer.take(b"{\"Got").is_ok());
    assert!(buffer.take(b"Status\":\"\xff\"}").is_ok());
    assert_eq!(buffer.data, "{\"GotStatus\":\"\u{fffd}\"}");

    let mut buffer = ResponseBuffer::new();
    assert!(buffer.take(&vec![b'x'; MAX_RESPONSE_SIZE]).is_ok());
    let error = buffer.take(b"y").unwrap_err();
    assert_eq!(
        error.to_string(),
        "Response size exceeded limit | fs1541 error: Validation error: Response exceeded maximum size of 1048576 bytes"
    );
    assert_eq!(buffer.data.len(), MAX_RESPONSE_SIZE);
    assert_eq!(
        ResponseBuffer::read_error(true, String::new()).to_string(),
        "Operation timed out | fs1541 error: Timeout error: Response read timed out Timer duration: 60s"
    );
    assert_eq!(
        ResponseBuffer::read_error(false, "reset".to_string()).to_string(),
        "Failed to read response | IO error: reset"
    );
}

#[test]
fn test_client_errors() {
    let error = ClientError::from_cbm(CbmError::ValidationError("bad".to_string()));
    assert_eq!(error.to_string(), "Validation error: bad");
    let error = ClientError::from_cbm(CbmError::TimeoutError { device: 8 });
    assert!(error.to_string().starts_with("Internal error: Unepected error from CBM library: "));
    assert_eq!(
        ClientError::Timeout(60).to_string(),
        "Operation timed out after 60 seconds"
    );
    assert_eq!(ClientError::IPC("x".to_string()).to_string(), "IPC error: x");
    assert_eq!(ClientError::Protocol("x".to_string()).to_string(), "Protocol error: x");
    assert_eq!(
        ClientError::DaemonStartup("x".to_string()).to_string(),
        "Daemon failed to start: x"
    );
    assert_eq!(
        ClientError::ConfigurationError("x".to_string()).to_string(),
        "Configuration error: x"
    );
}
