use rs1541fs::cbmtype::{CbmDeviceInfo, CbmDeviceType, CbmError, CbmStatus};
use rs1541fs::error::{Error, Fs1541Error};
use rs1541fs::ipc::{Request, Response};
use rs1541fs::server::args::{get_effective_level, Args, Level, Levels};
use rs1541fs::server::bg::{OpResponseType, OpType, Priority};
use rs1541fs::server::daemon::{
    async_main, check_pid_file, get_pid_filename, pid_in_file, Daemon, MainEvent, MainNext,
    MainSession, MainStep, Part, PidFile, Progress, Shutdown, Stop,
};
use rs1541fs::server::error::DaemonError;
use rs1541fs::server::ipc::{
    exchange_error, handle_client_request, ClientAction, Exchange, IpcServer,
};
use rs1541fs::server::signal::{OnSignal, SignalHandler};
use rs1541fs::time::Duration;
use rs1541fs::validate::{FileMode, PathFacts, UserIds};

fn facts() -> PathFacts {
    PathFacts {
        exists: true,
        canonical: Ok("/mnt".to_string()),
        is_dir: true,
        has_entries: Ok(false),
        mode: Some(FileMode { mode: 0o700, uid: 7, gid: 7 }),
        user: UserIds { uid: 7, gid: 7 },
    }
}

#[test]
fn test_requests_are_queued() {
    let mount = Request::Mount {
        mountpoint: "/mnt".to_string(),
        device: 9,
        dummy_formats: true,
        bus_reset: false,
    };
    match handle_client_request(mount, &facts()).unwrap() {
        ClientAction::Queue {
            op_type: OpType::Mount { device, mountpoint, dummy_formats, bus_reset },
            priority,
        } => {
            assert_eq!((device, mountpoint.as_str()), (9, "/mnt"));
            assert!(dummy_formats && !bus_reset);
            assert_eq!(priority, Priority::High);
        }
        other => panic!("{:?}", other),
    }
    for (request, expected) in [
        (Request::BusReset, Priority::Critical),
        (Request::Identify { device: 8 }, Priority::Low),
        (Request::GetStatus { device: 8 }, Priority::Low),
        (
            Request::Unmount { mountpoint: Some("/mnt".to_string()), device: None },
            Priority::High,
        ),
    ] {
        match handle_client_request(request, &facts()).unwrap() {
            ClientAction::Queue { priority, .. } => assert_eq!(priority, expected),
            other => panic!("{:?}", other),
        }
    }
    let nothing = Request::Unmount { mountpoint: None, device: None };
    assert!(handle_client_request(nothing, &facts()).is_err());
}

#[test]
fn test_requests_are_answered_at_once() {
    assert!(matches!(
        handle_client_request(Request::Ping, &facts()),
        Ok(ClientAction::Reply(Response::Pong))
    ));
    assert!(matches!(
        handle_client_request(Request::Die, &facts()),
        Ok(ClientAction::ReplyAndDie(Response::Dying))
    ));
}

#[test]
fn test_answers() {
    assert_eq!(Response::from_response(OpResponseType::Mount), Response::MountSuccess);
    assert_eq!(Response::from_response(OpResponseType::Unmount), Response::UnmountSuccess);
    assert_eq!(Response::from_response(OpResponseType::BusReset), Response::BusResetSuccess);
    let info = CbmDeviceInfo {
        device_type: CbmDeviceType::Cbm1581,
        description: "1581".to_string(),
    };
    let identified = Response::from_response(OpResponseType::Identify { info });
    assert_eq!(identified.to_string(), "Device identified: 1581 (1581)");
    let status = CbmStatus::new("00,OK,00,00", 8).unwrap();
    assert_eq!(
        Response::from_response(OpResponseType::GetStatus { status }),
        Response::GotStatus("00,OK,00,00".to_string())
    );
    assert_eq!(
        Response::from_response(OpResponseType::CancelDeviceCache { device: 8 }),
        Response::Error("Unsupported response type".to_string())
    );
    let failed = Error::Fs1541 {
        message: "Mount failure".to_string(),
        error: Fs1541Error::Timeout("slow".to_string(), Duration::from_millis(1500)),
    };
    assert_eq!(
        Response::from_result(Err(failed)),
        Response::Error(
            "Mount failure | fs1541 error: Timeout error: slow Timer duration: 1.5s".to_string()
        )
    );
}

#[test]
fn test_request_texts() {
    let request = Request::Identify { device: 8 };
    assert_eq!(request.clone(), request);
    assert!(request.to_string().contains('8'));
    assert_eq!(Response::Pong.to_string(), "Pong");
    assert_eq!(Response::Dying.to_string(), "Shutting down");
    assert_eq!(Response::Error("x".to_string()).to_string(), "Error: x");
}

#[test]
fn test_errors_are_answered() {
    for (error, errno, text) in [
        (Fs1541Error::Operation("x".into()), libc::EIO, "Operation error: x"),
        (Fs1541Error::Configuration("x".into()), libc::EINVAL, "Configuration error: x"),
        (Fs1541Error::Validation("x".into()), libc::EINVAL, "Validation error: x"),
        (Fs1541Error::AgedOut("x".into()), libc::ETIMEDOUT, "Aged out error: x"),
        (Fs1541Error::Internal("x".into()), libc::EIO, "Internal error: x"),
        (Fs1541Error::Cancelled("x".into()), libc::ECANCELED, "Operation cancelled: x"),
        (Fs1541Error::ReadOnly("x".into()), libc::EROFS, "File x is read only"),
        (Fs1541Error::WriteOnly("x".into()), libc::EACCES, "Write x is read only"),
        (
            Fs1541Error::ReadOrWriteOnly("x".into()),
            libc::EINVAL,
            "Read _or_ write only supported x",
        ),
        (Fs1541Error::FileAccess("x".into()), libc::EACCES, "General file access error: x"),
        (Fs1541Error::IsDir("x".into()), libc::EISDIR, "Is a directory: x"),
        (Fs1541Error::IsNotDir("x".into()), libc::ENOTDIR, "File is not a directory: x"),
        (Fs1541Error::NoEntry("x".into()), libc::ENOENT, "No (filesystem) entry: x"),
    ] {
        assert_eq!(error.to_fuse_reply_error(), errno);
        assert_eq!(error.to_string(), text);
    }
    let serde = Error::Serde { message: "m".into(), error: "e".into() };
    assert_eq!(serde.to_string(), "m | Serde error: e");
    assert_eq!(serde.to_fuse_reply_error(), libc::EIO);
}

#[test]
fn test_daemon_errors() {
    let error = DaemonError::from(CbmError::ValidationError("bad".to_string()));
    assert_eq!(error, DaemonError::ValidationError("bad".to_string()));
    let error = DaemonError::from(CbmError::TimeoutError { device: 8 });
    assert_eq!(error.to_string(), "CBM error: Device 8: Operation timed out");
    assert_eq!(
        DaemonError::from_io("denied".to_string()).to_response(),
        Response::Error("Mount error: denied".to_string())
    );
    assert_eq!(
        DaemonError::InternalError("x".to_string()).to_string(),
        "Internal error: x"
    );
    assert_eq!(
        DaemonError::ConfigurationError("x".to_string()).to_string(),
        "Configuration error: x"
    );
}

#[test]
fn test_listeners_are_stopped() {
    let mut server = IpcServer::new(42);
    assert!(!server.ipc_server_run && !server.bg_listener_run);
    server.start_ipc_listener();
    server.start_bg_receiver();
    assert!(server.ipc_server_run && server.bg_listener_run);
    server.stop_ipc_listener();
    assert!(!server.ipc_server_run && server.bg_listener_run);
    server.stop_all();
    assert!(!server.bg_listener_run);
    assert_eq!(server.pid, 42);
}

#[test]
fn test_parts_of_the_daemon() {
    let mut daemon = Daemon::new(42);
    assert_eq!(daemon.stop_bg_proc(true), Stop::NotRunning);
    assert_eq!(daemon.stop_ipc_all(false), Stop::NotRunning);
    daemon.create_bg_proc();
    daemon.create_ipc_server();
    daemon.start_bg_proc();
    daemon.start_ipc_server();
    assert_eq!(daemon.stop_bg_proc(false), Stop::Signal);
    assert!(daemon.bg_proc_shutdown);
    assert!(!daemon.ipc_shutdown);
    assert_eq!(daemon.stop_ipc_all(false), Stop::Signal);
    assert!(daemon.ipc_shutdown);
    assert_eq!(daemon.stop_bg_proc(true), Stop::Abort);
    assert_eq!(daemon.stop_bg_proc(true), Stop::NoHandle);
    assert_eq!(daemon.stop_ipc_all(true), Stop::Abort);
    daemon.take_ipc_server_handle_ref();
    assert_eq!(daemon.stop_ipc_all(true), Stop::NoHandle);
    daemon.take_bg_listener_handle();
    let done = Progress { bg_proc: Some(true), ipc_server: None, bg_listener: Some(true) };
    assert!(matches!(daemon.shutdown(&done, false), Shutdown::Finished));
    let busy = Progress { bg_proc: Some(false), ipc_server: None, bg_listener: Some(true) };
    assert!(matches!(daemon.shutdown(&busy, true), Shutdown::Sleep));
    match daemon.shutdown(&busy, false) {
        Shutdown::Abort(aborts, e) => {
            assert!(aborts.bg_proc && !aborts.ipc_server && !aborts.bg_listener);
            assert_eq!(e.to_string(), "Internal error: Timed out trying to clean up");
        }
        other => panic!("{:?}", other),
    }
}

#[test]
fn test_progress_of_a_shutdown() {
    let progress = Progress { bg_proc: Some(true), ipc_server: None, bg_listener: Some(false) };
    assert!(!progress.all_finished());
    let aborts = progress.to_abort();
    assert!(!aborts.bg_proc && !aborts.ipc_server && aborts.bg_listener);
    let progress = Progress { bg_proc: Some(true), ipc_server: None, bg_listener: None };
    assert!(progress.all_finished());
}

#[test]
fn test_pid_in_file() {
    assert_eq!(pid_in_file(Some(" 123\n")), Some(123));
    assert_eq!(pid_in_file(Some("x")), None);
    assert_eq!(pid_in_file(None), None);
    assert_eq!(get_pid_filename(), "/tmp/1541d.pid");
}

#[test]
fn test_pid_file_is_checked() {
    assert_eq!(check_pid_file(false, None, false), PidFile::Missing);
    assert_eq!(check_pid_file(true, Some("17\n"), true), PidFile::Running(17));
    assert_eq!(check_pid_file(true, Some("17\n"), false), PidFile::Stale);
    assert_eq!(check_pid_file(true, Some("none"), true), PidFile::Stale);
    assert_eq!(check_pid_file(true, None, true), PidFile::Stale);
}

fn act(next: MainNext) -> MainSession {
    match next {
        MainNext::Act(s) => s,
        other => panic!("{:?}", other),
    }
}

#[test]
fn test_life_of_the_daemon() {
    let s = async_main(42);
    assert_eq!((s.action(), s.daemon.pid), (MainStep::OpenBus, 42));
    let s = act(s.next(MainEvent::Done));
    assert_eq!(s.action(), MainStep::StartBgProc);
    assert!(s.daemon.has_bg_proc && s.daemon.has_ipc_server);
    let s = act(s.next(MainEvent::Done));
    assert_eq!(s.action(), MainStep::StartIpcServer);
    assert!(s.daemon.has_bg_proc_handle);
    let waiting = act(s.next(MainEvent::Done));
    assert_eq!(waiting.action(), MainStep::Wait);
    assert!(!waiting.daemon.has_bg_proc_handle && !waiting.daemon.bg_proc_shutdown);
    assert!(!waiting.daemon.ipc_shutdown);
    let s = act(waiting.next(MainEvent::Done));
    assert_eq!(s.action(), MainStep::Shutdown);
    assert!(s.daemon.bg_proc_shutdown && s.daemon.ipc_shutdown);
    assert!(matches!(s.next(MainEvent::Done), MainNext::Exit));
    assert!(matches!(waiting.next(MainEvent::Ended(Part::BgProc, None)), MainNext::Exit));
    for (part, words) in [
        (Part::BgProc, "Background processor thread failed"),
        (Part::IpcServer, "IPC server thread failed"),
        (Part::BgListener, "Background response thread failed"),
    ] {
        match waiting.next(MainEvent::Ended(part, Some("panic".to_string()))) {
            MainNext::Fail(e) => {
                assert_eq!(e.to_string(), format!("{words} | fs1541 error: Internal error: panic"))
            }
            other => panic!("{:?}", other),
        }
    }
    match async_main(1).next(MainEvent::NoBus(CbmError::UsbError("gone".to_string()))) {
        MainNext::Fail(e) => assert_eq!(
            e.to_string(),
            "Failed to initialize USB device | rs1541 error: USB error: gone"
        ),
        other => panic!("{:?}", other),
    }
    let failed = DaemonError::InternalError("socket".to_string());
    match waiting.next(MainEvent::Failed(failed)) {
        MainNext::Stopped(e) => assert_eq!(e.to_string(), "Internal error: socket"),
        other => panic!("{:?}", other),
    }
}

#[test]
fn test_signals() {
    let mut handler = SignalHandler::new();
    assert_eq!(handler.on_signal(), OnSignal::Stop);
    assert_eq!(handler.on_signal(), OnSignal::ForceQuit);
}

#[test]
fn test_arguments_are_logged() {
    let args = Args::default();
    let level = get_effective_level(false, true, true, true);
    assert_eq!(level, Level::Debug);
    assert_eq!(get_effective_level(false, false, false, false), Level::Error);
    let levels = Levels { fuser: level, xum1541: Level::Warn, rs1541: Level::Info, daemon: Level::Trace };
    let lines = args.log_args(&levels);
    assert_eq!(lines.len(), 24);
    assert_eq!(lines[4], "  autounmount: true");
    assert_eq!(lines[6], "  dir_cache_expiry_secs:   60s");
    assert_eq!(lines[11], "  dir_read_sleep_ms:         1000ms");
    assert_eq!(lines[20], "  fuser:    Debug");
    assert_eq!(lines[23], "  1541fsd:  Trace");
}

#[test]
fn test_failed_exchanges() {
    for (what, text) in [
        (Exchange::ParseRequest, "Internal error: Failed to parse incoming request x"),
        (Exchange::Queue, "Internal error: Hit error sending message to background processor x"),
        (Exchange::SerializeResponse, "Internal error: Failed to serialize response: x"),
        (Exchange::WriteResponse, "Internal error: Failed to write response: x"),
        (Exchange::FlushResponse, "Internal error: Failed to flush response: x"),
    ] {
        assert_eq!(exchange_error(what, "x").to_string(), text);
    }
}
