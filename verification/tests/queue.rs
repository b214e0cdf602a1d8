use rs1541fs::cbmtype::{CbmDeviceInfo, CbmDeviceType, CbmError, CbmStatus};
use rs1541fs::error::{Error, Fs1541Error};
use rs1541fs::server::bg::{
    execute_operation, finish_execution, send_failed, ExecAction, ExecDone, OpResponse,
    OpResponseType, OpType, Operation, OperationQueues, Priority, Proc, ProcStep,
};
use rs1541fs::time::{Duration, Instant};

type Op = Operation<u32, &'static str>;

fn at(secs: u128) -> Instant {
    Instant { nanos: secs * 1_000_000_000 }
}

fn op(op_type: OpType, sender: u32) -> Op {
    Operation::new(op_type, sender, None, at(0))
}

fn cache(device: u8) -> OpType {
    OpType::ReadFileCache { device, path: "f".to_string(), inode: 256 }
}

#[test]
fn test_priorities() {
    assert_eq!(OpType::BusReset.priority(), Priority::Critical);
    assert_eq!(OpType::Identify { device: 8 }.priority(), Priority::Normal);
    assert_eq!(cache(8).priority(), Priority::Low);
    assert_eq!(OpType::BusReset.timeout(), Duration::from_secs(30));
    assert_eq!(Priority::High.timeout(), Duration::from_secs(60));
    assert_eq!(Priority::Normal.timeout(), Duration::from_secs(120));
    assert_eq!(Priority::Low.timeout(), Duration::from_secs(300));
    assert!(OpType::BusReset.affects_bus());
    assert!(!OpType::GetStatus { device: 8 }.affects_bus());
    assert!(OpType::GetStatus { device: 8 }.requires_drive_access());
    assert!(!OpType::CancelDeviceCache { device: 8 }.requires_drive_access());
    assert_eq!(cache(8).as_str(), "ReadFileCache");
}

#[test]
fn test_operations_are_done_by_priority() {
    let mut queues: OperationQueues<u32, &'static str> = OperationQueues::new();
    queues.push(op(cache(8), 1));
    queues.push(op(OpType::GetStatus { device: 8 }, 2));
    queues.push(op(OpType::Unmount { device: Some(8), mountpoint: None }, 3));
    queues.push(op(OpType::BusReset, 4));
    queues.push(op(OpType::GetStatus { device: 9 }, 5));
    let mut order = Vec::new();
    while let Some(op) = queues.pop_next() {
        order.push(op.sender);
    }
    assert_eq!(order, vec![4, 3, 2, 5, 1]);
}

#[test]
fn test_old_operations_are_taken_out() {
    let mut queues: OperationQueues<u32, &'static str> = OperationQueues::new();
    queues.push(op(OpType::BusReset, 1));
    queues.push(op(OpType::GetStatus { device: 8 }, 2));
    assert!(queues.cleanup_on_age(at(29)).is_empty());
    let notices = queues.cleanup_on_age(at(30));
    assert_eq!(notices.len(), 1);
    assert_eq!(notices[0].sender, 1);
    assert!(matches!(
        &notices[0].response.rsp,
        Err(Error::Fs1541 { error: Fs1541Error::Timeout(_, _), .. })
    ));
    assert_eq!(queues.pop_next().unwrap().sender, 2);
    assert!(queues.pop_next().is_none());
}

#[test]
fn test_cache_operations_are_cancelled() {
    let mut queues: OperationQueues<u32, &'static str> = OperationQueues::new();
    queues.push(op(cache(8), 1));
    queues.push(op(cache(9), 2));
    let notices = queues.remove_cache_for_device(8);
    assert_eq!(notices.len(), 1);
    assert!(matches!(
        &notices[0].response.rsp,
        Err(Error::Fs1541 { error: Fs1541Error::Cancelled(_), .. })
    ));
    assert_eq!(queues.pop_next().unwrap().sender, 2);
}

#[test]
fn test_operations_are_processed() {
    let mut proc: Proc<u32, &'static str> = Proc::new(5, at(0));
    assert_eq!(proc.age_check_period, Duration::from_secs(5));
    proc.queues.push(op(cache(8), 7));
    match proc.process_operation(op(OpType::CancelDeviceCache { device: 8 }, 1)) {
        ProcStep::Finished { notices, reply } => {
            assert_eq!(notices.len(), 1);
            assert_eq!(reply.sender, 1);
            assert!(matches!(
                reply.response.rsp,
                Ok(OpResponseType::CancelDeviceCache { device: 8 })
            ));
        }
        other => panic!("{:?}", other),
    }
    match proc.process_operation(op(OpType::Identify { device: 9 }, 2)) {
        ProcStep::Execute { action, pending } => {
            assert!(matches!(action, ExecAction::Identify { device: 9 }));
            assert_eq!(pending.timeout, Duration::from_secs(120));
            let notice = Proc::finish_operation(pending, None);
            assert_eq!(notice.sender, 2);
            assert_eq!(
                notice.response.to_string(),
                "Error: Operation timed out | fs1541 error: Timeout error: Background operation timed out Timer duration: 120s"
            );
        }
        other => panic!("{:?}", other),
    }
    proc.age_check(at(400));
    assert_eq!(proc.last_cleanup, at(400));
}

#[test]
fn test_actions() {
    match execute_operation(OpType::BusReset, true) {
        ExecAction::Reject(e) => assert!(e.to_string().contains("Operation cancelled")),
        other => panic!("{:?}", other),
    }
    for op_type in [
        OpType::CancelDeviceCache { device: 8 },
        OpType::ReadFile { device: 8, path: "\u{e9}".to_string(), inode: 256 },
    ] {
        match execute_operation(op_type, true) {
            ExecAction::Reject(e) => assert_eq!(
                e.to_string(),
                "Operation cancelled | fs1541 error: Operation error: Operation cancelled"
            ),
            other => panic!("{:?}", other),
        }
    }
    match execute_operation(OpType::InitDrive { device: 8, drive_unit: 0 }, false) {
        ExecAction::Reject(e) => assert_eq!(
            e.to_string(),
            "Operation not yet supported InitDrive | fs1541 error: Operation error: Operation not supported: InitDrive"
        ),
        other => panic!("{:?}", other),
    }
    assert!(matches!(
        execute_operation(OpType::ReadDirectory { device: 8 }, false),
        ExecAction::ReadDirectory { device: 8 }
    ));
}

#[test]
fn test_results_of_actions() {
    assert!(matches!(
        finish_execution(ExecDone::Unmounted(Ok(()))),
        Ok(OpResponseType::Mount)
    ));
    let info = CbmDeviceInfo {
        device_type: CbmDeviceType::Cbm1541,
        description: "a drive".to_string(),
    };
    assert!(matches!(
        finish_execution(ExecDone::Identified(Ok(info))),
        Ok(OpResponseType::Identify { .. })
    ));
    let failed = ExecDone::ReadFile {
        device: 8,
        path: "f".to_string(),
        inode: 300,
        result: Err(CbmError::TimeoutError { device: 8 }),
    };
    assert_eq!(
        finish_execution(failed).unwrap_err().to_string(),
        "Failed to read file f for device 8 | rs1541 error: Device 8: Operation timed out"
    );
    let failed = ExecDone::ReadDirectory {
        device: 9,
        result: Err(CbmError::TimeoutError { device: 9 }),
    };
    assert!(finish_execution(failed)
        .unwrap_err()
        .to_string()
        .starts_with("Failed to read directory for device 9"));
    assert_eq!(
        send_failed("full").to_string(),
        "Channel send error | fs1541 error: Internal error: Failed to send response: full"
    );
}

#[test]
fn test_streams() {
    let mut operation = op(OpType::BusReset, 1);
    assert!(operation.set_stream("client").is_ok());
    assert!(operation.set_stream("other").unwrap_err().to_string().contains("already set"));
    let mut response = OpResponse::from_operation(operation);
    assert_eq!(response.to_string(), "Bus Reset (with stream)");
    assert_eq!(response.take_stream().unwrap(), "client");
    assert!(response.take_stream().is_err());
    assert_eq!(response.to_string(), "Bus Reset");
    let status = CbmStatus::new("00,OK,00,00", 8).unwrap();
    assert_eq!(
        OpResponseType::GetStatus { status }.to_string(),
        "Get Status - 00,OK,00,00"
    );
}

#[test]
fn test_own_priority() {
    let operation: Op =
        Operation::with_priority(Priority::Low, OpType::BusReset, 1, None, at(3));
    assert_eq!(operation.priority, Priority::Low);
    assert_eq!(operation.priority_timeout(), Duration::from_secs(300));
}

#[test]
fn test_error_responses_carry_the_stream() {
    let error = Error::Io { message: "a".to_string(), error: "b".to_string() };
    let mut response: OpResponse<&'static str> = OpResponse::with_error(error, Some("stream"));
    assert_eq!(response.rsp.as_ref().unwrap_err().to_string(), "a | IO error: b");
    assert_eq!(response.take_stream().unwrap(), "stream");
    assert!(response.take_stream().is_err());
}
