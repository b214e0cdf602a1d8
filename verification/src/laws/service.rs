//! What can be relied on between a user, the client, the daemon and a drive.
use vstd::prelude::*;

use crate::cbmtype;
use crate::cbmtype::{CbmDeviceInfo, CbmStatus};
use crate::client::args::ClientOperation;
use crate::client::request::{create_request, handle_response};
use crate::error::Error;
use crate::ipc::{Request, Response};
use crate::server::bg::{
    execute_operation, finish_execution, ExecAction, ExecDone, OpResponseType, OpType, Priority,
};
use crate::server::ipc::{handle_client_request, ClientAction};
use crate::validate::PathFacts;

verus! {

/// The operation that the daemon queues for a user's wish is of the kind that the user asked
/// for, on the same device, and nothing is queued for another: the status of a device, its
/// identity, a reset of the bus, a mount without a reset of the bus, or an unmount. A daemon
/// that is to die says so at once.
pub proof fn law_wish_is_queued(
    op: ClientOperation,
    facts: PathFacts,
    request: Request,
    r: Result<ClientAction, Error>,
)
    requires
        call_ensures(create_request, (op,), request),
        call_ensures(handle_client_request, (request, &facts), r),
    ensures
        match op {
            ClientOperation::Getstatus { device } => r matches Ok(
                ClientAction::Queue { op_type: OpType::GetStatus { device: d }, priority },
            ) && d == device && priority == Priority::Low,
            ClientOperation::Identify { device } => r matches Ok(
                ClientAction::Queue { op_type: OpType::Identify { device: d }, priority },
            ) && d == device && priority == Priority::Low,
            ClientOperation::Resetbus => r matches Ok(
                ClientAction::Queue { op_type: OpType::BusReset, priority },
            ) && priority == Priority::Critical,
            ClientOperation::Kill => r matches Ok(ClientAction::ReplyAndDie(Response::Dying)),
            ClientOperation::Mount { device, dummy_formats, mountpoint, .. } => r matches Ok(a)
                ==> (a matches ClientAction::Queue {
                op_type: OpType::Mount { device: d, mountpoint: m, dummy_formats: f, bus_reset },
                priority,
            } && d == device && m@ == mountpoint@ && f == dummy_formats && !bus_reset && priority
                == Priority::High && 8 <= device <= 30),
            ClientOperation::Unmount { device, mountpoint, .. } => r matches Ok(a) ==> (a matches
                ClientAction::Queue {
                op_type: OpType::Unmount { device: d, mountpoint: m },
                priority,
            } && d == device && m == mountpoint && priority == Priority::High && (device is Some
                <==> mountpoint is None) && (device matches Some(n) ==> 8 <= n <= 30)),
        },
{
}

/// What is done for a queued operation is what was asked for, with all that was said of it,
/// while the daemon is not shutting down; then nothing is done. What cannot be done yet is
/// refused.
pub proof fn law_queued_is_done(op: OpType, shutdown: bool, action: ExecAction)
    requires
        call_ensures(execute_operation, (op, shutdown), action),
    ensures
        shutdown ==> action is Reject,
        !shutdown ==> match op {
            OpType::BusReset => action is BusReset,
            OpType::Mount { device, mountpoint, dummy_formats, .. } => action matches
                ExecAction::Mount { device: d, mountpoint: m, dummy_formats: f } && d == device && m
                == mountpoint && f == dummy_formats,
            OpType::Unmount { device, mountpoint } => action matches ExecAction::Unmount {
                device: d,
                mountpoint: m,
            } && d == device && m == mountpoint,
            OpType::ReadDirectory { device } => action matches ExecAction::ReadDirectory {
                device: d,
            } && d == device,
            OpType::ReadFile { device, path, inode } => action matches ExecAction::ReadFile {
                device: d,
                path: p,
                inode: i,
            } && d == device && p == path && i == inode,
            OpType::Identify { device } => action matches ExecAction::Identify { device: d } && d
                == device,
            OpType::GetStatus { device } => action matches ExecAction::GetStatus { device: d } && d
                == device,
            _ => action is Reject,
        },
{
}

/// A user who asks for the status of a device is shown the status that its drive has sent.
pub proof fn law_status_is_shown(
    status: CbmStatus,
    rsp: Result<OpResponseType, Error>,
    answer: Response,
    shown: Result<Option<String>, String>,
)
    requires
        call_ensures(finish_execution, (ExecDone::GotStatus(Ok(status)),), rsp),
        call_ensures(Response::from_result, (rsp,), answer),
        call_ensures(handle_response, (answer,), shown),
    ensures
        rsp matches Ok(OpResponseType::GetStatus { status: s }) && s@ == status@,
        answer matches Response::GotStatus(text) && text@ == cbmtype::status_text(status@),
        shown matches Ok(Some(line)) && line@ == "Status "@ + cbmtype::status_text(status@),
{
}

/// A user who asks what a device is is shown the model and the description that it has given.
pub proof fn law_identity_is_shown(
    info: CbmDeviceInfo,
    rsp: Result<OpResponseType, Error>,
    answer: Response,
    shown: Result<Option<String>, String>,
)
    requires
        call_ensures(finish_execution, (ExecDone::Identified(Ok(info)),), rsp),
        call_ensures(Response::from_result, (rsp,), answer),
        call_ensures(handle_response, (answer,), shown),
    ensures
        rsp matches Ok(OpResponseType::Identify { info: i }) && i@ == info@,
        answer matches Response::Identified { device_type, description } && device_type@
            == info.device_type.name() && description@ == info.description@,
        shown matches Ok(Some(line)) && line@ == "Model "@ + info.device_type.name()
            + " Description \""@ + info.description@ + "\""@,
{
}

/// A user whose wish could not be fulfilled is shown the error, whatever the wish was, and one
/// whose mount, unmount or reset of the bus went well is shown nothing.
pub proof fn law_failure_is_shown(
    done: ExecDone,
    error: Error,
    rsp: Result<OpResponseType, Error>,
    answer: Response,
    shown: Result<Option<String>, String>,
)
    requires
        call_ensures(finish_execution, (done,), rsp),
        call_ensures(Response::from_result, (rsp,), answer),
        call_ensures(handle_response, (answer,), shown),
    ensures
        done == ExecDone::Rejected(error) || done == ExecDone::NoDrive(error) || done
            == ExecDone::Mounted(Err(error)) || done == ExecDone::Unmounted(Err(error)) || done
            == ExecDone::Identified(Err(error)) || done == ExecDone::GotStatus(Err(error)) || done
            == ExecDone::BusWasReset(Err(error)) ==> {
            &&& rsp matches Err(e) && e@ == error@
            &&& answer matches Response::Error(words) && words@ == error@.text()
            &&& shown matches Err(words) && words@ == error@.text()
        },
        done == ExecDone::Mounted(Ok(())) || done == ExecDone::Unmounted(Ok(())) ==> {
            &&& answer is MountSuccess
            &&& shown == Ok::<Option<String>, String>(None)
        },
        done == ExecDone::BusWasReset(Ok(())) ==> {
            &&& answer is BusResetSuccess
            &&& shown == Ok::<Option<String>, String>(None)
        },
{
}

} // verus!
