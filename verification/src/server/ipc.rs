//! How the daemon answers its clients.
use vstd::prelude::*;

use crate::cbmtype;
use crate::error::{Error, ErrorView};
use crate::ipc::{Request, Response, ResponseView};
use crate::server::bg;
use crate::server::bg::{ExecAction, ExecDone, OpResponseType, OpResponseView, OpType, Priority};
use crate::server::error::{DaemonError, DaemonErrorView};
use crate::server::mount;
use crate::server::mount::{validate_mount_request, validate_unmount_request};
use crate::validate::PathFacts;

verus! {

/// How many responses from the background can wait.
pub const MAX_BG_RSP_CHANNELS: usize = 4;

/// How long to wait after a connection has failed, in milliseconds.
pub const BG_LIST_WAIT_TIME_MS: u64 = 100;

/// How often to look whether to stop waiting for responses, in milliseconds.
pub const BG_LISTENER_SHUTDOWN_CHECK_MS: u64 = 50;

/// How often to look whether to stop waiting for clients, in milliseconds.
pub const IPC_SERVER_SHUTDOWN_CHECK_MS: u64 = 50;

/// How long the daemon lives on after it was told to die, in milliseconds.
pub const DYING_MS: u64 = 250;

/// What the daemon waits for.
#[derive(Debug, Clone, Copy, PartialEq, Eq, Structural)]
pub struct IpcServer {
    /// Whether clients are waited for
    pub ipc_server_run: bool,
    /// Whether responses from the background are waited for
    pub bg_listener_run: bool,
    /// The process of the daemon
    pub pid: i32,
}

impl IpcServer {
    /// Nothing is waited for yet.
    pub fn new(pid: i32) -> (s: Self)
        ensures
            s == (IpcServer { ipc_server_run: false, bg_listener_run: false, pid }),
    {
        IpcServer { ipc_server_run: false, bg_listener_run: false, pid }
    }

    /// Clients are waited for.
    pub fn start_ipc_listener(&mut self)
        ensures
            *final(self) == (IpcServer { ipc_server_run: true, ..*old(self) }),
    {
        self.ipc_server_run = true;
    }

    /// Responses from the background are waited for.
    pub fn start_bg_receiver(&mut self)
        ensures
            *final(self) == (IpcServer { bg_listener_run: true, ..*old(self) }),
    {
        self.bg_listener_run = true;
    }

    /// Clients are no longer waited for.
    pub fn stop_ipc_listener(&mut self)
        ensures
            *final(self) == (IpcServer { ipc_server_run: false, ..*old(self) }),
    {
        self.ipc_server_run = false;
    }

    /// Responses from the background are no longer waited for.
    pub fn stop_bg_listener(&mut self)
        ensures
            *final(self) == (IpcServer { bg_listener_run: false, ..*old(self) }),
    {
        self.bg_listener_run = false;
    }

    /// Nothing is waited for any more.
    pub fn stop_all(&mut self)
        ensures
            *final(self) == (IpcServer {
                ipc_server_run: false,
                bg_listener_run: false,
                ..*old(self)
            }),
    {
        self.stop_ipc_listener();
        self.stop_bg_listener();
    }
}

/// What is to be done for a client.
#[derive(Debug)]
pub enum ClientAction {
    /// Have an operation done in the background
    Queue { op_type: OpType, priority: Priority },
    /// Answer at once
    Reply(Response),
    /// Answer at once, and end the daemon a little later
    ReplyAndDie(Response),
}

/// What is wrong with a request.
pub open spec fn request_fault(request: Request, facts: PathFacts) -> Option<ErrorView> {
    match request {
        Request::Mount { mountpoint, device, .. } => mount::mount_request_fault(
            mountpoint@,
            device,
            facts,
        ),
        Request::Unmount { mountpoint, device } => mount::unmount_request_fault(
            match mountpoint {
                Some(p) => Some(p@),
                None => None,
            },
            device,
            facts,
        ),
        _ => None,
    }
}

/// The action is what is to be done for a request that is in order.
pub open spec fn action_for(request: Request, action: ClientAction) -> bool {
    match request {
        Request::Mount { mountpoint, device, dummy_formats, bus_reset } => action matches
            ClientAction::Queue {
            op_type: OpType::Mount { device: d, mountpoint: m, dummy_formats: f, bus_reset: b },
            priority,
        } && d == device && m@ == mountpoint@ && f == dummy_formats && b == bus_reset && priority
            == Priority::High,
        Request::Unmount { mountpoint, device } => action == (ClientAction::Queue {
            op_type: OpType::Unmount { device, mountpoint },
            priority: Priority::High,
        }),
        Request::BusReset => action == (ClientAction::Queue {
            op_type: OpType::BusReset,
            priority: Priority::Critical,
        }),
        Request::Identify { device } => action == (ClientAction::Queue {
            op_type: OpType::Identify { device },
            priority: Priority::Low,
        }),
        Request::GetStatus { device } => action == (ClientAction::Queue {
            op_type: OpType::GetStatus { device },
            priority: Priority::Low,
        }),
        Request::Ping => action == ClientAction::Reply(Response::Pong),
        Request::Die => action == ClientAction::ReplyAndDie(Response::Dying),
    }
}

/// Says what is to be done for a client. What is wrong with a request to mount or to
/// unmount comes to light here, given what is known of the path it names.
pub fn handle_client_request(request: Request, facts: &PathFacts) -> (r: Result<
    ClientAction,
    Error,
>)
    ensures
        match request_fault(request, *facts) {
            Some(f) => r matches Err(e) && e@ == f,
            None => r matches Ok(action) && action_for(request, action),
        },
{
    match request {
        Request::Mount { mountpoint, device, dummy_formats, bus_reset } => {
            match validate_mount_request(mountpoint.as_str(), device, facts) {
                Ok(path) => Ok(
                    ClientAction::Queue {
                        op_type: OpType::Mount { device, mountpoint: path, dummy_formats, bus_reset },
                        priority: Priority::High,
                    },
                ),
                Err(e) => Err(e),
            }
        },
        Request::Unmount { mountpoint, device } => {
            let checked = match &mountpoint {
                Some(p) => validate_unmount_request(Some(p.as_str()), device, facts),
                None => validate_unmount_request(None, device, facts),
            };
            match checked {
                Ok(_) => Ok(
                    ClientAction::Queue {
                        op_type: OpType::Unmount { device, mountpoint },
                        priority: Priority::High,
                    },
                ),
                Err(e) => Err(e),
            }
        },
        Request::BusReset => Ok(
            ClientAction::Queue { op_type: OpType::BusReset, priority: Priority::Critical },
        ),
        Request::Identify { device } => Ok(
            ClientAction::Queue { op_type: OpType::Identify { device }, priority: Priority::Low },
        ),
        Request::GetStatus { device } => Ok(
            ClientAction::Queue { op_type: OpType::GetStatus { device }, priority: Priority::Low },
        ),
        Request::Ping => Ok(ClientAction::Reply(Response::Pong)),
        Request::Die => Ok(ClientAction::ReplyAndDie(Response::Dying)),
    }
}

/// What can fail on the way between the daemon and a client.
#[derive(Debug, Clone, Copy, PartialEq, Eq, Structural)]
pub enum Exchange {
    ParseRequest,
    /// Hand the request over to the background
    Queue,
    SerializeResponse,
    WriteResponse,
    FlushResponse,
}

/// The error for what has failed on the way between the daemon and a client.
pub fn exchange_error(what: Exchange, words: &str) -> (e: DaemonError)
    ensures
        e@ == DaemonErrorView::InternalError(
            (match what {
                Exchange::ParseRequest => "Failed to parse incoming request "@,
                Exchange::Queue => "Hit error sending message to background processor "@,
                Exchange::SerializeResponse => "Failed to serialize response: "@,
                Exchange::WriteResponse => "Failed to write response: "@,
                Exchange::FlushResponse => "Failed to flush response: "@,
            }) + words@,
        ),
{
    let front: &str = match what {
        Exchange::ParseRequest => "Failed to parse incoming request ",
        Exchange::Queue => "Hit error sending message to background processor ",
        Exchange::SerializeResponse => "Failed to serialize response: ",
        Exchange::WriteResponse => "Failed to write response: ",
        Exchange::FlushResponse => "Failed to flush response: ",
    };
    let mut s = front.to_owned();
    s.append(words);
    DaemonError::InternalError(s)
}

/// How a client is answered once its operation was done.
pub open spec fn response_for(rsp: OpResponseView) -> ResponseView {
    match rsp {
        OpResponseView::Mount => ResponseView::MountSuccess,
        OpResponseView::Unmount => ResponseView::UnmountSuccess,
        OpResponseView::BusReset => ResponseView::BusResetSuccess,
        OpResponseView::Identify { info } => ResponseView::Identified {
            device_type: info.device_type.name(),
            description: info.description,
        },
        OpResponseView::GetStatus { status } => ResponseView::GotStatus(
            cbmtype::status_text(status),
        ),
        _ => ResponseView::Error("Unsupported response type"@),
    }
}

/// How a client is answered once its operation was done, or was not.
pub open spec fn answer_for(rsp: Result<OpResponseView, ErrorView>) -> ResponseView {
    match rsp {
        Ok(t) => response_for(t),
        Err(e) => ResponseView::Error(e.text()),
    }
}

impl Response {
    /// How a client is answered once its operation was done.
    pub fn from_response(rsp: OpResponseType) -> (r: Self)
        ensures
            r@ == response_for(rsp@),
    {
        match rsp {
            OpResponseType::Mount => Response::MountSuccess,
            OpResponseType::Unmount => Response::UnmountSuccess,
            OpResponseType::BusReset => Response::BusResetSuccess,
            OpResponseType::Identify { info } => Response::Identified {
                device_type: info.device_type.as_str().to_owned(),
                description: info.description,
            },
            OpResponseType::GetStatus { status } => Response::GotStatus(status.to_string()),
            _ => Response::Error("Unsupported response type".to_owned()),
        }
    }

    /// How a client is answered once its operation was done, or was not.
    pub fn from_result(rsp: Result<OpResponseType, Error>) -> (r: Self)
        requires
            rsp matches Err(e) ==> e@.wf(),
        ensures
            r@ == answer_for(bg::result_view(rsp)),
    {
        match rsp {
            Ok(t) => Response::from_response(t),
            Err(e) => Response::Error(e.to_string()),
        }
    }
}

/// Every request that is in order is answered: at once, or by what came of it once that was
/// done. What could not be done is answered with its error, all else with what was asked for,
/// where an unmount is answered as a mount is, and nothing with the error for a response that
/// is not supported. While the daemon is shutting down, the answer is that the operation was
/// cancelled.
pub proof fn law_requests_are_answered(
    request: Request,
    action: ClientAction,
    shutdown: bool,
    work: ExecAction,
    done: ExecDone,
)
    requires
        action_for(request, action),
        action matches ClientAction::Queue { op_type, .. } ==> bg::action_for(
            op_type,
            shutdown,
            work,
        ) && bg::done_for(work, done),
    ensures
        match action {
            ClientAction::Queue { op_type, .. } => {
                let answer = answer_for(bg::done_result(done));
                &&& shutdown ==> answer == ResponseView::Error(bg::cancelled().text())
                &&& match bg::done_result(done) {
                    Err(e) => answer == ResponseView::Error(e.text()),
                    Ok(_) => match request {
                        Request::Mount { .. } => answer == ResponseView::MountSuccess,
                        Request::Unmount { .. } => answer == ResponseView::MountSuccess,
                        Request::BusReset => answer == ResponseView::BusResetSuccess,
                        Request::Identify { .. } => done matches ExecDone::Identified(Ok(info))
                            && answer == (ResponseView::Identified {
                            device_type: info@.device_type.name(),
                            description: info@.description,
                        }),
                        Request::GetStatus { .. } => done matches ExecDone::GotStatus(Ok(status))
                            && answer == ResponseView::GotStatus(cbmtype::status_text(status@)),
                        _ => false,
                    },
                }
            },
            ClientAction::Reply(r) => request is Ping && r == Response::Pong,
            ClientAction::ReplyAndDie(r) => request is Die && r == Response::Dying,
        },
{
}

} // verus!
