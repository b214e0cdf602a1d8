//! What can be relied on of the errors of the file system, the daemon and the client.
use vstd::prelude::*;

use crate::cbmtype::CbmError;
use crate::client::error::ClientError;
use crate::error::{Error, Fs1541Error};
use crate::ipc::{Request, Response};
use crate::number;
use crate::server::error::DaemonError;
use crate::server::ipc::{exchange_error, Exchange};

verus! {

/// The kernel is told the number of the operating system for what went wrong: one of input or
/// output for all that comes from the bus, the socket or a bug, and one of its own for what is
/// not valid, took too long, was cancelled, is read-only, is not allowed, is or is not a
/// directory, or is not there.
pub proof fn law_kernel_is_told(e: Error, inner: Fs1541Error, r: i32, n: i32)
    requires
        call_ensures(Error::to_fuse_reply_error, (&e,), r),
        call_ensures(Fs1541Error::to_fuse_reply_error, (&inner,), n),
    ensures
        e is Rs1541 || e is Io || e is Serde ==> r == 5,
        e matches Error::Fs1541 { error, .. } ==> (error == inner ==> r == n),
        inner is Operation || inner is Internal ==> n == 5,
        inner is Configuration || inner is Validation || inner is ReadOrWriteOnly ==> n == 22,
        inner is AgedOut || inner is Timeout ==> n == 110,
        inner is Cancelled ==> n == 125,
        inner is ReadOnly ==> n == 30,
        inner is WriteOnly || inner is FileAccess ==> n == 13,
        inner is IsDir ==> n == 21,
        inner is IsNotDir ==> n == 20,
        inner is NoEntry ==> n == 2,
{
}

/// The text of an error holds what was being done, where the error comes from, and what was
/// told of it.
pub proof fn law_errors_of_the_file_system(e: Error, inner: Fs1541Error, s: String, t: String)
    requires
        call_ensures(Error::to_string, (&e,), s),
        call_ensures(Fs1541Error::to_string, (&inner,), t),
    ensures
        match e {
            Error::Rs1541 { message, error } => s@ == message@ + " | rs1541 error: "@
                + error@.text(),
            Error::Io { message, error } => s@ == message@ + " | IO error: "@ + error@,
            Error::Serde { message, error } => s@ == message@ + " | Serde error: "@ + error@,
            Error::Fs1541 { message, error } => error == inner ==> s@ == message@
                + " | fs1541 error: "@ + t@,
        },
        match inner {
            Fs1541Error::Operation(x) => t@ == "Operation error: "@ + x@,
            Fs1541Error::Configuration(x) => t@ == "Configuration error: "@ + x@,
            Fs1541Error::Validation(x) => t@ == "Validation error: "@ + x@,
            Fs1541Error::AgedOut(x) => t@ == "Aged out error: "@ + x@,
            Fs1541Error::Internal(x) => t@ == "Internal error: "@ + x@,
            Fs1541Error::Timeout(x, d) => t@ == "Timeout error: "@ + x@ + " Timer duration: "@
                + d.text(),
            Fs1541Error::Cancelled(x) => t@ == "Operation cancelled: "@ + x@,
            Fs1541Error::ReadOnly(x) => t@ == "File "@ + x@ + " is read only"@,
            Fs1541Error::WriteOnly(x) => t@ == "Write "@ + x@ + " is read only"@,
            Fs1541Error::ReadOrWriteOnly(x) => t@ == "Read _or_ write only supported "@ + x@,
            Fs1541Error::FileAccess(x) => t@ == "General file access error: "@ + x@,
            Fs1541Error::IsDir(x) => t@ == "Is a directory: "@ + x@,
            Fs1541Error::IsNotDir(x) => t@ == "File is not a directory: "@ + x@,
            Fs1541Error::NoEntry(x) => t@ == "No (filesystem) entry: "@ + x@,
        },
{
}

/// A client is answered with the text of the daemon's error, which tells its kind and what was
/// told of it.
pub proof fn law_daemon_answers_with_its_error(e: DaemonError, s: String, r: Response)
    requires
        call_ensures(DaemonError::to_string, (&e,), s),
        call_ensures(DaemonError::to_response, (&e,), r),
    ensures
        r matches Response::Error(words) && words@ == s@,
        match e {
            DaemonError::CbmError(c) => s@ == "CBM error: "@ + c@.text(),
            DaemonError::ConfigurationError(x) => s@ == "Configuration error: "@ + x@,
            DaemonError::ValidationError(x) => s@ == "Validation error: "@ + x@,
            DaemonError::MountError(x) => s@ == "Mount error: "@ + x@,
            DaemonError::InternalError(x) => s@ == "Internal error: "@ + x@,
        },
{
}

/// An error of validation stays one in the client, with the same words, and any other error of
/// a drive is one that the client did not expect.
pub proof fn law_client_errors(c: CbmError, r: ClientError, e: ClientError, s: String)
    requires
        call_ensures(ClientError::from_cbm, (c,), r),
        call_ensures(ClientError::to_string, (&e,), s),
    ensures
        c matches CbmError::ValidationError(x) ==> (r matches ClientError::ValidationError(y) && y@
            == x@),
        !(c is ValidationError) ==> (r matches ClientError::InternalError(y) && y@
            == "Unepected error from CBM library: "@ + c@.text()),
        match e {
            ClientError::ConfigurationError(x) => s@ == "Configuration error: "@ + x@,
            ClientError::ValidationError(x) => s@ == "Validation error: "@ + x@,
            ClientError::InternalError(x) => s@ == "Internal error: "@ + x@,
            ClientError::DaemonStartup(x) => s@ == "Daemon failed to start: "@ + x@,
            ClientError::Timeout(n) => s@ == "Operation timed out after "@ + number::decimal(
                n as nat,
            ) + " seconds"@,
            ClientError::IPC(x) => s@ == "IPC error: "@ + x@,
            ClientError::Protocol(x) => s@ == "Protocol error: "@ + x@,
        },
{
}

/// What fails between the daemon and a client is told by the step that failed.
pub proof fn law_exchange_errors(what: Exchange, words: &str, e: DaemonError)
    requires
        call_ensures(exchange_error, (what, words), e),
    ensures
        e matches DaemonError::InternalError(s) && match what {
            Exchange::ParseRequest => s@ == "Failed to parse incoming request "@ + words@,
            Exchange::Queue => s@ == "Hit error sending message to background processor "@ + words@,
            Exchange::SerializeResponse => s@ == "Failed to serialize response: "@ + words@,
            Exchange::WriteResponse => s@ == "Failed to write response: "@ + words@,
            Exchange::FlushResponse => s@ == "Failed to flush response: "@ + words@,
        },
{
}

/// What is asked for and answered is logged with all that it says.
pub proof fn law_requests_and_responses_are_logged(
    q: Request,
    r: Response,
    asked: String,
    answered: String,
)
    requires
        call_ensures(Request::to_string, (&q,), asked),
        call_ensures(Response::to_string, (&r,), answered),
    ensures
        match q {
            Request::Mount { mountpoint, device, dummy_formats, bus_reset } => asked@
                == "Mount request: device "@ + number::decimal(device as nat) + " at '"@
                + mountpoint@ + "' (dummy formats: "@ + (if dummy_formats {
                "true"@
            } else {
                "false"@
            }) + ", bus reset: "@ + (if bus_reset {
                "true"@
            } else {
                "false"@
            }) + ")"@,
            Request::Unmount { mountpoint: Some(path), device: None } => asked@
                == "Unmount request: path '"@ + path@ + "'"@,
            Request::Unmount { mountpoint: None, device: Some(d) } => asked@
                == "Unmount request: device "@ + number::decimal(d as nat),
            Request::Unmount { mountpoint: Some(path), device: Some(d) } => asked@
                == "Unmount request: device "@ + number::decimal(d as nat) + " at '"@ + path@
                + "'"@,
            Request::Unmount { mountpoint: None, device: None } => asked@
                == "Unmount request: no target specified"@,
            Request::BusReset => asked@ == "Bus reset request"@,
            Request::Ping => asked@ == "Ping request"@,
            Request::Die => asked@ == "Shutdown request"@,
            Request::Identify { device } => asked@ == "Identify request: device "@
                + number::decimal(device as nat),
            Request::GetStatus { device } => asked@ == "Get status request: device "@
                + number::decimal(device as nat),
        },
        match r {
            Response::MountSuccess => answered@ == "Mount successful"@,
            Response::UnmountSuccess => answered@ == "Unmount successful"@,
            Response::BusResetSuccess => answered@ == "Bus reset successful"@,
            Response::Error(s) => answered@ == "Error: "@ + s@,
            Response::Pong => answered@ == "Pong"@,
            Response::Dying => answered@ == "Shutting down"@,
            Response::Identified { device_type, description } => answered@
                == "Device identified: "@ + device_type@ + " ("@ + description@ + ")"@,
            Response::GotStatus(s) => answered@ == "Status: "@ + s@,
        },
{
}

} // verus!
