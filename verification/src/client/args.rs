//! The arguments of the client.
use vstd::prelude::*;

use crate::cbmtype::CbmError;
use crate::error::{Error, ErrorView, Fs1541Error, Fs1541ErrorView};
use crate::number;
use crate::number::push_decimal;
use crate::server::mount;
use crate::validate;
use crate::validate::{validate_bus_device, validate_mountpoint, PathFacts, ValidationType};

verus! {

/// What the client is to do.
#[allow(inconsistent_fields)]
#[derive(Debug)]
pub enum ClientOperation {
    /// Reset the bus
    Resetbus,
    /// Mount the filesystem
    Mount {
        device: u8,
        /// Don't actually format the disk if requested
        dummy_formats: bool,
        mountpoint: String,
        /// Validated absolute path (set during validation)
        path: Option<String>,
    },
    /// Unmount the filesystem
    Unmount {
        device: Option<u8>,
        mountpoint: Option<String>,
        /// Validated absolute path (set during validation)
        path: Option<String>,
    },
    /// Identify the selected device
    Identify { device: u8 },
    /// Get status of the selected device
    Getstatus { device: u8 },
    /// Kill the daemon
    Kill,
}

/// What the client is to do, with its texts as sequences of characters.
#[allow(inconsistent_fields)]
#[verifier::ext_equal]
pub enum ClientOperationView {
    Resetbus,
    Mount { device: u8, dummy_formats: bool, mountpoint: Seq<char>, path: Option<Seq<char>> },
    Unmount { device: Option<u8>, mountpoint: Option<Seq<char>>, path: Option<Seq<char>> },
    Identify { device: u8 },
    Getstatus { device: u8 },
    Kill,
}

/// A text that may be missing.
pub open spec fn text_view(s: Option<String>) -> Option<Seq<char>> {
    match s {
        Some(t) => Some(t@),
        None => None,
    }
}

impl View for ClientOperation {
    type V = ClientOperationView;

    open spec fn view(&self) -> ClientOperationView {
        match *self {
            ClientOperation::Resetbus => ClientOperationView::Resetbus,
            ClientOperation::Mount {
                device,
                dummy_formats,
                mountpoint,
                path,
            } => ClientOperationView::Mount {
                device,
                dummy_formats,
                mountpoint: mountpoint@,
                path: text_view(path),
            },
            ClientOperation::Unmount { device, mountpoint, path } => ClientOperationView::Unmount {
                device,
                mountpoint: text_view(mountpoint),
                path: text_view(path),
            },
            ClientOperation::Identify { device } => ClientOperationView::Identify { device },
            ClientOperation::Getstatus { device } => ClientOperationView::Getstatus { device },
            ClientOperation::Kill => ClientOperationView::Kill,
        }
    }
}

impl ClientOperationView {
    /// How the operation is logged.
    pub open spec fn text(self) -> Seq<char> {
        match self {
            ClientOperationView::Resetbus => "Operation: Reset Bus"@,
            ClientOperationView::Mount {
                device,
                mountpoint,
                dummy_formats,
                ..
            } => "Operation: Mount device "@ + number::decimal(device as nat) + " at '"@
                + mountpoint + "'"@ + (if dummy_formats {
                " with dummy formats"@
            } else {
                ""@
            }),
            ClientOperationView::Unmount {
                device,
                mountpoint,
                ..
            } => "Operation: Unmount device "@ + number::decimal(
                match device {
                    Some(d) => d as nat,
                    None => 0,
                },
            ) + " or mountpoint "@ + (match mountpoint {
                Some(m) => m,
                None => ""@,
            }),
            ClientOperationView::Identify { device } => "Operation: Identify device "@
                + number::decimal(device as nat),
            ClientOperationView::Getstatus { device } => "Operation: Get status of device "@
                + number::decimal(device as nat),
            ClientOperationView::Kill => "Operation: Kill daemon"@,
        }
    }
}

impl ClientOperation {
    /// How the operation is logged.
    pub fn log(&self) -> (s: String)
        ensures
            s@ == self@.text(),
    {
        match self {
            ClientOperation::Resetbus => "Operation: Reset Bus".to_owned(),
            ClientOperation::Mount { device, mountpoint, dummy_formats, .. } => {
                let mut s = "Operation: Mount device ".to_owned();
                push_decimal(&mut s, *device as u64);
                s.append(" at '");
                s.append(mountpoint.as_str());
                s.append("'");
                s.append(
                    if *dummy_formats {
                        " with dummy formats"
                    } else {
                        ""
                    },
                );
                s
            },
            ClientOperation::Unmount { device, mountpoint, .. } => {
                let mut s = "Operation: Unmount device ".to_owned();
                let d: u8 = match device {
                    Some(d) => *d,
                    None => 0,
                };
                push_decimal(&mut s, d as u64);
                s.append(" or mountpoint ");
                match mountpoint {
                    Some(m) => s.append(m.as_str()),
                    None => s.append(""),
                }
                s
            },
            ClientOperation::Identify { device } => {
                let mut s = "Operation: Identify device ".to_owned();
                push_decimal(&mut s, *device as u64);
                s
            },
            ClientOperation::Getstatus { device } => {
                let mut s = "Operation: Get status of device ".to_owned();
                push_decimal(&mut s, *device as u64);
                s
            },
            ClientOperation::Kill => "Operation: Kill daemon".to_owned(),
        }
    }
}

/// The arguments of the client.
#[derive(Debug)]
pub struct Args {
    pub operation: ClientOperation,
}

/// A mountpoint in its absolute form, or what is wrong with it.
pub open spec fn absolute_mountpoint(path: Seq<char>, vtype: ValidationType, facts: PathFacts) -> Result<
    Seq<char>,
    ErrorView,
> {
    let found = match validate::absolute_path(path, true, facts) {
        Err(s) => Err(s),
        Ok(p) => match validate::mountpoint_fault(p, vtype, facts) {
            Some(s) => Err(s),
            None => Ok(p),
        },
    };
    match found {
        Ok(p) => Ok(p),
        Err(s) => Err(
            mount::fault("Mountpoint validation failed"@, Fs1541ErrorView::Validation(s)),
        ),
    }
}

/// The error for an unmount that names too little or too much.
pub open spec fn bad_unmount(words: Seq<char>) -> ErrorView {
    mount::fault("Unmount validation failed"@, Fs1541ErrorView::Configuration(words))
}

/// What the client is to do, with absolute paths, or what is wrong with it.
pub open spec fn validated(op: ClientOperationView, facts: PathFacts) -> Result<
    ClientOperationView,
    ErrorView,
> {
    match op {
        ClientOperationView::Mount { device, dummy_formats, mountpoint, .. } => match (
        mount::device_fault(device)) {
            Some(e) => Err(e),
            None => match absolute_mountpoint(mountpoint, ValidationType::Mount, facts) {
                Ok(p) => Ok(
                    ClientOperationView::Mount {
                        device,
                        dummy_formats,
                        mountpoint: p,
                        path: Some(p),
                    },
                ),
                Err(e) => Err(e),
            },
        },
        ClientOperationView::Unmount { device, mountpoint, path } => match (device, mountpoint) {
            (None, None) => Err(
                bad_unmount("Either --device or mountpoint must be specified for unmount"@),
            ),
            (Some(_), Some(_)) => Err(
                bad_unmount("Only specify --device or mountpoint on unmount"@),
            ),
            (Some(d), None) => match mount::device_fault(d) {
                Some(e) => Err(e),
                None => Ok(op),
            },
            (None, Some(m)) => match absolute_mountpoint(m, ValidationType::Unmount, facts) {
                Ok(p) => Ok(
                    ClientOperationView::Unmount {
                        device,
                        mountpoint: Some(p),
                        path: Some(p),
                    },
                ),
                Err(e) => Err(e),
            },
        },
        ClientOperationView::Identify { device } => match mount::device_fault(device) {
            Some(e) => Err(e),
            None => Ok(op),
        },
        ClientOperationView::Getstatus { device } => match mount::device_fault(device) {
            Some(e) => Err(e),
            None => Ok(op),
        },
        _ => Ok(op),
    }
}

fn check_device(device: u8) -> (r: Result<(), Error>)
    ensures
        match mount::device_fault(device) {
            Some(f) => r matches Err(e) && e@ == f,
            None => r is Ok,
        },
{
    match validate_bus_device(device) {
        Ok(_) => Ok(()),
        Err(error) => Err(
            Error::Rs1541 { message: "Device validation failed".to_owned(), error },
        ),
    }
}

fn check_path(path: &str, vtype: ValidationType, facts: &PathFacts) -> (r: Result<String, Error>)
    ensures
        match absolute_mountpoint(path@, vtype, *facts) {
            Ok(p) => r matches Ok(q) && q@ == p,
            Err(f) => r matches Err(e) && e@ == f,
        },
{
    match validate_mountpoint(path, vtype, true, facts) {
        Ok(p) => Ok(p),
        Err(e) => {
            let words = match e {
                CbmError::ValidationError(s) => s,
                other => other.to_string(),
            };
            Err(
                Error::Fs1541 {
                    message: "Mountpoint validation failed".to_owned(),
                    error: Fs1541Error::Validation(words),
                },
            )
        },
    }
}

fn unmount_error(words: &str) -> (e: Error)
    ensures
        e@ == bad_unmount(words@),
{
    Error::Fs1541 {
        message: "Unmount validation failed".to_owned(),
        error: Fs1541Error::Configuration(words.to_owned()),
    }
}

impl Args {
    /// Validates the arguments, given what is known of the path they name. Paths come back
    /// in their absolute form.
    pub fn validate(self, facts: &PathFacts) -> (r: Result<Self, Error>)
        ensures
            match validated(self.operation@, *facts) {
                Ok(op) => r matches Ok(args) && args.operation@ == op,
                Err(f) => r matches Err(e) && e@ == f,
            },
    {
        match self.operation {
            ClientOperation::Mount { device, dummy_formats, mountpoint, .. } => {
                match check_device(device) {
                    Ok(_) => {},
                    Err(e) => return Err(e),
                }
                match check_path(mountpoint.as_str(), ValidationType::Mount, facts) {
                    Ok(p) => Ok(
                        Args {
                            operation: ClientOperation::Mount {
                                device,
                                dummy_formats,
                                mountpoint: p.clone(),
                                path: Some(p),
                            },
                        },
                    ),
                    Err(e) => Err(e),
                }
            },
            ClientOperation::Unmount { device, mountpoint, path } => match (device, mountpoint) {
                (None, None) => Err(
                    unmount_error("Either --device or mountpoint must be specified for unmount"),
                ),
                (Some(_), Some(_)) => Err(
                    unmount_error("Only specify --device or mountpoint on unmount"),
                ),
                (Some(d), None) => match check_device(d) {
                    Ok(_) => Ok(
                        Args {
                            operation: ClientOperation::Unmount {
                                device: Some(d),
                                mountpoint: None,
                                path,
                            },
                        },
                    ),
                    Err(e) => Err(e),
                },
                (None, Some(m)) => match check_path(m.as_str(), ValidationType::Unmount, facts) {
                    Ok(p) => Ok(
                        Args {
                            operation: ClientOperation::Unmount {
                                device: None,
                                mountpoint: Some(p.clone()),
                                path: Some(p),
                            },
                        },
                    ),
                    Err(e) => Err(e),
                },
            },
            ClientOperation::Identify { device } => match check_device(device) {
                Ok(_) => Ok(Args { operation: ClientOperation::Identify { device } }),
                Err(e) => Err(e),
            },
            ClientOperation::Getstatus { device } => match check_device(device) {
                Ok(_) => Ok(Args { operation: ClientOperation::Getstatus { device } }),
                Err(e) => Err(e),
            },
            ClientOperation::Resetbus => Ok(Args { operation: ClientOperation::Resetbus }),
            ClientOperation::Kill => Ok(Args { operation: ClientOperation::Kill }),
        }
    }
}

/// What was validated is validated again without a change, where its paths are still known
/// by the same facts.
pub proof fn law_validation_is_final(op: ClientOperationView, facts: PathFacts)
    requires
        validated(op, facts) is Ok,
        facts.canonical matches Ok(p) ==> validate::is_absolute(p@),
    ensures
        validated(validated(op, facts)->Ok_0, facts) == validated(op, facts),
{
}

} // verus!
