//! What client and daemon say to each other.
use vstd::prelude::*;

use crate::number;
use crate::number::push_decimal;

verus! {

/// Where the daemon listens.
pub const SOCKET_PATH: &'static str = "/tmp/1541fs.sock";

/// The name of the daemon's program.
pub const DAEMON_PNAME: &'static str = "1541fsd";

/// Where the daemon leaves the number of its process.
pub const DAEMON_PID_FILENAME: &'static str = "/tmp/1541d.pid";

/// What a client can ask for.
#[allow(inconsistent_fields)]
#[derive(Debug, PartialEq)]
pub enum Request {
    Mount { mountpoint: String, device: u8, dummy_formats: bool, bus_reset: bool },
    /// Either mountpoint or device can be sent
    Unmount { mountpoint: Option<String>, device: Option<u8> },
    BusReset,
    Ping,
    Die,
    Identify { device: u8 },
    GetStatus { device: u8 },
}

impl Clone for Request {
    fn clone(&self) -> (r: Self)
        ensures
            r == *self,
    {
        match self {
            Request::Mount { mountpoint, device, dummy_formats, bus_reset } => Request::Mount {
                mountpoint: mountpoint.clone(),
                device: *device,
                dummy_formats: *dummy_formats,
                bus_reset: *bus_reset,
            },
            Request::Unmount { mountpoint, device } => Request::Unmount {
                mountpoint: match mountpoint {
                    Some(s) => Some(s.clone()),
                    None => None,
                },
                device: *device,
            },
            Request::BusReset => Request::BusReset,
            Request::Ping => Request::Ping,
            Request::Die => Request::Die,
            Request::Identify { device } => Request::Identify { device: *device },
            Request::GetStatus { device } => Request::GetStatus { device: *device },
        }
    }
}

/// How a boolean is written.
pub open spec fn bool_text(b: bool) -> Seq<char> {
    if b {
        "true"@
    } else {
        "false"@
    }
}

/// How a boolean is written.
pub fn bool_str(b: bool) -> (r: &'static str)
    ensures
        r@ == bool_text(b),
{
    if b {
        "true"
    } else {
        "false"
    }
}

/// The text of a request.
pub open spec fn request_text(r: Request) -> Seq<char> {
    match r {
        Request::Mount { mountpoint, device, dummy_formats, bus_reset } => "Mount request: device "@
            + number::decimal(device as nat) + " at '"@ + mountpoint@ + "' (dummy formats: "@
            + bool_text(dummy_formats) + ", bus reset: "@ + bool_text(bus_reset) + ")"@,
        Request::Unmount { mountpoint: Some(path), device: None } => "Unmount request: path '"@
            + path@ + "'"@,
        Request::Unmount { mountpoint: None, device: Some(dev) } => "Unmount request: device "@
            + number::decimal(dev as nat),
        Request::Unmount {
            mountpoint: Some(path),
            device: Some(dev),
        } => "Unmount request: device "@ + number::decimal(dev as nat) + " at '"@ + path@ + "'"@,
        Request::Unmount { mountpoint: None, device: None } => "Unmount request: no target specified"@,
        Request::BusReset => "Bus reset request"@,
        Request::Ping => "Ping request"@,
        Request::Die => "Shutdown request"@,
        Request::Identify { device } => "Identify request: device "@ + number::decimal(
            device as nat,
        ),
        Request::GetStatus { device } => "Get status request: device "@ + number::decimal(
            device as nat,
        ),
    }
}

impl Request {
    /// The text of the request.
    pub fn to_string(&self) -> (s: String)
        ensures
            s@ == request_text(*self),
    {
        match self {
            Request::Mount { mountpoint, device, dummy_formats, bus_reset } => {
                let mut s = "Mount request: device ".to_owned();
                push_decimal(&mut s, *device as u64);
                s.append(" at '");
                s.append(mountpoint.as_str());
                s.append("' (dummy formats: ");
                s.append(bool_str(*dummy_formats));
                s.append(", bus reset: ");
                s.append(bool_str(*bus_reset));
                s.append(")");
                s
            },
            Request::Unmount { mountpoint, device } => match (mountpoint, device) {
                (Some(path), None) => {
                    let mut s = "Unmount request: path '".to_owned();
                    s.append(path.as_str());
                    s.append("'");
                    s
                },
                (None, Some(dev)) => {
                    let mut s = "Unmount request: device ".to_owned();
                    push_decimal(&mut s, *dev as u64);
                    s
                },
                (Some(path), Some(dev)) => {
                    let mut s = "Unmount request: device ".to_owned();
                    push_decimal(&mut s, *dev as u64);
                    s.append(" at '");
                    s.append(path.as_str());
                    s.append("'");
                    s
                },
                (None, None) => "Unmount request: no target specified".to_owned(),
            },
            Request::BusReset => "Bus reset request".to_owned(),
            Request::Ping => "Ping request".to_owned(),
            Request::Die => "Shutdown request".to_owned(),
            Request::Identify { device } => {
                let mut s = "Identify request: device ".to_owned();
                push_decimal(&mut s, *device as u64);
                s
            },
            Request::GetStatus { device } => {
                let mut s = "Get status request: device ".to_owned();
                push_decimal(&mut s, *device as u64);
                s
            },
        }
    }
}

/// What the daemon can answer.
#[derive(Debug, PartialEq)]
pub enum Response {
    MountSuccess,
    UnmountSuccess,
    BusResetSuccess,
    Error(String),
    Pong,
    Dying,
    Identified { device_type: String, description: String },
    GotStatus(String),
}

/// What the daemon can answer, with its texts as sequences of characters.
#[verifier::ext_equal]
pub enum ResponseView {
    MountSuccess,
    UnmountSuccess,
    BusResetSuccess,
    Error(Seq<char>),
    Pong,
    Dying,
    Identified { device_type: Seq<char>, description: Seq<char> },
    GotStatus(Seq<char>),
}

impl View for Response {
    type V = ResponseView;

    open spec fn view(&self) -> ResponseView {
        match *self {
            Response::MountSuccess => ResponseView::MountSuccess,
            Response::UnmountSuccess => ResponseView::UnmountSuccess,
            Response::BusResetSuccess => ResponseView::BusResetSuccess,
            Response::Error(s) => ResponseView::Error(s@),
            Response::Pong => ResponseView::Pong,
            Response::Dying => ResponseView::Dying,
            Response::Identified { device_type, description } => ResponseView::Identified {
                device_type: device_type@,
                description: description@,
            },
            Response::GotStatus(s) => ResponseView::GotStatus(s@),
        }
    }
}

impl ResponseView {
    /// The text of the response.
    pub open spec fn text(self) -> Seq<char> {
        match self {
            ResponseView::MountSuccess => "Mount successful"@,
            ResponseView::UnmountSuccess => "Unmount successful"@,
            ResponseView::BusResetSuccess => "Bus reset successful"@,
            ResponseView::Error(s) => "Error: "@ + s,
            ResponseView::Pong => "Pong"@,
            ResponseView::Dying => "Shutting down"@,
            ResponseView::Identified { device_type, description } => "Device identified: "@
                + device_type + " ("@ + description + ")"@,
            ResponseView::GotStatus(s) => "Status: "@ + s,
        }
    }
}

impl Response {
    /// The text of the response.
    pub fn to_string(&self) -> (s: String)
        ensures
            s@ == self@.text(),
    {
        match self {
            Response::MountSuccess => "Mount successful".to_owned(),
            Response::UnmountSuccess => "Unmount successful".to_owned(),
            Response::BusResetSuccess => "Bus reset successful".to_owned(),
            Response::Error(msg) => {
                let mut s = "Error: ".to_owned();
                s.append(msg.as_str());
                s
            },
            Response::Pong => "Pong".to_owned(),
            Response::Dying => "Shutting down".to_owned(),
            Response::Identified { device_type, description } => {
                let mut s = "Device identified: ".to_owned();
                s.append(device_type.as_str());
                s.append(" (");
                s.append(description.as_str());
                s.append(")");
                s
            },
            Response::GotStatus(status) => {
                let mut s = "Status: ".to_owned();
                s.append(status.as_str());
                s
            },
        }
    }
}

} // verus!
