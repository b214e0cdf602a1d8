//! Work in the background: operations wait in queues by their priority and are done one
//! at a time.
use std::collections::VecDeque;
use vstd::prelude::*;

use crate::cbmtype;
use crate::cbmtype::{
    CbmDeviceInfo, CbmDeviceInfoView, CbmDeviceType, CbmError, CbmStatus, CbmStatusView,
};
use crate::dir::CbmDirListing;
use crate::error::{Error, ErrorView, Fs1541Error, Fs1541ErrorView};
use crate::number;
use crate::number::push_decimal;
use crate::time::{Duration, Instant};

verus! {

/// How many channels for responses are opened at most.
pub const MAX_BG_CHANNELS: usize = 16;

// ---------------------------------------------------------------------------
// Operations
// ---------------------------------------------------------------------------

/// How urgent an operation is.
#[derive(Debug, Clone, Copy, PartialEq, Eq, Structural)]
pub enum Priority {
    /// Bus reset
    Critical,
    /// Mount and unmount
    High,
    /// What the kernel asks for
    Normal,
    /// What clients ask for otherwise, and background tasks
    Low,
}

impl Priority {
    /// How many seconds an operation may take or wait.
    pub open spec fn seconds(self) -> u64 {
        match self {
            Priority::Critical => 30,
            Priority::High => 60,
            Priority::Normal => 120,
            Priority::Low => 300,
        }
    }

    /// The name of the priority.
    pub open spec fn name(self) -> Seq<char> {
        match self {
            Priority::Critical => "Critical"@,
            Priority::High => "High"@,
            Priority::Normal => "Normal"@,
            Priority::Low => "Low"@,
        }
    }

    /// The place of the priority: what comes first is done first.
    pub open spec fn rank(self) -> int {
        match self {
            Priority::Critical => 0,
            Priority::High => 1,
            Priority::Normal => 2,
            Priority::Low => 3,
        }
    }

    /// How long an operation may take or wait.
    pub fn timeout(&self) -> (d: Duration)
        ensures
            d == (Duration { secs: self.seconds(), nanos: 0 }),
    {
        match self {
            Priority::Critical => Duration::from_secs(30),
            Priority::High => Duration::from_secs(60),
            Priority::Normal => Duration::from_secs(120),
            Priority::Low => Duration::from_secs(300),
        }
    }

    /// The name of the priority.
    pub fn as_str(&self) -> (r: &'static str)
        ensures
            r@ == self.name(),
    {
        match self {
            Priority::Critical => "Critical",
            Priority::High => "High",
            Priority::Normal => "Normal",
            Priority::Low => "Low",
        }
    }
}

/// What can be done in the background.
#[allow(inconsistent_fields)]
#[derive(Debug)]
pub enum OpType {
    /// Reset the entire bus
    BusReset,
    Mount { device: u8, mountpoint: String, dummy_formats: bool, bus_reset: bool },
    Unmount { device: Option<u8>, mountpoint: Option<String> },
    ReadDirectory { device: u8 },
    ReadFile { device: u8, path: String, inode: u64 },
    WriteFile { device: u8, path: String, data: Vec<u8> },
    InitDrive { device: u8, drive_unit: u8 },
    Identify { device: u8 },
    GetStatus { device: u8 },
    /// Read a file for caching purposes
    ReadFileCache { device: u8, path: String, inode: u64 },
    /// Cancel all outstanding cache operations for a device
    CancelDeviceCache { device: u8 },
}

impl OpType {
    /// The name of the operation.
    pub open spec fn name(self) -> Seq<char> {
        match self {
            OpType::BusReset => "BusReset"@,
            OpType::Mount { .. } => "Mount"@,
            OpType::Unmount { .. } => "Unmount"@,
            OpType::ReadDirectory { .. } => "ReadDirectory"@,
            OpType::ReadFile { .. } => "ReadFile"@,
            OpType::WriteFile { .. } => "WriteFile"@,
            OpType::InitDrive { .. } => "InitDrive"@,
            OpType::Identify { .. } => "Identify"@,
            OpType::GetStatus { .. } => "GetStatus"@,
            OpType::ReadFileCache { .. } => "ReadFileCache"@,
            OpType::CancelDeviceCache { .. } => "CancelDeviceCache"@,
        }
    }

    /// How urgent the operation is. To cancel cache operations is critical, as it makes
    /// room for others.
    pub open spec fn urgency(self) -> Priority {
        match self {
            OpType::BusReset => Priority::Critical,
            OpType::CancelDeviceCache { .. } => Priority::Critical,
            OpType::Mount { .. } => Priority::High,
            OpType::Unmount { .. } => Priority::High,
            OpType::ReadFileCache { .. } => Priority::Low,
            _ => Priority::Normal,
        }
    }

    /// The name of the operation.
    pub fn as_str(&self) -> (r: &'static str)
        ensures
            r@ == self.name(),
    {
        match self {
            OpType::BusReset => "BusReset",
            OpType::Mount { .. } => "Mount",
            OpType::Unmount { .. } => "Unmount",
            OpType::ReadDirectory { .. } => "ReadDirectory",
            OpType::ReadFile { .. } => "ReadFile",
            OpType::WriteFile { .. } => "WriteFile",
            OpType::InitDrive { .. } => "InitDrive",
            OpType::Identify { .. } => "Identify",
            OpType::GetStatus { .. } => "GetStatus",
            OpType::ReadFileCache { .. } => "ReadFileCache",
            OpType::CancelDeviceCache { .. } => "CancelDeviceCache",
        }
    }

    /// How urgent the operation is.
    pub fn priority(&self) -> (r: Priority)
        ensures
            r == self.urgency(),
    {
        match self {
            OpType::BusReset => Priority::Critical,
            OpType::Mount { .. } => Priority::High,
            OpType::Unmount { .. } => Priority::High,
            OpType::ReadFile { .. } => Priority::Normal,
            OpType::WriteFile { .. } => Priority::Normal,
            OpType::ReadDirectory { .. } => Priority::Normal,
            OpType::InitDrive { .. } => Priority::Normal,
            OpType::Identify { .. } => Priority::Normal,
            OpType::GetStatus { .. } => Priority::Normal,
            OpType::ReadFileCache { .. } => Priority::Low,
            OpType::CancelDeviceCache { .. } => Priority::Critical,
        }
    }

    /// How long the operation may take.
    pub fn timeout(&self) -> (d: Duration)
        ensures
            d == (Duration { secs: self.urgency().seconds(), nanos: 0 }),
    {
        self.priority().timeout()
    }

    /// Whether the operation affects the entire bus or just a single drive.
    pub fn affects_bus(&self) -> (r: bool)
        ensures
            r == (*self is BusReset),
    {
        match self {
            OpType::BusReset => true,
            _ => false,
        }
    }

    /// Whether the operation requires exclusive access to the drive.
    pub fn requires_drive_access(&self) -> (r: bool)
        ensures
            r == !(*self is CancelDeviceCache),
    {
        match self {
            OpType::CancelDeviceCache { .. } => false,
            _ => true,
        }
    }
}

// ---------------------------------------------------------------------------
// Responses
// ---------------------------------------------------------------------------

/// What came of an operation.
#[derive(Debug)]
pub enum OpResponseType {
    BusReset,
    Mount,
    Unmount,
    ReadDirectory { status: CbmStatus, listings: Vec<CbmDirListing> },
    ReadFile { device: u8, path: String, inode: u64, status: CbmStatus, contents: Vec<u8> },
    WriteFile { device: u8, path: String, status: CbmStatus, bytes_written: u64 },
    InitDrive { status: CbmStatus },
    Identify { info: CbmDeviceInfo },
    GetStatus { status: CbmStatus },
    ReadFileCache { device: u8, path: String, inode: u64, status: CbmStatus, contents: Vec<u8> },
    CancelDeviceCache { device: u8 },
}

/// What came of an operation, with its texts and bytes as sequences.
#[verifier::ext_equal]
pub enum OpResponseView {
    BusReset,
    Mount,
    Unmount,
    ReadDirectory { status: CbmStatusView, listings: Seq<CbmDirListing> },
    ReadFile { device: u8, path: Seq<char>, inode: u64, status: CbmStatusView, contents: Seq<u8> },
    WriteFile { device: u8, path: Seq<char>, status: CbmStatusView, bytes_written: u64 },
    InitDrive { status: CbmStatusView },
    Identify { info: CbmDeviceInfoView },
    GetStatus { status: CbmStatusView },
    ReadFileCache {
        device: u8,
        path: Seq<char>,
        inode: u64,
        status: CbmStatusView,
        contents: Seq<u8>,
    },
    CancelDeviceCache { device: u8 },
}

impl View for OpResponseType {
    type V = OpResponseView;

    open spec fn view(&self) -> OpResponseView {
        match *self {
            OpResponseType::BusReset => OpResponseView::BusReset,
            OpResponseType::Mount => OpResponseView::Mount,
            OpResponseType::Unmount => OpResponseView::Unmount,
            OpResponseType::ReadDirectory { status, listings } => OpResponseView::ReadDirectory {
                status: status@,
                listings: listings@,
            },
            OpResponseType::ReadFile {
                device,
                path,
                inode,
                status,
                contents,
            } => OpResponseView::ReadFile {
                device,
                path: path@,
                inode,
                status: status@,
                contents: contents@,
            },
            OpResponseType::WriteFile {
                device,
                path,
                status,
                bytes_written,
            } => OpResponseView::WriteFile { device, path: path@, status: status@, bytes_written },
            OpResponseType::InitDrive { status } => OpResponseView::InitDrive { status: status@ },
            OpResponseType::Identify { info } => OpResponseView::Identify { info: info@ },
            OpResponseType::GetStatus { status } => OpResponseView::GetStatus { status: status@ },
            OpResponseType::ReadFileCache {
                device,
                path,
                inode,
                status,
                contents,
            } => OpResponseView::ReadFileCache {
                device,
                path: path@,
                inode,
                status: status@,
                contents: contents@,
            },
            OpResponseType::CancelDeviceCache { device } => OpResponseView::CancelDeviceCache {
                device,
            },
        }
    }
}

/// A result, with its texts as sequences.
pub open spec fn result_view(r: Result<OpResponseType, Error>) -> Result<
    OpResponseView,
    ErrorView,
> {
    match r {
        Ok(t) => Ok(t@),
        Err(e) => Err(e@),
    }
}

/// The empty response to an operation.
pub open spec fn empty_response(op: OpType) -> OpResponseView {
    match op {
        OpType::BusReset => OpResponseView::BusReset,
        OpType::Mount { .. } => OpResponseView::Mount,
        OpType::Unmount { .. } => OpResponseView::Unmount,
        OpType::ReadDirectory { .. } => OpResponseView::ReadDirectory {
            status: cbmtype::no_status(),
            listings: Seq::empty(),
        },
        OpType::ReadFile { device, path, inode } => OpResponseView::ReadFile {
            device,
            path: path@,
            inode,
            status: cbmtype::no_status(),
            contents: Seq::empty(),
        },
        OpType::WriteFile { device, path, .. } => OpResponseView::WriteFile {
            device,
            path: path@,
            status: cbmtype::no_status(),
            bytes_written: 0,
        },
        OpType::InitDrive { .. } => OpResponseView::InitDrive { status: cbmtype::no_status() },
        OpType::Identify { .. } => OpResponseView::Identify {
            info: CbmDeviceInfoView {
                device_type: CbmDeviceType::Unknown,
                description: "unknown"@,
            },
        },
        OpType::GetStatus { .. } => OpResponseView::GetStatus { status: cbmtype::no_status() },
        OpType::ReadFileCache { device, path, inode } => OpResponseView::ReadFileCache {
            device,
            path: path@,
            inode,
            status: cbmtype::no_status(),
            contents: Seq::empty(),
        },
        OpType::CancelDeviceCache { device } => OpResponseView::CancelDeviceCache { device },
    }
}

impl OpResponseType {
    /// The empty response to an operation.
    pub fn from_operation(op: OpType) -> (r: Self)
        ensures
            r@ == empty_response(op),
    {
        match op {
            OpType::BusReset => OpResponseType::BusReset,
            OpType::Mount { .. } => OpResponseType::Mount,
            OpType::Unmount { .. } => OpResponseType::Unmount,
            OpType::ReadDirectory { .. } => OpResponseType::ReadDirectory {
                status: CbmStatus::default(),
                listings: Vec::new(),
            },
            OpType::ReadFile { device, path, inode } => OpResponseType::ReadFile {
                device,
                path,
                inode,
                status: CbmStatus::default(),
                contents: Vec::new(),
            },
            OpType::WriteFile { device, path, .. } => OpResponseType::WriteFile {
                device,
                path,
                status: CbmStatus::default(),
                bytes_written: 0,
            },
            OpType::InitDrive { .. } => OpResponseType::InitDrive { status: CbmStatus::default() },
            OpType::Identify { .. } => OpResponseType::Identify { info: CbmDeviceInfo::default() },
            OpType::GetStatus { .. } => OpResponseType::GetStatus { status: CbmStatus::default() },
            OpType::ReadFileCache { device, path, inode } => OpResponseType::ReadFileCache {
                device,
                path,
                inode,
                status: CbmStatus::default(),
                contents: Vec::new(),
            },
            OpType::CancelDeviceCache { device } => OpResponseType::CancelDeviceCache { device },
        }
    }
}

/// A response, with the stream on which a client waits for it, if one does.
#[derive(Debug)]
pub struct OpResponse<W> {
    pub rsp: Result<OpResponseType, Error>,
    pub stream: Option<W>,
}

/// A line for each listing: the number of its drive and of its files.
pub open spec fn listing_lines(listings: Seq<CbmDirListing>) -> Seq<char>
    decreases listings.len(),
{
    if listings.len() == 0 {
        Seq::empty()
    } else {
        listing_lines(listings.drop_last()) + "Drive "@ + number::decimal(
            (listings.len() - 1) as nat,
        ) + ": "@ + number::decimal(listings.last().files@.len()) + " files\n"@
    }
}

/// The text for a file that was read.
pub open spec fn file_text(what: Seq<char>, len: nat, status: CbmStatusView) -> Seq<char> {
    what + number::decimal(len) + " bytes read, status: "@ + cbmtype::status_text(status)
}

impl OpResponseView {
    /// The text of what came of an operation.
    pub open spec fn text(self) -> Seq<char> {
        match self {
            OpResponseView::BusReset => "Bus Reset"@,
            OpResponseView::Mount => "Mount"@,
            OpResponseView::Unmount => "Unmount"@,
            OpResponseView::ReadDirectory { listings, .. } => "Read Directory\n"@ + listing_lines(
                listings,
            ),
            OpResponseView::ReadFile { contents, status, .. } => file_text(
                "Read File - "@,
                contents.len(),
                status,
            ),
            OpResponseView::WriteFile { device, path, status, bytes_written } => "Write File "@
                + number::decimal(device as nat) + " "@ + path + " - "@ + number::decimal(
                bytes_written as nat,
            ) + " bytes written, status: "@ + cbmtype::status_text(status),
            OpResponseView::InitDrive { status } => "Init Drive - status: "@
                + cbmtype::status_text(status),
            OpResponseView::Identify { info } => "Identify - device info: "@ + info.text(),
            OpResponseView::GetStatus { status } => "Get Status - "@ + cbmtype::status_text(status),
            OpResponseView::ReadFileCache { contents, status, .. } => file_text(
                "Read Cache File - "@,
                contents.len(),
                status,
            ),
            OpResponseView::CancelDeviceCache { device } => "Cancel Device Cache "@
                + number::decimal(device as nat),
        }
    }
}

/// The text of a response.
pub open spec fn response_text(rsp: Result<OpResponseView, ErrorView>, with_stream: bool) -> Seq<
    char,
> {
    let head = match rsp {
        Ok(t) => t.text(),
        Err(e) => "Error: "@ + e.text(),
    };
    if with_stream {
        head + " (with stream)"@
    } else {
        head
    }
}

fn file_read_text(what: &str, len: usize, status: &CbmStatus) -> (s: String)
    ensures
        s@ == file_text(what@, len as nat, status@),
{
    let mut s = what.to_owned();
    push_decimal(&mut s, len as u64);
    s.append(" bytes read, status: ");
    s.append(status.to_string().as_str());
    s
}

fn directory_text(listings: &Vec<CbmDirListing>) -> (s: String)
    ensures
        s@ == "Read Directory\n"@ + listing_lines(listings@),
{
    let mut s = "Read Directory\n".to_owned();
    let ghost head = s@;
    let mut i: usize = 0;
    assert(listings@.take(0) =~= Seq::empty());
    assert(head + listing_lines(listings@.take(0)) =~= head);
    while i < listings.len()
        invariant
            i <= listings@.len(),
            s@ == head + listing_lines(listings@.take(i as int)),
        decreases listings@.len() - i,
    {
        s.append("Drive ");
        push_decimal(&mut s, i as u64);
        s.append(": ");
        push_decimal(&mut s, listings[i].num_files() as u64);
        s.append(" files\n");
        assert(listings@.take(i + 1).drop_last() =~= listings@.take(i as int));
        assert(s@ =~= head + listing_lines(listings@.take(i + 1)));
        i = i + 1;
    }
    assert(listings@.take(i as int) =~= listings@);
    s
}

impl OpResponseType {
    /// The text of what came of an operation.
    pub fn to_string(&self) -> (s: String)
        ensures
            s@ == self@.text(),
    {
        match self {
            OpResponseType::BusReset => "Bus Reset".to_owned(),
            OpResponseType::Mount => "Mount".to_owned(),
            OpResponseType::Unmount => "Unmount".to_owned(),
            OpResponseType::ReadDirectory { listings, .. } => directory_text(listings),
            OpResponseType::ReadFile { contents, status, .. } => file_read_text(
                "Read File - ",
                contents.len(),
                status,
            ),
            OpResponseType::WriteFile { device, path, status, bytes_written } => {
                let mut s = "Write File ".to_owned();
                push_decimal(&mut s, *device as u64);
                s.append(" ");
                s.append(path.as_str());
                s.append(" - ");
                push_decimal(&mut s, *bytes_written);
                s.append(" bytes written, status: ");
                s.append(status.to_string().as_str());
                s
            },
            OpResponseType::InitDrive { status } => {
                let mut s = "Init Drive - status: ".to_owned();
                s.append(status.to_string().as_str());
                s
            },
            OpResponseType::Identify { info } => {
                let mut s = "Identify - device info: ".to_owned();
                s.append(info.to_string().as_str());
                s
            },
            OpResponseType::GetStatus { status } => {
                let mut s = "Get Status - ".to_owned();
                s.append(status.to_string().as_str());
                s
            },
            OpResponseType::ReadFileCache { contents, status, .. } => file_read_text(
                "Read Cache File - ",
                contents.len(),
                status,
            ),
            OpResponseType::CancelDeviceCache { device } => {
                let mut s = "Cancel Device Cache ".to_owned();
                push_decimal(&mut s, *device as u64);
                s
            },
        }
    }
}

impl<W> OpResponse<W> {
    /// A response that tells of an error.
    pub fn with_error(error: Error, stream: Option<W>) -> (r: Self)
        ensures
            r == (OpResponse { rsp: Err(error), stream }),
    {
        OpResponse { rsp: Err(error), stream }
    }

    /// The empty response to an operation.
    pub fn from_operation<S>(op: Operation<S, W>) -> (r: Self)
        ensures
            r.rsp matches Ok(t) && t@ == empty_response(op.op_type),
            r.stream == op.stream,
    {
        OpResponse { rsp: Ok(OpResponseType::from_operation(op.op_type)), stream: op.stream }
    }

    /// Takes the stream out of the response.
    pub fn take_stream(&mut self) -> (r: Result<W, Error>)
        ensures
            final(self).rsp == old(self).rsp,
            final(self).stream is None,
            match old(self).stream {
                Some(w) => r == Ok::<W, Error>(w),
                None => r matches Err(e) && e@ == (ErrorView::Fs1541 {
                    message: "Couldn't resond to request from client"@,
                    error: Fs1541ErrorView::Internal("No stream on OpResponse"@),
                }),
            },
    {
        match self.stream.take() {
            Some(w) => Ok(w),
            None => Err(
                Error::Fs1541 {
                    message: "Couldn't resond to request from client".to_owned(),
                    error: Fs1541Error::Internal("No stream on OpResponse".to_owned()),
                },
            ),
        }
    }

    /// The text of the response.
    pub fn to_string(&self) -> (s: String)
        requires
            self.rsp matches Err(e) ==> e@.wf(),
        ensures
            s@ == response_text(result_view(self.rsp), self.stream is Some),
    {
        let mut s = match &self.rsp {
            Ok(t) => t.to_string(),
            Err(e) => {
                let mut s = "Error: ".to_owned();
                s.append(e.to_string().as_str());
                s
            },
        };
        if self.stream.is_some() {
            s.append(" (with stream)");
        }
        s
    }
}

// ---------------------------------------------------------------------------
// Queues
// ---------------------------------------------------------------------------

/// An operation that waits to be done, with whom to send the response to, and the stream
/// on which a client waits for it, if one does.
#[derive(Debug)]
pub struct Operation<S, W> {
    pub priority: Priority,
    pub op_type: OpType,
    pub created_at: Instant,
    pub sender: S,
    pub stream: Option<W>,
}

impl<S, W> Operation<S, W> {
    /// An operation that has just come up, as urgent as its type is.
    pub fn new(op_type: OpType, sender: S, stream: Option<W>, now: Instant) -> (r: Self)
        ensures
            r == (Operation {
                priority: op_type.urgency(),
                op_type,
                created_at: now,
                sender,
                stream,
            }),
    {
        Operation { priority: op_type.priority(), op_type, created_at: now, sender, stream }
    }

    /// An operation that has just come up, with a priority of its own.
    pub fn with_priority(
        priority: Priority,
        op_type: OpType,
        sender: S,
        stream: Option<W>,
        now: Instant,
    ) -> (r: Self)
        ensures
            r == (Operation { priority, op_type, created_at: now, sender, stream }),
    {
        Operation { priority, op_type, created_at: now, sender, stream }
    }

    /// How long the operation may wait, and then take.
    pub fn priority_timeout(&self) -> (d: Duration)
        ensures
            d == (Duration { secs: self.priority.seconds(), nanos: 0 }),
    {
        self.priority.timeout()
    }

    /// Gives the operation the stream on which a client waits. It has only one.
    pub fn set_stream(&mut self, stream: W) -> (r: Result<(), Error>)
        ensures
            match old(self).stream {
                Some(_) => *final(self) == *old(self) && (r matches Err(e) && e@ == (
                ErrorView::Fs1541 {
                    message: "Couldn't handle request from client"@,
                    error: Fs1541ErrorView::Internal("Operation stream already set"@),
                })),
                None => r is Ok && *final(self) == (Operation {
                    stream: Some(stream),
                    ..*old(self)
                }),
            },
    {
        if self.stream.is_some() {
            return Err(
                Error::Fs1541 {
                    message: "Couldn't handle request from client".to_owned(),
                    error: Fs1541Error::Internal("Operation stream already set".to_owned()),
                },
            );
        }
        self.stream = Some(stream);
        Ok(())
    }
}

/// Why operations are taken out of their queues.
#[derive(Debug, Clone, Copy, PartialEq, Eq, Structural)]
pub enum Purge {
    /// They have waited for too long
    Aged { now: Instant },
    /// They fill the cache for a device
    DeviceCache { device: u8 },
}

impl Purge {
    /// The operation is taken out.
    pub open spec fn takes<S, W>(self, op: Operation<S, W>) -> bool {
        match self {
            Purge::Aged { now } => now.nanos - op.created_at.nanos >= op.priority.seconds()
                * 1_000_000_000,
            Purge::DeviceCache { device } => op.op_type matches OpType::ReadFileCache {
                device: d,
                ..
            } && d == device,
        }
    }

    /// What is said of it.
    pub open spec fn reason(self, priority: Priority) -> Fs1541ErrorView {
        match self {
            Purge::Aged { .. } => Fs1541ErrorView::Timeout(
                "Priority "@ + priority.name(),
                Duration { secs: priority.seconds(), nanos: 0 },
            ),
            Purge::DeviceCache { device } => Fs1541ErrorView::Cancelled(
                "Device "@ + number::decimal(device as nat) + " cache cleared"@,
            ),
        }
    }

    /// What the sender of an operation is told.
    pub open spec fn error(self, priority: Priority) -> ErrorView {
        let reason = self.reason(priority);
        ErrorView::Fs1541 { message: reason.text(), error: reason }
    }

    fn should_remove<S, W>(&self, op: &Operation<S, W>) -> (r: bool)
        ensures
            r == self.takes(*op),
    {
        match self {
            Purge::Aged { now } => {
                let age: u128 = now.since(&op.created_at);
                age >= op.priority_timeout().secs as u128 * 1_000_000_000
            },
            Purge::DeviceCache { device } => match &op.op_type {
                OpType::ReadFileCache { device: d, .. } => *d == *device,
                _ => false,
            },
        }
    }

    fn make_error(&self, priority: Priority) -> (e: Error)
        ensures
            e@ == self.error(priority),
    {
        let error = match self {
            Purge::Aged { .. } => {
                let mut s = "Priority ".to_owned();
                s.append(priority.as_str());
                Fs1541Error::Timeout(s, priority.timeout())
            },
            Purge::DeviceCache { device } => {
                let mut s = "Device ".to_owned();
                push_decimal(&mut s, *device as u64);
                s.append(" cache cleared");
                Fs1541Error::Cancelled(s)
            },
        };
        Error::Fs1541 { message: error.to_string(), error }
    }
}

/// A response and whom to send it to.
#[derive(Debug)]
pub struct Notice<S, W> {
    pub sender: S,
    pub response: OpResponse<W>,
}

/// The notice tells the sender of an operation why it was taken out, on its stream.
pub open spec fn tells<S, W>(notice: Notice<S, W>, op: Operation<S, W>, purge: Purge) -> bool {
    &&& notice.sender == op.sender
    &&& notice.response.stream == op.stream
    &&& notice.response.rsp matches Err(e) && e@ == purge.error(op.priority)
}

/// There is a notice for each operation, in order.
pub open spec fn tells_all<S, W>(
    notices: Seq<Notice<S, W>>,
    ops: Seq<Operation<S, W>>,
    purge: Purge,
) -> bool {
    &&& notices.len() == ops.len()
    &&& forall|i: int| 0 <= i < ops.len() ==> tells(#[trigger] notices[i], ops[i], purge)
}

/// The operations that are taken out.
pub open spec fn taken<S, W>(ops: Seq<Operation<S, W>>, purge: Purge) -> Seq<Operation<S, W>>
    decreases ops.len(),
{
    if ops.len() == 0 {
        Seq::empty()
    } else if purge.takes(ops.last()) {
        taken(ops.drop_last(), purge).push(ops.last())
    } else {
        taken(ops.drop_last(), purge)
    }
}

/// The operations that stay.
pub open spec fn kept<S, W>(ops: Seq<Operation<S, W>>, purge: Purge) -> Seq<Operation<S, W>>
    decreases ops.len(),
{
    if ops.len() == 0 {
        Seq::empty()
    } else if purge.takes(ops.last()) {
        kept(ops.drop_last(), purge)
    } else {
        kept(ops.drop_last(), purge).push(ops.last())
    }
}

/// The operations that wait, in a queue for each priority.
#[derive(Debug)]
pub struct OperationQueues<S, W> {
    critical: VecDeque<Operation<S, W>>,
    high: VecDeque<Operation<S, W>>,
    normal: VecDeque<Operation<S, W>>,
    low: VecDeque<Operation<S, W>>,
}

/// The queues as sequences.
#[verifier::ext_equal]
pub struct QueuesView<S, W> {
    pub critical: Seq<Operation<S, W>>,
    pub high: Seq<Operation<S, W>>,
    pub normal: Seq<Operation<S, W>>,
    pub low: Seq<Operation<S, W>>,
}

impl<S, W> View for OperationQueues<S, W> {
    type V = QueuesView<S, W>;

    closed spec fn view(&self) -> QueuesView<S, W> {
        QueuesView {
            critical: self.critical@,
            high: self.high@,
            normal: self.normal@,
            low: self.low@,
        }
    }
}

/// Every operation in a queue has the priority of the queue.
pub open spec fn all_have<S, W>(ops: Seq<Operation<S, W>>, priority: Priority) -> bool {
    forall|i: int| 0 <= i < ops.len() ==> (#[trigger] ops[i]).priority == priority
}

impl<S, W> QueuesView<S, W> {
    /// No operation is in the wrong queue.
    pub open spec fn wf(self) -> bool {
        &&& all_have(self.critical, Priority::Critical)
        &&& all_have(self.high, Priority::High)
        &&& all_have(self.normal, Priority::Normal)
        &&& all_have(self.low, Priority::Low)
    }

    /// The operations in the order in which they are done.
    pub open spec fn order(self) -> Seq<Operation<S, W>> {
        self.critical + self.high + self.normal + self.low
    }

    /// The queues with an operation at the end of its queue.
    pub open spec fn pushed(self, op: Operation<S, W>) -> QueuesView<S, W> {
        match op.priority {
            Priority::Critical => QueuesView { critical: self.critical.push(op), ..self },
            Priority::High => QueuesView { high: self.high.push(op), ..self },
            Priority::Normal => QueuesView { normal: self.normal.push(op), ..self },
            Priority::Low => QueuesView { low: self.low.push(op), ..self },
        }
    }

    /// The queues without the first operation of the first queue that has one.
    pub open spec fn popped(self) -> QueuesView<S, W> {
        if self.critical.len() > 0 {
            QueuesView { critical: self.critical.skip(1), ..self }
        } else if self.high.len() > 0 {
            QueuesView { high: self.high.skip(1), ..self }
        } else if self.normal.len() > 0 {
            QueuesView { normal: self.normal.skip(1), ..self }
        } else if self.low.len() > 0 {
            QueuesView { low: self.low.skip(1), ..self }
        } else {
            self
        }
    }

    /// The queues without what is taken out.
    pub open spec fn purged(self, purge: Purge) -> QueuesView<S, W> {
        QueuesView {
            critical: kept(self.critical, purge),
            high: kept(self.high, purge),
            normal: kept(self.normal, purge),
            low: kept(self.low, purge),
        }
    }

    /// What is taken out, queue by queue.
    pub open spec fn taken_out(self, purge: Purge) -> Seq<Operation<S, W>> {
        taken(self.critical, purge) + taken(self.high, purge) + taken(self.normal, purge) + taken(
            self.low,
            purge,
        )
    }
}

fn process_queue<S, W>(
    queue: &mut VecDeque<Operation<S, W>>,
    purge: Purge,
    notices: &mut Vec<Notice<S, W>>,
    done: Ghost<Seq<Operation<S, W>>>,
)
    requires
        tells_all(old(notices)@, done@, purge),
    ensures
        final(queue)@ == kept(old(queue)@, purge),
        tells_all(final(notices)@, done@ + taken(old(queue)@, purge), purge),
{
    let n: usize = queue.len();
    let ghost all = queue@;
    let mut i: usize = 0;
    assert(all.take(0) =~= Seq::empty());
    assert(all.skip(0) + kept(all.take(0), purge) =~= all);
    assert(done@ + taken(all.take(0), purge) =~= done@);
    while i < n
        invariant
            i <= n,
            n == all.len(),
            queue@ == all.skip(i as int) + kept(all.take(i as int), purge),
            tells_all(notices@, done@ + taken(all.take(i as int), purge), purge),
        decreases n - i,
    {
        let ghost kept_before = kept(all.take(i as int), purge);
        let ghost taken_before = done@ + taken(all.take(i as int), purge);
        assert(all.take(i + 1).drop_last() =~= all.take(i as int));
        assert(queue@[0] == all[i as int]);
        match queue.pop_front() {
            Some(op) => {
                assert(queue@ =~= all.skip(i + 1) + kept_before);
                if purge.should_remove(&op) {
                    let response = OpResponse {
                        rsp: Err(purge.make_error(op.priority)),
                        stream: op.stream,
                    };
                    notices.push(Notice { sender: op.sender, response });
                    assert(done@ + taken(all.take(i + 1), purge) =~= taken_before.push(
                        all[i as int],
                    ));
                } else {
                    queue.push_back(op);
                    assert(queue@ =~= all.skip(i + 1) + kept_before.push(all[i as int]));
                }
            },
            None => {},
        }
        i = i + 1;
    }
    assert(all.take(n as int) =~= all);
    assert(queue@ =~= kept(all, purge));
}

impl<S, W> OperationQueues<S, W> {
    /// Nothing waits.
    pub fn new() -> (q: Self)
        ensures
            q@.order() == Seq::<Operation<S, W>>::empty(),
            q@.wf(),
    {
        OperationQueues {
            critical: VecDeque::new(),
            high: VecDeque::new(),
            normal: VecDeque::new(),
            low: VecDeque::new(),
        }
    }

    /// Puts an operation at the end of the queue for its priority.
    pub fn push(&mut self, op: Operation<S, W>)
        ensures
            final(self)@ == old(self)@.pushed(op),
            old(self)@.wf() ==> final(self)@.wf(),
    {
        match op.priority {
            Priority::Critical => self.critical.push_back(op),
            Priority::High => self.high.push_back(op),
            Priority::Normal => self.normal.push_back(op),
            Priority::Low => self.low.push_back(op),
        }
    }

    /// Takes the operation that is to be done next: the first of the most urgent ones.
    pub fn pop_next(&mut self) -> (r: Option<Operation<S, W>>)
        ensures
            final(self)@ == old(self)@.popped(),
            old(self)@.wf() ==> final(self)@.wf(),
            match r {
                Some(op) => old(self)@.order().len() > 0 && op == old(self)@.order()[0],
                None => old(self)@.order().len() == 0,
            },
    {
        if self.critical.len() > 0 {
            let r = self.critical.pop_front();
            assert(self.critical@ =~= old(self).critical@.skip(1));
            return r;
        }
        if self.high.len() > 0 {
            let r = self.high.pop_front();
            assert(self.high@ =~= old(self).high@.skip(1));
            return r;
        }
        if self.normal.len() > 0 {
            let r = self.normal.pop_front();
            assert(self.normal@ =~= old(self).normal@.skip(1));
            return r;
        }
        let r = self.low.pop_front();
        assert(old(self).low@.len() > 0 ==> self.low@ =~= old(self).low@.skip(1));
        r
    }

    fn process_all_queues(&mut self, purge: Purge) -> (notices: Vec<Notice<S, W>>)
        ensures
            final(self)@ == old(self)@.purged(purge),
            tells_all(notices@, old(self)@.taken_out(purge), purge),
    {
        let mut notices: Vec<Notice<S, W>> = Vec::new();
        let ghost q = self@;
        let ghost t0 = Seq::<Operation<S, W>>::empty();
        process_queue(&mut self.critical, purge, &mut notices, Ghost(t0));
        let ghost t1 = taken(q.critical, purge);
        assert(t0 + t1 =~= t1);
        process_queue(&mut self.high, purge, &mut notices, Ghost(t1));
        let ghost t2 = t1 + taken(q.high, purge);
        process_queue(&mut self.normal, purge, &mut notices, Ghost(t2));
        let ghost t3 = t2 + taken(q.normal, purge);
        process_queue(&mut self.low, purge, &mut notices, Ghost(t3));
        notices
    }

    /// Takes out the operations that have waited for too long, and tells their senders.
    pub fn cleanup_on_age(&mut self, now: Instant) -> (notices: Vec<Notice<S, W>>)
        ensures
            final(self)@ == old(self)@.purged(Purge::Aged { now }),
            tells_all(
                notices@,
                old(self)@.taken_out(Purge::Aged { now }),
                Purge::Aged { now },
            ),
            old(self)@.wf() ==> final(self)@.wf(),
    {
        proof {
            if self@.wf() {
                lemma_purged_wf(self@, Purge::Aged { now });
            }
        }
        self.process_all_queues(Purge::Aged { now })
    }

    /// Takes out the operations that fill the cache for a device, and tells their senders.
    pub fn remove_cache_for_device(&mut self, device: u8) -> (notices: Vec<Notice<S, W>>)
        ensures
            final(self)@ == old(self)@.purged(Purge::DeviceCache { device }),
            tells_all(
                notices@,
                old(self)@.taken_out(Purge::DeviceCache { device }),
                Purge::DeviceCache { device },
            ),
            old(self)@.wf() ==> final(self)@.wf(),
    {
        proof {
            if self@.wf() {
                lemma_purged_wf(self@, Purge::DeviceCache { device });
            }
        }
        self.process_all_queues(Purge::DeviceCache { device })
    }
}

proof fn lemma_kept_have<S, W>(ops: Seq<Operation<S, W>>, purge: Purge, priority: Priority)
    requires
        all_have(ops, priority),
    ensures
        all_have(kept(ops, purge), priority),
    decreases ops.len(),
{
    if ops.len() > 0 {
        assert(all_have(ops.drop_last(), priority));
        lemma_kept_have(ops.drop_last(), purge, priority);
        assert(ops.last() == ops[ops.len() - 1]);
    }
}

proof fn lemma_purged_wf<S, W>(q: QueuesView<S, W>, purge: Purge)
    requires
        q.wf(),
    ensures
        q.purged(purge).wf(),
{
    lemma_kept_have(q.critical, purge, Priority::Critical);
    lemma_kept_have(q.high, purge, Priority::High);
    lemma_kept_have(q.normal, purge, Priority::Normal);
    lemma_kept_have(q.low, purge, Priority::Low);
}

// ---------------------------------------------------------------------------
// The order of the work
// ---------------------------------------------------------------------------

/// An operation that comes up is done after all that wait with the same priority or a
/// higher one, and before all others, whose order stays as it was.
pub proof fn law_push_order<S, W>(q: QueuesView<S, W>, op: Operation<S, W>)
    ensures
        ({
            let k = match op.priority {
                Priority::Critical => q.critical.len(),
                Priority::High => q.critical.len() + q.high.len(),
                Priority::Normal => q.critical.len() + q.high.len() + q.normal.len(),
                Priority::Low => q.order().len(),
            } as int;
            q.pushed(op).order() == q.order().take(k) + seq![op] + q.order().skip(k)
        }),
{
    let k = match op.priority {
        Priority::Critical => q.critical.len(),
        Priority::High => q.critical.len() + q.high.len(),
        Priority::Normal => q.critical.len() + q.high.len() + q.normal.len(),
        Priority::Low => q.order().len(),
    } as int;
    assert(q.pushed(op).order() =~= q.order().take(k) + seq![op] + q.order().skip(k));
}

/// The operation that is taken is the first in order, and the others stay in order.
pub proof fn law_pop_order<S, W>(q: QueuesView<S, W>)
    ensures
        q.order().len() > 0 ==> q.popped().order() == q.order().skip(1),
        q.order().len() == 0 ==> q.popped() == q,
{
    if q.order().len() > 0 {
        assert(q.popped().order() =~= q.order().skip(1));
    }
}

/// The order is that of the priorities: no operation is done while a more urgent one
/// waits.
pub proof fn law_order_is_by_priority<S, W>(q: QueuesView<S, W>, i: int, j: int)
    requires
        q.wf(),
        0 <= i <= j < q.order().len(),
    ensures
        q.order()[i].priority.rank() <= q.order()[j].priority.rank(),
{
    lemma_place(q, i);
    lemma_place(q, j);
}

proof fn lemma_place<S, W>(q: QueuesView<S, W>, i: int)
    requires
        q.wf(),
        0 <= i < q.order().len(),
    ensures
        q.order()[i].priority.rank() == (if i < q.critical.len() {
            0int
        } else if i < q.critical.len() + q.high.len() {
            1int
        } else if i < q.critical.len() + q.high.len() + q.normal.len() {
            2int
        } else {
            3int
        }),
{
    let a = q.critical.len() as int;
    let b = a + q.high.len();
    let c = b + q.normal.len();
    if i < a {
        assert(q.order()[i] == q.critical[i]);
    } else if i < b {
        assert(q.order()[i] == q.high[i - a]);
    } else if i < c {
        assert(q.order()[i] == q.normal[i - b]);
    } else {
        assert(q.order()[i] == q.low[i - c]);
    }
}

/// Nothing is lost: what is taken out of a queue and what stays is what was in it. What
/// stays was not to be taken, and what is taken was.
pub proof fn law_purge<S, W>(ops: Seq<Operation<S, W>>, purge: Purge)
    ensures
        kept(ops, purge).to_multiset().add(taken(ops, purge).to_multiset()) == ops.to_multiset(),
        kept(ops, purge).len() + taken(ops, purge).len() == ops.len(),
        forall|i: int|
            0 <= i < kept(ops, purge).len() ==> !purge.takes(#[trigger] kept(ops, purge)[i]),
        forall|i: int|
            0 <= i < taken(ops, purge).len() ==> purge.takes(#[trigger] taken(ops, purge)[i]),
    decreases ops.len(),
{
    broadcast use vstd::seq_lib::group_to_multiset_ensures;

    if ops.len() > 0 {
        let before = ops.drop_last();
        law_purge(before, purge);
        assert(ops =~= before.push(ops.last()));
        if purge.takes(ops.last()) {
            assert(kept(ops, purge).to_multiset().add(taken(ops, purge).to_multiset())
                =~= before.to_multiset().insert(ops.last()));
        } else {
            assert(kept(ops, purge).to_multiset().add(taken(ops, purge).to_multiset())
                =~= before.to_multiset().insert(ops.last()));
        }
    } else {
        assert(ops =~= Seq::empty());
        assert(kept(ops, purge).to_multiset().add(taken(ops, purge).to_multiset())
            =~= ops.to_multiset());
    }
}

/// Where nothing is to be taken out, the queue stays as it is.
pub proof fn law_purge_of_nothing<S, W>(ops: Seq<Operation<S, W>>, purge: Purge)
    requires
        forall|i: int| 0 <= i < ops.len() ==> !purge.takes(#[trigger] ops[i]),
    ensures
        kept(ops, purge) == ops,
        taken(ops, purge).len() == 0,
    decreases ops.len(),
{
    if ops.len() > 0 {
        assert(!purge.takes(ops[ops.len() - 1]));
        let before = ops.drop_last();
        assert forall|i: int| 0 <= i < before.len() implies !purge.takes(#[trigger] before[i]) by {
            assert(!purge.takes(ops[i]));
        }
        law_purge_of_nothing(before, purge);
        assert(kept(ops, purge) =~= ops);
    }
}

// ---------------------------------------------------------------------------
// Doing the work
// ---------------------------------------------------------------------------

/// What is to be done for an operation.
#[allow(inconsistent_fields)]
#[derive(Debug)]
pub enum ExecAction {
    Reject(Error),
    Mount { device: u8, mountpoint: String, dummy_formats: bool },
    Unmount { device: Option<u8>, mountpoint: Option<String> },
    Identify { device: u8 },
    GetStatus { device: u8 },
    BusReset,
    ReadDirectory { device: u8 },
    ReadFile { device: u8, path: String, inode: u64 },
}

/// The error where the daemon is shutting down.
pub open spec fn cancelled() -> ErrorView {
    ErrorView::Fs1541 {
        message: "Operation cancelled"@,
        error: Fs1541ErrorView::Operation("Operation cancelled"@),
    }
}

/// The error for an operation that is not supported.
pub open spec fn unsupported(op: OpType) -> ErrorView {
    ErrorView::Fs1541 {
        message: "Operation not yet supported "@ + op.name(),
        error: Fs1541ErrorView::Operation("Operation not supported: "@ + op.name()),
    }
}

/// The action is what is to be done for the operation.
pub open spec fn action_for(op: OpType, shutdown: bool, action: ExecAction) -> bool {
    if shutdown {
        action matches ExecAction::Reject(e) && e@ == cancelled()
    } else {
        match op {
            OpType::Mount { device, mountpoint, dummy_formats, .. } => action == (
            ExecAction::Mount { device, mountpoint, dummy_formats }),
            OpType::Unmount { device, mountpoint } => action == (ExecAction::Unmount {
                device,
                mountpoint,
            }),
            OpType::Identify { device } => action == (ExecAction::Identify { device }),
            OpType::GetStatus { device } => action == (ExecAction::GetStatus { device }),
            OpType::BusReset => action == ExecAction::BusReset,
            OpType::ReadDirectory { device } => action == (ExecAction::ReadDirectory { device }),
            OpType::ReadFile { device, path, inode } => action == (ExecAction::ReadFile {
                device,
                path,
                inode,
            }),
            _ => action matches ExecAction::Reject(e) && e@ == unsupported(op),
        }
    }
}

/// Says what is to be done for an operation. While the daemon is shutting down, nothing is.
/// Else the cache of a device is not cancelled here, but where the queues are at hand; and the
/// names of files are ASCII.
pub fn execute_operation(op_type: OpType, shutdown: bool) -> (action: ExecAction)
    requires
        shutdown || !(op_type is CancelDeviceCache),
        !shutdown ==> (op_type matches OpType::ReadFile { path, .. } ==> path.is_ascii()),
    ensures
        action_for(op_type, shutdown, action),
{
    if shutdown {
        return ExecAction::Reject(
            Error::Fs1541 {
                message: "Operation cancelled".to_owned(),
                error: Fs1541Error::Operation("Operation cancelled".to_owned()),
            },
        );
    }
    let name: &'static str = op_type.as_str();
    match op_type {
        OpType::Mount { device, mountpoint, dummy_formats, .. } => ExecAction::Mount {
            device,
            mountpoint,
            dummy_formats,
        },
        OpType::Unmount { device, mountpoint } => ExecAction::Unmount { device, mountpoint },
        OpType::Identify { device } => ExecAction::Identify { device },
        OpType::GetStatus { device } => ExecAction::GetStatus { device },
        OpType::BusReset => ExecAction::BusReset,
        OpType::ReadDirectory { device } => ExecAction::ReadDirectory { device },
        OpType::ReadFile { device, path, inode } => ExecAction::ReadFile { device, path, inode },
        _ => {
            let mut message = "Operation not yet supported ".to_owned();
            message.append(name);
            let mut text = "Operation not supported: ".to_owned();
            text.append(name);
            ExecAction::Reject(Error::Fs1541 { message, error: Fs1541Error::Operation(text) })
        },
    }
}

/// What came of the action.
#[allow(inconsistent_fields)]
#[derive(Debug)]
pub enum ExecDone {
    Rejected(Error),
    Mounted(Result<(), Error>),
    Unmounted(Result<(), Error>),
    Identified(Result<CbmDeviceInfo, Error>),
    GotStatus(Result<CbmStatus, Error>),
    BusWasReset(Result<(), Error>),
    /// There is no such drive
    NoDrive(Error),
    ReadDirectory { device: u8, result: Result<(Vec<CbmDirListing>, CbmStatus), CbmError> },
    ReadFile { device: u8, path: String, inode: u64, result: Result<(Vec<u8>, CbmStatus), CbmError> },
}

/// This can come of the action.
pub open spec fn done_for(action: ExecAction, done: ExecDone) -> bool {
    match action {
        ExecAction::Reject(e) => done == ExecDone::Rejected(e),
        ExecAction::Mount { .. } => done is Mounted,
        ExecAction::Unmount { .. } => done is Unmounted,
        ExecAction::Identify { .. } => done is Identified,
        ExecAction::GetStatus { .. } => done is GotStatus,
        ExecAction::BusReset => done is BusWasReset,
        ExecAction::ReadDirectory { device } => done is NoDrive || (done matches
            ExecDone::ReadDirectory { device: d, .. } && d == device),
        ExecAction::ReadFile { device, path, inode } => done is NoDrive || (done matches
            ExecDone::ReadFile { device: d, path: p, inode: i, .. } && d == device && p == path && i
            == inode),
    }
}

/// The result of an operation, from what came of the action. An unmount is answered as a
/// mount is.
pub open spec fn done_result(done: ExecDone) -> Result<OpResponseView, ErrorView> {
    match done {
        ExecDone::Rejected(e) => Err(e@),
        ExecDone::Mounted(Ok(_)) => Ok(OpResponseView::Mount),
        ExecDone::Mounted(Err(e)) => Err(e@),
        ExecDone::Unmounted(Ok(_)) => Ok(OpResponseView::Mount),
        ExecDone::Unmounted(Err(e)) => Err(e@),
        ExecDone::Identified(Ok(info)) => Ok(OpResponseView::Identify { info: info@ }),
        ExecDone::Identified(Err(e)) => Err(e@),
        ExecDone::GotStatus(Ok(status)) => Ok(OpResponseView::GetStatus { status: status@ }),
        ExecDone::GotStatus(Err(e)) => Err(e@),
        ExecDone::BusWasReset(Ok(_)) => Ok(OpResponseView::BusReset),
        ExecDone::BusWasReset(Err(e)) => Err(e@),
        ExecDone::NoDrive(e) => Err(e@),
        ExecDone::ReadDirectory { result: Ok((listings, status)), .. } => Ok(
            OpResponseView::ReadDirectory { status: status@, listings: listings@ },
        ),
        ExecDone::ReadDirectory { device, result: Err(e) } => Err(
            ErrorView::Rs1541 {
                message: "Failed to read directory for device "@ + number::decimal(device as nat),
                error: e@,
            },
        ),
        ExecDone::ReadFile { device, path, inode, result: Ok((contents, status)) } => Ok(
            OpResponseView::ReadFile {
                device,
                path: path@,
                inode,
                status: status@,
                contents: contents@,
            },
        ),
        ExecDone::ReadFile { device, path, result: Err(e), .. } => Err(
            ErrorView::Rs1541 {
                message: "Failed to read file "@ + path@ + " for device "@ + number::decimal(
                    device as nat,
                ),
                error: e@,
            },
        ),
    }
}

/// Makes the result of an operation from what came of the action.
pub fn finish_execution(done: ExecDone) -> (r: Result<OpResponseType, Error>)
    ensures
        result_view(r) == done_result(done),
{
    match done {
        ExecDone::Rejected(e) => Err(e),
        ExecDone::Mounted(Ok(_)) => Ok(OpResponseType::Mount),
        ExecDone::Mounted(Err(e)) => Err(e),
        ExecDone::Unmounted(Ok(_)) => Ok(OpResponseType::Mount),
        ExecDone::Unmounted(Err(e)) => Err(e),
        ExecDone::Identified(Ok(info)) => Ok(OpResponseType::Identify { info }),
        ExecDone::Identified(Err(e)) => Err(e),
        ExecDone::GotStatus(Ok(status)) => Ok(OpResponseType::GetStatus { status }),
        ExecDone::GotStatus(Err(e)) => Err(e),
        ExecDone::BusWasReset(Ok(_)) => Ok(OpResponseType::BusReset),
        ExecDone::BusWasReset(Err(e)) => Err(e),
        ExecDone::NoDrive(e) => Err(e),
        ExecDone::ReadDirectory { result: Ok((listings, status)), .. } => Ok(
            OpResponseType::ReadDirectory { status, listings },
        ),
        ExecDone::ReadDirectory { device, result: Err(error) } => {
            let mut message = "Failed to read directory for device ".to_owned();
            push_decimal(&mut message, device as u64);
            Err(Error::Rs1541 { message, error })
        },
        ExecDone::ReadFile { device, path, inode, result: Ok((contents, status)) } => Ok(
            OpResponseType::ReadFile { device, path, inode, status, contents },
        ),
        ExecDone::ReadFile { device, path, result: Err(error), .. } => {
            let mut message = "Failed to read file ".to_owned();
            message.append(path.as_str());
            message.append(" for device ");
            push_decimal(&mut message, device as u64);
            Err(Error::Rs1541 { message, error })
        },
    }
}

/// An operation that is being done: whom to send the response to, and how long it may
/// take.
#[derive(Debug)]
pub struct Pending<S, W> {
    pub sender: S,
    pub stream: Option<W>,
    pub timeout: Duration,
}

/// How far an operation is after its start.
#[derive(Debug)]
pub enum ProcStep<S, W> {
    /// It is done: these senders are to be told, and then its own
    Finished { notices: Vec<Notice<S, W>>, reply: Notice<S, W> },
    /// This is to be done for it
    Execute { action: ExecAction, pending: Pending<S, W> },
}

/// Does operations in the order of their priority.
#[derive(Debug)]
pub struct Proc<S, W> {
    pub queues: OperationQueues<S, W>,
    pub last_cleanup: Instant,
    pub shutdown: bool,
    pub age_check_period: Duration,
}

impl<S, W> Proc<S, W> {
    /// Nothing waits.
    pub fn new(bg_age_check_secs: u64, now: Instant) -> (p: Self)
        ensures
            p.queues@.order() == Seq::<Operation<S, W>>::empty(),
            p.queues@.wf(),
            p.last_cleanup == now,
            !p.shutdown,
            p.age_check_period == (Duration { secs: bg_age_check_secs, nanos: 0 }),
    {
        Proc {
            queues: OperationQueues::new(),
            last_cleanup: now,
            shutdown: false,
            age_check_period: Duration::from_secs(bg_age_check_secs),
        }
    }

    /// Takes out what has waited for too long, and notes when.
    pub fn age_check(&mut self, now: Instant) -> (notices: Vec<Notice<S, W>>)
        ensures
            final(self).queues@ == old(self).queues@.purged(Purge::Aged { now }),
            tells_all(
                notices@,
                old(self).queues@.taken_out(Purge::Aged { now }),
                Purge::Aged { now },
            ),
            final(self).last_cleanup == now,
            final(self).shutdown == old(self).shutdown,
            final(self).age_check_period == old(self).age_check_period,
    {
        let notices = self.queues.cleanup_on_age(now);
        self.last_cleanup = now;
        notices
    }

    /// Starts an operation. To cancel the cache of a device is done at once; for any other
    /// operation it is said what is to be done.
    pub fn process_operation(&mut self, op: Operation<S, W>) -> (r: ProcStep<S, W>)
        requires
            !old(self).shutdown ==> (op.op_type matches OpType::ReadFile { path, .. }
                ==> path.is_ascii()),
        ensures
            final(self).last_cleanup == old(self).last_cleanup,
            final(self).shutdown == old(self).shutdown,
            final(self).age_check_period == old(self).age_check_period,
            match op.op_type {
                OpType::CancelDeviceCache { device } => {
                    let purge = Purge::DeviceCache { device };
                    &&& final(self).queues@ == old(self).queues@.purged(purge)
                    &&& r matches ProcStep::Finished { notices, reply } && tells_all(
                        notices@,
                        old(self).queues@.taken_out(purge),
                        purge,
                    ) && reply.sender == op.sender && reply.response.stream == op.stream
                        && result_view(reply.response.rsp) == Ok::<OpResponseView, ErrorView>(
                        OpResponseView::CancelDeviceCache { device },
                    )
                },
                _ => {
                    &&& final(self).queues@ == old(self).queues@
                    &&& r matches ProcStep::Execute { action, pending } && action_for(
                        op.op_type,
                        old(self).shutdown,
                        action,
                    ) && pending == (Pending {
                        sender: op.sender,
                        stream: op.stream,
                        timeout: Duration { secs: op.priority.seconds(), nanos: 0 },
                    })
                },
            },
    {
        let timeout = op.priority_timeout();
        match op.op_type {
            OpType::CancelDeviceCache { device } => {
                let notices = self.queues.remove_cache_for_device(device);
                let response = OpResponse {
                    rsp: Ok(OpResponseType::CancelDeviceCache { device }),
                    stream: op.stream,
                };
                ProcStep::Finished { notices, reply: Notice { sender: op.sender, response } }
            },
            op_type => {
                let action = execute_operation(op_type, self.shutdown);
                ProcStep::Execute {
                    action,
                    pending: Pending { sender: op.sender, stream: op.stream, timeout },
                }
            },
        }
    }

    /// Ends an operation with what came of it, or with an error where it has taken too
    /// long.
    pub fn finish_operation(
        pending: Pending<S, W>,
        outcome: Option<Result<OpResponseType, Error>>,
    ) -> (reply: Notice<S, W>)
        ensures
            reply.sender == pending.sender,
            reply.response.stream == pending.stream,
            result_view(reply.response.rsp) == (match outcome {
                Some(r) => result_view(r),
                None => Err(
                    ErrorView::Fs1541 {
                        message: "Operation timed out"@,
                        error: Fs1541ErrorView::Timeout(
                            "Background operation timed out"@,
                            pending.timeout,
                        ),
                    },
                ),
            }),
    {
        let rsp = match outcome {
            Some(r) => r,
            None => Err(
                Error::Fs1541 {
                    message: "Operation timed out".to_owned(),
                    error: Fs1541Error::Timeout(
                        "Background operation timed out".to_owned(),
                        pending.timeout,
                    ),
                },
            ),
        };
        Notice { sender: pending.sender, response: OpResponse { rsp, stream: pending.stream } }
    }
}

/// The error where a response could not be sent.
pub fn send_failed(text: &str) -> (e: Error)
    ensures
        e@ == (ErrorView::Fs1541 {
            message: "Channel send error"@,
            error: Fs1541ErrorView::Internal("Failed to send response: "@ + text@),
        }),
{
    let mut s = "Failed to send response: ".to_owned();
    s.append(text);
    Error::Fs1541 { message: "Channel send error".to_owned(), error: Fs1541Error::Internal(s) }
}

} // verus!
