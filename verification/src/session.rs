//! Conversations with a drive. Each asks for one call on the bus at a time, is told
//! what came of it, and in the end has a result.
use vstd::prelude::*;

use crate::cbmtype;
use crate::cbmtype::{
    CbmDeviceInfo, CbmError, CbmErrorNumber, CbmErrorNumberOk, CbmErrorView,
    CbmStatus, CbmStatusView,
};
use crate::number;
use crate::number::{push_decimal, push_signed};
use crate::opencbm::{
    BusReply, BusReplyView, BusRequest, BusRequestView, OpenCbmError, OpenCbmErrorView,
};
use crate::text;
use crate::text::{before, from_utf8_lossy, trim};

verus! {

/// What follows on a reply: another call, or the end.
#[derive(Debug)]
pub enum Next<S, T> {
    Ask(S),
    Done(Result<T, CbmError>),
}

/// What follows on a reply, with its texts as sequences of characters.
#[verifier::ext_equal]
pub enum NextView<S, T> {
    Ask(S),
    Done(Result<T, CbmErrorView>),
}

impl<S: View, T: View> View for Next<S, T> {
    type V = NextView<S::V, T::V>;

    open spec fn view(&self) -> NextView<S::V, T::V> {
        match *self {
            Next::Ask(s) => NextView::Ask(s@),
            Next::Done(Ok(t)) => NextView::Done(Ok(t@)),
            Next::Done(Err(e)) => NextView::Done(Err(e@)),
        }
    }
}

/// The channel for commands.
pub const COMMAND_CHANNEL: u8 = 15;

/// The channel for the data of a file.
pub const FILE_CHANNEL: u8 = 2;

/// The channel for a directory.
pub const DIR_CHANNEL: u8 = 0;

/// How many bytes of a file are read or written at a time.
pub const CHUNK_SIZE: usize = 256;

/// The error where the driver is not open.
pub open spec fn no_handle() -> CbmErrorView {
    CbmErrorView::UsbError("No CBM handle"@)
}

fn no_handle_error() -> (e: CbmError)
    ensures
        e@ == no_handle(),
{
    CbmError::UsbError("No CBM handle".to_owned())
}

/// A failed command.
pub open spec fn command_failed(device: u8, what: Seq<char>, e: OpenCbmErrorView) -> CbmErrorView {
    CbmErrorView::CommandError { device, message: what + e.text() }
}

fn command_failure(device: u8, what: &str, e: OpenCbmError) -> (r: CbmError)
    ensures
        r@ == command_failed(device, what@, e@),
{
    let mut message = what.to_owned();
    message.append(e.to_string().as_str());
    CbmError::CommandError { device, message }
}

/// A failed operation on a file.
pub open spec fn file_failed(device: u8, what: Seq<char>, e: OpenCbmErrorView) -> CbmErrorView {
    CbmErrorView::FileError { device, message: what + e.text() }
}

fn file_failure(device: u8, what: &str, e: OpenCbmError) -> (r: CbmError)
    ensures
        r@ == file_failed(device, what@, e@),
{
    let mut message = what.to_owned();
    message.append(e.to_string().as_str());
    CbmError::FileError { device, message }
}

fn file_error(device: u8, message: &str) -> (r: CbmError)
    ensures
        r@ == (CbmErrorView::FileError { device, message: message@ }),
{
    CbmError::FileError { device, message: message.to_owned() }
}

/// The drives on the bus, as a program sees them.
#[derive(Debug, Clone, Copy)]
pub struct Cbm;

// ---------------------------------------------------------------------------
// Single calls
// ---------------------------------------------------------------------------

/// The text in the buffer that a status was read into: what stands in front of the
/// first carriage return, without white space around it.
pub open spec fn status_part(buffer_text: Seq<char>) -> Seq<char> {
    text::trimmed(text::before_part(buffer_text, "\r"@))
}

/// The status in a buffer.
pub open spec fn status_in(buffer_text: Seq<char>, device: u8) -> Result<
    CbmStatusView,
    CbmErrorView,
> {
    cbmtype::status_of(status_part(buffer_text), device)
}

/// The status that a reply holds.
pub open spec fn status_result(device: u8, reply: BusReplyView) -> Result<
    CbmStatusView,
    CbmErrorView,
> {
    match reply {
        BusReplyView::NoHandle => Err(no_handle()),
        BusReplyView::Failed(e) => Err(CbmErrorView::DeviceError { device, message: e.text() }),
        BusReplyView::Got(data, n) => if n < 0 {
            Err(
                CbmErrorView::DeviceError {
                    device,
                    message: "Failed to get device status error "@ + number::signed_decimal(
                        n as int,
                    ),
                },
            )
        } else {
            status_in(text::lossy_text(data), device)
        },
        _ => Err(no_handle()),
    }
}

/// A status or an error, as texts.
pub open spec fn status_view(r: Result<CbmStatus, CbmError>) -> Result<
    CbmStatusView,
    CbmErrorView,
> {
    match r {
        Ok(s) => Ok(s@),
        Err(e) => Err(e@),
    }
}

impl Cbm {
    /// Reads the status from the text of the buffer that it was read into.
    pub fn status_from_text(buffer_text: &str, device: u8) -> (r: Result<CbmStatus, CbmError>)
        ensures
            status_view(r) == status_in(buffer_text@, device),
    {
        let part = trim(before(buffer_text, "\r").as_str());
        CbmStatus::new(part.as_str(), device)
    }

    /// Takes the status from the reply to the call for it.
    pub fn get_status(device: u8, reply: BusReply) -> (r: Result<CbmStatus, CbmError>)
        requires
            (BusRequestView::Status { device }).answered_by(reply@),
        ensures
            status_view(r) == status_result(device, reply@),
    {
        match reply {
            BusReply::NoHandle => Err(no_handle_error()),
            BusReply::Failed(e) => Err(CbmError::DeviceError { device, message: e.to_string() }),
            BusReply::Got(data, n) => {
                if n < 0 {
                    let mut message = "Failed to get device status error ".to_owned();
                    push_signed(&mut message, n);
                    Err(CbmError::DeviceError { device, message })
                } else {
                    let buffer_text = from_utf8_lossy(data.as_slice());
                    Cbm::status_from_text(buffer_text.as_str(), device)
                }
            },
            _ => Err(no_handle_error()),
        }
    }

    /// Whether the bus was reset, from the reply to the call for it.
    pub fn reset_bus(reply: BusReply) -> (r: Result<(), CbmError>)
        requires
            BusRequestView::Reset.answered_by(reply@),
        ensures
            match reply@ {
                BusReplyView::NoHandle => r matches Err(e) && e@ == no_handle(),
                BusReplyView::Failed(x) => r matches Err(e) && e@ == (CbmErrorView::DeviceError {
                    device: 0,
                    message: x.text(),
                }),
                _ => r is Ok,
            },
    {
        match reply {
            BusReply::NoHandle => Err(no_handle_error()),
            BusReply::Failed(e) => Err(CbmError::DeviceError { device: 0, message: e.to_string() }),
            _ => Ok(()),
        }
    }

    /// What a device has said of itself, from the reply to the call for it.
    pub fn identify(device: u8, reply: BusReply) -> (r: Result<CbmDeviceInfo, CbmError>)
        requires
            (BusRequestView::Identify { device }).answered_by(reply@),
        ensures
            match reply@ {
                BusReplyView::NoHandle => r matches Err(e) && e@ == no_handle(),
                BusReplyView::Failed(x) => r matches Err(e) && e@ == (CbmErrorView::DeviceError {
                    device,
                    message: x.text(),
                }),
                BusReplyView::Identified(info) => r matches Ok(i) && i@ == info,
                _ => true,
            },
    {
        match reply {
            BusReply::NoHandle => Err(no_handle_error()),
            BusReply::Failed(e) => Err(CbmError::DeviceError { device, message: e.to_string() }),
            BusReply::Identified(info) => Ok(info),
            _ => Err(no_handle_error()),
        }
    }
}

// ---------------------------------------------------------------------------
// Commands
// ---------------------------------------------------------------------------

/// The calls of a command, in order.
#[derive(Debug, Clone, Copy, PartialEq, Eq, Structural)]
pub enum CommandStep {
    Listen,
    /// Turn the command into PETSCII
    Convert,
    Write,
    Unlisten,
}

/// Sends a command.
#[derive(Debug)]
pub struct CommandSession {
    pub device: u8,
    pub text: String,
    /// The command in PETSCII, once it was turned into it
    pub command: Vec<u8>,
    pub step: CommandStep,
}

/// A command under way, with its text and bytes as sequences.
#[verifier::ext_equal]
pub struct CommandSessionView {
    pub device: u8,
    pub text: Seq<char>,
    pub command: Seq<u8>,
    pub step: CommandStep,
}

impl View for CommandSession {
    type V = CommandSessionView;

    open spec fn view(&self) -> CommandSessionView {
        CommandSessionView {
            device: self.device,
            text: self.text@,
            command: self.command@,
            step: self.step,
        }
    }
}

impl CommandSessionView {
    /// The command before its first call.
    pub open spec fn start(device: u8, command: Seq<char>) -> CommandSessionView {
        CommandSessionView {
            device,
            text: command,
            command: Seq::empty(),
            step: CommandStep::Listen,
        }
    }

    /// The next call.
    pub open spec fn request(self) -> BusRequestView {
        match self.step {
            CommandStep::Listen => BusRequestView::Listen {
                device: self.device,
                channel: COMMAND_CHANNEL,
            },
            CommandStep::Convert => BusRequestView::ToPetscii { text: self.text },
            CommandStep::Write => BusRequestView::Write { data: self.command },
            CommandStep::Unlisten => BusRequestView::Unlisten,
        }
    }

    /// What follows on a reply.
    pub open spec fn next(self, reply: BusReplyView) -> NextView<CommandSessionView, ()> {
        match (self.step, reply) {
            (_, BusReplyView::NoHandle) => NextView::Done(Err(no_handle())),
            (CommandStep::Listen, BusReplyView::Failed(e)) => NextView::Done(
                Err(command_failed(self.device, "Listen failed: "@, e)),
            ),
            (CommandStep::Listen, _) => NextView::Ask(
                CommandSessionView { step: CommandStep::Convert, ..self },
            ),
            (CommandStep::Convert, BusReplyView::Converted(data)) => NextView::Ask(
                CommandSessionView { command: data, step: CommandStep::Write, ..self },
            ),
            (CommandStep::Convert, _) => NextView::Done(Err(no_handle())),
            (CommandStep::Write, BusReplyView::Failed(e)) => NextView::Done(
                Err(command_failed(self.device, "Write failed: "@, e)),
            ),
            (CommandStep::Write, BusReplyView::Wrote(n)) => if n == (
            self.command.len() as usize) as i32 {
                NextView::Ask(CommandSessionView { step: CommandStep::Unlisten, ..self })
            } else {
                NextView::Done(
                    Err(
                        CbmErrorView::CommandError {
                            device: self.device,
                            message: "Failed to write full command"@,
                        },
                    ),
                )
            },
            (CommandStep::Write, _) => NextView::Done(Err(no_handle())),
            (CommandStep::Unlisten, BusReplyView::Failed(e)) => NextView::Done(
                Err(command_failed(self.device, "Unlisten failed: "@, e)),
            ),
            (CommandStep::Unlisten, _) => NextView::Done(Ok(())),
        }
    }
}

impl Cbm {
    /// Starts to send a command.
    pub fn send_command(device: u8, command: &str) -> (s: CommandSession)
        ensures
            s@ == CommandSessionView::start(device, command@),
    {
        let s = CommandSession {
            device,
            text: command.to_owned(),
            command: Vec::new(),
            step: CommandStep::Listen,
        };
        assert(s@.command =~= Seq::<u8>::empty());
        s
    }
}

impl CommandSession {
    /// The next call.
    pub fn request(&self) -> (r: BusRequest)
        ensures
            r@ == self@.request(),
    {
        match self.step {
            CommandStep::Listen => BusRequest::Listen {
                device: self.device,
                channel: COMMAND_CHANNEL,
            },
            CommandStep::Convert => BusRequest::ToPetscii { text: self.text.clone() },
            CommandStep::Write => BusRequest::Write { data: self.command.clone() },
            CommandStep::Unlisten => BusRequest::Unlisten,
        }
    }

    /// Goes on with the reply to the call.
    pub fn next(self, reply: BusReply) -> (r: Next<CommandSession, ()>)
        requires
            self@.request().answered_by(reply@),
        ensures
            r@ == self@.next(reply@),
    {
        let device: u8 = self.device;
        match self.step {
            CommandStep::Listen => match reply {
                BusReply::NoHandle => Next::Done(Err(no_handle_error())),
                BusReply::Failed(e) => Next::Done(
                    Err(command_failure(device, "Listen failed: ", e)),
                ),
                _ => Next::Ask(
                    CommandSession {
                        device,
                        text: self.text,
                        command: self.command,
                        step: CommandStep::Convert,
                    },
                ),
            },
            CommandStep::Convert => match reply {
                BusReply::Converted(command) => Next::Ask(
                    CommandSession { device, text: self.text, command, step: CommandStep::Write },
                ),
                _ => Next::Done(Err(no_handle_error())),
            },
            CommandStep::Write => match reply {
                BusReply::NoHandle => Next::Done(Err(no_handle_error())),
                BusReply::Failed(e) => Next::Done(
                    Err(command_failure(device, "Write failed: ", e)),
                ),
                BusReply::Wrote(n) => {
                    if n == self.command.len() as i32 {
                        Next::Ask(
                            CommandSession {
                                device,
                                text: self.text,
                                command: self.command,
                                step: CommandStep::Unlisten,
                            },
                        )
                    } else {
                        Next::Done(
                            Err(
                                CbmError::CommandError {
                                    device,
                                    message: "Failed to write full command".to_owned(),
                                },
                            ),
                        )
                    }
                },
                _ => Next::Done(Err(no_handle_error())),
            },
            CommandStep::Unlisten => match reply {
                BusReply::NoHandle => Next::Done(Err(no_handle_error())),
                BusReply::Failed(e) => Next::Done(
                    Err(command_failure(device, "Unlisten failed: ", e)),
                ),
                _ => Next::Done(Ok(())),
            },
        }
    }
}

/// A command whose success the drive's status tells.
#[derive(Debug)]
pub enum DiskCommandSession {
    Sending(CommandSession),
    Checking { device: u8 },
}

/// A command and its status under way, with its bytes as a sequence.
#[verifier::ext_equal]
pub enum DiskCommandView {
    Sending(CommandSessionView),
    Checking { device: u8 },
}

impl View for DiskCommandSession {
    type V = DiskCommandView;

    open spec fn view(&self) -> DiskCommandView {
        match *self {
            DiskCommandSession::Sending(c) => DiskCommandView::Sending(c@),
            DiskCommandSession::Checking { device } => DiskCommandView::Checking { device },
        }
    }
}

/// What a status means for a command.
pub open spec fn status_verdict(status: Result<CbmStatusView, CbmErrorView>) -> Result<
    (),
    CbmErrorView,
> {
    match status {
        Err(e) => Err(e),
        Ok(s) => if cbmtype::ok_of(s.number) == CbmErrorNumberOk::Okay {
            Ok(())
        } else {
            Err(CbmErrorView::StatusError { device: s.device, status: s })
        },
    }
}

fn check_status(device: u8, reply: BusReply) -> (r: Result<(), CbmError>)
    requires
        (BusRequestView::Status { device }).answered_by(reply@),
    ensures
        match r {
            Ok(_) => status_verdict(status_result(device, reply@)) is Ok,
            Err(e) => status_verdict(status_result(device, reply@)) == Err::<(), CbmErrorView>(e@),
        },
{
    match Cbm::get_status(device, reply) {
        Err(e) => Err(e),
        Ok(s) => s.into_result(),
    }
}

impl DiskCommandView {
    /// The next call.
    pub open spec fn request(self) -> BusRequestView {
        match self {
            DiskCommandView::Sending(c) => c.request(),
            DiskCommandView::Checking { device } => BusRequestView::Status { device },
        }
    }

    /// What follows on a reply.
    pub open spec fn next(self, reply: BusReplyView) -> NextView<DiskCommandView, ()> {
        match self {
            DiskCommandView::Sending(c) => match c.next(reply) {
                NextView::Ask(d) => NextView::Ask(DiskCommandView::Sending(d)),
                NextView::Done(Err(e)) => NextView::Done(Err(e)),
                NextView::Done(Ok(_)) => NextView::Ask(
                    DiskCommandView::Checking { device: c.device },
                ),
            },
            DiskCommandView::Checking { device } => NextView::Done(
                status_verdict(status_result(device, reply)),
            ),
        }
    }
}

impl Cbm {
    /// Starts to format a disk. Its ID has two characters.
    pub fn format_disk(device: u8, name: &str, id: &str) -> (r: Next<DiskCommandSession, ()>)
        ensures
            r@ == (if vstd::utf8::encode_utf8(id@).len() as usize == 2 {
                NextView::<DiskCommandView, ()>::Ask(
                    DiskCommandView::Sending(
                        CommandSessionView::start(device, "N0:"@ + name@ + ","@ + id@),
                    ),
                )
            } else {
                NextView::Done(
                    Err(
                        CbmErrorView::InvalidOperation {
                            device,
                            message: "Disk ID must be 2 characters"@,
                        },
                    ),
                )
            }),
    {
        if id.len() != 2 {
            return Next::Done(
                Err(
                    CbmError::InvalidOperation {
                        device,
                        message: "Disk ID must be 2 characters".to_owned(),
                    },
                ),
            );
        }
        let mut cmd = "N0:".to_owned();
        cmd.append(name);
        cmd.append(",");
        cmd.append(id);
        Next::Ask(DiskCommandSession::Sending(Cbm::send_command(device, cmd.as_str())))
    }

    /// Starts to delete a file.
    pub fn delete_file(device: u8, filename: &str) -> (s: DiskCommandSession)
        ensures
            s@ == DiskCommandView::Sending(
                CommandSessionView::start(device, "S0:"@ + filename@),
            ),
    {
        let mut cmd = "S0:".to_owned();
        cmd.append(filename);
        DiskCommandSession::Sending(Cbm::send_command(device, cmd.as_str()))
    }

    /// Starts to validate a disk, which collects garbage and checks the map of blocks.
    pub fn validate_disk(device: u8) -> (s: DiskCommandSession)
        ensures
            s@ == DiskCommandView::Sending(CommandSessionView::start(device, "V"@)),
    {
        DiskCommandSession::Sending(Cbm::send_command(device, "V"))
    }
}

impl DiskCommandSession {
    /// The next call.
    pub fn request(&self) -> (r: BusRequest)
        ensures
            r@ == self@.request(),
    {
        match self {
            DiskCommandSession::Sending(c) => c.request(),
            DiskCommandSession::Checking { device } => BusRequest::Status { device: *device },
        }
    }

    /// Goes on with the reply to the call.
    pub fn next(self, reply: BusReply) -> (r: Next<DiskCommandSession, ()>)
        requires
            self@.request().answered_by(reply@),
        ensures
            r@ == self@.next(reply@),
    {
        match self {
            DiskCommandSession::Sending(c) => {
                let device: u8 = c.device;
                match c.next(reply) {
                    Next::Ask(d) => Next::Ask(DiskCommandSession::Sending(d)),
                    Next::Done(Err(e)) => Next::Done(Err(e)),
                    Next::Done(Ok(_)) => Next::Ask(DiskCommandSession::Checking { device }),
                }
            },
            DiskCommandSession::Checking { device } => Next::Done(check_status(device, reply)),
        }
    }
}

// ---------------------------------------------------------------------------
// Files
// ---------------------------------------------------------------------------

/// Reads a file.
#[derive(Debug)]
pub enum ReadFileSession {
    Sending(CommandSession),
    Checking { device: u8 },
    Talking { device: u8 },
    Reading { device: u8, data: Vec<u8> },
    Untalking { device: u8, data: Vec<u8> },
}

/// A file that is being read, with its bytes as a sequence.
#[verifier::ext_equal]
pub enum ReadFileView {
    Sending(CommandSessionView),
    Checking { device: u8 },
    Talking { device: u8 },
    Reading { device: u8, data: Seq<u8> },
    Untalking { device: u8, data: Seq<u8> },
}

impl View for ReadFileSession {
    type V = ReadFileView;

    open spec fn view(&self) -> ReadFileView {
        match *self {
            ReadFileSession::Sending(c) => ReadFileView::Sending(c@),
            ReadFileSession::Checking { device } => ReadFileView::Checking { device },
            ReadFileSession::Talking { device } => ReadFileView::Talking { device },
            ReadFileSession::Reading { device, data } => ReadFileView::Reading {
                device,
                data: data@,
            },
            ReadFileSession::Untalking { device, data } => ReadFileView::Untalking {
                device,
                data: data@,
            },
        }
    }
}

impl ReadFileView {
    /// The next call.
    pub open spec fn request(self) -> BusRequestView {
        match self {
            ReadFileView::Sending(c) => c.request(),
            ReadFileView::Checking { device } => BusRequestView::Status { device },
            ReadFileView::Talking { device } => BusRequestView::Talk {
                device,
                channel: FILE_CHANNEL,
            },
            ReadFileView::Reading { .. } => BusRequestView::Read { size: CHUNK_SIZE },
            ReadFileView::Untalking { .. } => BusRequestView::Untalk,
        }
    }

    /// What follows on a reply.
    pub open spec fn next(self, reply: BusReplyView) -> NextView<ReadFileView, Seq<u8>> {
        match self {
            ReadFileView::Sending(c) => match c.next(reply) {
                NextView::Ask(d) => NextView::Ask(ReadFileView::Sending(d)),
                NextView::Done(Err(e)) => NextView::Done(Err(e)),
                NextView::Done(Ok(_)) => NextView::Ask(
                    ReadFileView::Checking { device: c.device },
                ),
            },
            ReadFileView::Checking { device } => match status_verdict(
                status_result(device, reply),
            ) {
                Ok(_) => NextView::Ask(ReadFileView::Talking { device }),
                Err(e) => NextView::Done(Err(e)),
            },
            ReadFileView::Talking { device } => match reply {
                BusReplyView::NoHandle => NextView::Done(Err(lost_handle(device))),
                BusReplyView::Failed(e) => NextView::Done(
                    Err(file_failed(device, "Talk failed: "@, e)),
                ),
                _ => NextView::Ask(ReadFileView::Reading { device, data: Seq::empty() }),
            },
            ReadFileView::Reading { device, data } => match reply {
                BusReplyView::Failed(e) => NextView::Done(
                    Err(file_failed(device, "Read failed: "@, e)),
                ),
                BusReplyView::Got(buf, n) => if n <= 0 {
                    NextView::Ask(ReadFileView::Untalking { device, data })
                } else {
                    NextView::Ask(ReadFileView::Reading { device, data: data + buf.take(n as int) })
                },
                _ => NextView::Done(Err(lost_handle(device))),
            },
            ReadFileView::Untalking { device, data } => match reply {
                BusReplyView::NoHandle => NextView::Done(Err(lost_handle(device))),
                BusReplyView::Failed(e) => NextView::Done(
                    Err(file_failed(device, "Untalk failed: "@, e)),
                ),
                _ => NextView::Done(Ok(data)),
            },
        }
    }
}

/// The error where the driver was closed while a file was open.
pub open spec fn lost_handle(device: u8) -> CbmErrorView {
    CbmErrorView::FileError { device, message: "No CBM handle"@ }
}

impl Cbm {
    /// Starts to read a file.
    pub fn read_file(device: u8, filename: &str) -> (s: ReadFileSession)
        ensures
            s@ == ReadFileView::Sending(CommandSessionView::start(device, filename@)),
    {
        ReadFileSession::Sending(Cbm::send_command(device, filename))
    }
}

impl ReadFileSession {
    /// The next call.
    pub fn request(&self) -> (r: BusRequest)
        ensures
            r@ == self@.request(),
    {
        match self {
            ReadFileSession::Sending(c) => c.request(),
            ReadFileSession::Checking { device } => BusRequest::Status { device: *device },
            ReadFileSession::Talking { device } => BusRequest::Talk {
                device: *device,
                channel: FILE_CHANNEL,
            },
            ReadFileSession::Reading { .. } => BusRequest::Read { size: CHUNK_SIZE },
            ReadFileSession::Untalking { .. } => BusRequest::Untalk,
        }
    }

    /// Goes on with the reply to the call.
    pub fn next(self, reply: BusReply) -> (r: Next<ReadFileSession, Vec<u8>>)
        requires
            self@.request().answered_by(reply@),
        ensures
            r@ == self@.next(reply@),
    {
        match self {
            ReadFileSession::Sending(c) => {
                let device: u8 = c.device;
                match c.next(reply) {
                    Next::Ask(d) => Next::Ask(ReadFileSession::Sending(d)),
                    Next::Done(Err(e)) => Next::Done(Err(e)),
                    Next::Done(Ok(_)) => Next::Ask(ReadFileSession::Checking { device }),
                }
            },
            ReadFileSession::Checking { device } => match check_status(device, reply) {
                Ok(_) => Next::Ask(ReadFileSession::Talking { device }),
                Err(e) => Next::Done(Err(e)),
            },
            ReadFileSession::Talking { device } => match reply {
                BusReply::NoHandle => Next::Done(Err(file_error(device, "No CBM handle"))),
                BusReply::Failed(e) => Next::Done(Err(file_failure(device, "Talk failed: ", e))),
                _ => Next::Ask(ReadFileSession::Reading { device, data: Vec::new() }),
            },
            ReadFileSession::Reading { device, data } => match reply {
                BusReply::Failed(e) => Next::Done(Err(file_failure(device, "Read failed: ", e))),
                BusReply::Got(buf, n) => {
                    if n <= 0 {
                        Next::Ask(ReadFileSession::Untalking { device, data })
                    } else {
                        let mut all = data;
                        let mut part = buf;
                        part.truncate(n as usize);
                        all.append(&mut part);
                        Next::Ask(ReadFileSession::Reading { device, data: all })
                    }
                },
                _ => Next::Done(Err(file_error(device, "No CBM handle"))),
            },
            ReadFileSession::Untalking { device, data } => match reply {
                BusReply::NoHandle => Next::Done(Err(file_error(device, "No CBM handle"))),
                BusReply::Failed(e) => Next::Done(Err(file_failure(device, "Untalk failed: ", e))),
                _ => Next::Done(Ok(data)),
            },
        }
    }
}

/// Writes a file.
#[derive(Debug)]
pub struct WriteFileSession {
    pub device: u8,
    pub data: Vec<u8>,
    pub step: WriteFileStep,
}

/// The calls that write a file, in order. The bytes before a position were written.
#[derive(Debug)]
pub enum WriteFileStep {
    Sending(CommandSession),
    Checking,
    Listening,
    Writing(usize),
    Unlistening,
}

/// A file that is being written, with its bytes as a sequence.
#[verifier::ext_equal]
pub struct WriteFileView {
    pub device: u8,
    pub data: Seq<u8>,
    pub step: WriteStepView,
}

/// The calls that write a file, with the bytes of the command as a sequence.
#[verifier::ext_equal]
pub enum WriteStepView {
    Sending(CommandSessionView),
    Checking,
    Listening,
    Writing(usize),
    Unlistening,
}

impl View for WriteFileSession {
    type V = WriteFileView;

    open spec fn view(&self) -> WriteFileView {
        WriteFileView {
            device: self.device,
            data: self.data@,
            step: match self.step {
                WriteFileStep::Sending(c) => WriteStepView::Sending(c@),
                WriteFileStep::Checking => WriteStepView::Checking,
                WriteFileStep::Listening => WriteStepView::Listening,
                WriteFileStep::Writing(pos) => WriteStepView::Writing(pos),
                WriteFileStep::Unlistening => WriteStepView::Unlistening,
            },
        }
    }
}

impl WriteFileView {
    /// A position at which there is something left to write.
    pub open spec fn wf(self) -> bool {
        self.step matches WriteStepView::Writing(pos) ==> pos < self.data.len()
            && self.data.len() <= usize::MAX
    }

    /// Where the chunk at a position ends.
    pub open spec fn chunk_end(self, pos: int) -> int {
        if pos + CHUNK_SIZE <= self.data.len() {
            pos + CHUNK_SIZE
        } else {
            self.data.len() as int
        }
    }

    /// What is done with the bytes from a position on.
    pub open spec fn writing_from(self, pos: int) -> WriteFileView {
        if pos < self.data.len() {
            WriteFileView { step: WriteStepView::Writing(pos as usize), ..self }
        } else {
            WriteFileView { step: WriteStepView::Unlistening, ..self }
        }
    }

    /// The next call.
    pub open spec fn request(self) -> BusRequestView {
        match self.step {
            WriteStepView::Sending(c) => c.request(),
            WriteStepView::Checking => BusRequestView::Status { device: self.device },
            WriteStepView::Listening => BusRequestView::Listen {
                device: self.device,
                channel: FILE_CHANNEL,
            },
            WriteStepView::Writing(pos) => BusRequestView::Write {
                data: self.data.subrange(pos as int, self.chunk_end(pos as int)),
            },
            WriteStepView::Unlistening => BusRequestView::Unlisten,
        }
    }

    /// What follows on a reply.
    pub open spec fn next(self, reply: BusReplyView) -> NextView<WriteFileView, ()> {
        match self.step {
            WriteStepView::Sending(c) => match c.next(reply) {
                NextView::Ask(d) => NextView::Ask(
                    WriteFileView { step: WriteStepView::Sending(d), ..self },
                ),
                NextView::Done(Err(e)) => NextView::Done(Err(e)),
                NextView::Done(Ok(_)) => NextView::Ask(
                    WriteFileView { step: WriteStepView::Checking, ..self },
                ),
            },
            WriteStepView::Checking => match status_verdict(status_result(self.device, reply)) {
                Ok(_) => NextView::Ask(WriteFileView { step: WriteStepView::Listening, ..self }),
                Err(e) => NextView::Done(Err(e)),
            },
            WriteStepView::Listening => match reply {
                BusReplyView::NoHandle => NextView::Done(Err(lost_handle(self.device))),
                BusReplyView::Failed(e) => NextView::Done(
                    Err(file_failed(self.device, "Listen failed: "@, e)),
                ),
                _ => NextView::Ask(self.writing_from(0)),
            },
            WriteStepView::Writing(pos) => match reply {
                BusReplyView::Failed(e) => NextView::Done(
                    Err(file_failed(self.device, "Write failed: "@, e)),
                ),
                BusReplyView::Wrote(n) => if n as int == self.chunk_end(pos as int) - pos {
                    NextView::Ask(self.writing_from(self.chunk_end(pos as int)))
                } else {
                    NextView::Done(
                        Err(
                            CbmErrorView::FileError {
                                device: self.device,
                                message: "Failed to write complete chunk"@,
                            },
                        ),
                    )
                },
                _ => NextView::Done(Err(lost_handle(self.device))),
            },
            WriteStepView::Unlistening => match reply {
                BusReplyView::NoHandle => NextView::Done(Err(lost_handle(self.device))),
                BusReplyView::Failed(e) => NextView::Done(
                    Err(file_failed(self.device, "Unlisten failed: "@, e)),
                ),
                _ => NextView::Done(Ok(())),
            },
        }
    }
}

impl Cbm {
    /// Starts to write a file, in place of one of that name.
    pub fn write_file(device: u8, filename: &str, data: Vec<u8>) -> (s: WriteFileSession)
        ensures
            s@ == (WriteFileView {
                device,
                data: data@,
                step: WriteStepView::Sending(
                    CommandSessionView::start(device, "@:"@ + filename@),
                ),
            }),
            s@.wf(),
    {
        let mut cmd = "@:".to_owned();
        cmd.append(filename);
        WriteFileSession {
            device,
            data,
            step: WriteFileStep::Sending(Cbm::send_command(device, cmd.as_str())),
        }
    }
}

impl WriteFileSession {
    fn end_of_chunk(&self, pos: usize) -> (end: usize)
        requires
            pos < self.data@.len(),
        ensures
            end == self@.chunk_end(pos as int),
            pos < end <= self.data@.len(),
    {
        let n: usize = self.data.len();
        if n - pos >= CHUNK_SIZE {
            pos + CHUNK_SIZE
        } else {
            n
        }
    }

    fn write_from(self, pos: usize) -> (s: WriteFileSession)
        ensures
            s@ == self@.writing_from(pos as int),
            s@.wf(),
    {
        let n: usize = self.data.len();
        if pos < n {
            WriteFileSession {
                device: self.device,
                data: self.data,
                step: WriteFileStep::Writing(pos),
            }
        } else {
            WriteFileSession {
                device: self.device,
                data: self.data,
                step: WriteFileStep::Unlistening,
            }
        }
    }

    /// The next call.
    pub fn request(&self) -> (r: BusRequest)
        requires
            self@.wf(),
        ensures
            r@ == self@.request(),
    {
        match &self.step {
            WriteFileStep::Sending(c) => c.request(),
            WriteFileStep::Checking => BusRequest::Status { device: self.device },
            WriteFileStep::Listening => BusRequest::Listen {
                device: self.device,
                channel: FILE_CHANNEL,
            },
            WriteFileStep::Writing(pos) => {
                let end: usize = self.end_of_chunk(*pos);
                BusRequest::Write {
                    data: vstd::slice::slice_to_vec(
                        vstd::slice::slice_subrange(self.data.as_slice(), *pos, end),
                    ),
                }
            },
            WriteFileStep::Unlistening => BusRequest::Unlisten,
        }
    }

    /// Goes on with the reply to the call.
    pub fn next(self, reply: BusReply) -> (r: Next<WriteFileSession, ()>)
        requires
            self@.wf(),
            self@.request().answered_by(reply@),
        ensures
            r@ == self@.next(reply@),
            r matches Next::Ask(s) ==> s@.wf(),
    {
        let WriteFileSession { device, data, step } = self;
        match step {
            WriteFileStep::Sending(c) => match c.next(reply) {
                Next::Ask(d) => Next::Ask(
                    WriteFileSession { device, data, step: WriteFileStep::Sending(d) },
                ),
                Next::Done(Err(e)) => Next::Done(Err(e)),
                Next::Done(Ok(_)) => Next::Ask(
                    WriteFileSession { device, data, step: WriteFileStep::Checking },
                ),
            },
            WriteFileStep::Checking => match check_status(device, reply) {
                Ok(_) => Next::Ask(
                    WriteFileSession { device, data, step: WriteFileStep::Listening },
                ),
                Err(e) => Next::Done(Err(e)),
            },
            WriteFileStep::Listening => match reply {
                BusReply::NoHandle => Next::Done(Err(file_error(device, "No CBM handle"))),
                BusReply::Failed(e) => Next::Done(Err(file_failure(device, "Listen failed: ", e))),
                _ => {
                    let s = WriteFileSession { device, data, step: WriteFileStep::Listening };
                    Next::Ask(s.write_from(0))
                },
            },
            WriteFileStep::Writing(pos) => match reply {
                BusReply::Failed(e) => Next::Done(Err(file_failure(device, "Write failed: ", e))),
                BusReply::Wrote(n) => {
                    let s = WriteFileSession { device, data, step: WriteFileStep::Writing(pos) };
                    let end: usize = s.end_of_chunk(pos);
                    if n >= 0 && n as usize == end - pos {
                        Next::Ask(s.write_from(end))
                    } else {
                        Next::Done(Err(file_error(device, "Failed to write complete chunk")))
                    }
                },
                _ => Next::Done(Err(file_error(device, "No CBM handle"))),
            },
            WriteFileStep::Unlistening => match reply {
                BusReply::NoHandle => Next::Done(Err(file_error(device, "No CBM handle"))),
                BusReply::Failed(e) => Next::Done(
                    Err(file_failure(device, "Unlisten failed: ", e)),
                ),
                _ => Next::Done(Ok(())),
            },
        }
    }
}

// ---------------------------------------------------------------------------
// Initialising drives
// ---------------------------------------------------------------------------

/// Statuses, in the order of the drives.
#[derive(Debug)]
pub struct StatusList {
    pub list: Vec<CbmStatus>,
}

/// The statuses as texts.
pub open spec fn statuses(list: Seq<CbmStatus>) -> Seq<CbmStatusView> {
    list.map_values(|s: CbmStatus| s@)
}

impl View for StatusList {
    type V = Seq<CbmStatusView>;

    open spec fn view(&self) -> Seq<CbmStatusView> {
        statuses(self.list@)
    }
}

/// Initialises every drive of a unit and collects their statuses.
#[derive(Debug)]
pub struct InitSession {
    pub device: u8,
    pub drives: u8,
    pub drive: u8,
    pub ignore: Vec<CbmErrorNumber>,
    pub statuses: StatusList,
    pub step: InitStep,
}

/// For each drive a command and then its status.
#[derive(Debug)]
pub enum InitStep {
    Sending(CommandSession),
    Checking,
}

/// Drives that are being initialised, with texts as sequences of characters.
#[verifier::ext_equal]
pub struct InitView {
    pub device: u8,
    pub drives: u8,
    pub drive: u8,
    pub ignore: Seq<CbmErrorNumber>,
    pub statuses: Seq<CbmStatusView>,
    pub step: InitStepView,
}

/// For each drive a command and then its status.
#[verifier::ext_equal]
pub enum InitStepView {
    Sending(CommandSessionView),
    Checking,
}

impl View for InitSession {
    type V = InitView;

    open spec fn view(&self) -> InitView {
        InitView {
            device: self.device,
            drives: self.drives,
            drive: self.drive,
            ignore: self.ignore@,
            statuses: self.statuses@,
            step: match self.step {
                InitStep::Sending(c) => InitStepView::Sending(c@),
                InitStep::Checking => InitStepView::Checking,
            },
        }
    }
}

/// The command that initialises a drive.
pub open spec fn init_command(drive: u8) -> Seq<char> {
    "i"@ + number::decimal(drive as nat)
}

fn init_command_text(drive: u8) -> (s: String)
    ensures
        s@ == init_command(drive),
{
    let mut s = "i".to_owned();
    push_decimal(&mut s, drive as u64);
    s
}

/// What is done from a drive on: its command, or the end where there is none left.
pub open spec fn init_from(
    device: u8,
    drives: u8,
    drive: int,
    ignore: Seq<CbmErrorNumber>,
    list: Seq<CbmStatusView>,
) -> NextView<InitView, Seq<CbmStatusView>> {
    if drive < drives {
        NextView::Ask(
            InitView {
                device,
                drives,
                drive: drive as u8,
                ignore,
                statuses: list,
                step: InitStepView::Sending(
                    CommandSessionView::start(device, init_command(drive as u8)),
                ),
            },
        )
    } else {
        NextView::Done(Ok(list))
    }
}

impl InitView {
    /// The drive is one of the unit's.
    pub open spec fn wf(self) -> bool {
        self.drive < self.drives
    }

    /// The next call.
    pub open spec fn request(self) -> BusRequestView {
        match self.step {
            InitStepView::Sending(c) => c.request(),
            InitStepView::Checking => BusRequestView::Status { device: self.device },
        }
    }

    /// What follows on a reply. A status that is not in order ends it, unless its error
    /// number is to be ignored.
    pub open spec fn next(self, reply: BusReplyView) -> NextView<InitView, Seq<CbmStatusView>> {
        match self.step {
            InitStepView::Sending(c) => match c.next(reply) {
                NextView::Ask(d) => NextView::Ask(
                    InitView { step: InitStepView::Sending(d), ..self },
                ),
                NextView::Done(Err(e)) => NextView::Done(Err(e)),
                NextView::Done(Ok(_)) => NextView::Ask(
                    InitView { step: InitStepView::Checking, ..self },
                ),
            },
            InitStepView::Checking => match status_result(self.device, reply) {
                Err(e) => NextView::Done(Err(e)),
                Ok(s) => if cbmtype::ok_of(s.number) != CbmErrorNumberOk::Okay
                    && !self.ignore.contains(s.error_number) {
                    NextView::Done(
                        Err(
                            CbmErrorView::CommandError {
                                device: self.device,
                                message: init_command(self.drive) + " "@ + cbmtype::status_text(s),
                            },
                        ),
                    )
                } else {
                    init_from(
                        self.device,
                        self.drives,
                        self.drive + 1,
                        self.ignore,
                        self.statuses.push(s),
                    )
                },
            },
        }
    }
}

fn is_ignored(ignore: &Vec<CbmErrorNumber>, n: CbmErrorNumber) -> (r: bool)
    ensures
        r == ignore@.contains(n),
{
    let mut i: usize = 0;
    while i < ignore.len()
        invariant
            i <= ignore@.len(),
            forall|j: int| 0 <= j < i ==> ignore@[j] != n,
        decreases ignore@.len() - i,
    {
        if ignore[i] == n {
            return true;
        }
        i = i + 1;
    }
    false
}

impl InitSession {
    fn start(
        device: u8,
        drives: u8,
        drive: u8,
        ignore: Vec<CbmErrorNumber>,
        list: StatusList,
    ) -> (r: Next<InitSession, StatusList>)
        ensures
            r@ == init_from(device, drives, drive as int, ignore@, list@),
            r matches Next::Ask(s) ==> s@.wf(),
    {
        if drive < drives {
            let cmd = init_command_text(drive);
            Next::Ask(
                InitSession {
                    device,
                    drives,
                    drive,
                    ignore,
                    statuses: list,
                    step: InitStep::Sending(Cbm::send_command(device, cmd.as_str())),
                },
            )
        } else {
            Next::Done(Ok(list))
        }
    }

    /// Starts to initialise the drives of a unit.
    pub fn send_init(device: u8, drives: u8, ignore_errors: Vec<CbmErrorNumber>) -> (r: Next<
        InitSession,
        StatusList,
    >)
        ensures
            r@ == init_from(device, drives, 0, ignore_errors@, Seq::empty()),
            r matches Next::Ask(s) ==> s@.wf(),
    {
        let list = StatusList { list: Vec::new() };
        assert(list@ =~= Seq::<CbmStatusView>::empty());
        InitSession::start(device, drives, 0, ignore_errors, list)
    }

    /// The next call.
    pub fn request(&self) -> (r: BusRequest)
        ensures
            r@ == self@.request(),
    {
        match &self.step {
            InitStep::Sending(c) => c.request(),
            InitStep::Checking => BusRequest::Status { device: self.device },
        }
    }

    /// Goes on with the reply to the call.
    pub fn next(self, reply: BusReply) -> (r: Next<InitSession, StatusList>)
        requires
            self@.wf(),
            self@.request().answered_by(reply@),
        ensures
            r@ == self@.next(reply@),
            r matches Next::Ask(s) ==> s@.wf(),
    {
        let InitSession { device, drives, drive, ignore, statuses, step } = self;
        match step {
            InitStep::Sending(c) => match c.next(reply) {
                Next::Ask(d) => Next::Ask(
                    InitSession {
                        device,
                        drives,
                        drive,
                        ignore,
                        statuses,
                        step: InitStep::Sending(d),
                    },
                ),
                Next::Done(Err(e)) => Next::Done(Err(e)),
                Next::Done(Ok(_)) => Next::Ask(
                    InitSession { device, drives, drive, ignore, statuses, step: InitStep::Checking },
                ),
            },
            InitStep::Checking => match Cbm::get_status(device, reply) {
                Err(e) => Next::Done(Err(e)),
                Ok(s) => {
                    let okay: bool = match s.is_ok() {
                        CbmErrorNumberOk::Okay => true,
                        _ => false,
                    };
                    if !okay && !is_ignored(&ignore, s.error_number) {
                        let mut message = init_command_text(drive);
                        message.append(" ");
                        message.append(s.to_string().as_str());
                        return Next::Done(Err(CbmError::CommandError { device, message }));
                    }
                    let ghost before = statuses@;
                    let mut list = statuses;
                    list.list.push(s);
                    assert(list@ =~= before.push(s@));
                    InitSession::start(device, drives, drive + 1, ignore, list)
                },
            },
        }
    }
}

/// How many calls are left at most to initialise drives.
pub open spec fn init_calls_left(s: InitView) -> int {
    5 * (s.drives - s.drive) + match s.step {
        InitStepView::Sending(c) => match c.step {
            CommandStep::Listen => 0int,
            CommandStep::Convert => -1int,
            CommandStep::Write => -2int,
            CommandStep::Unlisten => -3int,
        },
        InitStepView::Checking => -4int,
    }
}

/// Initialising drives ends, whatever the replies are: each drive takes five calls at most,
/// and a failure ends it at once.
pub proof fn law_init_ends(s: InitView, reply: BusReplyView)
    requires
        s.wf(),
    ensures
        0 < init_calls_left(s) <= 5 * s.drives,
        s.next(reply) matches NextView::Ask(t) ==> t.wf() && t.device == s.device && 0
            < init_calls_left(t) < init_calls_left(s),
{
}

// ---------------------------------------------------------------------------
// What is read and written of a file
// ---------------------------------------------------------------------------

/// The bytes that replies to reads hold.
pub open spec fn bytes_read(replies: Seq<BusReplyView>) -> Seq<u8>
    decreases replies.len(),
{
    if replies.len() == 0 {
        Seq::empty()
    } else {
        bytes_read(replies.drop_last()) + match replies.last() {
            BusReplyView::Got(buf, n) => buf.take(n as int),
            _ => Seq::empty(),
        }
    }
}

/// The state after replies that each lead to another call.
pub open spec fn read_file_after(s: ReadFileView, replies: Seq<BusReplyView>) -> Option<
    ReadFileView,
>
    decreases replies.len(),
{
    if replies.len() == 0 {
        Some(s)
    } else {
        match read_file_after(s, replies.drop_last()) {
            None => None,
            Some(t) => match t.next(replies.last()) {
                NextView::Ask(u) => Some(u),
                NextView::Done(_) => None,
            },
        }
    }
}

/// A reply with at least one byte.
pub open spec fn has_bytes(reply: BusReplyView) -> bool {
    reply matches BusReplyView::Got(_, n) && n > 0
}

/// What is read of a file is what the drive has sent, all of it and in order, however
/// it was cut into replies.
pub proof fn law_file_is_read(
    device: u8,
    replies: Seq<BusReplyView>,
    last: BusReplyView,
    end: BusReplyView,
)
    requires
        forall|i: int| 0 <= i < replies.len() ==> has_bytes(#[trigger] replies[i]),
        last matches BusReplyView::Got(_, n) && n == 0,
        end == BusReplyView::Done,
    ensures
        ({
            let start = ReadFileView::Reading { device, data: Seq::empty() };
            let data = bytes_read(replies);
            &&& read_file_after(start, replies) == Some(ReadFileView::Reading { device, data })
            &&& (ReadFileView::Reading { device, data }).next(last) matches NextView::Ask(u)
                && u.next(end) == NextView::<ReadFileView, Seq<u8>>::Done(Ok(data))
        }),
    decreases replies.len(),
{
    if replies.len() > 0 {
        let before = replies.drop_last();
        assert forall|i: int| 0 <= i < before.len() implies has_bytes(#[trigger] before[i]) by {
            assert(has_bytes(replies[i]));
        }
        law_file_is_read(device, before, last, end);
        assert(has_bytes(replies[replies.len() - 1]));
    }
}

/// The bytes that are handed to the bus from a state on, as long as each call succeeds.
pub open spec fn bytes_written(s: WriteFileView) -> Seq<u8>
    decreases s.data.len() - (match s.step {
        WriteStepView::Writing(pos) => pos as int,
        _ => s.data.len() as int,
    }),
{
    match s.step {
        WriteStepView::Writing(pos) => if s.wf() {
            s.data.subrange(pos as int, s.chunk_end(pos as int)) + bytes_written(
                s.writing_from(s.chunk_end(pos as int)),
            )
        } else {
            Seq::empty()
        },
        _ => Seq::empty(),
    }
}

proof fn lemma_written_from(s: WriteFileView, pos: int)
    requires
        0 <= pos <= s.data.len() <= usize::MAX,
    ensures
        bytes_written(s.writing_from(pos)) == s.data.skip(pos),
    decreases s.data.len() - pos,
{
    if pos < s.data.len() {
        let t = s.writing_from(pos);
        let end = s.chunk_end(pos);
        lemma_written_from(s, end);
        assert(t.writing_from(end) == s.writing_from(end));
        assert(s.data.subrange(pos, end) + s.data.skip(end) =~= s.data.skip(pos));
    } else {
        assert(s.data.skip(pos) =~= Seq::empty());
    }
}

/// What is written of a file is all of its data, once and in order, in chunks that are
/// neither empty nor too long.
pub proof fn law_file_is_written(s: WriteFileView, pos: usize, reply: BusReplyView)
    requires
        s.step == WriteStepView::Listening,
        s.data.len() <= usize::MAX,
        reply == BusReplyView::Done,
        pos < s.data.len(),
    ensures
        s.next(reply) matches NextView::Ask(t) && bytes_written(t) == s.data,
        0 < s.chunk_end(pos as int) - pos <= CHUNK_SIZE,
        s.chunk_end(pos as int) <= s.data.len(),
{
    lemma_written_from(s, 0);
    assert(s.data.skip(0) =~= s.data);
}

} // verus!
