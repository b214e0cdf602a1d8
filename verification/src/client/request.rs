//! What the client asks of the daemon, and what it makes of the answer.
use vstd::prelude::*;

use crate::client::args::ClientOperation;
use crate::error::{Error, ErrorView, Fs1541Error, Fs1541ErrorView};
use crate::ipc::{Request, Response, ResponseView};
use crate::number;
use crate::number::push_decimal;
use crate::server::bg::OpResponseView;
use crate::server::ipc;
use crate::server::mount;
use crate::text;
use crate::text::from_utf8_lossy;
use crate::time::Duration;

verus! {

/// How many bytes a response has at most.
pub const MAX_RESPONSE_SIZE: usize = 1_048_576;

/// How long the client waits for a response, in seconds.
pub const OPERATION_TIMEOUT_SECS: u64 = 60;

/// What the daemon is asked for by an operation.
pub open spec fn request_for(op: ClientOperation) -> Request {
    match op {
        ClientOperation::Mount { device, mountpoint, dummy_formats, .. } => Request::Mount {
            mountpoint,
            device,
            dummy_formats,
            bus_reset: false,
        },
        ClientOperation::Unmount { device, mountpoint, .. } => Request::Unmount {
            mountpoint,
            device,
        },
        ClientOperation::Identify { device } => Request::Identify { device },
        ClientOperation::Getstatus { device } => Request::GetStatus { device },
        ClientOperation::Resetbus => Request::BusReset,
        ClientOperation::Kill => Request::Die,
    }
}

/// What the daemon is asked for by an operation.
pub fn create_request(operation: ClientOperation) -> (r: Request)
    ensures
        r == request_for(operation),
{
    match operation {
        ClientOperation::Mount { device, mountpoint, dummy_formats, .. } => Request::Mount {
            mountpoint,
            device,
            dummy_formats,
            bus_reset: false,
        },
        ClientOperation::Unmount { device, mountpoint, .. } => Request::Unmount {
            mountpoint,
            device,
        },
        ClientOperation::Identify { device } => Request::Identify { device },
        ClientOperation::Getstatus { device } => Request::GetStatus { device },
        ClientOperation::Resetbus => Request::BusReset,
        ClientOperation::Kill => Request::Die,
    }
}

/// What the client shows for a response, if anything, or the error that it ends with.
pub open spec fn outcome(response: ResponseView) -> Result<Option<Seq<char>>, Seq<char>> {
    match response {
        ResponseView::Error(s) => Err(s),
        ResponseView::Identified { device_type, description } => Ok(
            Some("Model "@ + device_type + " Description \""@ + description + "\""@),
        ),
        ResponseView::GotStatus(s) => Ok(Some("Status "@ + s)),
        _ => Ok(None),
    }
}

/// What the client shows for a response, if anything, or the error that it ends with.
pub fn handle_response(response: Response) -> (r: Result<Option<String>, String>)
    ensures
        match outcome(response@) {
            Ok(Some(line)) => r matches Ok(Some(s)) && s@ == line,
            Ok(None) => r == Ok::<Option<String>, String>(None),
            Err(words) => r matches Err(s) && s@ == words,
        },
{
    match response {
        Response::Error(s) => Err(s),
        Response::Identified { device_type, description } => {
            let mut s = "Model ".to_owned();
            s.append(device_type.as_str());
            s.append(" Description \"");
            s.append(description.as_str());
            s.append("\"");
            Ok(Some(s))
        },
        Response::GotStatus(status) => {
            let mut s = "Status ".to_owned();
            s.append(status.as_str());
            Ok(Some(s))
        },
        _ => Ok(None),
    }
}

/// A response as far as it has come in.
#[derive(Debug)]
pub struct ResponseBuffer {
    pub data: String,
}

/// The error for a response that is too long.
pub open spec fn too_long() -> ErrorView {
    mount::fault(
        "Response size exceeded limit"@,
        Fs1541ErrorView::Validation(
            "Response exceeded maximum size of "@ + number::decimal(MAX_RESPONSE_SIZE as nat)
                + " bytes"@,
        ),
    )
}

impl ResponseBuffer {
    /// Nothing has come in yet.
    pub fn new() -> (b: Self)
        ensures
            b.data@ == Seq::<char>::empty(),
    {
        ResponseBuffer { data: String::new() }
    }

    /// Takes in a part of the response, unless it becomes too long by it. What is not
    /// UTF-8 in a part is replaced.
    pub fn take(&mut self, bytes: &[u8]) -> (r: Result<(), Error>)
        ensures
            if vstd::utf8::encode_utf8(old(self).data@).len() + bytes@.len() > MAX_RESPONSE_SIZE {
                final(self).data@ == old(self).data@ && (r matches Err(e) && e@ == too_long())
            } else {
                r is Ok && final(self).data@ == old(self).data@ + text::lossy_text(bytes@)
            },
    {
        let held: usize = self.data.as_str().as_bytes().len();
        let n: usize = bytes.len();
        if held > MAX_RESPONSE_SIZE || n > MAX_RESPONSE_SIZE - held {
            let mut words = "Response exceeded maximum size of ".to_owned();
            push_decimal(&mut words, MAX_RESPONSE_SIZE as u64);
            words.append(" bytes");
            return Err(
                Error::Fs1541 {
                    message: "Response size exceeded limit".to_owned(),
                    error: Fs1541Error::Validation(words),
                },
            );
        }
        let part = from_utf8_lossy(bytes);
        self.data.append(part.as_str());
        Ok(())
    }

    /// The error where nothing more comes in: the wait has taken too long, or the reading
    /// has failed.
    pub fn read_error(would_block: bool, words: String) -> (e: Error)
        ensures
            e@ == (if would_block {
                mount::fault(
                    "Operation timed out"@,
                    Fs1541ErrorView::Timeout(
                        "Response read timed out"@,
                        Duration { secs: OPERATION_TIMEOUT_SECS, nanos: 0 },
                    ),
                )
            } else {
                ErrorView::Io { message: "Failed to read response"@, error: words@ }
            }),
    {
        if would_block {
            Error::Fs1541 {
                message: "Operation timed out".to_owned(),
                error: Fs1541Error::Timeout(
                    "Response read timed out".to_owned(),
                    Duration::from_secs(OPERATION_TIMEOUT_SECS),
                ),
            }
        } else {
            Error::Io { message: "Failed to read response".to_owned(), error: words }
        }
    }
}

/// What is to be done next to send a request and read the response to it.
#[derive(Debug, Clone, Copy, PartialEq, Eq, Structural)]
pub enum SendStep {
    Connect,
    SetReadTimeout,
    SetWriteTimeout,
    WriteRequest,
    WriteNewline,
    Flush,
    /// Read another part of the response
    Read,
}

/// What came of it.
#[derive(Debug)]
pub enum SendEvent {
    Done,
    /// A part of the response was read. An empty one is its end.
    Part(Vec<u8>),
    Failed { would_block: bool, error: String },
}

/// A request on its way, and the response as far as it has come in.
#[derive(Debug)]
pub struct SendSession {
    pub step: SendStep,
    pub buffer: ResponseBuffer,
}

/// A request on its way, with the response as a sequence of characters.
#[verifier::ext_equal]
pub struct SendView {
    pub step: SendStep,
    pub data: Seq<char>,
}

impl View for SendSession {
    type V = SendView;

    open spec fn view(&self) -> SendView {
        SendView { step: self.step, data: self.buffer.data@ }
    }
}

/// What follows on an event: another action, or the end.
#[derive(Debug)]
pub enum SendNext {
    Act(SendSession),
    /// The response has come in, and is to be parsed
    Parse(String),
    Fail(Error),
}

/// What follows on an event, with texts as sequences of characters.
#[verifier::ext_equal]
pub enum SendNextView {
    Act(SendView),
    Parse(Seq<char>),
    Fail(ErrorView),
}

impl View for SendNext {
    type V = SendNextView;

    open spec fn view(&self) -> SendNextView {
        match *self {
            SendNext::Act(s) => SendNextView::Act(s@),
            SendNext::Parse(data) => SendNextView::Parse(data@),
            SendNext::Fail(e) => SendNextView::Fail(e@),
        }
    }
}

/// The error where a step has failed.
pub open spec fn step_error(step: SendStep, would_block: bool, error: Seq<char>) -> ErrorView {
    match step {
        SendStep::Connect => ErrorView::Io { message: "Failed to connect to daemon"@, error },
        SendStep::SetReadTimeout => ErrorView::Io {
            message: "Failed to set read timeout"@,
            error,
        },
        SendStep::SetWriteTimeout => ErrorView::Io {
            message: "Failed to set write timeout"@,
            error,
        },
        SendStep::WriteRequest => ErrorView::Serde {
            message: "Failed to serialize request"@,
            error,
        },
        SendStep::WriteNewline => ErrorView::Io { message: "Failed to write newline"@, error },
        SendStep::Flush => ErrorView::Io { message: "Failed to flush request"@, error },
        SendStep::Read => if would_block {
            mount::fault(
                "Operation timed out"@,
                Fs1541ErrorView::Timeout(
                    "Response read timed out"@,
                    Duration { secs: OPERATION_TIMEOUT_SECS, nanos: 0 },
                ),
            )
        } else {
            ErrorView::Io { message: "Failed to read response"@, error }
        },
    }
}

/// The step after one that is done. The response is read part by part.
pub open spec fn step_after(step: SendStep) -> SendStep {
    match step {
        SendStep::Connect => SendStep::SetReadTimeout,
        SendStep::SetReadTimeout => SendStep::SetWriteTimeout,
        SendStep::SetWriteTimeout => SendStep::WriteRequest,
        SendStep::WriteRequest => SendStep::WriteNewline,
        SendStep::WriteNewline => SendStep::Flush,
        SendStep::Flush => SendStep::Read,
        SendStep::Read => SendStep::Read,
    }
}

impl SendView {
    /// What follows on an event.
    pub open spec fn next(self, event: SendEvent) -> SendNextView {
        match event {
            SendEvent::Failed { would_block, error } => SendNextView::Fail(
                step_error(self.step, would_block, error@),
            ),
            SendEvent::Done => SendNextView::Act(
                SendView { step: step_after(self.step), data: self.data },
            ),
            SendEvent::Part(bytes) => if self.step != SendStep::Read {
                SendNextView::Act(SendView { step: step_after(self.step), data: self.data })
            } else if bytes@.len() == 0 {
                SendNextView::Parse(self.data)
            } else if vstd::utf8::encode_utf8(self.data).len() + bytes@.len() > MAX_RESPONSE_SIZE {
                SendNextView::Fail(too_long())
            } else {
                SendNextView::Act(
                    SendView { step: self.step, data: self.data + text::lossy_text(bytes@) },
                )
            },
        }
    }
}

fn error_of_step(step: SendStep, would_block: bool, error: String) -> (e: Error)
    ensures
        e@ == step_error(step, would_block, error@),
{
    let message: &str = match step {
        SendStep::Connect => "Failed to connect to daemon",
        SendStep::SetReadTimeout => "Failed to set read timeout",
        SendStep::SetWriteTimeout => "Failed to set write timeout",
        SendStep::WriteRequest => {
            return Error::Serde { message: "Failed to serialize request".to_owned(), error };
        },
        SendStep::WriteNewline => "Failed to write newline",
        SendStep::Flush => "Failed to flush request",
        SendStep::Read => return ResponseBuffer::read_error(would_block, error),
    };
    Error::Io { message: message.to_owned(), error }
}

fn next_step(step: SendStep) -> (r: SendStep)
    ensures
        r == step_after(step),
{
    match step {
        SendStep::Connect => SendStep::SetReadTimeout,
        SendStep::SetReadTimeout => SendStep::SetWriteTimeout,
        SendStep::SetWriteTimeout => SendStep::WriteRequest,
        SendStep::WriteRequest => SendStep::WriteNewline,
        SendStep::WriteNewline => SendStep::Flush,
        SendStep::Flush => SendStep::Read,
        SendStep::Read => SendStep::Read,
    }
}

/// Sending a request begins with connecting to the daemon.
pub fn send_request() -> (s: SendSession)
    ensures
        s@ == (SendView { step: SendStep::Connect, data: Seq::empty() }),
{
    SendSession { step: SendStep::Connect, buffer: ResponseBuffer::new() }
}

impl SendSession {
    /// What is to be done next.
    pub fn action(&self) -> (r: SendStep)
        ensures
            r == self@.step,
    {
        self.step
    }

    /// Goes on with what came of the action.
    pub fn next(self, event: SendEvent) -> (r: SendNext)
        ensures
            r@ == self@.next(event),
    {
        let step = self.step;
        let mut buffer = self.buffer;
        match event {
            SendEvent::Failed { would_block, error } => SendNext::Fail(
                error_of_step(step, would_block, error),
            ),
            SendEvent::Done => SendNext::Act(SendSession { step: next_step(step), buffer }),
            SendEvent::Part(bytes) => match step {
                SendStep::Read => if bytes.len() == 0 {
                    SendNext::Parse(buffer.data)
                } else {
                    match buffer.take(bytes.as_slice()) {
                        Ok(_) => SendNext::Act(SendSession { step, buffer }),
                        Err(e) => SendNext::Fail(e),
                    }
                },
                _ => SendNext::Act(SendSession { step: next_step(step), buffer }),
            },
        }
    }
}

/// The error of a response that cannot be parsed.
pub fn parse_error(words: String) -> (e: Error)
    ensures
        e@ == (ErrorView::Serde { message: "Failed to parse response"@, error: words@ }),
{
    Error::Serde { message: "Failed to parse response".to_owned(), error: words }
}

/// The texts of the parts of a response, one behind the other.
pub open spec fn joined(parts: Seq<Vec<u8>>) -> Seq<char>
    decreases parts.len(),
{
    if parts.len() == 0 {
        Seq::empty()
    } else {
        joined(parts.drop_last()) + text::lossy_text(parts.last()@)
    }
}

/// What follows when the response comes in part by part.
pub open spec fn after_parts(s: SendView, parts: Seq<Vec<u8>>) -> SendNextView
    decreases parts.len(),
{
    if parts.len() == 0 {
        SendNextView::Act(s)
    } else {
        match after_parts(s, parts.drop_last()) {
            SendNextView::Act(t) => t.next(SendEvent::Part(parts.last())),
            end => end,
        }
    }
}

/// What is held of a response are all the parts that have come in, one behind the other, and
/// that is what is parsed when it has ended, and not before. Nothing fails but a response
/// that is too long.
pub proof fn law_response_is_collected(parts: Seq<Vec<u8>>)
    requires
        forall|i: int| 0 <= i < parts.len() ==> (#[trigger] parts[i])@.len() > 0,
    ensures
        match after_parts(SendView { step: SendStep::Read, data: Seq::empty() }, parts) {
            SendNextView::Act(s) => s == (SendView { step: SendStep::Read, data: joined(parts) })
                && forall|end: Vec<u8>|
                end@.len() == 0 ==> #[trigger] s.next(SendEvent::Part(end)) == SendNextView::Parse(
                    joined(parts),
                ),
            SendNextView::Fail(e) => e == too_long(),
            SendNextView::Parse(_) => false,
        },
    decreases parts.len(),
{
    if parts.len() > 0 {
        assert forall|i: int| 0 <= i < parts.drop_last().len() implies (
        #[trigger] parts.drop_last()[i])@.len() > 0 by {
            assert(parts.drop_last()[i] == parts[i]);
        }
        law_response_is_collected(parts.drop_last());
        assert(parts.last() == parts[parts.len() - 1]);
    }
}

/// A client that asks for a thing and is answered that it was done shows no error, and one
/// that is answered with an error shows that.
pub proof fn law_answers_are_shown(rsp: Result<OpResponseView, ErrorView>)
    ensures
        match rsp {
            Err(e) => outcome(ipc::answer_for(rsp)) == Err::<Option<Seq<char>>, Seq<char>>(
                e.text(),
            ),
            Ok(t) => match t {
                OpResponseView::Mount => outcome(ipc::answer_for(rsp)) is Ok,
                OpResponseView::Unmount => outcome(ipc::answer_for(rsp)) is Ok,
                OpResponseView::BusReset => outcome(ipc::answer_for(rsp)) is Ok,
                OpResponseView::Identify { .. } => outcome(ipc::answer_for(rsp)) is Ok,
                OpResponseView::GetStatus { .. } => outcome(ipc::answer_for(rsp)) is Ok,
                _ => outcome(ipc::answer_for(rsp)) is Err,
            },
        },
{
}

} // verus!
