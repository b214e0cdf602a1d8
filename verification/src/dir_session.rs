//! The conversation that reads the directory of a disk.
use vstd::prelude::*;

use crate::cbmtype;
use crate::cbmtype::{CbmError, CbmErrorNumberOk, CbmErrorView};
use crate::dir;
use crate::dir::{CbmDirListing, CbmDirListingView};
use crate::number;
use crate::number::{push_decimal, push_right_aligned};
use crate::opencbm::{
    BusReply, BusReplyView, BusRequest, BusRequestView, OpenCbmError, OpenCbmErrorView,
};
use crate::session;
use crate::session::{Cbm, Next, NextView, DIR_CHANNEL};
use crate::text;
use crate::text::from_utf8_lossy;

verus! {

/// Reads a directory.
#[derive(Debug)]
pub struct DirSession {
    pub device: u8,
    pub drive_num: Option<u8>,
    /// The lines that were read so far
    pub output: String,
    pub step: DirStep,
}

/// The calls that read a directory.
#[derive(Debug)]
pub enum DirStep {
    Opening,
    CheckingOpen,
    Talking,
    ReadingLoadAddress,
    ReadingLink,
    ReadingSize,
    /// The part of the line that was read so far
    ReadingName(Vec<u8>),
    /// The line is turned into a text
    Converting(Vec<u8>),
    Untalking,
    Closing,
    CheckingEnd,
    /// Ends the talk after an error
    FailUntalk(CbmError),
    /// Closes the directory after an error
    FailClose(CbmError),
}

/// A directory that is being read, with its texts as sequences.
#[verifier::ext_equal]
pub struct DirView {
    pub device: u8,
    pub drive_num: Option<u8>,
    pub output: Seq<char>,
    pub step: DirStepView,
}

/// The calls that read a directory, with texts as sequences.
#[verifier::ext_equal]
pub enum DirStepView {
    Opening,
    CheckingOpen,
    Talking,
    ReadingLoadAddress,
    ReadingLink,
    ReadingSize,
    ReadingName(Seq<u8>),
    Converting(Seq<u8>),
    Untalking,
    Closing,
    CheckingEnd,
    FailUntalk(CbmErrorView),
    FailClose(CbmErrorView),
}

impl View for DirStep {
    type V = DirStepView;

    open spec fn view(&self) -> DirStepView {
        match *self {
            DirStep::Opening => DirStepView::Opening,
            DirStep::CheckingOpen => DirStepView::CheckingOpen,
            DirStep::Talking => DirStepView::Talking,
            DirStep::ReadingLoadAddress => DirStepView::ReadingLoadAddress,
            DirStep::ReadingLink => DirStepView::ReadingLink,
            DirStep::ReadingSize => DirStepView::ReadingSize,
            DirStep::ReadingName(name) => DirStepView::ReadingName(name@),
            DirStep::Converting(name) => DirStepView::Converting(name@),
            DirStep::Untalking => DirStepView::Untalking,
            DirStep::Closing => DirStepView::Closing,
            DirStep::CheckingEnd => DirStepView::CheckingEnd,
            DirStep::FailUntalk(e) => DirStepView::FailUntalk(e@),
            DirStep::FailClose(e) => DirStepView::FailClose(e@),
        }
    }
}

impl View for DirSession {
    type V = DirView;

    open spec fn view(&self) -> DirView {
        DirView {
            device: self.device,
            drive_num: self.drive_num,
            output: self.output@,
            step: self.step@,
        }
    }
}

/// The name under which a directory is opened.
pub open spec fn dir_name(drive_num: Option<u8>) -> Seq<char> {
    match drive_num {
        Some(n) => "$"@ + number::decimal(n as nat),
        None => "$"@,
    }
}

/// What a line of the directory looks like: the size of the file and the rest of the
/// line, given the bytes that its PETSCII was turned into.
pub open spec fn dir_line(size: int, converted: Seq<u8>) -> Seq<char> {
    number::right_aligned(number::decimal(size as nat), 4) + " "@ + text::lossy_text(converted)
        + "\n"@
}

/// An error of the device.
pub open spec fn device_failed(device: u8, what: Seq<char>, e: OpenCbmErrorView) -> CbmErrorView {
    CbmErrorView::DeviceError { device, message: what + e.text() }
}

/// A request that the talk be ended and the directory be closed before an error is
/// handed on.
pub open spec fn abandon(s: DirView, what: Seq<char>, e: OpenCbmErrorView) -> NextView<
    DirView,
    CbmDirListingView,
> {
    NextView::Ask(
        DirView { step: DirStepView::FailUntalk(device_failed(s.device, what, e)), ..s },
    )
}

/// The directory at another step.
pub open spec fn at(s: DirView, step: DirStepView) -> NextView<DirView, CbmDirListingView> {
    NextView::Ask(DirView { step, ..s })
}

/// The directory where the driver is not open.
pub open spec fn closed() -> NextView<DirView, CbmDirListingView> {
    NextView::Done(Err(session::no_handle()))
}

impl DirView {
    /// The next call.
    pub open spec fn request(self) -> BusRequestView {
        match self.step {
            DirStepView::Opening => BusRequestView::Open {
                device: self.device,
                channel: DIR_CHANNEL,
                name: dir_name(self.drive_num),
            },
            DirStepView::CheckingOpen => BusRequestView::Status { device: self.device },
            DirStepView::Talking => BusRequestView::Talk {
                device: self.device,
                channel: DIR_CHANNEL,
            },
            DirStepView::ReadingLoadAddress => BusRequestView::Read { size: 2 },
            DirStepView::ReadingLink => BusRequestView::Read { size: 2 },
            DirStepView::ReadingSize => BusRequestView::Read { size: 2 },
            DirStepView::ReadingName(_) => BusRequestView::Read { size: 1 },
            DirStepView::Converting(name) => BusRequestView::ToAscii { data: name },
            DirStepView::Untalking => BusRequestView::Untalk,
            DirStepView::Closing => BusRequestView::Close {
                device: self.device,
                channel: DIR_CHANNEL,
            },
            DirStepView::CheckingEnd => BusRequestView::Status { device: self.device },
            DirStepView::FailUntalk(_) => BusRequestView::Untalk,
            DirStepView::FailClose(_) => BusRequestView::Close {
                device: self.device,
                channel: DIR_CHANNEL,
            },
        }
    }

    /// What follows on the bytes that were read.
    pub open spec fn next_read(self, buf: Seq<u8>, n: i32) -> NextView<
        DirView,
        CbmDirListingView,
    > {
        match self.step {
            DirStepView::ReadingLoadAddress => if n == 2 {
                at(self, DirStepView::ReadingLink)
            } else {
                at(self, DirStepView::Untalking)
            },
            DirStepView::ReadingLink => if n == 2 {
                at(self, DirStepView::ReadingSize)
            } else {
                at(self, DirStepView::Untalking)
            },
            DirStepView::ReadingSize => if n == 2 {
                NextView::Ask(
                    DirView {
                        output: self.output + number::right_aligned(
                            number::decimal((buf[0] as int + 256 * buf[1] as int) as nat),
                            4,
                        ) + " "@,
                        step: DirStepView::ReadingName(Seq::empty()),
                        ..self
                    },
                )
            } else {
                at(self, DirStepView::Untalking)
            },
            DirStepView::ReadingName(name) => if n == 1 && buf[0] != 0 {
                at(self, DirStepView::ReadingName(name.push(buf[0])))
            } else {
                at(self, DirStepView::Converting(name))
            },
            _ => closed(),
        }
    }

    /// What follows on the end: the listing that was read, where the drive says that all
    /// is well.
    pub open spec fn finish(self, reply: BusReplyView) -> NextView<DirView, CbmDirListingView> {
        match session::status_result(self.device, reply) {
            Err(e) => NextView::Done(Err(e)),
            Ok(s) => if cbmtype::ok_of(s.number) != CbmErrorNumberOk::Okay {
                NextView::Done(Err(CbmErrorView::StatusError { device: s.device, status: s }))
            } else {
                match dir::listing_of(self.output) {
                    Ok(listing) => NextView::Done(Ok(listing)),
                    Err(_) => NextView::Done(
                        Err(
                            CbmErrorView::DeviceError {
                                device: self.device,
                                message: "Failed to parse directory listing"@,
                            },
                        ),
                    ),
                }
            },
        }
    }

    /// What follows on a reply.
    pub open spec fn next(self, reply: BusReplyView) -> NextView<DirView, CbmDirListingView> {
        match self.step {
            DirStepView::Opening => match reply {
                BusReplyView::NoHandle => closed(),
                BusReplyView::Failed(e) => NextView::Done(
                    Err(
                        device_failed(
                            self.device,
                            "Failed to open directory "@ + dir_name(self.drive_num) + ": "@,
                            e,
                        ),
                    ),
                ),
                _ => at(self, DirStepView::CheckingOpen),
            },
            DirStepView::CheckingOpen => match session::status_result(self.device, reply) {
                Err(e) => NextView::Done(Err(e)),
                Ok(s) => if cbmtype::ok_of(s.number) != CbmErrorNumberOk::Okay {
                    NextView::Done(
                        Err(
                            CbmErrorView::CommandError {
                                device: self.device,
                                message: "Got error status after dir open "@
                                    + cbmtype::status_text(s),
                            },
                        ),
                    )
                } else {
                    at(self, DirStepView::Talking)
                },
            },
            DirStepView::Talking => match reply {
                BusReplyView::NoHandle => closed(),
                BusReplyView::Failed(e) => at(
                    self,
                    DirStepView::FailClose(device_failed(self.device, "Talk failed: "@, e)),
                ),
                _ => at(self, DirStepView::ReadingLoadAddress),
            },
            DirStepView::ReadingLoadAddress => match reply {
                BusReplyView::Failed(e) => abandon(self, "Failed to read load address: "@, e),
                BusReplyView::Got(buf, n) => self.next_read(buf, n),
                _ => closed(),
            },
            DirStepView::ReadingLink => match reply {
                BusReplyView::Failed(e) => abandon(self, "Failed to read link address: "@, e),
                BusReplyView::Got(buf, n) => self.next_read(buf, n),
                _ => closed(),
            },
            DirStepView::ReadingSize => match reply {
                BusReplyView::Failed(e) => abandon(self, "Failed to read file size: "@, e),
                BusReplyView::Got(buf, n) => self.next_read(buf, n),
                _ => closed(),
            },
            DirStepView::ReadingName(_) => match reply {
                BusReplyView::Failed(e) => abandon(self, "Failed to read filename: "@, e),
                BusReplyView::Got(buf, n) => self.next_read(buf, n),
                _ => closed(),
            },
            DirStepView::Converting(_) => match reply {
                BusReplyView::Converted(converted) => NextView::Ask(
                    DirView {
                        output: self.output + text::lossy_text(converted) + "\n"@,
                        step: DirStepView::ReadingLink,
                        ..self
                    },
                ),
                _ => closed(),
            },
            DirStepView::Untalking => match reply {
                BusReplyView::NoHandle => closed(),
                BusReplyView::Failed(e) => abandon(self, "Untalk failed: "@, e),
                _ => at(self, DirStepView::Closing),
            },
            DirStepView::Closing => match reply {
                BusReplyView::NoHandle => closed(),
                BusReplyView::Failed(e) => NextView::Done(
                    Err(device_failed(self.device, "Failed to close directory: "@, e)),
                ),
                _ => at(self, DirStepView::CheckingEnd),
            },
            DirStepView::CheckingEnd => self.finish(reply),
            DirStepView::FailUntalk(e) => at(self, DirStepView::FailClose(e)),
            DirStepView::FailClose(e) => NextView::Done(Err(e)),
        }
    }
}

fn dir_name_text(drive_num: Option<u8>) -> (s: String)
    ensures
        s@ == dir_name(drive_num),
{
    let mut s = "$".to_owned();
    if let Some(n) = drive_num {
        push_decimal(&mut s, n as u64);
    }
    s
}

fn device_failure(device: u8, what: &str, e: OpenCbmError) -> (r: CbmError)
    ensures
        r@ == device_failed(device, what@, e@),
{
    let mut message = what.to_owned();
    message.append(e.to_string().as_str());
    CbmError::DeviceError { device, message }
}

fn no_handle() -> (r: Next<DirSession, CbmDirListing>)
    ensures
        r@ == closed(),
{
    Next::Done(Err(CbmError::UsbError("No CBM handle".to_owned())))
}

impl Cbm {
    /// Starts to read the directory of a disk. The drive is 0 or 1 in a unit with two.
    pub fn dir(device: u8, drive_num: Option<u8>) -> (r: Next<DirSession, CbmDirListing>)
        ensures
            r@ == (match drive_num {
                Some(n) => if n > 1 {
                    NextView::Done(
                        Err(
                            CbmErrorView::InvalidOperation {
                                device,
                                message: "Invalid drive number "@ + number::decimal(n as nat)
                                    + " - must be 0 or 1"@,
                            },
                        ),
                    )
                } else {
                    NextView::Ask(
                        DirView {
                            device,
                            drive_num,
                            output: Seq::empty(),
                            step: DirStepView::Opening,
                        },
                    )
                },
                None => NextView::<DirView, CbmDirListingView>::Ask(
                    DirView {
                        device,
                        drive_num,
                        output: Seq::empty(),
                        step: DirStepView::Opening,
                    },
                ),
            }),
    {
        if let Some(n) = drive_num {
            if n > 1 {
                let mut message = "Invalid drive number ".to_owned();
                push_decimal(&mut message, n as u64);
                message.append(" - must be 0 or 1");
                return Next::Done(Err(CbmError::InvalidOperation { device, message }));
            }
        }
        Next::Ask(DirSession { device, drive_num, output: String::new(), step: DirStep::Opening })
    }
}

impl DirSession {
    fn at(self, step: DirStep) -> (r: Next<DirSession, CbmDirListing>)
        ensures
            r@ == at(self@, step@),
    {
        Next::Ask(
            DirSession {
                device: self.device,
                drive_num: self.drive_num,
                output: self.output,
                step,
            },
        )
    }

    fn abandon(self, what: &str, e: OpenCbmError) -> (r: Next<DirSession, CbmDirListing>)
        ensures
            r@ == abandon(self@, what@, e@),
    {
        let error = device_failure(self.device, what, e);
        self.at(DirStep::FailUntalk(error))
    }

    /// The next call.
    pub fn request(&self) -> (r: BusRequest)
        ensures
            r@ == self@.request(),
    {
        match &self.step {
            DirStep::Opening => BusRequest::Open {
                device: self.device,
                channel: DIR_CHANNEL,
                name: dir_name_text(self.drive_num),
            },
            DirStep::CheckingOpen => BusRequest::Status { device: self.device },
            DirStep::Talking => BusRequest::Talk { device: self.device, channel: DIR_CHANNEL },
            DirStep::ReadingLoadAddress => BusRequest::Read { size: 2 },
            DirStep::ReadingLink => BusRequest::Read { size: 2 },
            DirStep::ReadingSize => BusRequest::Read { size: 2 },
            DirStep::ReadingName(_) => BusRequest::Read { size: 1 },
            DirStep::Converting(name) => BusRequest::ToAscii { data: name.clone() },
            DirStep::Untalking => BusRequest::Untalk,
            DirStep::Closing => BusRequest::Close { device: self.device, channel: DIR_CHANNEL },
            DirStep::CheckingEnd => BusRequest::Status { device: self.device },
            DirStep::FailUntalk(_) => BusRequest::Untalk,
            DirStep::FailClose(_) => BusRequest::Close {
                device: self.device,
                channel: DIR_CHANNEL,
            },
        }
    }

    fn next_read(self, buf: Vec<u8>, n: i32) -> (r: Next<DirSession, CbmDirListing>)
        requires
            self@.request().answered_by(BusReplyView::Got(buf@, n)),
            self@.request() is Read,
        ensures
            r@ == self@.next_read(buf@, n),
    {
        let DirSession { device, drive_num, output, step } = self;
        match step {
            DirStep::ReadingLoadAddress => {
                let step = if n == 2 {
                    DirStep::ReadingLink
                } else {
                    DirStep::Untalking
                };
                Next::Ask(DirSession { device, drive_num, output, step })
            },
            DirStep::ReadingLink => {
                let step = if n == 2 {
                    DirStep::ReadingSize
                } else {
                    DirStep::Untalking
                };
                Next::Ask(DirSession { device, drive_num, output, step })
            },
            DirStep::ReadingSize => {
                if n != 2 {
                    return Next::Ask(
                        DirSession { device, drive_num, output, step: DirStep::Untalking },
                    );
                }
                let size: u64 = buf[0] as u64 + 256 * (buf[1] as u64);
                let mut output = output;
                push_right_aligned(&mut output, size, 4);
                output.append(" ");
                let name: Vec<u8> = Vec::new();
                assert(name@ =~= Seq::<u8>::empty());
                Next::Ask(
                    DirSession { device, drive_num, output, step: DirStep::ReadingName(name) },
                )
            },
            DirStep::ReadingName(name) => {
                if n == 1 && buf[0] != 0 {
                    let mut name = name;
                    name.push(buf[0]);
                    Next::Ask(
                        DirSession { device, drive_num, output, step: DirStep::ReadingName(name) },
                    )
                } else {
                    Next::Ask(
                        DirSession { device, drive_num, output, step: DirStep::Converting(name) },
                    )
                }
            },
            _ => no_handle(),
        }
    }

    fn finish(self, reply: BusReply) -> (r: Next<DirSession, CbmDirListing>)
        requires
            (BusRequestView::Status { device: self.device }).answered_by(reply@),
        ensures
            r@ == self@.finish(reply@),
    {
        match Cbm::get_status(self.device, reply) {
            Err(e) => Next::Done(Err(e)),
            Ok(s) => match s.into_result() {
                Err(e) => Next::Done(Err(e)),
                Ok(_) => match CbmDirListing::parse(self.output.as_str()) {
                    Ok(listing) => Next::Done(Ok(listing)),
                    Err(_) => Next::Done(
                        Err(
                            CbmError::DeviceError {
                                device: self.device,
                                message: "Failed to parse directory listing".to_owned(),
                            },
                        ),
                    ),
                },
            },
        }
    }

    fn check_open(self, reply: BusReply) -> (r: Next<DirSession, CbmDirListing>)
        requires
            self@.step == DirStepView::CheckingOpen,
            self@.request().answered_by(reply@),
        ensures
            r@ == self@.next(reply@),
    {
        match Cbm::get_status(self.device, reply) {
            Err(e) => Next::Done(Err(e)),
            Ok(s) => match s.is_ok() {
                CbmErrorNumberOk::Okay => self.at(DirStep::Talking),
                _ => {
                    let mut message = "Got error status after dir open ".to_owned();
                    message.append(s.to_string().as_str());
                    Next::Done(Err(CbmError::CommandError { device: self.device, message }))
                },
            },
        }
    }

    /// Goes on with the reply to the call.
    pub fn next(self, reply: BusReply) -> (r: Next<DirSession, CbmDirListing>)
        requires
            self@.request().answered_by(reply@),
        ensures
            r@ == self@.next(reply@),
    {
        let device: u8 = self.device;
        match &self.step {
            DirStep::Opening => match reply {
                BusReply::NoHandle => no_handle(),
                BusReply::Failed(e) => {
                    let mut what = "Failed to open directory ".to_owned();
                    what.append(dir_name_text(self.drive_num).as_str());
                    what.append(": ");
                    Next::Done(Err(device_failure(device, what.as_str(), e)))
                },
                _ => self.at(DirStep::CheckingOpen),
            },
            DirStep::CheckingOpen => self.check_open(reply),
            DirStep::Talking => match reply {
                BusReply::NoHandle => no_handle(),
                BusReply::Failed(e) => {
                    let error = device_failure(device, "Talk failed: ", e);
                    self.at(DirStep::FailClose(error))
                },
                _ => self.at(DirStep::ReadingLoadAddress),
            },
            DirStep::ReadingLoadAddress => match reply {
                BusReply::Failed(e) => self.abandon("Failed to read load address: ", e),
                BusReply::Got(buf, n) => self.next_read(buf, n),
                _ => no_handle(),
            },
            DirStep::ReadingLink => match reply {
                BusReply::Failed(e) => self.abandon("Failed to read link address: ", e),
                BusReply::Got(buf, n) => self.next_read(buf, n),
                _ => no_handle(),
            },
            DirStep::ReadingSize => match reply {
                BusReply::Failed(e) => self.abandon("Failed to read file size: ", e),
                BusReply::Got(buf, n) => self.next_read(buf, n),
                _ => no_handle(),
            },
            DirStep::ReadingName(_) => match reply {
                BusReply::Failed(e) => self.abandon("Failed to read filename: ", e),
                BusReply::Got(buf, n) => self.next_read(buf, n),
                _ => no_handle(),
            },
            DirStep::Converting(_) => match reply {
                BusReply::Converted(converted) => {
                    let mut output = self.output;
                    output.append(from_utf8_lossy(converted.as_slice()).as_str());
                    output.append("\n");
                    Next::Ask(
                        DirSession {
                            device,
                            drive_num: self.drive_num,
                            output,
                            step: DirStep::ReadingLink,
                        },
                    )
                },
                _ => no_handle(),
            },
            DirStep::Untalking => match reply {
                BusReply::NoHandle => no_handle(),
                BusReply::Failed(e) => self.abandon("Untalk failed: ", e),
                _ => self.at(DirStep::Closing),
            },
            DirStep::Closing => match reply {
                BusReply::NoHandle => no_handle(),
                BusReply::Failed(e) => Next::Done(
                    Err(device_failure(device, "Failed to close directory: ", e)),
                ),
                _ => self.at(DirStep::CheckingEnd),
            },
            DirStep::CheckingEnd => self.finish(reply),
            DirStep::FailUntalk(_) => {
                let DirSession { device, drive_num, output, step } = self;
                match step {
                    DirStep::FailUntalk(e) => Next::Ask(
                        DirSession { device, drive_num, output, step: DirStep::FailClose(e) },
                    ),
                    _ => no_handle(),
                }
            },
            DirStep::FailClose(_) => match self.step {
                DirStep::FailClose(e) => Next::Done(Err(e)),
                _ => no_handle(),
            },
        }
    }
}

// ---------------------------------------------------------------------------
// What is read of a directory
// ---------------------------------------------------------------------------

/// How a drive that has these bytes left answers a read: with as many as were asked
/// for, or with the last ones.
pub open spec fn answer_of(data: Seq<u8>, size: nat) -> BusReplyView {
    let n = if data.len() < size {
        data.len()
    } else {
        size
    };
    BusReplyView::Got(
        Seq::new(
            size,
            |i: int|
                if i < n {
                    data[i]
                } else {
                    0u8
                },
        ),
        n as i32,
    )
}

/// The bytes that are left after a read.
pub open spec fn left_of(data: Seq<u8>, size: nat) -> Seq<u8> {
    if data.len() < size {
        Seq::empty()
    } else {
        data.skip(size as int)
    }
}

/// What comes of reading the lines of a directory from a drive that has these bytes
/// left, until all is read. PETSCII is turned into texts in a way that is given.
#[verifier::opaque]
pub open spec fn read_all(
    s: DirView,
    data: Seq<u8>,
    convert: spec_fn(Seq<u8>) -> Seq<u8>,
) -> DirView
    decreases data.len(), (if s.step is ReadingName {
        2int
    } else if s.step is Converting {
        1int
    } else {
        0int
    }),
{
    match s.step {
        DirStepView::ReadingLink => if data.len() < 2 {
            DirView { step: DirStepView::Untalking, ..s }
        } else {
            match s.next(answer_of(data, 2)) {
                NextView::Ask(t) => read_all(t, left_of(data, 2), convert),
                NextView::Done(_) => s,
            }
        },
        DirStepView::ReadingSize => if data.len() < 2 {
            DirView { step: DirStepView::Untalking, ..s }
        } else {
            match s.next(answer_of(data, 2)) {
                NextView::Ask(t) => read_all(t, left_of(data, 2), convert),
                NextView::Done(_) => s,
            }
        },
        DirStepView::ReadingName(name) => match s.next(answer_of(data, 1)) {
            NextView::Ask(t) => if data.len() > 0 || t.step is Converting {
                read_all(t, left_of(data, 1), convert)
            } else {
                s
            },
            NextView::Done(_) => s,
        },
        DirStepView::Converting(name) => match s.next(BusReplyView::Converted(convert(name))) {
            NextView::Ask(t) => if t.step is ReadingLink {
                read_all(t, data, convert)
            } else {
                s
            },
            NextView::Done(_) => s,
        },
        _ => s,
    }
}

/// Where the first NUL is, or the end.
pub open spec fn nul_at(data: Seq<u8>) -> int
    decreases data.len(),
{
    if data.len() == 0 || data[0] == 0 {
        0
    } else {
        1 + nul_at(data.skip(1))
    }
}

/// The text of a directory: for each line a link address, which says nothing, the size
/// in two bytes, the lower first, and the rest of the line up to a NUL, turned into a text
/// in a way that is given.
pub open spec fn dir_text(data: Seq<u8>, convert: spec_fn(Seq<u8>) -> Seq<u8>) -> Seq<char>
    decreases data.len(),
{
    if data.len() < 4 {
        Seq::empty()
    } else {
        let rest = data.skip(4);
        let n = nul_at(rest);
        let line = dir_line(data[2] as int + 256 * data[3] as int, convert(rest.take(n)));
        if 0 <= n < rest.len() {
            line + dir_text(rest.skip(n + 1), convert)
        } else {
            line
        }
    }
}

proof fn lemma_nul_at(data: Seq<u8>)
    ensures
        0 <= nul_at(data) <= data.len(),
        nul_at(data) < data.len() ==> data[nul_at(data)] == 0,
    decreases data.len(),
{
    if data.len() > 0 && data[0] != 0 {
        lemma_nul_at(data.skip(1));
    }
}

/// The state after the end of a line.
spec fn named_line(s: DirView, converted: Seq<u8>) -> DirView {
    DirView {
        output: s.output + text::lossy_text(converted) + "\n"@,
        step: DirStepView::ReadingLink,
        ..s
    }
}

proof fn lemma_converted(
    s: DirView,
    data: Seq<u8>,
    name: Seq<u8>,
    convert: spec_fn(Seq<u8>) -> Seq<u8>,
)
    requires
        s.step == DirStepView::Converting(name),
    ensures
        read_all(s, data, convert) == read_all(named_line(s, convert(name)), data, convert),
{
    reveal_with_fuel(read_all, 1);
    assert(s.next(BusReplyView::Converted(convert(name))) == NextView::<
        DirView,
        CbmDirListingView,
    >::Ask(named_line(s, convert(name))));
}

proof fn lemma_read_name_end(
    s: DirView,
    data: Seq<u8>,
    name: Seq<u8>,
    convert: spec_fn(Seq<u8>) -> Seq<u8>,
)
    requires
        s.step == DirStepView::ReadingName(name),
        data.len() == 0 || data[0] == 0,
    ensures
        read_all(s, data, convert) == read_all(
            named_line(s, convert(name)),
            left_of(data, 1),
            convert,
        ),
{
    reveal_with_fuel(read_all, 1);
    let u = DirView { step: DirStepView::Converting(name), ..s };
    assert(s.next(answer_of(data, 1)) == NextView::<DirView, CbmDirListingView>::Ask(u));
    assert(read_all(s, data, convert) == read_all(u, left_of(data, 1), convert));
    lemma_converted(u, left_of(data, 1), name, convert);
    assert(named_line(u, convert(name)) == named_line(s, convert(name)));
}

proof fn lemma_read_name_char(
    s: DirView,
    data: Seq<u8>,
    name: Seq<u8>,
    convert: spec_fn(Seq<u8>) -> Seq<u8>,
)
    requires
        s.step == DirStepView::ReadingName(name),
        data.len() > 0,
        data[0] != 0,
    ensures
        read_all(s, data, convert) == read_all(
            DirView { step: DirStepView::ReadingName(name.push(data[0])), ..s },
            data.skip(1),
            convert,
        ),
{
    reveal_with_fuel(read_all, 1);
    let u = DirView { step: DirStepView::ReadingName(name.push(data[0])), ..s };
    assert(s.next(answer_of(data, 1)) == NextView::<DirView, CbmDirListingView>::Ask(u));
}

proof fn lemma_read_name(
    s: DirView,
    data: Seq<u8>,
    name: Seq<u8>,
    convert: spec_fn(Seq<u8>) -> Seq<u8>,
)
    requires
        s.step == DirStepView::ReadingName(name),
    ensures
        ({
            let n = nul_at(data);
            read_all(s, data, convert) == read_all(
                named_line(s, convert(name + data.take(n))),
                if n < data.len() {
                    data.skip(n + 1)
                } else {
                    Seq::empty()
                },
                convert,
            )
        }),
    decreases data.len(),
{
    lemma_nul_at(data);
    if data.len() == 0 || data[0] == 0 {
        lemma_read_name_end(s, data, name, convert);
        assert(name + data.take(0) =~= name);
    } else {
        lemma_read_name_char(s, data, name, convert);
        let u = DirView { step: DirStepView::ReadingName(name.push(data[0])), ..s };
        lemma_read_name(u, data.skip(1), name.push(data[0]), convert);
        let n = nul_at(data);
        let m = nul_at(data.skip(1));
        lemma_nul_at(data.skip(1));
        assert(name.push(data[0]) + data.skip(1).take(m) =~= name + data.take(n));
        if n < data.len() {
            assert(data.skip(1).skip(m + 1) =~= data.skip(n + 1));
        }
    }
}

proof fn lemma_read_nothing(s: DirView, data: Seq<u8>, convert: spec_fn(Seq<u8>) -> Seq<u8>)
    requires
        s.step == DirStepView::ReadingLink || s.step == DirStepView::ReadingSize,
        data.len() < 2,
    ensures
        read_all(s, data, convert) == (DirView { step: DirStepView::Untalking, ..s }),
{
    reveal_with_fuel(read_all, 1);
}

proof fn lemma_read_link(s: DirView, data: Seq<u8>, convert: spec_fn(Seq<u8>) -> Seq<u8>)
    requires
        s.step == DirStepView::ReadingLink,
        data.len() >= 2,
    ensures
        read_all(s, data, convert) == read_all(
            DirView { step: DirStepView::ReadingSize, ..s },
            data.skip(2),
            convert,
        ),
{
    reveal_with_fuel(read_all, 1);
    let sized = DirView { step: DirStepView::ReadingSize, ..s };
    assert(s.next(answer_of(data, 2)) == NextView::<DirView, CbmDirListingView>::Ask(sized));
}

/// The state after the size of a line.
spec fn sized_line(s: DirView, size: int) -> DirView {
    DirView {
        output: s.output + number::right_aligned(number::decimal(size as nat), 4) + " "@,
        step: DirStepView::ReadingName(Seq::empty()),
        ..s
    }
}

proof fn lemma_read_size(s: DirView, data: Seq<u8>, convert: spec_fn(Seq<u8>) -> Seq<u8>)
    requires
        s.step == DirStepView::ReadingSize,
        data.len() >= 2,
    ensures
        read_all(s, data, convert) == read_all(
            sized_line(s, data[0] as int + 256 * data[1] as int),
            data.skip(2),
            convert,
        ),
{
    reveal_with_fuel(read_all, 1);
    let named = sized_line(s, data[0] as int + 256 * data[1] as int);
    assert(s.next(answer_of(data, 2)) == NextView::<DirView, CbmDirListingView>::Ask(named));
}

/// The state after a line.
spec fn after_line(s: DirView, line: Seq<char>) -> DirView {
    DirView { output: s.output + line, step: DirStepView::ReadingLink, ..s }
}

proof fn lemma_read_line(s: DirView, data: Seq<u8>, convert: spec_fn(Seq<u8>) -> Seq<u8>)
    requires
        s.step == DirStepView::ReadingLink,
        data.len() >= 4,
    ensures
        ({
            let rest = data.skip(4);
            let n = nul_at(rest);
            let line = dir_line(data[2] as int + 256 * data[3] as int, convert(rest.take(n)));
            read_all(s, data, convert) == read_all(
                after_line(s, line),
                if n < rest.len() {
                    rest.skip(n + 1)
                } else {
                    Seq::empty()
                },
                convert,
            )
        }),
{
    let size = data[2] as int + 256 * data[3] as int;
    lemma_read_link(s, data, convert);
    let sized = DirView { step: DirStepView::ReadingSize, ..s };
    lemma_read_size(sized, data.skip(2), convert);
    let named = sized_line(sized, size);
    let rest = data.skip(4);
    assert(data.skip(2).skip(2) =~= rest);
    lemma_read_name(named, rest, Seq::empty(), convert);
    let n = nul_at(rest);
    lemma_nul_at(rest);
    assert(Seq::<u8>::empty() + rest.take(n) =~= rest.take(n));
    let line = dir_line(size, convert(rest.take(n)));
    assert(named_line(named, convert(rest.take(n))).output =~= after_line(s, line).output);
}

/// Whatever bytes a drive sends for a directory, and however PETSCII is turned into texts, the
/// lines that are collected are those that the bytes stand for, and then the talk is ended.
pub proof fn law_directory_is_read(
    s: DirView,
    data: Seq<u8>,
    convert: spec_fn(Seq<u8>) -> Seq<u8>,
)
    requires
        s.step == DirStepView::ReadingLink,
    ensures
        read_all(s, data, convert) == (DirView {
            output: s.output + dir_text(data, convert),
            step: DirStepView::Untalking,
            ..s
        }),
    decreases data.len(),
{
    if data.len() < 2 {
        lemma_read_nothing(s, data, convert);
        assert(s.output + dir_text(data, convert) =~= s.output);
    } else if data.len() < 4 {
        lemma_read_link(s, data, convert);
        let sized = DirView { step: DirStepView::ReadingSize, ..s };
        lemma_read_nothing(sized, data.skip(2), convert);
        assert(s.output + dir_text(data, convert) =~= s.output);
    } else {
        lemma_read_line(s, data, convert);
        let rest = data.skip(4);
        lemma_nul_at(rest);
        let n = nul_at(rest);
        let line = dir_line(data[2] as int + 256 * data[3] as int, convert(rest.take(n)));
        if n < rest.len() {
            law_directory_is_read(after_line(s, line), rest.skip(n + 1), convert);
            assert((s.output + line) + dir_text(rest.skip(n + 1), convert) =~= s.output + dir_text(
                data,
                convert,
            ));
        } else {
            law_directory_is_read(after_line(s, line), Seq::empty(), convert);
            assert((s.output + line) + dir_text(Seq::<u8>::empty(), convert) =~= s.output + dir_text(
                data,
                convert,
            ));
        }
    }
}

/// After an error in the talk the talk is ended and the directory closed, whatever comes
/// of those calls, and then the error is handed on.
pub proof fn law_failed_directory_is_closed(
    s: DirView,
    error: OpenCbmErrorView,
    first: BusReplyView,
    second: BusReplyView,
)
    requires
        s.step is ReadingLoadAddress || s.step is ReadingLink || s.step is ReadingSize
            || s.step is ReadingName || s.step is Untalking,
    ensures
        s.next(BusReplyView::Failed(error)) matches NextView::Ask(t) && t.request()
            == BusRequestView::Untalk && (t.next(first) matches NextView::Ask(u) && u.request() == (
        BusRequestView::Close { device: s.device, channel: DIR_CHANNEL }) && (u.next(
            second,
        ) matches NextView::Done(Err(e)) && e is DeviceError)),
{
}

} // verus!
