//! The driver of the USB adapter: what its calls return, and how a stuck adapter
//! is found and reset.
use vstd::prelude::*;

use crate::cbmtype;
use crate::cbmtype::{CbmDeviceInfo, CbmDeviceInfoView, CbmDeviceType};
use crate::errno::ETIMEDOUT;
use crate::number;
use crate::number::push_signed;
use crate::text;
use crate::text::{
    contains, from_utf8_lossy, lines, same, second_piece, split, trim_end_char, words,
};

verus! {

/// What can go wrong in a call of the driver.
#[derive(Debug, PartialEq)]
pub enum OpenCbmError {
    ConnectionError(String),
    UnknownDevice(String),
    ThreadTimeout,
    ThreadPanic,
    Other(String),
    /// Perhaps the device queried is not present
    FailedCall(i32, String),
    /// The adapter itself seems to be broken
    UsbError(Option<i32>, String),
    DriverNotOpen,
}

/// An error of the driver, with its text as a sequence of characters.
#[verifier::ext_equal]
pub enum OpenCbmErrorView {
    ConnectionError(Seq<char>),
    UnknownDevice(Seq<char>),
    ThreadTimeout,
    ThreadPanic,
    Other(Seq<char>),
    FailedCall(i32, Seq<char>),
    UsbError(Option<i32>, Seq<char>),
    DriverNotOpen,
}

impl View for OpenCbmError {
    type V = OpenCbmErrorView;

    open spec fn view(&self) -> OpenCbmErrorView {
        match *self {
            OpenCbmError::ConnectionError(s) => OpenCbmErrorView::ConnectionError(s@),
            OpenCbmError::UnknownDevice(s) => OpenCbmErrorView::UnknownDevice(s@),
            OpenCbmError::ThreadTimeout => OpenCbmErrorView::ThreadTimeout,
            OpenCbmError::ThreadPanic => OpenCbmErrorView::ThreadPanic,
            OpenCbmError::Other(s) => OpenCbmErrorView::Other(s@),
            OpenCbmError::FailedCall(rc, s) => OpenCbmErrorView::FailedCall(rc, s@),
            OpenCbmError::UsbError(rc, s) => OpenCbmErrorView::UsbError(rc, s@),
            OpenCbmError::DriverNotOpen => OpenCbmErrorView::DriverNotOpen,
        }
    }
}

/// How a return code that may be missing is written.
pub open spec fn code_text(rc: Option<i32>) -> Seq<char> {
    match rc {
        Some(n) => "Some("@ + number::signed_decimal(n as int) + ")"@,
        None => "None"@,
    }
}

impl OpenCbmErrorView {
    /// The text of the error.
    pub open spec fn text(self) -> Seq<char> {
        match self {
            OpenCbmErrorView::ConnectionError(s) => s,
            OpenCbmErrorView::UnknownDevice(s) => s,
            OpenCbmErrorView::ThreadTimeout => "FFI call timed out"@,
            OpenCbmErrorView::ThreadPanic => "FFI call thread panicked"@,
            OpenCbmErrorView::Other(s) => s,
            OpenCbmErrorView::FailedCall(rc, s) => s + " "@ + number::signed_decimal(rc as int),
            OpenCbmErrorView::UsbError(rc, s) => s + " "@ + code_text(rc),
            OpenCbmErrorView::DriverNotOpen => "Driver not open"@,
        }
    }
}

impl OpenCbmError {
    /// The error for an error number of the operating system, with its text. Without a
    /// number, or with that for a missing device, the adapter is not plugged in.
    pub fn from_os_error(code: Option<i32>, text: String) -> (r: Self)
        ensures
            r@ == os_error(code, text@),
    {
        match code {
            Some(0) | Some(19) => OpenCbmError::ConnectionError(
                "Cannot access the XUM1541 - is it plugged in?".to_owned(),
            ),
            _ => OpenCbmError::Other(text),
        }
    }

    /// The text of the error.
    pub fn to_string(&self) -> (s: String)
        ensures
            s@ == self@.text(),
    {
        match self {
            OpenCbmError::ConnectionError(s) => s.clone(),
            OpenCbmError::UnknownDevice(s) => s.clone(),
            OpenCbmError::ThreadTimeout => "FFI call timed out".to_owned(),
            OpenCbmError::ThreadPanic => "FFI call thread panicked".to_owned(),
            OpenCbmError::Other(s) => s.clone(),
            OpenCbmError::FailedCall(rc, s) => {
                let mut t = s.clone();
                t.append(" ");
                push_signed(&mut t, *rc);
                t
            },
            OpenCbmError::UsbError(rc, s) => {
                let mut t = s.clone();
                t.append(" ");
                match rc {
                    Some(n) => {
                        let mut c = "Some(".to_owned();
                        push_signed(&mut c, *n);
                        c.append(")");
                        t.append(c.as_str());
                    },
                    None => t.append("None"),
                }
                t
            },
            OpenCbmError::DriverNotOpen => "Driver not open".to_owned(),
        }
    }
}

/// The error for an error number of the operating system.
pub open spec fn os_error(code: Option<i32>, text: Seq<char>) -> OpenCbmErrorView {
    if code == Some(0i32) || code == Some(19i32) {
        OpenCbmErrorView::ConnectionError("Cannot access the XUM1541 - is it plugged in?"@)
    } else {
        OpenCbmErrorView::Other(text)
    }
}

// ---------------------------------------------------------------------------
// Calls on the bus
// ---------------------------------------------------------------------------

/// A call that the driver is asked to make.
#[derive(Debug)]
pub enum BusRequest {
    Reset,
    Listen { device: u8, channel: u8 },
    Talk { device: u8, channel: u8 },
    Unlisten,
    Untalk,
    Write { data: Vec<u8> },
    Read { size: usize },
    /// The driver turns the name into PETSCII
    Open { device: u8, channel: u8, name: String },
    Close { device: u8, channel: u8 },
    Status { device: u8 },
    Identify { device: u8 },
    /// Turn a text into PETSCII, the character set of the drives
    ToPetscii { text: String },
    /// Turn PETSCII into the bytes of a text
    ToAscii { data: Vec<u8> },
}

/// A call, with its bytes and texts as sequences.
#[allow(inconsistent_fields)]
#[verifier::ext_equal]
pub enum BusRequestView {
    Reset,
    Listen { device: u8, channel: u8 },
    Talk { device: u8, channel: u8 },
    Unlisten,
    Untalk,
    Write { data: Seq<u8> },
    Read { size: usize },
    Open { device: u8, channel: u8, name: Seq<char> },
    Close { device: u8, channel: u8 },
    Status { device: u8 },
    Identify { device: u8 },
    ToPetscii { text: Seq<char> },
    ToAscii { data: Seq<u8> },
}

impl View for BusRequest {
    type V = BusRequestView;

    open spec fn view(&self) -> BusRequestView {
        match *self {
            BusRequest::Reset => BusRequestView::Reset,
            BusRequest::Listen { device, channel } => BusRequestView::Listen { device, channel },
            BusRequest::Talk { device, channel } => BusRequestView::Talk { device, channel },
            BusRequest::Unlisten => BusRequestView::Unlisten,
            BusRequest::Untalk => BusRequestView::Untalk,
            BusRequest::Write { data } => BusRequestView::Write { data: data@ },
            BusRequest::Read { size } => BusRequestView::Read { size },
            BusRequest::Open { device, channel, name } => BusRequestView::Open {
                device,
                channel,
                name: name@,
            },
            BusRequest::Close { device, channel } => BusRequestView::Close { device, channel },
            BusRequest::Status { device } => BusRequestView::Status { device },
            BusRequest::Identify { device } => BusRequestView::Identify { device },
            BusRequest::ToPetscii { text } => BusRequestView::ToPetscii { text: text@ },
            BusRequest::ToAscii { data } => BusRequestView::ToAscii { data: data@ },
        }
    }
}

/// What came of a call.
#[derive(Debug)]
pub enum BusReply {
    Done,
    Wrote(i32),
    /// The buffer, and how many bytes of it were read
    Got(Vec<u8>, i32),
    Identified(CbmDeviceInfo),
    /// What a text or its PETSCII was turned into
    Converted(Vec<u8>),
    Failed(OpenCbmError),
    /// The driver was not open when the call was to be made
    NoHandle,
}

/// What came of a call, with its bytes and texts as sequences.
#[verifier::ext_equal]
pub enum BusReplyView {
    Done,
    Wrote(i32),
    Got(Seq<u8>, i32),
    Identified(CbmDeviceInfoView),
    Converted(Seq<u8>),
    Failed(OpenCbmErrorView),
    NoHandle,
}

impl View for BusReply {
    type V = BusReplyView;

    open spec fn view(&self) -> BusReplyView {
        match *self {
            BusReply::Done => BusReplyView::Done,
            BusReply::Wrote(n) => BusReplyView::Wrote(n),
            BusReply::Got(data, n) => BusReplyView::Got(data@, n),
            BusReply::Identified(info) => BusReplyView::Identified(info@),
            BusReply::Converted(data) => BusReplyView::Converted(data@),
            BusReply::Failed(e) => BusReplyView::Failed(e@),
            BusReply::NoHandle => BusReplyView::NoHandle,
        }
    }
}

impl BusRequestView {
    /// The call turns a text into PETSCII or PETSCII into a text.
    pub open spec fn converts(self) -> bool {
        self is ToPetscii || self is ToAscii
    }

    /// The reply is of the sort that the call has: bytes for a read, of as many as were
    /// asked for, a count for a write, and nothing for most others. To turn a text into
    /// PETSCII, or back, does not fail.
    pub open spec fn answered_by(self, reply: BusReplyView) -> bool {
        match reply {
            BusReplyView::Failed(_) => !self.converts(),
            BusReplyView::NoHandle => true,
            BusReplyView::Wrote(_) => self is Write,
            BusReplyView::Got(data, n) => match self {
                BusRequestView::Read { size } => data.len() == size && 0 <= n <= size,
                BusRequestView::Status { .. } => true,
                _ => false,
            },
            BusReplyView::Identified(_) => self is Identify,
            BusReplyView::Converted(_) => self.converts(),
            BusReplyView::Done => match self {
                BusRequestView::Write { .. } => false,
                BusRequestView::Read { .. } => false,
                BusRequestView::Status { .. } => false,
                BusRequestView::Identify { .. } => false,
                _ => !self.converts(),
            },
        }
    }
}

/// What a call of the driver's library has returned: its code, and what it has filled
/// in; and the error number that it has left, with its text.
#[derive(Debug)]
pub struct RawReturn {
    pub code: i32,
    pub data: Vec<u8>,
    pub device_type: i32,
    pub description: String,
    pub os_code: Option<i32>,
    pub os_text: String,
}

/// How a call of the driver's library has ended: it is given up where it takes too
/// long.
#[derive(Debug)]
pub enum CallOutcome {
    TimedOut,
    Panicked,
    Returned(RawReturn),
}

/// A failed call that returned a code other than 0.
pub open spec fn unless_zero(code: i32, name: Seq<char>) -> BusReplyView {
    if code == 0 {
        BusReplyView::Done
    } else {
        BusReplyView::Failed(OpenCbmErrorView::UsbError(Some(code), name))
    }
}

/// What a call has come to, from what its library function has returned.
pub open spec fn reply_from(request: BusRequestView, r: RawReturn) -> BusReplyView {
    match request {
        BusRequestView::Reset => if r.code == 0 {
            BusReplyView::Done
        } else {
            BusReplyView::Failed(os_error(r.os_code, r.os_text@))
        },
        BusRequestView::Listen { .. } => unless_zero(r.code, "cbm_listen"@),
        BusRequestView::Talk { .. } => unless_zero(r.code, "talk"@),
        BusRequestView::Unlisten => unless_zero(r.code, "unlisten"@),
        BusRequestView::Untalk => unless_zero(r.code, "untalk"@),
        BusRequestView::Open { .. } => unless_zero(r.code, "open_file"@),
        BusRequestView::Close { .. } => unless_zero(r.code, "close_file"@),
        BusRequestView::Write { .. } => if r.code >= 0 {
            BusReplyView::Wrote(r.code)
        } else {
            BusReplyView::Failed(OpenCbmErrorView::FailedCall(r.code, "cbm_raw_write"@))
        },
        BusRequestView::Read { .. } => if r.code >= 0 {
            BusReplyView::Got(r.data@, r.code)
        } else {
            BusReplyView::Failed(OpenCbmErrorView::FailedCall(r.code, "cbm_raw_read"@))
        },
        BusRequestView::Status { .. } => if r.code < 0 {
            BusReplyView::Failed(OpenCbmErrorView::UsbError(Some(r.code), "cbm_device_status"@))
        } else if r.data@.len() > 0 {
            BusReplyView::Got(r.data@, r.code)
        } else {
            BusReplyView::Failed(OpenCbmErrorView::FailedCall(0, "cbm_device_status"@))
        },
        BusRequestView::Identify { .. } => if r.code == 0 {
            BusReplyView::Identified(
                CbmDeviceInfoView {
                    device_type: cbmtype::device_type_of(r.device_type),
                    description: r.description@,
                },
            )
        } else {
            BusReplyView::Failed(OpenCbmErrorView::UnknownDevice(r.description@))
        },
        BusRequestView::ToPetscii { .. } => BusReplyView::Converted(r.data@),
        BusRequestView::ToAscii { .. } => BusReplyView::Converted(r.data@),
    }
}

/// What a call has come to.
pub open spec fn reply_of(request: BusRequestView, outcome: CallOutcome) -> BusReplyView {
    match outcome {
        CallOutcome::TimedOut => BusReplyView::Failed(OpenCbmErrorView::ThreadTimeout),
        CallOutcome::Panicked => BusReplyView::Failed(OpenCbmErrorView::ThreadPanic),
        CallOutcome::Returned(r) => reply_from(request, r),
    }
}

fn done_unless(code: i32, name: &str) -> (r: BusReply)
    ensures
        r@ == unless_zero(code, name@),
{
    if code == 0 {
        BusReply::Done
    } else {
        BusReply::Failed(OpenCbmError::UsbError(Some(code), name.to_owned()))
    }
}

impl BusReply {
    /// Makes the reply to a call from the way in which its library function has ended.
    pub fn new(request: &BusRequest, outcome: CallOutcome) -> (r: BusReply)
        ensures
            r@ == reply_of(request@, outcome),
    {
        let returned = match outcome {
            CallOutcome::TimedOut => return BusReply::Failed(OpenCbmError::ThreadTimeout),
            CallOutcome::Panicked => return BusReply::Failed(OpenCbmError::ThreadPanic),
            CallOutcome::Returned(r) => r,
        };
        let code: i32 = returned.code;
        match request {
            BusRequest::Reset => if code == 0 {
                BusReply::Done
            } else {
                BusReply::Failed(OpenCbmError::from_os_error(returned.os_code, returned.os_text))
            },
            BusRequest::Listen { .. } => done_unless(code, "cbm_listen"),
            BusRequest::Talk { .. } => done_unless(code, "talk"),
            BusRequest::Unlisten => done_unless(code, "unlisten"),
            BusRequest::Untalk => done_unless(code, "untalk"),
            BusRequest::Open { .. } => done_unless(code, "open_file"),
            BusRequest::Close { .. } => done_unless(code, "close_file"),
            BusRequest::Write { .. } => if code >= 0 {
                BusReply::Wrote(code)
            } else {
                BusReply::Failed(OpenCbmError::FailedCall(code, "cbm_raw_write".to_owned()))
            },
            BusRequest::Read { .. } => if code >= 0 {
                BusReply::Got(returned.data, code)
            } else {
                BusReply::Failed(OpenCbmError::FailedCall(code, "cbm_raw_read".to_owned()))
            },
            BusRequest::Status { .. } => if code < 0 {
                BusReply::Failed(
                    OpenCbmError::UsbError(Some(code), "cbm_device_status".to_owned()),
                )
            } else if returned.data.len() > 0 {
                BusReply::Got(returned.data, code)
            } else {
                BusReply::Failed(OpenCbmError::FailedCall(0, "cbm_device_status".to_owned()))
            },
            BusRequest::Identify { .. } => if code == 0 {
                BusReply::Identified(
                    CbmDeviceInfo {
                        device_type: CbmDeviceType::from(returned.device_type),
                        description: returned.description,
                    },
                )
            } else {
                BusReply::Failed(OpenCbmError::UnknownDevice(returned.description))
            },
            BusRequest::ToPetscii { .. } => BusReply::Converted(returned.data),
            BusRequest::ToAscii { .. } => BusReply::Converted(returned.data),
        }
    }
}

/// Whether a call that may be made twice is made again: after the first attempt, where
/// it has timed out.
pub fn should_retry(attempt: u8, code: i32, os_code: Option<i32>) -> (r: bool)
    ensures
        r == (code != 0 && attempt == 1 && os_code == Some(ETIMEDOUT)),
{
    code != 0 && attempt == 1 && match os_code {
        Some(n) => n == ETIMEDOUT,
        None => false,
    }
}

/// The driver, as long as it is open.
#[derive(Debug, PartialEq, Eq)]
pub struct OpenCbm {
    pub handle: isize,
    pub driver_opened: bool,
}

impl OpenCbm {
    /// The driver, from the way in which opening it has ended.
    pub fn open_driver(outcome: CallOutcome, handle: isize) -> (r: Result<OpenCbm, OpenCbmError>)
        ensures
            match r {
                Ok(d) => d == (OpenCbm { handle, driver_opened: true }) && reply_of(
                    BusRequestView::Reset,
                    outcome,
                ) == BusReplyView::Done,
                Err(e) => reply_of(BusRequestView::Reset, outcome) == BusReplyView::Failed(e@),
            },
    {
        match BusReply::new(&BusRequest::Reset, outcome) {
            BusReply::Failed(e) => Err(e),
            _ => Ok(OpenCbm { handle, driver_opened: true }),
        }
    }

    /// Asks for a reset of the bus, for which the handle has to be above 0.
    pub fn reset(&self) -> (r: Result<BusRequest, OpenCbmError>)
        ensures
            match r {
                Ok(request) => self.handle > 0 && request == BusRequest::Reset,
                Err(e) => self.handle <= 0 && e@ == OpenCbmErrorView::Other(
                    "Invalid handle value"@,
                ),
            },
    {
        if self.handle <= 0 {
            Err(OpenCbmError::Other("Invalid handle value".to_owned()))
        } else {
            Ok(BusRequest::Reset)
        }
    }

    /// Forgets the handle and gives it back, so that the driver can be closed.
    pub fn close_driver(&mut self) -> (handle: isize)
        ensures
            handle == old(self).handle,
            *final(self) == (OpenCbm { handle: 0, driver_opened: old(self).driver_opened }),
    {
        let handle: isize = self.handle;
        self.handle = 0;
        handle
    }

    /// Asks for a file to be opened.
    pub fn open_file(&self, device: u8, secondary_address: u8, filename: &str) -> (r: BusRequest)
        ensures
            r@ == (BusRequestView::Open {
                device,
                channel: secondary_address,
                name: filename@,
            }),
    {
        BusRequest::Open { device, channel: secondary_address, name: filename.to_owned() }
    }

    /// The parts of the driver.
    pub fn into_raw_values(self) -> (r: (isize, bool))
        ensures
            r == (self.handle, self.driver_opened),
    {
        (self.handle, self.driver_opened)
    }
}

// ---------------------------------------------------------------------------
// Resetting the USB adapter
// ---------------------------------------------------------------------------

/// The vendor of the adapter.
pub const XUM1541_VENDOR_ID: &'static str = "16d0";

/// The adapter among the vendor's products.
pub const XUM1541_PRODUCT_ID: &'static str = "0504";

/// Bus and device in a line of `lsusb`, where the line is for a product. The product
/// stands behind `ID` as vendor and product with a colon between them.
pub open spec fn usb_line(line: Seq<char>, vendor_id: Seq<char>, product_id: Seq<char>) -> Option<
    (Seq<char>, Seq<char>),
> {
    match text::second_part(line, "ID "@) {
        None => None,
        Some(id_part) => {
            let id_words = text::words_of(id_part);
            let ids = text::split_on(id_words[0], ':');
            let parts = text::words_of(line);
            if id_words.len() > 0 && ids.len() == 2 && ids[0] == vendor_id && ids[1] == product_id
                && parts.len() >= 4 {
                Some((parts[1], text::without_trailing(parts[3], ':')))
            } else {
                None
            }
        },
    }
}

/// Bus and device in the first line for a product.
pub open spec fn usb_device(
    lines: Seq<Seq<char>>,
    vendor_id: Seq<char>,
    product_id: Seq<char>,
) -> Option<(Seq<char>, Seq<char>)>
    decreases lines.len(),
{
    if lines.len() == 0 {
        None
    } else {
        match usb_line(lines[0], vendor_id, product_id) {
            Some(found) => Some(found),
            None => usb_device(lines.skip(1), vendor_id, product_id),
        }
    }
}

/// Some line names the device and the message.
pub open spec fn reset_reported(
    lines: Seq<Seq<char>>,
    device_type: Seq<char>,
    success_message: Seq<char>,
) -> bool {
    exists|i: int|
        0 <= i < lines.len() && text::has_part(#[trigger] lines[i], device_type) && text::has_part(
            lines[i],
            success_message,
        )
}

/// Two texts that may be missing.
pub open spec fn pair_texts(r: Option<(String, String)>) -> Option<(Seq<char>, Seq<char>)> {
    match r {
        Some((a, b)) => Some((a@, b@)),
        None => None,
    }
}

fn parse_usb_line(line: &str, vendor_id: &str, product_id: &str) -> (r: Option<(String, String)>)
    ensures
        pair_texts(r) == usb_line(line@, vendor_id@, product_id@),
{
    let id_part = match second_piece(line, "ID ") {
        Some(s) => s,
        None => return None,
    };
    let id_words = words(id_part.as_str());
    assert(text::texts(id_words@).len() == id_words@.len());
    if id_words.len() == 0 {
        return None;
    }
    assert(text::texts(id_words@)[0] == id_words@[0]@);
    let ids = split(id_words[0].as_str(), ':');
    assert(text::texts(ids@).len() == ids@.len());
    if ids.len() != 2 {
        return None;
    }
    assert(text::texts(ids@)[0] == ids@[0]@ && text::texts(ids@)[1] == ids@[1]@);
    if !same(ids[0].as_str(), vendor_id) || !same(ids[1].as_str(), product_id) {
        return None;
    }
    let parts = words(line);
    assert(text::texts(parts@).len() == parts@.len());
    if parts.len() < 4 {
        return None;
    }
    assert(text::texts(parts@)[1] == parts@[1]@ && text::texts(parts@)[3] == parts@[3]@);
    Some((parts[1].clone(), trim_end_char(parts[3].as_str(), ':')))
}

/// Finds bus and device of a product in what `lsusb` has printed.
pub fn parse_lsusb_output(output: &str, vendor_id: &str, product_id: &str) -> (r: Option<
    (String, String),
>)
    ensures
        pair_texts(r) == usb_device(text::lines_of(output@), vendor_id@, product_id@),
{
    let all = lines(output);
    let ghost texts = text::texts(all@);
    let mut i: usize = 0;
    assert(texts.skip(0) =~= texts);
    while i < all.len()
        invariant
            i <= all@.len(),
            texts == text::texts(all@),
            usb_device(texts, vendor_id@, product_id@) == usb_device(
                texts.skip(i as int),
                vendor_id@,
                product_id@,
            ),
            texts == text::lines_of(output@),
        decreases all@.len() - i,
    {
        assert(texts.skip(i as int)[0] == all@[i as int]@);
        assert(texts.skip(i as int).skip(1) =~= texts.skip(i + 1));
        let found = parse_usb_line(all[i].as_str(), vendor_id, product_id);
        if found.is_some() {
            return found;
        }
        i = i + 1;
    }
    None
}

/// Whether `usbreset` has printed a line with the device and the message.
pub fn parse_usbreset_output(output: &str, device_type: &str, success_message: &str) -> (r: bool)
    ensures
        r == reset_reported(text::lines_of(output@), device_type@, success_message@),
{
    let all = lines(output);
    let ghost texts = text::texts(all@);
    let mut i: usize = 0;
    while i < all.len()
        invariant
            i <= all@.len(),
            texts == text::texts(all@),
            texts == text::lines_of(output@),
            forall|j: int|
                0 <= j < i ==> !(text::has_part(#[trigger] texts[j], device_type@)
                    && text::has_part(texts[j], success_message@)),
        decreases all@.len() - i,
    {
        assert(texts[i as int] == all@[i as int]@);
        if contains(all[i].as_str(), device_type) && contains(all[i].as_str(), success_message) {
            return true;
        }
        i = i + 1;
    }
    false
}

/// How a command has ended: it could not be run, or it has printed something and
/// returned a code.
#[derive(Debug)]
pub enum CommandOutcome {
    NotRun { code: Option<i32>, error: String },
    Ran { code: Option<i32>, stdout: Vec<u8>, stderr: Vec<u8> },
}

/// What a command has printed, where it has ended well.
pub open spec fn stdout_of(command: Seq<char>, outcome: CommandOutcome) -> Result<
    Seq<char>,
    OpenCbmErrorView,
> {
    match outcome {
        CommandOutcome::NotRun { code, error } => Err(
            OpenCbmErrorView::UsbError(code, "Failed to run "@ + command + ": "@ + error@),
        ),
        CommandOutcome::Ran { code, stdout, stderr } => if code == Some(0i32) {
            Ok(text::lossy_text(stdout@))
        } else {
            Err(
                OpenCbmErrorView::UsbError(
                    code,
                    "Failed to run "@ + command + ": "@ + text::lossy_text(stderr@),
                ),
            )
        },
    }
}

fn failed_to_run(command: &str, code: Option<i32>, error: &str) -> (e: OpenCbmError)
    ensures
        e@ == OpenCbmErrorView::UsbError(code, "Failed to run "@ + command@ + ": "@ + error@),
{
    let mut s = "Failed to run ".to_owned();
    s.append(command);
    s.append(": ");
    s.append(error);
    OpenCbmError::UsbError(code, s)
}

/// What a command has printed, where it has ended well.
pub fn command_stdout(command: &str, outcome: CommandOutcome) -> (r: Result<String, OpenCbmError>)
    ensures
        match r {
            Ok(s) => stdout_of(command@, outcome) == Ok::<Seq<char>, OpenCbmErrorView>(s@),
            Err(e) => stdout_of(command@, outcome) == Err::<Seq<char>, OpenCbmErrorView>(e@),
        },
{
    match outcome {
        CommandOutcome::NotRun { code, error } => Err(
            failed_to_run(command, code, error.as_str()),
        ),
        CommandOutcome::Ran { code, stdout, stderr } => match code {
            Some(0) => Ok(from_utf8_lossy(stdout.as_slice())),
            _ => Err(
                failed_to_run(command, code, from_utf8_lossy(stderr.as_slice()).as_str()),
            ),
        },
    }
}

/// What `lsusb` has printed, where it has ended well.
pub fn run_lsusb(outcome: CommandOutcome) -> (r: Result<String, OpenCbmError>)
    ensures
        match r {
            Ok(s) => stdout_of("lsusb"@, outcome) == Ok::<Seq<char>, OpenCbmErrorView>(s@),
            Err(e) => stdout_of("lsusb"@, outcome) == Err::<Seq<char>, OpenCbmErrorView>(e@),
        },
{
    command_stdout("lsusb", outcome)
}

/// Bus and device of the adapter, from what `lsusb` has printed.
pub fn get_xum1541_bus_device_id(stdout: &str) -> (r: Result<(String, String), OpenCbmError>)
    ensures
        ({
            let found = usb_device(
                text::lines_of(stdout@),
                XUM1541_VENDOR_ID@,
                XUM1541_PRODUCT_ID@,
            );
            match r {
                Ok((bus, device)) => found == Some((bus@, device@)),
                Err(e) => found is None && e@ == OpenCbmErrorView::UsbError(
                    None,
                    "Failed to parse lsusb output: "@ + stdout@,
                ),
            }
        }),
{
    match parse_lsusb_output(stdout, XUM1541_VENDOR_ID, XUM1541_PRODUCT_ID) {
        Some(found) => Ok(found),
        None => {
            let mut s = "Failed to parse lsusb output: ".to_owned();
            s.append(stdout);
            Err(OpenCbmError::UsbError(None, s))
        },
    }
}

/// The command that resets a device on a bus.
pub fn usbreset_command(bus: &str, device: &str) -> (s: String)
    ensures
        s@ == "usbreset "@ + bus@ + "/"@ + device@,
{
    let mut s = "usbreset ".to_owned();
    s.append(bus);
    s.append("/");
    s.append(device);
    s
}

/// Whether the adapter was reset, from the way in which the command has ended.
pub fn run_usbreset(command: &str, outcome: CommandOutcome) -> (r: Result<(), OpenCbmError>)
    ensures
        match stdout_of(command@, outcome) {
            Err(e) => r matches Err(x) && x@ == e,
            Ok(stdout) => if reset_reported(text::lines_of(stdout), "xum1541"@, "ok"@) {
                r is Ok
            } else {
                r matches Err(x) && x@ == OpenCbmErrorView::UsbError(
                    None,
                    "Failed to reset xum1541: "@ + stdout,
                )
            },
        },
{
    match command_stdout(command, outcome) {
        Err(e) => Err(e),
        Ok(stdout) => {
            if parse_usbreset_output(stdout.as_str(), "xum1541", "ok") {
                Ok(())
            } else {
                let mut s = "Failed to reset xum1541: ".to_owned();
                s.append(stdout.as_str());
                Err(OpenCbmError::UsbError(None, s))
            }
        },
    }
}

/// Resetting the adapter: it is looked for among the devices, and then reset.
#[derive(Debug)]
pub enum UsbReset {
    Listing,
    /// The adapter was found, and is reset by a command
    Resetting(String),
}

/// Resetting the adapter, with the command as a sequence of characters.
#[verifier::ext_equal]
pub enum UsbResetView {
    Listing,
    Resetting(Seq<char>),
}

impl View for UsbReset {
    type V = UsbResetView;

    open spec fn view(&self) -> UsbResetView {
        match *self {
            UsbReset::Listing => UsbResetView::Listing,
            UsbReset::Resetting(command) => UsbResetView::Resetting(command@),
        }
    }
}

/// What follows on a command that has ended: another command, or the end.
#[derive(Debug)]
pub enum UsbResetNext {
    Run(UsbReset),
    Finished(Result<(), OpenCbmError>),
}

/// What follows on a command that has ended, with texts as sequences of characters.
#[verifier::ext_equal]
pub enum UsbResetNextView {
    Run(UsbResetView),
    Finished(Result<(), OpenCbmErrorView>),
}

impl View for UsbResetNext {
    type V = UsbResetNextView;

    open spec fn view(&self) -> UsbResetNextView {
        match *self {
            UsbResetNext::Run(s) => UsbResetNextView::Run(s@),
            UsbResetNext::Finished(Ok(_)) => UsbResetNextView::Finished(Ok(())),
            UsbResetNext::Finished(Err(e)) => UsbResetNextView::Finished(Err(e@)),
        }
    }
}

impl UsbResetView {
    /// The command that is to be run.
    pub open spec fn command(self) -> Seq<char> {
        match self {
            UsbResetView::Listing => "lsusb"@,
            UsbResetView::Resetting(command) => command,
        }
    }

    /// What follows on the way in which the command has ended.
    pub open spec fn next(self, outcome: CommandOutcome) -> UsbResetNextView {
        match stdout_of(self.command(), outcome) {
            Err(e) => UsbResetNextView::Finished(Err(e)),
            Ok(stdout) => match self {
                UsbResetView::Listing => match usb_device(
                    text::lines_of(stdout),
                    XUM1541_VENDOR_ID@,
                    XUM1541_PRODUCT_ID@,
                ) {
                    Some((bus, device)) => UsbResetNextView::Run(
                        UsbResetView::Resetting("usbreset "@ + bus + "/"@ + device),
                    ),
                    None => UsbResetNextView::Finished(
                        Err(
                            OpenCbmErrorView::UsbError(
                                None,
                                "Failed to parse lsusb output: "@ + stdout,
                            ),
                        ),
                    ),
                },
                UsbResetView::Resetting(_) => if reset_reported(
                    text::lines_of(stdout),
                    "xum1541"@,
                    "ok"@,
                ) {
                    UsbResetNextView::Finished(Ok(()))
                } else {
                    UsbResetNextView::Finished(
                        Err(
                            OpenCbmErrorView::UsbError(None, "Failed to reset xum1541: "@ + stdout),
                        ),
                    )
                },
            },
        }
    }
}

impl UsbReset {
    /// The command that is to be run.
    pub fn command(&self) -> (s: String)
        ensures
            s@ == self@.command(),
    {
        match self {
            UsbReset::Listing => "lsusb".to_owned(),
            UsbReset::Resetting(command) => command.clone(),
        }
    }

    /// Goes on with the way in which the command has ended.
    pub fn next(self, outcome: CommandOutcome) -> (r: UsbResetNext)
        ensures
            r@ == self@.next(outcome),
    {
        match self {
            UsbReset::Listing => match run_lsusb(outcome) {
                Err(e) => UsbResetNext::Finished(Err(e)),
                Ok(stdout) => match get_xum1541_bus_device_id(stdout.as_str()) {
                    Err(e) => UsbResetNext::Finished(Err(e)),
                    Ok((bus, device)) => UsbResetNext::Run(
                        UsbReset::Resetting(usbreset_command(bus.as_str(), device.as_str())),
                    ),
                },
            },
            UsbReset::Resetting(command) => UsbResetNext::Finished(
                run_usbreset(command.as_str(), outcome),
            ),
        }
    }
}

/// Resetting the adapter begins with looking for it.
pub fn usb_reset() -> (s: UsbReset)
    ensures
        s@ == UsbResetView::Listing,
{
    UsbReset::Listing
}

/// The adapter counts as reset only after it was found, and the second command has reported
/// it: two commands are run at most, and each failure ends it.
pub proof fn law_reset_is_reported(first: CommandOutcome, second: CommandOutcome)
    ensures
        UsbResetView::Listing.next(first) != UsbResetNextView::Finished(Ok(())),
        UsbResetView::Listing.next(first) matches UsbResetNextView::Run(s) ==> s is Resetting && (
        s.next(second) is Finished) && (s.next(second) == UsbResetNextView::Finished(Ok(()))
            ==> (stdout_of(s.command(), second) matches Ok(stdout) && reset_reported(
            text::lines_of(stdout),
            "xum1541"@,
            "ok"@,
        ))),
{
}

} // verus!
