//! The types that describe drives, their status messages and what can go wrong
//! when talking to them.
use vstd::prelude::*;
use vstd::std_specs::convert::FromSpecImpl;

use crate::errno::{EBUSY, EINVAL, EIO, ENOENT, ENOSPC, ENOTSUP, EPERM};
use crate::number;
use crate::number::{parse_u8, push_decimal, push_signed, push_two_digits};
use crate::opencbm::{OpenCbmError, OpenCbmErrorView};
use crate::text;
use crate::text::{before, chars_of, split, starts_with, substring, trim};

verus! {

// ---------------------------------------------------------------------------
// Error numbers
// ---------------------------------------------------------------------------

/// The error number (EN) at the front of a drive's status message.
#[derive(Debug, Clone, Copy, PartialEq, Eq, Structural)]
pub enum CbmErrorNumber {
    Okay,
    FilesScratched,
    ReadErrorBlockHeaderNotFound,
    ReadErrorNoSyncCharacter,
    ReadErrorDataBlockNotPresent,
    ReadErrorChecksumErrorInDataBlock,
    ReadErrorByteDecodingError,
    WriteErrorWriteVerifyError,
    WriteProtectOn,
    ReadErrorChecksumErrorInHeader,
    WriteErrorLongDataBlock,
    DiskIdMismatch,
    SyntaxErrorGeneralSyntax,
    SyntaxErrorInvalidCommand,
    SyntaxErrorLongLine,
    SyntaxErrorInvalidFileName,
    SyntaxErrorNoFileGiven,
    SyntaxErrorInvalidCommandChannel15,
    RecordNotPresent,
    OverflowInRecord,
    FileTooLarge,
    WriteFileOpen,
    FileNotOpen,
    FileNotFound,
    FileExists,
    FileTypeMismatch,
    NoBlock,
    IllegalTrackAndSector,
    IllegalSystemTOrS,
    NoChannel,
    DirectoryError,
    DiskFull,
    DosMismatch,
    DriveNotReady,
    OpenCbm,
    Unknown,
}

/// The meaning of an error number.
pub open spec fn error_number_of(value: u8) -> CbmErrorNumber {
    match value {
        0 => CbmErrorNumber::Okay,
        1 => CbmErrorNumber::FilesScratched,
        20 => CbmErrorNumber::ReadErrorBlockHeaderNotFound,
        21 => CbmErrorNumber::ReadErrorNoSyncCharacter,
        22 => CbmErrorNumber::ReadErrorDataBlockNotPresent,
        23 => CbmErrorNumber::ReadErrorChecksumErrorInDataBlock,
        24 => CbmErrorNumber::ReadErrorByteDecodingError,
        25 => CbmErrorNumber::WriteErrorWriteVerifyError,
        26 => CbmErrorNumber::WriteProtectOn,
        27 => CbmErrorNumber::ReadErrorChecksumErrorInHeader,
        28 => CbmErrorNumber::WriteErrorLongDataBlock,
        29 => CbmErrorNumber::DiskIdMismatch,
        30 => CbmErrorNumber::SyntaxErrorGeneralSyntax,
        31 => CbmErrorNumber::SyntaxErrorInvalidCommand,
        32 => CbmErrorNumber::SyntaxErrorLongLine,
        33 => CbmErrorNumber::SyntaxErrorInvalidFileName,
        34 => CbmErrorNumber::SyntaxErrorNoFileGiven,
        39 => CbmErrorNumber::SyntaxErrorInvalidCommandChannel15,
        50 => CbmErrorNumber::RecordNotPresent,
        51 => CbmErrorNumber::OverflowInRecord,
        52 => CbmErrorNumber::FileTooLarge,
        60 => CbmErrorNumber::WriteFileOpen,
        61 => CbmErrorNumber::FileNotOpen,
        62 => CbmErrorNumber::FileNotFound,
        63 => CbmErrorNumber::FileExists,
        64 => CbmErrorNumber::FileTypeMismatch,
        65 => CbmErrorNumber::NoBlock,
        66 => CbmErrorNumber::IllegalTrackAndSector,
        67 => CbmErrorNumber::IllegalSystemTOrS,
        70 => CbmErrorNumber::NoChannel,
        71 => CbmErrorNumber::DirectoryError,
        72 => CbmErrorNumber::DiskFull,
        73 => CbmErrorNumber::DosMismatch,
        74 => CbmErrorNumber::DriveNotReady,
        99 => CbmErrorNumber::OpenCbm,
        _ => CbmErrorNumber::Unknown,
    }
}

impl FromSpecImpl<u8> for CbmErrorNumber {
    open spec fn obeys_from_spec() -> bool {
        true
    }

    open spec fn from_spec(value: u8) -> Self {
        error_number_of(value)
    }
}

impl From<u8> for CbmErrorNumber {
    fn from(value: u8) -> (r: Self) {
        match value {
            0 => CbmErrorNumber::Okay,
            1 => CbmErrorNumber::FilesScratched,
            20 => CbmErrorNumber::ReadErrorBlockHeaderNotFound,
            21 => CbmErrorNumber::ReadErrorNoSyncCharacter,
            22 => CbmErrorNumber::ReadErrorDataBlockNotPresent,
            23 => CbmErrorNumber::ReadErrorChecksumErrorInDataBlock,
            24 => CbmErrorNumber::ReadErrorByteDecodingError,
            25 => CbmErrorNumber::WriteErrorWriteVerifyError,
            26 => CbmErrorNumber::WriteProtectOn,
            27 => CbmErrorNumber::ReadErrorChecksumErrorInHeader,
            28 => CbmErrorNumber::WriteErrorLongDataBlock,
            29 => CbmErrorNumber::DiskIdMismatch,
            30 => CbmErrorNumber::SyntaxErrorGeneralSyntax,
            31 => CbmErrorNumber::SyntaxErrorInvalidCommand,
            32 => CbmErrorNumber::SyntaxErrorLongLine,
            33 => CbmErrorNumber::SyntaxErrorInvalidFileName,
            34 => CbmErrorNumber::SyntaxErrorNoFileGiven,
            39 => CbmErrorNumber::SyntaxErrorInvalidCommandChannel15,
            50 => CbmErrorNumber::RecordNotPresent,
            51 => CbmErrorNumber::OverflowInRecord,
            52 => CbmErrorNumber::FileTooLarge,
            60 => CbmErrorNumber::WriteFileOpen,
            61 => CbmErrorNumber::FileNotOpen,
            62 => CbmErrorNumber::FileNotFound,
            63 => CbmErrorNumber::FileExists,
            64 => CbmErrorNumber::FileTypeMismatch,
            65 => CbmErrorNumber::NoBlock,
            66 => CbmErrorNumber::IllegalTrackAndSector,
            67 => CbmErrorNumber::IllegalSystemTOrS,
            70 => CbmErrorNumber::NoChannel,
            71 => CbmErrorNumber::DirectoryError,
            72 => CbmErrorNumber::DiskFull,
            73 => CbmErrorNumber::DosMismatch,
            74 => CbmErrorNumber::DriveNotReady,
            99 => CbmErrorNumber::OpenCbm,
            _ => CbmErrorNumber::Unknown,
        }
    }
}

impl CbmErrorNumber {
    /// The words for the error number.
    pub open spec fn words(self) -> Seq<char> {
        match self {
            CbmErrorNumber::Okay => "OK"@,
            CbmErrorNumber::FilesScratched => "FILES SCRATCHED"@,
            CbmErrorNumber::ReadErrorBlockHeaderNotFound => "READ ERROR (block header not found)"@,
            CbmErrorNumber::ReadErrorNoSyncCharacter => "READ ERROR (no sync character)"@,
            CbmErrorNumber::ReadErrorDataBlockNotPresent => "READ ERROR (data block not present)"@,
            CbmErrorNumber::ReadErrorChecksumErrorInDataBlock => "READ ERROR (checksum error in data block)"@,
            CbmErrorNumber::ReadErrorByteDecodingError => "READ ERROR (byte decoding error)"@,
            CbmErrorNumber::WriteErrorWriteVerifyError => "WRITE ERROR (write verify error)"@,
            CbmErrorNumber::WriteProtectOn => "WRITE PROTECT ON"@,
            CbmErrorNumber::ReadErrorChecksumErrorInHeader => "READ ERROR (checksum error in header)"@,
            CbmErrorNumber::WriteErrorLongDataBlock => "WRITE ERROR (long data block)"@,
            CbmErrorNumber::DiskIdMismatch => "DISK ID MISMATCH"@,
            CbmErrorNumber::SyntaxErrorGeneralSyntax => "SYNTAX ERROR (general syntax)"@,
            CbmErrorNumber::SyntaxErrorInvalidCommand => "SYNTAX ERROR (invalid command)"@,
            CbmErrorNumber::SyntaxErrorLongLine => "SYNTAX ERROR (long line)"@,
            CbmErrorNumber::SyntaxErrorInvalidFileName => "SYNTAX ERROR (invalid file name)"@,
            CbmErrorNumber::SyntaxErrorNoFileGiven => "SYNTAX ERROR (no file given))"@,
            CbmErrorNumber::SyntaxErrorInvalidCommandChannel15 => "SYNTAX ERROR (invalid command on channel 15)"@,
            CbmErrorNumber::RecordNotPresent => "RECORD NOT PRESENT"@,
            CbmErrorNumber::OverflowInRecord => "OVERFLOW IN RECORD"@,
            CbmErrorNumber::FileTooLarge => "FILE TOO LARGE"@,
            CbmErrorNumber::WriteFileOpen => "WRITE FILE OPEN"@,
            CbmErrorNumber::FileNotOpen => "FILE NOT OPEN"@,
            CbmErrorNumber::FileNotFound => "FILE NOT FOUND"@,
            CbmErrorNumber::FileExists => "FILE EXISTS"@,
            CbmErrorNumber::FileTypeMismatch => "FILE TYPE MISMATCH"@,
            CbmErrorNumber::NoBlock => "NO BLOCK"@,
            CbmErrorNumber::IllegalTrackAndSector => "ILLEGAL TRACK AND SECTOR"@,
            CbmErrorNumber::IllegalSystemTOrS => "ILLEGAL SYSTEM T OR S"@,
            CbmErrorNumber::NoChannel => "NO CHANNEL"@,
            CbmErrorNumber::DirectoryError => "DIRECTORY ERROR"@,
            CbmErrorNumber::DiskFull => "DISK FULL"@,
            CbmErrorNumber::DosMismatch => "DOS MISMATCH"@,
            CbmErrorNumber::DriveNotReady => "DRIVE NOT READY"@,
            CbmErrorNumber::OpenCbm => "opencbm error"@,
            CbmErrorNumber::Unknown => "unknown"@,
        }
    }

    /// The error number in words.
    pub fn to_string(&self) -> (s: String)
        ensures
            s@ == self.words(),
    {
        let s: &str = match self {
            CbmErrorNumber::Okay => "OK",
            CbmErrorNumber::FilesScratched => "FILES SCRATCHED",
            CbmErrorNumber::ReadErrorBlockHeaderNotFound => "READ ERROR (block header not found)",
            CbmErrorNumber::ReadErrorNoSyncCharacter => "READ ERROR (no sync character)",
            CbmErrorNumber::ReadErrorDataBlockNotPresent => "READ ERROR (data block not present)",
            CbmErrorNumber::ReadErrorChecksumErrorInDataBlock => "READ ERROR (checksum error in data block)",
            CbmErrorNumber::ReadErrorByteDecodingError => "READ ERROR (byte decoding error)",
            CbmErrorNumber::WriteErrorWriteVerifyError => "WRITE ERROR (write verify error)",
            CbmErrorNumber::WriteProtectOn => "WRITE PROTECT ON",
            CbmErrorNumber::ReadErrorChecksumErrorInHeader => "READ ERROR (checksum error in header)",
            CbmErrorNumber::WriteErrorLongDataBlock => "WRITE ERROR (long data block)",
            CbmErrorNumber::DiskIdMismatch => "DISK ID MISMATCH",
            CbmErrorNumber::SyntaxErrorGeneralSyntax => "SYNTAX ERROR (general syntax)",
            CbmErrorNumber::SyntaxErrorInvalidCommand => "SYNTAX ERROR (invalid command)",
            CbmErrorNumber::SyntaxErrorLongLine => "SYNTAX ERROR (long line)",
            CbmErrorNumber::SyntaxErrorInvalidFileName => "SYNTAX ERROR (invalid file name)",
            CbmErrorNumber::SyntaxErrorNoFileGiven => "SYNTAX ERROR (no file given))",
            CbmErrorNumber::SyntaxErrorInvalidCommandChannel15 => "SYNTAX ERROR (invalid command on channel 15)",
            CbmErrorNumber::RecordNotPresent => "RECORD NOT PRESENT",
            CbmErrorNumber::OverflowInRecord => "OVERFLOW IN RECORD",
            CbmErrorNumber::FileTooLarge => "FILE TOO LARGE",
            CbmErrorNumber::WriteFileOpen => "WRITE FILE OPEN",
            CbmErrorNumber::FileNotOpen => "FILE NOT OPEN",
            CbmErrorNumber::FileNotFound => "FILE NOT FOUND",
            CbmErrorNumber::FileExists => "FILE EXISTS",
            CbmErrorNumber::FileTypeMismatch => "FILE TYPE MISMATCH",
            CbmErrorNumber::NoBlock => "NO BLOCK",
            CbmErrorNumber::IllegalTrackAndSector => "ILLEGAL TRACK AND SECTOR",
            CbmErrorNumber::IllegalSystemTOrS => "ILLEGAL SYSTEM T OR S",
            CbmErrorNumber::NoChannel => "NO CHANNEL",
            CbmErrorNumber::DirectoryError => "DIRECTORY ERROR",
            CbmErrorNumber::DiskFull => "DISK FULL",
            CbmErrorNumber::DosMismatch => "DOS MISMATCH",
            CbmErrorNumber::DriveNotReady => "DRIVE NOT READY",
            CbmErrorNumber::OpenCbm => "opencbm error",
            CbmErrorNumber::Unknown => "unknown",
        };
        s.to_owned()
    }
}

/// What an error number means for the command that led to it.
#[derive(Debug, Clone, Copy, PartialEq, Eq, Structural)]
pub enum CbmErrorNumberOk {
    Okay,
    Error,
    Number73,
}

// ---------------------------------------------------------------------------
// Status
// ---------------------------------------------------------------------------

/// A status message that a drive has sent.
#[derive(Debug, PartialEq)]
pub struct CbmStatus {
    pub number: u8,
    pub error_number: CbmErrorNumber,
    pub message: String,
    pub track: u8,
    pub sector: u8,
    pub device: u8,
}

/// A status message, with its text as a sequence of characters.
#[verifier::ext_equal]
pub struct CbmStatusView {
    pub number: u8,
    pub error_number: CbmErrorNumber,
    pub message: Seq<char>,
    pub track: u8,
    pub sector: u8,
    pub device: u8,
}

impl View for CbmStatus {
    type V = CbmStatusView;

    open spec fn view(&self) -> CbmStatusView {
        CbmStatusView {
            number: self.number,
            error_number: self.error_number,
            message: self.message@,
            track: self.track,
            sector: self.sector,
            device: self.device,
        }
    }
}

impl Clone for CbmStatus {
    fn clone(&self) -> (r: Self)
        ensures
            r == *self,
    {
        CbmStatus {
            number: self.number,
            error_number: self.error_number,
            message: self.message.clone(),
            track: self.track,
            sector: self.sector,
            device: self.device,
        }
    }
}

impl Default for CbmStatus {
    fn default() -> (r: Self)
        ensures
            r@ == no_status(),
    {
        CbmStatus {
            number: 255,
            error_number: CbmErrorNumber::Unknown,
            message: "none".to_owned(),
            track: 0,
            sector: 0,
            device: 0,
        }
    }
}

/// The status where a drive has sent none.
pub open spec fn no_status() -> CbmStatusView {
    CbmStatusView {
        number: 255,
        error_number: CbmErrorNumber::Unknown,
        message: "none"@,
        track: 0,
        sector: 0,
        device: 0,
    }
}

/// How many of the first three characters are NULs, counted from the front.
pub open spec fn leading_nulls(s: Seq<char>) -> int {
    if s.len() == 0 || s[0] != '\0' {
        0
    } else if s.len() == 1 || s[1] != '\0' {
        1
    } else if s.len() == 2 || s[2] != '\0' {
        2
    } else {
        3
    }
}

/// The part of a raw status text that is read: what stands in front of the first
/// carriage return that a NUL follows, without up to three NULs in front of it.
pub open spec fn cleaned_status(s: Seq<char>) -> Seq<char> {
    let t = text::before_part(s, "\r\0"@);
    t.skip(leading_nulls(t))
}

/// The tail of a driver error that is left when its first characters were lost.
pub open spec fn is_driver_error(s: Seq<char>) -> bool {
    ||| text::begins_with(s, "9, DRIVER ERROR,00,00"@)
    ||| text::begins_with(s, ", DRIVER ERROR,00,00"@)
    ||| text::begins_with(s, " DRIVER ERROR,00,00"@)
}

/// What a raw status text says: a number, a message, a track and a sector, parted
/// by commas, with white space around each ignored.
pub open spec fn status_of(s: Seq<char>, device: u8) -> Result<CbmStatusView, CbmErrorView> {
    let clean = cleaned_status(s);
    let parts = text::split_on(clean, ',');
    if is_driver_error(clean) {
        Ok(
            CbmStatusView {
                number: 99,
                error_number: CbmErrorNumber::OpenCbm,
                message: "DRIVER ERROR"@,
                track: 0,
                sector: 0,
                device,
            },
        )
    } else if parts.len() != 4 {
        Err(CbmErrorView::DeviceError { device, message: "Invalid status format: "@ + clean })
    } else {
        match number::number_of(text::trimmed(parts[0]), 255) {
            None => Err(bad_status_part(device, "Invalid error number: "@, parts[0], clean)),
            Some(number) => match number::number_of(text::trimmed(parts[2]), 255) {
                None => Err(bad_status_part(device, "Invalid track: "@, parts[2], clean)),
                Some(track) => match number::number_of(text::trimmed(parts[3]), 255) {
                    None => Err(bad_status_part(device, "Invalid sector: "@, parts[3], clean)),
                    Some(sector) => Ok(
                        CbmStatusView {
                            number: number as u8,
                            error_number: error_number_of(number as u8),
                            message: text::trimmed(parts[1]),
                            track: track as u8,
                            sector: sector as u8,
                            device,
                        },
                    ),
                },
            },
        }
    }
}

/// The error for a part of a status that is no number.
pub open spec fn bad_status_part(
    device: u8,
    what: Seq<char>,
    part: Seq<char>,
    clean: Seq<char>,
) -> CbmErrorView {
    CbmErrorView::DeviceError { device, message: what + part + " within status: "@ + clean }
}

fn bad_part(device: u8, what: &str, part: &str, clean: &str) -> (e: CbmError)
    ensures
        e@ == bad_status_part(device, what@, part@, clean@),
{
    let mut message = what.to_owned();
    message.append(part);
    message.append(" within status: ");
    message.append(clean);
    CbmError::DeviceError { device, message }
}

/// The text of a status: number, message, track and sector.
pub open spec fn status_text(s: CbmStatusView) -> Seq<char> {
    number::two_digits(s.number as nat) + ","@ + s.message + ","@ + number::two_digits(s.track as nat) + ","@
        + number::two_digits(s.sector as nat)
}

/// What a status means for the command before it: below 20 all is well, and 73 is
/// what a drive says after power-up.
pub open spec fn ok_of(number: u8) -> CbmErrorNumberOk {
    if number < 20 {
        CbmErrorNumberOk::Okay
    } else if number == 73 {
        CbmErrorNumberOk::Number73
    } else {
        CbmErrorNumberOk::Error
    }
}

fn clean_status_text(status: &str) -> (r: String)
    ensures
        r@ == cleaned_status(status@),
{
    let cut = before(status, "\r\0");
    let v = chars_of(cut.as_str());
    let mut nulls: usize = 0;
    if v.len() > 0 && v[0] == '\0' {
        nulls = 1;
        if v.len() > 1 && v[1] == '\0' {
            nulls = 2;
            if v.len() > 2 && v[2] == '\0' {
                nulls = 3;
            }
        }
    }
    let n: usize = v.len();
    assert(cut@.subrange(nulls as int, n as int) =~= cut@.skip(nulls as int));
    substring(&v, nulls, n)
}

impl CbmStatus {
    /// Reads a status from the text that a drive has sent.
    pub fn new(status: &str, device: u8) -> (r: Result<Self, CbmError>)
        ensures
            match r {
                Ok(s) => status_of(status@, device) == Ok::<CbmStatusView, CbmErrorView>(s@),
                Err(e) => status_of(status@, device) == Err::<CbmStatusView, CbmErrorView>(e@),
            },
    {
        let clean = clean_status_text(status);
        if starts_with(clean.as_str(), "9, DRIVER ERROR,00,00") || starts_with(
            clean.as_str(),
            ", DRIVER ERROR,00,00",
        ) || starts_with(clean.as_str(), " DRIVER ERROR,00,00") {
            return Ok(
                CbmStatus {
                    number: 99,
                    error_number: CbmErrorNumber::OpenCbm,
                    message: "DRIVER ERROR".to_owned(),
                    track: 0,
                    sector: 0,
                    device,
                },
            );
        }
        let parts = split(clean.as_str(), ',');
        assert(text::texts(parts@).len() == parts@.len());
        if parts.len() != 4 {
            let mut message = "Invalid status format: ".to_owned();
            message.append(clean.as_str());
            return Err(CbmError::DeviceError { device, message });
        }
        assert forall|i: int| 0 <= i < 4 implies text::split_on(clean@, ',')[i] == #[trigger] parts@[i]@ by {
            assert(text::texts(parts@)[i] == parts@[i]@);
        }
        let number: u8 = match parse_u8(trim(parts[0].as_str()).as_str()) {
            Some(n) => n,
            None => return Err(
                bad_part(device, "Invalid error number: ", parts[0].as_str(), clean.as_str()),
            ),
        };
        let message = trim(parts[1].as_str());
        let track: u8 = match parse_u8(trim(parts[2].as_str()).as_str()) {
            Some(n) => n,
            None => return Err(
                bad_part(device, "Invalid track: ", parts[2].as_str(), clean.as_str()),
            ),
        };
        let sector: u8 = match parse_u8(trim(parts[3].as_str()).as_str()) {
            Some(n) => n,
            None => return Err(
                bad_part(device, "Invalid sector: ", parts[3].as_str(), clean.as_str()),
            ),
        };
        Ok(
            CbmStatus {
                number,
                error_number: CbmErrorNumber::from(number),
                message,
                track,
                sector,
                device,
            },
        )
    }

    /// Reads a status from a text and the number of the device that sent it.
    pub fn try_from(value: (&str, u8)) -> (r: Result<Self, CbmError>)
        ensures
            match r {
                Ok(s) => status_of(value.0@, value.1) == Ok::<CbmStatusView, CbmErrorView>(s@),
                Err(e) => status_of(value.0@, value.1) == Err::<CbmStatusView, CbmErrorView>(e@),
            },
    {
        CbmStatus::new(value.0, value.1)
    }

    /// What the status means for the command before it.
    pub fn is_ok(&self) -> (r: CbmErrorNumberOk)
        ensures
            r == ok_of(self.number),
    {
        if self.number < 20 {
            CbmErrorNumberOk::Okay
        } else if self.number == 73 {
            CbmErrorNumberOk::Number73
        } else {
            CbmErrorNumberOk::Error
        }
    }

    /// Whether the drive itself has answered. It then works, even if the disk is
    /// missing or corrupt.
    pub fn is_valid_cbm(&self) -> (r: bool)
        ensures
            r == (self.error_number != CbmErrorNumber::OpenCbm && self.error_number
                != CbmErrorNumber::Unknown),
    {
        self.error_number != CbmErrorNumber::OpenCbm && self.error_number
            != CbmErrorNumber::Unknown
    }

    /// The track of a read or write error.
    pub fn track(&self) -> (r: Option<u8>)
        ensures
            r == (if 20 <= self.number <= 29 {
                Some(self.track)
            } else {
                None
            }),
    {
        if 20 <= self.number && self.number <= 29 {
            Some(self.track)
        } else {
            None
        }
    }

    /// The sector of a read or write error.
    pub fn sector(&self) -> (r: Option<u8>)
        ensures
            r == (if 20 <= self.number <= 29 {
                Some(self.sector)
            } else {
                None
            }),
    {
        if 20 <= self.number && self.number <= 29 {
            Some(self.sector)
        } else {
            None
        }
    }

    /// How many files were scratched, where that is what the status reports.
    pub fn files_scratched(&self) -> (r: Option<u8>)
        ensures
            r == (if self.error_number == CbmErrorNumber::FilesScratched {
                Some(self.track)
            } else {
                None
            }),
    {
        if self.error_number == CbmErrorNumber::FilesScratched {
            Some(self.track)
        } else {
            None
        }
    }

    /// Number and message.
    pub fn as_short_str(&self) -> (s: String)
        ensures
            s@ == number::two_digits(self.number as nat) + ","@ + self.message@,
    {
        let mut s = String::new();
        push_two_digits(&mut s, self.number as u64);
        assert(s@ =~= number::two_digits(self.number as nat));
        s.append(",");
        s.append(self.message.as_str());
        s
    }

    /// Number, message, track and sector.
    pub fn as_str(&self) -> (s: String)
        ensures
            s@ == status_text(self@),
    {
        let mut s = self.as_short_str();
        s.append(",");
        push_two_digits(&mut s, self.track as u64);
        s.append(",");
        push_two_digits(&mut s, self.sector as u64);
        s
    }

    /// Number, message, track and sector.
    pub fn to_string(&self) -> (s: String)
        ensures
            s@ == status_text(self@),
    {
        self.as_str()
    }

    /// Success where the status says so, and else the status as an error.
    pub fn into_result(self) -> (r: Result<(), CbmError>)
        ensures
            r == (if ok_of(self.number) == CbmErrorNumberOk::Okay {
                Ok(())
            } else {
                Err(CbmError::StatusError { device: self.device, status: self })
            }),
    {
        match self.is_ok() {
            CbmErrorNumberOk::Okay => Ok(()),
            CbmErrorNumberOk::Number73 => Err(CbmError::from(self)),
            CbmErrorNumberOk::Error => Err(CbmError::from(self)),
        }
    }
}

// ---------------------------------------------------------------------------
// Errors
// ---------------------------------------------------------------------------

/// What can go wrong when talking to a drive.
#[allow(inconsistent_fields)]
#[derive(Debug, PartialEq)]
pub enum CbmError {
    /// Device not responding or connection issues
    DeviceError { device: u8, message: String },
    /// Channel allocation failed
    ChannelError { device: u8, message: String },
    /// File operation failed (read/write/open/close)
    FileError { device: u8, message: String },
    /// Command execution failed
    CommandError { device: u8, message: String },
    /// Drive returned error status
    StatusError { device: u8, status: CbmStatus },
    /// Timeout during operation
    TimeoutError { device: u8 },
    /// Invalid parameters or state
    InvalidOperation { device: u8, message: String },
    /// Errors of the bus driver; some operations are not device-specific
    OpenCbmError { device: Option<u8>, error: OpenCbmError },
    /// Maps to a specific error number of the file system
    FuseError(i32),
    /// Used when validation fails
    ValidationError(String),
    /// The USB adapter could not be used or reset
    UsbError(String),
    /// A directory listing could not be read
    ParseError { message: String },
}

/// An error, with its texts as sequences of characters.
#[allow(inconsistent_fields)]
#[verifier::ext_equal]
pub enum CbmErrorView {
    DeviceError { device: u8, message: Seq<char> },
    ChannelError { device: u8, message: Seq<char> },
    FileError { device: u8, message: Seq<char> },
    CommandError { device: u8, message: Seq<char> },
    StatusError { device: u8, status: CbmStatusView },
    TimeoutError { device: u8 },
    InvalidOperation { device: u8, message: Seq<char> },
    OpenCbmError { device: Option<u8>, error: OpenCbmErrorView },
    FuseError(i32),
    ValidationError(Seq<char>),
    UsbError(Seq<char>),
    ParseError { message: Seq<char> },
}

impl View for CbmError {
    type V = CbmErrorView;

    open spec fn view(&self) -> CbmErrorView {
        match *self {
            CbmError::DeviceError { device, message } => CbmErrorView::DeviceError {
                device,
                message: message@,
            },
            CbmError::ChannelError { device, message } => CbmErrorView::ChannelError {
                device,
                message: message@,
            },
            CbmError::FileError { device, message } => CbmErrorView::FileError {
                device,
                message: message@,
            },
            CbmError::CommandError { device, message } => CbmErrorView::CommandError {
                device,
                message: message@,
            },
            CbmError::StatusError { device, status } => CbmErrorView::StatusError {
                device,
                status: status@,
            },
            CbmError::TimeoutError { device } => CbmErrorView::TimeoutError { device },
            CbmError::InvalidOperation { device, message } => CbmErrorView::InvalidOperation {
                device,
                message: message@,
            },
            CbmError::OpenCbmError { device, error } => CbmErrorView::OpenCbmError {
                device,
                error: error@,
            },
            CbmError::FuseError(errno) => CbmErrorView::FuseError(errno),
            CbmError::ValidationError(message) => CbmErrorView::ValidationError(message@),
            CbmError::UsbError(message) => CbmErrorView::UsbError(message@),
            CbmError::ParseError { message } => CbmErrorView::ParseError { message: message@ },
        }
    }
}

impl FromSpecImpl<CbmStatus> for CbmError {
    open spec fn obeys_from_spec() -> bool {
        true
    }

    open spec fn from_spec(status: CbmStatus) -> Self {
        CbmError::StatusError { device: status.device, status }
    }
}

impl From<CbmStatus> for CbmError {
    fn from(status: CbmStatus) -> (r: Self) {
        CbmError::StatusError { device: status.device, status }
    }
}

/// How an error of the bus driver shows as an error of its own kind; the driver
/// does not know the device, which is given as 0.
pub open spec fn driver_error(error: OpenCbmErrorView) -> CbmErrorView {
    match error {
        OpenCbmErrorView::ConnectionError(message) => CbmErrorView::DeviceError {
            device: 0,
            message,
        },
        OpenCbmErrorView::ThreadTimeout => CbmErrorView::TimeoutError { device: 0 },
        OpenCbmErrorView::UnknownDevice(message) => CbmErrorView::DeviceError {
            device: 0,
            message,
        },
        OpenCbmErrorView::ThreadPanic => CbmErrorView::DeviceError {
            device: 0,
            message: "Thread panic during device operation"@,
        },
        OpenCbmErrorView::Other(message) => CbmErrorView::DeviceError { device: 0, message },
        _ => CbmErrorView::OpenCbmError { device: None, error },
    }
}

/// The words for a device in front of an error.
pub open spec fn device_text(device: Option<u8>) -> Seq<char> {
    match device {
        Some(d) => "Device "@ + number::decimal(d as nat),
        None => "n/a"@,
    }
}

/// The words for an error number of the file system.
pub open spec fn errno_text(errno: i32) -> Seq<char> {
    if errno == EBUSY {
        "Device or resource busy"@
    } else if errno == EIO {
        "Input/output error"@
    } else if errno == ENOENT {
        "No such file or directory"@
    } else if errno == ENOSPC {
        "No space left on device"@
    } else if errno == ENOTSUP {
        "Operation not supported"@
    } else {
        "Unknown error"@
    }
}

impl CbmErrorView {
    /// The text of the error.
    pub open spec fn text(self) -> Seq<char> {
        match self {
            CbmErrorView::DeviceError { device, message } => device_text(Some(device))
                + ": Device error: "@ + message,
            CbmErrorView::ChannelError { device, message } => device_text(Some(device))
                + ": Channel error: "@ + message,
            CbmErrorView::FileError { device, message } => device_text(Some(device))
                + ": File operation error: "@ + message,
            CbmErrorView::CommandError { device, message } => device_text(Some(device))
                + ": Command error: "@ + message,
            CbmErrorView::TimeoutError { device } => device_text(Some(device))
                + ": Operation timed out"@,
            CbmErrorView::InvalidOperation { device, message } => device_text(Some(device))
                + ": Invalid operation: "@ + message,
            CbmErrorView::OpenCbmError { device, error } => device_text(device)
                + ": OpenCBM error: "@ + error.text(),
            CbmErrorView::FuseError(errno) => "Filesystem error ("@ + number::signed_decimal(errno as int)
                + "): "@ + errno_text(errno),
            CbmErrorView::ValidationError(message) => "Validation error: "@ + message,
            CbmErrorView::StatusError { device, status } => device_text(Some(device))
                + ": Drive returned error status: "@ + status_text(status),
            CbmErrorView::UsbError(message) => "USB error: "@ + message,
            CbmErrorView::ParseError { message } => "Parse error: "@ + message,
        }
    }

    /// The error number that the file system answers with.
    pub open spec fn errno(self) -> i32 {
        match self {
            CbmErrorView::DeviceError { .. } => EIO,
            CbmErrorView::ChannelError { .. } => EBUSY,
            CbmErrorView::FileError { .. } => ENOENT,
            CbmErrorView::CommandError { .. } => EIO,
            CbmErrorView::TimeoutError { .. } => EIO,
            CbmErrorView::InvalidOperation { .. } => ENOTSUP,
            CbmErrorView::OpenCbmError { .. } => EIO,
            CbmErrorView::FuseError(errno) => errno,
            CbmErrorView::ValidationError(_) => EINVAL,
            CbmErrorView::StatusError { .. } => EPERM,
            CbmErrorView::UsbError(_) => EIO,
            CbmErrorView::ParseError { .. } => EIO,
        }
    }
}

impl CbmError {
    /// The error number that the file system answers with.
    pub fn to_errno(&self) -> (r: i32)
        ensures
            r == self@.errno(),
    {
        match self {
            CbmError::DeviceError { .. } => EIO,
            CbmError::ChannelError { .. } => EBUSY,
            CbmError::FileError { .. } => ENOENT,
            CbmError::CommandError { .. } => EIO,
            CbmError::TimeoutError { .. } => EIO,
            CbmError::InvalidOperation { .. } => ENOTSUP,
            CbmError::OpenCbmError { .. } => EIO,
            CbmError::FuseError(errno) => *errno,
            CbmError::ValidationError(_) => EINVAL,
            CbmError::StatusError { .. } => EPERM,
            CbmError::UsbError(_) => EIO,
            CbmError::ParseError { .. } => EIO,
        }
    }

    fn format_device(device: Option<u8>) -> (s: String)
        ensures
            s@ == device_text(device),
    {
        match device {
            Some(d) => {
                let mut s = "Device ".to_owned();
                push_decimal(&mut s, d as u64);
                s
            },
            None => "n/a".to_owned(),
        }
    }

    fn device_message(device: u8, what: &str, message: &str) -> (s: String)
        ensures
            s@ == device_text(Some(device)) + what@ + message@,
    {
        let mut s = CbmError::format_device(Some(device));
        s.append(what);
        s.append(message);
        s
    }

    /// The text of the error.
    pub fn to_string(&self) -> (s: String)
        ensures
            s@ == self@.text(),
    {
        match self {
            CbmError::DeviceError { device, message } => CbmError::device_message(
                *device,
                ": Device error: ",
                message.as_str(),
            ),
            CbmError::ChannelError { device, message } => CbmError::device_message(
                *device,
                ": Channel error: ",
                message.as_str(),
            ),
            CbmError::FileError { device, message } => CbmError::device_message(
                *device,
                ": File operation error: ",
                message.as_str(),
            ),
            CbmError::CommandError { device, message } => CbmError::device_message(
                *device,
                ": Command error: ",
                message.as_str(),
            ),
            CbmError::TimeoutError { device } => {
                let mut s = CbmError::format_device(Some(*device));
                s.append(": Operation timed out");
                s
            },
            CbmError::InvalidOperation { device, message } => CbmError::device_message(
                *device,
                ": Invalid operation: ",
                message.as_str(),
            ),
            CbmError::OpenCbmError { device, error } => {
                let mut s = CbmError::format_device(*device);
                s.append(": OpenCBM error: ");
                s.append(error.to_string().as_str());
                s
            },
            CbmError::FuseError(errno) => {
                let msg: &str = if *errno == EBUSY {
                    "Device or resource busy"
                } else if *errno == EIO {
                    "Input/output error"
                } else if *errno == ENOENT {
                    "No such file or directory"
                } else if *errno == ENOSPC {
                    "No space left on device"
                } else if *errno == ENOTSUP {
                    "Operation not supported"
                } else {
                    "Unknown error"
                };
                let mut s = "Filesystem error (".to_owned();
                push_signed(&mut s, *errno);
                s.append("): ");
                s.append(msg);
                s
            },
            CbmError::ValidationError(message) => {
                let mut s = "Validation error: ".to_owned();
                s.append(message.as_str());
                s
            },
            CbmError::StatusError { device, status } => {
                let text = status.to_string();
                CbmError::device_message(
                    *device,
                    ": Drive returned error status: ",
                    text.as_str(),
                )
            },
            CbmError::UsbError(message) => {
                let mut s = "USB error: ".to_owned();
                s.append(message.as_str());
                s
            },
            CbmError::ParseError { message } => {
                let mut s = "Parse error: ".to_owned();
                s.append(message.as_str());
                s
            },
        }
    }

    /// The error for an error of the bus driver.
    pub fn from_driver(error: OpenCbmError) -> (r: Self)
        ensures
            r@ == driver_error(error@),
    {
        match error {
            OpenCbmError::ConnectionError(message) => CbmError::DeviceError { device: 0, message },
            OpenCbmError::ThreadTimeout => CbmError::TimeoutError { device: 0 },
            OpenCbmError::UnknownDevice(message) => CbmError::DeviceError { device: 0, message },
            OpenCbmError::ThreadPanic => CbmError::DeviceError {
                device: 0,
                message: "Thread panic during device operation".to_owned(),
            },
            OpenCbmError::Other(message) => CbmError::DeviceError { device: 0, message },
            OpenCbmError::FailedCall(rc, name) => CbmError::OpenCbmError {
                device: None,
                error: OpenCbmError::FailedCall(rc, name),
            },
            OpenCbmError::UsbError(rc, name) => CbmError::OpenCbmError {
                device: None,
                error: OpenCbmError::UsbError(rc, name),
            },
            OpenCbmError::DriverNotOpen => CbmError::OpenCbmError {
                device: None,
                error: OpenCbmError::DriverNotOpen,
            },
        }
    }

    /// The error for a panic, with the text that the panic carried if it had one.
    pub fn from_panic(payload: Option<&str>) -> (r: Self)
        ensures
            r@ == (CbmErrorView::DeviceError {
                device: 0,
                message: "Panic in opencbm: "@ + match payload {
                    Some(s) => s@,
                    None => "Unknown panic"@,
                },
            }),
    {
        let mut message = "Panic in opencbm: ".to_owned();
        match payload {
            Some(s) => message.append(s),
            None => message.append("Unknown panic"),
        }
        CbmError::DeviceError { device: 0, message }
    }
}

// ---------------------------------------------------------------------------
// Reading undoes writing
// ---------------------------------------------------------------------------

/// A status that a drive can send: its number has the meaning that it says, and its
/// message can stand between two commas.
pub open spec fn is_plain_status(s: CbmStatusView) -> bool {
    &&& s.error_number == error_number_of(s.number)
    &&& !s.message.contains(',')
    &&& text::trimmed(s.message) == s.message
    &&& !text::has_part(s.message, "\r\0"@)
}

proof fn lemma_status_text_is_clean(s: CbmStatusView)
    requires
        is_plain_status(s),
    ensures
        cleaned_status(status_text(s)) == status_text(s),
        !is_driver_error(status_text(s)),
{
    let text = status_text(s);
    let pat = "\r\0"@;
    let head = number::two_digits(s.number as nat);
    let track = number::two_digits(s.track as nat);
    let sector = number::two_digits(s.sector as nat);
    reveal_strlit("\r\0");
    reveal_strlit(",");
    number::law_two_digits_round_trip(s.number as nat, 255);
    number::law_two_digits_round_trip(s.track as nat, 255);
    number::law_two_digits_round_trip(s.sector as nat, 255);
    let off = head.len() + 1;
    let end = off + s.message.len();
    assert(number::is_digit(head[0]) && number::is_digit(head[1]));
    assert(text[0] == head[0] && text[1] == head[1]);
    assert forall|i: int| 0 <= i < text.len() && !(off <= i < end) implies text[i] == ',' || number::is_digit(
        #[trigger] text[i],
    ) by {
        if i < head.len() {
            assert(text[i] == head[i]);
        } else if i > end && i < end + 1 + track.len() {
            assert(text[i] == track[i - end - 1]);
        } else if i > end + 1 + track.len() {
            assert(text[i] == sector[i - end - 2 - track.len()]);
        }
    }
    if text::first_from(text, pat, 0) is Some {
        text::lemma_first_bounds(text, pat, 0);
        let i = text::first_from(text, pat, 0)->0;
        assert(text.subrange(i, i + 2)[0] == '\r');
        assert(text.subrange(i, i + 2)[1] == '\0');
        assert(text[i] == '\r' && text[i + 1] == '\0');
        assert(off <= i && i + 1 < end);
        assert(s.message.subrange(i - off, i - off + 2) =~= pat);
        text::lemma_has_part(s.message, pat, i - off);
    }
    assert(text::before_part(text, pat) == text);
    assert(leading_nulls(text) == 0);
    assert(text.skip(0) =~= text);
    reveal_strlit("9, DRIVER ERROR,00,00");
    reveal_strlit(", DRIVER ERROR,00,00");
    reveal_strlit(" DRIVER ERROR,00,00");
    if text::begins_with(text, "9, DRIVER ERROR,00,00"@) {
        assert(text.subrange(0, 21)[1] == ',');
    }
    if text::begins_with(text, ", DRIVER ERROR,00,00"@) {
        assert(text.subrange(0, 20)[0] == ',');
    }
    if text::begins_with(text, " DRIVER ERROR,00,00"@) {
        assert(text.subrange(0, 19)[0] == ' ');
    }
}

proof fn lemma_digits_are_clean(s: Seq<char>)
    requires
        s.len() > 0,
        number::all_digits(s),
    ensures
        text::trimmed(s) == s,
        !s.contains(','),
{
    assert(number::is_digit(s[0]) && number::is_digit(s.last()));
    text::lemma_trimmed_id(s);
    if s.contains(',') {
        let i = choose|i: int| 0 <= i < s.len() && s[i] == ',';
        assert(number::is_digit(s[i]));
    }
}

/// Reading the text of a status gives the status back.
pub proof fn law_status_round_trip(s: CbmStatusView)
    requires
        is_plain_status(s),
    ensures
        status_of(status_text(s), s.device) == Ok::<CbmStatusView, CbmErrorView>(s),
{
    lemma_status_text_is_clean(s);
    let head = number::two_digits(s.number as nat);
    let track = number::two_digits(s.track as nat);
    let sector = number::two_digits(s.sector as nat);
    number::law_two_digits_round_trip(s.number as nat, 255);
    number::law_two_digits_round_trip(s.track as nat, 255);
    number::law_two_digits_round_trip(s.sector as nat, 255);
    lemma_digits_are_clean(head);
    lemma_digits_are_clean(track);
    lemma_digits_are_clean(sector);
    reveal_strlit(",");
    let sep = seq![','];
    assert(","@ =~= sep);
    let third = track + sep + sector;
    let second = s.message + sep + third;
    assert(status_text(s) =~= head + sep + second);
    text::lemma_split_on(head, ',', second);
    text::lemma_split_on(s.message, ',', third);
    text::lemma_split_on(track, ',', sector);
    text::lemma_split_on(sector, ',', Seq::empty());
    let parts = text::split_on(status_text(s), ',');
    assert(parts =~= seq![head, s.message, track, sector]);
}

/// Every status that is read from a text is plain.
pub proof fn law_parsed_is_plain(x: Seq<char>, device: u8)
    ensures
        status_of(x, device) matches Ok(s) ==> is_plain_status(s) && s.device == device,
{
    let clean = cleaned_status(x);
    let pat = "\r\0"@;
    reveal_strlit("\r\0");
    reveal_strlit("DRIVER ERROR");
    if is_driver_error(clean) {
        let message = "DRIVER ERROR"@;
        text::lemma_trimmed_id(message);
        text::lemma_first_bounds(message, pat, 0);
        if text::has_part(message, pat) {
            let k = text::first_from(message, pat, 0)->0;
            assert(message.subrange(k, k + 2)[0] == '\r');
        }
    } else if status_of(x, device) is Ok {
        let cut = text::before_part(x, pat);
        text::lemma_before_part(x, pat);
        let n = leading_nulls(cut);
        assert(clean =~= cut.subrange(n, cut.len() as int));
        text::lemma_slice_has_no_part(cut, n, cut.len() as int, pat);
        let part = text::split_on(clean, ',')[1];
        let (a, b) = text::lemma_piece(clean, ',', 1);
        text::lemma_slice_has_no_part(clean, a, b, pat);
        let (c, d) = text::lemma_trimmed(part);
        text::lemma_slice_has_no_part(part, c, d, pat);
        let message = text::trimmed(part);
        if message.contains(',') {
            let i = choose|i: int| 0 <= i < message.len() && message[i] == ',';
            assert(part[c + i] == ',');
        }
    }
}

/// Reading the text of a status that was read gives the same status again.
pub proof fn law_parsed_status_round_trip(x: Seq<char>, device: u8)
    ensures
        status_of(x, device) matches Ok(s) ==> status_of(status_text(s), device) == Ok::<
            CbmStatusView,
            CbmErrorView,
        >(s),
{
    law_parsed_is_plain(x, device);
    if let Ok(s) = status_of(x, device) {
        law_status_round_trip(s);
    }
}

// ---------------------------------------------------------------------------
// Devices
// ---------------------------------------------------------------------------

/// The versions of the operating system of the drives.
#[derive(Debug, Clone, Copy, PartialEq, Eq, Structural)]
pub enum DosVersion {
    Dos1,
    Dos2,
    Dos3,
}

impl DosVersion {
    /// The name of the version.
    pub open spec fn name(self) -> Seq<char> {
        match self {
            DosVersion::Dos1 => "DOS1"@,
            DosVersion::Dos2 => "DOS2"@,
            DosVersion::Dos3 => "DOS3"@,
        }
    }

    /// The name of the version.
    pub fn as_str(&self) -> (r: &'static str)
        ensures
            r@ == self.name(),
    {
        match self {
            DosVersion::Dos1 => "DOS1",
            DosVersion::Dos2 => "DOS2",
            DosVersion::Dos3 => "DOS3",
        }
    }
}

/// The models of drives.
#[derive(Debug, Clone, Copy, PartialEq, Eq, Structural)]
pub enum CbmDeviceType {
    Unknown,
    Cbm1541,
    Cbm1570,
    Cbm1571,
    Cbm1581,
    Cbm2040,
    Cbm2031,
    Cbm3040,
    Cbm4040,
    Cbm4031,
    Cbm8050,
    Cbm8250,
    Sfd1001,
    FdX000,
}

/// The model that a number stands for.
pub open spec fn device_type_of(value: i32) -> CbmDeviceType {
    match value {
        0 => CbmDeviceType::Cbm1541,
        1 => CbmDeviceType::Cbm1570,
        2 => CbmDeviceType::Cbm1571,
        3 => CbmDeviceType::Cbm1581,
        4 => CbmDeviceType::Cbm2040,
        5 => CbmDeviceType::Cbm2031,
        6 => CbmDeviceType::Cbm3040,
        7 => CbmDeviceType::Cbm4040,
        8 => CbmDeviceType::Cbm4031,
        9 => CbmDeviceType::Cbm8050,
        10 => CbmDeviceType::Cbm8250,
        11 => CbmDeviceType::Sfd1001,
        12 => CbmDeviceType::FdX000,
        _ => CbmDeviceType::Unknown,
    }
}

impl FromSpecImpl<i32> for CbmDeviceType {
    open spec fn obeys_from_spec() -> bool {
        true
    }

    open spec fn from_spec(value: i32) -> Self {
        device_type_of(value)
    }
}

impl From<i32> for CbmDeviceType {
    fn from(value: i32) -> (r: Self) {
        match value {
            0 => CbmDeviceType::Cbm1541,
            1 => CbmDeviceType::Cbm1570,
            2 => CbmDeviceType::Cbm1571,
            3 => CbmDeviceType::Cbm1581,
            4 => CbmDeviceType::Cbm2040,
            5 => CbmDeviceType::Cbm2031,
            6 => CbmDeviceType::Cbm3040,
            7 => CbmDeviceType::Cbm4040,
            8 => CbmDeviceType::Cbm4031,
            9 => CbmDeviceType::Cbm8050,
            10 => CbmDeviceType::Cbm8250,
            11 => CbmDeviceType::Sfd1001,
            12 => CbmDeviceType::FdX000,
            _ => CbmDeviceType::Unknown,
        }
    }
}

impl FromSpecImpl<CbmDeviceType> for i32 {
    open spec fn obeys_from_spec() -> bool {
        true
    }

    open spec fn from_spec(value: CbmDeviceType) -> Self {
        value.number()
    }
}

impl From<CbmDeviceType> for i32 {
    fn from(value: CbmDeviceType) -> (r: Self) {
        match value {
            CbmDeviceType::Unknown => -1,
            CbmDeviceType::Cbm1541 => 0,
            CbmDeviceType::Cbm1570 => 1,
            CbmDeviceType::Cbm1571 => 2,
            CbmDeviceType::Cbm1581 => 3,
            CbmDeviceType::Cbm2040 => 4,
            CbmDeviceType::Cbm2031 => 5,
            CbmDeviceType::Cbm3040 => 6,
            CbmDeviceType::Cbm4040 => 7,
            CbmDeviceType::Cbm4031 => 8,
            CbmDeviceType::Cbm8050 => 9,
            CbmDeviceType::Cbm8250 => 10,
            CbmDeviceType::Sfd1001 => 11,
            CbmDeviceType::FdX000 => 12,
        }
    }
}

impl CbmDeviceType {
    /// The number that stands for the model.
    pub open spec fn number(self) -> i32 {
        match self {
            CbmDeviceType::Unknown => (-1) as i32,
            CbmDeviceType::Cbm1541 => 0,
            CbmDeviceType::Cbm1570 => 1,
            CbmDeviceType::Cbm1571 => 2,
            CbmDeviceType::Cbm1581 => 3,
            CbmDeviceType::Cbm2040 => 4,
            CbmDeviceType::Cbm2031 => 5,
            CbmDeviceType::Cbm3040 => 6,
            CbmDeviceType::Cbm4040 => 7,
            CbmDeviceType::Cbm4031 => 8,
            CbmDeviceType::Cbm8050 => 9,
            CbmDeviceType::Cbm8250 => 10,
            CbmDeviceType::Sfd1001 => 11,
            CbmDeviceType::FdX000 => 12,
        }
    }

    /// The name of the model.
    pub open spec fn name(self) -> Seq<char> {
        match self {
            CbmDeviceType::Unknown => "Unknown Device"@,
            CbmDeviceType::Cbm1541 => "1541"@,
            CbmDeviceType::Cbm1570 => "1570"@,
            CbmDeviceType::Cbm1571 => "1571"@,
            CbmDeviceType::Cbm1581 => "1581"@,
            CbmDeviceType::Cbm2040 => "2040"@,
            CbmDeviceType::Cbm2031 => "2031"@,
            CbmDeviceType::Cbm3040 => "3040"@,
            CbmDeviceType::Cbm4040 => "4040"@,
            CbmDeviceType::Cbm4031 => "4031"@,
            CbmDeviceType::Cbm8050 => "8050"@,
            CbmDeviceType::Cbm8250 => "8250"@,
            CbmDeviceType::Sfd1001 => "SFD-1001"@,
            CbmDeviceType::FdX000 => "FDX000"@,
        }
    }

    /// The name of the model as the file system shows it.
    pub open spec fn fs_name(self) -> Seq<char> {
        match self {
            CbmDeviceType::Unknown => "Unknown"@,
            CbmDeviceType::FdX000 => "FDX000"@,
            _ => "CBM_"@ + self.name(),
        }
    }

    /// How many disk drives a unit of this model has.
    pub open spec fn drives(self) -> u8 {
        match self {
            CbmDeviceType::Unknown => 0,
            CbmDeviceType::Cbm2040 => 2,
            CbmDeviceType::Cbm3040 => 2,
            CbmDeviceType::Cbm4040 => 2,
            CbmDeviceType::Cbm8050 => 2,
            CbmDeviceType::Cbm8250 => 2,
            _ => 1,
        }
    }

    /// The version of the operating system of this model.
    pub open spec fn dos(self) -> DosVersion {
        match self {
            CbmDeviceType::Unknown => DosVersion::Dos1,
            CbmDeviceType::Cbm2040 => DosVersion::Dos1,
            CbmDeviceType::Cbm3040 => DosVersion::Dos1,
            CbmDeviceType::Cbm1571 => DosVersion::Dos3,
            CbmDeviceType::Cbm1581 => DosVersion::Dos3,
            CbmDeviceType::FdX000 => DosVersion::Dos3,
            _ => DosVersion::Dos2,
        }
    }

    /// The name of the model as the file system shows it.
    pub fn to_fs_name(&self) -> (s: String)
        ensures
            s@ == self.fs_name(),
    {
        match self {
            CbmDeviceType::Unknown => "Unknown".to_owned(),
            CbmDeviceType::FdX000 => self.as_str().to_owned(),
            _ => {
                let mut s = "CBM_".to_owned();
                s.append(self.as_str());
                s
            },
        }
    }

    /// The name of the model.
    pub fn as_str(&self) -> (r: &'static str)
        ensures
            r@ == self.name(),
    {
        match self {
            CbmDeviceType::Unknown => "Unknown Device",
            CbmDeviceType::Cbm1541 => "1541",
            CbmDeviceType::Cbm1570 => "1570",
            CbmDeviceType::Cbm1571 => "1571",
            CbmDeviceType::Cbm1581 => "1581",
            CbmDeviceType::Cbm2040 => "2040",
            CbmDeviceType::Cbm2031 => "2031",
            CbmDeviceType::Cbm3040 => "3040",
            CbmDeviceType::Cbm4040 => "4040",
            CbmDeviceType::Cbm4031 => "4031",
            CbmDeviceType::Cbm8050 => "8050",
            CbmDeviceType::Cbm8250 => "8250",
            CbmDeviceType::Sfd1001 => "SFD-1001",
            CbmDeviceType::FdX000 => "FDX000",
        }
    }

    /// The name of the model.
    pub fn to_string(&self) -> (s: String)
        ensures
            s@ == self.name(),
    {
        self.as_str().to_owned()
    }

    /// How many disk drives a unit of this model has.
    pub fn num_disk_drives(&self) -> (r: u8)
        ensures
            r == self.drives(),
    {
        match self {
            CbmDeviceType::Unknown => 0,
            CbmDeviceType::Cbm1541 => 1,
            CbmDeviceType::Cbm1570 => 1,
            CbmDeviceType::Cbm1571 => 1,
            CbmDeviceType::Cbm1581 => 1,
            CbmDeviceType::Cbm2040 => 2,
            CbmDeviceType::Cbm2031 => 1,
            CbmDeviceType::Cbm3040 => 2,
            CbmDeviceType::Cbm4040 => 2,
            CbmDeviceType::Cbm4031 => 1,
            CbmDeviceType::Cbm8050 => 2,
            CbmDeviceType::Cbm8250 => 2,
            CbmDeviceType::Sfd1001 => 1,
            CbmDeviceType::FdX000 => 1,
        }
    }

    /// The version of the operating system of this model.
    pub fn dos_version(&self) -> (r: DosVersion)
        ensures
            r == self.dos(),
    {
        match self {
            CbmDeviceType::Unknown | CbmDeviceType::Cbm2040 | CbmDeviceType::Cbm3040 => DosVersion::Dos1,
            CbmDeviceType::Cbm1571 | CbmDeviceType::Cbm1581 | CbmDeviceType::FdX000 => DosVersion::Dos3,
            _ => DosVersion::Dos2,
        }
    }
}

/// A model's number stands for that model, and no unit has more than two drives.
pub proof fn law_device_type_round_trip(t: CbmDeviceType, n: i32)
    ensures
        device_type_of(t.number()) == t,
        device_type_of(n) != CbmDeviceType::Unknown ==> device_type_of(n).number() == n,
        t.drives() <= 2,
        t.drives() == 0 <==> t == CbmDeviceType::Unknown,
{
}

/// A number that stands for no model.
#[derive(Debug)]
pub struct CbmDeviceTypeError(pub String);

impl CbmDeviceTypeError {
    /// The text of the error.
    pub fn to_string(&self) -> (s: String)
        ensures
            s@ == "Invalid device type value: "@ + self.0@,
    {
        let mut s = "Invalid device type value: ".to_owned();
        s.append(self.0.as_str());
        s
    }
}

/// What a drive has said of itself.
#[derive(Debug, PartialEq)]
pub struct CbmDeviceInfo {
    pub device_type: CbmDeviceType,
    pub description: String,
}

/// What a drive has said of itself, with its text as a sequence of characters.
#[verifier::ext_equal]
pub struct CbmDeviceInfoView {
    pub device_type: CbmDeviceType,
    pub description: Seq<char>,
}

impl View for CbmDeviceInfo {
    type V = CbmDeviceInfoView;

    open spec fn view(&self) -> CbmDeviceInfoView {
        CbmDeviceInfoView { device_type: self.device_type, description: self.description@ }
    }
}

impl CbmDeviceInfoView {
    /// Model and description.
    pub open spec fn text(self) -> Seq<char> {
        self.device_type.name() + ": "@ + self.description
    }
}

impl Clone for CbmDeviceInfo {
    fn clone(&self) -> (r: Self)
        ensures
            r == *self,
    {
        CbmDeviceInfo { device_type: self.device_type, description: self.description.clone() }
    }
}

impl Default for CbmDeviceInfo {
    fn default() -> (r: Self)
        ensures
            r.device_type == CbmDeviceType::Unknown,
            r.description@ == "unknown"@,
    {
        CbmDeviceInfo { device_type: CbmDeviceType::Unknown, description: "unknown".to_owned() }
    }
}

impl CbmDeviceInfo {
    /// Model and description.
    pub fn to_string(&self) -> (s: String)
        ensures
            s@ == self@.text(),
    {
        let mut s = self.device_type.to_string();
        s.append(": ");
        s.append(self.description.as_str());
        s
    }
}

// ---------------------------------------------------------------------------
// Files
// ---------------------------------------------------------------------------

/// The types of files on a disk.
#[derive(Debug, Clone, Copy, PartialEq, Eq, Structural)]
pub enum CbmFileType {
    PRG,
    SEQ,
    USR,
    REL,
    Unknown,
}

/// `c` turns into the ASCII capital `upper` when it is put in upper case. The long
/// s is the one character outside ASCII that does so for a letter of the file types.
pub open spec fn uppercase_is(c: char, upper: char) -> bool {
    ||| c == upper
    ||| c as int == upper as int + 32
    ||| upper == 'S' && c == '\u{17f}'
}

/// `s` is the three letters `a`, `b` and `c`, in either case.
pub open spec fn spells(s: Seq<char>, a: char, b: char, c: char) -> bool {
    s.len() == 3 && uppercase_is(s[0], a) && uppercase_is(s[1], b) && uppercase_is(s[2], c)
}

/// The file type that a directory entry names.
pub open spec fn file_type_of(s: Seq<char>) -> CbmFileType {
    if spells(s, 'P', 'R', 'G') {
        CbmFileType::PRG
    } else if spells(s, 'S', 'E', 'Q') {
        CbmFileType::SEQ
    } else if spells(s, 'U', 'S', 'R') {
        CbmFileType::USR
    } else if spells(s, 'R', 'E', 'L') {
        CbmFileType::REL
    } else {
        CbmFileType::Unknown
    }
}

fn is_upper(c: char, upper: char) -> (r: bool)
    requires
        'A' <= upper <= 'Z',
    ensures
        r == uppercase_is(c, upper),
{
    c == upper || c as u32 == upper as u32 + 32 || (upper == 'S' && c == '\u{17f}')
}

fn spells_word(v: &Vec<char>, a: char, b: char, c: char) -> (r: bool)
    requires
        'A' <= a <= 'Z',
        'A' <= b <= 'Z',
        'A' <= c <= 'Z',
    ensures
        r == spells(v@, a, b, c),
{
    v.len() == 3 && is_upper(v[0], a) && is_upper(v[1], b) && is_upper(v[2], c)
}

impl CbmFileType {
    /// The name of the file type.
    pub open spec fn name(self) -> Seq<char> {
        match self {
            CbmFileType::PRG => "prg"@,
            CbmFileType::SEQ => "seq"@,
            CbmFileType::USR => "usr"@,
            CbmFileType::REL => "rel"@,
            CbmFileType::Unknown => ""@,
        }
    }

    /// What stands behind a file name to say of which type the file is.
    pub open spec fn suffix(self) -> Seq<char> {
        match self {
            CbmFileType::PRG => ",P"@,
            CbmFileType::SEQ => ",S"@,
            CbmFileType::USR => ",U"@,
            CbmFileType::REL => ",R"@,
            CbmFileType::Unknown => ""@,
        }
    }

    /// The file type that a directory entry names.
    pub fn from_text(s: &str) -> (r: Self)
        ensures
            r == file_type_of(s@),
    {
        let v = chars_of(s);
        if spells_word(&v, 'P', 'R', 'G') {
            CbmFileType::PRG
        } else if spells_word(&v, 'S', 'E', 'Q') {
            CbmFileType::SEQ
        } else if spells_word(&v, 'U', 'S', 'R') {
            CbmFileType::USR
        } else if spells_word(&v, 'R', 'E', 'L') {
            CbmFileType::REL
        } else {
            CbmFileType::Unknown
        }
    }

    /// The name of the file type.
    pub fn as_str(&self) -> (r: &'static str)
        ensures
            r@ == self.name(),
    {
        match self {
            CbmFileType::PRG => "prg",
            CbmFileType::SEQ => "seq",
            CbmFileType::USR => "usr",
            CbmFileType::REL => "rel",
            CbmFileType::Unknown => "",
        }
    }

    /// What stands behind a file name to say of which type the file is.
    pub fn to_suffix(&self) -> (r: &'static str)
        ensures
            r@ == self.suffix(),
    {
        match self {
            CbmFileType::PRG => ",P",
            CbmFileType::SEQ => ",S",
            CbmFileType::USR => ",U",
            CbmFileType::REL => ",R",
            CbmFileType::Unknown => "",
        }
    }
}

/// The name of a file type names that file type.
pub proof fn law_file_type_round_trip(t: CbmFileType)
    ensures
        file_type_of(t.name()) == t,
{
    reveal_strlit("prg");
    reveal_strlit("seq");
    reveal_strlit("usr");
    reveal_strlit("rel");
    reveal_strlit("");
}

/// How a file is opened.
#[derive(Debug, Clone, Copy, PartialEq, Eq, Structural)]
pub enum CbmFileMode {
    Read,
    Write,
    Append,
}

impl CbmFileMode {
    /// What stands behind a file name to say how the file is opened.
    pub open spec fn suffix(self) -> Seq<char> {
        match self {
            CbmFileMode::Read => ""@,
            CbmFileMode::Write => ",W"@,
            CbmFileMode::Append => ",A"@,
        }
    }

    /// What stands behind a file name to say how the file is opened.
    pub fn to_suffix(&self) -> (r: &'static str)
        ensures
            r@ == self.suffix(),
    {
        match self {
            CbmFileMode::Read => "",
            CbmFileMode::Write => ",W",
            CbmFileMode::Append => ",A",
        }
    }
}

/// What is done on a device.
#[derive(Debug, Clone, Copy, PartialEq, Eq, Structural)]
pub enum CbmOperationType {
    Read,
    Write,
    Directory,
    Control,
}

} // verus!
