//! What can be relied on of statuses, errors, models and file types.
use vstd::prelude::*;

use crate::cbmtype;
use crate::cbmtype::{
    CbmDeviceInfo, CbmDeviceType, CbmError, CbmErrorNumber, CbmErrorNumberOk, CbmFileMode,
    CbmFileType, CbmStatus, CbmStatusView, DosVersion,
};
use crate::number;
use crate::opencbm::OpenCbmError;
use crate::text;

verus! {

// ---------------------------------------------------------------------------
// Numbers of errors
// ---------------------------------------------------------------------------

/// The number by which a drive tells of an error. The unknown error has none.
pub open spec fn number_told(e: CbmErrorNumber) -> Option<u8> {
    match e {
        CbmErrorNumber::Okay => Some(0),
        CbmErrorNumber::FilesScratched => Some(1),
        CbmErrorNumber::ReadErrorBlockHeaderNotFound => Some(20),
        CbmErrorNumber::ReadErrorNoSyncCharacter => Some(21),
        CbmErrorNumber::ReadErrorDataBlockNotPresent => Some(22),
        CbmErrorNumber::ReadErrorChecksumErrorInDataBlock => Some(23),
        CbmErrorNumber::ReadErrorByteDecodingError => Some(24),
        CbmErrorNumber::WriteErrorWriteVerifyError => Some(25),
        CbmErrorNumber::WriteProtectOn => Some(26),
        CbmErrorNumber::ReadErrorChecksumErrorInHeader => Some(27),
        CbmErrorNumber::WriteErrorLongDataBlock => Some(28),
        CbmErrorNumber::DiskIdMismatch => Some(29),
        CbmErrorNumber::SyntaxErrorGeneralSyntax => Some(30),
        CbmErrorNumber::SyntaxErrorInvalidCommand => Some(31),
        CbmErrorNumber::SyntaxErrorLongLine => Some(32),
        CbmErrorNumber::SyntaxErrorInvalidFileName => Some(33),
        CbmErrorNumber::SyntaxErrorNoFileGiven => Some(34),
        CbmErrorNumber::SyntaxErrorInvalidCommandChannel15 => Some(39),
        CbmErrorNumber::RecordNotPresent => Some(50),
        CbmErrorNumber::OverflowInRecord => Some(51),
        CbmErrorNumber::FileTooLarge => Some(52),
        CbmErrorNumber::WriteFileOpen => Some(60),
        CbmErrorNumber::FileNotOpen => Some(61),
        CbmErrorNumber::FileNotFound => Some(62),
        CbmErrorNumber::FileExists => Some(63),
        CbmErrorNumber::FileTypeMismatch => Some(64),
        CbmErrorNumber::NoBlock => Some(65),
        CbmErrorNumber::IllegalTrackAndSector => Some(66),
        CbmErrorNumber::IllegalSystemTOrS => Some(67),
        CbmErrorNumber::NoChannel => Some(70),
        CbmErrorNumber::DirectoryError => Some(71),
        CbmErrorNumber::DiskFull => Some(72),
        CbmErrorNumber::DosMismatch => Some(73),
        CbmErrorNumber::DriveNotReady => Some(74),
        CbmErrorNumber::OpenCbm => Some(99),
        CbmErrorNumber::Unknown => None,
    }
}

/// A number means the error that a drive tells by it, and no other number means that error.
/// What no drive tells is unknown.
pub proof fn law_numbers_mean(value: u8, e: CbmErrorNumber)
    ensures
        number_told(e) == Some(value) ==> cbmtype::error_number_of(value) == e,
        cbmtype::error_number_of(value) == e && !(e is Unknown) ==> number_told(e) == Some(value),
{
}

/// The words for an error, as drives and the driver put them.
pub proof fn law_words_for_errors(e: CbmErrorNumber, s: String)
    requires
        call_ensures(CbmErrorNumber::to_string, (&e,), s),
    ensures
        e is Okay ==> s@ == "OK"@,
        e is FilesScratched ==> s@ == "FILES SCRATCHED"@,
        e is ReadErrorBlockHeaderNotFound ==> s@ == "READ ERROR (block header not found)"@,
        e is ReadErrorNoSyncCharacter ==> s@ == "READ ERROR (no sync character)"@,
        e is ReadErrorDataBlockNotPresent ==> s@ == "READ ERROR (data block not present)"@,
        e is ReadErrorChecksumErrorInDataBlock ==> s@ == "READ ERROR (checksum error in data block)"@,
        e is ReadErrorByteDecodingError ==> s@ == "READ ERROR (byte decoding error)"@,
        e is WriteErrorWriteVerifyError ==> s@ == "WRITE ERROR (write verify error)"@,
        e is WriteProtectOn ==> s@ == "WRITE PROTECT ON"@,
        e is ReadErrorChecksumErrorInHeader ==> s@ == "READ ERROR (checksum error in header)"@,
        e is WriteErrorLongDataBlock ==> s@ == "WRITE ERROR (long data block)"@,
        e is DiskIdMismatch ==> s@ == "DISK ID MISMATCH"@,
        e is SyntaxErrorGeneralSyntax ==> s@ == "SYNTAX ERROR (general syntax)"@,
        e is SyntaxErrorInvalidCommand ==> s@ == "SYNTAX ERROR (invalid command)"@,
        e is SyntaxErrorLongLine ==> s@ == "SYNTAX ERROR (long line)"@,
        e is SyntaxErrorInvalidFileName ==> s@ == "SYNTAX ERROR (invalid file name)"@,
        e is SyntaxErrorNoFileGiven ==> s@ == "SYNTAX ERROR (no file given))"@,
        e is SyntaxErrorInvalidCommandChannel15 ==> s@ == "SYNTAX ERROR (invalid command on channel 15)"@,
        e is RecordNotPresent ==> s@ == "RECORD NOT PRESENT"@,
        e is OverflowInRecord ==> s@ == "OVERFLOW IN RECORD"@,
        e is FileTooLarge ==> s@ == "FILE TOO LARGE"@,
        e is WriteFileOpen ==> s@ == "WRITE FILE OPEN"@,
        e is FileNotOpen ==> s@ == "FILE NOT OPEN"@,
        e is FileNotFound ==> s@ == "FILE NOT FOUND"@,
        e is FileExists ==> s@ == "FILE EXISTS"@,
        e is FileTypeMismatch ==> s@ == "FILE TYPE MISMATCH"@,
        e is NoBlock ==> s@ == "NO BLOCK"@,
        e is IllegalTrackAndSector ==> s@ == "ILLEGAL TRACK AND SECTOR"@,
        e is IllegalSystemTOrS ==> s@ == "ILLEGAL SYSTEM T OR S"@,
        e is NoChannel ==> s@ == "NO CHANNEL"@,
        e is DirectoryError ==> s@ == "DIRECTORY ERROR"@,
        e is DiskFull ==> s@ == "DISK FULL"@,
        e is DosMismatch ==> s@ == "DOS MISMATCH"@,
        e is DriveNotReady ==> s@ == "DRIVE NOT READY"@,
        e is OpenCbm ==> s@ == "opencbm error"@,
        e is Unknown ==> s@ == "unknown"@,
{
}

// ---------------------------------------------------------------------------
// Statuses
// ---------------------------------------------------------------------------

/// All is well below 20, and only there. 73 is what a drive says after it was switched on, and
/// is told apart from the errors; but a command that is answered by it has not succeeded.
pub proof fn law_all_is_well_below_twenty(
    s: CbmStatus,
    ok: CbmErrorNumberOk,
    r: Result<(), CbmError>,
)
    requires
        call_ensures(CbmStatus::is_ok, (&s,), ok),
        call_ensures(CbmStatus::into_result, (s,), r),
    ensures
        ok is Okay <==> s.number < 20,
        ok is Number73 <==> s.number == 73,
        r is Ok <==> s.number < 20,
        r matches Err(e) ==> e == (CbmError::StatusError { device: s.device, status: s }),
{
}

/// Track and sector are told of the errors 20 to 29 only, and which is which; and how many
/// files were scratched is told in place of the track, by that message only. A drive has
/// answered unless the driver tells of an error or the number means nothing.
pub proof fn law_parts_of_a_status(
    s: CbmStatus,
    track: Option<u8>,
    sector: Option<u8>,
    scratched: Option<u8>,
    valid: bool,
)
    requires
        call_ensures(CbmStatus::track, (&s,), track),
        call_ensures(CbmStatus::sector, (&s,), sector),
        call_ensures(CbmStatus::files_scratched, (&s,), scratched),
        call_ensures(CbmStatus::is_valid_cbm, (&s,), valid),
    ensures
        track == Some(s.track) && sector == Some(s.sector) || track is None && sector is None,
        track is Some <==> 20 <= s.number && s.number < 30,
        scratched is Some ==> scratched == Some(s.track),
        s.error_number == cbmtype::error_number_of(s.number) ==> {
            &&& scratched is Some <==> s.number == 1
            &&& valid ==> s.number != 99
            &&& s.number <= 1 || (20 <= s.number <= 34) ==> valid
        },
        valid <==> !(s.error_number is OpenCbm) && !(s.error_number is Unknown),
{
}

/// The digits of a number below 100.
pub open spec fn digits_of(n: u8) -> Seq<char> {
    seq![(48 + n / 10) as char, (48 + n % 10) as char]
}

proof fn lemma_two_digits(n: u8)
    requires
        n < 100,
    ensures
        number::two_digits(n as nat) == digits_of(n),
{
    reveal_with_fuel(number::decimal, 3);
}

/// A status is written as its number, its message, its track and its sector, in this order,
/// with a comma between each two, and the numbers with two digits; in short as its number and
/// its message.
pub proof fn law_status_is_written(s: CbmStatus, long: String, short: String, shown: String)
    requires
        call_ensures(CbmStatus::as_str, (&s,), long),
        call_ensures(CbmStatus::as_short_str, (&s,), short),
        call_ensures(CbmStatus::to_string, (&s,), shown),
        s.number < 100,
        s.track < 100,
        s.sector < 100,
    ensures
        long@ == digits_of(s.number) + seq![','] + s.message@ + seq![','] + digits_of(s.track)
            + seq![','] + digits_of(s.sector),
        short@ == digits_of(s.number) + seq![','] + s.message@,
        shown@ == long@,
{
    lemma_two_digits(s.number);
    lemma_two_digits(s.track);
    lemma_two_digits(s.sector);
    reveal_strlit(",");
    assert(","@ =~= seq![',']);
}

/// What a drive has written is read: the number in front, the message, the track and the
/// sector, and it is told which device has sent it.
pub proof fn law_status_is_read(
    written: &str,
    n: u8,
    message: Seq<char>,
    track: u8,
    sector: u8,
    device: u8,
    r: Result<CbmStatus, CbmError>,
)
    requires
        n < 100,
        track < 100,
        sector < 100,
        !message.contains(','),
        !message.contains('\r'),
        message.len() > 0 ==> !text::is_space(message[0]) && !text::is_space(message.last()),
        written@ == digits_of(n) + seq![','] + message + seq![','] + digits_of(track) + seq![',']
            + digits_of(sector),
        call_ensures(CbmStatus::new, (written, device), r),
    ensures
        r matches Ok(s) && s.number == n && s.message@ == message && s.track == track && s.sector
            == sector && s.device == device && s.error_number == cbmtype::error_number_of(n),
{
    lemma_two_digits(n);
    lemma_two_digits(track);
    lemma_two_digits(sector);
    reveal_strlit(",");
    reveal_strlit("\r\0");
    assert(","@ =~= seq![',']);
    let s = CbmStatusView {
        number: n,
        error_number: cbmtype::error_number_of(n),
        message,
        track,
        sector,
        device,
    };
    text::lemma_trimmed_id(message);
    if text::has_part(message, "\r\0"@) {
        text::lemma_first_bounds(message, "\r\0"@, 0);
        let k = text::first_from(message, "\r\0"@, 0)->0;
        assert(message.subrange(k, k + 2)[0] == message[k]);
        assert(message.contains(message[k]));
    }
    cbmtype::law_status_round_trip(s);
    assert(cbmtype::status_text(s) =~= written@);
}

/// A text without a comma is no status, but an error for the device.
pub proof fn law_no_status_without_commas(
    written: &str,
    device: u8,
    r: Result<CbmStatus, CbmError>,
)
    requires
        !written@.contains(','),
        call_ensures(CbmStatus::new, (written, device), r),
    ensures
        r matches Err(CbmError::DeviceError { device: d, .. }) && d == device,
{
    let t = text::before_part(written@, "\r\0"@);
    text::lemma_first_bounds(written@, "\r\0"@, 0);
    let clean = cbmtype::cleaned_status(written@);
    assert forall|i: int| 0 <= i < clean.len() implies #[trigger] clean[i] != ',' by {
        let k = i + cbmtype::leading_nulls(t);
        assert(clean[i] == t[k]);
        assert(t[k] == written@[k]);
        assert(written@.contains(written@[k]));
    }
    assert(!clean.contains(','));
    reveal_strlit("9, DRIVER ERROR,00,00");
    reveal_strlit(", DRIVER ERROR,00,00");
    reveal_strlit(" DRIVER ERROR,00,00");
    if text::begins_with(clean, "9, DRIVER ERROR,00,00"@) {
        assert(clean.subrange(0, 21)[1] == clean[1]);
    }
    if text::begins_with(clean, ", DRIVER ERROR,00,00"@) {
        assert(clean.subrange(0, 20)[0] == clean[0]);
    }
    if text::begins_with(clean, " DRIVER ERROR,00,00"@) {
        assert(clean.subrange(0, 19)[13] == clean[13]);
    }
    text::lemma_split_on(clean, ',', Seq::empty());
}

// ---------------------------------------------------------------------------
// Errors
// ---------------------------------------------------------------------------

/// What the file system answers for an error of a drive: the numbers of the operating system
/// for an error in the input or output, a busy device, a missing file, what is not supported,
/// what is not valid, and what is not permitted.
pub proof fn law_errors_have_numbers(e: CbmError, r: i32)
    requires
        call_ensures(CbmError::to_errno, (&e,), r),
    ensures
        r == 5 <==> e is DeviceError || e is CommandError || e is TimeoutError || e is OpenCbmError
            || e is UsbError || e is ParseError || e == CbmError::FuseError(5),
        e is ChannelError ==> r == 16,
        e is FileError ==> r == 2,
        e is InvalidOperation ==> r == 95,
        e is ValidationError ==> r == 22,
        e is StatusError ==> r == 1,
        e matches CbmError::FuseError(n) ==> r == n,
{
}

/// The text of an error names the device, where it is for one, and tells what was told of it.
pub proof fn law_errors_are_told(e: CbmError, s: String)
    requires
        call_ensures(CbmError::to_string, (&e,), s),
    ensures
        match e {
            CbmError::DeviceError { device, message } => s@ == "Device "@ + number::decimal(
                device as nat,
            ) + ": Device error: "@ + message@,
            CbmError::ChannelError { device, message } => s@ == "Device "@ + number::decimal(
                device as nat,
            ) + ": Channel error: "@ + message@,
            CbmError::FileError { device, message } => s@ == "Device "@ + number::decimal(
                device as nat,
            ) + ": File operation error: "@ + message@,
            CbmError::CommandError { device, message } => s@ == "Device "@ + number::decimal(
                device as nat,
            ) + ": Command error: "@ + message@,
            CbmError::StatusError { device, status } => s@ == "Device "@ + number::decimal(
                device as nat,
            ) + ": Drive returned error status: "@ + cbmtype::status_text(status@),
            CbmError::TimeoutError { device } => s@ == "Device "@ + number::decimal(device as nat)
                + ": Operation timed out"@,
            CbmError::InvalidOperation { device, message } => s@ == "Device "@ + number::decimal(
                device as nat,
            ) + ": Invalid operation: "@ + message@,
            CbmError::OpenCbmError { device: Some(device), error } => s@ == "Device "@
                + number::decimal(device as nat) + ": OpenCBM error: "@ + error@.text(),
            CbmError::OpenCbmError { device: None, error } => s@ == "n/a"@ + ": OpenCBM error: "@
                + error@.text(),
            CbmError::FuseError(n) => s@ == "Filesystem error ("@ + number::signed_decimal(
                n as int,
            ) + "): "@ + (if n == 16 {
                "Device or resource busy"@
            } else if n == 5 {
                "Input/output error"@
            } else if n == 2 {
                "No such file or directory"@
            } else if n == 28 {
                "No space left on device"@
            } else if n == 95 {
                "Operation not supported"@
            } else {
                "Unknown error"@
            }),
            CbmError::ValidationError(message) => s@ == "Validation error: "@ + message@,
            CbmError::UsbError(message) => s@ == "USB error: "@ + message@,
            CbmError::ParseError { message } => s@ == "Parse error: "@ + message@,
        },
{
}

/// An error of the driver becomes one of its kind, with the same words: one of the connection
/// or the device is an error of the device, one that took too long a timeout, and the calls
/// that have failed are kept as they are.
pub proof fn law_driver_errors_keep_their_words(e: OpenCbmError, r: CbmError, s: String)
    requires
        call_ensures(CbmError::from_driver, (e,), r),
        call_ensures(OpenCbmError::to_string, (&e,), s),
    ensures
        match e {
            OpenCbmError::ConnectionError(words) => s@ == words@ && (r matches
                CbmError::DeviceError { device, message } && device == 0 && message@ == words@),
            OpenCbmError::UnknownDevice(words) => s@ == words@ && (r matches
                CbmError::DeviceError { device, message } && device == 0 && message@ == words@),
            OpenCbmError::Other(words) => s@ == words@ && (r matches CbmError::DeviceError {
                device,
                message,
            } && device == 0 && message@ == words@),
            OpenCbmError::ThreadTimeout => s@ == "FFI call timed out"@ && r == (
            CbmError::TimeoutError { device: 0 }),
            OpenCbmError::ThreadPanic => s@ == "FFI call thread panicked"@ && (r matches
                CbmError::DeviceError { device, message } && device == 0 && message@
                == "Thread panic during device operation"@),
            OpenCbmError::FailedCall(code, name) => s@ == name@ + " "@ + number::signed_decimal(
                code as int,
            ) && (r matches CbmError::OpenCbmError { device, error } && device is None && error@
                == e@),
            OpenCbmError::UsbError(Some(code), name) => s@ == name@ + " "@ + ("Some("@
                + number::signed_decimal(code as int) + ")"@) && (r matches
                CbmError::OpenCbmError { device, error } && device is None && error@ == e@),
            OpenCbmError::UsbError(None, name) => s@ == name@ + " "@ + "None"@ && (r matches
                CbmError::OpenCbmError { device, error } && device is None && error@ == e@),
            OpenCbmError::DriverNotOpen => s@ == "Driver not open"@ && (r matches
                CbmError::OpenCbmError { device, error } && device is None && error@ == e@),
        },
{
}

// ---------------------------------------------------------------------------
// Models
// ---------------------------------------------------------------------------

/// The number by which the driver tells of a model, and the name on the model.
pub proof fn law_models(t: CbmDeviceType, name: &'static str, shown: String, fs_name: String)
    requires
        call_ensures(CbmDeviceType::as_str, (&t,), name),
        call_ensures(CbmDeviceType::to_string, (&t,), shown),
        call_ensures(CbmDeviceType::to_fs_name, (&t,), fs_name),
    ensures
        shown@ == name@,
        t is Unknown ==> t.number() == -1 && name@ == "Unknown Device"@ && fs_name@ == "Unknown"@,
        t is FdX000 ==> fs_name@ == "FDX000"@,
        !(t is Unknown) && !(t is FdX000) ==> fs_name@ == "CBM_"@ + name@,
        t is Cbm1541 ==> t.number() == 0 && cbmtype::device_type_of(0) == t && name@ == "1541"@,
        t is Cbm1570 ==> t.number() == 1 && cbmtype::device_type_of(1) == t && name@ == "1570"@,
        t is Cbm1571 ==> t.number() == 2 && cbmtype::device_type_of(2) == t && name@ == "1571"@,
        t is Cbm1581 ==> t.number() == 3 && cbmtype::device_type_of(3) == t && name@ == "1581"@,
        t is Cbm2040 ==> t.number() == 4 && cbmtype::device_type_of(4) == t && name@ == "2040"@,
        t is Cbm2031 ==> t.number() == 5 && cbmtype::device_type_of(5) == t && name@ == "2031"@,
        t is Cbm3040 ==> t.number() == 6 && cbmtype::device_type_of(6) == t && name@ == "3040"@,
        t is Cbm4040 ==> t.number() == 7 && cbmtype::device_type_of(7) == t && name@ == "4040"@,
        t is Cbm4031 ==> t.number() == 8 && cbmtype::device_type_of(8) == t && name@ == "4031"@,
        t is Cbm8050 ==> t.number() == 9 && cbmtype::device_type_of(9) == t && name@ == "8050"@,
        t is Cbm8250 ==> t.number() == 10 && cbmtype::device_type_of(10) == t && name@ == "8250"@,
        t is Sfd1001 ==> t.number() == 11 && cbmtype::device_type_of(11) == t && name@ == "SFD-1001"@,
        t is FdX000 ==> t.number() == 12 && cbmtype::device_type_of(12) == t && name@ == "FDX000"@,
{
}

/// A number that the driver does not tell of a model by stands for no model.
pub proof fn law_other_numbers_are_unknown(n: i32)
    ensures
        cbmtype::device_type_of(n) is Unknown <==> n < 0 || n > 12,
{
}

/// The first dual drives have the first version of the operating system, as has an unknown
/// model; the 1571, the 1581 and the FD series have the third, and the rest the second.
pub proof fn law_versions_of_models(t: CbmDeviceType, v: DosVersion, name: &'static str)
    requires
        call_ensures(CbmDeviceType::dos_version, (&t,), v),
        call_ensures(DosVersion::as_str, (&v,), name),
    ensures
        v is Dos1 <==> t is Cbm2040 || t is Cbm3040 || t is Unknown,
        v is Dos3 <==> t is Cbm1571 || t is Cbm1581 || t is FdX000,
        name@ == (if v is Dos1 {
            "DOS1"@
        } else if v is Dos2 {
            "DOS2"@
        } else {
            "DOS3"@
        }),
{
}

/// A device is shown by its model and its description.
pub proof fn law_device_is_shown(info: CbmDeviceInfo, name: &'static str, s: String)
    requires
        call_ensures(CbmDeviceType::as_str, (&info.device_type,), name),
        call_ensures(CbmDeviceInfo::to_string, (&info,), s),
    ensures
        s@ == name@ + ": "@ + info.description@,
{
}

// ---------------------------------------------------------------------------
// Types of files
// ---------------------------------------------------------------------------

/// A character is a letter of ASCII, in either case, given in both.
pub open spec fn is_letter(c: char, upper: char, lower: char) -> bool {
    c == upper || c == lower
}

/// The type of a file is read in either case, and written as it is read.
pub proof fn law_file_types_are_read(word: &str, t: CbmFileType, name: &'static str, suffix: &'static str)
    requires
        call_ensures(CbmFileType::from_text, (word,), t),
        call_ensures(CbmFileType::as_str, (&t,), name),
        call_ensures(CbmFileType::to_suffix, (&t,), suffix),
        forall|i: int| 0 <= i < word@.len() ==> (#[trigger] word@[i] as int) < 128,
    ensures
        t is PRG <==> word@.len() == 3 && is_letter(word@[0], 'P', 'p') && is_letter(
            word@[1],
            'R',
            'r',
        ) && is_letter(word@[2], 'G', 'g'),
        t is SEQ <==> word@.len() == 3 && is_letter(word@[0], 'S', 's') && is_letter(
            word@[1],
            'E',
            'e',
        ) && is_letter(word@[2], 'Q', 'q'),
        t is USR <==> word@.len() == 3 && is_letter(word@[0], 'U', 'u') && is_letter(
            word@[1],
            'S',
            's',
        ) && is_letter(word@[2], 'R', 'r'),
        t is REL <==> word@.len() == 3 && is_letter(word@[0], 'R', 'r') && is_letter(
            word@[1],
            'E',
            'e',
        ) && is_letter(word@[2], 'L', 'l'),
        t is PRG ==> name@ == "prg"@ && suffix@ == ",P"@,
        t is SEQ ==> name@ == "seq"@ && suffix@ == ",S"@,
        t is USR ==> name@ == "usr"@ && suffix@ == ",U"@,
        t is REL ==> name@ == "rel"@ && suffix@ == ",R"@,
        t is Unknown ==> name@ == ""@ && suffix@ == ""@,
{
    assert forall|i: int| 0 <= i < word@.len() implies #[trigger] word@[i] != '\u{17f}' by {}
}

/// A file is opened to be written or appended to by a suffix, and to be read without one.
pub proof fn law_modes_of_opening(m: CbmFileMode, suffix: &'static str)
    requires
        call_ensures(CbmFileMode::to_suffix, (&m,), suffix),
    ensures
        m is Read ==> suffix@ == ""@,
        m is Write ==> suffix@ == ",W"@,
        m is Append ==> suffix@ == ",A"@,
{
}

/// The number, the track and the sector of a status are numbers of a byte: where one is larger,
/// or is none, there is no status, and the error is one of the device.
pub proof fn law_numbers_of_a_status_are_small(
    written: &str,
    device: u8,
    n: nat,
    k: int,
    r: Result<CbmStatus, CbmError>,
)
    requires
        n > 255,
        k == 0 || k == 2 || k == 3,
        !cbmtype::is_driver_error(cbmtype::cleaned_status(written@)),
        ({
            let part = text::trimmed(text::split_on(cbmtype::cleaned_status(written@), ',')[k]);
            part == number::decimal(n) || part.len() == 0
        }),
        call_ensures(CbmStatus::new, (written, device), r),
    ensures
        r matches Err(CbmError::DeviceError { device: d, .. }) && d == device,
{
    number::lemma_decimal(n);
    number::law_number_round_trip(n, n);
}

} // verus!
