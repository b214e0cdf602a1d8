//! What a user may ask for: device numbers and mountpoints.
use vstd::prelude::*;

use crate::cbmtype::{CbmError, CbmErrorView};
use crate::number;
use crate::number::push_decimal;
use crate::text;
use crate::text::starts_with;
use crate::{DEFAULT_DEVICE_NUM, MAX_DEVICE_NUM, MIN_DEVICE_NUM};

verus! {

/// What is asked of a device number.
#[derive(Debug, Clone, Copy, PartialEq, Eq, Structural)]
pub enum DeviceValidation {
    /// Cannot be missing
    Required,
    /// Can be missing, and is missing then
    Optional,
    /// Can be missing, and is the default then
    Default,
}

/// What becomes of a device number.
pub open spec fn valid_device(device: Option<u8>, validation: DeviceValidation) -> Result<
    Option<u8>,
    CbmErrorView,
> {
    match device {
        Some(n) => if MIN_DEVICE_NUM <= n <= MAX_DEVICE_NUM {
            Ok(Some(n))
        } else {
            Err(
                CbmErrorView::ValidationError(
                    "Device num must be between "@ + number::decimal(MIN_DEVICE_NUM as nat)
                        + " and "@ + number::decimal(MAX_DEVICE_NUM as nat),
                ),
            )
        },
        None => match validation {
            DeviceValidation::Required => Err(
                CbmErrorView::ValidationError("No device num supplied"@),
            ),
            DeviceValidation::Optional => Ok(None),
            DeviceValidation::Default => Ok(Some(DEFAULT_DEVICE_NUM)),
        },
    }
}

/// Validates a device number that may be missing.
pub fn validate_device(device: Option<u8>, validation: DeviceValidation) -> (r: Result<
    Option<u8>,
    CbmError,
>)
    ensures
        match r {
            Ok(d) => valid_device(device, validation) == Ok::<Option<u8>, CbmErrorView>(d),
            Err(e) => valid_device(device, validation) == Err::<Option<u8>, CbmErrorView>(e@),
        },
{
    match device {
        Some(n) => {
            if n < MIN_DEVICE_NUM || n > MAX_DEVICE_NUM {
                let mut s = "Device num must be between ".to_owned();
                push_decimal(&mut s, MIN_DEVICE_NUM as u64);
                s.append(" and ");
                push_decimal(&mut s, MAX_DEVICE_NUM as u64);
                Err(CbmError::ValidationError(s))
            } else {
                Ok(device)
            }
        },
        None => match validation {
            DeviceValidation::Required => Err(
                CbmError::ValidationError("No device num supplied".to_owned()),
            ),
            DeviceValidation::Optional => Ok(None),
            DeviceValidation::Default => Ok(Some(DEFAULT_DEVICE_NUM)),
        },
    }
}

/// A device number that passes is in range, passes again whatever is asked of it, and is
/// the one that was given, or the default where none was.
pub proof fn law_valid_device(
    device: Option<u8>,
    validation: DeviceValidation,
    again: DeviceValidation,
)
    ensures
        valid_device(device, validation) matches Ok(Some(n)) ==> MIN_DEVICE_NUM <= n
            <= MAX_DEVICE_NUM && valid_device(Some(n), again) == Ok::<Option<u8>, CbmErrorView>(
            Some(n),
        ) && (device == Some(n) || (device is None && n == DEFAULT_DEVICE_NUM)),
        valid_device(device, validation) matches Ok(None) ==> device is None && validation
            == DeviceValidation::Optional,
{
}

/// The lowest number that a device on the bus can have.
pub const DEVICE_MIN_NUM: u8 = 8;

/// The highest number that a device on the bus can have.
pub const DEVICE_MAX_NUM: u8 = 30;

/// `rs1541::validate_device` for a number that is required: it passes from 8 to 30, and
/// else the message of the validation error is handed back.
#[verifier::external_body]
fn rs1541_validate_device(device: u8) -> (r: Result<(), String>)
    ensures
        match r {
            Ok(_) => 8 <= device <= 30,
            Err(s) => !(8 <= device <= 30) && s@ == "Device num must be between 8 and 30"@,
        },
{
    match rs1541::validate_device(Some(device), rs1541::DeviceValidation::Required) {
        Ok(_) => Ok(()),
        Err(rs1541::Error::Validation { message }) => Err(message),
        Err(e) => Err(e.to_string()),
    }
}

/// What is wrong with the number of a device on the bus.
pub open spec fn bus_device_fault(device: u8) -> Option<CbmErrorView> {
    if DEVICE_MIN_NUM <= device <= DEVICE_MAX_NUM {
        None
    } else {
        Some(CbmErrorView::ValidationError("Device num must be between 8 and 30"@))
    }
}

/// Validates the number of a device on the bus.
pub fn validate_bus_device(device: u8) -> (r: Result<(), CbmError>)
    ensures
        match r {
            Ok(_) => bus_device_fault(device) is None,
            Err(e) => bus_device_fault(device) == Some(e@),
        },
{
    match rs1541_validate_device(device) {
        Ok(_) => Ok(()),
        Err(message) => Err(CbmError::ValidationError(message)),
    }
}

/// What a mountpoint is validated for.
#[derive(Debug, Clone, Copy, PartialEq, Eq, Structural)]
pub enum ValidationType {
    Mount,
    Unmount,
}

/// Owner and permissions of a file.
#[derive(Debug, Clone, Copy, PartialEq, Eq, Structural)]
pub struct FileMode {
    pub mode: u32,
    pub uid: u32,
    pub gid: u32,
}

/// A user and their group.
#[derive(Debug, Clone, Copy, PartialEq, Eq, Structural)]
pub struct UserIds {
    pub uid: u32,
    pub gid: u32,
}

/// What the operating system says of a path: whether it exists, its absolute form where
/// it is not absolute, and of that form whether it is a directory, whether it has
/// entries, and its owner and permissions.
#[derive(Debug)]
pub struct PathFacts {
    pub exists: bool,
    pub canonical: Result<String, String>,
    pub is_dir: bool,
    pub has_entries: Result<bool, String>,
    pub mode: Option<FileMode>,
    pub user: UserIds,
}

/// The permission to write that goes for a user: the owner's, the group's, or everyone's.
pub open spec fn may_write(mode: Option<FileMode>, user: UserIds) -> bool {
    match mode {
        Some(m) => if user.uid == m.uid {
            m.mode & 0o200 != 0
        } else if user.gid == m.gid {
            m.mode & 0o020 != 0
        } else {
            m.mode & 0o002 != 0
        },
        None => false,
    }
}

/// Whether a user may write to a file, as far as its permissions say so.
pub fn has_write_permission(mode: Option<FileMode>, user: UserIds) -> (r: bool)
    ensures
        r == may_write(mode, user),
{
    match mode {
        Some(m) => if user.uid == m.uid {
            (m.mode & 0o200) != 0
        } else if user.gid == m.gid {
            (m.mode & 0o020) != 0
        } else {
            (m.mode & 0o002) != 0
        },
        None => false,
    }
}

/// A path that begins at the root.
pub open spec fn is_absolute(path: Seq<char>) -> bool {
    text::begins_with(path, "/"@)
}

/// The absolute form of a path, or why there is none.
pub open spec fn absolute_path(path: Seq<char>, canonicalize: bool, facts: PathFacts) -> Result<
    Seq<char>,
    Seq<char>,
> {
    if is_absolute(path) {
        Ok(path)
    } else if !facts.exists {
        Err("Path "@ + path + " does not exist"@)
    } else if canonicalize {
        match facts.canonical {
            Ok(p) => Ok(p@),
            Err(e) => Err(
                "Path "@ + path + " is not absolute, and can't canonicalize: "@ + e@,
            ),
        }
    } else {
        Err("Path '"@ + path + "' must be absolute"@)
    }
}

/// What is wrong with an absolute path as a mountpoint.
pub open spec fn mountpoint_fault(path: Seq<char>, vtype: ValidationType, facts: PathFacts) -> Option<
    Seq<char>,
> {
    if !facts.is_dir {
        Some("Mountpoint "@ + path + " is not a directory"@)
    } else if vtype == ValidationType::Mount && facts.has_entries is Err {
        Some("Failed to read directory "@ + path + ": "@ + facts.has_entries->Err_0@)
    } else if vtype == ValidationType::Mount && facts.has_entries == Ok::<bool, String>(true) {
        Some("Mountpoint "@ + path + " is not empty"@)
    } else if !may_write(facts.mode, facts.user) {
        Some("No write permission for mountpoint "@ + path)
    } else {
        None
    }
}

fn three(a: &str, b: &str, c: &str) -> (s: String)
    ensures
        s@ == a@ + b@ + c@,
{
    let mut s = a.to_owned();
    s.append(b);
    s.append(c);
    s
}

fn absolute(path: &str, canonicalize: bool, facts: &PathFacts) -> (r: Result<String, String>)
    ensures
        match r {
            Ok(p) => absolute_path(path@, canonicalize, *facts) == Ok::<Seq<char>, Seq<char>>(p@),
            Err(e) => absolute_path(path@, canonicalize, *facts) == Err::<Seq<char>, Seq<char>>(
                e@,
            ),
        },
{
    if starts_with(path, "/") {
        return Ok(path.to_owned());
    }
    if !facts.exists {
        return Err(three("Path ", path, " does not exist"));
    }
    if canonicalize {
        match &facts.canonical {
            Ok(p) => Ok(p.clone()),
            Err(e) => {
                let mut s = three("Path ", path, " is not absolute, and can't canonicalize: ");
                s.append(e.as_str());
                Err(s)
            },
        }
    } else {
        Err(three("Path '", path, "' must be absolute"))
    }
}

/// Validates a mountpoint: an absolute path, or one that can be made so, to a directory
/// that can be written to, and that is empty where something is to be mounted on it.
pub fn validate_mountpoint(
    path: &str,
    vtype: ValidationType,
    canonicalize: bool,
    facts: &PathFacts,
) -> (r: Result<String, CbmError>)
    ensures
        match absolute_path(path@, canonicalize, *facts) {
            Err(fault) => r matches Err(e) && e@ == CbmErrorView::ValidationError(fault),
            Ok(p) => match mountpoint_fault(p, vtype, *facts) {
                Some(fault) => r matches Err(e) && e@ == CbmErrorView::ValidationError(fault),
                None => r matches Ok(q) && q@ == p,
            },
        },
{
    let vpath = match absolute(path, canonicalize, facts) {
        Ok(p) => p,
        Err(s) => return Err(CbmError::ValidationError(s)),
    };
    if !facts.is_dir {
        return Err(
            CbmError::ValidationError(
                three("Mountpoint ", vpath.as_str(), " is not a directory"),
            ),
        );
    }
    if let ValidationType::Mount = vtype {
        match &facts.has_entries {
            Err(e) => {
                let mut s = three("Failed to read directory ", vpath.as_str(), ": ");
                s.append(e.as_str());
                return Err(CbmError::ValidationError(s));
            },
            Ok(true) => {
                return Err(
                    CbmError::ValidationError(
                        three("Mountpoint ", vpath.as_str(), " is not empty"),
                    ),
                );
            },
            Ok(false) => {},
        }
    }
    if !has_write_permission(facts.mode, facts.user) {
        let mut s = "No write permission for mountpoint ".to_owned();
        s.append(vpath.as_str());
        return Err(CbmError::ValidationError(s));
    }
    Ok(vpath)
}

/// What can be mounted on can be unmounted, and a mountpoint that passes is a directory
/// that can be written to.
pub proof fn law_mountpoint(path: Seq<char>, facts: PathFacts)
    ensures
        mountpoint_fault(path, ValidationType::Mount, facts) is None ==> mountpoint_fault(
            path,
            ValidationType::Unmount,
            facts,
        ) is None && (facts.has_entries matches Ok(entries) && !entries),
        mountpoint_fault(path, ValidationType::Unmount, facts) is None ==> facts.is_dir
            && may_write(facts.mode, facts.user),
{
}

} // verus!
