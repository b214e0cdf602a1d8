//! Extended attributes: what can be asked of a drive, a disk or a file besides its
//! contents.
use vstd::prelude::*;

use crate::cbmtype;
use crate::cbmtype::{CbmStatus, DosVersion};
use crate::dir;
use crate::dir::CbmDirListing;
use crate::ipc;
use crate::ipc::bool_str;
use crate::number;
use crate::number::decimal_string;
use crate::text::same;
use crate::time::SystemTime;

verus! {

/// The version of this file system.
pub const FS1541_VERSION: &'static str = "0.3.2";

/// The name of this type of file system.
pub const FS1541_TYPE: &'static str = "1541fs";

/// The text can stand for the time of an attribute: where there is one, it is that time in
/// some time zone.
pub open spec fn tells_time(time: Option<SystemTime>, local: Seq<char>) -> bool {
    time matches Some(t) ==> t.is_local_text(local)
}

/// An extended attribute: a name and a value. The value of an attribute that is a time
/// is that time where the machine is.
pub trait Xattr: Sized {
    /// The name of the attribute.
    spec fn attr_name(&self) -> Seq<char>;

    /// The time that the attribute is, if it is one.
    spec fn attr_time(&self) -> Option<SystemTime>;

    /// The value of the attribute, given the text of its time where it is one.
    spec fn attr_value(&self, local: Seq<char>) -> Seq<char>;

    /// The name of the attribute.
    fn name(&self) -> (r: &'static str)
        ensures
            r@ == self.attr_name(),
    ;

    /// The time that the attribute is, if it is one.
    fn time(&self) -> (r: Option<SystemTime>)
        ensures
            r == self.attr_time(),
    ;

    /// The value of the attribute, given the text of its time where it is one.
    fn value_with(&self, local: &str) -> (s: String)
        ensures
            s@ == self.attr_value(local@),
    ;

    /// The name of the attribute.
    fn attr(&self) -> (s: String)
        ensures
            s@ == self.attr_name(),
    {
        self.name().to_owned()
    }

    /// The value of the attribute. A time is written as it is where the machine is.
    fn value(&self) -> (s: String)
        ensures
            exists|local: Seq<char>|
                tells_time(self.attr_time(), local) && s@ == #[trigger] self.attr_value(local),
    {
        match self.time() {
            Some(t) => {
                let local = t.local_text();
                self.value_with(local.as_str())
            },
            None => self.value_with(""),
        }
    }

    /// Name and value of the attribute.
    fn describe(&self) -> (s: String)
        ensures
            exists|local: Seq<char>|
                tells_time(self.attr_time(), local) && s@ == self.attr_name() + ": "@
                    + #[trigger] self.attr_value(local),
    {
        let mut s = self.attr();
        s.append(": ");
        let value = self.value();
        let ghost local = choose|local: Seq<char>|
            tells_time(self.attr_time(), local) && value@ == #[trigger] self.attr_value(local);
        s.append(value.as_str());
        assert(s@ == self.attr_name() + ": "@ + self.attr_value(local));
        s
    }
}

/// Operations on lists of attributes.
#[derive(Debug, Clone, Copy)]
pub struct XattrOps;

/// The names of attributes, each with a NUL behind it.
pub open spec fn name_list<T: Xattr>(xattrs: Seq<T>) -> Seq<u8>
    decreases xattrs.len(),
{
    if xattrs.len() == 0 {
        Seq::empty()
    } else {
        name_list(xattrs.drop_last()) + vstd::utf8::encode_utf8(xattrs.last().attr_name()) + seq![0u8]
    }
}

/// The first attribute of a name at or after a position.
pub open spec fn find_from<T: Xattr>(xattrs: Seq<T>, name: Seq<char>, from: int) -> Option<int>
    decreases xattrs.len() - from,
{
    if from < 0 || from >= xattrs.len() {
        None
    } else if xattrs[from].attr_name() == name {
        Some(from)
    } else {
        find_from(xattrs, name, from + 1)
    }
}

/// The first attribute of a name.
pub open spec fn find<T: Xattr>(xattrs: Seq<T>, name: Seq<char>) -> Option<int> {
    find_from(xattrs, name, 0)
}

/// The bytes are the value of an attribute. Where it is a time they are that time in some
/// time zone.
pub open spec fn is_value_of<T: Xattr>(xattr: T, bytes: Seq<u8>) -> bool {
    exists|local: Seq<char>|
        tells_time(xattr.attr_time(), local) && bytes == vstd::utf8::encode_utf8(
            #[trigger] xattr.attr_value(local),
        )
}

/// The attributes with one put in place of the first of its name, or at the end.
pub open spec fn with_attr<T: Xattr>(xattrs: Seq<T>, xattr: T) -> Seq<T> {
    match find(xattrs, xattr.attr_name()) {
        Some(i) => xattrs.update(i, xattr),
        None => xattrs.push(xattr),
    }
}

impl XattrOps {
    fn position<T: Xattr>(xattrs: &Vec<T>, name: &str) -> (r: Option<usize>)
        ensures
            match r {
                Some(i) => i < xattrs@.len() && find(xattrs@, name@) == Some(i as int),
                None => find(xattrs@, name@) is None,
            },
    {
        let mut i: usize = 0;
        while i < xattrs.len()
            invariant
                i <= xattrs@.len(),
                find(xattrs@, name@) == find_from(xattrs@, name@, i as int),
            decreases xattrs@.len() - i,
        {
            if same(xattrs[i].name(), name) {
                return Some(i);
            }
            i = i + 1;
        }
        None
    }

    /// The names of the attributes, each with a NUL behind it.
    pub fn listxattr_from_vec<T: Xattr>(xattrs: &Vec<T>) -> (list: Vec<u8>)
        ensures
            list@ == name_list(xattrs@),
    {
        let mut list: Vec<u8> = Vec::new();
        let mut i: usize = 0;
        assert(xattrs@.take(0) =~= Seq::empty());
        while i < xattrs.len()
            invariant
                i <= xattrs@.len(),
                list@ == name_list(xattrs@.take(i as int)),
            decreases xattrs@.len() - i,
        {
            let attr = xattrs[i].attr();
            list.extend_from_slice(attr.as_str().as_bytes());
            list.push(0);
            assert(xattrs@.take(i + 1).drop_last() =~= xattrs@.take(i as int));
            assert(list@ =~= name_list(xattrs@.take(i + 1)));
            i = i + 1;
        }
        assert(xattrs@.take(i as int) =~= xattrs@);
        list
    }

    /// The value of the first attribute of a name.
    pub fn getxattr_from_vec<T: Xattr>(xattrs: &Vec<T>, name: &str) -> (r: Option<Vec<u8>>)
        ensures
            match find(xattrs@, name@) {
                Some(i) => r matches Some(v) && is_value_of(xattrs@[i], v@),
                None => r is None,
            },
    {
        match XattrOps::position(xattrs, name) {
            Some(i) => {
                let value = xattrs[i].value();
                let bytes = vstd::slice::slice_to_vec(value.as_str().as_bytes());
                let ghost local = choose|local: Seq<char>|
                    tells_time(xattrs@[i as int].attr_time(), local) && value@
                        == #[trigger] xattrs@[i as int].attr_value(local);
                assert(bytes@ == vstd::utf8::encode_utf8(xattrs@[i as int].attr_value(local)));
                assert(is_value_of(xattrs@[i as int], bytes@));
                Some(bytes)
            },
            None => None,
        }
    }

    /// Puts an attribute in place of the first of its name, or at the end.
    pub fn add_or_replace<T: Xattr>(xattrs: &mut Vec<T>, xattr: T)
        ensures
            final(xattrs)@ == with_attr(old(xattrs)@, xattr),
    {
        let name = xattr.attr();
        match XattrOps::position(xattrs, name.as_str()) {
            Some(i) => {
                xattrs.set(i, xattr);
            },
            None => {
                xattrs.push(xattr);
            },
        }
    }

    /// Takes out the first attribute of a name.
    pub fn remove<T: Xattr>(xattrs: &mut Vec<T>, name: &str) -> (r: Option<T>)
        ensures
            match find(old(xattrs)@, name@) {
                Some(i) => r == Some(old(xattrs)@[i]) && final(xattrs)@ == old(xattrs)@.remove(i),
                None => r is None && final(xattrs)@ == old(xattrs)@,
            },
    {
        match XattrOps::position(xattrs, name) {
            Some(i) => Some(xattrs.remove(i)),
            None => None,
        }
    }
}

proof fn lemma_find_from<T: Xattr>(xattrs: Seq<T>, name: Seq<char>, from: int)
    requires
        0 <= from,
    ensures
        match find_from(xattrs, name, from) {
            Some(i) => from <= i < xattrs.len() && xattrs[i].attr_name() == name && forall|j: int|
                from <= j < i ==> (#[trigger] xattrs[j]).attr_name() != name,
            None => forall|j: int|
                from <= j < xattrs.len() ==> (#[trigger] xattrs[j]).attr_name() != name,
        },
    decreases xattrs.len() - from,
{
    if from < xattrs.len() && xattrs[from].attr_name() != name {
        lemma_find_from(xattrs, name, from + 1);
    }
}

proof fn lemma_found<T: Xattr>(xattrs: Seq<T>, name: Seq<char>, from: int, i: int)
    requires
        0 <= from <= i < xattrs.len(),
        xattrs[i].attr_name() == name,
        forall|j: int| from <= j < i ==> (#[trigger] xattrs[j]).attr_name() != name,
    ensures
        find_from(xattrs, name, from) == Some(i),
    decreases i - from,
{
    if from < i {
        assert(xattrs[from].attr_name() != name);
        lemma_found(xattrs, name, from + 1, i);
    }
}

proof fn lemma_not_found<T: Xattr>(xattrs: Seq<T>, name: Seq<char>, from: int)
    requires
        0 <= from,
        forall|j: int| from <= j < xattrs.len() ==> (#[trigger] xattrs[j]).attr_name() != name,
    ensures
        find_from(xattrs, name, from) is None,
    decreases xattrs.len() - from,
{
    if from < xattrs.len() {
        assert(xattrs[from].attr_name() != name);
        lemma_not_found(xattrs, name, from + 1);
    }
}

/// No two attributes have the same name.
pub open spec fn names_are_distinct<T: Xattr>(xattrs: Seq<T>) -> bool {
    forall|i: int, j: int|
        0 <= i < j < xattrs.len() ==> (#[trigger] xattrs[i]).attr_name() != (
        #[trigger] xattrs[j]).attr_name()
}

/// What was put in is found under its name.
pub proof fn law_added_is_found<T: Xattr>(xattrs: Seq<T>, xattr: T)
    ensures
        find(with_attr(xattrs, xattr), xattr.attr_name()) matches Some(i) && with_attr(
            xattrs,
            xattr,
        )[i] == xattr,
{
    let name = xattr.attr_name();
    let after = with_attr(xattrs, xattr);
    lemma_find_from(xattrs, name, 0);
    let i = match find(xattrs, name) {
        Some(i) => i,
        None => xattrs.len() as int,
    };
    assert forall|j: int| 0 <= j < i implies (#[trigger] after[j]).attr_name() != name by {
        assert(after[j] == xattrs[j]);
    }
    lemma_found(after, name, 0, i);
}

/// To put an attribute in changes none of another name, and where no two names were the
/// same none are.
pub proof fn law_added_keeps_others<T: Xattr>(xattrs: Seq<T>, xattr: T, name: Seq<char>)
    requires
        name != xattr.attr_name(),
    ensures
        match find(xattrs, name) {
            Some(i) => find(with_attr(xattrs, xattr), name) == Some(i) && with_attr(
                xattrs,
                xattr,
            )[i] == xattrs[i],
            None => find(with_attr(xattrs, xattr), name) is None,
        },
        names_are_distinct(xattrs) ==> names_are_distinct(with_attr(xattrs, xattr)),
{
    let after = with_attr(xattrs, xattr);
    lemma_find_from(xattrs, xattr.attr_name(), 0);
    lemma_find_from(xattrs, name, 0);
    let k = match find(xattrs, xattr.attr_name()) {
        Some(k) => k,
        None => xattrs.len() as int,
    };
    assert forall|j: int| 0 <= j < after.len() && j != k implies #[trigger] after[j] == xattrs[j] by {}
    match find(xattrs, name) {
        Some(i) => {
            assert(i != k);
            assert forall|j: int| 0 <= j < i implies (#[trigger] after[j]).attr_name() != name by {
                if j != k {
                    assert(xattrs[j].attr_name() != name);
                }
            }
            lemma_found(after, name, 0, i);
        },
        None => {
            assert forall|j: int| 0 <= j < after.len() implies (#[trigger] after[j]).attr_name()
                != name by {
                if j != k {
                    assert(xattrs[j].attr_name() != name);
                }
            }
            lemma_not_found(after, name, 0);
        },
    }
}

/// What was taken out is not found any more, where no two names were the same.
pub proof fn law_removed_is_gone<T: Xattr>(xattrs: Seq<T>, name: Seq<char>)
    requires
        names_are_distinct(xattrs),
        find(xattrs, name) is Some,
    ensures
        find(xattrs.remove(find(xattrs, name)->0), name) is None,
        names_are_distinct(xattrs.remove(find(xattrs, name)->0)),
{
    lemma_find_from(xattrs, name, 0);
    let i = find(xattrs, name)->0;
    let after = xattrs.remove(i);
    assert forall|j: int| 0 <= j < after.len() implies (#[trigger] after[j]).attr_name() != name by {
        if j < i {
            assert(after[j] == xattrs[j]);
        } else {
            assert(after[j] == xattrs[j + 1]);
        }
    }
    lemma_not_found(after, name, 0);
    assert forall|a: int, b: int| 0 <= a < b < after.len() implies (#[trigger] after[a]).attr_name()
        != (#[trigger] after[b]).attr_name() by {
        let x = if a < i {
            a
        } else {
            a + 1
        };
        let y = if b < i {
            b
        } else {
            b + 1
        };
        assert(after[a] == xattrs[x] && after[b] == xattrs[y]);
    }
}

// ---------------------------------------------------------------------------
// Drives
// ---------------------------------------------------------------------------

/// What can be asked of a drive.
#[derive(Debug)]
pub enum DriveXattr {
    DeviceNumber(u8),
    Model(String),
    Description(String),
    NumDrives(u8),
    FsType(String),
    FsName(String),
    Mountpoint(String),
    MountTime(SystemTime),
    LastStatus(CbmStatus),
    LastStatusTime(SystemTime),
    LastError(CbmStatus),
    LastErrorTime(SystemTime),
    DosVersion(DosVersion),
    Fs1541Version(String),
}

impl Xattr for DriveXattr {
    open spec fn attr_name(&self) -> Seq<char> {
        match *self {
            DriveXattr::DeviceNumber(_) => "user.device.number"@,
            DriveXattr::Model(_) => "user.device.model"@,
            DriveXattr::Description(_) => "user.device.description"@,
            DriveXattr::NumDrives(_) => "user.device.drives"@,
            DriveXattr::FsType(_) => "user.mount.fs_type"@,
            DriveXattr::FsName(_) => "user.mount.fs_name"@,
            DriveXattr::Mountpoint(_) => "user.mount.mountpoint"@,
            DriveXattr::MountTime(_) => "user.mount.mount_time"@,
            DriveXattr::LastStatus(_) => "user.device.last_status.status"@,
            DriveXattr::LastStatusTime(_) => "user.device.last_status.time"@,
            DriveXattr::LastError(_) => "user.device.last_error.status"@,
            DriveXattr::LastErrorTime(_) => "user.device.last_error.tim"@,
            DriveXattr::DosVersion(_) => "user.device.dos_version"@,
            DriveXattr::Fs1541Version(_) => "user.1541fs.version"@,
        }
    }

    open spec fn attr_time(&self) -> Option<SystemTime> {
        match *self {
            DriveXattr::MountTime(t) => Some(t),
            DriveXattr::LastStatusTime(t) => Some(t),
            DriveXattr::LastErrorTime(t) => Some(t),
            _ => None,
        }
    }

    open spec fn attr_value(&self, local: Seq<char>) -> Seq<char> {
        match *self {
            DriveXattr::DeviceNumber(n) => number::decimal(n as nat),
            DriveXattr::Model(s) => s@,
            DriveXattr::Description(s) => s@,
            DriveXattr::NumDrives(n) => number::decimal(n as nat),
            DriveXattr::FsType(s) => s@,
            DriveXattr::FsName(s) => s@,
            DriveXattr::Mountpoint(s) => s@,
            DriveXattr::MountTime(_) => local,
            DriveXattr::LastStatus(s) => cbmtype::status_text(s@),
            DriveXattr::LastStatusTime(_) => local,
            DriveXattr::LastError(s) => cbmtype::status_text(s@),
            DriveXattr::LastErrorTime(_) => local,
            DriveXattr::DosVersion(v) => v.name(),
            DriveXattr::Fs1541Version(s) => s@,
        }
    }

    fn name(&self) -> (r: &'static str) {
        match self {
            DriveXattr::DeviceNumber(_) => "user.device.number",
            DriveXattr::Model(_) => "user.device.model",
            DriveXattr::Description(_) => "user.device.description",
            DriveXattr::NumDrives(_) => "user.device.drives",
            DriveXattr::FsType(_) => "user.mount.fs_type",
            DriveXattr::FsName(_) => "user.mount.fs_name",
            DriveXattr::Mountpoint(_) => "user.mount.mountpoint",
            DriveXattr::MountTime(_) => "user.mount.mount_time",
            DriveXattr::LastStatus(_) => "user.device.last_status.status",
            DriveXattr::LastStatusTime(_) => "user.device.last_status.time",
            DriveXattr::LastError(_) => "user.device.last_error.status",
            DriveXattr::LastErrorTime(_) => "user.device.last_error.tim",
            DriveXattr::DosVersion(_) => "user.device.dos_version",
            DriveXattr::Fs1541Version(_) => "user.1541fs.version",
        }
    }

    fn time(&self) -> (r: Option<SystemTime>) {
        match self {
            DriveXattr::MountTime(t) => Some(*t),
            DriveXattr::LastStatusTime(t) => Some(*t),
            DriveXattr::LastErrorTime(t) => Some(*t),
            _ => None,
        }
    }

    fn value_with(&self, local: &str) -> (s: String) {
        match self {
            DriveXattr::DeviceNumber(n) => decimal_string(*n as u64),
            DriveXattr::Model(s) => s.clone(),
            DriveXattr::Description(s) => s.clone(),
            DriveXattr::NumDrives(n) => decimal_string(*n as u64),
            DriveXattr::FsType(s) => s.clone(),
            DriveXattr::FsName(s) => s.clone(),
            DriveXattr::Mountpoint(s) => s.clone(),
            DriveXattr::MountTime(_) => local.to_owned(),
            DriveXattr::LastStatus(s) => s.to_string(),
            DriveXattr::LastStatusTime(_) => local.to_owned(),
            DriveXattr::LastError(s) => s.to_string(),
            DriveXattr::LastErrorTime(_) => local.to_owned(),
            DriveXattr::DosVersion(v) => v.as_str().to_owned(),
            DriveXattr::Fs1541Version(s) => s.clone(),
        }
    }
}

/// What is known of a drive when it is mounted.
pub open spec fn are_drive_xattrs(
    list: Seq<DriveXattr>,
    device_number: u8,
    model: Seq<char>,
    description: Seq<char>,
    num_drives: u8,
    fs_name: Seq<char>,
    mountpoint: Seq<char>,
    mount_time: SystemTime,
    dos_version: DosVersion,
) -> bool {
    &&& list.len() == 10
    &&& list[0] == DriveXattr::DeviceNumber(device_number)
    &&& (list[1] matches DriveXattr::Model(s) && s@ == model)
    &&& (list[2] matches DriveXattr::Description(s) && s@ == description)
    &&& list[3] == DriveXattr::NumDrives(num_drives)
    &&& (list[4] matches DriveXattr::FsName(s) && s@ == fs_name)
    &&& (list[5] matches DriveXattr::Mountpoint(s) && s@ == mountpoint)
    &&& list[6] == DriveXattr::MountTime(mount_time)
    &&& list[7] == DriveXattr::DosVersion(dos_version)
    &&& (list[8] matches DriveXattr::FsType(s) && s@ == FS1541_TYPE@)
    &&& (list[9] matches DriveXattr::Fs1541Version(s) && s@ == FS1541_VERSION@)
}

impl DriveXattr {
    /// What is known of a drive when it is mounted.
    pub fn new(
        device_number: u8,
        model: String,
        description: String,
        num_drives: u8,
        fs_name: String,
        mountpoint: String,
        mount_time: SystemTime,
        dos_version: DosVersion,
    ) -> (list: Vec<Self>)
        ensures
            are_drive_xattrs(
                list@,
                device_number,
                model@,
                description@,
                num_drives,
                fs_name@,
                mountpoint@,
                mount_time,
                dos_version,
            ),
    {
        vec![
            DriveXattr::DeviceNumber(device_number),
            DriveXattr::Model(model),
            DriveXattr::Description(description),
            DriveXattr::NumDrives(num_drives),
            DriveXattr::FsName(fs_name),
            DriveXattr::Mountpoint(mountpoint),
            DriveXattr::MountTime(mount_time),
            DriveXattr::DosVersion(dos_version),
            DriveXattr::FsType(FS1541_TYPE.to_owned()),
            DriveXattr::Fs1541Version(FS1541_VERSION.to_owned()),
        ]
    }
}

// ---------------------------------------------------------------------------
// Disks
// ---------------------------------------------------------------------------

/// What can be asked of a disk.
#[derive(Debug)]
pub enum DiskXattr {
    HeaderName(String),
    HeaderId(String),
    BlocksFree(u16),
    BlocksUsed(u16),
    TotalBlocks(u16),
}

impl Xattr for DiskXattr {
    open spec fn attr_name(&self) -> Seq<char> {
        match *self {
            DiskXattr::HeaderName(_) => "user.disk.header_name"@,
            DiskXattr::HeaderId(_) => "user.disk.header_id"@,
            DiskXattr::BlocksFree(_) => "user.disk.cbm_blocks.free"@,
            DiskXattr::BlocksUsed(_) => "user.disk.cbm_blocks.used"@,
            DiskXattr::TotalBlocks(_) => "user.disk.cbm_blocks.total"@,
        }
    }

    open spec fn attr_time(&self) -> Option<SystemTime> {
        None
    }

    open spec fn attr_value(&self, local: Seq<char>) -> Seq<char> {
        match *self {
            DiskXattr::HeaderName(s) => s@,
            DiskXattr::HeaderId(s) => s@,
            DiskXattr::BlocksFree(n) => number::decimal(n as nat),
            DiskXattr::BlocksUsed(n) => number::decimal(n as nat),
            DiskXattr::TotalBlocks(n) => number::decimal(n as nat),
        }
    }

    fn name(&self) -> (r: &'static str) {
        match self {
            DiskXattr::HeaderName(_) => "user.disk.header_name",
            DiskXattr::HeaderId(_) => "user.disk.header_id",
            DiskXattr::BlocksFree(_) => "user.disk.cbm_blocks.free",
            DiskXattr::BlocksUsed(_) => "user.disk.cbm_blocks.used",
            DiskXattr::TotalBlocks(_) => "user.disk.cbm_blocks.total",
        }
    }

    fn time(&self) -> (r: Option<SystemTime>) {
        None
    }

    fn value_with(&self, local: &str) -> (s: String) {
        match self {
            DiskXattr::HeaderName(s) => s.clone(),
            DiskXattr::HeaderId(s) => s.clone(),
            DiskXattr::BlocksFree(n) => decimal_string(*n as u64),
            DiskXattr::BlocksUsed(n) => decimal_string(*n as u64),
            DiskXattr::TotalBlocks(n) => decimal_string(*n as u64),
        }
    }
}

/// What is known of a disk.
pub open spec fn are_disk_xattrs(
    list: Seq<DiskXattr>,
    header_name: Seq<char>,
    header_id: Seq<char>,
    blocks_free: u16,
    blocks_used: u16,
    blocks_total: u16,
) -> bool {
    &&& list.len() == 5
    &&& list[0] matches DiskXattr::HeaderName(s) && s@ == header_name
    &&& list[1] matches DiskXattr::HeaderId(s) && s@ == header_id
    &&& list[2] == DiskXattr::BlocksFree(blocks_free)
    &&& list[3] == DiskXattr::BlocksUsed(blocks_used)
    &&& list[4] == DiskXattr::TotalBlocks(blocks_total)
}

impl DiskXattr {
    /// What is known of a disk.
    pub fn new(
        header_name: &str,
        header_id: &str,
        blocks_free: u16,
        blocks_used: u16,
        blocks_total: u16,
    ) -> (list: Vec<Self>)
        ensures
            are_disk_xattrs(
                list@,
                header_name@,
                header_id@,
                blocks_free,
                blocks_used,
                blocks_total,
            ),
    {
        vec![
            DiskXattr::HeaderName(header_name.to_owned()),
            DiskXattr::HeaderId(header_id.to_owned()),
            DiskXattr::BlocksFree(blocks_free),
            DiskXattr::BlocksUsed(blocks_used),
            DiskXattr::TotalBlocks(blocks_total),
        ]
    }

    /// What a listing says of a disk.
    pub fn from_dir_listing(listing: &CbmDirListing) -> (list: Vec<Self>)
        requires
            listing@.total() <= 65535,
        ensures
            list@ == listing_xattrs(*listing),
    {
        let list = vec![
            DiskXattr::HeaderName(listing.header.name.clone()),
            DiskXattr::HeaderId(listing.header.id.clone()),
            DiskXattr::BlocksFree(listing.blocks_free),
            DiskXattr::BlocksUsed(listing.num_blocks_used_valid()),
            DiskXattr::TotalBlocks(listing.total_blocks()),
        ];
        assert(list@ =~= listing_xattrs(*listing));
        list
    }
}

/// What a listing says of a disk.
pub open spec fn listing_xattrs(listing: CbmDirListing) -> Seq<DiskXattr> {
    seq![
        DiskXattr::HeaderName(listing.header.name),
        DiskXattr::HeaderId(listing.header.id),
        DiskXattr::BlocksFree(listing.blocks_free),
        DiskXattr::BlocksUsed(dir::used_blocks(listing@.files) as u16),
        DiskXattr::TotalBlocks(listing@.total() as u16),
    ]
}

// ---------------------------------------------------------------------------
// Files
// ---------------------------------------------------------------------------

/// Whether a file can be read, written or both.
#[derive(Debug, Clone, Copy, PartialEq, Eq, Structural)]
pub enum RwType {
    Read,
    Write,
    ReadWrite,
}

impl RwType {
    /// The name of the type.
    pub open spec fn name(self) -> Seq<char> {
        match self {
            RwType::Read => "Read"@,
            RwType::Write => "Write"@,
            RwType::ReadWrite => "ReadWrite"@,
        }
    }

    /// The name of the type.
    pub fn as_str(&self) -> (r: &'static str)
        ensures
            r@ == self.name(),
    {
        match self {
            RwType::Read => "Read",
            RwType::Write => "Write",
            RwType::ReadWrite => "ReadWrite",
        }
    }
}

/// How much of a file is cached.
#[derive(Debug, Clone, Copy, PartialEq, Eq, Structural)]
pub enum CacheStatus {
    Uncached,
    InProgress,
    Complete,
}

impl CacheStatus {
    /// The name of the status.
    pub open spec fn name(self) -> Seq<char> {
        match self {
            CacheStatus::Uncached => "Uncached"@,
            CacheStatus::InProgress => "In progress"@,
            CacheStatus::Complete => "Complete"@,
        }
    }

    /// The name of the status.
    pub fn as_str(&self) -> (r: &'static str)
        ensures
            r@ == self.name(),
    {
        match self {
            CacheStatus::Uncached => "Uncached",
            CacheStatus::InProgress => "In progress",
            CacheStatus::Complete => "Complete",
        }
    }
}

/// What can be asked of a file.
#[derive(Debug, Clone, Copy, PartialEq, Eq)]
pub enum FileXattr {
    Inode(u64),
    Blocks(u16),
    ControlFileRwType(RwType),
    ReadBufferSize(usize),
    WriteBufferSize(usize),
    CacheStatus(CacheStatus),
    CacheSize(usize),
    CacheStartTime(SystemTime),
    CacheCompleteTime(Option<SystemTime>),
    LastDeviceRead(SystemTime),
    CacheEnabled(bool),
}

impl Xattr for FileXattr {
    open spec fn attr_name(&self) -> Seq<char> {
        match *self {
            FileXattr::Inode(_) => "user.file.inode"@,
            FileXattr::ControlFileRwType(_) => "user.file.control_file.rw_type"@,
            FileXattr::ReadBufferSize(_) => "user.file.read_buffer.size"@,
            FileXattr::WriteBufferSize(_) => "user.file.write_buffer.size"@,
            FileXattr::Blocks(_) => "user.file.cbm_blocks.used"@,
            FileXattr::CacheStatus(_) => "user.file.cache.status"@,
            FileXattr::CacheSize(_) => "user.file.cache.size"@,
            FileXattr::CacheStartTime(_) => "user.file.cache.start_time"@,
            FileXattr::CacheCompleteTime(_) => "user.file.cache.complete_time"@,
            FileXattr::LastDeviceRead(_) => "user.file.cache.last_device_read"@,
            FileXattr::CacheEnabled(_) => "user.file.cache.enabled"@,
        }
    }

    open spec fn attr_time(&self) -> Option<SystemTime> {
        match *self {
            FileXattr::CacheStartTime(t) => Some(t),
            FileXattr::LastDeviceRead(t) => Some(t),
            FileXattr::CacheCompleteTime(t) => t,
            _ => None,
        }
    }

    open spec fn attr_value(&self, local: Seq<char>) -> Seq<char> {
        match *self {
            FileXattr::Inode(n) => number::decimal(n as nat),
            FileXattr::ControlFileRwType(t) => t.name(),
            FileXattr::ReadBufferSize(n) => number::decimal(n as nat),
            FileXattr::WriteBufferSize(n) => number::decimal(n as nat),
            FileXattr::Blocks(n) => number::decimal(n as nat),
            FileXattr::CacheStatus(s) => s.name(),
            FileXattr::CacheSize(n) => number::decimal(n as nat),
            FileXattr::CacheStartTime(_) => local,
            FileXattr::LastDeviceRead(_) => local,
            FileXattr::CacheCompleteTime(Some(_)) => local,
            FileXattr::CacheCompleteTime(None) => "incomplete"@,
            FileXattr::CacheEnabled(b) => ipc::bool_text(b),
        }
    }

    fn name(&self) -> (r: &'static str) {
        match self {
            FileXattr::Inode(_) => "user.file.inode",
            FileXattr::ControlFileRwType(_) => "user.file.control_file.rw_type",
            FileXattr::ReadBufferSize(_) => "user.file.read_buffer.size",
            FileXattr::WriteBufferSize(_) => "user.file.write_buffer.size",
            FileXattr::Blocks(_) => "user.file.cbm_blocks.used",
            FileXattr::CacheStatus(_) => "user.file.cache.status",
            FileXattr::CacheSize(_) => "user.file.cache.size",
            FileXattr::CacheStartTime(_) => "user.file.cache.start_time",
            FileXattr::CacheCompleteTime(_) => "user.file.cache.complete_time",
            FileXattr::LastDeviceRead(_) => "user.file.cache.last_device_read",
            FileXattr::CacheEnabled(_) => "user.file.cache.enabled",
        }
    }

    fn time(&self) -> (r: Option<SystemTime>) {
        match self {
            FileXattr::CacheStartTime(t) => Some(*t),
            FileXattr::LastDeviceRead(t) => Some(*t),
            FileXattr::CacheCompleteTime(t) => *t,
            _ => None,
        }
    }

    fn value_with(&self, local: &str) -> (s: String) {
        match self {
            FileXattr::Inode(n) => decimal_string(*n),
            FileXattr::ControlFileRwType(t) => t.as_str().to_owned(),
            FileXattr::ReadBufferSize(n) => decimal_string(*n as u64),
            FileXattr::WriteBufferSize(n) => decimal_string(*n as u64),
            FileXattr::Blocks(n) => decimal_string(*n as u64),
            FileXattr::CacheStatus(s) => s.as_str().to_owned(),
            FileXattr::CacheSize(n) => decimal_string(*n as u64),
            FileXattr::CacheStartTime(_) => local.to_owned(),
            FileXattr::LastDeviceRead(_) => local.to_owned(),
            FileXattr::CacheCompleteTime(Some(_)) => local.to_owned(),
            FileXattr::CacheCompleteTime(None) => "incomplete".to_owned(),
            FileXattr::CacheEnabled(b) => bool_str(*b).to_owned(),
        }
    }
}

} // verus!
