//! The state of a drive that is mounted by itself.
use vstd::prelude::*;

use crate::number;
use crate::number::push_decimal;
use crate::text;
use crate::text::{from_utf8_lossy, trim_matches_char};

verus! {

/// Commodore drives support channels 0 to 15.
pub const NUM_CHANNELS: usize = 16;

/// The length of an error text of the drive.
pub const MAX_ERROR_LENGTH: usize = 48;

/// A channel with its number.
#[derive(Debug, Clone, Copy, PartialEq, Eq, Structural)]
pub struct CbmChannel {
    pub num: u8,
}

impl CbmChannel {
    /// A channel of a number.
    pub fn new(num: u8) -> (c: Self)
        ensures
            c.num == num,
    {
        CbmChannel { num }
    }
}

/// A file on the disk.
#[derive(Debug, Clone, Copy, PartialEq, Eq, Structural)]
pub struct CbmFile {}

/// The state of a drive that is mounted by itself.
#[derive(Debug)]
pub struct CBM {
    /// The kernel's handle for this mount
    pub fuse_fh: i32,
    pub fuse_loop: bool,
    pub fuse_exited: bool,
    /// Where the drive is mounted
    pub mountpoint: String,
    pub daemonize: bool,
    pub is_daemon: bool,
    /// Whether to reset the bus before mounting
    pub force_bus_reset: bool,
    /// Whether to ignore requests to format
    pub dummy_formats: bool,
    /// The handle of the driver
    pub fd: i32,
    pub device_num: u8,
    /// The drive within the device: 0 or 1
    pub drive_num: u8,
    /// Whether the driver was opened
    pub is_initialized: bool,
    /// The last text of the drive
    pub error_buffer: [u8; MAX_ERROR_LENGTH],
    /// The last text that was actually an error
    pub last_error: [u8; MAX_ERROR_LENGTH],
    /// Whether the directory was read
    pub dir_is_clean: bool,
    pub channels: [CbmChannel; NUM_CHANNELS],
    pub files: Vec<CbmFile>,
}

/// `array_init::array_init`: an array whose elements are made from their indices, in
/// order.
#[verifier::external_body]
fn numbered_channels() -> (r: [CbmChannel; NUM_CHANNELS])
    ensures
        forall|i: int| 0 <= i < NUM_CHANNELS ==> (#[trigger] r@[i]).num == i,
{
    array_init::array_init(|i| CbmChannel::new(i as u8))
}

/// Puts the state of a drive that is to be mounted in its place. Its numbers must be in
/// order.
pub fn create_cbm(place: &mut Option<CBM>, mountpoint: &str, device_num: u8, drive_num: u8)
    requires
        8 <= device_num <= 15,
        drive_num <= 1,
    ensures
        *final(place) matches Some(c) && c.is_fresh() && c.mountpoint@ == mountpoint@
            && c.device_num == device_num && c.drive_num == drive_num,
{
    match CBM::new(mountpoint, device_num, drive_num) {
        Ok(c) => {
            *place = Some(c);
        },
        Err(_) => {},
    }
}

impl CBM {
    /// Nothing has been done with the drive yet: it is not open, its directory was not
    /// read, no file is known, and every channel has its number.
    pub open spec fn is_fresh(&self) -> bool {
        &&& self.fuse_fh == -1
        &&& !self.fuse_loop && !self.fuse_exited
        &&& !self.daemonize && !self.is_daemon
        &&& !self.force_bus_reset && !self.dummy_formats
        &&& self.fd == -1
        &&& !self.is_initialized
        &&& !self.dir_is_clean
        &&& self.error_buffer@ == Seq::new(MAX_ERROR_LENGTH as nat, |i: int| 0u8)
        &&& self.last_error@ == Seq::new(MAX_ERROR_LENGTH as nat, |i: int| 0u8)
        &&& forall|i: int| 0 <= i < NUM_CHANNELS ==> (#[trigger] self.channels@[i]).num == i
        &&& self.files@ == Seq::<CbmFile>::empty()
    }

    /// The state of a drive that is to be mounted, where its numbers are in order.
    pub fn new(mountpoint: &str, device_num: u8, drive_num: u8) -> (r: Result<Self, &'static str>)
        ensures
            if !(8 <= device_num <= 15) {
                r matches Err(s) && s@ == "Device number must be between 8 and 15"@
            } else if drive_num > 1 {
                r matches Err(s) && s@ == "Drive number must be 0 or 1"@
            } else {
                r matches Ok(c) && c.is_fresh() && c.mountpoint@ == mountpoint@ && c.device_num
                    == device_num && c.drive_num == drive_num
            },
    {
        if device_num < 8 || device_num > 15 {
            return Err("Device number must be between 8 and 15");
        }
        if drive_num > 1 {
            return Err("Drive number must be 0 or 1");
        }
        let c = CBM {
            fuse_fh: -1,
            fuse_loop: false,
            fuse_exited: false,
            mountpoint: mountpoint.to_owned(),
            daemonize: false,
            is_daemon: false,
            force_bus_reset: false,
            dummy_formats: false,
            fd: -1,
            device_num,
            drive_num,
            is_initialized: false,
            error_buffer: [0u8;MAX_ERROR_LENGTH],
            last_error: [0u8;MAX_ERROR_LENGTH],
            dir_is_clean: false,
            channels: numbered_channels(),
            files: Vec::new(),
        };
        assert(c.error_buffer@ =~= Seq::new(MAX_ERROR_LENGTH as nat, |i: int| 0u8));
        assert(c.last_error@ =~= Seq::new(MAX_ERROR_LENGTH as nat, |i: int| 0u8));
        Ok(c)
    }

    /// The same but for the driver, whether it is open, the directory and the files.
    pub open spec fn same_mount(&self, other: &CBM) -> bool {
        &&& self.fuse_fh == other.fuse_fh
        &&& self.fuse_loop == other.fuse_loop
        &&& self.fuse_exited == other.fuse_exited
        &&& self.mountpoint == other.mountpoint
        &&& self.daemonize == other.daemonize
        &&& self.is_daemon == other.is_daemon
        &&& self.force_bus_reset == other.force_bus_reset
        &&& self.dummy_formats == other.dummy_formats
        &&& self.device_num == other.device_num
        &&& self.drive_num == other.drive_num
        &&& self.error_buffer == other.error_buffer
        &&& self.last_error == other.last_error
        &&& self.channels == other.channels
    }

    /// Forgets the files, and closes the driver where it is to be left clean.
    pub fn destroy(&mut self, clean: bool)
        ensures
            final(self).same_mount(old(self)),
            final(self).dir_is_clean == old(self).dir_is_clean,
            final(self).files@ == Seq::<CbmFile>::empty(),
            if clean && old(self).is_initialized {
                !final(self).is_initialized && final(self).fd == -1
            } else {
                final(self).is_initialized == old(self).is_initialized && final(self).fd == old(
                    self).fd
            },
    {
        if clean {
            self.cbm_destroy();
        }
        self.files.clear();
    }

    fn cbm_destroy(&mut self)
        ensures
            final(self).same_mount(old(self)),
            final(self).dir_is_clean == old(self).dir_is_clean,
            final(self).files == old(self).files,
            if old(self).is_initialized {
                !final(self).is_initialized && final(self).fd == -1
            } else {
                final(self).is_initialized == old(self).is_initialized && final(self).fd == old(
                    self).fd
            },
    {
        if self.is_initialized {
            self.is_initialized = false;
            self.fd = -1;
        }
    }

    /// Opens the driver.
    pub fn _initialize(&mut self)
        ensures
            final(self).same_mount(old(self)),
            final(self).is_initialized,
            final(self).fd == old(self).fd,
            final(self).dir_is_clean == old(self).dir_is_clean,
            final(self).files == old(self).files,
    {
        if !self.is_initialized {
            self.is_initialized = true;
        }
    }

    /// The last error of the drive, as text.
    pub fn _get_last_error(&self) -> (s: String)
        ensures
            s@ == text::without_both(text::lossy_text(self.last_error@), '\0'),
    {
        let s = from_utf8_lossy(self.last_error.as_slice());
        trim_matches_char(s.as_str(), '\0')
    }

    /// Takes the directory to be read.
    pub fn _update_directory(&mut self)
        ensures
            final(self).same_mount(old(self)),
            final(self).dir_is_clean,
            final(self).is_initialized == old(self).is_initialized,
            final(self).fd == old(self).fd,
            final(self).files == old(self).files,
    {
        self.dir_is_clean = true;
    }

    /// The name of the device as the table of mounts shows it.
    pub fn get_device_name(&self) -> (s: String)
        ensures
            s@ == "cbm_dev"@ + number::decimal(self.device_num as nat) + "_drv"@
                + number::decimal(self.drive_num as nat),
    {
        let mut s = "cbm_dev".to_owned();
        push_decimal(&mut s, self.device_num as u64);
        s.append("_drv");
        push_decimal(&mut s, self.drive_num as u64);
        s
    }

    /// The type of file system as the table of mounts shows it.
    pub fn get_sub_type(&self) -> (s: String)
        ensures
            s@ == "1541"@,
    {
        "1541".to_owned()
    }
}

} // verus!
