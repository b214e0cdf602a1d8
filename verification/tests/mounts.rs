use rs1541fs::cbm::CbmDriveUnit;
use rs1541fs::cbmtype::{
    CbmDeviceInfo, CbmDeviceType, CbmError, CbmErrorNumber, CbmFileType, CbmStatus,
};
use rs1541fs::dir::{CbmDirListing, CbmFileEntry};
use rs1541fs::error::{Error, Fs1541Error};
use rs1541fs::server::args::Args;
use rs1541fs::server::bg::{OpResponseType, OpType, Operation, Proc};
use rs1541fs::server::drivemgr::DriveManager;
use rs1541fs::server::file::{
    Buffer, ControlFile, ControlFilePurpose, DiskInfo, FileCache, FileEntry, FileType,
    FUSE_ROOT_ID,
};
use rs1541fs::server::fusermount::{
    FuserMount, ReadDir, ReadDirNext, ReadFile, ReadNext, WaitDir, WaitFile, XattrReply,
};
use rs1541fs::server::inode::number_disks;
use rs1541fs::server::mount::{
    validate_mount_request, validate_unmount_request, Mount, MountOption,
};
use rs1541fs::server::mountsvc::MountService;
use rs1541fs::server::run::{Run, RunAction, RunEvent, RunStep};
use rs1541fs::server::xattr::{DriveXattr, RwType, Xattr, XattrOps};
use rs1541fs::time::{Duration, Instant, SystemTime};
use rs1541fs::validate::{FileMode, PathFacts, UserIds};

fn at(secs: i64) -> SystemTime {
    SystemTime::from_unix(secs, 0).unwrap()
}

fn info(device_type: CbmDeviceType) -> CbmDeviceInfo {
    CbmDeviceInfo { device_type, description: "a drive".to_string() }
}

fn status(text: &str) -> CbmStatus {
    CbmStatus::new(text, 8).unwrap()
}

fn mounted(device_type: CbmDeviceType) -> Mount {
    let mut mount = Mount::new(8, "/mnt/disk", false);
    let results = vec![Ok(status("00,OK,00,00"))];
    assert_eq!(mount.mount(&results, info(device_type), at(100)), Ok(true));
    mount
}

fn listing(drive: u8) -> CbmDirListing {
    CbmDirListing::parse(&format!(
        "{drive} .\"disk\" id 2a\n2 \"first\" prg\n3 \"second\" seq\n0 blocks free"
    ))
    .unwrap()
}

fn directory(drives: &[u8]) -> Result<OpResponseType, Error> {
    Ok(OpResponseType::ReadDirectory {
        status: status("00,OK,00,00"),
        listings: drives.iter().map(|d| listing(*d)).collect(),
    })
}

fn contents(inode: u64, bytes: &[u8]) -> Result<OpResponseType, Error> {
    Ok(OpResponseType::ReadFile {
        device: 8,
        path: "first".to_string(),
        inode,
        status: status("00,OK,00,00"),
        contents: bytes.to_vec(),
    })
}

fn fuse() -> FuserMount {
    FuserMount::new(&Args::default())
}

#[test]
fn test_mount_texts() {
    let mount = mounted(CbmDeviceType::Cbm1541);
    assert_eq!(mount.to_string(), "Mount { device_num: 8, path: /mnt/disk }");
    assert_eq!(mount.fs_name(), "cbm_1541_u8");
    assert_eq!(mounted(CbmDeviceType::Cbm4040).fs_name(), "cbm_4040_u8_d0_d1");
    assert_eq!(Mount::new(9, "/x", false).fs_name(), "cbm_u9");
    assert_eq!(mount.get_device_num(), 8);
    assert_eq!(mount.get_mountpoint(), "/mnt/disk");
}

#[test]
fn test_inodes_are_allocated() {
    let mut mount = Mount::new(9, "/x", false);
    assert_eq!((mount.allocate_inode(), mount.allocate_inode()), (256, 257));
}

#[test]
fn test_mount_options() {
    let mount = mounted(CbmDeviceType::Cbm1541);
    let options = mount.fuser_mount_options(false);
    assert_eq!(options.len(), 8);
    assert!(matches!(options[0], MountOption::RO));
    match (&options[6], &options[7]) {
        (MountOption::FSName(name), MountOption::Subtype(sub)) => {
            assert_eq!((name.as_str(), sub.as_str()), ("cbm_1541_u8", "1541fs"))
        }
        other => panic!("{:?}", other),
    }
    let options = mount.fuser_mount_options(true);
    assert!(matches!(options[8], MountOption::AllowRoot));
    assert!(matches!(options[9], MountOption::AutoUnmount));
}

#[test]
fn test_mount_fails() {
    let mut mount = Mount::new(8, "/mnt", false);
    let ignore = mount.begin_mount().unwrap();
    assert_eq!(ignore.len(), 9);
    assert!(ignore.contains(&CbmErrorNumber::DriveNotReady));
    assert!(!ignore.contains(&CbmErrorNumber::WriteProtectOn));
    let error = mount.mount(&vec![], info(CbmDeviceType::Cbm1541), at(0)).unwrap_err();
    assert_eq!(
        error.to_string(),
        "Failed to initialize any drive units for device 8 | fs1541 error: Operation error: init_drive() returned OK, but no status response(s) - perhas the device has no drives?"
    );
    let failure = Error::Rs1541 {
        message: "Failed to initialize drive 8".to_string(),
        error: CbmError::TimeoutError { device: 8 },
    };
    let results = vec![Ok(status("74,DRIVE NOT READY,00,00")), Err(failure)];
    let error = mount.mount(&results, info(CbmDeviceType::Cbm4040), at(0)).unwrap_err();
    assert_eq!(
        error.to_string(),
        "Hit error initializing device 8 drive unit 1 | fs1541 error: Operation error: Failed to initialize drive 8 | rs1541 error: Device 8: Operation timed out"
    );
    let results = vec![Ok(status("74,DRIVE NOT READY,00,00"))];
    assert_eq!(mount.mount(&results, info(CbmDeviceType::Cbm1541), at(0)), Ok(false));
    mount.update_fuser();
    assert!(mount
        .begin_mount()
        .unwrap_err()
        .to_string()
        .contains("Trying to mount an already mounted Mount object /mnt"));
    mount.unmount();
    assert!(mount.begin_mount().is_ok());
}

#[test]
fn test_inodes_are_given() {
    let mut mount = mounted(CbmDeviceType::Cbm4040);
    assert_eq!(mount.num_drives(), 2);
    let dirs: Vec<u64> = (0..2).map(|d| mount.get_drive_dir(d).unwrap().inode()).collect();
    assert_eq!(dirs, vec![2, 3]);
    assert!(mount.get_drive_dir(2).is_none());
    let controls: Vec<u64> = mount.get_drive_files(1).iter().map(|f| f.inode()).collect();
    assert_eq!(controls, vec![262, 263, 264, 265, 266, 267]);
    mount.process_bg_response(directory(&[0, 1]), at(200));
    let all: Vec<u64> = (0..2)
        .flat_map(|d| mount.get_drive_files(d))
        .map(|f| f.inode())
        .collect();
    assert_eq!(all.len(), 16);
    let mut sorted = all.clone();
    sorted.sort();
    sorted.dedup();
    assert_eq!(sorted.len(), 16);
    for ino in all {
        assert_eq!(mount.file_by_inode(ino).unwrap().inode(), ino);
        assert_eq!(mount.get_drive_num_by_inode(ino), None);
    }
    assert_eq!(mount.get_drive_num_by_inode(3), Some(1));
    assert!(mount.file_by_inode(FUSE_ROOT_ID).is_none());
    assert!(mount.file_by_inode(0).is_none());
    let again: Vec<u64> = mount.get_drive_files(1).iter().map(|f| f.inode()).take(6).collect();
    assert_eq!(again, controls);
}

#[test]
fn test_numbering_is_done_once() {
    let inodes = |disks: &Vec<DiskInfo>| -> Vec<u64> {
        disks.iter().flat_map(|d| d.control_files.iter().map(|f| f.inode())).collect()
    };
    let mut disks = vec![DiskInfo::new(0, at(0)), DiskInfo::new(1, at(0))];
    disks[1].add_disk_dir(at(0));
    disks[1].disk_dir.as_mut().unwrap().set_inode(0);
    disks[0].control_files[2].set_inode(256);
    assert_eq!(number_disks(&mut disks, 300), 311);
    let first = vec![300, 301, 256, 302, 303, 304, 305, 306, 307, 308, 309, 310];
    assert_eq!(inodes(&disks), first);
    assert_eq!(disks[1].disk_dir.as_ref().unwrap().inode(), 3);
    assert_eq!(number_disks(&mut disks, 311), 311);
    assert_eq!(inodes(&disks), first);
}

#[test]
fn test_listings_of_other_drives_are_passed_over() {
    let mut mount = mounted(CbmDeviceType::Cbm1541);
    mount.set_dir_outstanding(true);
    mount.process_bg_response(directory(&[2, 0]), at(200));
    assert!(!mount.dir_outstanding);
    assert_eq!(mount.get_drive_files(0).len(), 8);
    let failed = Err(Error::Io { message: String::new(), error: String::new() });
    mount.process_bg_response(failed, at(300));
    assert_eq!(mount.get_drive_files(0).len(), 8);
}

#[test]
fn test_requests_for_the_directory() {
    let mut mount = mounted(CbmDeviceType::Cbm1541);
    assert!(matches!(mount.dir_request(), Some(OpType::ReadDirectory { device: 8 })));
    let error = mount.do_dir_sync(Some(Err("full".to_string()))).unwrap_err();
    assert_eq!(
        error.to_string(),
        "Failed to send read diretory request | fs1541 error: Operation error: full"
    );
    assert!(mount.do_dir_sync(Some(Ok(()))).is_ok());
    assert!(mount.dir_request().is_none());
    assert!(mount.do_dir_sync(None).is_ok());
    mount.set_dir_outstanding(false);
    mount.do_dir(false);
    assert!(mount.dir_request().is_some());
    mount.do_dir(true);
    assert!(mount.dir_request().is_none());
}

#[test]
fn test_responses_are_waited_for_once() {
    let mut mount = mounted(CbmDeviceType::Cbm1541);
    assert!(mount.create_bg_response_thread().unwrap_err().to_string().contains("Missing either"));
    assert!(mount.set_shared_self().is_ok());
    assert!(mount.set_shared_self().unwrap_err().to_string().contains("already exists"));
    assert!(mount.create_bg_response_thread().is_ok());
    assert!(mount.create_bg_response_thread().is_err());
    mount.has_receiver = true;
    assert!(mount
        .create_bg_response_thread()
        .unwrap_err()
        .to_string()
        .contains("Already exists"));
}

#[test]
fn test_statuses_are_kept() {
    let mut mount = mounted(CbmDeviceType::Cbm1541);
    let value = |mount: &Mount, name: &str| {
        XattrOps::getxattr_from_vec(mount.drive_xattrs(), name)
            .map(|v| String::from_utf8(v).unwrap())
    };
    assert_eq!(value(&mount, "user.device.last_status.status"), None);
    mount.update_last_status(&status("00,OK,00,00"), at(1));
    assert_eq!(
        value(&mount, "user.device.last_status.status"),
        Some("00,OK,00,00".to_string())
    );
    assert_eq!(value(&mount, "user.device.last_error.status"), None);
    mount.update_last_status(&status("21,READ ERROR,18,00"), at(2));
    mount.update_last_status(&status("00,OK,00,00"), at(3));
    assert_eq!(
        value(&mount, "user.device.last_error.status"),
        Some("21,READ ERROR,18,00".to_string())
    );
    assert_eq!(
        value(&mount, "user.device.last_status.status"),
        Some("00,OK,00,00".to_string())
    );
    assert_eq!(value(&mount, "user.mount.fs_name"), Some("cbm_1541_u8".to_string()));
    // The year is the same wherever the machine is
    let time = value(&mount, "user.mount.mount_time").unwrap();
    assert!(time.ends_with("1970") || time.ends_with("1969"), "{time}");
}

#[test]
fn test_times_are_shown_where_the_machine_is() {
    let secs = 1_741_435_200;
    let then = std::time::UNIX_EPOCH + std::time::Duration::from_secs(secs as u64);
    let local = chrono::DateTime::<chrono::Local>::from(then);
    let expected = local.format("%a %b %d %H:%M:%S %Z %Y").to_string();
    let list = vec![DriveXattr::NumDrives(2), DriveXattr::MountTime(at(secs))];
    assert_eq!(
        XattrOps::getxattr_from_vec(&list, "user.mount.mount_time"),
        Some(expected.clone().into_bytes())
    );
    assert_eq!(list[1].describe(), format!("user.mount.mount_time: {expected}"));
    let offset = local.offset().local_minus_utc();
    assert_eq!(at(secs).offset_text(offset), expected);
}

#[test]
fn test_attributes_are_replaced_and_removed() {
    let mut list = vec![DriveXattr::DeviceNumber(8), DriveXattr::NumDrives(1)];
    XattrOps::add_or_replace(&mut list, DriveXattr::DeviceNumber(9));
    XattrOps::add_or_replace(&mut list, DriveXattr::FsName("x".to_string()));
    assert_eq!(list.len(), 3);
    assert_eq!(list[0].describe(), "user.device.number: 9");
    assert_eq!(
        XattrOps::listxattr_from_vec(&list),
        b"user.device.number\0user.device.drives\0user.mount.fs_name\0"
    );
    assert!(XattrOps::remove(&mut list, "user.device.drives").is_some());
    assert!(XattrOps::remove(&mut list, "user.device.drives").is_none());
    assert_eq!(list.len(), 2);
}

#[test]
fn test_directory_is_refreshed() {
    let mut mount = mounted(CbmDeviceType::Cbm1541);
    let minute = Duration::from_secs(60);
    assert!(mount.should_refresh_dir(0, minute, at(100)));
    assert!(!mount.should_refresh_dir(1, minute, at(100)));
    mount.process_bg_response(directory(&[0]), at(100));
    assert!(!mount.should_refresh_dir(0, minute, at(159)));
    assert!(mount.should_refresh_dir(0, minute, at(160)));
    assert!(mount.should_refresh_dir(0, minute, at(99)));
}

#[test]
fn test_settings() {
    let fuse = fuse();
    assert_eq!(fuse.counts.dir_check, 10);
    assert_eq!(fuse.counts.file_check, 30);
    assert_eq!(fuse.timers.dir_cache, Duration::from_secs(60));
    assert_eq!(fuse.timers.file_cache, Duration::from_secs(300));
    assert_eq!(fuse.ttls.dir_attr, Duration::from_secs(5));
}

#[test]
fn test_lookup_and_attributes() {
    let fuse = fuse();
    let mut mount = mounted(CbmDeviceType::Cbm1541);
    mount.process_bg_response(directory(&[0]), at(200));
    let (ttl, attr) = fuse
        .lookup(&mount, FUSE_ROOT_ID, Some("first.prg"), at(300), 1000)
        .unwrap();
    assert_eq!(ttl, Duration::from_secs(5));
    assert_eq!(attr.size, 2 * 254);
    assert_eq!(attr.blocks, 1);
    assert_eq!(attr.perm, 0o444);
    assert_eq!((attr.uid, attr.gid), (1000, 1000));
    assert_eq!(fuse.getattr(&mount, attr.ino, at(300), 1000).unwrap().1, attr);
    assert_eq!(fuse.lookup(&mount, FUSE_ROOT_ID, Some("none"), at(300), 0), Err(libc::ENOENT));
    assert_eq!(fuse.lookup(&mount, FUSE_ROOT_ID, None, at(300), 0), Err(libc::ENOENT));
    assert_eq!(fuse.lookup(&mount, 2, Some("first.prg"), at(300), 0), Err(libc::ENOENT));
    assert_eq!(fuse.getattr(&mount, 9999, at(300), 0), Err(libc::ENOENT));
    let root = fuse.getattr(&mount, FUSE_ROOT_ID, at(300), 0).unwrap().1;
    assert_eq!((root.kind, root.perm), (FileType::Directory, 0o755));
}

#[test]
fn test_lookup_in_many_drives() {
    let fuse = fuse();
    let mut mount = mounted(CbmDeviceType::Cbm4040);
    mount.process_bg_response(directory(&[1]), at(200));
    let (_, dir) = fuse.lookup(&mount, FUSE_ROOT_ID, Some("1"), at(300), 0).unwrap();
    assert_eq!((dir.ino, dir.kind), (3, FileType::Directory));
    assert!(fuse.lookup(&mount, 3, Some("second.seq"), at(300), 0).is_ok());
    assert_eq!(fuse.lookup(&mount, 2, Some("second.seq"), at(300), 0), Err(libc::ENOENT));
    assert_eq!(fuse.lookup(&mount, 256, Some("second.seq"), at(300), 0), Err(libc::ENOENT));
}

#[test]
fn test_directories_are_read() {
    let fuse = fuse();
    let mut mount = mounted(CbmDeviceType::Cbm4040);
    match fuse.dir_source(&mount, FUSE_ROOT_ID) {
        ReadDir::Files(files) => {
            let entries = FuserMount::dir_entries(FUSE_ROOT_ID, &files, 0);
            let names: Vec<&str> = entries.iter().map(|e| e.name.as_str()).collect();
            assert_eq!(names, vec![".", "..", "0", "1"]);
            let offsets: Vec<i64> = entries.iter().map(|e| e.offset).collect();
            assert_eq!(offsets, vec![1, 2, 3, 4]);
            assert!(entries.iter().all(|e| e.kind == FileType::Directory));
            let inodes: Vec<u64> = entries.iter().map(|e| e.ino).collect();
            assert_eq!(inodes, vec![FUSE_ROOT_ID, FUSE_ROOT_ID, 2, 3]);
        }
        other => panic!("{:?}", other),
    }
    assert!(matches!(fuse.dir_source(&mount, 3), ReadDir::Drive(1)));
    assert!(matches!(fuse.dir_source(&mount, 256), ReadDir::Fail(n) if n == libc::ENOTDIR));
    assert!(matches!(fuse.dir_source(&mount, 99), ReadDir::Fail(n) if n == libc::ENOENT));
    assert!(matches!(
        fuse.dir_source(&mounted(CbmDeviceType::Cbm1541), 99),
        ReadDir::Drive(0)
    ));
    assert!(fuse.needs_refresh(&mount, 0, at(200)));
    mount.process_bg_response(directory(&[0]), at(200));
    assert!(!fuse.needs_refresh(&mount, 0, at(201)));
    let files = mount.get_drive_files(0);
    let all = FuserMount::dir_entries(2, &files, 0);
    assert_eq!((all[0].name.as_str(), all[0].ino, all[0].offset), ("..", FUSE_ROOT_ID, 1));
    assert_eq!(all[0].kind, FileType::Directory);
    let rest = FuserMount::dir_entries(2, &files, all[2].offset);
    assert_eq!(all.len(), 9);
    assert_eq!(rest.len(), 6);
    assert_eq!(rest[0].ino, all[3].ino);
    assert!(FuserMount::dir_entries(2, &files, 9).is_empty());
    assert!(FuserMount::dir_entries(2, &files, -1).is_empty());
    assert_eq!(FuserMount::dir_entries(2, &vec![], 0).len(), 1);
    assert_eq!(FuserMount::dir_entries(FUSE_ROOT_ID, &vec![], 0).len(), 2);
}

#[test]
fn test_directories_are_waited_for() {
    let fuse = fuse();
    let mut mount = mounted(CbmDeviceType::Cbm1541);
    assert!(matches!(fuse.wait_for_dir_refresh(&mount, 0, 0, at(200)), WaitDir::Sleep));
    let error = match fuse.wait_for_dir_refresh(&mount, 0, 10, at(200)) {
        WaitDir::TimedOut(e) => e,
        other => panic!("{:?}", other),
    };
    assert_eq!(
        error.to_string(),
        "Directory re-read timed out | fs1541 error: Timeout error:  Timer duration: 10s"
    );
    assert_eq!(fuse.after_wait(&Err(error)), Ok(()));
    assert_eq!(fuse.after_wait(&Ok(())), Ok(()));
    let other = Err(Error::Io { message: String::new(), error: String::new() });
    assert_eq!(fuse.after_wait(&other), Err(libc::EIO));
    mount.process_bg_response(directory(&[0]), at(200));
    assert!(matches!(fuse.wait_for_dir_refresh(&mount, 0, 9, at(259)), WaitDir::Fresh));
    assert!(matches!(fuse.wait_for_dir_refresh(&mount, 0, 9, at(260)), WaitDir::Sleep));
    assert!(matches!(fuse.wait_for_dir_refresh(&mount, 0, 9, at(199)), WaitDir::Sleep));
}

#[test]
fn test_reading_a_directory_to_the_end() {
    let fuse = fuse();
    let mut mount = mounted(CbmDeviceType::Cbm1541);
    let names = |next: ReadDirNext| match next {
        ReadDirNext::Reply(entries) => entries.iter().map(|e| e.name.clone()).collect::<Vec<_>>(),
        other => panic!("{:?}", other),
    };
    let first = match fuse.readdir(&mount, FUSE_ROOT_ID, 8, at(200)) {
        ReadDirNext::Request(s) => s,
        other => panic!("{:?}", other),
    };
    let mut s = match fuse.dir_requested(&mut mount, first, Some(Ok(())), at(200)) {
        ReadDirNext::Sleep(s) => s,
        other => panic!("{:?}", other),
    };
    assert!(mount.dir_request().is_none());
    let mut looks = 1;
    while let ReadDirNext::Sleep(t) = fuse.dir_slept(&mount, s, at(201)) {
        s = t;
        looks += 1;
    }
    assert_eq!((looks, s.count), (10, 10));
    assert!(names(fuse.dir_slept(&mount, s, at(201))).is_empty());
    mount.process_bg_response(directory(&[0]), at(202));
    assert_eq!(names(fuse.dir_slept(&mount, first, at(203))), vec!["first.prg", "second.seq"]);
    assert_eq!(names(fuse.readdir(&mount, FUSE_ROOT_ID, 9, at(203))), vec!["second.seq"]);
    let whole = names(fuse.readdir(&mount, FUSE_ROOT_ID, 0, at(203)));
    assert_eq!(whole.len(), 10);
    assert_eq!(whole[..2], [".", ".."]);
    let unsent = Some(Err("closed".to_string()));
    assert_eq!(names(fuse.dir_requested(&mut mount, first, unsent, at(900))).len(), 2);
    assert!(matches!(
        fuse.readdir(&mounted(CbmDeviceType::Cbm4040), 99, 0, at(203)),
        ReadDirNext::Fail(n) if n == libc::ENOENT
    ));
}

fn data(reply: Result<XattrReply, i32>) -> Vec<u8> {
    match reply {
        Ok(XattrReply::Data(data)) => data,
        other => panic!("{:?}", other),
    }
}

#[test]
fn test_extended_attributes() {
    let fuse = fuse();
    let mut mount = mounted(CbmDeviceType::Cbm1541);
    mount.process_bg_response(directory(&[0]), at(200));
    let names = String::from_utf8(data(fuse.listxattr(&mount, FUSE_ROOT_ID, 9999))).unwrap();
    assert!(names.contains("user.device.model\0"));
    assert!(names.ends_with("user.disk.cbm_blocks.total\0"));
    match fuse.listxattr(&mount, FUSE_ROOT_ID, 0) {
        Ok(XattrReply::Size(n)) => assert_eq!(n as usize, names.len()),
        other => panic!("{:?}", other),
    }
    assert_eq!(fuse.listxattr(&mount, FUSE_ROOT_ID, 5).unwrap_err(), libc::ERANGE);
    assert_eq!(fuse.listxattr(&mount, 9999, 0).unwrap_err(), libc::ENOENT);
    let get = |ino: u64, name: &str| fuse.getxattr(&mount, ino, Some(name), 100);
    assert_eq!(data(get(FUSE_ROOT_ID, "user.device.model")), b"1541");
    assert_eq!(data(get(FUSE_ROOT_ID, "user.disk.cbm_blocks.used")), b"5");
    assert_eq!(get(FUSE_ROOT_ID, "user.nothing").unwrap_err(), libc::ENODATA);
    assert_eq!(get(9999, "user.file.inode").unwrap_err(), libc::ENOENT);
    assert_eq!(fuse.getxattr(&mount, 256, None, 9).unwrap_err(), libc::ENODATA);
    assert_eq!(data(get(262, "user.file.inode")), b"262");
    assert_eq!(data(get(262, "user.file.cbm_blocks.used")), b"2");
    assert_eq!(data(get(262, "user.file.cache.status")), b"Uncached");
}

#[test]
fn test_extended_attributes_of_directories() {
    let fuse = fuse();
    let mut mount = mounted(CbmDeviceType::Cbm8250);
    mount.process_bg_response(directory(&[1]), at(200));
    let names = String::from_utf8(data(fuse.listxattr(&mount, 3, 9999))).unwrap();
    assert!(names.starts_with("user.file.inode\0"));
    assert!(names.contains("user.disk.header_name\0"));
    assert_eq!(data(fuse.getxattr(&mount, 3, Some("user.disk.header_name"), 99)), b"disk");
    assert_eq!(data(fuse.getxattr(&mount, 3, Some("user.file.inode"), 99)), b"3");
    let at_root = fuse.getxattr(&mount, FUSE_ROOT_ID, Some("user.disk.header_name"), 99);
    assert_eq!(at_root.unwrap_err(), libc::ENODATA);
}

#[test]
fn test_files_are_read() {
    let fuse = fuse();
    let mut mount = mounted(CbmDeviceType::Cbm1541);
    mount.process_bg_response(directory(&[0]), at(200));
    match fuse.file_source(&mount, 262, at(201)) {
        ReadFile::Ask(OpType::ReadFile { device, path, inode }) => {
            assert_eq!((device, path.as_str(), inode), (8, "first", 262))
        }
        other => panic!("{:?}", other),
    }
    assert!(matches!(fuse.wait_for_file_read(&mount, 262, 0, at(202)), WaitFile::Sleep));
    match fuse.wait_for_file_read(&mount, 262, 30, at(202)) {
        WaitFile::TimedOut(e) => assert_eq!(e.to_fuse_reply_error(), libc::ETIMEDOUT),
        other => panic!("{:?}", other),
    }
    mount.process_bg_response(contents(262, b"hello, world"), at(203));
    match fuse.wait_for_file_read(&mount, 262, 1, at(204)) {
        WaitFile::Data(data) => assert_eq!(data, b"hello, world"),
        other => panic!("{:?}", other),
    }
    match fuse.file_source(&mount, 262, at(502)) {
        ReadFile::Data(data) => {
            assert_eq!(FuserMount::read_part(&data, 0, 5), b"hello");
            assert_eq!(FuserMount::read_part(&data, 7, 100), b"world");
            assert_eq!(FuserMount::read_part(&data, 12, 1), b"");
            assert_eq!(FuserMount::read_part(&data, -1, 1), b"");
        }
        other => panic!("{:?}", other),
    }
    assert!(matches!(fuse.file_source(&mount, 262, at(503)), ReadFile::Ask(_)));
    assert!(matches!(fuse.file_source(&mount, 263, at(204)), ReadFile::Ask(_)));
    assert!(matches!(fuse.file_source(&mount, 9999, at(204)), ReadFile::Fail(n) if n == libc::ENOENT));
}

#[test]
fn test_reading_a_file_to_the_end() {
    let fuse = fuse();
    let mut mount = mounted(CbmDeviceType::Cbm1541);
    mount.process_bg_response(directory(&[0]), at(200));
    let first = match fuse.read(&mount, 262, 7, 3, at(201)) {
        ReadNext::Request(s, OpType::ReadFile { path, .. }) => {
            assert_eq!(path, "first");
            s
        }
        other => panic!("{:?}", other),
    };
    let unsent = Err(Error::Io { message: String::new(), error: String::new() });
    assert!(matches!(
        fuse.file_requested(&mount, first, &unsent, at(201)),
        ReadNext::Fail(n) if n == libc::EIO
    ));
    let mut s = match fuse.file_requested(&mount, first, &Ok(()), at(201)) {
        ReadNext::Sleep(s) => s,
        other => panic!("{:?}", other),
    };
    while let ReadNext::Sleep(t) = fuse.file_slept(&mount, s, at(201)) {
        s = t;
    }
    assert!(matches!(
        fuse.file_slept(&mount, s, at(201)),
        ReadNext::Fail(n) if n == libc::ETIMEDOUT
    ));
    mount.process_bg_response(contents(262, b"hello, world"), at(203));
    match fuse.file_slept(&mount, first, at(204)) {
        ReadNext::Reply(data) => assert_eq!(data, b"wor"),
        other => panic!("{:?}", other),
    }
    match fuse.read(&mount, 262, 0, 5, at(204)) {
        ReadNext::Reply(data) => assert_eq!(data, b"hello"),
        other => panic!("{:?}", other),
    }
    assert!(matches!(
        fuse.read(&mount, 9999, 0, 5, at(204)),
        ReadNext::Fail(n) if n == libc::ENOENT
    ));
}

#[test]
fn test_control_files_are_read() {
    let fuse = fuse();
    let mount = mounted(CbmDeviceType::Cbm4040);
    // The first three control files tell a status, and the fourth how commands are run
    assert!(matches!(fuse.file_source(&mount, 256, at(0)), ReadFile::Fail(n) if n == libc::EACCES));
    match fuse.file_source(&mount, 259, at(0)) {
        ReadFile::Data(data) => {
            let words = String::from_utf8(data).unwrap();
            assert!(words.starts_with("To run a drive command"));
            assert!(words.ends_with(".exec_command.rw\n"));
        }
        other => panic!("{:?}", other),
    }
    assert!(matches!(fuse.file_source(&mount, 2, at(0)), ReadFile::Fail(n) if n == libc::EISDIR));
    assert_eq!(fuse.open(&mount, 256), Ok(256));
    assert_eq!(fuse.open(&mount, 2), Err(libc::ENOENT));
    assert_eq!(fuse.open(&mount, FUSE_ROOT_ID), Err(libc::EISDIR));
    assert_eq!(fuse.release(&mount, 9999), Err(libc::ENOENT));
    assert_eq!(fuse.flush(&mount, 257), Ok(()));
}

#[test]
fn test_file_entries() {
    let file = CbmFileEntry::ValidFile {
        blocks: 3,
        filename: "game".to_string(),
        file_type: CbmFileType::PRG,
    };
    let entry = FileEntry::from_cbm_file_entry(&file, 300, at(5)).unwrap();
    assert_eq!(entry.fuse.name, "game.prg");
    assert!(entry.open(libc::O_RDONLY).is_ok());
    assert_eq!(
        entry.open(libc::O_WRONLY).unwrap_err().to_fuse_reply_error(),
        libc::EROFS
    );
    assert_eq!(
        entry.open(libc::O_RDWR).unwrap_err().to_fuse_reply_error(),
        libc::EINVAL
    );
    let directory = FileEntry::from_directory(1, 3, at(5));
    assert_eq!(
        directory.open(libc::O_RDONLY).unwrap_err().to_fuse_reply_error(),
        libc::EISDIR
    );
    let control = ControlFile::new(ControlFilePurpose::ExecFormatDrive);
    assert_eq!(control.filename(), ".exec_format_drive.rw");
    assert_eq!(control.rw_type(), RwType::ReadWrite);
    assert_eq!(control.permissions(), 0o666);
    assert_eq!(control.size(), control.read_static().unwrap().len() as u64);
    let entry = FileEntry::from_control_file_purpose(ControlFilePurpose::ExecDirRefresh, 260, at(5));
    assert!(entry.open(libc::O_WRONLY).is_ok());
    assert!(entry.open(libc::O_RDONLY).is_ok());
    assert!(entry.open(libc::O_RDWR).is_err());
    let purpose = ControlFilePurpose::GetLastErrorStatus;
    let reading = FileEntry::from_control_file_purpose(purpose, 261, at(5));
    assert!(reading.open(libc::O_RDONLY).is_ok());
    assert_eq!(
        reading.open(libc::O_WRONLY).unwrap_err().to_fuse_reply_error(),
        libc::EROFS
    );
    assert_eq!(ControlFilePurpose::list().len(), 6);
    let mut entry = entry;
    let name = entry.fuse.name.clone();
    match entry.write(b"x").unwrap_err() {
        Error::Fs1541 { message, error: Fs1541Error::FileAccess(file) } => {
            assert_eq!((message.as_str(), file), ("No buffer to write to", name))
        }
        other => panic!("{:?}", other),
    }
    entry.write_buffer = Some(Buffer::new_write());
    assert_eq!(entry.write(b"xyz"), Ok(3));
    assert_eq!(entry.write_buffer.as_ref().unwrap().data, b"xyz");
}

#[test]
fn test_buffers_and_caches() {
    let mut buffer = Buffer::new_write();
    assert_eq!(buffer.write(b"ab"), Ok(2));
    assert_eq!(buffer.write(b"c"), Ok(1));
    assert_eq!(buffer.data, b"abc");
    buffer.mark_complete();
    assert!(buffer.write(b"d").is_err());
    assert!(buffer.read(0, 1).is_err());
    let mut buffer = Buffer::new_read();
    assert!(buffer.write(b"a").is_err());
    buffer.data = b"hello".to_vec();
    assert_eq!(buffer.read(1, 3).unwrap(), b"ell");
    assert_eq!(buffer.read(3, usize::MAX).unwrap(), b"lo");

    let mut cache = FileCache::new(at(0));
    cache.add_chunk(&[1, 2, 3, 4], false, at(1));
    assert!(!cache.is_fully_cached());
    assert_eq!(cache.get_data_complete_and_fresh(&Duration::from_secs(9), &at(1)), None);
    cache.add_chunk(&[5, 6], true, at(2));
    assert!(cache.is_fully_cached());
    assert_eq!(cache.len(), 6);
    assert_eq!(
        cache.get_data_complete_and_fresh(&Duration::from_secs(9), &at(10)),
        Some(&vec![1, 2, 3, 4, 5, 6])
    );
    assert_eq!(cache.get_data_complete_and_fresh(&Duration::from_secs(9), &at(11)), None);
}

fn unit(device: u8) -> CbmDriveUnit {
    CbmDriveUnit::new(device, CbmDeviceType::Cbm1541)
}

#[test]
fn test_drives_are_managed() {
    let mut drives = DriveManager::new();
    assert!(drives.add_drive(8, Ok(unit(8))).is_ok());
    let other = CbmDriveUnit::new(8, CbmDeviceType::Cbm4040);
    assert_eq!(
        drives.add_drive(8, Ok(other)).unwrap_err().to_string(),
        "Failed to add drive unit 8 | fs1541 error: Operation error: Drive 8 already exists"
    );
    assert_eq!(drives.get_drive(8).unwrap().device_type, CbmDeviceType::Cbm1541);
    assert_eq!(
        drives.add_drive(16, Ok(unit(16))).unwrap_err().to_string(),
        "Invalid device number 16 | fs1541 error: Validation error: Device number must be 8-15"
    );
    let lost = Err(CbmError::TimeoutError { device: 9 });
    assert_eq!(
        drives.add_drive(9, lost).unwrap_err().to_string(),
        "Failed to create drive 9 | rs1541 error: Device 9: Operation timed out"
    );
    assert!(drives.drive_exists(8));
    assert!(drives.validate_drive(8).is_ok());
    assert_eq!(
        drives.validate_drive(9).unwrap_err().to_string(),
        "Drive 9 not found | fs1541 error: Validation error: Drive does not exist"
    );
    assert_eq!(drives.get_drive(8).unwrap().device_number, 8);
    let mut busy = unit(10);
    assert!(busy.reset().is_ok());
    assert!(drives.add_drive(10, Ok(busy)).is_ok());
    assert_eq!(
        drives.remove_drive(10).unwrap_err().to_string(),
        "Drive 10 is busy | fs1541 error: Operation error: Drive is busy"
    );
    assert_eq!(drives.connected_drives(), vec![8, 10]);
    assert!(drives.remove_drive(8).is_ok());
    assert!(drives.remove_drive(8).is_err());
    drives.cleanup_drives();
    assert!(drives.connected_drives().is_empty());
}

#[test]
fn test_answers_of_drives() {
    let mut drives = DriveManager::new();
    drives.add_drive(8, Ok(unit(8))).unwrap();
    let lost = || CbmError::TimeoutError { device: 8 };
    assert!(drives
        .identify_drive(8, Err(lost()))
        .unwrap_err()
        .to_string()
        .starts_with("Failed to identify drive 8"));
    assert!(drives
        .get_drive_status(8, Err(lost()))
        .unwrap_err()
        .to_string()
        .starts_with("Failed to get status for drive 8"));
    assert!(drives
        .reset_bus(Err(lost()))
        .unwrap_err()
        .to_string()
        .starts_with("Failed to reset bus"));
    assert!(drives.init_drive(9, vec![]).is_err());
    assert!(drives.drives.get_mut(&8).unwrap().reset().is_ok());
    assert!(drives.remove_drive(8).is_err());
    let results = drives
        .init_drive(8, vec![Ok(status("00,OK,00,00")), Err(lost())])
        .unwrap();
    assert_eq!(results[0], Ok(status("00,OK,00,00")));
    assert!(results[1]
        .as_ref()
        .unwrap_err()
        .to_string()
        .starts_with("Failed to initialize drive 8"));
    assert!(!drives.get_drive(8).unwrap().is_busy());
    assert!(drives.remove_drive(8).is_ok());
}

fn mount_at(
    service: &mut MountService,
    drives: &mut DriveManager,
    device: u8,
    path: &str,
) -> Result<(), Error> {
    let (mut mount, _) = service.begin_mount(drives, device, path, false, Ok(unit(device)))?;
    let results = drives.init_drive(device, vec![Ok(status("00,OK,00,00"))]);
    let info = info(CbmDeviceType::Cbm1541);
    service.drives_initialized(drives, &mut mount, results, info, at(9))?;
    service.finish_mount(drives, mount, Ok(()))
}

#[test]
fn test_drives_are_mounted_and_unmounted() {
    let mut drives = DriveManager::new();
    let mut service = MountService::new();
    mount_at(&mut service, &mut drives, 8, "/a").unwrap();
    mount_at(&mut service, &mut drives, 9, "/b").unwrap();
    assert_eq!(service.get_mount("/b").unwrap().get_device_num(), 9);
    assert_eq!(
        service.get_mount_from_device_num(8).unwrap().get_mountpoint(),
        "/a"
    );
    assert!(service.get_mount("/a").unwrap().mounted);
    assert_eq!(
        service.get_mount("/c").unwrap_err().to_string(),
        "Mountpoint /c not found | fs1541 error: Operation error: Mountpoint not found"
    );
    assert_eq!(
        service.unmount(&mut drives, Some(10), None, false).unwrap_err().to_string(),
        "Device 10 not found | fs1541 error: Operation error: Device not found"
    );
    assert_eq!(
        mount_at(&mut service, &mut drives, 8, "/d").unwrap_err().to_string(),
        "Failed to add drive unit 8 | fs1541 error: Operation error: Drive 8 already exists"
    );
    assert_eq!(
        mount_at(&mut service, &mut drives, 10, "/a").unwrap_err().to_string(),
        "Already have mount at /a | fs1541 error: Operation error: Mount already exists"
    );
    assert!(!drives.drive_exists(10));
    assert!(service.unmount(&mut drives, Some(9), None, false).is_ok());
    assert!(service.get_mount("/b").is_err());
    assert!(!drives.drive_exists(9));
    service.cleanup(&mut drives);
    assert!(service.get_mount("/a").is_err());
}

#[test]
fn test_background_unmounts_when_it_stops() {
    let mut drives = DriveManager::new();
    let mut service = MountService::new();
    mount_at(&mut service, &mut drives, 8, "/a").unwrap();
    mount_at(&mut service, &mut drives, 9, "/b").unwrap();
    let mut run = Proc::<u32, ()>::new(5, Instant { nanos: 0 }).run();
    let mut next = |run: &mut Run<u32, ()>, event| run.next(&mut service, &mut drives, event);
    match next(&mut run, RunEvent::Looked { shutdown: false }) {
        RunAction::Receive { age_check_period } => {
            assert_eq!(age_check_period, Duration::from_secs(5))
        }
        other => panic!("{:?}", other),
    }
    let start = Instant { nanos: 0 };
    let ops = vec![
        Operation::new(OpType::GetStatus { device: 8 }, 1, None, start),
        Operation::new(OpType::BusReset, 2, None, start),
        Operation::new(OpType::GetStatus { device: 9 }, 3, None, start),
    ];
    match next(&mut run, RunEvent::Received(ops)) {
        RunAction::Process(op) => assert_eq!(op.sender, 2),
        other => panic!("{:?}", other),
    }
    assert!(matches!(next(&mut run, RunEvent::Processed), RunAction::Pause));
    let late = Instant { nanos: 120_000_000_000 };
    match next(&mut run, RunEvent::AgeReached { now: late }) {
        RunAction::Tell(notices) => {
            let told: Vec<u32> = notices.iter().map(|n| n.sender).collect();
            assert_eq!(told, vec![1, 3]);
        }
        other => panic!("{:?}", other),
    }
    assert_eq!(run.proc.last_cleanup, late);
    assert!(matches!(next(&mut run, RunEvent::Told), RunAction::Look));
    next(&mut run, RunEvent::Looked { shutdown: false });
    assert!(matches!(next(&mut run, RunEvent::Received(vec![])), RunAction::Pause));
    assert!(matches!(next(&mut run, RunEvent::Paused), RunAction::Look));
    assert!(matches!(next(&mut run, RunEvent::Looked { shutdown: true }), RunAction::Exit));
    assert_eq!(run.step, RunStep::Ended);
    assert!(run.proc.shutdown);
    assert!(service.mounts.is_empty());
    assert!(drives.connected_drives().is_empty());
}

#[test]
fn test_busy_drives_stay_mounted() {
    let mut drives = DriveManager::new();
    let mut service = MountService::new();
    mount_at(&mut service, &mut drives, 8, "/a").unwrap();
    drives.drives.get_mut(&8).unwrap().busy = true;
    assert!(service.unmount(&mut drives, None, Some("/a"), false).is_err());
    assert!(!service.get_mount("/a").unwrap().mounted);
    assert!(service.unmount(&mut drives, None, Some("/a"), true).is_ok());
    assert!(service.get_mount("/a").is_err());
    assert!(drives.drive_exists(8));
}

#[test]
fn test_failed_mounts_free_the_drive() {
    let mut drives = DriveManager::new();
    let mut service = MountService::new();
    let (mut mount, ignore) =
        service.begin_mount(&mut drives, 8, "/a", false, Ok(unit(8))).unwrap();
    assert_eq!(ignore.len(), 9);
    let info8 = info(CbmDeviceType::Cbm1541);
    assert!(service.drives_initialized(&mut drives, &mut mount, Ok(vec![]), info8, at(0)).is_err());
    assert!(!drives.drive_exists(8));
    let (mount, _) = service.begin_mount(&mut drives, 8, "/a", false, Ok(unit(8))).unwrap();
    let error = service
        .finish_mount(&mut drives, mount, Err("denied".to_string()))
        .unwrap_err();
    assert_eq!(error.to_string(), "Failed to spawn FUSE mount | IO error: denied");
    assert!(drives.drive_exists(8));
}

fn facts() -> PathFacts {
    PathFacts {
        exists: true,
        canonical: Ok("/mnt".to_string()),
        is_dir: true,
        has_entries: Ok(false),
        mode: Some(FileMode { mode: 0o700, uid: 7, gid: 7 }),
        user: UserIds { uid: 7, gid: 7 },
    }
}

#[test]
fn test_requests_are_validated() {
    assert_eq!(validate_mount_request("/mnt", 8, &facts()), Ok("/mnt".to_string()));
    assert_eq!(
        validate_mount_request("/mnt", 31, &facts()).unwrap_err().to_string(),
        "Device validation failed | rs1541 error: Validation error: Device num must be between 8 and 30"
    );
    assert!(validate_mount_request("mnt", 8, &facts())
        .unwrap_err()
        .to_string()
        .contains("Path 'mnt' must be absolute"));
    assert!(validate_unmount_request(Some("/mnt"), None, &facts()).is_ok());
    assert!(validate_unmount_request(None, Some(9), &facts()).is_ok());
    assert!(validate_unmount_request(None, Some(7), &facts()).is_err());
    assert!(matches!(
        validate_unmount_request(None, None, &facts()),
        Err(Error::Fs1541 { error: Fs1541Error::Validation(_), .. })
    ));
    assert_eq!(
        validate_unmount_request(Some("/mnt"), Some(9), &facts()).unwrap_err().to_string(),
        "Validation failure | fs1541 error: Validation error: For an unmount only one of mountpoint or device must be specified"
    );
}

#[test]
fn test_listed_files_are_shown() {
    let mut mount = mounted(CbmDeviceType::Cbm1541);
    let listing = CbmDirListing::parse(
        "0 .\"disk\" id 2a\n2 \"how to use\" prg\nwhat is this\n3 \"data\" usr\n0 blocks free",
    )
    .unwrap();
    assert_eq!(listing.files.len(), 3);
    let rsp = Ok(OpResponseType::ReadDirectory {
        status: status("00,OK,00,00"),
        listings: vec![listing],
    });
    mount.process_bg_response(rsp, at(200));
    let files = mount.get_drive_files(0);
    let names: Vec<&str> = files[6..].iter().map(|f| f.fuse.name.as_str()).collect();
    assert_eq!(names, vec!["how to use.prg", "data.usr"]);
}

#[test]
fn test_times_come_back() {
    let time = SystemTime::from_unix(1_700_000_000, 5).unwrap();
    assert_eq!(time.as_unix(), (1_700_000_000, 5));
    assert!(SystemTime::from_unix(0, 1_000_000_000).is_none());
    let time = SystemTime::from_unix(-3, 999_999_999).unwrap();
    assert_eq!(time.as_unix(), (-3, 999_999_999));
}
