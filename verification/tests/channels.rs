use rs1541fs::cbm::{CbmChannelManager, CbmChannelPurpose, CbmDriveUnit};
use rs1541fs::cbmtype::CbmDeviceType;
use rs1541fs::fuse::FileHandle;

#[test]
fn test_handles_are_packed() {
    let handle = FileHandle::new(8, 1, 5, 77);
    let back = FileHandle::from_u64(handle.to_u64());
    assert_eq!(back.device_number, 8);
    assert_eq!(back.drive_id, 1);
    assert_eq!(back.channel_number, 5);
    assert_eq!(back.sequence, 77);
    let other = FileHandle::new(8, 1, 6, 77);
    assert_ne!(handle.to_u64(), other.to_u64());
}

#[test]
fn test_channels_are_allocated() {
    let mut manager = CbmChannelManager::new();
    let (number, handle) = manager.allocate(8, 0, CbmChannelPurpose::FileRead).unwrap();
    assert_ne!(number, 15);
    assert_ne!(handle, 0);
    assert_eq!(manager.get_channel(handle).unwrap().number, number);
    let (second, other) = manager.allocate(8, 0, CbmChannelPurpose::FileWrite).unwrap();
    assert_ne!(number, second);
    assert_ne!(handle, other);
    manager.deallocate(handle);
    assert!(manager.get_channel(handle).is_none());
    assert!(manager.get_channel(other).is_some());
    manager.reset();
    assert!(manager.get_channel(other).is_none());
}

#[test]
fn test_channels_run_out() {
    let mut manager = CbmChannelManager::new();
    let mut handles = Vec::new();
    while let Some((_, handle)) = manager.allocate(8, 0, CbmChannelPurpose::Directory) {
        handles.push(handle);
    }
    assert_eq!(handles.len(), 15);
    let (number, _) = manager.allocate(8, 0, CbmChannelPurpose::Reset).unwrap();
    assert_eq!(number, 15);
    assert!(manager.allocate(8, 0, CbmChannelPurpose::Reset).is_none());
    manager.deallocate(handles[3]);
    assert!(manager.allocate(8, 0, CbmChannelPurpose::FileRead).is_some());
}

#[test]
fn test_drive_units() {
    let mut unit = CbmDriveUnit::new(9, CbmDeviceType::Cbm8050);
    assert_eq!(unit.to_string(), "Drive 9 (8050)");
    assert_eq!(unit.num_disk_drives_iter(), vec![0, 1]);
    assert!(unit.is_responding());
    assert!(!unit.is_busy());
    unit.reset();
    assert!(unit.is_busy());
}
