use rs1541fs::server::cbm::{create_cbm, CbmFile, CBM};
use tempfile::TempDir;

fn path_of(dir: &TempDir) -> String {
    dir.path().display().to_string()
}

#[test]
fn test_cbm_creation() {
    let temp_dir = TempDir::new().unwrap();
    let result = CBM::new(&path_of(&temp_dir), 8, 0);
    assert!(result.is_ok());

    let cbm = result.unwrap();
    assert_eq!(cbm.device_num, 8);
    assert!(!cbm.is_initialized);
    assert!(!cbm.dir_is_clean);

    // Check that channels were initialized correctly
    for (i, channel) in cbm.channels.iter().enumerate() {
        assert_eq!(channel.num as usize, i);
    }
}

#[test]
fn test_invalid_device_number() {
    let temp_dir = TempDir::new().unwrap();
    let result = CBM::new(&path_of(&temp_dir), 16, 0);
    assert!(result.is_err());
}

#[test]
fn test_invalid_drive_number() {
    let temp_dir = TempDir::new().unwrap();
    let result = CBM::new(&path_of(&temp_dir), 8, 2);
    assert!(result.is_err());
}

#[test]
fn test_cbm_destroy() {
    let temp_dir = TempDir::new().unwrap();
    let mut cbm = CBM::new(&path_of(&temp_dir), 8, 0).unwrap();

    // Initialize some state
    cbm.is_initialized = true;
    cbm.fd = 1;
    cbm.files.push(CbmFile {});

    // Test clean destruction
    cbm.destroy(true);
    assert!(!cbm.is_initialized);
    assert_eq!(cbm.fd, -1);
    assert!(cbm.files.is_empty());
}

#[test]
fn test_cbm_errors_and_names() {
    assert_eq!(CBM::new("/x", 7, 0).unwrap_err(), "Device number must be between 8 and 15");
    assert_eq!(CBM::new("/x", 15, 2).unwrap_err(), "Drive number must be 0 or 1");
    let mut cbm = CBM::new("/x", 15, 1).unwrap();
    assert_eq!(cbm.channels.len(), 16);
    assert_eq!(cbm.get_device_name(), "cbm_dev15_drv1");
    assert_eq!(cbm.get_sub_type(), "1541");
    assert_eq!(cbm._get_last_error(), "");
    let text = b"\x0074,DRIVE NOT READY,00,00";
    cbm.last_error[..text.len()].copy_from_slice(text);
    assert_eq!(cbm._get_last_error(), "74,DRIVE NOT READY,00,00");
    cbm._update_directory();
    assert!(cbm.dir_is_clean);
    cbm._initialize();
    cbm.fd = 3;
    cbm.files.push(CbmFile {});
    cbm.destroy(false);
    assert!(cbm.is_initialized);
    assert_eq!(cbm.fd, 3);
    assert!(cbm.files.is_empty());
}

#[test]
fn test_cbm_in_its_place() {
    let mut place = None;
    create_cbm(&mut place, "/x", 9, 1);
    assert_eq!(place.unwrap().get_device_name(), "cbm_dev9_drv1");
}
