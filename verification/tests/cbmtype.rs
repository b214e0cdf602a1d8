use rs1541fs::cbmtype::{
    CbmDeviceInfo, CbmDeviceType, CbmDeviceTypeError, CbmError, CbmErrorNumber, CbmErrorNumberOk,
    CbmFileMode, CbmFileType, CbmStatus, DosVersion,
};
use rs1541fs::errno;
use rs1541fs::opencbm::OpenCbmError;

#[test]
fn test_new_with_bad_status() {
    let result = CbmStatus::new("bibble bobble flibble flobble", 8);
    assert_eq!(
        result,
        Err(CbmError::DeviceError {
            device: 8,
            message: "Invalid status format: bibble bobble flibble flobble".to_string()
        })
    );
}

#[test]
fn test_status_parsing() {
    let status = CbmStatus::try_from(("21,READ ERROR,18,00", 8)).unwrap();
    assert_eq!(status.number, 21);
    assert_eq!(
        status.error_number,
        CbmErrorNumber::ReadErrorNoSyncCharacter
    );
    assert_eq!(status.message, "READ ERROR");
    assert_eq!(status.track, 18);
    assert_eq!(status.sector, 0);
    assert_eq!(status.device, 8);
    assert_eq!(status.is_ok(), CbmErrorNumberOk::Error);
}

#[test]
fn test_ok_status() {
    let status = CbmStatus::try_from(("00,OK,00,00", 8)).unwrap();
    assert_eq!(status.is_ok(), CbmErrorNumberOk::Okay);
    assert_eq!(status.device, 8);
    assert_eq!(status.to_string(), "00,OK,00,00");
}

#[test]
fn test_73_status() {
    let status = CbmStatus::try_from(("73,DOS MISMATCH,00,00", 8)).unwrap();
    assert_eq!(status.error_number, CbmErrorNumber::DosMismatch);
    assert_eq!(status.is_ok(), CbmErrorNumberOk::Number73);
    assert_eq!(status.to_string(), "73,DOS MISMATCH,00,00");
    assert_eq!(status.message, "DOS MISMATCH");
    assert_eq!(status.device, 8);
}

#[test]
fn test_files_scratched() {
    let status = CbmStatus::try_from(("01,FILES SCRATCHED,03,00", 8)).unwrap();
    assert_eq!(status.files_scratched(), Some(3));
    assert_eq!(status.message, "FILES SCRATCHED");
    assert_eq!(status.is_ok(), CbmErrorNumberOk::Okay);
    assert_eq!(status.track, 3);
    assert_eq!(status.sector, 0);
    assert_eq!(status.device, 8);
}

#[test]
fn test_read_error_display() {
    let status = CbmStatus::try_from(("21,READ ERROR,18,04", 8)).unwrap();
    assert_eq!(status.files_scratched(), None);
    assert_eq!(status.to_string(), "21,READ ERROR,18,04");
    assert_eq!(status.is_ok(), CbmErrorNumberOk::Error);
    assert_eq!(status.track, 18);
    assert_eq!(status.sector, 4);
    assert_eq!(status.device, 8);
}

#[test]
fn test_null_bytes() {
    // Will succeed
    let status = CbmStatus::try_from(("\09, DRIVER ERROR,00,00", 8)).unwrap();
    assert_eq!(status.to_string(), "99,DRIVER ERROR,00,00");
    assert_eq!(status.device, 8);

    let status = CbmStatus::try_from(("\0\0, DRIVER ERROR,00,00", 8)).unwrap();
    assert_eq!(status.to_string(), "99,DRIVER ERROR,00,00");
    assert_eq!(status.device, 8);

    let status = CbmStatus::try_from(("\0\0\0 DRIVER ERROR,00,00", 8)).unwrap();
    assert_eq!(status.to_string(), "99,DRIVER ERROR,00,00");
    assert_eq!(status.device, 8);

    // Will fail
    let result = CbmStatus::try_from(("\0\0\0\0DRIVER ERROR,00,00", 8));
    assert_eq!(
        result,
        Err(CbmError::DeviceError {
            device: 8,
            message: "Invalid status format: \0DRIVER ERROR,00,00".to_string()
        })
    );
}

#[test]
fn test_error_display() {
    let error = CbmError::DeviceError {
        device: 8,
        message: "Test error".to_string(),
    };
    assert_eq!(error.to_string(), "Device 8: Device error: Test error");

    let status = CbmStatus {
        number: 21,
        error_number: CbmErrorNumber::ReadErrorNoSyncCharacter,
        message: "READ ERROR".to_string(),
        track: 18,
        sector: 0,
        device: 8,
    };
    let error = CbmError::StatusError { device: 8, status };
    assert_eq!(
        error.to_string(),
        "Device 8: Drive returned error status: 21,READ ERROR,18,00"
    );

    let error = CbmError::OpenCbmError {
        device: None,
        error: OpenCbmError::ThreadTimeout,
    };
    assert_eq!(error.to_string(), "n/a: OpenCBM error: FFI call timed out");
}

#[test]
fn test_fuse_errno() {
    let error = CbmError::DeviceError {
        device: 8,
        message: "Test error".to_string(),
    };
    assert_eq!(error.to_errno(), libc::EIO);

    let error = CbmError::FuseError(libc::ENOENT);
    assert_eq!(error.to_errno(), libc::ENOENT);
}

#[test]
fn test_error_numbers_are_those_of_the_system() {
    assert_eq!(errno::EPERM, libc::EPERM);
    assert_eq!(errno::ENOENT, libc::ENOENT);
    assert_eq!(errno::EIO, libc::EIO);
    assert_eq!(errno::EACCES, libc::EACCES);
    assert_eq!(errno::EBUSY, libc::EBUSY);
    assert_eq!(errno::ENOTDIR, libc::ENOTDIR);
    assert_eq!(errno::EISDIR, libc::EISDIR);
    assert_eq!(errno::EINVAL, libc::EINVAL);
    assert_eq!(errno::ENOSPC, libc::ENOSPC);
    assert_eq!(errno::EROFS, libc::EROFS);
    assert_eq!(errno::ERANGE, libc::ERANGE);
    assert_eq!(errno::ENODATA, libc::ENODATA);
    assert_eq!(errno::ENOTSUP, libc::ENOTSUP);
    assert_eq!(errno::ETIMEDOUT, libc::ETIMEDOUT);
    assert_eq!(errno::ECANCELED, libc::ECANCELED);
    assert_eq!(errno::O_RDONLY, libc::O_RDONLY);
    assert_eq!(errno::O_WRONLY, libc::O_WRONLY);
    assert_eq!(errno::O_RDWR, libc::O_RDWR);
    assert_eq!(errno::O_ACCMODE, libc::O_ACCMODE);
}

#[test]
fn test_status_with_bad_parts() {
    let text = |s: &str| CbmStatus::new(s, 9).unwrap_err().to_string();
    assert!(text("xx,OK,00,00").contains("Invalid error number"));
    assert!(text("00,OK,xx,00").contains("Invalid track"));
    assert!(text("00,OK,00,256").contains("Invalid sector"));
}

#[test]
fn test_status_round_trip() {
    for s in [
        "00,OK,00,00",
        "26,WRITE PROTECT ON,18,00",
        "74,DRIVE NOT READY,00,00",
        "73,CBM DOS V2.6 1541,00,00",
        " 7 , \t odd\rtext ,+255, 3 ",
        "\0\0200,,0,0\r\0rest",
        ", DRIVER ERROR,00,00",
    ] {
        let status = CbmStatus::new(s, 8).unwrap();
        assert_eq!(CbmStatus::new(&status.to_string(), 8), Ok(status));
    }
}

#[test]
fn test_status_texts() {
    let status = CbmStatus::new("62,FILE NOT FOUND,03,04\r", 8).unwrap();
    assert_eq!(status.as_short_str(), "62,FILE NOT FOUND");
    assert_eq!(status.as_str(), "62,FILE NOT FOUND,03,04");
    assert_eq!(status.track(), None);
    assert!(status.is_valid_cbm());
    let error = CbmError::from(status);
    assert_eq!(
        error.to_string(),
        "Device 8: Drive returned error status: 62,FILE NOT FOUND,03,04"
    );
}

#[test]
fn test_status_into_result() {
    assert!(CbmStatus::new("00,OK,00,00", 8).unwrap().into_result().is_ok());
    assert!(CbmStatus::new("73,CBM DOS,00,00", 8).unwrap().into_result().is_err());
    assert!(CbmStatus::new("21,READ ERROR,18,00", 8).unwrap().into_result().is_err());
}

#[test]
fn test_device_types() {
    for n in -1..=20 {
        let device_type = CbmDeviceType::from(n);
        if device_type != CbmDeviceType::Unknown {
            assert_eq!(i32::from(device_type), n);
        }
    }
    let cbm1541 = CbmDeviceType::Cbm1541;
    assert_eq!(cbm1541.as_str(), "1541");
    assert_eq!(cbm1541.to_fs_name(), "CBM_1541");
    assert_eq!(cbm1541.num_disk_drives(), 1);
    assert_eq!(cbm1541.dos_version(), DosVersion::Dos2);
    assert_eq!(CbmDeviceType::Cbm4040.num_disk_drives(), 2);
    assert_eq!(CbmDeviceType::Unknown.num_disk_drives(), 0);
    assert_eq!(CbmDeviceType::FdX000.to_fs_name(), "FDX000");
    let info = CbmDeviceInfo {
        device_type: CbmDeviceType::Cbm1571,
        description: "1570 or 1571".to_string(),
    };
    assert_eq!(info.to_string(), "1571: 1570 or 1571");
    assert_eq!(CbmDeviceInfo::default().description, "unknown");
    assert_eq!(
        CbmDeviceTypeError("42".to_string()).to_string(),
        "Invalid device type value: 42"
    );
}

#[test]
fn test_file_types() {
    for (text, file_type, suffix) in [
        ("PRG", CbmFileType::PRG, ",P"),
        ("seq", CbmFileType::SEQ, ",S"),
        ("Usr", CbmFileType::USR, ",U"),
        ("REL", CbmFileType::REL, ",R"),
    ] {
        assert_eq!(CbmFileType::from_text(text), file_type);
        assert_eq!(file_type.as_str(), text.to_lowercase());
        assert_eq!(file_type.to_suffix(), suffix);
    }
    assert_eq!(CbmFileType::from_text("DEL"), CbmFileType::Unknown);
    assert_eq!(CbmFileMode::Read.to_suffix(), "");
    assert_eq!(CbmFileMode::Write.to_suffix(), ",W");
    assert_eq!(CbmFileMode::Append.to_suffix(), ",A");
}

#[test]
fn test_file_types_ignore_case_as_text_does() {
    for c in (0..0x11_0000u32).filter_map(char::from_u32) {
        let text = format!("{c}EQ");
        let expected = if text.to_uppercase() == "SEQ" {
            CbmFileType::SEQ
        } else {
            CbmFileType::Unknown
        };
        assert_eq!(CbmFileType::from_text(&text), expected, "{text}");
    }
}

#[test]
fn test_errors_from_the_driver() {
    let error = CbmError::from_driver(OpenCbmError::ThreadTimeout);
    assert_eq!(error.to_errno(), libc::EIO);
    let error = CbmError::from_panic(Some("broken"));
    assert!(error.to_string().contains("broken"));
    assert_eq!(CbmError::TimeoutError { device: 8 }.to_errno(), libc::EIO);
    assert_eq!(CbmError::ValidationError("x".to_string()).to_errno(), libc::EINVAL);
}
