use rs1541fs::cbmtype::CbmError;
use rs1541fs::validate::{
    has_write_permission, validate_bus_device, validate_device, validate_mountpoint,
    DeviceValidation, FileMode, PathFacts, UserIds, ValidationType,
};
use rs1541fs::DEFAULT_DEVICE_NUM;
use std::path::Path;
use tempfile::TempDir;

fn owner() -> UserIds {
    UserIds { uid: 1000, gid: 1000 }
}

/// What the operating system says of a path, for its owner.
fn facts_of(path: &Path) -> PathFacts {
    PathFacts {
        exists: path.exists(),
        canonical: match path.canonicalize() {
            Ok(p) => Ok(p.display().to_string()),
            Err(e) => Err(e.to_string()),
        },
        is_dir: path.is_dir(),
        has_entries: match path.read_dir() {
            Ok(mut entries) => Ok(entries.next().is_some()),
            Err(e) => Err(e.to_string()),
        },
        mode: if path.exists() {
            Some(FileMode { mode: 0o700, uid: 1000, gid: 1000 })
        } else {
            None
        },
        user: owner(),
    }
}

fn message(r: Result<String, CbmError>) -> String {
    r.unwrap_err().to_string()
}

#[test]
fn test_valid_numbers() {
    // Valid numbers should work with any validation mode
    assert!(matches!(
        validate_device(Some(8), DeviceValidation::Required),
        Ok(Some(8))
    ));
    assert!(matches!(
        validate_device(Some(15), DeviceValidation::Optional),
        Ok(Some(15))
    ));
    assert!(matches!(
        validate_device(Some(10), DeviceValidation::Default),
        Ok(Some(10))
    ));
}

#[test]
fn test_invalid_numbers() {
    // Invalid numbers should fail regardless of validation mode
    assert!(validate_device(Some(7), DeviceValidation::Required).is_err());
    assert!(validate_device(Some(16), DeviceValidation::Optional).is_err());
    assert!(validate_device(Some(255), DeviceValidation::Default).is_err());
}

#[test]
fn test_none_handling() {
    // Required - None not allowed
    assert!(validate_device(None, DeviceValidation::Required).is_err());

    // Optional - None is allowed and returns None
    assert!(matches!(
        validate_device(None, DeviceValidation::Optional),
        Ok(None)
    ));

    // Default - None returns the default device number
    assert!(matches!(
        validate_device(None, DeviceValidation::Default),
        Ok(Some(DEFAULT_DEVICE_NUM))
    ));
}

#[test]
fn test_absolute_path() {
    let temp_dir = TempDir::new().unwrap();
    let path = temp_dir.path().to_path_buf();

    assert!(matches!(
        validate_mountpoint(
            path.to_str().unwrap(),
            ValidationType::Mount,
            false,
            &facts_of(&path)
        ),
        Ok(_)
    ));
}

#[test]
fn test_non_absolute_path() {
    assert!(validate_mountpoint(
        "./relative/path",
        ValidationType::Mount,
        false,
        &facts_of(Path::new("./relative/path"))
    )
    .is_err());
}

#[test]
fn test_error_texts_of_numbers() {
    let error = validate_device(Some(7), DeviceValidation::Required).unwrap_err();
    assert_eq!(
        error,
        CbmError::ValidationError("Device num must be between 8 and 15".to_string())
    );
    let error = validate_device(None, DeviceValidation::Required).unwrap_err();
    assert_eq!(
        error,
        CbmError::ValidationError("No device num supplied".to_string())
    );
}

#[test]
fn test_numbers_on_the_bus() {
    for device in 0..=255u8 {
        let expected = rs1541::validate_device(Some(device), rs1541::DeviceValidation::Required);
        assert_eq!(validate_bus_device(device).is_ok(), expected.is_ok());
        assert_eq!(validate_bus_device(device).is_ok(), (8..=30).contains(&device));
    }
    assert_eq!(
        validate_bus_device(31),
        Err(CbmError::ValidationError(
            "Device num must be between 8 and 30".to_string()
        ))
    );
}

#[test]
fn test_nonempty_directory_facts() {
    let temp_dir = TempDir::new().unwrap();
    let path = temp_dir.path();
    let mut facts = facts_of(path);
    facts.has_entries = Ok(true);
    let text = path.to_str().unwrap();
    let r = validate_mountpoint(text, ValidationType::Mount, false, &facts);
    assert!(message(r).contains("is not empty"));
    let r = validate_mountpoint(text, ValidationType::Unmount, false, &facts);
    assert_eq!(r, Ok(text.to_string()));
}

#[test]
fn test_paths_that_fail() {
    let mut facts = facts_of(Path::new("/no/such/path"));
    let r = validate_mountpoint("/no/such/path", ValidationType::Mount, false, &facts);
    assert!(message(r).contains("Mountpoint /no/such/path is not a directory"));

    let r = validate_mountpoint("no/such/path", ValidationType::Mount, true, &facts);
    assert!(message(r).contains("Path no/such/path does not exist"));

    facts.exists = true;
    let r = validate_mountpoint("here", ValidationType::Mount, false, &facts);
    assert!(message(r).contains("Path 'here' must be absolute"));

    facts.canonical = Err("nowhere".to_string());
    let r = validate_mountpoint("here", ValidationType::Mount, true, &facts);
    assert!(message(r).contains("Path here is not absolute, and can't canonicalize: nowhere"));

    facts.canonical = Ok("/home/here".to_string());
    facts.is_dir = true;
    facts.has_entries = Err("closed".to_string());
    facts.mode = Some(FileMode { mode: 0o755, uid: 0, gid: 0 });
    let r = validate_mountpoint("here", ValidationType::Mount, true, &facts);
    assert!(message(r).contains("Failed to read directory /home/here: closed"));

    facts.has_entries = Ok(false);
    let r = validate_mountpoint("here", ValidationType::Mount, true, &facts);
    assert!(message(r).contains("No write permission for mountpoint /home/here"));

    facts.mode = Some(FileMode { mode: 0o757, uid: 0, gid: 0 });
    let r = validate_mountpoint("here", ValidationType::Mount, true, &facts);
    assert_eq!(r, Ok("/home/here".to_string()));
}

#[test]
fn test_permissions() {
    let mode = |mode: u32, uid: u32, gid: u32| Some(FileMode { mode, uid, gid });
    assert!(has_write_permission(mode(0o200, 1000, 0), owner()));
    assert!(!has_write_permission(mode(0o444, 1000, 1000), owner()));
    assert!(has_write_permission(mode(0o020, 0, 1000), owner()));
    assert!(!has_write_permission(mode(0o602, 0, 1000), owner()));
    assert!(has_write_permission(mode(0o002, 0, 0), owner()));
    assert!(!has_write_permission(mode(0o550, 0, 0), owner()));
    assert!(!has_write_permission(None, owner()));
}
