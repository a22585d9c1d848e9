use srow::directory_path::PathProbe;
use srow::directory_path::ReadonlyDirectoryPath;
use srow::directory_path::VirtualDirectoryPath;
use srow::directory_path::WritableDirectoryPath;
use srow::error::AppError;
use srow::file_path::WritableFilePath;

fn probe(exists: bool, is_dir: bool, is_file: bool, readonly: bool) -> PathProbe {
    PathProbe { exists, is_dir, is_file, readonly }
}

fn readonly_dir_probe() -> PathProbe {
    probe(true, true, false, true)
}

fn writable_dir_probe() -> PathProbe {
    probe(true, true, false, false)
}

fn missing_probe() -> PathProbe {
    probe(false, false, false, false)
}

#[test]
fn creates_readonly_dir_from_readonly_directory() {
    let path = "/data/archive".to_string();
    let source_dir = ReadonlyDirectoryPath::new(path.clone(), readonly_dir_probe()).unwrap();
    assert_eq!(source_dir.to_str(), path);
}

#[test]
fn fails_creating_readonly_dir_from_nonexistent_path() {
    let invalid_path = "/path/does/not/exist".to_string();
    let result = ReadonlyDirectoryPath::new(invalid_path, missing_probe());
    assert!(result.is_err());
}

#[test]
fn fails_creating_readonly_dir_from_writable_directory() {
    let result = ReadonlyDirectoryPath::new("/data/archive".to_string(), writable_dir_probe());
    assert!(result.is_err());
}

#[test]
fn creates_writable_dir_from_writable_directory() {
    let path = "/data/incoming".to_string();
    let writable_dir = WritableDirectoryPath::new(path.clone(), writable_dir_probe()).unwrap();
    assert_eq!(writable_dir.to_str(), path);
}

#[test]
fn fails_creating_writable_dir_from_nonexistent_path() {
    let result = WritableDirectoryPath::new("nonexistent".to_string(), missing_probe());
    assert!(result.is_err());
}

#[test]
fn creates_writable_dir_from_readonly_directory() {
    let result = WritableDirectoryPath::new("/data/incoming".to_string(), readonly_dir_probe());
    assert!(result.is_err());
}

#[test]
fn writable_dir_join_appends_component() {
    let base = WritableDirectoryPath::new("/data/incoming".to_string(), writable_dir_probe())
        .unwrap();
    let joined = base.join("test.txt".to_string());
    assert_eq!(joined.to_str(), "/data/incoming/test.txt");
}

#[test]
fn virtual_directory_path_creates_instance_with_nonexistent_path() {
    let nonexistent_path = "/tmp/archive/nonexistent_dir".to_string();
    let result = VirtualDirectoryPath::new(nonexistent_path.clone(), missing_probe());
    assert!(result.is_ok());
    let virtual_path = result.unwrap();
    assert_eq!(virtual_path.to_str(), nonexistent_path);
}

#[test]
fn virtual_directory_path_fails_with_existing_path() {
    let existing_dir = "/tmp/archive/existing_dir".to_string();
    let result = VirtualDirectoryPath::new(existing_dir, writable_dir_probe());
    assert!(result.is_err());
    match result.unwrap_err() {
        AppError::AlreadyExists(_) => {}
        other => panic!("expected AlreadyExists, got {:?}", other),
    }
}

#[test]
fn writable_file_path_creates_instance_with_writable_file() {
    let path = "/tmp/config.json".to_string();
    let result = WritableFilePath::new(path.clone(), probe(true, false, true, false));
    assert!(result.is_ok());
    let writable_file = result.unwrap();
    assert_eq!(writable_file.to_str(), path);
}

#[test]
fn writable_file_path_fails_with_nonexistent_file() {
    let result = WritableFilePath::new("nonexistent_file.txt".to_string(), missing_probe());
    assert!(result.is_err());
    match result.unwrap_err() {
        AppError::NotFound(_) => {}
        _ => panic!("Expected Io error with NotFound kind"),
    }
}

#[test]
fn writable_file_path_fails_with_readonly_file() {
    let result = WritableFilePath::new(
        "/tmp/config.json".to_string(),
        probe(true, false, true, true),
    );
    assert!(result.is_err());
    match result.unwrap_err() {
        AppError::PermissionDenied(_) => {}
        _ => panic!("Expected Io error with PermissionDenied kind"),
    }
}

#[test]
fn writable_file_path_fails_with_directory_path() {
    let result = WritableFilePath::new("/tmp".to_string(), writable_dir_probe());
    assert!(result.is_err());
    match result.unwrap_err() {
        AppError::NotFound(_) => {}
        _ => panic!("Expected Io error with NotFound kind"),
    }
}

#[test]
fn json_config_builder_fails_with_invalid_path() {
    // The configuration-file builder accepts a path by wrapping it as
    // a writable file; a path that does not exist is refused there.
    let invalid_path = "/path/does/not/exist";
    let result = WritableFilePath::new(invalid_path.to_string(), missing_probe());
    assert!(result.is_err());
}

#[test]
fn path_error_messages_name_the_path() {
    let err = ReadonlyDirectoryPath::new("/missing".to_string(), missing_probe()).unwrap_err();
    assert_eq!(err.message(), "not found: /missing");
    let err = WritableDirectoryPath::new("/locked".to_string(), readonly_dir_probe())
        .unwrap_err();
    assert_eq!(err.message(), "permission denied: /locked");
}
