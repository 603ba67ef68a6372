use std::path::PathBuf;

use webview_bridge::profile::{ProfileError, ProfileManager};
use webview_bridge::upload::{
    detect_mime_type, extension_of, mime_type_for_extension, validate_filename, validate_session_name,
    MAX_UPLOAD_SIZE,
};

#[test]
fn test_validate_name_valid() {
    assert!(ProfileManager::validate_name("valid").is_ok());
    assert!(ProfileManager::validate_name("valid_name-123").is_ok());
    assert!(ProfileManager::validate_name("a").is_ok());
}

#[test]
fn test_validate_name_invalid() {
    assert!(ProfileManager::validate_name("").is_err());
    assert!(ProfileManager::validate_name("invalid name").is_err());
    assert!(ProfileManager::validate_name("invalid@name").is_err());
    assert!(ProfileManager::validate_name(&"a".repeat(65)).is_err());
}

#[test]
fn test_user_data_folder() {
    let manager = ProfileManager::new(PathBuf::from("/tmp/profiles"));
    let folder = manager.user_data_folder("test");
    assert!(folder.contains("test"));
    assert!(folder.contains("userdata"));
}

#[test]
fn sixty_four_bytes_is_the_longest_name() {
    assert!(ProfileManager::validate_name(&"a".repeat(64)).is_ok());
    let e = ProfileManager::validate_name("a b").unwrap_err();
    assert_eq!(e.code, "INVALID_NAME");
    assert_eq!(e.message, "Invalid profile name: 'a b'");
}

#[test]
fn create_and_delete_checks() {
    assert!(ProfileManager::check_create("work", false).is_ok());
    let e = ProfileManager::check_create("work", true).unwrap_err();
    assert_eq!(e.code, "PROFILE_EXISTS");
    assert_eq!(e.to_display_string(), "[PROFILE_EXISTS] Profile 'work' already exists");
    assert_eq!(ProfileManager::check_create("bad name", false).unwrap_err().code, "INVALID_NAME");
    assert!(ProfileManager::check_delete("work", true).is_ok());
    let e = ProfileManager::check_delete("gone", false).unwrap_err();
    assert_eq!(e.message, "Profile 'gone' does not exist");
    assert_eq!(ProfileError::new("X", "y").to_display_string(), "[X] y");
}

#[test]
fn profile_path_is_under_base() {
    let manager = ProfileManager::new(PathBuf::from("/tmp/profiles"));
    assert_eq!(manager.profile_path("p1"), PathBuf::from("/tmp/profiles").join("p1"));
    assert_eq!(manager.base_dir(), &PathBuf::from("/tmp/profiles"));
}

#[test]
fn mime_types_by_extension() {
    assert_eq!(detect_mime_type("report.PDF"), "application/pdf");
    assert_eq!(detect_mime_type("photo.jpeg"), "image/jpeg");
    assert_eq!(detect_mime_type("archive.tar.zip"), "application/zip");
    assert_eq!(detect_mime_type("noext"), "application/octet-stream");
    assert_eq!(mime_type_for_extension("docx"), "application/vnd.openxmlformats-officedocument.wordprocessingml.document");
    assert_eq!(extension_of("a.b.c"), "c");
    assert_eq!(extension_of("plain"), "plain");
}

#[test]
fn filename_validation() {
    assert_eq!(validate_filename("../etc/passwd").unwrap_err(), "Invalid filename: path traversal detected");
    assert_eq!(validate_filename("a\\b").unwrap_err(), "Invalid filename: path traversal detected");
    assert_eq!(validate_filename("").unwrap_err(), "Empty filename");
    assert!(validate_filename("ok.txt").is_ok());
}

#[test]
fn session_name_validation() {
    assert_eq!(validate_session_name("").unwrap_err(), "Empty session name");
    assert_eq!(validate_session_name("a/b").unwrap_err(), "Invalid session name");
    assert!(validate_session_name("main").is_ok());
    assert_eq!(MAX_UPLOAD_SIZE, 100 * 1024 * 1024);
}

#[test]
fn user_data_folder_ends_with_name_and_userdata() {
    let manager = ProfileManager::new(PathBuf::from("/tmp/profiles"));
    let folder = manager.user_data_folder("p1");
    assert!(folder.ends_with("userdata"));
    let sep = std::path::MAIN_SEPARATOR;
    assert!(folder.ends_with(&format!("p1{}userdata", sep)));
}

#[test]
fn uploads_dir_is_under_uploads() {
    let dir = webview_bridge::upload::uploads_dir(&PathBuf::from("/data"), "s1");
    assert_eq!(dir, PathBuf::from("/data").join("uploads").join("s1"));
    let sep = std::path::MAIN_SEPARATOR;
    assert!(dir.to_string_lossy().ends_with(&format!("uploads{}s1", sep)));
}
