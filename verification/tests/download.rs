use std::path::PathBuf;

use webview_bridge::download::{
    chrono_add_seconds, chrono_now_iso8601, default_critical_threshold, default_download_dir,
    default_download_timeout, default_max_file_size, default_max_storage, default_parallel,
    default_true, default_ttl, default_warning_threshold, AlertLevel, DownloadManager, DownloadStatus,
    FileInfo, Fraction, StorageConfig, StorageManager,
};

fn storage() -> StorageManager {
    StorageManager::new(StorageConfig::with_data_path(PathBuf::from("data")))
}

fn file(name: &str, size: u64) -> FileInfo {
    FileInfo {
        filename: name.to_string(),
        path: format!("/tmp/{}", name),
        size,
        mime_type: "application/octet-stream".to_string(),
        created_at: chrono_now_iso8601(),
    }
}

#[test]
fn test_download_manager() {
    let mut manager = DownloadManager::new();

    let id = manager.start_download("https://example.com/file.zip", None);
    assert!(manager.get_progress(&id).is_some());

    manager.update_progress(&id, 500, Some(1000));
    let progress = manager.get_progress(&id).unwrap();
    assert_eq!(progress.percent, Some(Fraction { numerator: 500, denominator: 1000 }));

    manager.complete_download(&id, Some("file.zip".to_string()));
    let progress = manager.get_progress(&id).unwrap();
    assert_eq!(progress.status, DownloadStatus::Completed);
}

#[test]
fn test_storage_manager() {
    let mut manager = storage();

    let ref_id = manager.create_file_ref();
    assert!(manager.get_file_ref(&ref_id).is_some());

    let f = FileInfo {
        filename: "test.txt".to_string(),
        path: "/tmp/test.txt".to_string(),
        size: 1024,
        mime_type: "text/plain".to_string(),
        created_at: chrono_now_iso8601(),
    };

    manager.add_file(&ref_id, f).unwrap();

    let file_ref = manager.get_file_ref(&ref_id).unwrap();
    assert_eq!(file_ref.files.len(), 1);
    assert_eq!(file_ref.total_size, 1024);
}

#[test]
fn test_storage_status() {
    let manager = storage();
    let status = manager.get_status();

    assert_eq!(status.alert_level, AlertLevel::Normal);
}

#[test]
fn test_batch_download() {
    let mut manager = DownloadManager::new();

    let urls = vec!["https://example.com/a.zip".to_string(), "https://example.com/b.zip".to_string()];

    let (batch_id, download_ids) = manager.create_batch(&urls);
    assert_eq!(download_ids.len(), 2);
    assert!(manager.batches.contains_key(&batch_id));
}

#[test]
fn test_download_fail() {
    let mut manager = DownloadManager::new();
    let id = manager.start_download("https://example.com/fail.zip", None);
    manager.fail_download(&id, "Network error");

    let progress = manager.get_progress(&id).unwrap();
    assert_eq!(progress.status, DownloadStatus::Failed);
    assert_eq!(progress.error, Some("Network error".to_string()));
}

#[test]
fn test_download_fail_nonexistent() {
    let mut manager = DownloadManager::new();
    manager.fail_download("nonexistent", "Error");
}

#[test]
fn test_update_nonexistent() {
    let mut manager = DownloadManager::new();
    manager.update_progress("nonexistent", 100, Some(200));
    assert!(manager.get_progress("nonexistent").is_none());
}

#[test]
fn test_complete_nonexistent() {
    let mut manager = DownloadManager::new();
    manager.complete_download("nonexistent", None);
}

#[test]
fn test_update_no_total() {
    let mut manager = DownloadManager::new();
    let id = manager.start_download("https://example.com/file.zip", None);
    manager.update_progress(&id, 500, None);

    let progress = manager.get_progress(&id).unwrap();
    assert!(progress.percent.is_none());
}

#[test]
fn test_update_zero_total() {
    let mut manager = DownloadManager::new();
    let id = manager.start_download("https://example.com/file.zip", None);
    manager.update_progress(&id, 0, Some(0));

    let progress = manager.get_progress(&id).unwrap();
    assert!(progress.percent.is_none());
}

#[test]
fn test_storage_persist() {
    let mut manager = storage();
    let ref_id = manager.create_file_ref();

    manager.persist(&ref_id).unwrap();

    let file_ref = manager.get_file_ref(&ref_id).unwrap();
    assert!(file_ref.persistent);
    assert_eq!(file_ref.expires_at, "never");
}

#[test]
fn test_storage_persist_not_found() {
    let mut manager = storage();
    assert!(manager.persist("nonexistent").is_err());
}

#[test]
fn test_storage_extend_ttl() {
    let mut manager = storage();
    let ref_id = manager.create_file_ref();

    let new_expires = manager.extend_ttl(&ref_id, 3600).unwrap();
    let secs: u64 = new_expires.parse().unwrap();
    assert!(secs > 0);
}

#[test]
fn test_storage_extend_ttl_persistent() {
    let mut manager = storage();
    let ref_id = manager.create_file_ref();
    manager.persist(&ref_id).unwrap();

    let result = manager.extend_ttl(&ref_id, 3600).unwrap();
    assert_eq!(result, "never");
}

#[test]
fn test_storage_extend_ttl_not_found() {
    let mut manager = storage();
    assert!(manager.extend_ttl("nonexistent", 3600).is_err());
}

#[test]
fn test_add_file_not_found() {
    let mut manager = storage();
    let f = FileInfo {
        filename: "test.txt".to_string(),
        path: "/tmp/test.txt".to_string(),
        size: 100,
        mime_type: "text/plain".to_string(),
        created_at: chrono_now_iso8601(),
    };
    assert!(manager.add_file("nonexistent", f).is_err());
}

#[test]
fn test_add_file_too_large() {
    let mut config = StorageConfig::with_data_path(PathBuf::from("data"));
    config.max_file_size_bytes = 100;
    let mut manager = StorageManager::new(config);
    let ref_id = manager.create_file_ref();

    assert!(manager.add_file(&ref_id, file("big.bin", 1000)).is_err());
}

fn small_storage() -> StorageManager {
    let mut config = StorageConfig::with_data_path(PathBuf::from("data"));
    config.max_storage_bytes = 1000;
    config.warning_threshold = 500;
    config.critical_threshold = 900;
    config.max_file_size_bytes = 1000;
    StorageManager::new(config)
}

#[test]
fn test_storage_warning() {
    let mut manager = small_storage();
    let ref_id = manager.create_file_ref();
    manager.add_file(&ref_id, file("f.bin", 600)).unwrap();

    assert_eq!(manager.get_status().alert_level, AlertLevel::Warning);
}

#[test]
fn test_storage_critical() {
    let mut manager = small_storage();
    let ref_id = manager.create_file_ref();
    manager.add_file(&ref_id, file("f.bin", 950)).unwrap();

    assert_eq!(manager.get_status().alert_level, AlertLevel::Critical);
}

#[test]
fn test_cleanup_dry_run() {
    let mut manager = storage();
    let ref_id = manager.create_file_ref();

    if let Some(mut fr) = manager.file_refs.remove(&ref_id) {
        fr.expires_at = "0".to_string();
        fr.files.push(FileInfo {
            filename: "old.txt".to_string(),
            path: "/tmp/old.txt".to_string(),
            size: 100,
            mime_type: "text/plain".to_string(),
            created_at: "0".to_string(),
        });
        manager.file_refs.insert(fr);
    }

    let result = manager.cleanup_expired(true);
    assert!(result.dry_run);
    assert_eq!(result.files_deleted, 1);
    assert!(manager.get_file_ref(&ref_id).is_some());
}

#[test]
fn test_cleanup_actual() {
    let mut manager = storage();
    let ref_id = manager.create_file_ref();

    if let Some(mut fr) = manager.file_refs.remove(&ref_id) {
        fr.expires_at = "0".to_string();
        manager.file_refs.insert(fr);
    }

    manager.cleanup_expired(false);
    assert!(manager.get_file_ref(&ref_id).is_none());
}

#[test]
fn test_cleanup_persistent_preserved() {
    let mut manager = storage();
    let ref_id = manager.create_file_ref();
    manager.persist(&ref_id).unwrap();

    manager.cleanup_expired(false);
    assert!(manager.get_file_ref(&ref_id).is_some());
}

#[test]
fn download_test_default_functions() {
    assert_eq!(default_download_dir(), "downloads");
    assert_eq!(default_download_timeout(), 300000);
    assert_eq!(default_parallel(), 3);
    assert_eq!(default_max_storage(), 10 * 1024 * 1024 * 1024);
    assert_eq!(default_max_file_size(), 1024 * 1024 * 1024);
    assert_eq!(default_ttl(), 24 * 60 * 60);
    assert_eq!(default_warning_threshold(), 800);
    assert_eq!(default_critical_threshold(), 950);
    assert!(default_true());
}

#[test]
fn test_chrono_helpers() {
    let now = chrono_now_iso8601();
    let _: u64 = now.parse().unwrap();

    assert_eq!(chrono_add_seconds("1000", 500), "1500");
    assert_eq!(chrono_add_seconds("invalid", 500), "500");
}

#[test]
fn test_status_equality() {
    assert_eq!(DownloadStatus::Pending, DownloadStatus::Pending);
    assert_ne!(DownloadStatus::Pending, DownloadStatus::Completed);
}

#[test]
fn cleanup_twice_removes_nothing_more() {
    let mut manager = storage();
    let keep = manager.create_file_ref();
    let gone = manager.create_file_ref();
    if let Some(mut fr) = manager.file_refs.remove(&gone) {
        fr.expires_at = "0".to_string();
        manager.file_refs.insert(fr);
    }
    let first = manager.cleanup_expired(false);
    assert_eq!(first.files_deleted, 0);
    assert!(manager.get_file_ref(&gone).is_none());
    let second = manager.cleanup_expired(false);
    assert_eq!(second.files_deleted, 0);
    assert!(manager.get_file_ref(&keep).is_some());
}

#[test]
fn status_reports_usage_fraction() {
    let mut manager = small_storage();
    let ref_id = manager.create_file_ref();
    manager.add_file(&ref_id, file("a.bin", 250)).unwrap();
    let status = manager.get_status();
    assert_eq!(status.used_bytes, 250);
    assert_eq!(status.usage, Fraction { numerator: 250, denominator: 1000 });
    assert_eq!(status.alert_level, AlertLevel::Normal);
}

#[test]
fn expiry_is_compared_as_a_number() {
    let mut manager = storage();
    let id = manager.create_file_ref();
    manager.add_file(&id, file("old.bin", 10)).unwrap();
    assert_eq!(manager.extend_ttl_at(&id, 0, "99").unwrap(), "99");
    let kept = manager.cleanup_expired_at(false, "98");
    assert_eq!(kept.files_deleted, 0);
    let report = manager.cleanup_expired_at(false, "1700000000");
    assert_eq!(report.files_deleted, 1);
    assert_eq!(report.bytes_freed, 10);
    let again = manager.cleanup_expired_at(false, "1700000000");
    assert_eq!(again.files_deleted, 0);
}

#[test]
fn zero_maximum_storage_has_no_division() {
    let mut config = StorageConfig::with_data_path(PathBuf::from("data"));
    config.max_storage_bytes = 0;
    let mut manager = StorageManager::new(config);
    assert_eq!(manager.get_status().alert_level, AlertLevel::Normal);
    let id = manager.create_file_ref();
    manager.add_file(&id, file("a.bin", 1)).unwrap();
    assert_eq!(manager.get_status().alert_level, AlertLevel::Critical);
}
