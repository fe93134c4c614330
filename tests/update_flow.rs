use app_updater::progress::{DownloadSession, UpdateProgress};
use app_updater::shell::{app_environment, greet};
use app_updater::update::{
    check_for_updates, finish_install, found_info, require_update_support, start_install,
    up_to_date_info, PendingUpdate, UpdateDescriptor, UpdateInfo,
};

fn descriptor(version: &str, notes: Option<&str>, date: Option<&str>, handle: u32) -> UpdateDescriptor<u32> {
    UpdateDescriptor {
        version: version.to_string(),
        notes: notes.map(|n| n.to_string()),
        date: date.map(|d| d.to_string()),
        handle,
    }
}

fn info(version: &str, notes: &str, date: &str, available: bool) -> UpdateInfo {
    UpdateInfo {
        version: version.to_string(),
        notes: notes.to_string(),
        date: date.to_string(),
        available,
    }
}

#[test]
fn found_update_without_date_reports_unknown() {
    let mut pending: PendingUpdate<u32> = PendingUpdate::new();
    let r = check_for_updates(&mut pending, Ok(Some(descriptor("1.2.0", Some("bugfix"), None, 1))));
    assert_eq!(r, Ok(info("1.2.0", "bugfix", "Unknown", true)));
}

#[test]
fn no_update_returns_sentinel_record() {
    let mut pending: PendingUpdate<u32> = PendingUpdate::new();
    let r = check_for_updates(&mut pending, Ok(None));
    assert_eq!(r, Ok(info("", "No updates available", "", false)));
    assert_eq!(up_to_date_info(), info("", "No updates available", "", false));
}

#[test]
fn found_update_is_stored_and_replaces_prior() {
    let mut pending: PendingUpdate<u32> = PendingUpdate::new();
    let _ = check_for_updates(&mut pending, Ok(Some(descriptor("1.1.0", None, None, 1))));
    let r = check_for_updates(
        &mut pending,
        Ok(Some(descriptor("2.0.0", Some("big"), Some("2024-05-01 0:00:00.0 +00:00:00"), 2))),
    );
    assert_eq!(r, Ok(info("2.0.0", "big", "2024-05-01 0:00:00.0 +00:00:00", true)));
    let stored = pending.slot.as_ref().unwrap();
    assert_eq!(stored.version, "2.0.0");
    assert_eq!(stored.handle, 2);
}

#[test]
fn missing_notes_become_empty() {
    let r = found_info(&descriptor("3.0.1", None, Some("today"), 0));
    assert_eq!(r, info("3.0.1", "", "today", true));
}

#[test]
fn no_update_keeps_pending_slot() {
    let mut pending: PendingUpdate<u32> = PendingUpdate::new();
    let _ = check_for_updates(&mut pending, Ok(Some(descriptor("1.1.0", None, None, 5))));
    let _ = check_for_updates(&mut pending, Ok(None));
    assert_eq!(pending.slot.as_ref().unwrap().handle, 5);
}

#[test]
fn failed_check_reports_error_and_keeps_slot() {
    let mut pending: PendingUpdate<u32> = PendingUpdate::new();
    let _ = check_for_updates(&mut pending, Ok(Some(descriptor("1.1.0", None, None, 9))));
    let r = check_for_updates(&mut pending, Err("network down".to_string()));
    assert_eq!(r, Err("Failed to check for updates: network down".to_string()));
    assert_eq!(pending.slot.as_ref().unwrap().handle, 9);
}

#[test]
fn unsupported_platform_is_refused() {
    assert_eq!(require_update_support(true), Ok(()));
    assert_eq!(
        require_update_support(false),
        Err("Updates not supported on this platform".to_string())
    );
}

#[test]
fn install_with_empty_slot_fails() {
    let mut pending: PendingUpdate<u32> = PendingUpdate::new();
    assert!(pending.is_empty());
    let r = start_install(&mut pending);
    assert_eq!(r.err(), Some("No pending update found".to_string()));
    assert!(pending.is_empty());
}

#[test]
fn install_takes_pending_update_and_clears_slot() {
    let mut pending: PendingUpdate<u32> = PendingUpdate::new();
    pending.store(descriptor("1.2.0", None, None, 4));
    let d = start_install(&mut pending).ok().unwrap();
    assert_eq!(d.version, "1.2.0");
    assert_eq!(d.handle, 4);
    assert!(pending.is_empty());
}

#[test]
fn second_install_without_check_fails() {
    let mut pending: PendingUpdate<u32> = PendingUpdate::new();
    let _ = check_for_updates(&mut pending, Ok(Some(descriptor("1.2.0", None, None, 3))));
    assert!(start_install(&mut pending).is_ok());
    let second = start_install(&mut pending);
    assert_eq!(second.err(), Some("No pending update found".to_string()));
}

#[test]
fn take_returns_content_once() {
    let mut pending: PendingUpdate<u32> = PendingUpdate::new();
    pending.store(descriptor("1.0.0", None, None, 8));
    assert_eq!(pending.take().map(|d| d.handle), Some(8));
    assert!(pending.take().is_none());
}

#[test]
fn install_outcome_is_reported() {
    assert_eq!(finish_install(Ok(())), Ok(()));
    assert_eq!(
        finish_install(Err("disk full".to_string())),
        Err("Failed to download and install update: disk full".to_string())
    );
}

#[test]
fn progress_events_come_before_completion() {
    let mut s = DownloadSession::new();
    assert_eq!(
        s.on_chunk(100, Some(300)),
        Some(UpdateProgress { chunk_length: 100, content_length: Some(300) })
    );
    assert_eq!(
        s.on_chunk(200, None),
        Some(UpdateProgress { chunk_length: 200, content_length: None })
    );
    assert!(!s.finished);
    assert!(s.on_finish());
    assert!(s.finished);
    assert_eq!(s.on_chunk(50, Some(300)), None);
    assert!(!s.on_finish());
}

#[test]
fn greeting_text() {
    assert_eq!(greet("Ada"), "Hello, Ada! You've been greeted from Rust!");
    assert_eq!(greet(""), "Hello, ! You've been greeted from Rust!");
}

#[test]
fn environment_label() {
    assert_eq!(app_environment(true, Some("staging".to_string())), "development");
    assert_eq!(app_environment(false, Some("staging".to_string())), "staging");
    assert_eq!(app_environment(false, None), "production");
}
