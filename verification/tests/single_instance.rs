use mem_reduct::single_instance::{
    image_path, is_peer_window, ownership, wait_timeout, InstanceGuard, Ownership,
    HANDOVER_TIMEOUT_MS, MUTEX_NAME, TAKEOVER_ARG, WAIT_ABANDONED, WAIT_OBJECT_0, WAIT_TIMEOUT,
};

#[test]
fn acquisition_succeeds_and_release_is_idempotent() {
    assert_eq!(ownership(true, WAIT_OBJECT_0), Ownership::Owned);
    let mut guard = InstanceGuard::owning(7u32);
    assert!(guard.is_held());
    assert_eq!(guard.release(), Some(7));
    assert_eq!(guard.release(), None);
    assert!(!guard.is_held());
}

#[test]
fn unavailable_guard_releases_safely() {
    let mut guard = InstanceGuard::<u32>::unavailable();
    assert_eq!(guard.release(), None);
    assert_eq!(guard.release(), None);
}

#[test]
fn ownership_and_wait() {
    assert_eq!(ownership(true, WAIT_ABANDONED), Ownership::Owned);
    assert_eq!(ownership(true, WAIT_TIMEOUT), Ownership::Duplicate);
    assert_eq!(ownership(true, 0xFFFF_FFFF), Ownership::Unguarded);
    assert_eq!(ownership(false, WAIT_OBJECT_0), Ownership::Unguarded);
    assert_eq!(wait_timeout(true), HANDOVER_TIMEOUT_MS);
    assert_eq!(wait_timeout(false), 0);
    assert_eq!(HANDOVER_TIMEOUT_MS, 15_000);
    assert_eq!(MUTEX_NAME, r"Local\MemReduct.App.SingleInstance");
    assert_eq!(TAKEOVER_ARG, "-takeover");
}

#[test]
fn peer_windows_match_by_executable() {
    let exe = r"c:\apps\mem reduct.exe";
    let img = Some(r"C:\Apps\Mem Reduct.exe".to_string());
    assert!(is_peer_window(true, 10, 42, 7, img.clone(), exe));
    assert!(!is_peer_window(false, 10, 42, 7, img.clone(), exe));
    assert!(!is_peer_window(true, 0, 42, 7, img.clone(), exe));
    assert!(!is_peer_window(true, 10, 7, 7, img.clone(), exe));
    assert!(!is_peer_window(true, 10, 0, 7, img, exe));
    assert!(!is_peer_window(true, 10, 42, 7, None, exe));
    assert!(!is_peer_window(true, 10, 42, 7, Some(r"c:\other.exe".into()), exe));
    let mut buf = vec![0u16; 512];
    let units: Vec<u16> = r"C:\Apps\X.EXE".encode_utf16().collect();
    buf[..units.len()].copy_from_slice(&units);
    assert_eq!(image_path(&buf, units.len() as u32), r"c:\apps\x.exe");
    assert_eq!(image_path(&buf, 2), "c:");
}
