use mem_reduct::memory::mask;
use mem_reduct::memory::{
    applied_mask, cache_counts, clean_plan, clean_result, drive_root, is_win10_plus,
    is_win8_1_plus, os_info, os_version_from, pagefile_counts, pagefile_query_step,
    physical_counts, present_drives, skips_drive_type, volume_path, volumes_flushed, ByteCounts,
    QueryStep, Region, STATUS_INFO_LENGTH_MISMATCH,
};
use mem_reduct::ntapi::{RTL_OSVERSIONINFOW, SYSTEM_FILECACHE_INFORMATION};

#[test]
fn mask_default_excludes_freezes() {
    assert_eq!(mask::DEFAULT & mask::FREEZES, 0);
    assert_ne!(mask::DEFAULT & mask::WORKINGSET, 0);
    assert_ne!(mask::DEFAULT & mask::SYSTEMFILECACHE, 0);
}

#[test]
fn mask_names_order_matches_frontend_regions() {
    assert_eq!(
        mask::names(mask::ALL),
        vec![
            "workingSet",
            "systemFileCache",
            "standbyPriority0",
            "standbyList",
            "modifiedList",
            "combineMemoryLists",
            "registryCache",
            "modifiedFileCache",
        ]
    );
    assert!(mask::names(0).is_empty());
}

#[test]
fn clean_memory_applies_and_reports() {
    let applied = applied_mask(mask::ALL, false, true);
    assert_eq!(applied & mask::FREEZES, 0);
    let plan = clean_plan(applied, true, true);
    let outcomes = vec![true; plan.len()];
    let result = clean_result(applied, &plan, &outcomes, 100, 40);
    assert_eq!(result.applied_mask & mask::FREEZES, 0);
    assert!(!result.regions.iter().any(|n| n == "standbyList" || n == "modifiedList"));
    assert_eq!(result.freed_bytes, 60);
    assert_eq!(applied_mask(mask::ALL, true, false), mask::ALL);
}

#[test]
fn cleanup_order_and_version_gates() {
    let plan = clean_plan(mask::ALL, true, true);
    assert_eq!(
        plan,
        vec![
            Region::WorkingSet,
            Region::SystemFileCache,
            Region::ModifiedFileCache,
            Region::ModifiedList,
            Region::StandbyList,
            Region::StandbyPriority0List,
            Region::RegistryCache,
            Region::CombineMemoryLists,
        ]
    );
    let old = clean_plan(mask::ALL, false, false);
    assert!(!old.contains(&Region::RegistryCache));
    assert!(!old.contains(&Region::CombineMemoryLists));
    assert_eq!(old.len(), 6);
}

#[test]
fn failed_regions_are_reported_in_order() {
    let plan = vec![Region::WorkingSet, Region::StandbyList, Region::RegistryCache];
    let result = clean_result(0x49, &plan, &vec![false, true, false], 10, 20);
    assert_eq!(result.failed, vec!["workingSet".to_string(), "registryCache".to_string()]);
    assert_eq!(result.freed_bytes, 0);
    assert_eq!(result.regions, vec!["workingSet", "standbyList", "registryCache"]);
}

#[test]
fn os_version_gates() {
    assert!(is_win8_1_plus(6, 3));
    assert!(!is_win8_1_plus(6, 2));
    assert!(is_win8_1_plus(10, 0));
    assert!(is_win10_plus(10));
    assert!(!is_win10_plus(6));
    let i = os_info(6, 1);
    assert!(!i.is_win8_1 && !i.is_win10 && i.major == 6 && i.minor == 1);
    let mut vi = RTL_OSVERSIONINFOW::default();
    assert_eq!(vi.dwOSVersionInfoSize, 276);
    vi.dwMajorVersion = 6;
    vi.dwMinorVersion = 3;
    assert_eq!(os_version_from(0, &vi), (6, 3));
    assert_eq!(os_version_from(-1, &vi), (10, 0));
}

#[test]
fn byte_counts_saturate() {
    assert_eq!(
        physical_counts(100, 30),
        ByteCounts { total_bytes: 100, free_bytes: 30, used_bytes: 70 }
    );
    assert_eq!(physical_counts(10, 30).used_bytes, 0);
    let info = SYSTEM_FILECACHE_INFORMATION { CurrentSize: 5, PeakSize: 8, ..Default::default() };
    assert_eq!(cache_counts(&info), ByteCounts { total_bytes: 8, free_bytes: 3, used_bytes: 5 });
}

fn entry(next: u32, total: u32, in_use: u32) -> Vec<u8> {
    let mut v = Vec::new();
    v.extend_from_slice(&next.to_le_bytes());
    v.extend_from_slice(&total.to_le_bytes());
    v.extend_from_slice(&in_use.to_le_bytes());
    v.extend_from_slice(&[0u8; 12]);
    v
}

#[test]
fn pagefile_list_is_walked_to_the_last_entry() {
    let mut buf = entry(24, 100, 40);
    buf.extend(entry(0, 50, 60));
    buf.extend(entry(0, 1000, 1000));
    let c = pagefile_counts(&buf, 4096);
    assert_eq!(c.total_bytes, 150 * 4096);
    assert_eq!(c.used_bytes, 100 * 4096);
    assert_eq!(c.free_bytes, 60 * 4096);
    // An offset that leaves the buffer ends the walk.
    let buf = entry(1000, 7, 1);
    assert_eq!(pagefile_counts(&buf, 1).total_bytes, 7);
    // A short buffer holds no entry.
    assert_eq!(pagefile_counts(&vec![0u8; 10], 1).total_bytes, 0);
    // Huge sizes saturate.
    let buf = entry(0, u32::MAX, 0);
    assert_eq!(pagefile_counts(&buf, u64::MAX).total_bytes, u64::MAX);
}

#[test]
fn pagefile_query_grows_then_gives_up() {
    assert_eq!(
        pagefile_query_step(0x200, 6, STATUS_INFO_LENGTH_MISMATCH),
        QueryStep::Retry { buffer_length: 0x2000, attempts_left: 5 }
    );
    assert_eq!(
        pagefile_query_step(0x4000, 5, STATUS_INFO_LENGTH_MISMATCH),
        QueryStep::Retry { buffer_length: 0x8000, attempts_left: 4 }
    );
    assert_eq!(
        pagefile_query_step(0x9000_0000, 3, STATUS_INFO_LENGTH_MISMATCH),
        QueryStep::Retry { buffer_length: 0x2000, attempts_left: 2 }
    );
    assert_eq!(pagefile_query_step(0x200, 1, STATUS_INFO_LENGTH_MISMATCH), QueryStep::GiveUp);
    assert_eq!(pagefile_query_step(0x200, 6, 0), QueryStep::Walk);
    assert_eq!(pagefile_query_step(0x200, 6, -5), QueryStep::GiveUp);
}

#[test]
fn volumes_to_flush() {
    assert_eq!(present_drives(0b101), vec![0, 2]);
    assert_eq!(present_drives(1 << 25 | 1 << 26), vec![25]);
    assert!(present_drives(0).is_empty());
    assert_eq!(drive_root(2), "C:\\");
    assert_eq!(volume_path(25), "\\\\?\\Z:\\");
    assert!(skips_drive_type(4) && skips_drive_type(5) && skips_drive_type(1));
    assert!(!skips_drive_type(3));
    assert!(volumes_flushed(0, &vec![false]));
    assert!(volumes_flushed(4, &vec![true, true]));
    assert!(!volumes_flushed(4, &vec![true, false]));
}
