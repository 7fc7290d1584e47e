//! Memory cleanup: the regions a mask selects, the order in which they are
//! cleaned, the report of a cleanup, the OS versions that gate two of the
//! regions, the volumes whose caches are flushed, and the reading of the
//! page-file list.

use vstd::prelude::*;
use crate::ntapi::{
    SystemMemoryListCommand, RTL_OSVERSIONINFOW, SYSTEM_FILECACHE_INFORMATION,
    SYSTEM_PAGEFILE_INFORMATION, PAGEFILE_ENTRY_SIZE,
};
use crate::autostart::le_u32;
use crate::text::{push_char, push_str};

pub mod mask;

verus! {

// ---------------------------------------------------------------------------
// Regions and the cleanup order
// ---------------------------------------------------------------------------

/// A cleanable memory region.
#[derive(Debug, Clone, Copy, PartialEq, Eq, Structural)]
pub enum Region {
    WorkingSet,
    SystemFileCache,
    StandbyPriority0List,
    StandbyList,
    ModifiedList,
    CombineMemoryLists,
    RegistryCache,
    ModifiedFileCache,
}

impl Region {
    /// The mask bit of the region.
    pub open spec fn bit_spec(self) -> u32 {
        match self {
            Region::WorkingSet => mask::WORKINGSET,
            Region::SystemFileCache => mask::SYSTEMFILECACHE,
            Region::StandbyPriority0List => mask::STANDBYPRIORITY0LIST,
            Region::StandbyList => mask::STANDBYLIST,
            Region::ModifiedList => mask::MODIFIEDLIST,
            Region::CombineMemoryLists => mask::COMBINEMEMORYLISTS,
            Region::RegistryCache => mask::REGISTRYCACHE,
            Region::ModifiedFileCache => mask::MODIFIEDFILECACHE,
        }
    }

    /// The region key shown by the UI.
    pub open spec fn key_spec(self) -> Seq<char> {
        match self {
            Region::WorkingSet => "workingSet"@,
            Region::SystemFileCache => "systemFileCache"@,
            Region::StandbyPriority0List => "standbyPriority0"@,
            Region::StandbyList => "standbyList"@,
            Region::ModifiedList => "modifiedList"@,
            Region::CombineMemoryLists => "combineMemoryLists"@,
            Region::RegistryCache => "registryCache"@,
            Region::ModifiedFileCache => "modifiedFileCache"@,
        }
    }

    /// The mask bit of the region.
    pub fn bit(&self) -> (b: u32)
        ensures
            b == self.bit_spec(),
    {
        match self {
            Region::WorkingSet => mask::WORKINGSET,
            Region::SystemFileCache => mask::SYSTEMFILECACHE,
            Region::StandbyPriority0List => mask::STANDBYPRIORITY0LIST,
            Region::StandbyList => mask::STANDBYLIST,
            Region::ModifiedList => mask::MODIFIEDLIST,
            Region::CombineMemoryLists => mask::COMBINEMEMORYLISTS,
            Region::RegistryCache => mask::REGISTRYCACHE,
            Region::ModifiedFileCache => mask::MODIFIEDFILECACHE,
        }
    }

    /// The region key shown by the UI.
    pub fn key(&self) -> (k: &'static str)
        ensures
            k@ == self.key_spec(),
    {
        match self {
            Region::WorkingSet => "workingSet",
            Region::SystemFileCache => "systemFileCache",
            Region::StandbyPriority0List => "standbyPriority0",
            Region::StandbyList => "standbyList",
            Region::ModifiedList => "modifiedList",
            Region::CombineMemoryLists => "combineMemoryLists",
            Region::RegistryCache => "registryCache",
            Region::ModifiedFileCache => "modifiedFileCache",
        }
    }

    /// The `SystemMemoryListInformation` command that cleans the region, for
    /// the four regions cleaned that way.
    pub fn memory_list_command(&self) -> (c: Option<SystemMemoryListCommand>)
        ensures
            c == (match *self {
                Region::WorkingSet => Some(SystemMemoryListCommand::MemoryEmptyWorkingSets),
                Region::ModifiedList => Some(SystemMemoryListCommand::MemoryFlushModifiedList),
                Region::StandbyList => Some(SystemMemoryListCommand::MemoryPurgeStandbyList),
                Region::StandbyPriority0List => Some(
                    SystemMemoryListCommand::MemoryPurgeLowPriorityStandbyList,
                ),
                _ => None,
            }),
    {
        match self {
            Region::WorkingSet => Some(SystemMemoryListCommand::MemoryEmptyWorkingSets),
            Region::ModifiedList => Some(SystemMemoryListCommand::MemoryFlushModifiedList),
            Region::StandbyList => Some(SystemMemoryListCommand::MemoryPurgeStandbyList),
            Region::StandbyPriority0List => Some(
                SystemMemoryListCommand::MemoryPurgeLowPriorityStandbyList,
            ),
            _ => None,
        }
    }
}

/// The key a cleanup reports for a failed region is the name the mask gives
/// that region's bit: each region owns exactly one bit of the mask, and a mask
/// of that bit alone names that region and nothing else.
pub proof fn region_keys_match_mask_names()
    ensures
        forall|r: Region| #[trigger] mask::region_names(r.bit_spec()) == seq![r.key_spec()],
{
    assert forall|r: Region| #[trigger] mask::region_names(r.bit_spec()) == seq![r.key_spec()] by {
        match r {
            Region::WorkingSet => {
                assert(0x01u32 & 0x01u32 != 0 && 0x01u32 & 0x02u32 == 0 && 0x01u32 & 0x04u32 == 0 && 0x01u32 & 0x08u32 == 0 && 0x01u32 & 0x10u32 == 0 && 0x01u32 & 0x20u32 == 0 && 0x01u32 & 0x40u32 == 0 && 0x01u32 & 0x80u32 == 0) by (bit_vector);
                assert(mask::region_names(0x01) =~= seq![r.key_spec()]);
            },
            Region::SystemFileCache => {
                assert(0x02u32 & 0x01u32 == 0 && 0x02u32 & 0x02u32 != 0 && 0x02u32 & 0x04u32 == 0 && 0x02u32 & 0x08u32 == 0 && 0x02u32 & 0x10u32 == 0 && 0x02u32 & 0x20u32 == 0 && 0x02u32 & 0x40u32 == 0 && 0x02u32 & 0x80u32 == 0) by (bit_vector);
                assert(mask::region_names(0x02) =~= seq![r.key_spec()]);
            },
            Region::StandbyPriority0List => {
                assert(0x04u32 & 0x01u32 == 0 && 0x04u32 & 0x02u32 == 0 && 0x04u32 & 0x04u32 != 0 && 0x04u32 & 0x08u32 == 0 && 0x04u32 & 0x10u32 == 0 && 0x04u32 & 0x20u32 == 0 && 0x04u32 & 0x40u32 == 0 && 0x04u32 & 0x80u32 == 0) by (bit_vector);
                assert(mask::region_names(0x04) =~= seq![r.key_spec()]);
            },
            Region::StandbyList => {
                assert(0x08u32 & 0x01u32 == 0 && 0x08u32 & 0x02u32 == 0 && 0x08u32 & 0x04u32 == 0 && 0x08u32 & 0x08u32 != 0 && 0x08u32 & 0x10u32 == 0 && 0x08u32 & 0x20u32 == 0 && 0x08u32 & 0x40u32 == 0 && 0x08u32 & 0x80u32 == 0) by (bit_vector);
                assert(mask::region_names(0x08) =~= seq![r.key_spec()]);
            },
            Region::ModifiedList => {
                assert(0x10u32 & 0x01u32 == 0 && 0x10u32 & 0x02u32 == 0 && 0x10u32 & 0x04u32 == 0 && 0x10u32 & 0x08u32 == 0 && 0x10u32 & 0x10u32 != 0 && 0x10u32 & 0x20u32 == 0 && 0x10u32 & 0x40u32 == 0 && 0x10u32 & 0x80u32 == 0) by (bit_vector);
                assert(mask::region_names(0x10) =~= seq![r.key_spec()]);
            },
            Region::CombineMemoryLists => {
                assert(0x20u32 & 0x01u32 == 0 && 0x20u32 & 0x02u32 == 0 && 0x20u32 & 0x04u32 == 0 && 0x20u32 & 0x08u32 == 0 && 0x20u32 & 0x10u32 == 0 && 0x20u32 & 0x20u32 != 0 && 0x20u32 & 0x40u32 == 0 && 0x20u32 & 0x80u32 == 0) by (bit_vector);
                assert(mask::region_names(0x20) =~= seq![r.key_spec()]);
            },
            Region::RegistryCache => {
                assert(0x40u32 & 0x01u32 == 0 && 0x40u32 & 0x02u32 == 0 && 0x40u32 & 0x04u32 == 0 && 0x40u32 & 0x08u32 == 0 && 0x40u32 & 0x10u32 == 0 && 0x40u32 & 0x20u32 == 0 && 0x40u32 & 0x40u32 != 0 && 0x40u32 & 0x80u32 == 0) by (bit_vector);
                assert(mask::region_names(0x40) =~= seq![r.key_spec()]);
            },
            Region::ModifiedFileCache => {
                assert(0x80u32 & 0x01u32 == 0 && 0x80u32 & 0x02u32 == 0 && 0x80u32 & 0x04u32 == 0 && 0x80u32 & 0x08u32 == 0 && 0x80u32 & 0x10u32 == 0 && 0x80u32 & 0x20u32 == 0 && 0x80u32 & 0x40u32 == 0 && 0x80u32 & 0x80u32 != 0) by (bit_vector);
                assert(mask::region_names(0x80) =~= seq![r.key_spec()]);
            },
        }
    }
}

/// An automatic cleanup never touches the freezing regions (standby and
/// modified lists) unless standby-list cleanup is allowed for it, and it
/// cleans nothing that was not asked for.
pub proof fn autoclean_spares_freezing_regions(mask: u32)
    ensures
        (mask & !mask::FREEZES) & mask::FREEZES == 0,
        (mask & !mask::FREEZES) & !mask == 0,
        (mask & !mask::FREEZES) & !mask::FREEZES == mask & !mask::FREEZES,
{
    assert((mask & !0x18u32) & 0x18u32 == 0) by (bit_vector);
    assert((mask & !0x18u32) & !mask == 0) by (bit_vector);
    assert((mask & !0x18u32) & !0x18u32 == mask & !0x18u32) by (bit_vector);
}

/// The mask a cleanup actually applies: an automatic cleanup drops the
/// freezing regions unless standby-list cleanup is allowed for it.
pub fn applied_mask(mask: u32, allow_standby_in_auto: bool, is_autoclean: bool) -> (m: u32)
    ensures
        m == (if is_autoclean && !allow_standby_in_auto {
            mask & !mask::FREEZES
        } else {
            mask
        }),
{
    if is_autoclean && !allow_standby_in_auto {
        mask & !mask::FREEZES
    } else {
        mask
    }
}

/// The regions cleaned for `applied`, in the order they are cleaned: the
/// registry cache only from Windows 8.1 and the memory lists are combined only
/// from Windows 10.
pub open spec fn planned_regions(applied: u32, win8_1: bool, win10: bool) -> Seq<Region> {
    (if applied & mask::WORKINGSET != 0 { seq![Region::WorkingSet] } else { seq![] })
    + (if applied & mask::SYSTEMFILECACHE != 0 { seq![Region::SystemFileCache] } else { seq![] })
    + (if applied & mask::MODIFIEDFILECACHE != 0 { seq![Region::ModifiedFileCache] } else { seq![] })
    + (if applied & mask::MODIFIEDLIST != 0 { seq![Region::ModifiedList] } else { seq![] })
    + (if applied & mask::STANDBYLIST != 0 { seq![Region::StandbyList] } else { seq![] })
    + (if applied & mask::STANDBYPRIORITY0LIST != 0 { seq![Region::StandbyPriority0List] } else { seq![] })
    + (if win8_1 && applied & mask::REGISTRYCACHE != 0 { seq![Region::RegistryCache] } else { seq![] })
    + (if win10 && applied & mask::COMBINEMEMORYLISTS != 0 { seq![Region::CombineMemoryLists] } else { seq![] })
}

fn plan_step(plan: &mut Vec<Region>, wanted: bool, region: Region)
    ensures
        final(plan)@ == old(plan)@ + (if wanted {
            seq![region]
        } else {
            seq![]
        }),
{
    if wanted {
        plan.push(region);
        assert(plan@ =~= old(plan)@ + seq![region]);
    } else {
        assert(plan@ =~= old(plan)@ + seq![]);
    }
}

/// The regions to clean for the applied mask, in cleaning order.
pub fn clean_plan(applied: u32, win8_1: bool, win10: bool) -> (plan: Vec<Region>)
    ensures
        plan@ == planned_regions(applied, win8_1, win10),
{
    let mut plan: Vec<Region> = Vec::new();
    assert(plan@ =~= seq![]);
    plan_step(&mut plan, applied & mask::WORKINGSET != 0, Region::WorkingSet);
    plan_step(&mut plan, applied & mask::SYSTEMFILECACHE != 0, Region::SystemFileCache);
    plan_step(&mut plan, applied & mask::MODIFIEDFILECACHE != 0, Region::ModifiedFileCache);
    plan_step(&mut plan, applied & mask::MODIFIEDLIST != 0, Region::ModifiedList);
    plan_step(&mut plan, applied & mask::STANDBYLIST != 0, Region::StandbyList);
    plan_step(&mut plan, applied & mask::STANDBYPRIORITY0LIST != 0, Region::StandbyPriority0List);
    plan_step(&mut plan, win8_1 && applied & mask::REGISTRYCACHE != 0, Region::RegistryCache);
    plan_step(&mut plan, win10 && applied & mask::COMBINEMEMORYLISTS != 0, Region::CombineMemoryLists);
    assert(plan@ =~= planned_regions(applied, win8_1, win10));
    plan
}

/// The position of a region in the cleaning order: working sets first, then
/// the system file cache, the modified file cache, the modified list, the
/// standby list, the priority-0 standby list, the registry cache, and last the
/// combining of the memory lists.
pub open spec fn cleaning_rank(r: Region) -> int {
    match r {
        Region::WorkingSet => 0,
        Region::SystemFileCache => 1,
        Region::ModifiedFileCache => 2,
        Region::ModifiedList => 3,
        Region::StandbyList => 4,
        Region::StandbyPriority0List => 5,
        Region::RegistryCache => 6,
        Region::CombineMemoryLists => 7,
    }
}

/// Regions listed in strictly increasing cleaning order, each ranked below `bound`.
pub open spec fn in_cleaning_order(s: Seq<Region>, bound: int) -> bool {
    &&& forall|i: int, j: int|
        0 <= i < j < s.len() ==> cleaning_rank(#[trigger] s[i]) < cleaning_rank(#[trigger] s[j])
    &&& forall|i: int| 0 <= i < s.len() ==> cleaning_rank(#[trigger] s[i]) < bound
}

proof fn lemma_plan_extend(s: Seq<Region>, wanted: bool, r: Region)
    requires
        in_cleaning_order(s, cleaning_rank(r)),
    ensures
        in_cleaning_order(
            s + (if wanted { seq![r] } else { seq![] }),
            cleaning_rank(r) + 1,
        ),
        forall|x: Region|
            (s + (if wanted { seq![r] } else { seq![] })).contains(x) <==> (s.contains(x) || (
            wanted && x == r)),
{
    let t = s + (if wanted { seq![r] } else { seq![] });
    assert forall|x: Region| t.contains(x) <==> (s.contains(x) || (wanted && x == r)) by {
        if t.contains(x) {
            let k = choose|k: int| 0 <= k < t.len() && t[k] == x;
            if k < s.len() {
                assert(s[k] == x);
            }
        }
        if s.contains(x) {
            let k = choose|k: int| 0 <= k < s.len() && s[k] == x;
            assert(t[k] == x);
        }
        if wanted && x == r {
            assert(t[s.len() as int] == x);
        }
    }
}

/// What a cleanup cleans: a region is in the plan exactly when its bit is set
/// in the applied mask, the registry cache only on Windows 8.1 or later and the
/// combining of the memory lists only on Windows 10 or later; and the plan lists
/// the regions in the fixed cleaning order, each at most once.
pub proof fn clean_plan_selects_by_mask(applied: u32, win8_1: bool, win10: bool)
    ensures
        planned_regions(applied, win8_1, win10).contains(Region::WorkingSet)
            <==> applied & 0x01 != 0,
        planned_regions(applied, win8_1, win10).contains(Region::SystemFileCache)
            <==> applied & 0x02 != 0,
        planned_regions(applied, win8_1, win10).contains(Region::StandbyPriority0List)
            <==> applied & 0x04 != 0,
        planned_regions(applied, win8_1, win10).contains(Region::StandbyList)
            <==> applied & 0x08 != 0,
        planned_regions(applied, win8_1, win10).contains(Region::ModifiedList)
            <==> applied & 0x10 != 0,
        planned_regions(applied, win8_1, win10).contains(Region::CombineMemoryLists)
            <==> (win10 && applied & 0x20 != 0),
        planned_regions(applied, win8_1, win10).contains(Region::RegistryCache)
            <==> (win8_1 && applied & 0x40 != 0),
        planned_regions(applied, win8_1, win10).contains(Region::ModifiedFileCache)
            <==> applied & 0x80 != 0,
        forall|i: int, j: int|
            0 <= i < j < planned_regions(applied, win8_1, win10).len() ==> cleaning_rank(
                #[trigger] planned_regions(applied, win8_1, win10)[i],
            ) < cleaning_rank(#[trigger] planned_regions(applied, win8_1, win10)[j]),
{
    let s0: Seq<Region> = seq![];
    let w0 = applied & mask::WORKINGSET != 0;
    let w1 = applied & mask::SYSTEMFILECACHE != 0;
    let w2 = applied & mask::MODIFIEDFILECACHE != 0;
    let w3 = applied & mask::MODIFIEDLIST != 0;
    let w4 = applied & mask::STANDBYLIST != 0;
    let w5 = applied & mask::STANDBYPRIORITY0LIST != 0;
    let w6 = win8_1 && applied & mask::REGISTRYCACHE != 0;
    let w7 = win10 && applied & mask::COMBINEMEMORYLISTS != 0;
    let s1 = s0 + (if w0 { seq![Region::WorkingSet] } else { seq![] });
    let s2 = s1 + (if w1 { seq![Region::SystemFileCache] } else { seq![] });
    let s3 = s2 + (if w2 { seq![Region::ModifiedFileCache] } else { seq![] });
    let s4 = s3 + (if w3 { seq![Region::ModifiedList] } else { seq![] });
    let s5 = s4 + (if w4 { seq![Region::StandbyList] } else { seq![] });
    let s6 = s5 + (if w5 { seq![Region::StandbyPriority0List] } else { seq![] });
    let s7 = s6 + (if w6 { seq![Region::RegistryCache] } else { seq![] });
    let s8 = s7 + (if w7 { seq![Region::CombineMemoryLists] } else { seq![] });
    lemma_plan_extend(s0, w0, Region::WorkingSet);
    lemma_plan_extend(s1, w1, Region::SystemFileCache);
    lemma_plan_extend(s2, w2, Region::ModifiedFileCache);
    lemma_plan_extend(s3, w3, Region::ModifiedList);
    lemma_plan_extend(s4, w4, Region::StandbyList);
    lemma_plan_extend(s5, w5, Region::StandbyPriority0List);
    lemma_plan_extend(s6, w6, Region::RegistryCache);
    lemma_plan_extend(s7, w7, Region::CombineMemoryLists);
    assert(s8 =~= planned_regions(applied, win8_1, win10));
    assert(!s0.contains(Region::WorkingSet));
    assert(!s0.contains(Region::SystemFileCache));
    assert(!s0.contains(Region::StandbyPriority0List));
    assert(!s0.contains(Region::StandbyList));
    assert(!s0.contains(Region::ModifiedList));
    assert(!s0.contains(Region::CombineMemoryLists));
    assert(!s0.contains(Region::RegistryCache));
    assert(!s0.contains(Region::ModifiedFileCache));
}

/// Result of a memory cleanup.
#[derive(Debug)]
pub struct CleanResult {
    /// Bytes freed (used memory difference).
    pub freed_bytes: u64,
    /// Mask that was actually applied.
    pub applied_mask: u32,
    /// Names of the regions that were cleaned.
    pub regions: Vec<String>,
    /// Region keys whose underlying NT call failed, in cleaning order.
    pub failed: Vec<String>,
}

/// The keys of the planned regions whose call did not succeed, in order.
pub open spec fn failed_keys(plan: Seq<Region>, succeeded: Seq<bool>) -> Seq<Seq<char>>
    decreases plan.len(),
{
    if plan.len() == 0 {
        seq![]
    } else {
        failed_keys(plan.drop_last(), succeeded.drop_last()) + (if succeeded.last() {
            seq![]
        } else {
            seq![plan.last().key_spec()]
        })
    }
}

pub open spec fn string_views(v: Seq<String>) -> Seq<Seq<char>> {
    v.map_values(|s: String| s@)
}

/// `before - after`, or `0` when usage went up.
pub open spec fn freed(before: u64, after: u64) -> u64 {
    if before >= after {
        (before - after) as u64
    } else {
        0
    }
}

/// The report of a cleanup that applied `applied`, ran the regions of `plan`
/// with the outcomes `succeeded`, and measured `before` and `after` bytes of
/// used physical memory.
pub fn clean_result(
    applied: u32,
    plan: &Vec<Region>,
    succeeded: &Vec<bool>,
    before: u64,
    after: u64,
) -> (r: CleanResult)
    requires
        plan.len() == succeeded.len(),
    ensures
        r.freed_bytes == freed(before, after),
        r.applied_mask == applied,
        string_views(r.regions@) == mask::region_names(applied),
        string_views(r.failed@) == failed_keys(plan@, succeeded@),
{
    let names = mask::names(applied);
    let mut regions: Vec<String> = Vec::new();
    let mut i: usize = 0;
    while i < names.len()
        invariant
            i <= names.len(),
            string_views(regions@) == mask::views_of(names@).take(i as int),
        decreases names.len() - i,
    {
        let ghost prev = string_views(regions@);
        let name = String::from_str(names[i]);
        regions.push(name);
        assert(mask::views_of(names@)[i as int] == names@[i as int]@);
        assert(string_views(regions@) =~= prev.push(name@));
        assert(mask::views_of(names@).take(i + 1) =~= mask::views_of(names@).take(i as int).push(
            names@[i as int]@,
        ));
        i += 1;
    }
    assert(mask::views_of(names@).take(names.len() as int) == mask::views_of(names@));
    let mut failed: Vec<String> = Vec::new();
    let mut j: usize = 0;
    while j < plan.len()
        invariant
            j <= plan.len(),
            plan.len() == succeeded.len(),
            string_views(failed@) == failed_keys(plan@.take(j as int), succeeded@.take(j as int)),
        decreases plan.len() - j,
    {
        assert(plan@.take(j + 1).drop_last() == plan@.take(j as int));
        assert(succeeded@.take(j + 1).drop_last() == succeeded@.take(j as int));
        let ghost prev = string_views(failed@);
        if !succeeded[j] {
            failed.push(String::from_str(plan[j].key()));
            assert(string_views(failed@) =~= prev + seq![plan@[j as int].key_spec()]);
        } else {
            assert(string_views(failed@) =~= prev + seq![]);
        }
        assert(string_views(failed@) == failed_keys(plan@.take(j + 1), succeeded@.take(j + 1)));
        j += 1;
    }
    assert(plan@.take(plan.len() as int) == plan@);
    assert(succeeded@.take(plan.len() as int) == succeeded@);
    CleanResult {
        freed_bytes: before.saturating_sub(after),
        applied_mask: applied,
        regions,
        failed,
    }
}

// ---------------------------------------------------------------------------
// OS version
// ---------------------------------------------------------------------------

/// The version `RtlGetVersion` reported, or Windows 10 when the call failed
/// (the common modern system).
pub fn os_version_from(status: i32, info: &RTL_OSVERSIONINFOW) -> (v: (u32, u32))
    ensures
        status >= 0 ==> v == (info.dwMajorVersion, info.dwMinorVersion),
        status < 0 ==> v == (10u32, 0u32),
{
    if crate::ntapi::NT_SUCCESS(status) {
        (info.dwMajorVersion, info.dwMinorVersion)
    } else {
        (10, 0)
    }
}

/// True on Windows 8.1+ (registry cache feature).
pub fn is_win8_1_plus(major: u32, minor: u32) -> (r: bool)
    ensures
        r == (major > 6 || (major == 6 && minor >= 3)),
{
    major > 6 || (major == 6 && minor >= 3)
}

/// True on Windows 10+ (combine memory lists feature).
pub fn is_win10_plus(major: u32) -> (r: bool)
    ensures
        r == (major >= 10),
{
    major >= 10
}

/// OS version information for the UI.
#[derive(Debug, Clone, Copy, PartialEq, Eq, Structural)]
pub struct OsInfo {
    pub major: u32,
    pub minor: u32,
    pub is_win8_1: bool,
    pub is_win10: bool,
}

/// The OS information for version `major.minor`.
pub fn os_info(major: u32, minor: u32) -> (i: OsInfo)
    ensures
        i.major == major,
        i.minor == minor,
        i.is_win8_1 == (major > 6 || (major == 6 && minor >= 3)),
        i.is_win10 == (major >= 10),
{
    OsInfo { major, minor, is_win8_1: is_win8_1_plus(major, minor), is_win10: is_win10_plus(major) }
}

// ---------------------------------------------------------------------------
// Byte counts of the measured regions
// ---------------------------------------------------------------------------

/// Total, free and used bytes of a measured region.
#[derive(Debug, Clone, Copy, PartialEq, Eq, Structural)]
pub struct ByteCounts {
    pub total_bytes: u64,
    pub free_bytes: u64,
    pub used_bytes: u64,
}

/// `a - b`, or `0` when `b` is larger.
pub open spec fn sat_sub(a: int, b: int) -> int {
    if a >= b {
        a - b
    } else {
        0
    }
}

/// `x`, capped at `u64::MAX`.
pub open spec fn cap_u64(x: int) -> u64 {
    if x <= u64::MAX {
        x as u64
    } else {
        u64::MAX
    }
}

/// Physical memory from `GlobalMemoryStatusEx`: the total, the available
/// bytes, and the difference as used.
pub fn physical_counts(total_phys: u64, avail_phys: u64) -> (c: ByteCounts)
    ensures
        c.total_bytes == total_phys,
        c.free_bytes == avail_phys,
        c.used_bytes == sat_sub(total_phys as int, avail_phys as int),
{
    ByteCounts {
        total_bytes: total_phys,
        free_bytes: avail_phys,
        used_bytes: total_phys.saturating_sub(avail_phys),
    }
}

/// The system file cache: its peak size as total, its current size as used.
pub fn cache_counts(info: &SYSTEM_FILECACHE_INFORMATION) -> (c: ByteCounts)
    ensures
        c.total_bytes == info.PeakSize,
        c.used_bytes == info.CurrentSize,
        c.free_bytes == sat_sub(info.PeakSize as int, info.CurrentSize as int),
{
    let peak = info.PeakSize as u64;
    let current = info.CurrentSize as u64;
    ByteCounts { total_bytes: peak, used_bytes: current, free_bytes: peak.saturating_sub(current) }
}

// ---------------------------------------------------------------------------
// The page-file list
// ---------------------------------------------------------------------------

/// The page-file entry at byte `at` of `buf`, if all of it lies in the buffer.
pub open spec fn pagefile_entry_at(buf: Seq<u8>, at: int) -> Option<(u32, u32, u32)> {
    if at + PAGEFILE_ENTRY_SIZE <= buf.len() {
        Some((le_u32(buf, at) as u32, le_u32(buf, at + 4) as u32, le_u32(buf, at + 8) as u32))
    } else {
        None
    }
}

/// The entries of the page-file list starting at byte `at`, each as
/// `(next offset, total pages, pages in use)`: an entry links to the next by
/// its offset and the last one has offset `0`; the walk also stops at an entry
/// that does not lie wholly in the buffer.
pub open spec fn pagefile_entries(buf: Seq<u8>, at: int) -> Seq<(u32, u32, u32)>
    decreases buf.len() - at,
{
    match pagefile_entry_at(buf, at) {
        None => seq![],
        Some(e) => if e.0 == 0 || at + e.0 > buf.len() {
            seq![e]
        } else {
            seq![e] + pagefile_entries(buf, at + e.0)
        },
    }
}

/// The sum over `entries` of `f` of each.
pub open spec fn pages_sum(entries: Seq<(u32, u32, u32)>, which: int) -> int
    decreases entries.len(),
{
    if entries.len() == 0 {
        0
    } else {
        let e = entries[0];
        let v = if which == 0 {
            e.1 as int
        } else if which == 1 {
            e.2 as int
        } else {
            sat_sub(e.1 as int, e.2 as int)
        };
        v + pages_sum(entries.drop_first(), which)
    }
}

/// Page-file usage from the list `NtQuerySystemInformation` filled `buf`
/// with: the sizes of all entries times `page_size`, totals capped at
/// `u64::MAX`.
pub open spec fn pagefile_counts_spec(buf: Seq<u8>, page_size: u64) -> ByteCounts {
    let entries = pagefile_entries(buf, 0);
    ByteCounts {
        total_bytes: cap_u64(pages_sum(entries, 0) * page_size),
        used_bytes: cap_u64(pages_sum(entries, 1) * page_size),
        free_bytes: cap_u64(pages_sum(entries, 2) * page_size),
    }
}

fn read_u32_le(buf: &Vec<u8>, at: usize) -> (v: u32)
    requires
        at + 4 <= buf.len(),
    ensures
        v == le_u32(buf@, at as int),
{
    let b0 = buf[at] as u32;
    let b1 = buf[at + 1] as u32;
    let b2 = buf[at + 2] as u32;
    let b3 = buf[at + 3] as u32;
    b0 + b1 * 0x100 + b2 * 0x1_0000 + b3 * 0x100_0000
}

/// The entry at byte `at` of the page-file list.
pub fn pagefile_entry(buf: &Vec<u8>, at: usize) -> (e: Option<SYSTEM_PAGEFILE_INFORMATION>)
    ensures
        match pagefile_entry_at(buf@, at as int) {
            None => e is None,
            Some(t) => e matches Some(x) && (x.NextEntryOffset, x.TotalSize, x.TotalInUse) == t,
        },
{
    if at > buf.len() || buf.len() - at < PAGEFILE_ENTRY_SIZE {
        return None;
    }
    Some(
        SYSTEM_PAGEFILE_INFORMATION {
            NextEntryOffset: read_u32_le(buf, at),
            TotalSize: read_u32_le(buf, at + 4),
            TotalInUse: read_u32_le(buf, at + 8),
            PeakUsage: read_u32_le(buf, at + 12),
            CurrentUsage: read_u32_le(buf, at + 16),
        },
    )
}

proof fn lemma_pages_sum_push(entries: Seq<(u32, u32, u32)>, e: (u32, u32, u32), which: int)
    ensures
        pages_sum(entries.push(e), which) == pages_sum(entries, which) + pages_sum(seq![e], which),
    decreases entries.len(),
{
    if entries.len() > 0 {
        assert(entries.push(e).drop_first() =~= entries.drop_first().push(e));
        lemma_pages_sum_push(entries.drop_first(), e, which);
    } else {
        assert(entries.push(e) =~= seq![e]);
    }
}

proof fn lemma_pages_sum_nonneg(entries: Seq<(u32, u32, u32)>, which: int)
    ensures
        pages_sum(entries, which) >= 0,
    decreases entries.len(),
{
    if entries.len() > 0 {
        lemma_pages_sum_nonneg(entries.drop_first(), which);
    }
}

proof fn lemma_cap_step(acc: u64, sum: int, add: int, page: u64)
    requires
        sum >= 0,
        add >= 0,
        acc == cap_u64(sum * page),
    ensures
        cap_u64((sum + add) * page) == (if acc as int + add * page > u64::MAX {
            u64::MAX
        } else {
            (acc + add * page) as u64
        }),
{
    assert((sum + add) * page == sum * page + add * page) by (nonlinear_arith);
    assert(add * page >= 0) by (nonlinear_arith)
        requires
            add >= 0,
    ;
    assert(sum * page >= 0) by (nonlinear_arith)
        requires
            sum >= 0,
    ;
}

fn add_pages(acc: u64, pages: u32, page_size: u64) -> (r: u64)
    ensures
        r == (if acc as int + pages as int * page_size > u64::MAX {
            u64::MAX
        } else {
            (acc + pages as int * page_size) as u64
        }),
{
    let bytes = (pages as u64).checked_mul(page_size);
    match bytes {
        Some(b) => acc.saturating_add(b),
        None => {
            assert(pages as int * page_size > u64::MAX);
            u64::MAX
        },
    }
}

/// Page-file usage: walks the list `NtQuerySystemInformation` wrote into
/// `buf`, following each entry's offset to the next until an entry with
/// offset `0` (or one that does not lie wholly in the buffer), and adds up
/// the entries' sizes in `page_size` pages.
pub fn pagefile_counts(buf: &Vec<u8>, page_size: u64) -> (c: ByteCounts)
    ensures
        c == pagefile_counts_spec(buf@, page_size),
{
    let mut total: u64 = 0;
    let mut used: u64 = 0;
    let mut free: u64 = 0;
    let mut at: usize = 0;
    let ghost mut seen: Seq<(u32, u32, u32)> = seq![];
    let ghost all = pagefile_entries(buf@, 0);
    loop
        invariant_except_break
            all == seen + pagefile_entries(buf@, at as int),
        invariant
            all == pagefile_entries(buf@, 0),
            at <= buf.len(),
            total == cap_u64(pages_sum(seen, 0) * page_size),
            used == cap_u64(pages_sum(seen, 1) * page_size),
            free == cap_u64(pages_sum(seen, 2) * page_size),
        ensures
            all == seen,
            total == cap_u64(pages_sum(seen, 0) * page_size),
            used == cap_u64(pages_sum(seen, 1) * page_size),
            free == cap_u64(pages_sum(seen, 2) * page_size),
        decreases buf.len() - at,
    {
        let entry = pagefile_entry(buf, at);
        match entry {
            None => {
                assert(pagefile_entries(buf@, at as int) =~= seq![]);
                assert(seen + seq![] =~= seen);
                break;
            },
            Some(e) => {
                let ghost t = (e.NextEntryOffset, e.TotalSize, e.TotalInUse);
                proof {
                    lemma_pages_sum_nonneg(seen, 0);
                    lemma_pages_sum_nonneg(seen, 1);
                    lemma_pages_sum_nonneg(seen, 2);
                    lemma_pages_sum_push(seen, t, 0);
                    lemma_pages_sum_push(seen, t, 1);
                    lemma_pages_sum_push(seen, t, 2);
                    assert(seq![t].drop_first() =~= Seq::<(u32, u32, u32)>::empty());
                    assert(pages_sum(seq![t].drop_first(), 0) == 0);
                    assert(pages_sum(seq![t].drop_first(), 1) == 0);
                    assert(pages_sum(seq![t].drop_first(), 2) == 0);
                    assert(pages_sum(seq![t], 0) == e.TotalSize as int);
                    assert(pages_sum(seq![t], 1) == e.TotalInUse as int);
                    assert(pages_sum(seq![t], 2) == sat_sub(e.TotalSize as int, e.TotalInUse as int));
                    lemma_cap_step(total, pages_sum(seen, 0), e.TotalSize as int, page_size);
                    lemma_cap_step(used, pages_sum(seen, 1), e.TotalInUse as int, page_size);
                    lemma_cap_step(
                        free,
                        pages_sum(seen, 2),
                        sat_sub(e.TotalSize as int, e.TotalInUse as int),
                        page_size,
                    );
                }
                total = add_pages(total, e.TotalSize, page_size);
                used = add_pages(used, e.TotalInUse, page_size);
                free = add_pages(free, e.TotalSize.saturating_sub(e.TotalInUse), page_size);
                proof {
                    let rest = pagefile_entries(buf@, at as int);
                    assert(rest[0] == t);
                    seen = seen.push(t);
                }
                if e.NextEntryOffset == 0 {
                    assert(pagefile_entries(buf@, at as int) =~= seq![t]);
                    break;
                }
                let next = (e.NextEntryOffset as usize);
                if next > buf.len() - at {
                    assert(pagefile_entries(buf@, at as int) =~= seq![t]);
                    break;
                }
                proof {
                    assert(pagefile_entries(buf@, at as int) =~= seq![t] + pagefile_entries(
                        buf@,
                        at + next,
                    ));
                    assert(all =~= seen + pagefile_entries(buf@, at + next));
                }
                at = at + next;
            },
        }
    }
    ByteCounts { total_bytes: total, used_bytes: used, free_bytes: free }
}

/// `STATUS_INFO_LENGTH_MISMATCH`: the buffer was too small for the list.
pub const STATUS_INFO_LENGTH_MISMATCH: i32 = -1073741820i32;

/// The first buffer length tried for the page-file list.
pub const PAGEFILE_BUFFER_START: u32 = 0x200;

/// How many times the page-file query is tried.
pub const PAGEFILE_ATTEMPTS: u32 = 6;

/// What to do after a page-file query.
#[derive(Debug, Clone, Copy, PartialEq, Eq, Structural)]
pub enum QueryStep {
    /// The buffer was too small: query again with `buffer_length` bytes,
    /// `attempts_left` tries remaining.
    Retry { buffer_length: u32, attempts_left: u32 },
    /// The list is in the buffer: walk it.
    Walk,
    /// Stop and report nothing.
    GiveUp,
}

/// The next buffer length after a too-small one: doubled, at least `0x2000`
/// (and `0x2000` when doubling overflows).
pub open spec fn grown_length(len: u32) -> u32 {
    if len * 2 > u32::MAX || len * 2 < 0x2000 {
        0x2000
    } else {
        (len * 2) as u32
    }
}

/// The step after a query with a `buffer_length`-byte buffer, with
/// `attempts_left` tries (this one included), that returned `status`.
pub fn pagefile_query_step(buffer_length: u32, attempts_left: u32, status: i32) -> (step: QueryStep)
    requires
        attempts_left >= 1,
    ensures
        status == STATUS_INFO_LENGTH_MISMATCH ==> (if attempts_left == 1 {
            step == QueryStep::GiveUp
        } else {
            step == (QueryStep::Retry {
                buffer_length: grown_length(buffer_length),
                attempts_left: (attempts_left - 1) as u32,
            })
        }),
        status != STATUS_INFO_LENGTH_MISMATCH ==> (step == if status >= 0 {
            QueryStep::Walk
        } else {
            QueryStep::GiveUp
        }),
{
    if status == STATUS_INFO_LENGTH_MISMATCH {
        let grown = match buffer_length.checked_mul(2) {
            Some(d) => if d < 0x2000 {
                0x2000
            } else {
                d
            },
            None => 0x2000,
        };
        if attempts_left == 1 {
            QueryStep::GiveUp
        } else {
            QueryStep::Retry { buffer_length: grown, attempts_left: attempts_left - 1 }
        }
    } else if crate::ntapi::NT_SUCCESS(status) {
        QueryStep::Walk
    } else {
        QueryStep::GiveUp
    }
}

// ---------------------------------------------------------------------------
// Volumes whose caches are flushed
// ---------------------------------------------------------------------------

/// `DRIVE_NO_ROOT_DIR`.
pub const DRIVE_NO_ROOT_DIR: u32 = 1;
/// `DRIVE_REMOTE`.
pub const DRIVE_REMOTE: u32 = 4;
/// `DRIVE_CDROM`.
pub const DRIVE_CDROM: u32 = 5;

/// Whether a volume of drive type `t` is left alone: opening a spun-down
/// optical drive or a disconnected network share can block for seconds, and
/// a missing root cannot be opened at all.
pub fn skips_drive_type(t: u32) -> (r: bool)
    ensures
        r == (t == DRIVE_NO_ROOT_DIR || t == DRIVE_REMOTE || t == DRIVE_CDROM),
{
    t == DRIVE_NO_ROOT_DIR || t == DRIVE_REMOTE || t == DRIVE_CDROM
}

/// Whether drive `index` (`0` is `A:`) is present in the `GetLogicalDrives`
/// mask `present`.
pub open spec fn drive_present(present: u32, index: int) -> bool {
    0 <= index < 26 && (present >> (index as u32)) & 1 == 1
}

/// The indices of the drives present in `present`, in order (`0` is `A:`).
pub fn present_drives(present: u32) -> (v: Vec<u32>)
    ensures
        forall|i: int, j: int| 0 <= i < j < v.len() ==> v@[i] < v@[j],
        forall|i: int| 0 <= i < v.len() ==> drive_present(present, v@[i] as int),
        forall|d: int| drive_present(present, d) ==> v@.contains(d as u32),
{
    let mut v: Vec<u32> = Vec::new();
    let mut index: u32 = 0;
    while index < 26
        invariant
            index <= 26,
            forall|i: int, j: int| 0 <= i < j < v.len() ==> v@[i] < v@[j],
            forall|i: int| 0 <= i < v.len() ==> v@[i] < index,
            forall|i: int| 0 <= i < v.len() ==> drive_present(present, v@[i] as int),
            forall|d: int| 0 <= d < index && drive_present(present, d) ==> v@.contains(d as u32),
        decreases 26 - index,
    {
        let ghost before = v@;
        if (present >> index) & 1 == 1 {
            v.push(index);
            assert(v@[v.len() - 1] == index);
        }
        assert forall|d: int| 0 <= d < index + 1 && drive_present(present, d) implies v@.contains(
            d as u32,
        ) by {
            if d == index as int {
                assert(v@[v.len() - 1] == index);
            } else {
                assert(before.contains(d as u32));
                let k = choose|k: int| 0 <= k < before.len() && before[k] == d as u32;
                assert(v@[k] == d as u32);
            }
        }
        index += 1;
    }
    v
}

/// The root of drive `index`: `X:\`.
pub fn drive_root(index: u32) -> (root: String)
    requires
        index < 26,
    ensures
        root@ == seq![(65 + index) as char, ':', '\\'],
{
    let letter = crate::text::ascii_letter(index);
    let mut root = String::new();
    push_char(&mut root, letter);
    push_char(&mut root, ':');
    push_char(&mut root, '\\');
    root
}

/// The volume path opened to flush drive `index`: `\\?\X:\` (the `\\?\`
/// prefix bypasses path parsing so the volume itself is opened).
pub fn volume_path(index: u32) -> (path: String)
    requires
        index < 26,
    ensures
        path@ == seq!['\\', '\\', '?', '\\', (65 + index) as char, ':', '\\'],
{
    let mut path = String::new();
    push_str(&mut path, "\\\\?\\");
    let root = drive_root(index);
    push_str(&mut path, root.as_str());
    proof {
        reveal_strlit("\\\\?\\");
    }
    assert(path@ =~= seq!['\\', '\\', '?', '\\', (65 + index) as char, ':', '\\']);
    path
}

/// Whether flushing the volume caches succeeded: every volume tried was
/// flushed (`outcomes`), or the drive query itself returned nothing
/// (`present == 0`), which counts as nothing to do.
pub fn volumes_flushed(present: u32, outcomes: &Vec<bool>) -> (ok: bool)
    ensures
        ok == (present == 0 || forall|i: int| 0 <= i < outcomes.len() ==> outcomes@[i]),
{
    if present == 0 {
        return true;
    }
    let mut i: usize = 0;
    while i < outcomes.len()
        invariant
            present != 0,
            i <= outcomes.len(),
            forall|j: int| 0 <= j < i ==> outcomes@[j],
        decreases outcomes.len() - i,
    {
        if !outcomes[i] {
            assert(!outcomes@[i as int]);
            return false;
        }
        i += 1;
    }
    true
}

} // verus!
