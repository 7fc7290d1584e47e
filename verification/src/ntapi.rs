//! The system-information classes and memory-list commands of the NT memory
//! interface, with the numbers the kernel knows them by.

use vstd::prelude::*;

verus! {

/// System information classes relevant to memory management (a subset of
/// `SYSTEM_INFORMATION_CLASS`).
#[derive(Debug, Clone, Copy, PartialEq, Eq, Structural)]
pub enum SystemInformationClass {
    /// q: SYSTEM_BASIC_INFORMATION
    SystemBasicInformation,
    /// q: SYSTEM_PERFORMANCE_INFORMATION
    SystemPerformanceInformation,
    /// q: SYSTEM_PAGEFILE_INFORMATION
    SystemPageFileInformation,
    /// q: SYSTEM_FILECACHE_INFORMATION (info for WorkingSetTypeSystemCache)
    SystemFileCacheInformation,
    /// q: SYSTEM_MEMORY_LIST_INFORMATION; s: SYSTEM_MEMORY_LIST_COMMAND
    /// (requires SeProfileSingleProcessPrivilege)
    SystemMemoryListInformation,
    /// q: SYSTEM_FILECACHE_INFORMATION (requires SeIncreaseQuotaPrivilege)
    SystemFileCacheInformationEx,
    /// s: MEMORY_COMBINE_INFORMATION, MEMORY_COMBINE_INFORMATION_EX (win10+)
    SystemCombinePhysicalMemoryInformation,
    /// s: NULL (requires admin) (flushes registry hives, win8.1+)
    SystemRegistryReconciliationInformation,
}

impl SystemInformationClass {
    /// The class number passed to `NtQuerySystemInformation` /
    /// `NtSetSystemInformation`.
    pub fn code(&self) -> (c: i32)
        ensures
            c == (match *self {
                SystemInformationClass::SystemBasicInformation => 0i32,
                SystemInformationClass::SystemPerformanceInformation => 2,
                SystemInformationClass::SystemPageFileInformation => 18,
                SystemInformationClass::SystemFileCacheInformation => 21,
                SystemInformationClass::SystemMemoryListInformation => 80,
                SystemInformationClass::SystemFileCacheInformationEx => 81,
                SystemInformationClass::SystemCombinePhysicalMemoryInformation => 130,
                SystemInformationClass::SystemRegistryReconciliationInformation => 134,
            }),
    {
        match self {
            SystemInformationClass::SystemBasicInformation => 0,
            SystemInformationClass::SystemPerformanceInformation => 2,
            SystemInformationClass::SystemPageFileInformation => 18,
            SystemInformationClass::SystemFileCacheInformation => 21,
            SystemInformationClass::SystemMemoryListInformation => 80,
            SystemInformationClass::SystemFileCacheInformationEx => 81,
            SystemInformationClass::SystemCombinePhysicalMemoryInformation => 130,
            SystemInformationClass::SystemRegistryReconciliationInformation => 134,
        }
    }
}

/// `SYSTEM_MEMORY_LIST_COMMAND`: commands passed to `NtSetSystemInformation`
/// with `SystemMemoryListInformation`.
#[derive(Debug, Clone, Copy, PartialEq, Eq, Structural)]
pub enum SystemMemoryListCommand {
    MemoryCaptureAccessedBits,
    MemoryCaptureAndResetAccessedBits,
    /// Empty all process working sets (vista+).
    MemoryEmptyWorkingSets,
    /// Flush modified pages to disk (vista+).
    MemoryFlushModifiedList,
    /// Purge standby list (all priorities) (vista+).
    MemoryPurgeStandbyList,
    /// Purge standby priority-0 list (vista+).
    MemoryPurgeLowPriorityStandbyList,
    MemoryCommandMax,
}

impl SystemMemoryListCommand {
    /// The command number.
    pub fn code(&self) -> (c: i32)
        ensures
            c == (match *self {
                SystemMemoryListCommand::MemoryCaptureAccessedBits => 0i32,
                SystemMemoryListCommand::MemoryCaptureAndResetAccessedBits => 1,
                SystemMemoryListCommand::MemoryEmptyWorkingSets => 2,
                SystemMemoryListCommand::MemoryFlushModifiedList => 3,
                SystemMemoryListCommand::MemoryPurgeStandbyList => 4,
                SystemMemoryListCommand::MemoryPurgeLowPriorityStandbyList => 5,
                SystemMemoryListCommand::MemoryCommandMax => 6,
            }),
    {
        match self {
            SystemMemoryListCommand::MemoryCaptureAccessedBits => 0,
            SystemMemoryListCommand::MemoryCaptureAndResetAccessedBits => 1,
            SystemMemoryListCommand::MemoryEmptyWorkingSets => 2,
            SystemMemoryListCommand::MemoryFlushModifiedList => 3,
            SystemMemoryListCommand::MemoryPurgeStandbyList => 4,
            SystemMemoryListCommand::MemoryPurgeLowPriorityStandbyList => 5,
            SystemMemoryListCommand::MemoryCommandMax => 6,
        }
    }
}

/// `NT_SUCCESS`: a status is a success when it is not negative.
#[allow(non_snake_case)]
pub fn NT_SUCCESS(status: i32) -> (ok: bool)
    ensures
        ok == (status >= 0),
{
    status >= 0
}

/// `SYSTEM_BASIC_INFORMATION`.
#[allow(non_snake_case, non_camel_case_types)]
#[derive(Debug, Default, Clone, Copy)]
pub struct SYSTEM_BASIC_INFORMATION {
    pub Reserved: u32,
    pub TimerResolution: u32,
    pub PageSize: u32,
    pub NumberOfPhysicalPages: u32,
    pub HighestPhysicalPageNumber: u32,
    pub LowestPhysicalPageNumber: u32,
    pub AllocationGranularity: u32,
    pub LowestUserAddress: usize,
    pub HighestUserAddress: usize,
    pub ActiveProcessorsAffinityMask: usize,
    pub NumberOfProcessors: u32,
}

/// `SYSTEM_FILECACHE_INFORMATION`.
#[allow(non_snake_case, non_camel_case_types)]
#[derive(Debug, Default, Clone, Copy)]
pub struct SYSTEM_FILECACHE_INFORMATION {
    pub CurrentSize: usize,
    pub PeakSize: usize,
    pub PageFaultCount: u32,
    pub MinimumWorkingSet: usize,
    pub MaximumWorkingSet: usize,
    pub CurrentSizeIncludingTransitionInPages: usize,
    pub PeakSizeIncludingTransitionInPages: usize,
    pub TransitionRePurposeCount: u32,
    pub Flags: u32,
}

/// The request that trims the system file cache: both working-set limits set
/// to `usize::MAX` (everything else zero).
pub fn file_cache_trim_request() -> (r: SYSTEM_FILECACHE_INFORMATION)
    ensures
        r.MinimumWorkingSet == usize::MAX,
        r.MaximumWorkingSet == usize::MAX,
        r.CurrentSize == 0 && r.PeakSize == 0 && r.PageFaultCount == 0,
        r.CurrentSizeIncludingTransitionInPages == 0 && r.PeakSizeIncludingTransitionInPages == 0,
        r.TransitionRePurposeCount == 0 && r.Flags == 0,
{
    SYSTEM_FILECACHE_INFORMATION {
        CurrentSize: 0,
        PeakSize: 0,
        PageFaultCount: 0,
        MinimumWorkingSet: usize::MAX,
        MaximumWorkingSet: usize::MAX,
        CurrentSizeIncludingTransitionInPages: 0,
        PeakSizeIncludingTransitionInPages: 0,
        TransitionRePurposeCount: 0,
        Flags: 0,
    }
}

/// `SYSTEM_PAGEFILE_INFORMATION`: one entry of the page-file list (the
/// counters are in pages; the file name that follows is not read).
#[allow(non_snake_case, non_camel_case_types)]
#[derive(Debug, Default, Clone, Copy)]
pub struct SYSTEM_PAGEFILE_INFORMATION {
    pub NextEntryOffset: u32,
    pub TotalSize: u32,
    pub TotalInUse: u32,
    pub PeakUsage: u32,
    pub CurrentUsage: u32,
}

/// The size in bytes of one `SYSTEM_PAGEFILE_INFORMATION` entry as the kernel
/// lays it out (its counters and the start of its name).
pub const PAGEFILE_ENTRY_SIZE: usize = 24;

/// The number of UTF-16 units of the service-pack string of
/// `RTL_OSVERSIONINFOW`.
pub const CSD_VERSION_UNITS: usize = 128;

/// The size in bytes of `RTL_OSVERSIONINFOW`, which the caller stores in
/// `dwOSVersionInfoSize`.
pub const RTL_OSVERSIONINFOW_SIZE: u32 = 276;

/// `RTL_OSVERSIONINFOW` used by `RtlGetVersion`.
#[allow(non_snake_case, non_camel_case_types)]
#[derive(Debug, Clone, Copy)]
pub struct RTL_OSVERSIONINFOW {
    pub dwOSVersionInfoSize: u32,
    pub dwMajorVersion: u32,
    pub dwMinorVersion: u32,
    pub dwBuildNumber: u32,
    pub dwPlatformId: u32,
    pub szCSDVersion: [u16; 128],
}

impl Default for RTL_OSVERSIONINFOW {
    /// An empty request: only its own size is filled in.
    fn default() -> (r: Self)
        ensures
            r.dwOSVersionInfoSize == RTL_OSVERSIONINFOW_SIZE,
            r.dwMajorVersion == 0 && r.dwMinorVersion == 0,
            r.dwBuildNumber == 0 && r.dwPlatformId == 0,
            forall|i: int| 0 <= i < 128 ==> r.szCSDVersion[i] == 0,
    {
        Self {
            dwOSVersionInfoSize: RTL_OSVERSIONINFOW_SIZE,
            dwMajorVersion: 0,
            dwMinorVersion: 0,
            dwBuildNumber: 0,
            dwPlatformId: 0,
            szCSDVersion: [0u16; 128],
        }
    }
}

} // verus!
