//! Memory cleaning mask bits: one bit per cleanable region.

use vstd::prelude::*;

verus! {

/// Empty all process working sets.
pub const WORKINGSET: u32 = 0x01;
/// Compress system file cache.
pub const SYSTEMFILECACHE: u32 = 0x02;
/// Purge standby priority-0 list.
pub const STANDBYPRIORITY0LIST: u32 = 0x04;
/// Purge all standby lists.
pub const STANDBYLIST: u32 = 0x08;
/// Flush modified pages to disk.
pub const MODIFIEDLIST: u32 = 0x10;
/// Combine memory lists (win10+).
pub const COMBINEMEMORYLISTS: u32 = 0x20;
/// Flush registry cache (win8.1+).
pub const REGISTRYCACHE: u32 = 0x40;
/// Flush modified file cache.
pub const MODIFIEDFILECACHE: u32 = 0x80;

/// All cleanable regions (the eight bits above).
pub const ALL: u32 = 0xFF;

/// Default clean mask: every region but the "freezing" standby and modified
/// lists (`WORKINGSET | SYSTEMFILECACHE | STANDBYPRIORITY0LIST |
/// COMBINEMEMORYLISTS | REGISTRYCACHE | MODIFIEDFILECACHE`).
pub const DEFAULT: u32 = 0xE7;

/// Regions that can cause freezes (`STANDBYLIST | MODIFIEDLIST`).
pub const FREEZES: u32 = 0x18;

/// The region keys (matching the frontend's `regions.*` keys) of the bits
/// set in `value`, in bit order.
pub open spec fn region_names(value: u32) -> Seq<Seq<char>> {
    (if value & WORKINGSET != 0 { seq!["workingSet"@] } else { seq![] })
    + (if value & SYSTEMFILECACHE != 0 { seq!["systemFileCache"@] } else { seq![] })
    + (if value & STANDBYPRIORITY0LIST != 0 { seq!["standbyPriority0"@] } else { seq![] })
    + (if value & STANDBYLIST != 0 { seq!["standbyList"@] } else { seq![] })
    + (if value & MODIFIEDLIST != 0 { seq!["modifiedList"@] } else { seq![] })
    + (if value & COMBINEMEMORYLISTS != 0 { seq!["combineMemoryLists"@] } else { seq![] })
    + (if value & REGISTRYCACHE != 0 { seq!["registryCache"@] } else { seq![] })
    + (if value & MODIFIEDFILECACHE != 0 { seq!["modifiedFileCache"@] } else { seq![] })
}

/// The views of a list of string slices.
pub open spec fn views_of(v: Seq<&str>) -> Seq<Seq<char>> {
    v.map_values(|s: &str| s@)
}

fn push_name(out: &mut Vec<&'static str>, present: bool, name: &'static str)
    ensures
        views_of(final(out)@) == views_of(old(out)@) + (if present {
            seq![name@]
        } else {
            seq![]
        }),
{
    if present {
        out.push(name);
        assert(views_of(out@) =~= views_of(old(out)@) + seq![name@]);
    } else {
        assert(views_of(out@) =~= views_of(old(out)@) + seq![]);
    }
}

/// Region keys (matching the frontend i18n `regions.*` keys) for display and
/// notifications, in the order of the checkboxes in the UI.
pub fn names(value: u32) -> (out: Vec<&'static str>)
    ensures
        views_of(out@) == region_names(value),
{
    let mut out: Vec<&'static str> = Vec::new();
    assert(views_of(out@) =~= seq![]);
    push_name(&mut out, value & WORKINGSET != 0, "workingSet");
    push_name(&mut out, value & SYSTEMFILECACHE != 0, "systemFileCache");
    push_name(&mut out, value & STANDBYPRIORITY0LIST != 0, "standbyPriority0");
    push_name(&mut out, value & STANDBYLIST != 0, "standbyList");
    push_name(&mut out, value & MODIFIEDLIST != 0, "modifiedList");
    push_name(&mut out, value & COMBINEMEMORYLISTS != 0, "combineMemoryLists");
    push_name(&mut out, value & REGISTRYCACHE != 0, "registryCache");
    push_name(&mut out, value & MODIFIEDFILECACHE != 0, "modifiedFileCache");
    assert(views_of(out@) =~= region_names(value));
    out
}

/// The default mask leaves out both freezing regions and keeps the
/// working-set and system-file-cache regions.
pub proof fn default_mask_excludes_freezes()
    ensures
        DEFAULT & FREEZES == 0,
        DEFAULT & WORKINGSET != 0,
        DEFAULT & SYSTEMFILECACHE != 0,
        DEFAULT & ALL == DEFAULT,
        FREEZES == STANDBYLIST | MODIFIEDLIST,
        ALL == WORKINGSET | SYSTEMFILECACHE | STANDBYPRIORITY0LIST | STANDBYLIST | MODIFIEDLIST
            | COMBINEMEMORYLISTS | REGISTRYCACHE | MODIFIEDFILECACHE,
{
    assert(0xE7u32 & 0x18u32 == 0) by (bit_vector);
    assert(0xE7u32 & 0x01u32 != 0) by (bit_vector);
    assert(0xE7u32 & 0x02u32 != 0) by (bit_vector);
    assert(0xE7u32 & 0xFFu32 == 0xE7u32) by (bit_vector);
    assert(0x08u32 | 0x10u32 == 0x18u32) by (bit_vector);
    assert(0x01u32 | 0x02u32 | 0x04u32 | 0x08u32 | 0x10u32 | 0x20u32 | 0x40u32 | 0x80u32 == 0xFFu32)
        by (bit_vector);
}

} // verus!
