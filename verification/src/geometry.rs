//! Erase-block geometry of the external serial NOR flash chip.
//!
//! The chip's linear address space is covered, in ascending address order,
//! by a run of 4 KiB sectors, one 32 KiB sector, and 64 KiB sectors. The
//! firmware-update backend advertises the 64 KiB run split in two, so the
//! region table below has four rows. The capacity invariant — the sum of
//! count times size over all classes equals the declared total — is proved
//! here once and for all.

use vstd::prelude::*;

verus! {

/// Total size of the chip's linear address space, in bytes (8 MiB).
pub const FLASH_SIZE: u32 = 8388608;

/// The address space as a power of two: `2^FLASH_ADDRESS_SIZE` bytes.
pub const FLASH_ADDRESS_SIZE: u8 = 23;

/// Size of one program page: no single program transaction may cross a
/// boundary between multiples of this.
pub const PAGE_SIZE: usize = 256;

/// Smallest erase granularity, in bytes.
pub const SECTOR_4K_SIZE: u32 = 4096;

/// Middle erase granularity, in bytes.
pub const SECTOR_32K_SIZE: u32 = 32768;

/// Largest erase granularity, in bytes.
pub const SECTOR_64K_SIZE: u32 = 65536;

/// Number of 4 KiB sectors, at the bottom of the address space.
pub const N_4K_SECTORS: u8 = 8;

/// Number of 32 KiB sectors, directly above the 4 KiB run.
pub const N_32K_SECTORS: u8 = 1;

/// Number of 64 KiB sectors, filling the rest of the address space.
pub const N_64K_SECTORS: u8 = 127;

/// A run of equally sized erase blocks.
#[derive(Clone, Copy, Debug, PartialEq, Eq, Structural)]
pub struct SectorClass {
    /// How many blocks the run holds.
    pub count: u32,
    /// Size of one block, in bytes.
    pub size: u32,
}

/// The chip's own erase-block layout: three classes, ascending by address.
pub open spec fn spec_sector_classes() -> Seq<SectorClass> {
    seq![
        SectorClass { count: 8, size: 4096 },
        SectorClass { count: 1, size: 32768 },
        SectorClass { count: 127, size: 65536 },
    ]
}

/// The region table the firmware-update backend advertises: the 64 KiB run
/// is split into runs of 63 and 64 blocks.
pub open spec fn spec_erase_regions() -> Seq<SectorClass> {
    seq![
        SectorClass { count: 8, size: 4096 },
        SectorClass { count: 1, size: 32768 },
        SectorClass { count: 63, size: 65536 },
        SectorClass { count: 64, size: 65536 },
    ]
}

/// Sum of count times size over the classes from index `i` on.
pub open spec fn capacity_from(s: Seq<SectorClass>, i: int) -> int
    decreases s.len() - i,
{
    if i < 0 || i >= s.len() {
        0
    } else {
        s[i].count * s[i].size + capacity_from(s, i + 1)
    }
}

/// Total capacity described by a class table.
pub open spec fn classes_capacity(s: Seq<SectorClass>) -> int {
    capacity_from(s, 0)
}

/// The chip's erase-block layout, as a table callers can walk.
pub fn sector_classes() -> (r: Vec<SectorClass>)
    ensures
        r@ == spec_sector_classes(),
{
    let mut v: Vec<SectorClass> = Vec::new();
    v.push(SectorClass { count: 8, size: 4096 });
    v.push(SectorClass { count: 1, size: 32768 });
    v.push(SectorClass { count: 127, size: 65536 });
    proof {
        assert(v@ =~= spec_sector_classes());
    }
    v
}

/// The advertised erase-region table, as a table callers can walk.
pub fn erase_regions() -> (r: Vec<SectorClass>)
    ensures
        r@ == spec_erase_regions(),
{
    let mut v: Vec<SectorClass> = Vec::new();
    v.push(SectorClass { count: 8, size: 4096 });
    v.push(SectorClass { count: 1, size: 32768 });
    v.push(SectorClass { count: 63, size: 65536 });
    v.push(SectorClass { count: 64, size: 65536 });
    proof {
        assert(v@ =~= spec_erase_regions());
    }
    v
}

/// Geometry invariant: the sum of count times size over the sector classes
/// equals the declared total capacity, for the chip's own layout and for
/// the advertised region table alike.
pub proof fn lemma_geometry_capacity()
    ensures
        classes_capacity(spec_sector_classes()) == FLASH_SIZE,
        classes_capacity(spec_erase_regions()) == FLASH_SIZE,
{
    let c = spec_sector_classes();
    assert(capacity_from(c, 3) == 0);
    assert(capacity_from(c, 2) == 127 * 65536);
    assert(capacity_from(c, 1) == 32768 + 127 * 65536);
    assert(capacity_from(c, 0) == 8 * 4096 + 32768 + 127 * 65536);
    let r = spec_erase_regions();
    assert(capacity_from(r, 4) == 0);
    assert(capacity_from(r, 3) == 64 * 65536);
    assert(capacity_from(r, 2) == 63 * 65536 + 64 * 65536);
    assert(capacity_from(r, 1) == 32768 + 63 * 65536 + 64 * 65536);
    assert(capacity_from(r, 0) == 8 * 4096 + 32768 + 63 * 65536 + 64 * 65536);
}

} // verus!
