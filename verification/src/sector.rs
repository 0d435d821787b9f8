//! Sector geometry: the sector size, the alignment rule that direct I/O
//! imposes on offsets and transfer lengths, and the offset assigned to each
//! concurrent unit.

use vstd::prelude::*;

verus! {

/// The device's logical sector size in bytes. It is both the alignment unit
/// and the transfer size of every operation the harness performs.
pub const SECTOR_SIZE: usize = 512;

/// A byte offset or byte count is admissible for direct I/O only when it is
/// a whole number of sectors.
pub open spec fn is_sector_aligned(n: int) -> bool {
    n % (SECTOR_SIZE as int) == 0
}

/// The byte offset that a concurrent unit works at: unit `unit` owns the
/// sector starting at `unit * SECTOR_SIZE`, so distinct units touch
/// disjoint byte ranges.
pub open spec fn unit_offset_spec(unit: int) -> int {
    unit * (SECTOR_SIZE as int)
}

/// Computes the offset assigned to a concurrent unit.
pub fn unit_offset(unit: usize) -> (off: usize)
    requires
        unit * SECTOR_SIZE <= usize::MAX,
    ensures
        off == unit_offset_spec(unit as int),
        is_sector_aligned(off as int),
{
    proof {
        assert((unit * SECTOR_SIZE) % (SECTOR_SIZE as int) == 0) by (nonlinear_arith);
    }
    unit * SECTOR_SIZE
}

/// Whether a positioned read or write may be issued at all: a transfer is
/// admissible only when both its offset and its length are whole sectors.
/// A driver must refuse, never truncate, a transfer this returns false for.
pub fn transfer_allowed(offset: usize, len: usize) -> (r: bool)
    ensures
        r == (is_sector_aligned(offset as int) && is_sector_aligned(len as int)),
{
    offset % SECTOR_SIZE == 0 && len % SECTOR_SIZE == 0
}

} // verus!
