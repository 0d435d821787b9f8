//! An in-memory model of the block device under test: a flat byte array,
//! read and written in whole sectors at sector-aligned offsets, exactly as
//! the kernel-side device accepts direct I/O. The harness scenarios are
//! verified against this model; a driver program performs the same
//! positioned transfers on the real descriptor.

use vstd::pervasive::VecAdditionalExecFns;
use vstd::prelude::*;
use crate::sector::{SECTOR_SIZE, is_sector_aligned};

verus! {

/// What a write of `payload` at byte offset `offset` leaves behind: the
/// bytes of `payload` over `[offset, offset + payload.len())`, every other
/// byte unchanged.
pub open spec fn write_spec(data: Seq<u8>, offset: int, payload: Seq<u8>) -> Seq<u8> {
    Seq::new(
        data.len(),
        |i: int|
            if offset <= i < offset + payload.len() {
                payload[i - offset]
            } else {
                data[i]
            },
    )
}

/// What a read of `len` bytes at byte offset `offset` returns: the bytes of
/// `[offset, offset + len)`.
pub open spec fn read_spec(data: Seq<u8>, offset: int, len: int) -> Seq<u8> {
    data.subrange(offset, offset + len)
}

/// The device model: its byte contents, zero-initialized, of a fixed whole
/// number of sectors.
pub struct SectorDevice {
    data: Vec<u8>,
}

impl View for SectorDevice {
    type V = Seq<u8>;

    closed spec fn view(&self) -> Seq<u8> {
        self.data@
    }
}

impl SectorDevice {
    /// A zero-filled device of `num_sectors` sectors.
    pub fn new(num_sectors: usize) -> (d: SectorDevice)
        requires
            num_sectors * SECTOR_SIZE <= usize::MAX,
        ensures
            d@.len() == num_sectors * SECTOR_SIZE,
            forall|i: int| 0 <= i < d@.len() ==> d@[i] == 0u8,
    {
        let size = num_sectors * SECTOR_SIZE;
        let mut data: Vec<u8> = Vec::new();
        let mut i: usize = 0;
        while i < size
            invariant
                i <= size,
                data@.len() == i,
                forall|j: int| 0 <= j < i ==> data@[j] == 0u8,
            decreases size - i,
        {
            data.push(0u8);
            i = i + 1;
        }
        SectorDevice { data }
    }

    /// The device's capacity in bytes.
    pub fn len(&self) -> (n: usize)
        ensures
            n == self@.len(),
    {
        self.data.len()
    }

    /// A positioned write: stores `payload` over
    /// `[offset, offset + payload.len())`. The transfer must be
    /// sector-aligned in offset and length, as direct I/O demands, and lie
    /// within the device.
    pub fn write_at(&mut self, offset: usize, payload: &Vec<u8>)
        requires
            is_sector_aligned(offset as int),
            is_sector_aligned(payload@.len() as int),
            offset + payload@.len() <= old(self)@.len(),
        ensures
            final(self)@ == write_spec(old(self)@, offset as int, payload@),
    {
        let device_len = self.data.len();
        let mut i: usize = 0;
        while i < payload.len()
            invariant
                i <= payload@.len(),
                offset + payload@.len() <= self@.len(),
                self@.len() == device_len,
                self@.len() == old(self)@.len(),
                forall|j: int|
                    offset <= j < offset + i ==> self@[j] == payload@[j - offset],
                forall|j: int|
                    0 <= j < self@.len() && !(offset <= j < offset + i) ==> self@[j] == old(
                        self,
                    )@[j],
            decreases payload@.len() - i,
        {
            self.data.set(offset + i, payload[i]);
            i = i + 1;
        }
        proof {
            assert(self@ =~= write_spec(old(self)@, offset as int, payload@));
        }
    }

    /// A positioned read: returns the `len` bytes at
    /// `[offset, offset + len)`. The transfer must be sector-aligned in
    /// offset and length and lie within the device.
    pub fn read_at(&self, offset: usize, len: usize) -> (r: Vec<u8>)
        requires
            is_sector_aligned(offset as int),
            is_sector_aligned(len as int),
            offset + len <= self@.len(),
        ensures
            r@ == read_spec(self@, offset as int, len as int),
    {
        let device_len = self.data.len();
        let mut r: Vec<u8> = Vec::new();
        let mut i: usize = 0;
        while i < len
            invariant
                i <= len,
                offset + len <= self@.len(),
                self@.len() == device_len,
                r@.len() == i,
                forall|j: int| 0 <= j < i ==> r@[j] == self@[offset + j],
            decreases len - i,
        {
            r.push(self.data[offset + i]);
            i = i + 1;
        }
        proof {
            assert(r@ =~= read_spec(self@, offset as int, len as int));
        }
        r
    }
}

/// Round-trip equality: a write followed immediately by a read of the same
/// range returns exactly the bytes written, whatever they are and whatever
/// the device held before.
pub proof fn lemma_round_trip(data: Seq<u8>, offset: int, payload: Seq<u8>)
    requires
        0 <= offset,
        offset + payload.len() <= data.len(),
    ensures
        read_spec(write_spec(data, offset, payload), offset, payload.len() as int) == payload,
{
    assert(read_spec(write_spec(data, offset, payload), offset, payload.len() as int)
        =~= payload);
}

/// Disjoint-offset independence: writing one sector at one sector-aligned
/// offset does not alter the sector readable at any other sector-aligned
/// offset.
pub proof fn lemma_disjoint_offset_independence(
    data: Seq<u8>,
    o1: int,
    o2: int,
    payload: Seq<u8>,
)
    requires
        is_sector_aligned(o1),
        is_sector_aligned(o2),
        o1 != o2,
        0 <= o1,
        0 <= o2,
        payload.len() == SECTOR_SIZE,
        o1 + SECTOR_SIZE <= data.len(),
        o2 + SECTOR_SIZE <= data.len(),
    ensures
        read_spec(write_spec(data, o1, payload), o2, SECTOR_SIZE as int) == read_spec(
            data,
            o2,
            SECTOR_SIZE as int,
        ),
{
    let s = SECTOR_SIZE as int;
    assert(o1 == s * (o1 / s));
    assert(o2 == s * (o2 / s));
    if o1 < o2 {
        assert(o1 / s < o2 / s) by (nonlinear_arith)
            requires
                o1 < o2,
                s > 0,
                o1 == s * (o1 / s),
                o2 == s * (o2 / s),
        ;
        assert(s * (o1 / s) + s <= s * (o2 / s)) by (nonlinear_arith)
            requires
                o1 / s < o2 / s,
                s > 0,
        ;
        assert(o1 + s <= o2);
    } else {
        assert(o2 / s < o1 / s) by (nonlinear_arith)
            requires
                o2 < o1,
                s > 0,
                o1 == s * (o1 / s),
                o2 == s * (o2 / s),
        ;
        assert(s * (o2 / s) + s <= s * (o1 / s)) by (nonlinear_arith)
            requires
                o2 / s < o1 / s,
                s > 0,
        ;
        assert(o2 + s <= o1);
    }
    assert(read_spec(write_spec(data, o1, payload), o2, s) =~= read_spec(data, o2, s));
}

} // verus!
