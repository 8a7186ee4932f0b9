//! Memory-mapped regions and the address map that finds them.
//!
//! A region answers byte reads and writes at offsets from its own base. What a
//! region does is stated over a model of its state, so that code which is
//! generic in the region can still say exactly what an access returns and
//! what it leaves behind.

use crate::bits::lemma_word_of_bytes;
use vstd::prelude::*;

verus! {

/// A component that occupies a range of the address space.
///
/// Reads may have side effects (a FIFO pops, a shadow register latches), so
/// both accessors take the region mutably, and both are described by a
/// function from the model before the access to the result and the model
/// after it.
pub trait MemoryMapped: Sized {
    /// The mathematical state of the region.
    type Model;

    /// The model that this value stands for.
    spec fn model(&self) -> Self::Model;

    /// What must hold of a value for its accessors to be called.
    spec fn inv(&self) -> bool;

    /// The number of bytes the region occupies.
    spec fn size_of(m: Self::Model) -> nat;

    /// The byte read at `address`, the latency in cycles, and the model after
    /// the read.
    spec fn read_of(m: Self::Model, address: usize) -> (u8, usize, Self::Model);

    /// The latency in cycles of writing `value` at `address`, and the model
    /// after the write.
    spec fn write_of(m: Self::Model, address: usize, value: u8) -> (usize, Self::Model);

    fn get_size(&self) -> (n: usize)
        requires
            self.inv(),
        ensures
            n == Self::size_of(self.model()),
    ;

    fn read(&mut self, address: usize) -> (r: (u8, usize))
        requires
            old(self).inv(),
        ensures
            final(self).inv(),
            (r.0, r.1, final(self).model()) == Self::read_of(old(self).model(), address),
    ;

    fn write(&mut self, address: usize, value: u8) -> (latency: usize)
        requires
            old(self).inv(),
        ensures
            final(self).inv(),
            (latency, final(self).model()) == Self::write_of(old(self).model(), address, value),
    ;
}

/// A little-endian word read as two byte reads, low byte first: the word, the
/// sum of the two latencies, and the model after both reads.
pub open spec fn read_word_of<M: MemoryMapped>(m: M::Model, address: usize) -> (
    u16,
    int,
    M::Model,
) {
    let low = M::read_of(m, address);
    let high = M::read_of(low.2, (address + 1) as usize);
    (((high.0 as u16) << 8) | (low.0 as u16), low.1 + high.1, high.2)
}

/// A little-endian word written as two byte writes, low byte first: the sum
/// of the two latencies and the model after both writes.
pub open spec fn write_word_of<M: MemoryMapped>(m: M::Model, address: usize, value: u16) -> (
    int,
    M::Model,
) {
    let low = M::write_of(m, address, value as u8);
    let high = M::write_of(low.1, (address + 1) as usize, (value >> 8) as u8);
    (low.0 + high.0, high.1)
}

/// One bit changed by a read followed by a write of the whole byte: the model
/// after both.
pub open spec fn set_bit_of<M: MemoryMapped>(
    m: M::Model,
    address: usize,
    bit: u8,
    state: bool,
) -> M::Model {
    let got = M::read_of(m, address);
    if state {
        M::write_of(got.2, address, got.0 | (1u8 << bit)).1
    } else {
        M::write_of(got.2, address, got.0 & !(1u8 << bit)).1
    }
}

/// Reads a little-endian word. The latency is the sum of the two byte
/// latencies, saturating at the largest `usize`.
pub fn read_word<M: MemoryMapped>(region: &mut M, address: usize) -> (r: (u16, usize))
    requires
        old(region).inv(),
        address < usize::MAX,
    ensures
        final(region).inv(),
        r.0 == read_word_of::<M>(old(region).model(), address).0,
        r.1 == vstd::math::min(read_word_of::<M>(old(region).model(), address).1, usize::MAX as int),
        final(region).model() == read_word_of::<M>(old(region).model(), address).2,
{
    let (bl, ll) = region.read(address);
    let (bh, lh) = region.read(address + 1);
    (((bh as u16) << 8) | (bl as u16), ll.saturating_add(lh))
}

/// Writes a little-endian word. The latency is the sum of the two byte
/// latencies, saturating at the largest `usize`.
pub fn write_word<M: MemoryMapped>(region: &mut M, address: usize, value: u16) -> (latency: usize)
    requires
        old(region).inv(),
        address < usize::MAX,
    ensures
        final(region).inv(),
        latency == vstd::math::min(
            write_word_of::<M>(old(region).model(), address, value).0,
            usize::MAX as int,
        ),
        final(region).model() == write_word_of::<M>(old(region).model(), address, value).1,
{
    let bl = value as u8;
    let bh = (value >> 8) as u8;
    let ll = region.write(address, bl);
    let lh = region.write(address + 1, bh);
    ll.saturating_add(lh)
}

/// Sets or clears one bit of the byte at `address`; the latency is zero.
pub fn set_bit<M: MemoryMapped>(region: &mut M, address: usize, bit: u8, state: bool) -> (latency:
    usize)
    requires
        old(region).inv(),
        bit < 8,
    ensures
        final(region).inv(),
        latency == 0,
        final(region).model() == set_bit_of::<M>(old(region).model(), address, bit, state),
{
    let (val, _) = region.read(address);
    if state {
        region.write(address, val | (1u8 << bit));
    } else {
        region.write(address, val & !(1u8 << bit));
    }
    0
}

/// A block of bytes: RAM, or ROM when `read_only` is set.
pub struct Memory {
    pub mem: Vec<u8>,
    pub lat: usize,
    pub read_only: bool,
}

/// The state of a [`Memory`]: its bytes, its read latency and whether writes
/// are dropped.
pub struct MemoryModel {
    pub bytes: Seq<u8>,
    pub lat: usize,
    pub read_only: bool,
}

impl View for Memory {
    type V = MemoryModel;

    open spec fn view(&self) -> MemoryModel {
        MemoryModel { bytes: self.mem@, lat: self.lat, read_only: self.read_only }
    }
}

impl Memory {
    /// Writable memory of `size` bytes, each holding `fill`.
    pub fn new(size: usize, fill: u8, lat: usize) -> (m: Memory)
        ensures
            m@.bytes == Seq::new(size as nat, |i: int| fill),
            m@.lat == lat,
            !m@.read_only,
    {
        let mut mem: Vec<u8> = Vec::new();
        let mut i: usize = 0;
        while i < size
            invariant
                i <= size,
                mem@ == Seq::new(i as nat, |j: int| fill),
            decreases size - i,
        {
            mem.push(fill);
            i += 1;
            assert(mem@ =~= Seq::new(i as nat, |j: int| fill));
        }
        Memory { mem, lat, read_only: false }
    }

    /// The byte at `address`, or zero outside the block, without the
    /// latency.
    pub fn peek(&self, address: usize) -> (byte: u8)
        ensures
            byte == Self::read_of(self@, address).0,
    {
        if address < self.mem.len() {
            self.mem[address]
        } else {
            0
        }
    }

    /// Read-only memory with the given contents.
    pub fn new_rom(mem: Vec<u8>, lat: usize) -> (m: Memory)
        ensures
            m@.bytes == mem@,
            m@.lat == lat,
            m@.read_only,
    {
        Memory { mem, lat, read_only: true }
    }
}

impl MemoryMapped for Memory {
    type Model = MemoryModel;

    open spec fn model(&self) -> MemoryModel {
        self@
    }

    open spec fn inv(&self) -> bool {
        true
    }

    open spec fn size_of(m: MemoryModel) -> nat {
        m.bytes.len()
    }

    /// A read inside the block gives the stored byte and the block's latency;
    /// a read outside gives zero at no cost. Reading changes nothing.
    open spec fn read_of(m: MemoryModel, address: usize) -> (u8, usize, MemoryModel) {
        if address < m.bytes.len() {
            (m.bytes[address as int], m.lat, m)
        } else {
            (0, 0, m)
        }
    }

    /// A write inside a writable block replaces the byte; any other write is
    /// dropped. Writing costs nothing.
    open spec fn write_of(m: MemoryModel, address: usize, value: u8) -> (usize, MemoryModel) {
        if address < m.bytes.len() && !m.read_only {
            (0, MemoryModel { bytes: m.bytes.update(address as int, value), ..m })
        } else {
            (0, m)
        }
    }

    fn get_size(&self) -> (n: usize) {
        self.mem.len()
    }

    fn read(&mut self, address: usize) -> (r: (u8, usize)) {
        let r = if address < self.mem.len() {
            (self.mem[address], self.lat)
        } else {
            (0, 0)
        };
        proof {
            assert(self.inv());
            assert(Self::read_of(old(self).model(), address) == (r.0, r.1, old(self)@));
        }
        r
    }

    fn write(&mut self, address: usize, value: u8) -> (latency: usize) {
        if address < self.mem.len() && !self.read_only {
            self.mem[address] = value;
        }
        proof {
            assert(self.inv());
            assert(Self::write_of(old(self).model(), address, value) == (0usize, self@));
        }
        0
    }
}

/// A byte written to writable memory is the byte read back from the same
/// address, and every other address reads as before.
pub proof fn law_write_then_read(m: MemoryModel, address: usize, value: u8, other: usize)
    requires
        !m.read_only,
        address < m.bytes.len(),
    ensures
        Memory::read_of(Memory::write_of(m, address, value).1, address).0 == value,
        other != address ==> Memory::read_of(Memory::write_of(m, address, value).1, other).0
            == Memory::read_of(m, other).0,
{
}

/// Read-only memory reads the same before and after any write.
pub proof fn law_rom_ignores_writes(m: MemoryModel, address: usize, value: u8, other: usize)
    requires
        m.read_only,
    ensures
        Memory::write_of(m, address, value).1 == m,
{
}

/// A word written to writable memory is the word read back.
pub proof fn law_write_word_then_read(m: MemoryModel, address: usize, value: u16)
    requires
        !m.read_only,
        address < usize::MAX,
        address + 1 < m.bytes.len(),
    ensures
        read_word_of::<Memory>(write_word_of::<Memory>(m, address, value).1, address).0 == value,
{
    lemma_word_of_bytes(value);
}

/// One entry of the address map: the range `[base, base + size)` belongs to
/// the region with handle `dev`.
#[derive(Clone, Copy, Debug, PartialEq, Eq, Structural)]
pub struct MapEntry {
    pub base: usize,
    pub size: usize,
    pub dev: usize,
}

/// Why an address could not be resolved.
#[derive(Clone, Copy, Debug, PartialEq, Eq, Structural)]
pub enum MapError {
    /// No region covers the address.
    Undefined { address: usize },
}

impl MapEntry {
    /// The entry's range covers `address`.
    pub open spec fn covers(self, address: usize) -> bool {
        self.base <= address < self.base + self.size
    }
}

/// The entries lie in ascending order without overlap, and none reaches past
/// the end of the address space.
#[verifier::opaque]
pub open spec fn ordered(entries: Seq<MapEntry>) -> bool {
    &&& forall|i: int| 0 <= i < entries.len() ==> #[trigger] entries[i].base + entries[i].size
        <= usize::MAX
    &&& forall|i: int, j: int|
        0 <= i < j < entries.len() ==> #[trigger] entries[i].base + entries[i].size
            <= #[trigger] entries[j].base
}

/// The region handle and offset that `address` resolves to: those of the one
/// entry that covers it, if there is one.
pub open spec fn locate(entries: Seq<MapEntry>, address: usize) -> Option<(usize, usize)>
    decreases entries.len(),
{
    if entries.len() == 0 {
        None
    } else if entries.last().covers(address) {
        Some((entries.last().dev, (address - entries.last().base) as usize))
    } else {
        locate(entries.drop_last(), address)
    }
}

/// In an ordered map the entry that covers an address is the one `locate`
/// finds.
pub proof fn lemma_locate_hit(entries: Seq<MapEntry>, address: usize, i: int)
    requires
        ordered(entries),
        0 <= i < entries.len(),
        entries[i].covers(address),
    ensures
        locate(entries, address) == Some(
            (entries[i].dev, (address - entries[i].base) as usize),
        ),
    decreases entries.len(),
{
    reveal(ordered);
    if i < entries.len() - 1 {
        assert(!entries.last().covers(address));
        lemma_locate_hit(entries.drop_last(), address, i);
    }
}

/// Where no entry covers the address, `locate` finds nothing.
pub proof fn lemma_locate_miss(entries: Seq<MapEntry>, address: usize)
    requires
        forall|i: int| 0 <= i < entries.len() ==> !(#[trigger] entries[i]).covers(address),
    ensures
        locate(entries, address) is None,
    decreases entries.len(),
{
    if entries.len() > 0 {
        lemma_locate_miss(entries.drop_last(), address);
    }
}

/// The address map: an ordered table of non-overlapping ranges, searched by
/// bisection.
pub struct MemoryMap {
    pub mm: Vec<MapEntry>,
}

impl MemoryMap {
    /// The map's table is ordered and free of overlap.
    pub open spec fn wf(&self) -> bool {
        ordered(self.mm@)
    }

    /// The end of the last range, or zero for an empty map: the lowest base
    /// that a further range may have.
    pub open spec fn frontier(&self) -> int {
        if self.mm@.len() == 0 {
            0
        } else {
            self.mm@.last().base + self.mm@.last().size
        }
    }

    /// An empty map.
    pub fn new() -> (map: MemoryMap)
        ensures
            map.wf(),
            map.mm@ == Seq::<MapEntry>::empty(),
    {
        reveal(ordered);
        MemoryMap { mm: Vec::new() }
    }

    /// Appends the range `[offset, offset + size)` for the region `dev`. The
    /// range is taken only if it lies behind every range already in the map
    /// and inside the address space; otherwise the map is left as it was.
    pub fn add(&mut self, offset: usize, size: usize, dev: usize) -> (added: bool)
        requires
            old(self).wf(),
        ensures
            final(self).wf(),
            added == (old(self).frontier() <= offset && offset + size <= usize::MAX),
            added ==> final(self).mm@ == old(self).mm@.push(MapEntry { base: offset, size, dev }),
            !added ==> final(self).mm@ == old(self).mm@,
    {
        reveal(ordered);
        if size > usize::MAX - offset {
            return false;
        }
        let n = self.mm.len();
        if n > 0 {
            let last = self.mm[n - 1];
            if last.base + last.size > offset {
                return false;
            }
        }
        self.mm.push(MapEntry { base: offset, size, dev });
        true
    }

    /// The number of ranges in the map.
    pub fn get_size(&self) -> (n: usize)
        ensures
            n == self.mm@.len(),
    {
        self.mm.len()
    }

    /// Finds the region that covers `address` and the offset of the address
    /// within it.
    pub fn get_dev(&self, address: usize) -> (r: Result<(usize, usize), MapError>)
        requires
            self.wf(),
        ensures
            match locate(self.mm@, address) {
                Some(found) => r == Ok::<(usize, usize), MapError>(found),
                None => r == Err::<(usize, usize), MapError>(MapError::Undefined { address }),
            },
    {
        reveal(ordered);
        let mut lo: usize = 0;
        let mut hi: usize = self.mm.len();
        while lo < hi
            invariant
                self.wf(),
                lo <= hi <= self.mm@.len(),
                forall|i: int| 0 <= i < lo ==> !(#[trigger] self.mm@[i]).covers(address),
                forall|i: int| hi <= i < self.mm@.len() ==> !(#[trigger] self.mm@[i]).covers(address),
            decreases hi - lo,
        {
            proof {
                reveal(ordered);
            }
            let mid = lo + (hi - lo) / 2;
            let entry = self.mm[mid];
            if address < entry.base {
                hi = mid;
            } else if address - entry.base >= entry.size {
                lo = mid + 1;
            } else {
                proof {
                    lemma_locate_hit(self.mm@, address, mid as int);
                }
                return Ok((entry.dev, address - entry.base));
            }
        }
        proof {
            lemma_locate_miss(self.mm@, address);
        }
        Err(MapError::Undefined { address })
    }
}

} // verus!
