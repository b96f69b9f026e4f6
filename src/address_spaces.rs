use vstd::prelude::*;

use crate::pia6820::pia6820;
use crate::ram::Ram;
use crate::rom::Rom;
use crate::{byte_at, IoAddressable};

verus! {

/// The devices that can sit on the bus.
pub enum Device {
    Ram(Ram),
    Rom(Rom),
    Pia(pia6820),
}

impl IoAddressable for Device {
    open spec fn contents(&self) -> Seq<u8> {
        match self {
            Device::Ram(d) => d.contents(),
            Device::Rom(d) => d.contents(),
            Device::Pia(d) => d.contents(),
        }
    }

    open spec fn accepts_writes(&self) -> bool {
        match self {
            Device::Ram(d) => d.accepts_writes(),
            Device::Rom(d) => d.accepts_writes(),
            Device::Pia(d) => d.accepts_writes(),
        }
    }

    open spec fn flash_fits(&self, data: Seq<u8>) -> bool {
        match self {
            Device::Ram(d) => d.flash_fits(data),
            Device::Rom(d) => d.flash_fits(data),
            Device::Pia(d) => d.flash_fits(data),
        }
    }

    open spec fn flash_base(&self, data: Seq<u8>) -> int {
        match self {
            Device::Ram(d) => d.flash_base(data),
            Device::Rom(d) => d.flash_base(data),
            Device::Pia(d) => d.flash_base(data),
        }
    }

    open spec fn counters(&self) -> (u64, u64) {
        match self {
            Device::Ram(d) => d.counters(),
            Device::Rom(d) => d.counters(),
            Device::Pia(d) => d.counters(),
        }
    }

    open spec fn counted_read(&self) -> (u64, u64) {
        match self {
            Device::Ram(d) => d.counted_read(),
            Device::Rom(d) => d.counted_read(),
            Device::Pia(d) => d.counted_read(),
        }
    }

    open spec fn counted_write(&self) -> (u64, u64) {
        match self {
            Device::Ram(d) => d.counted_write(),
            Device::Rom(d) => d.counted_write(),
            Device::Pia(d) => d.counted_write(),
        }
    }

    fn read(&mut self, address: usize) -> (r: u8) {
        match self {
            Device::Ram(d) => d.read(address),
            Device::Rom(d) => d.read(address),
            Device::Pia(d) => d.read(address),
        }
    }

    fn write(&mut self, address: usize, value: u8) {
        match self {
            Device::Ram(d) => d.write(address, value),
            Device::Rom(d) => d.write(address, value),
            Device::Pia(d) => d.write(address, value),
        }
    }

    fn flash(&mut self, data: &Vec<u8>) {
        match self {
            Device::Ram(d) => d.flash(data),
            Device::Rom(d) => d.flash(data),
            Device::Pia(d) => d.flash(data),
        }
    }
}

/// What the CPU sees of one bus entry: its inclusive address range, the
/// bytes of its device, and whether the device takes writes.
pub struct Region {
    pub lo: u16,
    pub hi: u16,
    pub bytes: Seq<u8>,
    pub writable: bool,
}

/// One entry of the address map: an inclusive range `[addr[0], addr[1]]`
/// and the device that answers for it.
pub struct AddressMap {
    pub addr: [u16; 2],
    pub component: Device,
    pub name: String,
}

impl AddressMap {
    pub open spec fn region(&self) -> Region {
        Region {
            lo: self.addr[0],
            hi: self.addr[1],
            bytes: self.component.contents(),
            writable: self.component.accepts_writes(),
        }
    }
}

/// The address decoder: an ordered list of entries, first match wins.
pub struct AddressSpaces {
    address_maps: Vec<AddressMap>,
}

/// Whether `a` falls in the range of region `g`.
pub open spec fn covers(g: Region, a: u16) -> bool {
    g.lo <= a <= g.hi
}

/// The index of the first region at or after `from` that covers `a`, or -1.
pub open spec fn first_match(v: Seq<Region>, a: u16, from: nat) -> int
    decreases v.len() - from,
{
    if from >= v.len() {
        -1
    } else if covers(v[from as int], a) {
        from as int
    } else {
        first_match(v, a, from + 1)
    }
}

/// The index of the region that answers for `a`, or -1 where none does.
pub open spec fn lookup(v: Seq<Region>, a: u16) -> int {
    first_match(v, a, 0)
}

/// The byte that a read of `a` yields: the answering device's byte at
/// offset `a - lo`, zero past its end or where no region covers `a`.
pub open spec fn peek(v: Seq<Region>, a: u16) -> u8 {
    let k = lookup(v, a);
    if k < 0 {
        0
    } else {
        byte_at(v[k].bytes, a - v[k].lo)
    }
}

/// Whether a write to `a` changes a byte.
pub open spec fn stores(v: Seq<Region>, a: u16) -> bool {
    let k = lookup(v, a);
    k >= 0 && v[k].writable && a - v[k].lo < v[k].bytes.len()
}

/// The regions after writing `x` to `a`.
pub open spec fn store(v: Seq<Region>, a: u16, x: u8) -> Seq<Region> {
    if stores(v, a) {
        let k = lookup(v, a);
        v.update(k, Region { bytes: v[k].bytes.update(a - v[k].lo, x), ..v[k] })
    } else {
        v
    }
}

/// Two region lists with the same ranges, entry by entry.
pub open spec fn same_ranges(v: Seq<Region>, w: Seq<Region>) -> bool {
    &&& v.len() == w.len()
    &&& forall|i: int| 0 <= i < v.len() ==> (#[trigger] v[i]).lo == w[i].lo && v[i].hi == w[i].hi
}

proof fn lemma_first_match_bounds(v: Seq<Region>, a: u16, from: nat)
    ensures
        first_match(v, a, from) == -1 || (from <= first_match(v, a, from) < v.len() && covers(
            v[first_match(v, a, from)],
            a,
        )),
    decreases v.len() - from,
{
    if from < v.len() && !covers(v[from as int], a) {
        lemma_first_match_bounds(v, a, from + 1);
    }
}

/// The lookup finds a region that covers the address, or none.
pub proof fn lemma_lookup_bounds(v: Seq<Region>, a: u16)
    ensures
        lookup(v, a) == -1 || (0 <= lookup(v, a) < v.len() && covers(v[lookup(v, a)], a)),
{
    lemma_first_match_bounds(v, a, 0);
}

proof fn lemma_first_match_ranges(v: Seq<Region>, w: Seq<Region>, a: u16, from: nat)
    requires
        same_ranges(v, w),
    ensures
        first_match(v, a, from) == first_match(w, a, from),
    decreases v.len() - from,
{
    if from < v.len() {
        lemma_first_match_ranges(v, w, a, from + 1);
    }
}

/// Regions with the same ranges answer for the same addresses.
pub proof fn lemma_lookup_ranges(v: Seq<Region>, w: Seq<Region>, a: u16)
    requires
        same_ranges(v, w),
    ensures
        lookup(v, a) == lookup(w, a),
{
    lemma_first_match_ranges(v, w, a, 0);
}

/// After a write, a read of the same address yields the value written where
/// the address stores, and every other address reads as before.
pub proof fn lemma_peek_store(v: Seq<Region>, a: u16, x: u8, b: u16)
    ensures
        peek(store(v, a, x), b) == (if b == a && stores(v, a) {
            x
        } else {
            peek(v, b)
        }),
        stores(store(v, a, x), b) == stores(v, b),
{
    if stores(v, a) {
        lemma_lookup_bounds(v, a);
        lemma_lookup_bounds(v, b);
        let w = store(v, a, x);
        assert(same_ranges(v, w));
        lemma_lookup_ranges(v, w, b);
    }
}

/// Whether two regions share an address.
pub open spec fn ranges_overlap(g: Region, h: Region) -> bool {
    g.lo <= h.hi && h.lo <= g.hi
}

/// Whether any two entries of the map share an address.
pub open spec fn has_overlap(v: Seq<Region>) -> bool {
    exists|i: int, j: int| 0 <= i < j < v.len() && ranges_overlap(#[trigger] v[i], #[trigger] v[j])
}

impl View for AddressSpaces {
    type V = Seq<Region>;

    closed spec fn view(&self) -> Seq<Region> {
        self.address_maps@.map_values(|m: AddressMap| m.region())
    }
}

impl AddressSpaces {
    /// A bus over the given entries, kept in their order.
    pub fn init(address_maps: Vec<AddressMap>) -> (r: AddressSpaces)
        ensures
            r@ == address_maps@.map_values(|m: AddressMap| m.region()),
    {
        AddressSpaces { address_maps: address_maps }
    }

    /// The index of the first entry whose range holds `address`.
    fn _find_instance_with_address(&self, address: u16) -> (r: Option<usize>)
        ensures
            match r {
                None => lookup(self@, address) == -1,
                Some(k) => lookup(self@, address) == k as int,
            },
    {
        let mut i: usize = 0;
        while i < self.address_maps.len()
            invariant
                i <= self.address_maps@.len(),
                first_match(self@, address, 0) == first_match(self@, address, i as nat),
            decreases self.address_maps@.len() - i,
        {
            let m = &self.address_maps[i];
            assert(self@[i as int] == m.region());
            if m.addr[0] <= address && address <= m.addr[1] {
                return Some(i);
            }
            i = i + 1;
        }
        None
    }

    /// Whether some entry's range holds `address`.
    pub fn is_mapped(&self, address: u16) -> (r: bool)
        ensures
            r == (lookup(self@, address) >= 0),
    {
        self._find_instance_with_address(address).is_some()
    }

    /// Whether two entries claim a common address, a configuration in which
    /// the earlier entry hides part of the later one.
    pub fn has_overlap(&self) -> (r: bool)
        ensures
            r == has_overlap(self@),
    {
        let n = self.address_maps.len();
        let mut j: usize = 0;
        while j < n
            invariant
                n == self@.len(),
                j <= n,
                forall|i: int, k: int|
                    0 <= i < k < j ==> !ranges_overlap(#[trigger] self@[i], #[trigger] self@[k]),
            decreases n - j,
        {
            let mut i: usize = 0;
            while i < j
                invariant
                    n == self@.len(),
                    i <= j < n,
                    forall|a: int, k: int|
                        0 <= a < k < j ==> !ranges_overlap(#[trigger] self@[a], #[trigger] self@[k]),
                    forall|a: int| 0 <= a < i ==> !ranges_overlap(#[trigger] self@[a], self@[j as int]),
                decreases j - i,
            {
                let g = &self.address_maps[i];
                let h = &self.address_maps[j];
                assert(self@[i as int] == g.region() && self@[j as int] == h.region());
                if g.addr[0] <= h.addr[1] && h.addr[0] <= g.addr[1] {
                    assert(ranges_overlap(self@[i as int], self@[j as int]));
                    return true;
                }
                i = i + 1;
            }
            j = j + 1;
        }
        false
    }

    /// Reads the byte at `address`: from the first entry whose range holds
    /// it, at the offset from the range's start; zero where none does.
    pub fn read(&mut self, address: u16) -> (r: u8)
        ensures
            r == peek(old(self)@, address),
            final(self)@ == old(self)@,
    {
        match self._find_instance_with_address(address) {
            None => 0,
            Some(k) => {
                let ghost before = self@;
                proof {
                    lemma_lookup_bounds(before, address);
                }
                let offset: usize = (address - self.address_maps[k].addr[0]) as usize;
                let entry = &mut self.address_maps[k];
                let r = entry.component.read(offset);
                assert(self@ =~= before);
                r
            },
        }
    }

    /// Writes `value` at `address` through the first entry whose range holds
    /// it; an address that no entry holds drops the write.
    pub fn write(&mut self, address: u16, value: u8)
        ensures
            final(self)@ == store(old(self)@, address, value),
    {
        match self._find_instance_with_address(address) {
            None => {},
            Some(k) => {
                let ghost before = self@;
                proof {
                    lemma_lookup_bounds(before, address);
                }
                let offset: usize = (address - self.address_maps[k].addr[0]) as usize;
                let entry = &mut self.address_maps[k];
                entry.component.write(offset, value);
                assert(self@ =~= store(before, address, value));
            },
        }
    }
}

} // verus!
