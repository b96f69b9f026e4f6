use vstd::prelude::*;

use crate::{byte_at, load_address, loaded, payload, IoAddressable};

verus! {

/// Offset of the port A data register.
pub const DATA_A_ADDR: usize = 0;

/// Offset of the port A control register.
pub const CRT_A_ADDR: usize = 1;

/// Offset of the port B data register.
pub const DATA_B_ADDR: usize = 2;

/// Offset of the port B control register.
pub const CRT_B_ADDR: usize = 3;

/// A peripheral interface adapter seen from the bus: four latched
/// registers, data and control for each of two ports.
#[allow(non_camel_case_types)]
pub struct pia6820 {
    pub data: Vec<u8>,
}

impl pia6820 {
    /// A PIA with its four registers cleared.
    pub fn new() -> (r: pia6820)
        ensures
            r.data@ == seq![0u8, 0u8, 0u8, 0u8],
    {
        let r = pia6820 { data: vec![0u8, 0u8, 0u8, 0u8] };
        assert(r.data@ =~= seq![0u8, 0u8, 0u8, 0u8]);
        r
    }
}

impl IoAddressable for pia6820 {
    open spec fn contents(&self) -> Seq<u8> {
        self.data@
    }

    open spec fn accepts_writes(&self) -> bool {
        true
    }

    open spec fn flash_fits(&self, data: Seq<u8>) -> bool {
        data.len() >= 2 && load_address(data) + data.len() - 2 <= self.data@.len()
    }

    open spec fn flash_base(&self, data: Seq<u8>) -> int {
        load_address(data)
    }

    open spec fn counters(&self) -> (u64, u64) {
        (0, 0)
    }

    open spec fn counted_read(&self) -> (u64, u64) {
        (0, 0)
    }

    open spec fn counted_write(&self) -> (u64, u64) {
        (0, 0)
    }

    fn read(&mut self, address: usize) -> (r: u8) {
        if address < self.data.len() {
            self.data[address]
        } else {
            0
        }
    }

    fn write(&mut self, address: usize, value: u8) {
        if address < self.data.len() {
            self.data.set(address, value);
        }
    }

    fn flash(&mut self, data: &Vec<u8>) {
        let base: usize = (data[0] as usize) * 256 + (data[1] as usize);
        let ghost before = self.data@;
        let mut i: usize = 2;
        while i < data.len()
            invariant
                2 <= i <= data.len(),
                base == load_address(data@),
                base + data@.len() - 2 <= self.data@.len(),
                self.data@.len() == before.len(),
                before == old(self).data@,
                forall|j: int|
                    0 <= j < self.data@.len() ==> #[trigger] self.data@[j] == (if base <= j < base
                        + i - 2 {
                        data@[j - base + 2]
                    } else {
                        before[j]
                    }),
            decreases data.len() - i,
        {
            let n: usize = self.data.len();
            assert(base + (i - 2) < n);
            let dst: usize = base + (i - 2);
            self.data.set(dst, data[i]);
            i = i + 1;
        }
        assert(self.data@ =~= loaded(before, base as int, payload(data@)));
    }
}

} // verus!
