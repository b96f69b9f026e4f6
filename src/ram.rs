use vstd::prelude::*;

use crate::{bump, bump_exec, byte_at, load_address, loaded, payload, IoAddressable};

verus! {

/// Read/write memory backed by a byte vector, with access counters.
pub struct Ram {
    pub data: Vec<u8>,
    pub read_ops: u64,
    pub write_ops: u64,
}

impl Ram {
    /// A RAM of `size` bytes, all zero.
    pub fn init_with_size(size: usize) -> (r: Ram)
        ensures
            r.data@ == Seq::new(size as nat, |_i: int| 0u8),
            r.read_ops == 0,
            r.write_ops == 0,
    {
        Ram { data: vec![0u8; size], read_ops: 0, write_ops: 0 }
    }
}

impl IoAddressable for Ram {
    open spec fn contents(&self) -> Seq<u8> {
        self.data@
    }

    open spec fn accepts_writes(&self) -> bool {
        true
    }

    /// The image names its load address and its payload fits from there.
    open spec fn flash_fits(&self, data: Seq<u8>) -> bool {
        data.len() >= 2 && load_address(data) + data.len() - 2 <= self.data@.len()
    }

    open spec fn flash_base(&self, data: Seq<u8>) -> int {
        load_address(data)
    }

    open spec fn counters(&self) -> (u64, u64) {
        (self.read_ops, self.write_ops)
    }

    open spec fn counted_read(&self) -> (u64, u64) {
        (bump(self.read_ops), self.write_ops)
    }

    open spec fn counted_write(&self) -> (u64, u64) {
        (self.read_ops, bump(self.write_ops))
    }

    fn read(&mut self, address: usize) -> (r: u8) {
        self.read_ops = bump_exec(self.read_ops);
        if address < self.data.len() {
            self.data[address]
        } else {
            0
        }
    }

    fn write(&mut self, address: usize, value: u8) {
        self.write_ops = bump_exec(self.write_ops);
        if address < self.data.len() {
            self.data.set(address, value);
        }
    }

    fn flash(&mut self, data: &Vec<u8>) {
        let base: usize = (data[0] as usize) * 256 + (data[1] as usize);
        let ghost before = self.data@;
        let mut i: usize = 2;
        while i < data.len()
            invariant
                2 <= i <= data.len(),
                base == load_address(data@),
                base + data@.len() - 2 <= self.data@.len(),
                self.data@.len() == before.len(),
                self.read_ops == old(self).read_ops,
                self.write_ops == old(self).write_ops,
                before == old(self).data@,
                forall|j: int|
                    0 <= j < self.data@.len() ==> #[trigger] self.data@[j] == (if base <= j < base
                        + i - 2 {
                        data@[j - base + 2]
                    } else {
                        before[j]
                    }),
            decreases data.len() - i,
        {
            let n: usize = self.data.len();
            assert(base + (i - 2) < n);
            let dst: usize = base + (i - 2);
            self.data.set(dst, data[i]);
            i = i + 1;
        }
        assert(self.data@ =~= loaded(before, base as int, payload(data@)));
    }
}

} // verus!
