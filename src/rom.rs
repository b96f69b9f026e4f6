use vstd::prelude::*;

use crate::{bump, bump_exec, byte_at, loaded, payload, IoAddressable};

verus! {

/// Read-only memory: it ignores writes and counts reads.
pub struct Rom {
    pub data: Vec<u8>,
    pub read_ops: u64,
}

impl Rom {
    /// A ROM of `size` bytes, all 0xFF.
    pub fn init_with_size(size: usize) -> (r: Rom)
        ensures
            r.data@ == Seq::new(size as nat, |_i: int| 0xFFu8),
            r.read_ops == 0,
    {
        Rom { data: vec![0xFFu8; size], read_ops: 0 }
    }
}

impl IoAddressable for Rom {
    open spec fn contents(&self) -> Seq<u8> {
        self.data@
    }

    open spec fn accepts_writes(&self) -> bool {
        false
    }

    /// The load address is ignored; the payload must fit from offset zero.
    open spec fn flash_fits(&self, data: Seq<u8>) -> bool {
        payload(data).len() <= self.data@.len()
    }

    open spec fn flash_base(&self, data: Seq<u8>) -> int {
        0
    }

    open spec fn counters(&self) -> (u64, u64) {
        (self.read_ops, 0)
    }

    open spec fn counted_read(&self) -> (u64, u64) {
        (bump(self.read_ops), 0)
    }

    open spec fn counted_write(&self) -> (u64, u64) {
        (self.read_ops, 0)
    }

    fn read(&mut self, address: usize) -> (r: u8) {
        self.read_ops = bump_exec(self.read_ops);
        if address < self.data.len() {
            self.data[address]
        } else {
            0
        }
    }

    fn write(&mut self, _address: usize, _value: u8) {
    }

    fn flash(&mut self, data: &Vec<u8>) {
        let ghost before = self.data@;
        let mut i: usize = 2;
        while i < data.len()
            invariant
                2 <= i,
                data@.len() >= 2 ==> i <= data@.len(),
                data@.len() < 2 ==> i == 2,
                payload(data@).len() <= self.data@.len(),
                self.data@.len() == before.len(),
                self.read_ops == old(self).read_ops,
                before == old(self).data@,
                forall|j: int|
                    0 <= j < self.data@.len() ==> #[trigger] self.data@[j] == (if j < i - 2 {
                        data@[j + 2]
                    } else {
                        before[j]
                    }),
            decreases data.len() - i,
        {
            self.data.set(i - 2, data[i]);
            i = i + 1;
        }
        let ghost p = payload(data@);
        assert forall|j: int| 0 <= j < self.data@.len() implies #[trigger] self.data@[j] == loaded(
            before,
            0,
            p,
        )[j] by {
            if j < p.len() {
                assert(p[j] == data@[j + 2]);
            }
        }
        assert(self.data@ =~= loaded(before, 0, p));
    }
}

} // verus!
