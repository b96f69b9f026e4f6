//! Emulator of a small 6502 microcomputer: a MOS 6502 interpreter, the
//! address decoder it reads and writes through, RAM, ROM and a PIA latch,
//! and the pacing rule of the clock that drives it.

use vstd::prelude::*;

pub mod address_spaces;
mod alu;
pub mod clock;
pub mod isa;
pub mod laws;
pub mod mc6502;
pub mod pia6820;
pub mod ram;
pub mod rom;

verus! {

/// The byte that a read at `offset` yields from a store whose contents are
/// `s`: offsets past the end read as zero.
pub open spec fn byte_at(s: Seq<u8>, offset: int) -> u8 {
    if 0 <= offset < s.len() {
        s[offset]
    } else {
        0
    }
}

/// `s` with `payload` copied in from offset `base` on.
pub open spec fn loaded(s: Seq<u8>, base: int, payload: Seq<u8>) -> Seq<u8> {
    Seq::new(
        s.len(),
        |j: int|
            if base <= j < base + payload.len() {
                payload[j - base]
            } else {
                s[j]
            },
    )
}

/// What a flash image carries after its two-byte load address.
pub open spec fn payload(data: Seq<u8>) -> Seq<u8> {
    if data.len() >= 2 {
        data.subrange(2, data.len() as int)
    } else {
        Seq::empty()
    }
}

/// The big-endian load address in the first two bytes of a flash image.
pub open spec fn load_address(data: Seq<u8>) -> int
    recommends
        data.len() >= 2,
{
    data[0] as int * 256 + data[1] as int
}

/// A counter that goes up by one and stays at its largest value.
pub open spec fn bump(n: u64) -> u64 {
    if n < u64::MAX {
        (n + 1) as u64
    } else {
        n
    }
}

pub(crate) fn bump_exec(n: u64) -> (r: u64)
    ensures
        r == bump(n),
{
    if n < u64::MAX {
        n + 1
    } else {
        n
    }
}

/// A device that presents bytes at device-local offsets.
pub trait IoAddressable {
    /// The bytes the device holds.
    spec fn contents(&self) -> Seq<u8>;

    /// Whether a write can change the contents.
    spec fn accepts_writes(&self) -> bool;

    /// Whether a flash image is one the device can load.
    spec fn flash_fits(&self, data: Seq<u8>) -> bool;

    /// The offset at which a flash image is loaded.
    spec fn flash_base(&self, data: Seq<u8>) -> int;

    /// The access counters, reads then writes.
    spec fn counters(&self) -> (u64, u64);

    /// The counters after one more read.
    spec fn counted_read(&self) -> (u64, u64);

    /// The counters after one more write.
    spec fn counted_write(&self) -> (u64, u64);

    /// Reads the byte at `address`; past the end it reads zero.
    fn read(&mut self, address: usize) -> (r: u8)
        ensures
            r == byte_at(old(self).contents(), address as int),
            final(self).contents() == old(self).contents(),
            final(self).accepts_writes() == old(self).accepts_writes(),
            final(self).counters() == old(self).counted_read(),
    ;

    /// Writes `value` at `address` when the device accepts writes and the
    /// offset is inside it; otherwise the contents stay as they are.
    fn write(&mut self, address: usize, value: u8)
        ensures
            final(self).contents() == (if old(self).accepts_writes() && address
                < old(self).contents().len() {
                old(self).contents().update(address as int, value)
            } else {
                old(self).contents()
            }),
            final(self).accepts_writes() == old(self).accepts_writes(),
            final(self).counters() == old(self).counted_write(),
    ;

    /// Loads the payload of a flash image at the device's load offset.
    fn flash(&mut self, data: &Vec<u8>)
        requires
            old(self).flash_fits(data@),
        ensures
            final(self).contents() == loaded(
                old(self).contents(),
                old(self).flash_base(data@),
                payload(data@),
            ),
            final(self).accepts_writes() == old(self).accepts_writes(),
            final(self).counters() == old(self).counters(),
    ;
}

/// Something that advances in steps of whole clock cycles.
pub trait Clockable {
    fn get_cycles(&self) -> usize;

    fn step(&mut self) -> usize;
}

} // verus!
