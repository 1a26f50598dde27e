//! The flat 64 KiB address space.  Every 16-bit address names a mutable
//! byte; word access is little-endian with 16-bit wrap-around handled by the
//! callers in `cpu`.

use vstd::prelude::*;
use crate::model::{mrd, mwr};

verus! {

pub struct Memory {
    bytes: Vec<u8>,
}

impl Memory {
    /// All 65,536 cells exist at all times.
    #[verifier::type_invariant]
    spec fn inv(&self) -> bool {
        self.bytes@.len() == 0x10000
    }

    /// The memory image as a sequence of 65,536 bytes.
    pub closed spec fn contents(&self) -> Seq<u8> {
        self.bytes@
    }

    /// The size of the address space.  Its contract carries the fact that
    /// every memory image holds exactly 65,536 cells, whatever its history,
    /// so callers can reason about an arbitrary `Memory`.
    pub fn size(&self) -> (n: usize)
        ensures
            n == self.contents().len(),
            n == 0x10000,
    {
        proof {
            use_type_invariant(self);
        }
        0x10000
    }

    /// Fresh memory: 65,536 zero bytes.
    pub fn new() -> (m: Memory)
        ensures
            m.contents() == Seq::new(0x10000, |i: int| 0u8),
    {
        let mut bytes: Vec<u8> = Vec::new();
        let mut i: usize = 0;
        while i < 0x10000
            invariant
                i <= 0x10000,
                bytes@.len() == i,
                forall|j: int| 0 <= j < i ==> bytes@[j] == 0u8,
            decreases 0x10000 - i,
        {
            bytes.push(0);
            i += 1;
        }
        let m = Memory { bytes };
        proof {
            assert(m.contents() =~= Seq::new(0x10000, |i: int| 0u8));
        }
        m
    }

    /// Read the byte at `address`.
    pub fn get(&self, address: u16) -> (v: u8)
        ensures
            v == mrd(self.contents(), address),
    {
        proof {
            use_type_invariant(self);
        }
        self.bytes[address as usize]
    }

    /// Write the byte at `address`.
    pub fn set(&mut self, address: u16, value: u8)
        ensures
            final(self).contents() == mwr(old(self).contents(), address, value),
    {
        proof {
            use_type_invariant(&*self);
        }
        self.bytes[address as usize] = value;
    }

    /// Borrow the bytes from `start` through `end`, both included (the host
    /// renderer reads the video region this way).
    pub fn view(&self, start: u16, end: u16) -> (s: &[u8])
        requires
            start <= end,
        ensures
            s@ == self.contents().subrange(start as int, end as int + 1),
    {
        proof {
            use_type_invariant(self);
        }
        vstd::slice::slice_subrange(self.bytes.as_slice(), start as usize, end as usize + 1)
    }

    /// Copy `data` into memory starting at `address` (how the host installs
    /// a ROM image).
    pub fn load(&mut self, address: usize, data: &[u8])
        requires
            address + data@.len() <= 0x10000,
        ensures
            final(self).contents() == old(self).contents().take(address as int) + data@
                + old(self).contents().skip(address + data@.len()),
    {
        proof {
            use_type_invariant(&*self);
        }
        let n = data.len();
        let mut i: usize = 0;
        while i < n
            invariant
                n == data@.len(),
                address + n <= 0x10000,
                i <= n,
                self.bytes@.len() == 0x10000,
                forall|j: int| 0 <= j < i ==> self.bytes@[address + j] == data@[j],
                forall|j: int|
                    0 <= j < 0x10000 && !(address <= j < address + i) ==> self.bytes@[j]
                        == old(self).contents()[j],
            decreases n - i,
        {
            self.bytes[address + i] = data[i];
            i += 1;
        }
        proof {
            assert(self.contents() =~= old(self).contents().take(address as int) + data@
                + old(self).contents().skip(address + data@.len()));
        }
    }
}

} // verus!
