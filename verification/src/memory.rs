//! Fixed-size byte storage with bounds-checked access, backing CPU RAM,
//! PPU VRAM and the cartridge's PRG/CHR regions.

use vstd::prelude::*;

verus! {

pub struct Memory {
    pub data: Vec<u8>,
}

impl Memory {
    pub fn new(vec: Vec<u8>) -> (m: Memory)
        ensures
            m.data@ == vec@,
    {
        Memory { data: vec }
    }

    pub fn clear(&mut self)
        ensures
            final(self).data@.len() == old(self).data@.len(),
            forall|i: int| 0 <= i < final(self).data@.len() ==> final(self).data@[i] == 0u8,
    {
        let n = self.data.len();
        let mut i: usize = 0;
        while i < n
            invariant
                i <= n,
                n == self.data@.len(),
                forall|j: int| 0 <= j < i ==> self.data@[j] == 0u8,
            decreases n - i,
        {
            self.data[i] = 0;
            i += 1;
        }
    }

    pub fn capacity(&self) -> (n: u32)
        requires
            self.data@.len() <= u32::MAX,
        ensures
            n == self.data@.len(),
    {
        self.data.len() as u32
    }

    pub fn read(&self, address: u16) -> (b: u8)
        requires
            address < self.data@.len(),
        ensures
            b == self.data@[address as int],
    {
        self.data[address as usize]
    }

    pub fn write(&mut self, address: u16, value: u8)
        requires
            address < old(self).data@.len(),
        ensures
            final(self).data@ == old(self).data@.update(address as int, value),
    {
        self.data[address as usize] = value;
    }
}

} // verus!
