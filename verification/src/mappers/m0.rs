//! Mapper 0 (NROM): fixed PRG-ROM at 0x8000 (mirrored when a single
//! 16 KiB bank is present), 8 KiB PRG-RAM at 0x6000, and CHR-ROM or
//! 8 KiB CHR-RAM in the PPU pattern space.

use vstd::prelude::*;
use crate::memory::Memory;
use crate::rom::{RomHeader, copy_range, spec_prg_start, spec_image_end, vec_of_zeros};

verus! {

pub struct Mapper0 {
    pub chr_rom: Memory,
    pub chr_ram: Memory,
    pub prg_rom: Memory,
    pub prg_ram: Memory,
}

impl Mapper0 {
    pub open spec fn wf(self) -> bool {
        &&& self.prg_ram.data@.len() == 0x2000
        &&& (self.chr_ram.data@.len() == 0x2000 || self.chr_ram.data@.len() == 0)
        &&& self.prg_rom.data@.len() <= 0xFFFFFFFFu32
        &&& self.chr_rom.data@.len() <= 0xFFFFFFFFu32
    }

    /// Where a CPU/PPU address lands inside its backing store; reads out
    /// of any store's range return 0 and writes there are dropped.
    pub open spec fn spec_read(self, addr: u16) -> u8 {
        if addr < 0x2000u16 {
            if self.chr_rom.data@.len() == 0 {
                if addr < self.chr_ram.data@.len() {
                    self.chr_ram.data@[addr as int]
                } else {
                    0u8
                }
            } else {
                if addr < self.chr_rom.data@.len() {
                    self.chr_rom.data@[addr as int]
                } else {
                    0u8
                }
            }
        } else if 0x6000u16 <= addr && addr < 0x8000u16 {
            self.prg_ram.data@[addr - 0x6000u16]
        } else if addr >= 0x8000u16 {
            if self.prg_rom.data@.len() == 0 {
                0u8
            } else {
                self.prg_rom.data@[(addr - 0x8000u16) as int % self.prg_rom.data@.len() as int]
            }
        } else {
            0u8
        }
    }

    /// An NROM board over an empty image: every read yields 0.
    pub fn blank() -> (m: Mapper0)
        ensures
            m.wf(),
            m.chr_rom.data@.len() == 0,
            m.chr_ram.data@.len() == 0,
            m.prg_rom.data@.len() == 0,
            forall|i: int| 0 <= i < 0x2000 ==> m.prg_ram.data@[i] == 0u8,
    {
        Mapper0 {
            chr_rom: Memory::new(Vec::new()),
            chr_ram: Memory::new(Vec::new()),
            prg_rom: Memory::new(Vec::new()),
            prg_ram: Memory::new(vec_of_zeros(0x2000)),
        }
    }

    /// Build the board from the PRG and CHR segments of the image.
    /// CHR-RAM is allocated only when the header declares neither CHR-ROM
    /// nor CHR-RAM, as an 8 KiB default.
    pub fn new(header: &RomHeader, data: Vec<u8>) -> (m: Mapper0)
        requires
            spec_image_end(*header) <= data@.len(),
            data@.len() <= 0xFFFFFFFFu32,
        ensures
            m.wf(),
            m.prg_rom.data@ == data@.subrange(
                spec_prg_start(*header),
                spec_prg_start(*header) + header.prg_rom_size,
            ),
            m.chr_rom.data@ == data@.subrange(
                spec_prg_start(*header) + header.prg_rom_size,
                spec_image_end(*header),
            ),
            m.chr_ram.data@.len() == (if header.chr_rom_size == 0u32 && header.chr_ram_size
                == 0u32 {
                0x2000int
            } else {
                0int
            }),
            forall|i: int| 0 <= i < m.chr_ram.data@.len() ==> m.chr_ram.data@[i] == 0u8,
            forall|i: int| 0 <= i < 0x2000 ==> m.prg_ram.data@[i] == 0u8,
    {
        let prg_start: usize = if header.trainer { 16 + 512 } else { 16 };
        let chr_start: usize = prg_start + header.prg_rom_size as usize;
        let prg = copy_range(&data, prg_start, chr_start);
        let chr = copy_range(&data, chr_start, chr_start + header.chr_rom_size as usize);
        let chr_ram_len: usize = if header.chr_rom_size == 0 && header.chr_ram_size == 0 {
            0x2000
        } else {
            0
        };
        Mapper0 {
            chr_rom: Memory::new(chr),
            chr_ram: Memory::new(vec_of_zeros(chr_ram_len)),
            prg_rom: Memory::new(prg),
            prg_ram: Memory::new(vec_of_zeros(0x2000)),
        }
    }

    pub fn read(&self, addr: u16) -> (b: u8)
        requires
            self.wf(),
        ensures
            b == self.spec_read(addr),
    {
        if addr < 0x2000 {
            if self.chr_rom.data.len() == 0 {
                if (addr as usize) < self.chr_ram.data.len() {
                    self.chr_ram.read(addr)
                } else {
                    0
                }
            } else {
                if (addr as usize) < self.chr_rom.data.len() {
                    self.chr_rom.read(addr)
                } else {
                    0
                }
            }
        } else if 0x6000 <= addr && addr < 0x8000 {
            self.prg_ram.read(addr - 0x6000)
        } else if addr >= 0x8000 {
            let cap: u32 = self.prg_rom.capacity();
            if cap == 0 {
                0
            } else {
                let idx: u32 = ((addr - 0x8000) as u32) % cap;
                self.prg_rom.data[idx as usize]
            }
        } else {
            0
        }
    }

    /// Writes land in CHR-RAM (when present) or PRG-RAM; writes to ROM
    /// and to unmapped space are dropped.
    pub fn write(&mut self, addr: u16, data: u8)
        requires
            old(self).wf(),
        ensures
            final(self).wf(),
            final(self).chr_rom == old(self).chr_rom,
            final(self).prg_rom == old(self).prg_rom,
            final(self).chr_ram.data@ == (if addr < 0x2000u16 && addr < old(
                self,
            ).chr_ram.data@.len() {
                old(self).chr_ram.data@.update(addr as int, data)
            } else {
                old(self).chr_ram.data@
            }),
            final(self).prg_ram.data@ == (if 0x6000u16 <= addr && addr < 0x8000u16 {
                old(self).prg_ram.data@.update((addr - 0x6000u16) as int, data)
            } else {
                old(self).prg_ram.data@
            }),
    {
        if addr < 0x2000 {
            if (addr as usize) < self.chr_ram.data.len() {
                self.chr_ram.write(addr, data);
            }
        } else if 0x6000 <= addr && addr < 0x8000 {
            self.prg_ram.write(addr - 0x6000, data);
        }
    }

    /// The offset a CPU/PPU address maps to inside its backing store.
    pub fn map(&self, addr: u16) -> (r: u16)
        requires
            self.wf(),
        ensures
            addr < 0x2000u16 ==> r == addr,
            0x6000u16 <= addr && addr < 0x8000u16 ==> r == addr - 0x6000u16,
            addr >= 0x8000u16 && self.prg_rom.data@.len() > 0 ==> r == ((addr - 0x8000u16) as int
                % self.prg_rom.data@.len() as int) as u16,
    {
        if addr < 0x2000 {
            addr
        } else if 0x6000 <= addr && addr < 0x8000 {
            addr - 0x6000
        } else if addr >= 0x8000 {
            let cap: u32 = self.prg_rom.capacity();
            if cap == 0 {
                0
            } else {
                let idx: u32 = ((addr - 0x8000) as u32) % cap;
                proof {
                    assert(idx < cap);
                }
                idx as u16
            }
        } else {
            0
        }
    }
}

} // verus!
