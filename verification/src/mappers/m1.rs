//! Mapper 1 (MMC1): a serial port of five one-bit writes loads a 5-bit
//! value into the control or bank register selected by bits 13..14 of the
//! written address; CHR banks in one 8 KiB or two 4 KiB windows, PRG in a
//! 32 KiB window or a fixed-plus-switched pair of 16 KiB windows.

use vstd::prelude::*;
use crate::memory::Memory;
use crate::rom::{RomHeader, copy_range, spec_prg_start, spec_image_end, vec_of_zeros};

verus! {

pub struct Mapper1 {
    pub chr_rom: Memory,
    pub prg_rom: Memory,
    pub prg_ram: Memory,
    pub shift_register: u8,
    pub shift_count: u8,
    pub control: u8,
    pub chr_bank_0: u8,
    pub chr_bank_1: u8,
    pub prg_bank: u8,
}

/// The MMC1 register file: the serial shift state and the four 5-bit
/// registers it feeds.
pub struct M1Regs {
    pub shift_register: u8,
    pub shift_count: u8,
    pub control: u8,
    pub chr_bank_0: u8,
    pub chr_bank_1: u8,
    pub prg_bank: u8,
}

impl M1Regs {
    /// The value the serial port would complete on its fifth write: the
    /// four bits already shifted in, plus `data` bit 0 on top.
    pub open spec fn loaded_value(self, data: u8) -> u8 {
        (self.shift_register >> 1u8) | ((data & 1u8) << 4u8)
    }

    /// The register file after one CPU write to 0x8000-0xFFFF: bit 7 set
    /// resets the serial state and forces PRG mode 3; otherwise bit 0 is
    /// shifted in, and the fifth shift moves the completed value into the
    /// register selected by address bits 13..14.
    pub open spec fn after_write(self, addr: u16, data: u8) -> M1Regs {
        if (data & 0x80u8) != 0u8 {
            M1Regs { shift_register: 0x10u8, shift_count: 0u8, control: self.control | 0x0Cu8, ..self }
        } else if self.shift_count < 4u8 {
            M1Regs {
                shift_register: self.loaded_value(data),
                shift_count: (self.shift_count + 1u8) as u8,
                ..self
            }
        } else {
            let value = self.loaded_value(data);
            let target = addr & 0x6000u16;
            M1Regs {
                shift_register: 0x10u8,
                shift_count: 0u8,
                control: if target == 0x0000u16 {
                    value
                } else {
                    self.control
                },
                chr_bank_0: if target == 0x2000u16 {
                    value
                } else {
                    self.chr_bank_0
                },
                chr_bank_1: if target == 0x4000u16 {
                    value
                } else {
                    self.chr_bank_1
                },
                prg_bank: if target == 0x6000u16 {
                    value
                } else {
                    self.prg_bank
                },
            }
        }
    }
}

impl Mapper1 {
    pub open spec fn wf(self) -> bool {
        &&& self.prg_ram.data@.len() == 0x2000
        &&& self.prg_rom.data@.len() <= 0xFFFFFFFFu32
        &&& self.chr_rom.data@.len() <= 0xFFFFFFFFu32
        &&& self.shift_register < 0x20u8
        &&& self.shift_count < 5u8
        &&& self.control < 0x20u8
        &&& self.chr_bank_0 < 0x20u8
        &&& self.chr_bank_1 < 0x20u8
        &&& self.prg_bank < 0x20u8
    }

    pub fn new(header: &RomHeader, data: Vec<u8>) -> (m: Mapper1)
        requires
            spec_image_end(*header) <= data@.len(),
            data@.len() <= 0xFFFFFFFFu32,
        ensures
            m.wf(),
            m.prg_rom.data@ == data@.subrange(
                spec_prg_start(*header),
                spec_prg_start(*header) + header.prg_rom_size,
            ),
            m.chr_rom.data@ == data@.subrange(
                spec_prg_start(*header) + header.prg_rom_size,
                spec_image_end(*header),
            ),
            m.shift_register == 0x10u8,
            m.shift_count == 0u8,
            m.control == 0x0Cu8,
            m.chr_bank_0 == 0u8,
            m.chr_bank_1 == 0u8,
            m.prg_bank == 0u8,
            forall|i: int| 0 <= i < 0x2000 ==> m.prg_ram.data@[i] == 0u8,
    {
        let prg_start: usize = if header.trainer { 16 + 512 } else { 16 };
        let chr_start: usize = prg_start + header.prg_rom_size as usize;
        let prg = copy_range(&data, prg_start, chr_start);
        let chr = copy_range(&data, chr_start, chr_start + header.chr_rom_size as usize);
        Mapper1 {
            chr_rom: Memory::new(chr),
            prg_rom: Memory::new(prg),
            prg_ram: Memory::new(vec_of_zeros(0x2000)),
            shift_register: 0x10,
            shift_count: 0,
            control: 0x0C,
            chr_bank_0: 0,
            chr_bank_1: 0,
            prg_bank: 0,
        }
    }

    /// This board's register file, as the serial port transitions it.
    pub open spec fn regs(self) -> M1Regs {
        M1Regs {
            shift_register: self.shift_register,
            shift_count: self.shift_count,
            control: self.control,
            chr_bank_0: self.chr_bank_0,
            chr_bank_1: self.chr_bank_1,
            prg_bank: self.prg_bank,
        }
    }

    pub fn write_register(&mut self, addr: u16, data: u8)
        requires
            old(self).wf(),
        ensures
            final(self).regs() == old(self).regs().after_write(addr, data),
            final(self).chr_rom == old(self).chr_rom,
            final(self).prg_rom == old(self).prg_rom,
            final(self).prg_ram == old(self).prg_ram,
            final(self).wf(),
    {
        if data & 0x80 != 0 {
            self.shift_register = 0x10;
            self.shift_count = 0;
            self.control = self.control | 0x0C;
            proof {
                let ghost c = old(self).control;
                assert(c < 0x20u8 ==> (c | 0x0Cu8) < 0x20u8) by (bit_vector);
            }
            return ;
        }
        let value: u8 = (self.shift_register >> 1) | ((data & 1) << 4);
        proof {
            let ghost sr = old(self).shift_register;
            assert(sr < 0x20u8 ==> ((sr >> 1u8) | ((data & 1u8) << 4u8)) < 0x20u8) by (bit_vector);
        }
        self.shift_register = value;
        self.shift_count = self.shift_count + 1;

        if self.shift_count == 5 {
            let target = addr & 0x6000;
            if target == 0x0000 {
                self.control = value;
            } else if target == 0x2000 {
                self.chr_bank_0 = value;
            } else if target == 0x4000 {
                self.chr_bank_1 = value;
            } else {
                proof {
                    assert((addr & 0x6000u16) == 0x0000u16 || (addr & 0x6000u16) == 0x2000u16 || (
                    addr & 0x6000u16) == 0x4000u16 || (addr & 0x6000u16) == 0x6000u16)
                        by (bit_vector);
                }
                self.prg_bank = value;
            }
            self.shift_register = 0x10;
            self.shift_count = 0;
        }
    }

    /// The CHR store offset a pattern-space address banks to, per the
    /// control register's CHR mode, modulo the store size.
    pub open spec fn spec_chr_index(self, addr: u16) -> int {
        let cap = self.chr_rom.data@.len() as int;
        if ((self.control >> 4u8) & 1u8) == 0u8 {
            (addr + (self.chr_bank_0 & 0x1Eu8) * 0x1000) % cap
        } else if addr < 0x1000u16 {
            (addr + self.chr_bank_0 * 0x1000) % cap
        } else {
            ((addr - 0x1000u16) + self.chr_bank_1 * 0x1000) % cap
        }
    }

    /// The PRG store offset a CPU address 0x8000-0xFFFF banks to, per the
    /// control register's PRG mode, modulo the store size.
    pub open spec fn spec_prg_index(self, addr: u16) -> int {
        let cap = self.prg_rom.data@.len() as int;
        let mode = (self.control >> 2u8) & 0x3u8;
        if mode == 0u8 || mode == 1u8 {
            ((addr - 0x8000u16) + (self.prg_bank & 0x0Eu8) * 0x4000) % cap
        } else if mode == 2u8 {
            if addr < 0xC000u16 {
                (addr - 0x8000u16) % cap
            } else {
                ((addr - 0xC000u16) + self.prg_bank * 0x4000) % cap
            }
        } else {
            if addr >= 0xC000u16 {
                ((addr - 0xC000u16) + (if cap >= 0x4000 {
                    cap - 0x4000
                } else {
                    0int
                })) % cap
            } else {
                ((addr - 0x8000u16) + self.prg_bank * 0x4000) % cap
            }
        }
    }

    /// Reads out of an empty store return 0; otherwise the byte at the
    /// banked offset.
    pub open spec fn spec_read(self, addr: u16) -> u8 {
        if addr < 0x2000u16 {
            if self.chr_rom.data@.len() == 0 {
                0u8
            } else {
                self.chr_rom.data@[self.spec_chr_index(addr)]
            }
        } else if 0x6000u16 <= addr && addr < 0x8000u16 {
            self.prg_ram.data@[addr - 0x6000u16]
        } else if addr >= 0x8000u16 {
            if self.prg_rom.data@.len() == 0 {
                0u8
            } else {
                self.prg_rom.data@[self.spec_prg_index(addr)]
            }
        } else {
            0u8
        }
    }

    pub fn read(&self, addr: u16) -> (b: u8)
        requires
            self.wf(),
        ensures
            b == self.spec_read(addr),
    {
        if addr < 0x2000 {
            let cap: u32 = self.chr_rom.capacity();
            if cap == 0 {
                return 0;
            }
            let chr_mode = (self.control >> 4) & 1;
            let off: u32 = if chr_mode == 0 {
                (addr as u32) + ((self.chr_bank_0 & 0x1E) as u32) * 0x1000
            } else if addr < 0x1000 {
                (addr as u32) + (self.chr_bank_0 as u32) * 0x1000
            } else {
                ((addr - 0x1000) as u32) + (self.chr_bank_1 as u32) * 0x1000
            };
            let idx: u32 = off % cap;
            self.chr_rom.data[idx as usize]
        } else if 0x6000 <= addr && addr < 0x8000 {
            self.prg_ram.read(addr - 0x6000)
        } else if addr >= 0x8000 {
            let cap: u32 = self.prg_rom.capacity();
            if cap == 0 {
                return 0;
            }
            let prg_mode = (self.control >> 2) & 0x3;
            let off: u32 = if prg_mode == 0 || prg_mode == 1 {
                ((addr - 0x8000) as u32) + ((self.prg_bank & 0x0E) as u32) * 0x4000
            } else if prg_mode == 2 {
                if addr < 0xC000 {
                    (addr - 0x8000) as u32
                } else {
                    ((addr - 0xC000) as u32) + (self.prg_bank as u32) * 0x4000
                }
            } else {
                if addr >= 0xC000 {
                    ((addr - 0xC000) as u32) + (if cap >= 0x4000 {
                        cap - 0x4000
                    } else {
                        0
                    })
                } else {
                    ((addr - 0x8000) as u32) + (self.prg_bank as u32) * 0x4000
                }
            };
            let idx: u32 = off % cap;
            self.prg_rom.data[idx as usize]
        } else {
            0
        }
    }

    /// CHR-space writes are dropped (this board's CHR store is ROM),
    /// PRG-RAM writes always land, 0x8000 and above drives the serial
    /// register port, and the rest are dropped.
    pub fn write(&mut self, addr: u16, data: u8)
        requires
            old(self).wf(),
        ensures
            final(self).wf(),
            final(self).prg_rom == old(self).prg_rom,
            final(self).chr_rom == old(self).chr_rom,
            final(self).prg_ram.data@ == (if 0x6000u16 <= addr && addr < 0x8000u16 {
                old(self).prg_ram.data@.update((addr - 0x6000u16) as int, data)
            } else {
                old(self).prg_ram.data@
            }),
            final(self).regs() == (if addr >= 0x8000u16 {
                old(self).regs().after_write(addr, data)
            } else {
                old(self).regs()
            }),
    {
        if addr < 0x2000 {
        } else if 0x6000 <= addr && addr < 0x8000 {
            self.prg_ram.write(addr - 0x6000, data);
        } else if addr >= 0x8000 {
            self.write_register(addr, data);
        }
    }
}


/// Truncating a banked offset to 16 bits is taking it modulo 0x10000.
proof fn lemma_u32_low16(idx: u32)
    by (bit_vector)
    ensures
        idx as u16 == ((idx % 0x10000u32) as u16),
{
}

impl Mapper1 {
    /// The offset inside the backing store an address banks to, reduced
    /// to 16 bits: the CHR or PRG banking arithmetic of `read`, or the
    /// PRG-RAM offset; unmapped addresses come back unchanged.
    pub fn map(&self, addr: u16) -> (r: u16)
        requires
            self.wf(),
        ensures
            addr < 0x2000u16 && self.chr_rom.data@.len() > 0 ==> r == ((self.spec_chr_index(addr)
                % 0x10000) as u16),
            0x6000u16 <= addr && addr < 0x8000u16 ==> r == addr - 0x6000u16,
            addr >= 0x8000u16 && self.prg_rom.data@.len() > 0 ==> r == ((self.spec_prg_index(addr)
                % 0x10000) as u16),
    {
        if addr < 0x2000 {
            let cap: u32 = self.chr_rom.capacity();
            if cap == 0 {
                return 0;
            }
            let chr_mode = (self.control >> 4) & 1;
            let off: u32 = if chr_mode == 0 {
                (addr as u32) + ((self.chr_bank_0 & 0x1E) as u32) * 0x1000
            } else if addr < 0x1000 {
                (addr as u32) + (self.chr_bank_0 as u32) * 0x1000
            } else {
                ((addr - 0x1000) as u32) + (self.chr_bank_1 as u32) * 0x1000
            };
            let idx: u32 = off % cap;
            proof {
                lemma_u32_low16(idx);
            }
            idx as u16
        } else if 0x6000 <= addr && addr < 0x8000 {
            addr - 0x6000
        } else if addr >= 0x8000 {
            let cap: u32 = self.prg_rom.capacity();
            if cap == 0 {
                return 0;
            }
            let prg_mode = (self.control >> 2) & 0x3;
            let off: u32 = if prg_mode == 0 || prg_mode == 1 {
                ((addr - 0x8000) as u32) + ((self.prg_bank & 0x0E) as u32) * 0x4000
            } else if prg_mode == 2 {
                if addr < 0xC000 {
                    (addr - 0x8000) as u32
                } else {
                    ((addr - 0xC000) as u32) + (self.prg_bank as u32) * 0x4000
                }
            } else {
                if addr >= 0xC000 {
                    ((addr - 0xC000) as u32) + (if cap >= 0x4000 {
                        cap - 0x4000
                    } else {
                        0
                    })
                } else {
                    ((addr - 0x8000) as u32) + (self.prg_bank as u32) * 0x4000
                }
            };
            let idx: u32 = off % cap;
            proof {
                lemma_u32_low16(idx);
            }
            idx as u16
        } else {
            addr
        }
    }
}

} // verus!
