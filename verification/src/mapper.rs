//! The closed set of supported cartridge boards, behind one read/write
//! interface, and the factory that selects a board by header mapper
//! number.

use vstd::prelude::*;
use crate::mappers::m0::Mapper0;
use crate::mappers::m1::{Mapper1, M1Regs};
use crate::rom::{RomHeader, RomError, spec_image_end};

verus! {

pub enum Mapper {
    Nrom(Mapper0),
    Mmc1(Mapper1),
}

impl Mapper {
    pub open spec fn wf(self) -> bool {
        match self {
            Mapper::Nrom(m) => m.wf(),
            Mapper::Mmc1(m) => m.wf(),
        }
    }

    /// The byte the selected board yields for a CPU address 0x4020-0xFFFF
    /// or a PPU pattern address 0x0000-0x1FFF.
    pub open spec fn spec_read(self, addr: u16) -> u8 {
        match self {
            Mapper::Nrom(m) => m.spec_read(addr),
            Mapper::Mmc1(m) => m.spec_read(addr),
        }
    }

    /// An empty NROM board whose every read returns 0.
    pub fn blank() -> (m: Mapper)
        ensures
            m.wf(),
            forall|addr: u16| m.spec_read(addr) == 0u8,
    {
        let m = Mapper::Nrom(Mapper0::blank());
        proof {
            assert forall|addr: u16| m.spec_read(addr) == 0u8 by {
                let b = m->Nrom_0;
                assert(b.prg_ram.data@.len() == 0x2000);
                assert(forall|i: int| 0 <= i < 0x2000 ==> b.prg_ram.data@[i] == 0u8);
            }
        }
        m
    }

    /// The backing-store offset the selected board maps an address to.
    pub fn map(&self, addr: u16) -> (r: u16)
        requires
            self.wf(),
    {
        match self {
            Mapper::Nrom(m) => m.map(addr),
            Mapper::Mmc1(m) => m.map(addr),
        }
    }

    pub fn read(&self, addr: u16) -> (b: u8)
        requires
            self.wf(),
        ensures
            b == self.spec_read(addr),
    {
        match self {
            Mapper::Nrom(m) => m.read(addr),
            Mapper::Mmc1(m) => m.read(addr),
        }
    }

    pub fn write(&mut self, addr: u16, data: u8)
        requires
            old(self).wf(),
        ensures
            final(self).wf(),
            mapper_write_rel(*old(self), *final(self), addr, data),
    {
        match self {
            Mapper::Nrom(m) => m.write(addr, data),
            Mapper::Mmc1(m) => m.write(addr, data),
        }
    }
}

/// How one write changes a board: CHR-space writes land in the board's
/// writable CHR store when in range, PRG-RAM writes always land, and on
/// MMC1 a write at 0x8000 or above drives the serial register port.
pub open spec fn mapper_write_rel(pre: Mapper, post: Mapper, addr: u16, data: u8) -> bool {
    &&& pre is Nrom ==> post is Nrom
    &&& pre is Mmc1 ==> post is Mmc1
    &&& pre is Mmc1 ==> {
        let m = pre->Mmc1_0;
        let m2 = post->Mmc1_0;
        &&& m2.prg_rom == m.prg_rom
        &&& m2.chr_rom == m.chr_rom
        &&& m2.prg_ram.data@ == (if 0x6000u16 <= addr && addr < 0x8000u16 {
            m.prg_ram.data@.update((addr - 0x6000u16) as int, data)
        } else {
            m.prg_ram.data@
        })
        &&& m2.regs() == (if addr >= 0x8000u16 {
            m.regs().after_write(addr, data)
        } else {
            m.regs()
        })
    }
    &&& pre is Nrom ==> {
        let m = pre->Nrom_0;
        let m2 = post->Nrom_0;
        &&& m2.chr_rom == m.chr_rom
        &&& m2.prg_rom == m.prg_rom
        &&& m2.chr_ram.data@ == (if addr < 0x2000u16 && addr < m.chr_ram.data@.len() {
            m.chr_ram.data@.update(addr as int, data)
        } else {
            m.chr_ram.data@
        })
        &&& m2.prg_ram.data@ == (if 0x6000u16 <= addr && addr < 0x8000u16 {
            m.prg_ram.data@.update((addr - 0x6000u16) as int, data)
        } else {
            m.prg_ram.data@
        })
    }
}

pub struct MapperFactory;

impl MapperFactory {
    /// Pick the board the header names. Fails on a mapper number outside
    /// the supported set, and on an image shorter than the PRG + CHR
    /// contents the header declares.
    pub fn select(header: &RomHeader, data: Vec<u8>) -> (r: Result<Mapper, RomError>)
        requires
            data@.len() <= 0xFFFFFFFFu32,
        ensures
            match r {
                Ok(m) => {
                    &&& (header.mapper_number == 0u16 || header.mapper_number == 1u16)
                    &&& spec_image_end(*header) <= data@.len()
                    &&& m.wf()
                    &&& (header.mapper_number == 0u16 ==> m is Nrom
                        && m->Nrom_0.prg_rom.data@ == data@.subrange(
                        crate::rom::spec_prg_start(*header),
                        crate::rom::spec_prg_start(*header) + header.prg_rom_size,
                    ) && m->Nrom_0.chr_rom.data@ == data@.subrange(
                        crate::rom::spec_prg_start(*header) + header.prg_rom_size,
                        spec_image_end(*header),
                    ))
                    &&& (header.mapper_number == 1u16 ==> m is Mmc1
                        && m->Mmc1_0.prg_rom.data@ == data@.subrange(
                        crate::rom::spec_prg_start(*header),
                        crate::rom::spec_prg_start(*header) + header.prg_rom_size,
                    ) && m->Mmc1_0.chr_rom.data@ == data@.subrange(
                        crate::rom::spec_prg_start(*header) + header.prg_rom_size,
                        spec_image_end(*header),
                    ) && m->Mmc1_0.regs() == (M1Regs {
                        shift_register: 0x10u8,
                        shift_count: 0u8,
                        control: 0x0Cu8,
                        chr_bank_0: 0u8,
                        chr_bank_1: 0u8,
                        prg_bank: 0u8,
                    }))
                },
                Err(RomError::UnsupportedMapper) => !(header.mapper_number == 0u16
                    || header.mapper_number == 1u16),
                Err(RomError::TruncatedImage) => (header.mapper_number == 0u16
                    || header.mapper_number == 1u16) && spec_image_end(*header) > data@.len(),
                Err(RomError::BadMagic) => false,
            },
    {
        if !(header.mapper_number == 0 || header.mapper_number == 1) {
            return Err(RomError::UnsupportedMapper);
        }
        let prg_start: usize = if header.trainer { 16 + 512 } else { 16 };
        let needed: u64 = prg_start as u64 + header.prg_rom_size as u64 + header.chr_rom_size
            as u64;
        if needed > data.len() as u64 {
            return Err(RomError::TruncatedImage);
        }
        if header.mapper_number == 0 {
            Ok(Mapper::Nrom(Mapper0::new(header, data)))
        } else {
            Ok(Mapper::Mmc1(Mapper1::new(header, data)))
        }
    }
}

} // verus!
