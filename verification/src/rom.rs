//! iNES / NES 2.0 cartridge images: the 16-byte header and the assembled
//! cartridge (header plus mapper with its PRG/CHR backing stores).

use vstd::prelude::*;
use crate::mapper::{Mapper, MapperFactory};

verus! {

pub const HEADER_SIZE: usize = 16;

#[derive(Debug, Clone, Copy, PartialEq, Eq, Structural)]
pub enum INesVersion {
    Unknown,
    One,
    Two,
}

#[derive(Debug, Clone, Copy, PartialEq, Eq, Structural)]
pub enum Console {
    NES,
    VsSystem,
    Playchoice10,
    Extended,
}

#[derive(Debug, Clone, Copy, PartialEq, Eq, Structural)]
pub enum Mirroring {
    Vertical,
    Horizontal,
    SingleScreen,
    FourScreen,
}

#[derive(Debug, Clone, Copy, PartialEq, Eq, Structural)]
pub enum TvSystem {
    NTSC,
    PAL,
    DualCompatible,
    Dendy,
}

/// Why a cartridge image was rejected at load time.
#[derive(Debug, Clone, Copy, PartialEq, Eq, Structural)]
pub enum RomError {
    BadMagic,
    UnsupportedMapper,
    TruncatedImage,
}

/// The four magic bytes "NES\x1A" open every iNES image.
pub open spec fn spec_has_magic(d: Seq<u8>) -> bool {
    d[0] == 0x4Eu8 && d[1] == 0x45u8 && d[2] == 0x53u8 && d[3] == 0x1Au8
}

pub open spec fn spec_version(d: Seq<u8>) -> INesVersion {
    if spec_has_magic(d) {
        if (d[7] & 0x0Cu8) == 0x08u8 {
            INesVersion::Two
        } else {
            INesVersion::One
        }
    } else {
        INesVersion::Unknown
    }
}

pub open spec fn spec_mapper_number(d: Seq<u8>) -> u16 {
    match spec_version(d) {
        INesVersion::One => ((d[7] & 0xF0u8) | (d[6] >> 4u8)) as u16,
        INesVersion::Two => (((d[8] & 0x0Fu8) as u16) << 8u16) | (((d[6] >> 4u8) | (d[7]
            & 0xF0u8)) as u16),
        INesVersion::Unknown => 0u16,
    }
}

pub open spec fn spec_submapper(d: Seq<u8>) -> u8 {
    match spec_version(d) {
        INesVersion::Two => (d[8] >> 4u8) & 0x0Fu8,
        _ => 0u8,
    }
}

pub open spec fn spec_mirroring(d: Seq<u8>) -> Mirroring {
    if (d[6] & 0x08u8) != 0u8 {
        Mirroring::FourScreen
    } else if (d[6] & 0x01u8) == 0u8 {
        Mirroring::Horizontal
    } else {
        Mirroring::Vertical
    }
}

pub open spec fn spec_console(d: Seq<u8>) -> Console {
    if (d[7] & 0x3u8) == 0u8 {
        Console::NES
    } else if (d[7] & 0x3u8) == 1u8 {
        Console::VsSystem
    } else if (d[7] & 0x3u8) == 2u8 {
        Console::Playchoice10
    } else {
        Console::Extended
    }
}

pub open spec fn spec_prg_rom_size(d: Seq<u8>) -> u32 {
    match spec_version(d) {
        INesVersion::One => ((d[4] as u32) * 16 * 1024) as u32,
        INesVersion::Two => if d[4] != 0u8 {
            ((d[4] as u32) * ((1u32 << (((d[9] >> 4u8) & 0xFu8) as u32)) as u32)) as u32
        } else {
            0u32
        },
        INesVersion::Unknown => 0u32,
    }
}

pub open spec fn spec_chr_rom_size(d: Seq<u8>) -> u32 {
    match spec_version(d) {
        INesVersion::One => ((d[5] as u32) * 8 * 1024) as u32,
        INesVersion::Two => if d[5] != 0u8 {
            ((d[5] as u32) * ((1u32 << ((d[9] & 0xFu8) as u32)) as u32)) as u32
        } else {
            0u32
        },
        INesVersion::Unknown => 0u32,
    }
}

pub open spec fn spec_prg_ram_size(d: Seq<u8>) -> u32 {
    match spec_version(d) {
        INesVersion::One => if (d[6] & 0x02u8) != 0u8 {
            8192u32
        } else {
            0u32
        },
        INesVersion::Two => if (d[10] & 0xFu8) != 0u8 {
            (1u32 << (((d[10] & 0xFu8) as u32) + 6) as u32) as u32
        } else {
            0u32
        },
        INesVersion::Unknown => 0u32,
    }
}

pub open spec fn spec_prg_nvram_size(d: Seq<u8>) -> u32 {
    match spec_version(d) {
        INesVersion::Two => if (d[10] >> 4u8) != 0u8 {
            (1u32 << ((((d[10] >> 4u8) & 0xFu8) as u32) + 6) as u32) as u32
        } else {
            0u32
        },
        _ => 0u32,
    }
}

pub open spec fn spec_chr_ram_size(d: Seq<u8>) -> u32 {
    match spec_version(d) {
        INesVersion::Two => if (d[11] & 0xFu8) != 0u8 {
            (1u32 << (((d[11] & 0xFu8) as u32) + 6) as u32) as u32
        } else {
            0u32
        },
        _ => 0u32,
    }
}

pub open spec fn spec_chr_nvram_size(d: Seq<u8>) -> u32 {
    match spec_version(d) {
        INesVersion::Two => if (d[11] >> 4u8) != 0u8 {
            (1u32 << ((((d[11] >> 4u8) & 0xFu8) as u32) + 6) as u32) as u32
        } else {
            0u32
        },
        _ => 0u32,
    }
}

pub open spec fn spec_tv(d: Seq<u8>) -> TvSystem {
    match spec_version(d) {
        INesVersion::One => if (d[9] & 0x01u8) != 0u8 {
            TvSystem::PAL
        } else {
            TvSystem::NTSC
        },
        INesVersion::Two => if (d[12] & 0x03u8) == 0u8 {
            TvSystem::NTSC
        } else if (d[12] & 0x03u8) == 1u8 {
            TvSystem::PAL
        } else if (d[12] & 0x03u8) == 2u8 {
            TvSystem::DualCompatible
        } else {
            TvSystem::Dendy
        },
        INesVersion::Unknown => TvSystem::DualCompatible,
    }
}

/// Where the PRG-ROM segment begins in the image: after the header and,
/// when the trainer flag is set, after the 512-byte trainer.
pub open spec fn spec_prg_start(h: RomHeader) -> int {
    HEADER_SIZE + (if h.trainer {
        512int
    } else {
        0int
    })
}

/// One past the end of the CHR-ROM segment in the image.
pub open spec fn spec_image_end(h: RomHeader) -> int {
    spec_prg_start(h) + h.prg_rom_size + h.chr_rom_size
}

pub struct RomHeader {
    pub nes_version: INesVersion,
    pub prg_rom_banks: u8,
    pub prg_rom_size: u32,
    pub prg_ram_size: u32,
    pub prg_nvram_size: u32,
    pub chr_rom_size: u32,
    pub chr_ram_size: u32,
    pub chr_nvram_size: u32,
    pub mapper_number: u16,
    pub submapper: u8,
    pub battery: bool,
    pub trainer: bool,
    pub mirroring: Mirroring,
    pub console: Console,
    pub tv: TvSystem,
}

impl RomHeader {
    /// Every field is the documented function of the 16 header bytes.
    pub open spec fn matches(self, d: Seq<u8>) -> bool {
        &&& self.nes_version == spec_version(d)
        &&& self.prg_rom_banks == d[4]
        &&& self.prg_rom_size == spec_prg_rom_size(d)
        &&& self.prg_ram_size == spec_prg_ram_size(d)
        &&& self.prg_nvram_size == spec_prg_nvram_size(d)
        &&& self.chr_rom_size == spec_chr_rom_size(d)
        &&& self.chr_ram_size == spec_chr_ram_size(d)
        &&& self.chr_nvram_size == spec_chr_nvram_size(d)
        &&& self.mapper_number == spec_mapper_number(d)
        &&& self.submapper == spec_submapper(d)
        &&& self.battery == ((d[6] & 0x02u8) != 0u8)
        &&& self.trainer == ((d[6] & 0x04u8) != 0u8)
        &&& self.mirroring == spec_mirroring(d)
        &&& self.console == spec_console(d)
        &&& self.tv == spec_tv(d)
    }

    pub fn new(data: Vec<u8>) -> (h: RomHeader)
        requires
            data@.len() >= HEADER_SIZE,
        ensures
            h.matches(data@),
    {
        let has_magic = data[0] == 0x4E && data[1] == 0x45 && data[2] == 0x53 && data[3] == 0x1A;
        let flag_6 = data[6];
        let flag_7 = data[7];

        let nes_version = if has_magic {
            if flag_7 & 0x0C == 0x08 {
                INesVersion::Two
            } else {
                INesVersion::One
            }
        } else {
            INesVersion::Unknown
        };

        let battery = flag_6 & 0x02 != 0;
        let trainer = (flag_6 & 0x04) != 0;

        let (mapper_number, submapper): (u16, u8) = match nes_version {
            INesVersion::One => (((flag_7 & 0xF0) | (flag_6 >> 4u8)) as u16, 0u8),
            INesVersion::Two => {
                let lower_bits = ((flag_6 >> 4u8) | (flag_7 & 0xF0)) as u16;
                let upper_bits = (data[8] & 0x0F) as u16;
                ((upper_bits << 8u16) | lower_bits, (data[8] >> 4u8) & 0x0F)
            },
            INesVersion::Unknown => (0u16, 0u8),
        };

        let console_number = flag_7 & 0x3;
        let console = if console_number == 0 {
            Console::NES
        } else if console_number == 1 {
            Console::VsSystem
        } else if console_number == 2 {
            Console::Playchoice10
        } else {
            Console::Extended
        };

        let mirroring = if flag_6 & 0x08 != 0 {
            Mirroring::FourScreen
        } else if flag_6 & 0x01 == 0 {
            Mirroring::Horizontal
        } else {
            Mirroring::Vertical
        };

        let prg_rom_banks = data[4];
        let (prg_rom_size, prg_ram_size, prg_nvram_size, chr_rom_size, chr_ram_size,
        chr_nvram_size): (u32, u32, u32, u32, u32, u32) = match nes_version {
            INesVersion::One => {
                let prg_rom = (prg_rom_banks as u32) * 16 * 1024;
                let chr_rom = (data[5] as u32) * 8 * 1024;
                let prg_ram: u32 = if (flag_6 & 0x02) != 0 { 8 * 1024 } else { 0 };
                (prg_rom, prg_ram, 0u32, chr_rom, 0u32, 0u32)
            },
            INesVersion::Two => {
                proof {
                    let b9: u8 = data@[9];
                    let b10: u8 = data@[10];
                    let b11: u8 = data@[11];
                    assert(((b9 >> 4u8) & 0xFu8) <= 15u8 && (b9 & 0xFu8) <= 15u8 && (b10 & 0xFu8)
                        <= 15u8 && ((b10 >> 4u8) & 0xFu8) <= 15u8 && (b11 & 0xFu8) <= 15u8 && ((b11
                        >> 4u8) & 0xFu8) <= 15u8) by (bit_vector);
                }
                let prg_rom: u32 = if data[4] != 0 {
                    let shift: u32 = ((data[9] >> 4u8) & 0xFu8) as u32;
                    let unit: u32 = 1u32 << shift;
                    proof {
                        assert(unit <= 0x8000u32) by (bit_vector)
                            requires
                                shift <= 15u32 && unit == 1u32 << shift,
                        ;
                        assert((data@[4] as int) * (unit as int) <= 255 * 0x8000)
                            by (nonlinear_arith)
                            requires
                                (data@[4] as int) <= 255 && (unit as int) <= 0x8000,
                        ;
                    }
                    (data[4] as u32) * unit
                } else {
                    0
                };
                let chr_rom: u32 = if data[5] != 0 {
                    let shift: u32 = (data[9] & 0xFu8) as u32;
                    let unit: u32 = 1u32 << shift;
                    proof {
                        assert(unit <= 0x8000u32) by (bit_vector)
                            requires
                                shift <= 15u32 && unit == 1u32 << shift,
                        ;
                        assert((data@[5] as int) * (unit as int) <= 255 * 0x8000)
                            by (nonlinear_arith)
                            requires
                                (data@[5] as int) <= 255 && (unit as int) <= 0x8000,
                        ;
                    }
                    (data[5] as u32) * unit
                } else {
                    0
                };
                let prg_ram: u32 = if (data[10] & 0xFu8) != 0 {
                    1u32 << (((data[10] & 0xFu8) as u32) + 6)
                } else {
                    0
                };
                let prg_nvram: u32 = if (data[10] >> 4u8) != 0 {
                    1u32 << ((((data[10] >> 4u8) & 0xFu8) as u32) + 6)
                } else {
                    0
                };
                let chr_ram: u32 = if (data[11] & 0xFu8) != 0 {
                    1u32 << (((data[11] & 0xFu8) as u32) + 6)
                } else {
                    0
                };
                let chr_nvram: u32 = if (data[11] >> 4u8) != 0 {
                    1u32 << ((((data[11] >> 4u8) & 0xFu8) as u32) + 6)
                } else {
                    0
                };
                (prg_rom, prg_ram, prg_nvram, chr_rom, chr_ram, chr_nvram)
            },
            INesVersion::Unknown => (0u32, 0u32, 0u32, 0u32, 0u32, 0u32),
        };

        let tv = match nes_version {
            INesVersion::One => if data[9] & 0x01 != 0 {
                TvSystem::PAL
            } else {
                TvSystem::NTSC
            },
            INesVersion::Two => {
                let t = data[12] & 0x03;
                if t == 0 {
                    TvSystem::NTSC
                } else if t == 1 {
                    TvSystem::PAL
                } else if t == 2 {
                    TvSystem::DualCompatible
                } else {
                    TvSystem::Dendy
                }
            },
            INesVersion::Unknown => TvSystem::DualCompatible,
        };

        RomHeader {
            nes_version,
            prg_rom_banks,
            mapper_number,
            submapper,
            battery,
            trainer,
            console,
            mirroring,
            prg_rom_size,
            prg_ram_size,
            prg_nvram_size,
            chr_rom_size,
            chr_ram_size,
            chr_nvram_size,
            tv,
        }
    }
}

pub struct Rom {
    pub header: RomHeader,
    pub mapper: Mapper,
}

impl Rom {
    /// A cartridge slot with nothing in it: an all-zero header and an NROM
    /// board with empty backing stores, whose every read returns 0.
    pub fn blank() -> (r: Rom)
        ensures
            r.header.mapper_number == 0u16,
            r.header.nes_version == INesVersion::Unknown,
            r.header.mirroring == Mirroring::Horizontal,
            r.mapper.wf(),
            forall|addr: u16| r.mapper.spec_read(addr) == 0u8,
    {
        let zeros = vec_of_zeros(HEADER_SIZE);
        proof {
            assert(0u8 & 0x08u8 == 0u8 && 0u8 & 0x01u8 == 0u8 && 0u8 & 0x02u8 == 0u8 && 0u8
                & 0x04u8 == 0u8) by (bit_vector);
        }
        Rom { header: RomHeader::new(zeros), mapper: Mapper::blank() }
    }

    /// Parse the header and hand the body to the selected mapper.
    /// Fails exactly on a missing magic, an unsupported mapper number, or
    /// an image shorter than its declared PRG + CHR contents.
    pub fn new(data: Vec<u8>) -> (r: Result<Rom, RomError>)
        ensures
            match r {
                Ok(rom) => {
                    &&& data@.len() >= HEADER_SIZE
                    &&& spec_has_magic(data@)
                    &&& rom.header.matches(data@)
                    &&& (rom.header.mapper_number == 0u16 || rom.header.mapper_number == 1u16)
                    &&& spec_image_end(rom.header) <= data@.len()
                    &&& rom.mapper.wf()
                    &&& (rom.header.mapper_number == 0u16 ==> rom.mapper is Nrom)
                    &&& (rom.header.mapper_number == 1u16 ==> rom.mapper is Mmc1)
                },
                Err(RomError::BadMagic) => data@.len() < HEADER_SIZE || !spec_has_magic(data@),
                Err(RomError::UnsupportedMapper) => {
                    &&& data@.len() >= HEADER_SIZE
                    &&& spec_has_magic(data@)
                    &&& !(spec_mapper_number(data@) == 0u16 || spec_mapper_number(data@) == 1u16)
                },
                Err(RomError::TruncatedImage) => {
                    &&& data@.len() >= HEADER_SIZE
                    &&& spec_has_magic(data@)
                },
            },
    {
        if data.len() < HEADER_SIZE {
            return Err(RomError::BadMagic);
        }
        if !(data[0] == 0x4E && data[1] == 0x45 && data[2] == 0x53 && data[3] == 0x1A) {
            return Err(RomError::BadMagic);
        }
        let header_bytes = copy_range(&data, 0, HEADER_SIZE);
        let header = RomHeader::new(header_bytes);
        proof {
            assert(forall|i: int|
                0 <= i < HEADER_SIZE ==> #[trigger] (data@.subrange(0, HEADER_SIZE as int)[i])
                    == data@[i]);
        }
        if data.len() > 0xFFFFFFFFusize {
            return Err(RomError::TruncatedImage);
        }
        match MapperFactory::select(&header, data) {
            Ok(mapper) => Ok(Rom { header, mapper }),
            Err(e) => Err(e),
        }
    }
}

/// A vector of `n` zero bytes.
pub fn vec_of_zeros(n: usize) -> (v: Vec<u8>)
    ensures
        v@.len() == n,
        forall|i: int| 0 <= i < n ==> v@[i] == 0u8,
{
    let mut v: Vec<u8> = Vec::new();
    let mut i: usize = 0;
    while i < n
        invariant
            i <= n,
            v@.len() == i,
            forall|j: int| 0 <= j < i ==> v@[j] == 0u8,
        decreases n - i,
    {
        v.push(0);
        i += 1;
    }
    v
}

/// The bytes of `data` from `start` (inclusive) to `end` (exclusive).
pub fn copy_range(data: &Vec<u8>, start: usize, end: usize) -> (v: Vec<u8>)
    requires
        start <= end <= data@.len(),
    ensures
        v@ == data@.subrange(start as int, end as int),
{
    let mut v: Vec<u8> = Vec::new();
    let mut i: usize = start;
    while i < end
        invariant
            start <= i <= end <= data@.len(),
            v@.len() == i - start,
            forall|j: int| 0 <= j < v@.len() ==> v@[j] == data@[start + j],
        decreases end - i,
    {
        v.push(data[i]);
        i += 1;
    }
    proof {
        assert(v@ =~= data@.subrange(start as int, end as int));
    }
    v
}

} // verus!
