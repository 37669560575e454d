//! The CPU-side address space: 2 KiB mirrored RAM, the PPU register
//! window, the controllers, the OAM DMA latch, APU stubs, and the
//! cartridge mapper above 0x4020.

use vstd::prelude::*;
use crate::memory::Memory;
use crate::ppu::{Ppu, spec_inc_vram};
use crate::controller::{Controller, latched_byte};
use crate::mapper::mapper_write_rel;
use crate::rom::vec_of_zeros;

verus! {

pub struct Bus {
    pub ram: Memory,
    pub ppu: Ppu,
    pub cycles: u64,
    pub reset: bool,
    pub dma_transfer: (bool, u8),
    pub controller1: Controller,
    pub controller2: Controller,
}

impl Bus {
    pub open spec fn wf(self) -> bool {
        &&& self.ram.data@.len() == 0x800
        &&& self.ppu.wf()
    }

    pub fn new() -> (b: Bus)
        ensures
            b.wf(),
            b.cycles == 0u64,
            !b.reset,
            b.dma_transfer == (false, 0u8),
            forall|i: int| 0 <= i < 0x800 ==> b.ram.data@[i] == 0u8,
            b.ppu.v == 0u16 && b.ppu.t == 0u16 && !b.ppu.w,
            b.ppu.status == 0u8 && b.ppu.ctrl == 0u8 && b.ppu.mask == 0u8,
            !b.ppu.frame_ready && !b.ppu.trigger_nmi,
            b.ppu.cycle == 0 && b.ppu.scanline == 0,
            !b.controller1.strobe && b.controller1.shift_register == 0u8,
            !b.controller2.strobe && b.controller2.shift_register == 0u8,
    {
        Bus {
            ram: Memory::new(vec_of_zeros(0x800)),
            ppu: Ppu::new(),
            cycles: 0,
            reset: false,
            dma_transfer: (false, 0),
            controller1: Controller::new(),
            controller2: Controller::new(),
        }
    }

    /// For the first 29,658 CPU cycles after reset, writes to the PPU's
    /// ctrl, mask, scroll and address ports are dropped.
    pub fn ignore_ppu_writes(&self) -> (r: bool)
        ensures
            r == (self.reset && self.cycles < 29658u64),
    {
        self.reset && self.cycles < 29658
    }

    /// One CPU-visible read. RAM mirrors every 2 KiB; the PPU register
    /// window mirrors every 8 bytes with the documented $2002/$2004/$2007
    /// side effects; $4016/$4017 shift the controllers; $4014 reads the
    /// open bus; other APU/I-O addresses read 0; 0x4020 and up reads the
    /// mapper.
    pub fn read(&mut self, addr: u16) -> (r: u8)
        requires
            old(self).wf(),
        ensures
            final(self).wf(),
            final(self).cycles == old(self).cycles && final(self).reset == old(self).reset
                && final(self).dma_transfer == old(self).dma_transfer,
            final(self).ram == old(self).ram,
            final(self).ppu.oam@ == old(self).ppu.oam@,
            final(self).ppu.rom == old(self).ppu.rom,
            final(self).ppu.cycle == old(self).ppu.cycle && final(self).ppu.scanline == old(self).ppu.scanline && final(self).ppu.odd_frame == old(self).ppu.odd_frame,
            final(self).ppu.mask == old(self).ppu.mask,
            addr < 0x2000u16 ==> r == old(self).ram.data@[(addr & 0x7FFu16) as int] && *final(self)
                == *old(self),
            0x2000u16 <= addr && addr < 0x4000u16 ==> {
                let m = addr & 0x2007u16;
                &&& m == 0x2002u16 ==> {
                    &&& r == ((old(self).ppu.status & 0xE0u8) | (old(self).ppu.open_bus & 0x1Fu8))
                    &&& final(self).ppu.status == (old(self).ppu.status & 0x7Fu8)
                    &&& !final(self).ppu.w
                    &&& final(self).ppu.open_bus == ((old(self).ppu.status & 0xE0u8) | (old(self).ppu.open_bus & 0x1Fu8))
                    &&& Ppu::eq_core(old(self).ppu, final(self).ppu)
                    &&& final(self).ppu.ctrl == old(self).ppu.ctrl && final(self).ppu.mask == old(self).ppu.mask && final(self).ppu.oamaddr == old(self).ppu.oamaddr && final(self).ppu.vram_buffer == old(self).ppu.vram_buffer
                    &&& final(self).ppu.v == old(self).ppu.v && final(self).ppu.t == old(self).ppu.t && final(self).ppu.x == old(self).ppu.x
                    &&& final(self).ppu.trigger_nmi == old(self).ppu.trigger_nmi
                    &&& final(self).controller1 == old(self).controller1 && final(self).controller2
                        == old(self).controller2
                }
                &&& m == 0x2004u16 ==> r == 0xFFu8 && *final(self) == *old(self)
                &&& m == 0x2007u16 ==> {
                    &&& r == (if (old(self).ppu.v & 0x3FFFu16) >= 0x3F00u16 {
                        old(self).ppu.spec_read(old(self).ppu.v)
                    } else {
                        old(self).ppu.vram_buffer
                    })
                    &&& final(self).ppu.v == spec_inc_vram(old(self).ppu.v, old(self).ppu.ctrl)
                    &&& Ppu::eq_core(old(self).ppu, final(self).ppu)
                    &&& final(self).ppu.status == old(self).ppu.status && final(self).ppu.ctrl
                        == old(self).ppu.ctrl && final(self).ppu.t == old(self).ppu.t && final(self).ppu.w == old(self).ppu.w
                    &&& final(self).ppu.trigger_nmi == old(self).ppu.trigger_nmi
                    &&& final(self).controller1 == old(self).controller1 && final(self).controller2
                        == old(self).controller2
                }
                &&& (m != 0x2002u16 && m != 0x2004u16 && m != 0x2007u16) ==> r == old(self).ppu.open_bus && *final(self) == *old(self)
            },
            addr == 0x4016u16 ==> {
                &&& r == (if (old(self).controller1.shift_register & 0x80u8) != 0u8 {
                    1u8
                } else {
                    0u8
                })
                &&& final(self).controller1.shift_register == (if old(self).controller1.strobe {
                    old(self).controller1.shift_register
                } else {
                    (old(self).controller1.shift_register << 1u8) as u8
                })
                &&& final(self).controller1.strobe == old(self).controller1.strobe && final(self).controller1.buttons == old(self).controller1.buttons
                &&& final(self).controller2 == old(self).controller2
                &&& final(self).ppu == old(self).ppu
            },
            addr == 0x4017u16 ==> {
                &&& r == (if (old(self).controller2.shift_register & 0x80u8) != 0u8 {
                    1u8
                } else {
                    0u8
                })
                &&& final(self).controller1 == old(self).controller1
                &&& final(self).ppu == old(self).ppu
            },
            addr == 0x4014u16 ==> r == old(self).ppu.open_bus && *final(self) == *old(self),
            0x4000u16 <= addr && addr < 0x4020u16 && addr != 0x4014u16 && addr != 0x4016u16
                && addr != 0x4017u16 ==> r == 0u8 && *final(self) == *old(self),
            addr >= 0x4020u16 ==> r == old(self).ppu.rom.mapper.spec_read(addr) && *final(self)
                == *old(self),
    {
        if addr < 0x2000 {
            proof {
                assert((addr & 0x7FFu16) < 0x800u16) by (bit_vector);
            }
            self.ram.read(addr & 0x7FF)
        } else if addr < 0x4000 {
            let m_addr = addr & 0x2007;
            if m_addr == 0x2002 {
                self.ppu.read_status()
            } else if m_addr == 0x2004 {
                self.ppu.read_oam()
            } else if m_addr == 0x2007 {
                self.ppu.read_data()
            } else {
                self.ppu.open_bus
            }
        } else if addr == 0x4016 {
            self.controller1.read()
        } else if addr == 0x4017 {
            self.controller2.read()
        } else if addr == 0x4014 {
            self.ppu.open_bus
        } else if addr < 0x4020 {
            0
        } else {
            self.ppu.rom.mapper.read(addr)
        }
    }

    /// One CPU-visible write, decoded as `read` is; $4014 arms the OAM
    /// DMA latch, $4016 strobes both controllers, and writes to the
    /// ctrl/mask/scroll/address ports are dropped during the post-reset
    /// warm-up window.
    pub fn write(&mut self, addr: u16, data: u8)
        requires
            old(self).wf(),
        ensures
            final(self).wf(),
            final(self).cycles == old(self).cycles && final(self).reset == old(self).reset,
            final(self).dma_transfer == (if addr == 0x4014u16 {
                (true, data)
            } else {
                old(self).dma_transfer
            }),
            addr < 0x2000u16 ==> final(self).ram.data@ == old(self).ram.data@.update(
                (addr & 0x7FFu16) as int,
                data,
            ) && final(self).ppu == old(self).ppu && final(self).controller1 == old(self).controller1 && final(self).controller2 == old(self).controller2,
            addr >= 0x2000u16 ==> final(self).ram == old(self).ram,
            0x2000u16 <= addr && addr < 0x4000u16 ==> {
                let m = addr & 0x2007u16;
                let suppressed = old(self).reset && old(self).cycles < 29658u64;
                &&& final(self).controller1 == old(self).controller1 && final(self).controller2
                    == old(self).controller2
                &&& final(self).ppu.open_bus == data
                &&& (m == 0x2000u16 && !suppressed) ==> final(self).ppu.ctrl == data && final(self).ppu.t == ((old(self).ppu.t & 0xF3FFu16) | (((data & 0x3u8) as u16) << 10u16))
                    && final(self).ppu.trigger_nmi == (old(self).ppu.trigger_nmi || ((old(self).ppu.ctrl & 0x80u8) == 0u8 && (data & 0x80u8) != 0u8 && (old(self).ppu.status
                    & 0x80u8) != 0u8)) && Ppu::eq_core(old(self).ppu, final(self).ppu) && final(self).ppu.status == old(self).ppu.status && final(self).ppu.v == old(self).ppu.v
                    && final(self).ppu.w == old(self).ppu.w && final(self).ppu.mask == old(self).ppu.mask
                &&& (m == 0x2001u16 && !suppressed) ==> final(self).ppu == (Ppu {
                    mask: data,
                    open_bus: data,
                    ..old(self).ppu
                })
                &&& ((m == 0x2000u16 || m == 0x2001u16 || m == 0x2005u16 || m == 0x2006u16)
                    && suppressed) ==> final(self).ppu == (Ppu { open_bus: data, ..old(self).ppu })
                &&& m == 0x2002u16 ==> final(self).ppu == (Ppu { open_bus: data, ..old(self).ppu })
                &&& m == 0x2003u16 ==> final(self).ppu == (Ppu {
                    oamaddr: data,
                    open_bus: data,
                    ..old(self).ppu
                })
                &&& m == 0x2004u16 ==> final(self).ppu.oam@ == Ppu::spec_oam_after_write(
                    old(self).ppu.oam@,
                    old(self).ppu.oamaddr,
                    data,
                ) && final(self).ppu.oamaddr == old(self).ppu.oamaddr.wrapping_add(1) && final(self).ppu.status == old(self).ppu.status && final(self).ppu.v == old(self).ppu.v
                    && final(self).ppu.ctrl == old(self).ppu.ctrl && final(self).ppu.mask == old(self).ppu.mask && Ppu::eq_video_mem(old(self).ppu, final(self).ppu) && Ppu::eq_frame(
                    old(self).ppu,
                    final(self).ppu,
                ) && Ppu::eq_pos(old(self).ppu, final(self).ppu) && final(self).ppu.rom == old(self).ppu.rom
                &&& (m == 0x2005u16 && !suppressed) ==> {
                    &&& !old(self).ppu.w ==> final(self).ppu.x == (data & 0x07u8) && final(self).ppu.t == ((old(self).ppu.t & 0xFFE0u16) | ((data >> 3u8) as u16))
                    &&& old(self).ppu.w ==> final(self).ppu.t == ((old(self).ppu.t & 0x8C1Fu16) | (
                    ((data & 0xF8u8) as u16) << 2u16) | (((data & 0x07u8) as u16) << 12u16))
                    &&& final(self).ppu.w == !old(self).ppu.w
                    &&& final(self).ppu.v == old(self).ppu.v
                    &&& Ppu::eq_core(old(self).ppu, final(self).ppu)
                    &&& final(self).ppu.status == old(self).ppu.status && final(self).ppu.ctrl
                        == old(self).ppu.ctrl && final(self).ppu.mask == old(self).ppu.mask
                }
                &&& (m == 0x2006u16 && !suppressed) ==> {
                    &&& !old(self).ppu.w ==> final(self).ppu.t == ((old(self).ppu.t & 0x00FFu16) | (
                    ((data & 0x3Fu8) as u16) << 8u16)) && final(self).ppu.v == old(self).ppu.v
                    &&& old(self).ppu.w ==> final(self).ppu.t == ((old(self).ppu.t & 0xFF00u16) | (
                    data as u16)) && final(self).ppu.v == final(self).ppu.t
                    &&& final(self).ppu.w == !old(self).ppu.w
                    &&& Ppu::eq_core(old(self).ppu, final(self).ppu)
                    &&& final(self).ppu.status == old(self).ppu.status && final(self).ppu.ctrl
                        == old(self).ppu.ctrl && final(self).ppu.mask == old(self).ppu.mask
                }
                &&& m == 0x2007u16 ==> Ppu::write_mem_effect(
                    old(self).ppu,
                    final(self).ppu,
                    old(self).ppu.v,
                    data,
                ) && final(self).ppu.v == spec_inc_vram(old(self).ppu.v, old(self).ppu.ctrl)
            },
            addr == 0x4016u16 ==> {
                &&& final(self).ppu == old(self).ppu
                &&& final(self).controller1.strobe == ((data & 0x01u8) == 0x01u8)
                &&& final(self).controller1.buttons == old(self).controller1.buttons
                &&& final(self).controller1.shift_register == (if !old(self).controller1.strobe
                    && (data & 0x01u8) == 0x01u8 {
                    latched_byte(old(self).controller1.buttons)
                } else {
                    old(self).controller1.shift_register
                })
                &&& final(self).controller2.strobe == ((data & 0x01u8) == 0x01u8)
            },
            (0x4000u16 <= addr && addr < 0x4020u16 && addr != 0x4016u16) ==> final(self).ppu == old(self).ppu && final(self).controller1 == old(self).controller1 && final(self).controller2
                == old(self).controller2,
            addr >= 0x4020u16 ==> {
                &&& mapper_write_rel(
                    old(self).ppu.rom.mapper,
                    final(self).ppu.rom.mapper,
                    addr,
                    data,
                )
                &&& final(self).ppu == (Ppu { rom: final(self).ppu.rom, ..old(self).ppu })
                &&& final(self).ppu.rom.header == old(self).ppu.rom.header
                &&& final(self).controller1 == old(self).controller1 && final(self).controller2
                    == old(self).controller2
            },
    {
        if addr < 0x2000 {
            proof {
                assert((addr & 0x7FFu16) < 0x800u16) by (bit_vector);
            }
            self.ram.write(addr & 0x7FF, data);
        } else if addr < 0x4000 {
            let m_addr = addr & 0x2007;
            if m_addr == 0x2000 {
                if !self.ignore_ppu_writes() {
                    self.ppu.write_ctrl(data);
                }
            } else if m_addr == 0x2001 {
                if !self.ignore_ppu_writes() {
                    self.ppu.write_mask(data);
                }
            } else if m_addr == 0x2003 {
                self.ppu.write_oamaddr(data);
            } else if m_addr == 0x2004 {
                self.ppu.write_oamdata(data);
            } else if m_addr == 0x2005 {
                if !self.ignore_ppu_writes() {
                    self.ppu.write_scroll(data);
                }
            } else if m_addr == 0x2006 {
                if !self.ignore_ppu_writes() {
                    self.ppu.write_addr(data);
                }
            } else if m_addr == 0x2007 {
                self.ppu.write_data(data);
            }
            self.ppu.open_bus = data;
        } else if addr == 0x4016 {
            self.controller1.write(data);
            self.controller2.write(data);
        } else if addr < 0x4020 {
            if addr == 0x4014 {
                self.dma_transfer = (true, data);
            }
        } else {
            self.ppu.rom.mapper.write(addr, data);
        }
    }
}


/// CPU RAM mirroring: a byte written anywhere below 0x2000 is the one
/// byte read back at that address and at its three 2 KiB mirrors.
/// `Bus::write` stores to index `a & 0x7FF` and `Bus::read` fetches from
/// the same index, so all four addresses observe the written value.
pub proof fn lemma_ram_write_read_mirrors(ram: Seq<u8>, a: u16, v: u8)
    requires
        ram.len() == 0x800,
        a < 0x2000u16,
    ensures
        ({
            let w = ram.update((a & 0x7FFu16) as int, v);
            &&& w[(a & 0x7FFu16) as int] == v
            &&& w[((a ^ 0x800u16) & 0x7FFu16) as int] == v
            &&& w[((a ^ 0x1000u16) & 0x7FFu16) as int] == v
            &&& w[((a ^ 0x1800u16) & 0x7FFu16) as int] == v
            &&& (a ^ 0x800u16) < 0x2000u16
            &&& (a ^ 0x1000u16) < 0x2000u16
            &&& (a ^ 0x1800u16) < 0x2000u16
        }),
{
    assert(((a ^ 0x800u16) & 0x7FFu16) == (a & 0x7FFu16) && ((a ^ 0x1000u16) & 0x7FFu16) == (a
        & 0x7FFu16) && ((a ^ 0x1800u16) & 0x7FFu16) == (a & 0x7FFu16) && (a & 0x7FFu16) < 0x800u16
        && (a < 0x2000u16 ==> (a ^ 0x800u16) < 0x2000u16 && (a ^ 0x1000u16) < 0x2000u16 && (a
        ^ 0x1800u16) < 0x2000u16)) by (bit_vector);
}

/// Two consecutive $2002 reads around a VBlank rise observe the flag
/// set-then-clear: `Ppu::step` at dot 1 of scanline 241 leaves
/// `status | 0x80`, the first `read_status` returns its upper three bits
/// over the open-bus low five with bit 7 set, stores `status & 0x7F`,
/// and so the second read returns a byte with bit 7 clear, whatever the
/// open bus held at either read.
pub proof fn lemma_vblank_set_on_first_clear_on_second(status: u8, bus1: u8, bus2: u8)
    ensures
        ((((status | 0x80u8) & 0xE0u8) | (bus1 & 0x1Fu8)) & 0x80u8) != 0u8,
        (((((status | 0x80u8) & 0x7Fu8) & 0xE0u8) | (bus2 & 0x1Fu8)) & 0x80u8) == 0u8,
{
    assert(((((status | 0x80u8) & 0xE0u8) | (bus1 & 0x1Fu8)) & 0x80u8) != 0u8 && (((((status
        | 0x80u8) & 0x7Fu8) & 0xE0u8) | (bus2 & 0x1Fu8)) & 0x80u8) == 0u8) by (bit_vector);
}

} // verus!
