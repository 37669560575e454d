//! The 6502-family CPU: register file, status flags, stack, interrupt
//! sequencing, OAM DMA stalls, and the per-instruction stepping loop
//! that keeps the PPU three dots ahead per CPU cycle.

use vstd::prelude::*;
use crate::bus::Bus;
use crate::ppu::Ppu;
use crate::SystemVersion;
use crate::instructions::execute;

verus! {

#[derive(Debug, Clone, Copy, PartialEq, Eq, Structural)]
pub enum StatusFlag {
    Carry,
    Zero,
    InterruptDisable,
    Decimal,
    Break,
    BreakIrq,
    Overflow,
    Negative,
}

impl StatusFlag {
    pub open spec fn spec_mask(self) -> u8 {
        match self {
            StatusFlag::Carry => 0x01u8,
            StatusFlag::Zero => 0x02u8,
            StatusFlag::InterruptDisable => 0x04u8,
            StatusFlag::Decimal => 0x08u8,
            StatusFlag::Break => 0x10u8,
            StatusFlag::BreakIrq => 0x20u8,
            StatusFlag::Overflow => 0x40u8,
            StatusFlag::Negative => 0x80u8,
        }
    }

    pub fn mask(self) -> (m: u8)
        ensures
            m == self.spec_mask(),
    {
        match self {
            StatusFlag::Carry => 0x01,
            StatusFlag::Zero => 0x02,
            StatusFlag::InterruptDisable => 0x04,
            StatusFlag::Decimal => 0x08,
            StatusFlag::Break => 0x10,
            StatusFlag::BreakIrq => 0x20,
            StatusFlag::Overflow => 0x40,
            StatusFlag::Negative => 0x80,
        }
    }
}

pub enum Interrupt {
    NMI,
    RESET,
    IRQ,
    BRK,
}

/// The status byte with one flag forced on or off.
pub open spec fn spec_set_flag(p: u8, mask: u8, value: bool) -> u8 {
    if value {
        p | mask
    } else {
        p & (!mask)
    }
}

/// The status byte after loading a value: Z tracks zero, N tracks bit 7.
pub open spec fn spec_zn(p: u8, data: u8) -> u8 {
    spec_set_flag(spec_set_flag(p, 0x02u8, data == 0u8), 0x80u8, (data & 0x80u8) != 0u8)
}

/// A 16-bit word assembled from two bytes splits back into them.
pub proof fn lemma_word_parts(hi: u16, lo: u16)
    by (bit_vector)
    requires
        hi <= 0xFFu16,
        lo <= 0xFFu16,
    ensures
        (((hi << 8u16) | lo) & 0xFFu16) == lo,
        (((hi << 8u16) | lo) & 0xFF00u16) == ((hi << 8u16) as u16),
        (lo & 0xFFu16) == lo,
{
}

pub struct Cpu {
    pub a: u8,
    pub x: u8,
    pub y: u8,
    pub pc: u16,
    pub sp: u8,
    pub p: u8,
    pub version: SystemVersion,
    pub update_interrupt_disable: (bool, u8),
    pub bus: Bus,
}

impl Cpu {
    pub open spec fn wf(self) -> bool {
        self.bus.wf()
    }

    /// Registers as the whole of the CPU except the bus: handy for
    /// stating that an operation touches memory but no register.
    pub open spec fn regs_eq(a: Cpu, b: Cpu) -> bool {
        &&& a.a == b.a
        &&& a.x == b.x
        &&& a.y == b.y
        &&& a.pc == b.pc
        &&& a.sp == b.sp
        &&& a.p == b.p
        &&& a.update_interrupt_disable == b.update_interrupt_disable
    }

    pub fn new(version: SystemVersion) -> (c: Cpu)
        ensures
            c.wf(),
            c.a == 0u8 && c.x == 0u8 && c.y == 0u8,
            c.pc == 0xFFFCu16,
            c.sp == 0u8,
            c.p == 0x24u8,
            c.update_interrupt_disable == (false, 0u8),
            c.bus.cycles == 0u64 && !c.bus.reset && c.bus.dma_transfer == (false, 0u8),
            !c.bus.ppu.frame_ready && !c.bus.ppu.trigger_nmi,
            c.bus.ppu.v == 0u16 && c.bus.ppu.t == 0u16 && !c.bus.ppu.w,
            c.bus.ppu.status == 0u8 && c.bus.ppu.ctrl == 0u8 && c.bus.ppu.mask == 0u8,
            c.bus.ppu.cycle == 0 && c.bus.ppu.scanline == 0,
            forall|i: int| 0 <= i < 0x800 ==> c.bus.ram.data@[i] == 0u8,
    {
        Cpu {
            a: 0,
            x: 0,
            y: 0,
            pc: 0xFFFC,
            sp: 0,
            p: 0x24,
            version,
            update_interrupt_disable: (false, 0),
            bus: Bus::new(),
        }
    }

    pub fn read_byte(&mut self, addr: u16) -> (r: u8)
        requires
            old(self).wf(),
        ensures
            final(self).wf(),
            Cpu::regs_eq(*old(self), *final(self)),
            final(self).bus.ram == old(self).bus.ram,
            final(self).bus.ppu.oam@ == old(self).bus.ppu.oam@,
            final(self).bus.ppu.rom == old(self).bus.ppu.rom,
            final(self).bus.ppu.cycle == old(self).bus.ppu.cycle && final(self).bus.ppu.scanline
                == old(self).bus.ppu.scanline && final(self).bus.ppu.odd_frame == old(self).bus.ppu.odd_frame,
            final(self).bus.ppu.mask == old(self).bus.ppu.mask,
            final(self).bus.cycles == old(self).bus.cycles && final(self).bus.dma_transfer == old(self).bus.dma_transfer && final(self).bus.reset == old(self).bus.reset,
            addr < 0x2000u16 ==> r == old(self).bus.ram.data@[(addr & 0x7FFu16) as int] && final(self).bus == old(self).bus,
            addr >= 0x4020u16 ==> r == old(self).bus.ppu.rom.mapper.spec_read(addr) && final(self).bus == old(self).bus,
    {
        self.bus.read(addr)
    }

    pub fn read_word(&mut self, addr: u16) -> (r: u16)
        requires
            old(self).wf(),
        ensures
            final(self).wf(),
            Cpu::regs_eq(*old(self), *final(self)),
            final(self).bus.ram == old(self).bus.ram,
            final(self).bus.ppu.oam@ == old(self).bus.ppu.oam@,
            final(self).bus.ppu.rom == old(self).bus.ppu.rom,
            final(self).bus.ppu.cycle == old(self).bus.ppu.cycle && final(self).bus.ppu.scanline
                == old(self).bus.ppu.scanline && final(self).bus.ppu.odd_frame == old(self).bus.ppu.odd_frame,
            final(self).bus.ppu.mask == old(self).bus.ppu.mask,
            final(self).bus.cycles == old(self).bus.cycles && final(self).bus.dma_transfer == old(self).bus.dma_transfer && final(self).bus.reset == old(self).bus.reset,
            addr >= 0x4020u16 && addr < 0xFFFFu16 ==> r == (((old(self).bus.ppu.rom.mapper.spec_read((addr + 1u16) as u16) as u16) << 8u16) | (old(self).bus.ppu.rom.mapper.spec_read(addr) as u16)) && final(self).bus == old(self).bus,
    {
        let lo = self.read_byte(addr) as u16;
        let hi = self.read_byte(addr.wrapping_add(1)) as u16;
        (hi << 8u16) | lo
    }

    pub fn set_flag(&mut self, flag: StatusFlag, value: bool)
        ensures
            final(self).p == spec_set_flag(old(self).p, flag.spec_mask(), value),
            *final(self) == (Cpu { p: final(self).p, ..*old(self) }),
    {
        let m = flag.mask();
        if value {
            self.p = self.p | m;
        } else {
            self.p = self.p & !m;
        }
    }

    pub fn set_zero_negative_flag(&mut self, data: u8)
        ensures
            final(self).p == spec_zn(old(self).p, data),
            *final(self) == (Cpu { p: final(self).p, ..*old(self) }),
    {
        self.set_flag(StatusFlag::Zero, data == 0);
        self.set_flag(StatusFlag::Negative, (data & 0x80) != 0);
    }

    pub fn get_carry_bit(&self) -> (c: u8)
        ensures
            c == (self.p & 0x1u8),
    {
        self.p & 0x1
    }

    /// One extra cycle when two addresses fall on different 256-byte
    /// pages.
    pub fn page_boundary_cycle(&self, addr1: u16, addr2: u16) -> (c: u8)
        ensures
            c == (if (addr1 & 0xFF00u16) != (addr2 & 0xFF00u16) {
                1u8
            } else {
                0u8
            }),
    {
        if (addr1 & 0xFF00) != (addr2 & 0xFF00) {
            1
        } else {
            0
        }
    }

    pub fn inc_pc(&mut self)
        ensures
            *final(self) == (Cpu { pc: old(self).pc.wrapping_add(1), ..*old(self) }),
    {
        self.pc = self.pc.wrapping_add(1);
    }

    /// Pop: the stack pointer rises first, then the byte at 0x0100|SP is
    /// read.
    pub fn stack_pop(&mut self) -> (r: u8)
        requires
            old(self).wf(),
        ensures
            final(self).wf(),
            final(self).sp == old(self).sp.wrapping_add(1),
            r == old(self).bus.ram.data@[(0x0100u16 | (old(self).sp.wrapping_add(1) as u16)) as int],
            *final(self) == (Cpu { sp: final(self).sp, ..*old(self) }),
    {
        self.sp = self.sp.wrapping_add(1);
        let addr = 0x0100 | (self.sp as u16);
        proof {
            let sp = self.sp;
            assert((0x0100u16 | (sp as u16)) < 0x2000u16 && ((0x0100u16 | (sp as u16))
                & 0x7FFu16) == (0x0100u16 | (sp as u16))) by (bit_vector);
        }
        self.bus.read(addr)
    }

    /// Push: the byte lands at 0x0100|SP, then the stack pointer drops.
    pub fn stack_push(&mut self, value: u8)
        requires
            old(self).wf(),
        ensures
            final(self).wf(),
            final(self).sp == old(self).sp.wrapping_sub(1),
            final(self).bus.ram.data@ == old(self).bus.ram.data@.update(
                (0x0100u16 | (old(self).sp as u16)) as int,
                value,
            ),
            final(self).bus == (Bus { ram: final(self).bus.ram, ..old(self).bus }),
            final(self).a == old(self).a && final(self).x == old(self).x && final(self).y == old(self).y && final(self).pc == old(self).pc && final(self).p == old(self).p,
            final(self).update_interrupt_disable == old(self).update_interrupt_disable,
    {
        let address = 0x0100 | (self.sp as u16);
        proof {
            let sp = self.sp;
            assert((0x0100u16 | (sp as u16)) < 0x2000u16 && ((0x0100u16 | (sp as u16))
                & 0x7FFu16) == (0x0100u16 | (sp as u16))) by (bit_vector);
        }
        self.bus.write(address, value);
        self.sp = self.sp.wrapping_sub(1);
    }

    /// RESET: load PC from $FFFC, drop SP by 3, set interrupt-disable,
    /// start the warm-up window at 7 bus cycles and run the PPU 21 dots.
    pub fn reset(&mut self)
        requires
            old(self).wf(),
        ensures
            final(self).wf(),
            final(self).bus.reset,
            final(self).bus.cycles == 7u64,
            final(self).sp == old(self).sp.wrapping_sub(3),
            final(self).p == (old(self).p | 0x04u8),
            (final(self).p & 0x04u8) != 0u8,
            final(self).pc == (((old(self).bus.ppu.rom.mapper.spec_read(0xFFFDu16) as u16)
                << 8u16) | (old(self).bus.ppu.rom.mapper.spec_read(0xFFFCu16) as u16)),
            final(self).bus.ram == old(self).bus.ram,
            ({
                let p = crate::ppu::spec_pos_after(
                    old(self).bus.ppu.scanline as int,
                    old(self).bus.ppu.cycle as int,
                    old(self).bus.ppu.odd_frame,
                    old(self).bus.ppu.spec_rendering_enabled(),
                    21,
                );
                final(self).bus.ppu.scanline == p.0 && final(self).bus.ppu.cycle == p.1 && final(self).bus.ppu.odd_frame == p.2
            }),
            final(self).a == old(self).a && final(self).x == old(self).x && final(self).y == old(self).y,
    {
        self.bus.reset = true;
        let vector = self.read_word(0xFFFC);
        self.pc = vector;
        self.sp = self.sp.wrapping_sub(3);
        self.bus.cycles = 7;
        let ghost p_before = self.p;
        self.set_flag(StatusFlag::InterruptDisable, true);
        proof {
            let p0 = self.p;
            assert(p0 & 0x04u8 != 0u8) by (bit_vector)
                requires
                    p0 == p_before | 0x04u8,
            ;
        }
        let ghost sc0 = self.bus.ppu.scanline as int;
        let ghost c0 = self.bus.ppu.cycle as int;
        let ghost odd0 = self.bus.ppu.odd_frame;
        let ghost rend = self.bus.ppu.spec_rendering_enabled();
        let mut i: usize = 0;
        while i < 21
            invariant
                self.wf(),
                self.bus.reset,
                self.bus.cycles == 7u64,
                self.pc == vector,
                self.bus.ram == old(self).bus.ram,
                self.sp == old(self).sp.wrapping_sub(3),
                self.p == (old(self).p | 0x04u8),
                (self.p & 0x04u8) != 0u8,
                self.a == old(self).a && self.x == old(self).x && self.y == old(self).y,
                i <= 21,
                self.bus.ppu.mask == old(self).bus.ppu.mask,
                rend == self.bus.ppu.spec_rendering_enabled(),
                (self.bus.ppu.scanline as int, self.bus.ppu.cycle as int, self.bus.ppu.odd_frame)
                    == crate::ppu::spec_pos_after(sc0, c0, odd0, rend, i as nat),
            decreases 21 - i,
        {
            self.bus.ppu.step();
            proof {
                assert(crate::ppu::spec_pos_after(sc0, c0, odd0, rend, (i + 1) as nat)
                    == crate::ppu::spec_pos_step(
                    crate::ppu::spec_pos_after(sc0, c0, odd0, rend, i as nat).0,
                    crate::ppu::spec_pos_after(sc0, c0, odd0, rend, i as nat).1,
                    crate::ppu::spec_pos_after(sc0, c0, odd0, rend, i as nat).2,
                    rend,
                ));
            }
            i += 1;
        }
    }

    /// Interrupt entry. NMI and BRK push PC and the status byte (B clear
    /// for NMI, set for BRK), set interrupt-disable, and load the handler
    /// vector; RESET runs the reset sequence; IRQ is a stub.
    pub fn interrupt(&mut self, interrupt: Interrupt)
        requires
            old(self).wf(),
        ensures
            final(self).wf(),
            !(interrupt is RESET) ==> final(self).bus.cycles == old(self).bus.cycles,
            interrupt is RESET ==> final(self).bus.reset && final(self).bus.cycles == 7u64
                && final(self).bus.ram == old(self).bus.ram && final(self).sp == old(
                self,
            ).sp.wrapping_sub(3) && (final(self).p & 0x04u8) != 0u8 && final(self).pc == (((old(
                self,
            ).bus.ppu.rom.mapper.spec_read(0xFFFDu16) as u16) << 8u16) | (old(
                self,
            ).bus.ppu.rom.mapper.spec_read(0xFFFCu16) as u16)),
            interrupt is RESET ==> ({
                let p = crate::ppu::spec_pos_after(
                    old(self).bus.ppu.scanline as int,
                    old(self).bus.ppu.cycle as int,
                    old(self).bus.ppu.odd_frame,
                    old(self).bus.ppu.spec_rendering_enabled(),
                    21,
                );
                final(self).bus.ppu.scanline == p.0 && final(self).bus.ppu.cycle == p.1
                    && final(self).bus.ppu.odd_frame == p.2
            }),
            interrupt is IRQ ==> *final(self) == *old(self),
            interrupt is NMI ==> {
                let pushed = spec_set_flag(spec_set_flag(old(self).p, 0x10u8, false), 0x20u8, true);
                &&& final(self).sp == old(self).sp.wrapping_sub(3)
                &&& final(self).bus.ram.data@ == old(self).bus.ram.data@.update(
                    (0x0100u16 | (old(self).sp as u16)) as int,
                    (old(self).pc >> 8u16) as u8,
                ).update(
                    (0x0100u16 | (old(self).sp.wrapping_sub(1) as u16)) as int,
                    old(self).pc as u8,
                ).update((0x0100u16 | (old(self).sp.wrapping_sub(2) as u16)) as int, pushed)
                &&& final(self).p == spec_set_flag(pushed, 0x04u8, true)
                &&& final(self).pc == (((old(self).bus.ppu.rom.mapper.spec_read(
                    0xFFFBu16,
                ) as u16) << 8u16) | (old(self).bus.ppu.rom.mapper.spec_read(0xFFFAu16) as u16))
                &&& final(self).a == old(self).a && final(self).x == old(self).x && final(self).y
                    == old(self).y
                &&& final(self).update_interrupt_disable == old(self).update_interrupt_disable
                &&& final(self).bus == (Bus { ram: final(self).bus.ram, ..old(self).bus })
            },
            interrupt is BRK ==> {
                let ret = old(self).pc.wrapping_add(1);
                let pushed = spec_set_flag(spec_set_flag(old(self).p, 0x10u8, true), 0x20u8, true);
                &&& final(self).sp == old(self).sp.wrapping_sub(3)
                &&& final(self).bus.ram.data@ == old(self).bus.ram.data@.update(
                    (0x0100u16 | (old(self).sp as u16)) as int,
                    (ret >> 8u16) as u8,
                ).update(
                    (0x0100u16 | (old(self).sp.wrapping_sub(1) as u16)) as int,
                    ret as u8,
                ).update((0x0100u16 | (old(self).sp.wrapping_sub(2) as u16)) as int, pushed)
                &&& final(self).p == spec_set_flag(
                    spec_set_flag(pushed, 0x10u8, false),
                    0x04u8,
                    true,
                )
                &&& final(self).pc == (((old(self).bus.ppu.rom.mapper.spec_read(
                    0xFFFFu16,
                ) as u16) << 8u16) | (old(self).bus.ppu.rom.mapper.spec_read(0xFFFEu16) as u16))
                &&& final(self).a == old(self).a && final(self).x == old(self).x && final(self).y
                    == old(self).y
                &&& final(self).update_interrupt_disable == old(self).update_interrupt_disable
                &&& final(self).bus == (Bus { ram: final(self).bus.ram, ..old(self).bus })
            },
    {
        match interrupt {
            Interrupt::BRK => {
                self.pc = self.pc.wrapping_add(1);
                let hi = (self.pc >> 8u16) as u8;
                let lo = self.pc as u8;
                self.stack_push(hi);
                self.stack_push(lo);
                self.set_flag(StatusFlag::Break, true);
                self.set_flag(StatusFlag::BreakIrq, true);
                let p = self.p;
                self.stack_push(p);
                self.set_flag(StatusFlag::Break, false);
                self.set_flag(StatusFlag::InterruptDisable, true);
                let vector = self.read_word(0xFFFE);
                self.pc = vector;
            },
            Interrupt::IRQ => {},
            Interrupt::NMI => {
                let hi = (self.pc >> 8u16) as u8;
                let lo = self.pc as u8;
                self.stack_push(hi);
                self.stack_push(lo);
                self.set_flag(StatusFlag::Break, false);
                self.set_flag(StatusFlag::BreakIrq, true);
                let p = self.p;
                self.stack_push(p);
                self.set_flag(StatusFlag::InterruptDisable, true);
                let vector = self.read_word(0xFFFA);
                self.pc = vector;
            },
            Interrupt::RESET => {
                self.reset();
            },
        }
    }

    /// The byte of the 256-byte OAM table at index `i`: field `i % 4` of
    /// sprite `i / 4`, in the order y, tile, attr, x.
    pub open spec fn spec_oam_byte(oam: Seq<crate::ppu::Sprite>, i: int) -> u8 {
        let s = oam[i / 4];
        if i % 4 == 0 {
            s.y
        } else if i % 4 == 1 {
            s.tile
        } else if i % 4 == 2 {
            s.attr
        } else {
            s.x
        }
    }

    /// One OAM byte write only changes the byte the OAM address names.
    proof fn lemma_oam_write_byte(oam: Seq<crate::ppu::Sprite>, ad: u8, data: u8, i: int)
        requires
            oam.len() == 64,
            0 <= i < 256,
        ensures
            Cpu::spec_oam_byte(Ppu::spec_oam_after_write(oam, ad, data), i) == (if i == ad as int {
                data
            } else {
                Cpu::spec_oam_byte(oam, i)
            }),
    {
        let after = Ppu::spec_oam_after_write(oam, ad, data);
        if i / 4 == ad as int / 4 {
            if i % 4 == ad as int % 4 {
                assert(i == 4 * (i / 4) + i % 4);
                assert(ad as int == 4 * (ad as int / 4) + ad as int % 4);
            }
        }
    }

    /// When the DMA latch is armed, copy 256 bytes from the named page
    /// into OAM in order, charging 514 cycles.
    pub fn run_dma(&mut self)
        requires
            old(self).wf(),
            old(self).bus.dma_transfer.0,
            old(self).bus.cycles <= 0xFFFF_FFFF_FFFF_0000u64,
        ensures
            final(self).wf(),
            final(self).bus.dma_transfer == (false, 0u8),
            final(self).bus.cycles == old(self).bus.cycles + 514u64,
            final(self).a == old(self).a && final(self).x == old(self).x && final(self).y == old(self).y && final(self).pc == old(self).pc && final(self).sp == old(self).sp && final(self).p == old(self).p,
            final(self).update_interrupt_disable == old(self).update_interrupt_disable,
            final(self).bus.ram == old(self).bus.ram,
            final(self).bus.reset == old(self).bus.reset,
            final(self).bus.ppu.rom == old(self).bus.ppu.rom,
            final(self).bus.ppu.cycle == old(self).bus.ppu.cycle && final(self).bus.ppu.scanline
                == old(self).bus.ppu.scanline && final(self).bus.ppu.odd_frame == old(self).bus.ppu.odd_frame,
            final(self).bus.ppu.mask == old(self).bus.ppu.mask,
            old(self).bus.dma_transfer.1 < 0x20u8 ==> {
                &&& forall|j: u16|
                    j < 256 ==> #[trigger] Cpu::spec_oam_byte(
                        final(self).bus.ppu.oam@,
                        ((old(self).bus.ppu.oamaddr + j) % 256) as int,
                    ) == old(self).bus.ram.data@[((((old(self).bus.dma_transfer.1 as u16) * 0x100u16
                        + j) as u16) & 0x7FFu16) as int]
                &&& final(self).bus.ppu.oamaddr == old(self).bus.ppu.oamaddr
                &&& Ppu::eq_video_mem(old(self).bus.ppu, final(self).bus.ppu)
                &&& final(self).bus.ppu.rom == old(self).bus.ppu.rom
                &&& final(self).bus.ppu.status == old(self).bus.ppu.status
                &&& final(self).bus.ppu.v == old(self).bus.ppu.v
                &&& Ppu::eq_pos(old(self).bus.ppu, final(self).bus.ppu)
                &&& Ppu::eq_frame(old(self).bus.ppu, final(self).bus.ppu)
                &&& final(self).bus.ppu.trigger_nmi == old(self).bus.ppu.trigger_nmi
            },
    {
        let bank = self.bus.dma_transfer.1;
        let ghost o0 = self.bus.ppu.oamaddr;
        let mut i: u16 = 0;
        while i < 256
            invariant
                old(self).wf(),
                self.wf(),
                i <= 256,
                bank == old(self).bus.dma_transfer.1,
                Cpu::regs_eq(*old(self), *self),
                o0 == old(self).bus.ppu.oamaddr,
                self.bus.ram == old(self).bus.ram,
                self.bus.ppu.rom == old(self).bus.ppu.rom,
                self.bus.ppu.cycle == old(self).bus.ppu.cycle && self.bus.ppu.scanline == old(self).bus.ppu.scanline && self.bus.ppu.odd_frame == old(self).bus.ppu.odd_frame,
                self.bus.ppu.mask == old(self).bus.ppu.mask,
                self.bus.cycles == old(self).bus.cycles && self.bus.dma_transfer == old(self).bus.dma_transfer && self.bus.reset == old(self).bus.reset,
                bank < 0x20u8 ==> {
                    &&& self.bus.ppu.oamaddr == ((o0 + i) % 256) as u8
                    &&& forall|j: u16|
                        j < i ==> #[trigger] Cpu::spec_oam_byte(
                            self.bus.ppu.oam@,
                            ((o0 + j) % 256) as int,
                        ) == old(self).bus.ram.data@[((((bank as u16) * 0x100u16 + j) as u16)
                            & 0x7FFu16) as int]
                    &&& Ppu::eq_video_mem(old(self).bus.ppu, self.bus.ppu)
                    &&& self.bus.ppu.rom == old(self).bus.ppu.rom
                    &&& self.bus.ppu.status == old(self).bus.ppu.status
                    &&& self.bus.ppu.v == old(self).bus.ppu.v
                    &&& Ppu::eq_pos(old(self).bus.ppu, self.bus.ppu)
                    &&& Ppu::eq_frame(old(self).bus.ppu, self.bus.ppu)
                    &&& self.bus.ppu.trigger_nmi == old(self).bus.ppu.trigger_nmi
                },
            decreases 256 - i,
        {
            let addr = (bank as u16) * 0x100 + i;
            let data = self.read_byte(addr);
            proof {
                if bank < 0x20 {
                    assert((((bank as u16) * 0x100u16 + i) as u16) < 0x2000u16) by (bit_vector)
                        requires
                            bank < 0x20u8 && i < 256u16,
                    ;
                }
            }
            let ghost oam_before = self.bus.ppu.oam@;
            let ghost ad = self.bus.ppu.oamaddr;
            self.bus.ppu.write_oamdata(data);
            proof {
                assert(((o0 + i) % 256 + 1) % 256 == (o0 + i + 1) % 256) by (nonlinear_arith)
                    requires
                        0 <= o0 + i,
                ;
                assert(0 <= (o0 + i) % 256 < 256) by (nonlinear_arith)
                    requires
                        0 <= o0 + i,
                ;
                assert(ad.wrapping_add(1u8) as int == (ad as int + 1) % 256) by {
                    if ad == 255 {
                        assert((256int) % 256 == 0);
                    } else {
                        assert((ad as int + 1) % 256 == ad as int + 1);
                    }
                };
                assert forall|j: u16| j < i implies #[trigger] ((o0 + j) % 256) != ((o0 + i)
                    % 256) by {
                    assert((o0 + i) - (o0 + j) < 256);
                    assert(((o0 + j) % 256) == ((o0 + i) % 256) ==> false) by (nonlinear_arith)
                        requires
                            0 <= o0 + j < o0 + i && (o0 + i) - (o0 + j) < 256,
                    ;
                }
                if bank < 0x20 {
                    assert forall|j: u16| j < i + 1 implies #[trigger] Cpu::spec_oam_byte(
                        self.bus.ppu.oam@,
                        ((o0 + j) % 256) as int,
                    ) == old(self).bus.ram.data@[((((bank as u16) * 0x100u16 + j) as u16)
                        & 0x7FFu16) as int] by {
                        Cpu::lemma_oam_write_byte(oam_before, ad, data, ((o0 + j) % 256) as int);
                    }
                }
            }
            i += 1;
        }
        self.bus.cycles = self.bus.cycles + 514;
        self.bus.dma_transfer = (false, 0);
    }


    /// Advance PC past the next operand byte and return it.
    pub fn fetch_operand(&mut self) -> (r: u8)
        requires
            old(self).wf(),
        ensures
            final(self).wf(),
            final(self).pc == old(self).pc.wrapping_add(1),
            final(self).a == old(self).a && final(self).x == old(self).x && final(self).y == old(self).y && final(self).sp == old(self).sp && final(self).p == old(self).p,
            final(self).update_interrupt_disable == old(self).update_interrupt_disable,
            final(self).bus.ram == old(self).bus.ram,
            final(self).bus.ppu.oam@ == old(self).bus.ppu.oam@,
            final(self).bus.ppu.rom == old(self).bus.ppu.rom,
            final(self).bus.ppu.cycle == old(self).bus.ppu.cycle && final(self).bus.ppu.scanline
                == old(self).bus.ppu.scanline && final(self).bus.ppu.odd_frame == old(self).bus.ppu.odd_frame,
            final(self).bus.ppu.mask == old(self).bus.ppu.mask,
            final(self).bus.cycles == old(self).bus.cycles && final(self).bus.reset == old(self).bus.reset && final(self).bus.dma_transfer == old(self).bus.dma_transfer,
    {
        let addr = self.pc;
        self.inc_pc();
        self.bus.read(addr)
    }

    /// Resolve an instruction's effective address per addressing mode,
    /// consuming its operand bytes and reporting the exact page-cross
    /// penalty the mode incurs on reads.
    #[verifier::rlimit(100)]
    #[verifier::spinoff_prover]
    pub fn fetch_operand_addr(&mut self, mode: crate::instructions::AddressingMode) -> (r: (
        u16,
        u8,
    ))
        requires
            old(self).wf(),
        ensures
            final(self).wf(),
            final(self).a == old(self).a && final(self).x == old(self).x && final(self).y == old(self).y && final(self).sp == old(self).sp && final(self).p == old(self).p,
            final(self).update_interrupt_disable == old(self).update_interrupt_disable,
            final(self).bus.ram == old(self).bus.ram,
            final(self).bus.ppu.oam@ == old(self).bus.ppu.oam@,
            final(self).bus.ppu.rom == old(self).bus.ppu.rom,
            final(self).bus.ppu.cycle == old(self).bus.ppu.cycle && final(self).bus.ppu.scanline
                == old(self).bus.ppu.scanline && final(self).bus.ppu.odd_frame == old(self).bus.ppu.odd_frame,
            final(self).bus.ppu.mask == old(self).bus.ppu.mask,
            final(self).bus.cycles == old(self).bus.cycles && final(self).bus.reset == old(self).bus.reset && final(self).bus.dma_transfer == old(self).bus.dma_transfer,
            final(self).pc == old(self).pc.wrapping_add(
                crate::instructions::spec_operand_len(mode) as u16,
            ),
            mode == crate::instructions::AddressingMode::AbsoluteX ==> r.1 == (if (r.0
                & 0xFF00u16) != (r.0.wrapping_sub(old(self).x as u16) & 0xFF00u16) {
                1u8
            } else {
                0u8
            }),
            (mode == crate::instructions::AddressingMode::AbsoluteY || mode
                == crate::instructions::AddressingMode::IndirectY) ==> r.1 == (if (r.0
                & 0xFF00u16) != (r.0.wrapping_sub(old(self).y as u16) & 0xFF00u16) {
                1u8
            } else {
                0u8
            }),
            mode == crate::instructions::AddressingMode::Relative ==> r.1 == (if (final(self).pc
                & 0xFF00u16) != (r.0 & 0xFF00u16) {
                1u8
            } else {
                0u8
            }),
            !(mode == crate::instructions::AddressingMode::AbsoluteX || mode
                == crate::instructions::AddressingMode::AbsoluteY || mode
                == crate::instructions::AddressingMode::IndirectY || mode
                == crate::instructions::AddressingMode::Relative) ==> r.1 == 0u8,
            r.1 <= 1,
            (mode == crate::instructions::AddressingMode::Implied || mode
                == crate::instructions::AddressingMode::Accumulator || mode
                == crate::instructions::AddressingMode::Immediate) ==> r.0 == 0u16,
            ({
                let pre = *old(self);
                let b0 = Cpu::spec_mem(pre, pre.pc);
                let b1 = Cpu::spec_mem(pre, pre.pc.wrapping_add(1));
                let one_visible = Cpu::spec_mem_visible(pre, pre.pc);
                let two_visible = one_visible && Cpu::spec_mem_visible(pre, pre.pc.wrapping_add(1));
                &&& (mode == crate::instructions::AddressingMode::ZeroPage && one_visible ==> r.0
                    == b0 as u16)
                &&& (mode == crate::instructions::AddressingMode::ZeroPageX && one_visible ==> r.0
                    == ((((b0 as u16) + (pre.x as u16)) as u16) & 0xFFu16))
                &&& (mode == crate::instructions::AddressingMode::ZeroPageY && one_visible ==> r.0
                    == ((((b0 as u16) + (pre.y as u16)) as u16) & 0xFFu16))
                &&& (mode == crate::instructions::AddressingMode::Absolute && two_visible ==> r.0
                    == (((b1 as u16) << 8u16) | (b0 as u16)))
                &&& (mode == crate::instructions::AddressingMode::AbsoluteX && two_visible ==> r.0
                    == ((((b1 as u16) << 8u16) | (b0 as u16)) as u16).wrapping_add(pre.x as u16))
                &&& (mode == crate::instructions::AddressingMode::AbsoluteY && two_visible ==> r.0
                    == ((((b1 as u16) << 8u16) | (b0 as u16)) as u16).wrapping_add(pre.y as u16))
                &&& (mode == crate::instructions::AddressingMode::Indirect && two_visible ==> {
                    let ptr = ((((b1 as u16) << 8u16) | (b0 as u16)) as u16);
                    let hi_addr = if (ptr & 0xFFu16) == 0xFFu16 {
                        (ptr & 0xFF00u16) as u16
                    } else {
                        ptr.wrapping_add(1)
                    };
                    (Cpu::spec_mem_visible(pre, ptr) && Cpu::spec_mem_visible(pre, hi_addr)) ==> r.0
                        == (((Cpu::spec_mem(pre, hi_addr) as u16) << 8u16) | (Cpu::spec_mem(
                        pre,
                        ptr,
                    ) as u16))
                })
                &&& (mode == crate::instructions::AddressingMode::IndirectX && one_visible ==> {
                    let zp = b0.wrapping_add(pre.x);
                    r.0 == (((Cpu::spec_mem(pre, zp.wrapping_add(1) as u16) as u16) << 8u16) | (
                    Cpu::spec_mem(pre, zp as u16) as u16))
                })
                &&& (mode == crate::instructions::AddressingMode::IndirectY && one_visible ==> r.0
                    == ((((Cpu::spec_mem(pre, b0.wrapping_add(1) as u16) as u16) << 8u16) | (
                    Cpu::spec_mem(pre, b0 as u16) as u16)) as u16).wrapping_add(pre.y as u16))
                &&& (mode == crate::instructions::AddressingMode::Relative && one_visible ==> r.0
                    == pre.pc.wrapping_add(1).wrapping_add((b0 as i8) as u16))
            }),
    {
        match mode {
            crate::instructions::AddressingMode::Absolute => {
                let pc0 = self.pc;
                let lo = self.read_byte(pc0) as u16;
                self.inc_pc();
                let pc1 = self.pc;
                let hi = self.read_byte(pc1) as u16;
                self.inc_pc();
                let addr = (hi << 8u16) | lo;
                (addr, 0)
            },
            crate::instructions::AddressingMode::AbsoluteX => {
                let pc0 = self.pc;
                let lo = self.read_byte(pc0) as u16;
                self.inc_pc();
                let pc1 = self.pc;
                let hi = self.read_byte(pc1) as u16;
                self.inc_pc();
                let base_addr = (hi << 8u16) | lo;
                let addr = base_addr.wrapping_add(self.x as u16);
                let pen = self.page_boundary_cycle(addr, base_addr);
                proof {
                    assert(addr.wrapping_sub(old(self).x as u16) == base_addr);
                }
                (addr, pen)
            },
            crate::instructions::AddressingMode::AbsoluteY => {
                let pc0 = self.pc;
                let lo = self.read_byte(pc0) as u16;
                self.inc_pc();
                let pc1 = self.pc;
                let hi = self.read_byte(pc1) as u16;
                self.inc_pc();
                let base_addr = (hi << 8u16) | lo;
                let addr = base_addr.wrapping_add(self.y as u16);
                let pen = self.page_boundary_cycle(addr, base_addr);
                proof {
                    assert(addr.wrapping_sub(old(self).y as u16) == base_addr);
                }
                (addr, pen)
            },
            crate::instructions::AddressingMode::Accumulator => (0, 0),
            crate::instructions::AddressingMode::Immediate => (0, 0),
            crate::instructions::AddressingMode::Implied => (0, 0),
            crate::instructions::AddressingMode::Indirect => {
                let pc0 = self.pc;
                let addr_lo = self.read_byte(pc0) as u16;
                self.inc_pc();
                let pc1 = self.pc;
                let addr_hi = self.read_byte(pc1) as u16;
                self.inc_pc();
                let addr = (addr_hi << 8u16) | addr_lo;
                proof {
                    lemma_word_parts(addr_hi, addr_lo);
                }
                let hi_addr = if (addr_lo & 0xFF) == 0xFF {
                    addr & 0xFF00
                } else {
                    addr.wrapping_add(1)
                };
                let target_lo = self.read_byte(addr) as u16;
                let target_hi = self.read_byte(hi_addr) as u16;
                ((target_hi << 8u16) | target_lo, 0)
            },
            crate::instructions::AddressingMode::IndirectX => {
                let pc0 = self.pc;
                let zp_addr = self.read_byte(pc0);
                self.inc_pc();
                let effective_zp = zp_addr.wrapping_add(self.x);
                let target_lo = self.read_byte(effective_zp as u16) as u16;
                let target_hi = self.read_byte(effective_zp.wrapping_add(1) as u16) as u16;
                ((target_hi << 8u16) | target_lo, 0)
            },
            crate::instructions::AddressingMode::IndirectY => {
                let pc0 = self.pc;
                let zp_addr = self.read_byte(pc0);
                self.inc_pc();
                let base_lo = self.read_byte(zp_addr as u16) as u16;
                let base_hi = self.read_byte(zp_addr.wrapping_add(1) as u16) as u16;
                let base_addr = (base_hi << 8u16) | base_lo;
                let final_addr = base_addr.wrapping_add(self.y as u16);
                let pen = self.page_boundary_cycle(final_addr, base_addr);
                proof {
                    assert(final_addr.wrapping_sub(old(self).y as u16) == base_addr);
                }
                (final_addr, pen)
            },
            crate::instructions::AddressingMode::Relative => {
                let pc0 = self.pc;
                let offset = self.read_byte(pc0);
                self.inc_pc();
                let addr = self.pc.wrapping_add((offset as i8) as u16);
                let pen = self.page_boundary_cycle(self.pc, addr);
                (addr, pen)
            },
            crate::instructions::AddressingMode::ZeroPage => {
                let pc0 = self.pc;
                let addr = self.read_byte(pc0) as u16;
                self.inc_pc();
                (addr, 0)
            },
            crate::instructions::AddressingMode::ZeroPageX => {
                let pc0 = self.pc;
                let addr = self.read_byte(pc0) as u16;
                self.inc_pc();
                let addr_x = addr + (self.x as u16);
                ((addr_x & 0xFF), 0)
            },
            crate::instructions::AddressingMode::ZeroPageY => {
                let pc0 = self.pc;
                let addr = self.read_byte(pc0) as u16;
                self.inc_pc();
                let addr_y = addr + (self.y as u16);
                ((addr_y & 0xFF), 0)
            },
        }
    }

    /// Whether a byte at `addr` is a pure function of the state: the
    /// address lies in mirrored RAM or the cartridge window, not at a
    /// live I/O register.
    pub open spec fn spec_mem_visible(c: Cpu, addr: u16) -> bool {
        addr < 0x2000u16 || addr >= 0x4020u16
    }

    /// The byte a bus read at a visible `addr` yields.
    pub open spec fn spec_mem(c: Cpu, addr: u16) -> u8 {
        if addr < 0x2000u16 {
            c.bus.ram.data@[(addr & 0x7FFu16) as int]
        } else {
            c.bus.ppu.rom.mapper.spec_read(addr)
        }
    }

    /// Whether the opcode `step` is about to fetch is visible.
    pub open spec fn spec_opcode_visible(c: Cpu) -> bool {
        Cpu::spec_mem_visible(c, c.pc)
    }

    /// The opcode `step` is about to fetch, when it is visible.
    pub open spec fn spec_opcode(c: Cpu) -> u8 {
        Cpu::spec_mem(c, c.pc)
    }

    /// One instruction: resolve a pending DMA stall, apply any deferred
    /// interrupt-disable update, fetch and execute the opcode, then run
    /// the PPU three dots per cycle, taking an NMI the PPU raised.
    ///
    /// Where the opcode is visible, the contract charges its exact
    /// documented cycle count and advances the PPU exactly three dots
    /// per cycle (penalty-free opcodes), keeps the DMA'd OAM contents
    /// and clears the DMA latch through any non-storing instruction, and
    /// pins A, X and Y for the register-only opcodes.
    #[verifier::rlimit(100)]
    #[verifier::spinoff_prover]
    pub fn step(&mut self)
        requires
            old(self).wf(),
            old(self).bus.cycles <= 0xFFFF_FFFF_FFFF_0000u64,
        ensures
            final(self).wf(),
            old(self).bus.dma_transfer.0 ==> old(self).bus.cycles + 514 <= final(self).bus.cycles
                <= old(self).bus.cycles + 524,
            !old(self).bus.dma_transfer.0 ==> old(self).bus.cycles <= final(self).bus.cycles
                <= old(self).bus.cycles + 10,
            Cpu::spec_opcode_visible(*old(self)) ==> {
                let op = Cpu::spec_opcode(*old(self));
                &&& crate::instructions::spec_penalty_cap(op) == 0u8 ==> final(self).bus.cycles
                    == old(self).bus.cycles + (if old(self).bus.dma_transfer.0 {
                    514u64
                } else {
                    0u64
                }) + crate::instructions::spec_min_cycles(op)
                &&& crate::instructions::spec_implied_axy(*old(self), *final(self), op)
                &&& (old(self).bus.dma_transfer.0 && old(self).bus.dma_transfer.1 < 0x20u8
                    && !crate::instructions::spec_opcode_writes_memory(op)) ==> forall|j: u16|
                    j < 256 ==> #[trigger] Cpu::spec_oam_byte(
                        final(self).bus.ppu.oam@,
                        ((old(self).bus.ppu.oamaddr + j) % 256) as int,
                    ) == old(self).bus.ram.data@[((((old(self).bus.dma_transfer.1 as u16)
                        * 0x100u16 + j) as u16) & 0x7FFu16) as int]
                &&& !crate::instructions::spec_opcode_writes_memory(op) ==> final(self).bus.dma_transfer == (if old(self).bus.dma_transfer.0 {
                    (false, 0u8)
                } else {
                    old(self).bus.dma_transfer
                })
                &&& (crate::instructions::spec_penalty_cap(op) == 0u8
                    && !crate::instructions::spec_opcode_writes_memory(op)) ==> ({
                    let p = crate::ppu::spec_pos_after(
                        old(self).bus.ppu.scanline as int,
                        old(self).bus.ppu.cycle as int,
                        old(self).bus.ppu.odd_frame,
                        old(self).bus.ppu.spec_rendering_enabled(),
                        (3 * crate::instructions::spec_min_cycles(op)) as nat,
                    );
                    final(self).bus.ppu.scanline == p.0 && final(self).bus.ppu.cycle == p.1
                        && final(self).bus.ppu.odd_frame == p.2
                })
            },
    {
        if self.bus.dma_transfer.0 {
            self.run_dma();
        }
        if self.update_interrupt_disable.0 {
            let v = self.update_interrupt_disable.1;
            self.set_flag(StatusFlag::InterruptDisable, v != 0);
            self.update_interrupt_disable = (false, 0);
            proof {
                crate::instructions::lemma_carry_bit(old(self).p);
            }
        }
        let pc = self.pc;
        let opcode = self.read_byte(pc);
        proof {
            if Cpu::spec_opcode_visible(*old(self)) {
                assert(opcode == Cpu::spec_opcode(*old(self)));
            }
        }
        self.inc_pc();
        let cycles = execute(self, opcode);
        proof {
            assert(crate::instructions::spec_implied_axy(*old(self), *self, opcode));
        }

        let total: usize = (cycles as usize) * 3;
        let ghost cycles_before_ppu = self.bus.cycles;
        let ghost oam_after_exec = self.bus.ppu.oam@;
        let ghost a_after = self.a;
        let ghost x_after = self.x;
        let ghost y_after = self.y;
        let ghost dma_after_exec = self.bus.dma_transfer;
        let ghost sc_e = self.bus.ppu.scanline as int;
        let ghost c_e = self.bus.ppu.cycle as int;
        let ghost odd_e = self.bus.ppu.odd_frame;
        let ghost rend_e = self.bus.ppu.spec_rendering_enabled();
        let ghost mask_e = self.bus.ppu.mask;
        let mut t: usize = 0;
        while t < total
            invariant
                self.wf(),
                t <= total,
                total == (cycles as int) * 3,
                self.bus.cycles == cycles_before_ppu,
                self.bus.ppu.oam@ == oam_after_exec,
                self.a == a_after && self.x == x_after && self.y == y_after,
                self.bus.dma_transfer == dma_after_exec,
                self.bus.ppu.mask == mask_e,
                rend_e == self.bus.ppu.spec_rendering_enabled(),
                (self.bus.ppu.scanline as int, self.bus.ppu.cycle as int, self.bus.ppu.odd_frame)
                    == crate::ppu::spec_pos_after(sc_e, c_e, odd_e, rend_e, t as nat),
            decreases total - t,
        {
            self.bus.ppu.step();
            proof {
                assert(crate::ppu::spec_pos_after(sc_e, c_e, odd_e, rend_e, (t + 1) as nat)
                    == crate::ppu::spec_pos_step(
                    crate::ppu::spec_pos_after(sc_e, c_e, odd_e, rend_e, t as nat).0,
                    crate::ppu::spec_pos_after(sc_e, c_e, odd_e, rend_e, t as nat).1,
                    crate::ppu::spec_pos_after(sc_e, c_e, odd_e, rend_e, t as nat).2,
                    rend_e,
                ));
            }
            if self.bus.ppu.trigger_nmi {
                self.bus.ppu.trigger_nmi = false;
                self.interrupt(Interrupt::NMI);
            }
            t += 1;
        }
        proof {
            assert(crate::instructions::spec_implied_axy(*old(self), *self, opcode));
            if Cpu::spec_opcode_visible(*old(self))
                && !crate::instructions::spec_opcode_writes_memory(opcode) {
                assert(sc_e == old(self).bus.ppu.scanline as int);
                assert(c_e == old(self).bus.ppu.cycle as int);
                assert(odd_e == old(self).bus.ppu.odd_frame);
                assert(mask_e == old(self).bus.ppu.mask);
                assert(rend_e == old(self).bus.ppu.spec_rendering_enabled());
                if crate::instructions::spec_penalty_cap(opcode) == 0u8 {
                    assert(cycles == crate::instructions::spec_min_cycles(opcode));
                    assert(t == 3 * crate::instructions::spec_min_cycles(opcode));
                }
            }
        }
        self.bus.cycles = self.bus.cycles + (cycles as u64);
    }
}

} // verus!
