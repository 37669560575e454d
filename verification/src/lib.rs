//! Cycle-level core of an 8-bit Nintendo Entertainment System emulator:
//! a 6502-family CPU and a scanline/dot PPU coupled through a shared bus,
//! with cartridge mappers, OAM DMA, NMI delivery and a frame-producing
//! pixel pipeline.

pub mod bus;
pub mod controller;
pub mod cpu;
pub mod instructions;
pub mod mapper;
pub mod mappers;
pub mod memory;
pub mod palette;
pub mod ppu;
pub mod rom;

use vstd::prelude::*;
use crate::cpu::{Cpu, Interrupt};
use crate::rom::Rom;
use crate::controller::Button;

verus! {

/// The console variant, fixing the master-clock timing the host paces
/// itself against.
#[derive(Debug, Clone, Copy, PartialEq, Eq, Structural)]
pub enum SystemVersion {
    NTSC,
    PAL,
    Dendy,
    RGB,
    BrazilFamiclone,
    ArgentinaFamiclone,
}

/// The console: the CPU owning the bus, which owns the PPU, which owns
/// the cartridge. The host drives it exclusively through this facade.
pub struct Nes {
    pub cpu: Cpu,
}

impl Nes {
    pub open spec fn wf(self) -> bool {
        self.cpu.wf()
    }

    pub fn new(version: SystemVersion) -> (n: Nes)
        ensures
            n.wf(),
            n.cpu.bus.cycles == 0u64,
            !n.cpu.bus.ppu.frame_ready,
            n.cpu.bus.ppu.frame_buffer@.len() == 256 * 240 * 3,
    {
        Nes { cpu: Cpu::new(version) }
    }

    /// Power on: run the RESET sequence, loading PC from the reset
    /// vector at $FFFC, dropping SP by 3 and setting interrupt-disable.
    pub fn on(&mut self)
        requires
            old(self).wf(),
        ensures
            final(self).wf(),
            final(self).cpu.bus.reset,
            final(self).cpu.bus.cycles == 7u64,
            final(self).cpu.bus.ram == old(self).cpu.bus.ram,
            final(self).cpu.sp == old(self).cpu.sp.wrapping_sub(3),
            (final(self).cpu.p & 0x04u8) != 0u8,
            final(self).cpu.pc == (((old(self).cpu.bus.ppu.rom.mapper.spec_read(
                0xFFFDu16,
            ) as u16) << 8u16) | (old(self).cpu.bus.ppu.rom.mapper.spec_read(0xFFFCu16) as u16)),
            ({
                let p = crate::ppu::spec_pos_after(
                    old(self).cpu.bus.ppu.scanline as int,
                    old(self).cpu.bus.ppu.cycle as int,
                    old(self).cpu.bus.ppu.odd_frame,
                    old(self).cpu.bus.ppu.spec_rendering_enabled(),
                    21,
                );
                final(self).cpu.bus.ppu.scanline == p.0 && final(self).cpu.bus.ppu.cycle == p.1
                    && final(self).cpu.bus.ppu.odd_frame == p.2
            }),
    {
        self.cpu.interrupt(Interrupt::RESET);
    }

    pub fn off(&mut self) {
    }

    /// Soft reset: the RESET sequence again, RAM preserved.
    pub fn reset(&mut self)
        requires
            old(self).wf(),
        ensures
            final(self).wf(),
            final(self).cpu.bus.reset,
            final(self).cpu.bus.cycles == 7u64,
            final(self).cpu.bus.ram == old(self).cpu.bus.ram,
            final(self).cpu.sp == old(self).cpu.sp.wrapping_sub(3),
            final(self).cpu.p == (old(self).cpu.p | 0x04u8),
            final(self).cpu.a == old(self).cpu.a && final(self).cpu.x == old(self).cpu.x && final(self).cpu.y == old(self).cpu.y,
            final(self).cpu.pc == (((old(self).cpu.bus.ppu.rom.mapper.spec_read(
                0xFFFDu16,
            ) as u16) << 8u16) | (old(self).cpu.bus.ppu.rom.mapper.spec_read(0xFFFCu16) as u16)),
            ({
                let p = crate::ppu::spec_pos_after(
                    old(self).cpu.bus.ppu.scanline as int,
                    old(self).cpu.bus.ppu.cycle as int,
                    old(self).cpu.bus.ppu.odd_frame,
                    old(self).cpu.bus.ppu.spec_rendering_enabled(),
                    21,
                );
                final(self).cpu.bus.ppu.scanline == p.0 && final(self).cpu.bus.ppu.cycle == p.1
                    && final(self).cpu.bus.ppu.odd_frame == p.2
            }),
    {
        self.cpu.reset();
    }

    /// Advance one CPU instruction, with its DMA stall and PPU catch-up.
    /// Where the opcode under the program counter is a pure function of
    /// the state, the contract charges its exact documented cycle count
    /// and advances the PPU exactly three dots per cycle (penalty-free
    /// opcodes), keeps the DMA'd OAM contents and clears the DMA latch
    /// through any non-storing instruction, and pins A, X and Y for the
    /// register-only opcodes.
    pub fn step(&mut self)
        requires
            old(self).wf(),
            old(self).cpu.bus.cycles <= 0xFFFF_FFFF_FFFF_0000u64,
        ensures
            final(self).wf(),
            old(self).cpu.bus.dma_transfer.0 ==> old(self).cpu.bus.cycles + 514 <= final(self).cpu.bus.cycles <= old(self).cpu.bus.cycles + 524,
            !old(self).cpu.bus.dma_transfer.0 ==> old(self).cpu.bus.cycles <= final(self).cpu.bus.cycles <= old(self).cpu.bus.cycles + 10,
            Cpu::spec_opcode_visible(old(self).cpu) ==> {
                let op = Cpu::spec_opcode(old(self).cpu);
                &&& crate::instructions::spec_penalty_cap(op) == 0u8 ==> final(self).cpu.bus.cycles
                    == old(self).cpu.bus.cycles + (if old(self).cpu.bus.dma_transfer.0 {
                    514u64
                } else {
                    0u64
                }) + crate::instructions::spec_min_cycles(op)
                &&& crate::instructions::spec_implied_axy(old(self).cpu, final(self).cpu, op)
                &&& (old(self).cpu.bus.dma_transfer.0 && old(self).cpu.bus.dma_transfer.1 < 0x20u8
                    && !crate::instructions::spec_opcode_writes_memory(op)) ==> forall|j: u16|
                    j < 256 ==> #[trigger] Cpu::spec_oam_byte(
                        final(self).cpu.bus.ppu.oam@,
                        ((old(self).cpu.bus.ppu.oamaddr + j) % 256) as int,
                    ) == old(self).cpu.bus.ram.data@[((((old(self).cpu.bus.dma_transfer.1 as u16)
                        * 0x100u16 + j) as u16) & 0x7FFu16) as int]
                &&& !crate::instructions::spec_opcode_writes_memory(op) ==> final(self).cpu.bus.dma_transfer == (if old(self).cpu.bus.dma_transfer.0 {
                    (false, 0u8)
                } else {
                    old(self).cpu.bus.dma_transfer
                })
                &&& (crate::instructions::spec_penalty_cap(op) == 0u8
                    && !crate::instructions::spec_opcode_writes_memory(op)) ==> ({
                    let p = crate::ppu::spec_pos_after(
                        old(self).cpu.bus.ppu.scanline as int,
                        old(self).cpu.bus.ppu.cycle as int,
                        old(self).cpu.bus.ppu.odd_frame,
                        old(self).cpu.bus.ppu.spec_rendering_enabled(),
                        (3 * crate::instructions::spec_min_cycles(op)) as nat,
                    );
                    final(self).cpu.bus.ppu.scanline == p.0 && final(self).cpu.bus.ppu.cycle
                        == p.1 && final(self).cpu.bus.ppu.odd_frame == p.2
                })
            },
    {
        self.cpu.step();
    }

    /// Install a parsed cartridge.
    pub fn set_rom(&mut self, rom: Rom)
        requires
            old(self).wf(),
            rom.mapper.wf(),
        ensures
            final(self).wf(),
            final(self).cpu.bus.ppu.rom == rom,
            final(self).cpu == (Cpu { bus: final(self).cpu.bus, ..old(self).cpu }),
    {
        self.cpu.bus.ppu.rom = rom;
    }

    /// Override the program counter (a test-ROM entry point).
    pub fn set_start(&mut self, addr: u16)
        requires
            old(self).wf(),
        ensures
            final(self).wf(),
            final(self).cpu.pc == addr,
            final(self).cpu == (Cpu { pc: addr, ..old(self).cpu }),
    {
        self.cpu.pc = addr;
    }

    /// True exactly once per completed frame: reads the frame-ready flag
    /// and consumes it.
    pub fn poll_frame(&mut self) -> (ready: bool)
        requires
            old(self).wf(),
        ensures
            final(self).wf(),
            ready == old(self).cpu.bus.ppu.frame_ready,
            !final(self).cpu.bus.ppu.frame_ready,
            final(self).cpu == (Cpu { bus: final(self).cpu.bus, ..old(self).cpu }),
            final(self).cpu.bus.ppu == (crate::ppu::Ppu {
                frame_ready: false,
                ..old(self).cpu.bus.ppu
            }),
            final(self).cpu.bus == (crate::bus::Bus {
                ppu: final(self).cpu.bus.ppu,
                ..old(self).cpu.bus
            }),
    {
        let ret = self.cpu.bus.ppu.frame_ready;
        self.cpu.bus.ppu.frame_ready = false;
        ret
    }

    /// Borrow the frame buffer: 256 by 240 pixels, row-major R,G,B.
    pub fn frame(&self) -> (buf: &Vec<u8>)
        requires
            self.wf(),
        ensures
            buf@ == self.cpu.bus.ppu.frame_buffer@,
            buf@.len() == 256 * 240 * 3,
    {
        &self.cpu.bus.ppu.frame_buffer
    }

    /// Update one button of controller 1.
    pub fn set_button(&mut self, button: Button, pressed: bool)
        requires
            old(self).wf(),
        ensures
            final(self).wf(),
            final(self).cpu.bus.controller1.buttons == crate::controller::Controller::buttons_with(
                old(self).cpu.bus.controller1.buttons,
                button,
                pressed,
            ),
    {
        self.cpu.bus.controller1.set_button(button, pressed);
    }
}

} // verus!
