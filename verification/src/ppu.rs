//! The picture processing unit: a 262-scanline by 341-dot state machine
//! with the v/t/x/w scroll registers, OAM and sprite evaluation, the
//! background tile fetch pipeline, and pixel composition into a
//! 256 by 240 RGB frame buffer.

use vstd::prelude::*;
use crate::memory::Memory;
use crate::rom::{Rom, Mirroring};
use crate::mapper::mapper_write_rel;
use crate::palette::{palette_rgb, spec_palette_rgb};

verus! {

/// Bit `n` of `x`, in the low bit of the result.
pub open spec fn spec_nth_bit(x: u16, n: u8) -> u16 {
    (x >> n) & 1u16
}

pub fn nth_bit(x: u16, n: u8) -> (r: u16)
    requires
        n < 16,
    ensures
        r == spec_nth_bit(x, n),
        r == 0u16 || r == 1u16,
{
    proof {
        assert(((x >> n) & 1u16) == 0u16 || ((x >> n) & 1u16) == 1u16) by (bit_vector);
    }
    (x >> n) & 1
}

/// One OAM entry, together with its fetched pattern row while cached for
/// the current scanline. An `id` of 64 marks an empty slot.
#[derive(Debug, Clone, Copy, PartialEq, Eq, Structural)]
pub struct Sprite {
    pub id: u8,
    pub y: u8,
    pub tile: u8,
    pub attr: u8,
    pub x: u8,
    pub pt_lo: u8,
    pub pt_hi: u8,
}

impl Sprite {
    /// The empty slot marker all OAM entries start as.
    pub open spec fn spec_empty() -> Sprite {
        Sprite {
            id: 64u8,
            y: 0xFFu8,
            tile: 0xFFu8,
            attr: 0xFFu8,
            x: 0xFFu8,
            pt_lo: 0xFFu8,
            pt_hi: 0xFFu8,
        }
    }

    pub fn new() -> (s: Sprite)
        ensures
            s == Sprite::spec_empty(),
    {
        Sprite { id: 64, y: 0xFF, tile: 0xFF, attr: 0xFF, x: 0xFF, pt_lo: 0xFF, pt_hi: 0xFF }
    }

    pub fn is_v_flipped(&self) -> (r: bool)
        ensures
            r == ((self.attr & 0x80u8) != 0u8),
    {
        self.attr & 0x80 != 0
    }

    pub fn is_h_flipped(&self) -> (r: bool)
        ensures
            r == ((self.attr & 0x40u8) != 0u8),
    {
        self.attr & 0x40 != 0
    }

    pub fn priority(&self) -> (r: bool)
        ensures
            r == ((self.attr & 0x20u8) != 0u8),
    {
        self.attr & 0x20 != 0
    }

    pub fn palette(&self) -> (r: u8)
        ensures
            r == (self.attr & 0x03u8),
    {
        self.attr & 0x03
    }
}

#[derive(Debug, Clone, Copy, PartialEq, Eq, Structural)]
pub enum Scanline {
    PreRender,
    Visible,
    PostRender,
    VBlank,
}

impl Scanline {
    /// Classify a scanline number: 0-239 visible, 240 post-render,
    /// 241-260 vertical blank, 261 pre-render.
    pub fn from(scanline: usize) -> (s: Scanline)
        requires
            scanline <= 261,
        ensures
            s == Scanline::spec_from(scanline as int),
    {
        if scanline <= 239 {
            Scanline::Visible
        } else if scanline == 240 {
            Scanline::PostRender
        } else if scanline <= 260 {
            Scanline::VBlank
        } else {
            Scanline::PreRender
        }
    }

    pub open spec fn spec_from(scanline: int) -> Scanline {
        if scanline <= 239 {
            Scanline::Visible
        } else if scanline == 240 {
            Scanline::PostRender
        } else if scanline <= 260 {
            Scanline::VBlank
        } else {
            Scanline::PreRender
        }
    }
}

/// Coarse X incremented with wraparound: at 31 it resets and toggles the
/// horizontal nametable bit.
pub open spec fn spec_increment_h(v: u16) -> u16 {
    if (v & 0x001Fu16) == 31u16 {
        (v & (!0x001Fu16)) ^ 0x0400u16
    } else {
        (v + 1u16) as u16
    }
}

/// Fine Y incremented; on overflow coarse Y advances, wrapping at 29
/// with a toggle of the vertical nametable bit, and clamping at 31.
pub open spec fn spec_increment_v(v: u16) -> u16 {
    if (v & 0x7000u16) != 0x7000u16 {
        (v + 0x1000u16) as u16
    } else {
        let v2 = v & (!0x7000u16);
        let y = (v2 & 0x03E0u16) >> 5u16;
        if y == 29u16 {
            (v2 ^ 0x0800u16) & (!0x03E0u16)
        } else if y == 31u16 {
            v2 & (!0x03E0u16)
        } else {
            (v2 & (!0x03E0u16)) | (((y + 1u16) as u16) << 5u16)
        }
    }
}

/// The horizontal scroll bits (coarse X and nametable X) copied from t.
pub open spec fn spec_copy_h(v: u16, t: u16) -> u16 {
    (v & (!0x041Fu16)) | (t & 0x041Fu16)
}

/// The vertical scroll bits (fine Y, coarse Y, nametable Y) copied from t.
pub open spec fn spec_copy_v(v: u16, t: u16) -> u16 {
    (v & (!0x7BE0u16)) | (t & 0x7BE0u16)
}

/// The VRAM address stepped by 1 or 32 per ctrl bit 2, inside 15 bits.
pub open spec fn spec_inc_vram(v: u16, ctrl: u8) -> u16 {
    ((v + (if (ctrl & 0x04u8) != 0u8 {
        32u16
    } else {
        1u16
    })) as u16) & 0x7FFFu16
}

/// A 14-bit-masked PPU address stays below 0x4000.
pub proof fn lemma_masked_ppu_addr(addr: u16)
    by (bit_vector)
    ensures
        (addr & 0x3FFFu16) < 0x4000u16,
{
}

/// The four scroll-register transitions keep v inside 15 bits.
pub proof fn lemma_v_ops_in_range(v: u16, t: u16, ctrl: u8)
    by (bit_vector)
    ensures
        v < 0x8000u16 ==> spec_increment_h(v) < 0x8000u16,
        v < 0x8000u16 ==> spec_increment_v(v) < 0x8000u16,
        v < 0x8000u16 && t < 0x8000u16 ==> spec_copy_h(v, t) < 0x8000u16,
        v < 0x8000u16 && t < 0x8000u16 ==> spec_copy_v(v, t) < 0x8000u16,
        spec_inc_vram(v, ctrl) < 0x8000u16,
{
}

/// The background fetch pipeline: the latch for the in-flight memory
/// fetch and the tile/attribute shifters feeding pixel composition.
#[derive(Debug, Clone, Copy, PartialEq, Eq, Structural)]
pub struct PipeState {
    pub addr_latch: u16,
    pub nt_byte: u8,
    pub at_byte: u8,
    pub at_latch_lo: u8,
    pub at_latch_hi: u8,
    pub pt_latch_lo: u8,
    pub pt_latch_hi: u8,
    pub at_shifter_lo: u8,
    pub at_shifter_hi: u8,
    pub pt_shifter_lo: u16,
    pub pt_shifter_hi: u16,
}

pub struct Ppu {
    pub ctrl: u8,
    pub mask: u8,
    pub status: u8,
    pub oamaddr: u8,
    pub v: u16,
    pub t: u16,
    pub x: u8,
    pub w: bool,
    pub odd_frame: bool,
    pub vram_buffer: u8,
    pub open_bus: u8,
    pub vram: Memory,
    pub rom: Rom,
    pub palette: Vec<u8>,
    pub oam: Vec<Sprite>,
    pub secondary_oam: Vec<Sprite>,
    pub sprite_cache: Vec<Sprite>,
    pub trigger_nmi: bool,
    pub cycle: usize,
    pub scanline: usize,
    pub frame_ready: bool,
    pub frame_buffer: Vec<u8>,
    pub addr_latch: u16,
    pub nt_byte: u8,
    pub at_byte: u8,
    pub at_latch_lo: u8,
    pub at_latch_hi: u8,
    pub pt_latch_lo: u8,
    pub pt_latch_hi: u8,
    pub at_shifter_lo: u8,
    pub at_shifter_hi: u8,
    pub pt_shifter_lo: u16,
    pub pt_shifter_hi: u16,
}

impl Ppu {
    /// Structural invariants: fixed store sizes, 15-bit v and t, 3-bit
    /// fine X, and the frame position inside one 262 by 341 frame.
    pub open spec fn wf(self) -> bool {
        &&& self.vram.data@.len() == 0x800
        &&& self.palette@.len() == 32
        &&& self.oam@.len() == 64
        &&& self.secondary_oam@.len() == 8
        &&& self.sprite_cache@.len() == 8
        &&& self.frame_buffer@.len() == 256 * 240 * 3
        &&& self.v < 0x8000u16
        &&& self.t < 0x8000u16
        &&& self.x < 8u8
        &&& self.cycle <= 340
        &&& self.scanline <= 261
        &&& self.rom.mapper.wf()
    }

    pub open spec fn pipe(self) -> PipeState {
        PipeState {
            addr_latch: self.addr_latch,
            nt_byte: self.nt_byte,
            at_byte: self.at_byte,
            at_latch_lo: self.at_latch_lo,
            at_latch_hi: self.at_latch_hi,
            pt_latch_lo: self.pt_latch_lo,
            pt_latch_hi: self.pt_latch_hi,
            at_shifter_lo: self.at_shifter_lo,
            at_shifter_hi: self.at_shifter_hi,
            pt_shifter_lo: self.pt_shifter_lo,
            pt_shifter_hi: self.pt_shifter_hi,
        }
    }

    /// The video memories: VRAM and the 32-entry palette file.
    pub open spec fn eq_video_mem(a: Ppu, b: Ppu) -> bool {
        a.vram.data@ == b.vram.data@ && a.palette@ == b.palette@
    }

    pub open spec fn eq_sprites(a: Ppu, b: Ppu) -> bool {
        a.oam@ == b.oam@ && a.secondary_oam@ == b.secondary_oam@ && a.sprite_cache@
            == b.sprite_cache@
    }

    pub open spec fn eq_frame(a: Ppu, b: Ppu) -> bool {
        a.frame_buffer@ == b.frame_buffer@ && a.frame_ready == b.frame_ready
    }

    pub open spec fn eq_pos(a: Ppu, b: Ppu) -> bool {
        a.cycle == b.cycle && a.scanline == b.scanline && a.odd_frame == b.odd_frame
    }

    pub open spec fn eq_scroll(a: Ppu, b: Ppu) -> bool {
        a.v == b.v && a.t == b.t && a.x == b.x && a.w == b.w
    }

    /// Everything but the six I/O registers, the NMI line and frame
    /// position: used to frame register accesses that touch no memory.
    pub open spec fn eq_core(a: Ppu, b: Ppu) -> bool {
        &&& Ppu::eq_video_mem(a, b)
        &&& Ppu::eq_sprites(a, b)
        &&& Ppu::eq_frame(a, b)
        &&& Ppu::eq_pos(a, b)
        &&& a.pipe() == b.pipe()
        &&& a.rom == b.rom
    }

    pub fn new() -> (p: Ppu)
        ensures
            p.wf(),
            p.ctrl == 0u8 && p.mask == 0u8 && p.status == 0u8 && p.oamaddr == 0u8,
            p.v == 0u16 && p.t == 0u16 && p.x == 0u8 && !p.w,
            !p.odd_frame && p.vram_buffer == 0u8 && p.open_bus == 0u8,
            !p.trigger_nmi && !p.frame_ready,
            p.cycle == 0 && p.scanline == 0,
            forall|i: int| 0 <= i < 0x800 ==> p.vram.data@[i] == 0u8,
            forall|i: int| 0 <= i < 32 ==> p.palette@[i] == 0u8,
            forall|i: int| 0 <= i < 64 ==> p.oam@[i].id == 64u8,
            forall|i: int| 0 <= i < 256 * 240 * 3 ==> p.frame_buffer@[i] == 0u8,
            forall|addr: u16| p.rom.mapper.spec_read(addr) == 0u8,
    {
        let mut oam: Vec<Sprite> = Vec::new();
        let mut i: usize = 0;
        while i < 64
            invariant
                i <= 64,
                oam@.len() == i,
                forall|j: int| 0 <= j < i ==> oam@[j] == Sprite::spec_empty(),
            decreases 64 - i,
        {
            oam.push(Sprite::new());
            i += 1;
        }
        let mut secondary_oam: Vec<Sprite> = Vec::new();
        let mut i2: usize = 0;
        while i2 < 8
            invariant
                i2 <= 8,
                secondary_oam@.len() == i2,
            decreases 8 - i2,
        {
            secondary_oam.push(Sprite::new());
            i2 += 1;
        }
        let mut sprite_cache: Vec<Sprite> = Vec::new();
        let mut i3: usize = 0;
        while i3 < 8
            invariant
                i3 <= 8,
                sprite_cache@.len() == i3,
            decreases 8 - i3,
        {
            sprite_cache.push(Sprite::new());
            i3 += 1;
        }
        Ppu {
            ctrl: 0,
            mask: 0,
            status: 0,
            oamaddr: 0,
            v: 0,
            t: 0,
            x: 0,
            w: false,
            odd_frame: false,
            vram_buffer: 0,
            open_bus: 0,
            vram: Memory::new(crate::rom::vec_of_zeros(0x800)),
            rom: Rom::blank(),
            palette: crate::rom::vec_of_zeros(32),
            oam,
            secondary_oam,
            sprite_cache,
            trigger_nmi: false,
            cycle: 0,
            scanline: 0,
            frame_buffer: crate::rom::vec_of_zeros(256 * 240 * 3),
            frame_ready: false,
            addr_latch: 0,
            nt_byte: 0,
            at_byte: 0,
            at_latch_lo: 0,
            at_latch_hi: 0,
            pt_latch_lo: 0,
            pt_latch_hi: 0,
            at_shifter_lo: 0,
            at_shifter_hi: 0,
            pt_shifter_lo: 0,
            pt_shifter_hi: 0,
        }
    }

    // ------------------------------------------------------------------
    // ctrl/mask-derived conditions
    // ------------------------------------------------------------------

    pub open spec fn spec_rendering_enabled(self) -> bool {
        (self.mask & 0x18u8) != 0u8
    }

    pub fn is_rendering_enabled(&self) -> (r: bool)
        ensures
            r == self.spec_rendering_enabled(),
    {
        self.mask & 0x18 != 0
    }

    pub fn is_sprite_rendering_enabled(&self) -> (r: bool)
        ensures
            r == ((self.mask & 0x10u8) != 0u8),
    {
        self.mask & 0x10 != 0
    }

    pub open spec fn spec_sprite_height(self) -> u8 {
        if (self.ctrl & 0x20u8) != 0u8 {
            16u8
        } else {
            8u8
        }
    }

    pub fn sprite_height(&self) -> (r: u8)
        ensures
            r == self.spec_sprite_height(),
    {
        if self.ctrl & 0x20 != 0 {
            16
        } else {
            8
        }
    }

    pub fn is_bg_rendering_enabled(&self) -> (r: bool)
        ensures
            r == ((self.mask & 0x08u8) != 0u8),
    {
        self.mask & 0x08 != 0
    }

    pub fn is_leftmost_bg_rendering_enabled(&self) -> (r: bool)
        ensures
            r == ((self.mask & 0x02u8) != 0u8),
    {
        self.mask & 0x02 != 0
    }

    pub fn is_leftmost_sprite_rendering_enabled(&self) -> (r: bool)
        ensures
            r == ((self.mask & 0x04u8) != 0u8),
    {
        self.mask & 0x04 != 0
    }

    pub fn sprite_pattern_table_address(&self) -> (r: u16)
        ensures
            r == (if (self.ctrl & 0x8u8) != 0u8 {
                0x1000u16
            } else {
                0u16
            }),
    {
        if self.ctrl & 0x8 != 0 {
            0x1000
        } else {
            0
        }
    }

    pub fn bg_pattern_table_address(&self) -> (r: u16)
        ensures
            r == (if (self.ctrl & 0x10u8) != 0u8 {
                0x1000u16
            } else {
                0u16
            }),
    {
        if self.ctrl & 0x10 != 0 {
            0x1000
        } else {
            0
        }
    }

    pub fn fine_y(&self) -> (r: u16)
        ensures
            r == ((self.v >> 12u16) & 7u16),
            r < 8,
    {
        proof {
            let v0 = self.v;
            assert(((v0 >> 12u16) & 7u16) < 8u16) by (bit_vector);
        }
        (self.v >> 12) & 7
    }

    pub fn coarse_y(&self) -> (r: u16)
        ensures
            r == ((self.v & 0x3E0u16) >> 5u16),
            r < 32,
    {
        proof {
            let v0 = self.v;
            assert(((v0 & 0x3E0u16) >> 5u16) < 32u16) by (bit_vector);
        }
        (self.v & 0x3E0) >> 5
    }

    pub fn coarse_x(&self) -> (r: u16)
        ensures
            r == (self.v & 0x1Fu16),
            r < 32,
    {
        proof {
            let v0 = self.v;
            assert((v0 & 0x1Fu16) < 32u16) by (bit_vector);
        }
        self.v & 0x1F
    }

    // ------------------------------------------------------------------
    // scroll-register transitions
    // ------------------------------------------------------------------

    pub fn increment_h(&mut self)
        requires
            old(self).wf(),
        ensures
            final(self).wf(),
            final(self).v == (if old(self).spec_rendering_enabled() {
                spec_increment_h(old(self).v)
            } else {
                old(self).v
            }),
            *final(self) == (Ppu { v: final(self).v, ..*old(self) }),
    {
        if !self.is_rendering_enabled() {
            return ;
        }
        proof {
            lemma_v_ops_in_range(self.v, self.t, self.ctrl);
        }
        if (self.v & 0x001F) == 31 {
            self.v = (self.v & !0x001F) ^ 0x0400;
        } else {
            self.v = self.v + 1;
        }
    }

    pub fn increment_v(&mut self)
        requires
            old(self).wf(),
        ensures
            final(self).wf(),
            final(self).v == (if old(self).spec_rendering_enabled() {
                spec_increment_v(old(self).v)
            } else {
                old(self).v
            }),
            *final(self) == (Ppu { v: final(self).v, ..*old(self) }),
    {
        if !self.is_rendering_enabled() {
            return ;
        }
        proof {
            lemma_v_ops_in_range(self.v, self.t, self.ctrl);
        }
        if (self.v & 0x7000) != 0x7000 {
            self.v = self.v + 0x1000;
        } else {
            let v2 = self.v & !0x7000;
            let y = (v2 & 0x03E0) >> 5u16;
            if y == 29 {
                self.v = (v2 ^ 0x0800) & !0x03E0;
            } else if y == 31 {
                self.v = v2 & !0x03E0;
            } else {
                proof {
                    assert(y <= 31u16) by (bit_vector)
                        requires
                            y == (v2 & 0x03E0u16) >> 5u16,
                    ;
                }
                self.v = (v2 & !0x03E0) | ((y + 1) << 5u16);
            }
        }
    }

    pub fn copy_h(&mut self)
        requires
            old(self).wf(),
        ensures
            final(self).wf(),
            final(self).v == (if old(self).spec_rendering_enabled() {
                spec_copy_h(old(self).v, old(self).t)
            } else {
                old(self).v
            }),
            *final(self) == (Ppu { v: final(self).v, ..*old(self) }),
    {
        if !self.is_rendering_enabled() {
            return ;
        }
        proof {
            lemma_v_ops_in_range(self.v, self.t, self.ctrl);
        }
        self.v = (self.v & !0x041F) | (self.t & 0x041F);
    }

    pub fn copy_v(&mut self)
        requires
            old(self).wf(),
        ensures
            final(self).wf(),
            final(self).v == (if old(self).spec_rendering_enabled() {
                spec_copy_v(old(self).v, old(self).t)
            } else {
                old(self).v
            }),
            *final(self) == (Ppu { v: final(self).v, ..*old(self) }),
    {
        if !self.is_rendering_enabled() {
            return ;
        }
        proof {
            lemma_v_ops_in_range(self.v, self.t, self.ctrl);
        }
        self.v = (self.v & !0x7BE0) | (self.t & 0x7BE0);
    }

    fn increment_vram_addr(&mut self)
        requires
            old(self).wf(),
        ensures
            final(self).wf(),
            final(self).v == spec_inc_vram(old(self).v, old(self).ctrl),
            *final(self) == (Ppu { v: final(self).v, ..*old(self) }),
    {
        proof {
            lemma_v_ops_in_range(self.v, self.t, self.ctrl);
        }
        let increment: u16 = if (self.ctrl & 0x04) != 0 { 32 } else { 1 };
        self.v = (self.v + increment) & 0x7FFF;
    }

    // ------------------------------------------------------------------
    // memory mapping and access
    // ------------------------------------------------------------------

    /// The 2 KiB VRAM index a nametable address mirrors to under the
    /// cartridge's mirroring mode. Four-screen layouts without extra
    /// cartridge VRAM fall back to a 2 KiB wrap.
    pub open spec fn spec_map_vram(self, addr: u16) -> int {
        let a = addr & 0x3FFFu16;
        let a2 = if a >= 0x3000u16 {
            (a - 0x1000u16) as u16
        } else {
            a
        };
        let nt = (a2 >> 10u16) & 0x3u16;
        let off = a2 & 0x3FFu16;
        let table: u16 = match self.rom.header.mirroring {
            Mirroring::Horizontal => if nt < 2u16 {
                0u16
            } else {
                1u16
            },
            Mirroring::Vertical => nt & 0x1u16,
            Mirroring::SingleScreen => 0u16,
            Mirroring::FourScreen => nt,
        };
        (((table << 10u16) | off) & 0x7FFu16) as int
    }

    pub fn map_vram_addr(&self, addr: u16) -> (r: u16)
        requires
            self.wf(),
        ensures
            r == self.spec_map_vram(addr),
            r < 0x800,
    {
        let a = addr & 0x3FFF;
        let a2 = if a >= 0x3000 { a - 0x1000 } else { a };
        let nt = (a2 >> 10u16) & 0x3;
        let off = a2 & 0x3FF;
        let table: u16 = match self.rom.header.mirroring {
            Mirroring::Horizontal => if nt < 2 { 0 } else { 1 },
            Mirroring::Vertical => nt & 0x1,
            Mirroring::SingleScreen => 0,
            Mirroring::FourScreen => nt,
        };
        let r = ((table << 10u16) | off) & 0x7FF;
        proof {
            let rr = r;
            assert((rr & 0x7FFu16) < 0x800u16 && ((rr & 0x7FFu16) == rr || true)) by (bit_vector);
            assert(r < 0x800) by (bit_vector)
                requires
                    r == ((table << 10u16) | off) & 0x7FFu16,
            ;
        }
        r
    }

    /// What a PPU-space read yields: pattern space through the mapper,
    /// nametables through mirrored VRAM, 0x3F00-0x3FFF from the palette
    /// file, and anything above from open bus (the address is first
    /// masked to 14 bits, so that case cannot arise).
    pub open spec fn spec_read(self, addr: u16) -> u8 {
        let m = addr & 0x3FFFu16;
        if m < 0x2000u16 {
            self.rom.mapper.spec_read(m)
        } else if m < 0x3F00u16 {
            self.vram.data@[self.spec_map_vram(m)]
        } else {
            self.palette@[(m - 0x3F00u16) % 0x20]
        }
    }

    pub fn read(&self, addr: u16) -> (b: u8)
        requires
            self.wf(),
        ensures
            b == self.spec_read(addr),
    {
        let m_addr = addr & 0x3FFF;
        proof {
            lemma_masked_ppu_addr(addr);
        }
        if m_addr < 0x2000 {
            self.rom.mapper.read(m_addr)
        } else if m_addr < 0x3F00 {
            let v_addr = self.map_vram_addr(m_addr);
            self.vram.read(v_addr)
        } else {
            let p = (m_addr - 0x3F00) % 0x20;
            self.palette[p as usize]
        }
    }

    /// How a PPU-space write changes memory: pattern space goes to the
    /// mapper, nametable space to mirrored VRAM, and palette space to the
    /// palette file with the background-color mirror of every fourth
    /// entry; open bus takes the written value.
    pub open spec fn spec_palette_after_write(p: Seq<u8>, m: u16, data: u8) -> Seq<u8> {
        let idx = ((((m - 0x3F00u16) as u16) % 0x20u16) as u16);
        let q = p.update(idx as int, data);
        if idx % 4u16 == 0u16 {
            q.update((idx ^ 0x10u16) as int, data)
        } else {
            q
        }
    }

    /// Relates PPU states across a write to PPU memory space, leaving v
    /// unconstrained so that the data-port write can add its increment.
    pub open spec fn write_mem_effect(pre: Ppu, post: Ppu, addr: u16, data: u8) -> bool {
        let m = addr & 0x3FFFu16;
        &&& post.open_bus == data
        &&& (m < 0x2000u16 ==> mapper_write_rel(pre.rom.mapper, post.rom.mapper, m, data)
            && post.vram.data@ == pre.vram.data@ && post.palette@ == pre.palette@)
        &&& (0x2000u16 <= m && m < 0x3F00u16 ==> post.vram.data@ == pre.vram.data@.update(
            pre.spec_map_vram(m),
            data,
        ) && post.palette@ == pre.palette@ && post.rom == pre.rom)
        &&& (0x3F00u16 <= m ==> post.palette@ == Ppu::spec_palette_after_write(
            pre.palette@,
            m,
            data,
        ) && post.vram.data@ == pre.vram.data@ && post.rom == pre.rom)
        &&& post.rom.header == pre.rom.header
        &&& Ppu::eq_sprites(pre, post)
        &&& Ppu::eq_frame(pre, post)
        &&& Ppu::eq_pos(pre, post)
        &&& post.pipe() == pre.pipe()
        &&& post.ctrl == pre.ctrl && post.mask == pre.mask && post.status == pre.status
            && post.oamaddr == pre.oamaddr && post.vram_buffer == pre.vram_buffer
        &&& post.t == pre.t && post.x == pre.x && post.w == pre.w
        &&& post.trigger_nmi == pre.trigger_nmi
    }

    pub fn write(&mut self, addr: u16, data: u8)
        requires
            old(self).wf(),
        ensures
            final(self).wf(),
            Ppu::write_mem_effect(*old(self), *final(self), addr, data),
            final(self).v == old(self).v,
    {
        let m_addr = addr & 0x3FFF;
        proof {
            lemma_masked_ppu_addr(addr);
        }
        self.open_bus = data;
        if m_addr < 0x2000 {
            self.rom.mapper.write(m_addr, data);
        } else if m_addr < 0x3F00 {
            let mirr_addr = self.map_vram_addr(m_addr);
            self.vram.write(mirr_addr, data);
        } else {
            let p: u16 = (m_addr - 0x3F00) % 0x20;
            self.palette[p as usize] = data;
            if p % 4 == 0 {
                let q: u16 = p ^ 0x10;
                proof {
                    assert((p ^ 0x10u16) < 0x20u16) by (bit_vector)
                        requires
                            p < 0x20u16,
                    ;
                }
                self.palette[q as usize] = data;
            }
        }
    }

    // ------------------------------------------------------------------
    // register file I/O ($2000-$2007 behavior)
    // ------------------------------------------------------------------

    /// $2002 read: the upper three bits come from the status register,
    /// the lower five from the open bus; VBlank is cleared, the write
    /// toggle reset, and the upper open-bus bits refreshed.
    pub fn read_status(&mut self) -> (r: u8)
        requires
            old(self).wf(),
        ensures
            final(self).wf(),
            r == ((old(self).status & 0xE0u8) | (old(self).open_bus & 0x1Fu8)),
            final(self).status == (old(self).status & 0x7Fu8),
            !final(self).w,
            final(self).open_bus == ((old(self).status & 0xE0u8) | (old(self).open_bus & 0x1Fu8)),
            Ppu::eq_core(*old(self), *final(self)),
            final(self).ctrl == old(self).ctrl && final(self).mask == old(self).mask && final(self).oamaddr == old(self).oamaddr && final(self).vram_buffer == old(self).vram_buffer,
            final(self).v == old(self).v && final(self).t == old(self).t && final(self).x == old(self).x,
            final(self).trigger_nmi == old(self).trigger_nmi,
    {
        let data = (self.status & 0xE0) | (self.open_bus & 0x1F);
        self.status = self.status & 0x7F;
        self.w = false;
        self.open_bus = data;
        data
    }

    /// $2004 read: OAM data, simplified to a constant 0xFF.
    pub fn read_oam(&self) -> (r: u8)
        ensures
            r == 0xFFu8,
    {
        0xFF
    }

    /// $2007 read: palette addresses read through directly; others return
    /// the delayed buffer and refill it. v steps by 1 or 32.
    pub fn read_data(&mut self) -> (r: u8)
        requires
            old(self).wf(),
        ensures
            final(self).wf(),
            r == (if (old(self).v & 0x3FFFu16) >= 0x3F00u16 {
                old(self).spec_read(old(self).v)
            } else {
                old(self).vram_buffer
            }),
            final(self).vram_buffer == (if (old(self).v & 0x3FFFu16) >= 0x3F00u16 {
                old(self).vram_buffer
            } else {
                old(self).spec_read(old(self).v)
            }),
            final(self).v == spec_inc_vram(old(self).v, old(self).ctrl),
            Ppu::eq_core(*old(self), *final(self)),
            final(self).ctrl == old(self).ctrl && final(self).mask == old(self).mask && final(self).status == old(self).status && final(self).oamaddr == old(self).oamaddr && final(self).open_bus == old(self).open_bus,
            final(self).t == old(self).t && final(self).x == old(self).x && final(self).w == old(self).w,
            final(self).trigger_nmi == old(self).trigger_nmi,
    {
        let data = if (self.v & 0x3FFF) >= 0x3F00 {
            self.read(self.v)
        } else {
            let previous_buffer = self.vram_buffer;
            self.vram_buffer = self.read(self.v);
            previous_buffer
        };
        self.increment_vram_addr();
        data
    }

    /// $2000 write: stores ctrl, loads nametable bits 10-11 of t, and
    /// raises NMI when bit 7 turns on while VBlank is already set.
    pub fn write_ctrl(&mut self, data: u8)
        requires
            old(self).wf(),
        ensures
            final(self).wf(),
            final(self).ctrl == data,
            final(self).t == ((old(self).t & 0xF3FFu16) | (((data & 0x3u8) as u16) << 10u16)),
            final(self).trigger_nmi == (old(self).trigger_nmi || ((old(self).ctrl & 0x80u8) == 0u8
                && (data & 0x80u8) != 0u8 && (old(self).status & 0x80u8) != 0u8)),
            Ppu::eq_core(*old(self), *final(self)),
            final(self).mask == old(self).mask && final(self).status == old(self).status && final(self).oamaddr == old(self).oamaddr && final(self).vram_buffer == old(self).vram_buffer
                && final(self).open_bus == old(self).open_bus,
            final(self).v == old(self).v && final(self).x == old(self).x && final(self).w == old(self).w,
    {
        let old_ctrl = self.ctrl;
        self.ctrl = data;
        if old_ctrl & 0x80 == 0 && data & 0x80 != 0 && self.status & 0x80 != 0 {
            self.trigger_nmi = true;
        }
        proof {
            let t0 = old(self).t;
            assert(t0 < 0x8000u16 ==> ((t0 & 0xF3FFu16) | (((data & 0x3u8) as u16) << 10u16))
                < 0x8000u16) by (bit_vector);
        }
        self.t = (self.t & 0xF3FF) | (((data & 0x3) as u16) << 10u16);
    }

    /// $2001 write: stores the mask register.
    pub fn write_mask(&mut self, data: u8)
        requires
            old(self).wf(),
        ensures
            final(self).wf(),
            final(self).mask == data,
            *final(self) == (Ppu { mask: data, ..*old(self) }),
    {
        self.mask = data;
    }

    /// $2003 write: sets the OAM address.
    pub fn write_oamaddr(&mut self, data: u8)
        requires
            old(self).wf(),
        ensures
            final(self).wf(),
            *final(self) == (Ppu { oamaddr: data, ..*old(self) }),
    {
        self.oamaddr = data;
    }

    /// The sprite record with one of its four bytes replaced, by the low
    /// two bits of the OAM address.
    pub open spec fn spec_sprite_with_byte(s: Sprite, off: int, data: u8) -> Sprite {
        if off == 0 {
            Sprite { y: data, ..s }
        } else if off == 1 {
            Sprite { tile: data, ..s }
        } else if off == 2 {
            Sprite { attr: data, ..s }
        } else {
            Sprite { x: data, ..s }
        }
    }

    /// OAM after a data write at `oamaddr`: byte `oamaddr` of the 256-byte
    /// table, i.e. field `oamaddr % 4` of sprite `oamaddr / 4`.
    pub open spec fn spec_oam_after_write(oam: Seq<Sprite>, oamaddr: u8, data: u8) -> Seq<Sprite> {
        oam.update(
            oamaddr as int / 4,
            Ppu::spec_sprite_with_byte(oam[oamaddr as int / 4], oamaddr as int % 4, data),
        )
    }

    /// $2004 write: stores one OAM byte and advances the OAM address.
    pub fn write_oamdata(&mut self, data: u8)
        requires
            old(self).wf(),
        ensures
            final(self).wf(),
            final(self).oam@ == Ppu::spec_oam_after_write(old(self).oam@, old(self).oamaddr, data),
            final(self).oamaddr == old(self).oamaddr.wrapping_add(1),
            final(self).secondary_oam@ == old(self).secondary_oam@,
            final(self).sprite_cache@ == old(self).sprite_cache@,
            Ppu::eq_video_mem(*old(self), *final(self)),
            Ppu::eq_frame(*old(self), *final(self)),
            Ppu::eq_pos(*old(self), *final(self)),
            final(self).pipe() == old(self).pipe(),
            final(self).rom == old(self).rom,
            final(self).ctrl == old(self).ctrl && final(self).mask == old(self).mask && final(self).status == old(self).status && final(self).vram_buffer == old(self).vram_buffer
                && final(self).open_bus == old(self).open_bus,
            Ppu::eq_scroll(*old(self), *final(self)),
            final(self).trigger_nmi == old(self).trigger_nmi,
    {
        let sprite_index = (self.oamaddr as usize) / 4;
        let byte_offset = (self.oamaddr as usize) % 4;
        let mut s = self.oam[sprite_index];
        if byte_offset == 0 {
            s.y = data;
        } else if byte_offset == 1 {
            s.tile = data;
        } else if byte_offset == 2 {
            s.attr = data;
        } else {
            s.x = data;
        }
        self.oam[sprite_index] = s;
        self.oamaddr = self.oamaddr.wrapping_add(1);
    }

    /// $2005 write: the first write sets fine X and coarse X of t, the
    /// second fine Y and coarse Y; the toggle w alternates.
    pub fn write_scroll(&mut self, data: u8)
        requires
            old(self).wf(),
        ensures
            final(self).wf(),
            !old(self).w ==> final(self).x == (data & 0x07u8) && final(self).t == ((old(self).t
                & 0xFFE0u16) | ((data >> 3u8) as u16)),
            old(self).w ==> final(self).x == old(self).x && final(self).t == ((old(self).t
                & 0x8C1Fu16) | ((((data & 0xF8u8) as u16)) << 2u16) | ((((data & 0x07u8) as u16))
                << 12u16)),
            final(self).w == !old(self).w,
            final(self).v == old(self).v,
            Ppu::eq_core(*old(self), *final(self)),
            final(self).ctrl == old(self).ctrl && final(self).mask == old(self).mask && final(self).status == old(self).status && final(self).oamaddr == old(self).oamaddr && final(self).vram_buffer == old(self).vram_buffer && final(self).open_bus == old(self).open_bus,
            final(self).trigger_nmi == old(self).trigger_nmi,
    {
        proof {
            let t0 = old(self).t;
            assert(t0 < 0x8000u16 ==> ((t0 & 0xFFE0u16) | ((data >> 3u8) as u16)) < 0x8000u16)
                by (bit_vector);
            assert(t0 < 0x8000u16 ==> ((t0 & 0x8C1Fu16) | ((((data & 0xF8u8) as u16)) << 2u16) | ((
            ((data & 0x07u8) as u16)) << 12u16)) < 0x8000u16) by (bit_vector);
            assert((data & 0x07u8) < 8u8) by (bit_vector);
        }
        if !self.w {
            self.x = data & 0x07;
            self.t = (self.t & 0xFFE0) | ((data >> 3u8) as u16);
        } else {
            self.t = (self.t & 0x8C1F) | (((data & 0xF8) as u16) << 2u16) | (((data & 0x07) as u16)
                << 12u16);
        }
        self.w = !self.w;
    }

    /// $2006 write: the first write loads the high six address bits into
    /// t (top bit forced clear), the second the low byte, copying t to v.
    pub fn write_addr(&mut self, data: u8)
        requires
            old(self).wf(),
        ensures
            final(self).wf(),
            !old(self).w ==> final(self).t == ((old(self).t & 0x00FFu16) | (((data & 0x3Fu8) as u16)
                << 8u16)) && final(self).v == old(self).v,
            old(self).w ==> final(self).t == ((old(self).t & 0xFF00u16) | (data as u16)) && final(self).v == final(self).t,
            final(self).w == !old(self).w,
            final(self).x == old(self).x,
            Ppu::eq_core(*old(self), *final(self)),
            final(self).ctrl == old(self).ctrl && final(self).mask == old(self).mask && final(self).status == old(self).status && final(self).oamaddr == old(self).oamaddr && final(self).vram_buffer == old(self).vram_buffer && final(self).open_bus == old(self).open_bus,
            final(self).trigger_nmi == old(self).trigger_nmi,
    {
        proof {
            let t0 = old(self).t;
            assert(((t0 & 0x00FFu16) | (((data & 0x3Fu8) as u16) << 8u16)) < 0x8000u16)
                by (bit_vector);
            assert(t0 < 0x8000u16 ==> ((t0 & 0xFF00u16) | (data as u16)) < 0x8000u16)
                by (bit_vector);
        }
        if !self.w {
            self.t = (self.t & 0x00FF) | (((data & 0x3F) as u16) << 8u16);
        } else {
            self.t = (self.t & 0xFF00) | (data as u16);
            self.v = self.t;
        }
        self.w = !self.w;
    }

    /// $2007 write: stores through v into PPU memory, then advances v.
    pub fn write_data(&mut self, data: u8)
        requires
            old(self).wf(),
        ensures
            final(self).wf(),
            Ppu::write_mem_effect(*old(self), *final(self), old(self).v, data),
            final(self).v == spec_inc_vram(old(self).v, old(self).ctrl),
    {
        let v = self.v;
        self.write(v, data);
        self.increment_vram_addr();
    }
}

// ----------------------------------------------------------------------
// background fetch pipeline and sprite machinery
// ----------------------------------------------------------------------

impl Ppu {
    /// Nametable fetch address: 0x2000 plus the 12 low bits of v.
    pub fn nt_addr(&self) -> (r: u16)
        ensures
            r == (0x2000u16 | (self.v & 0xFFFu16)),
    {
        0x2000 | (self.v & 0xFFF)
    }

    /// Attribute fetch address for the tile v points at.
    pub fn at_addr(&self) -> (r: u16)
        ensures
            r == (0x23C0u16 | (self.v & 0x0C00u16) | ((self.v >> 4u16) & 0x38u16) | ((self.v
                >> 2u16) & 0x07u16)),
    {
        0x23C0 | (self.v & 0x0C00) | ((self.v >> 4u16) & 0x38) | ((self.v >> 2u16) & 0x07)
    }

    /// Low pattern byte address for the fetched nametable byte at the
    /// current fine Y.
    pub open spec fn spec_pt_addr(self) -> u16 {
        (((if (self.ctrl & 0x10u8) != 0u8 {
            0x1000u16
        } else {
            0u16
        }) + (self.nt_byte as u16) * 16u16 + ((self.v >> 12u16) & 7u16)) as u16)
    }

    pub fn pt_addr(&self) -> (r: u16)
        ensures
            r == self.spec_pt_addr(),
            r < 0x2000,
    {
        let base = self.bg_pattern_table_address();
        let fy = self.fine_y();
        base + (self.nt_byte as u16) * 16 + fy
    }

    /// One shift of the four background shifters, feeding the attribute
    /// latches into the low bits.
    pub open spec fn spec_shift(p: PipeState) -> PipeState {
        PipeState {
            at_shifter_lo: ((p.at_shifter_lo << 1u8) | p.at_latch_lo) as u8,
            at_shifter_hi: ((p.at_shifter_hi << 1u8) | p.at_latch_hi) as u8,
            pt_shifter_lo: (p.pt_shifter_lo << 1u16) as u16,
            pt_shifter_hi: (p.pt_shifter_hi << 1u16) as u16,
            ..p
        }
    }

    pub fn shift(&mut self)
        requires
            old(self).wf(),
        ensures
            final(self).wf(),
            final(self).pipe() == Ppu::spec_shift(old(self).pipe()),
            *final(self) == (Ppu {
                at_shifter_lo: final(self).at_shifter_lo,
                at_shifter_hi: final(self).at_shifter_hi,
                pt_shifter_lo: final(self).pt_shifter_lo,
                pt_shifter_hi: final(self).pt_shifter_hi,
                ..*old(self)
            }),
    {
        self.at_shifter_lo = (self.at_shifter_lo << 1u8) | self.at_latch_lo;
        self.at_shifter_hi = (self.at_shifter_hi << 1u8) | self.at_latch_hi;
        self.pt_shifter_lo = self.pt_shifter_lo << 1u16;
        self.pt_shifter_hi = self.pt_shifter_hi << 1u16;
    }

    /// Reload: the pattern latches drop into the low shifter bytes and
    /// the attribute latches take the quadrant bits of the fetched
    /// attribute byte.
    pub open spec fn spec_reload(p: PipeState) -> PipeState {
        PipeState {
            pt_shifter_lo: ((p.pt_shifter_lo & 0xFF00u16) | (p.pt_latch_lo as u16)) as u16,
            pt_shifter_hi: ((p.pt_shifter_hi & 0xFF00u16) | (p.pt_latch_hi as u16)) as u16,
            at_latch_lo: (p.at_byte & 1u8) as u8,
            at_latch_hi: ((p.at_byte >> 1u8) & 1u8) as u8,
            ..p
        }
    }

    pub fn reload_shifters(&mut self)
        requires
            old(self).wf(),
        ensures
            final(self).wf(),
            final(self).pipe() == Ppu::spec_reload(old(self).pipe()),
            *final(self) == (Ppu {
                pt_shifter_lo: final(self).pt_shifter_lo,
                pt_shifter_hi: final(self).pt_shifter_hi,
                at_latch_lo: final(self).at_latch_lo,
                at_latch_hi: final(self).at_latch_hi,
                ..*old(self)
            }),
    {
        self.pt_shifter_lo = (self.pt_shifter_lo & 0xFF00) | (self.pt_latch_lo as u16);
        self.pt_shifter_hi = (self.pt_shifter_hi & 0xFF00) | (self.pt_latch_hi as u16);
        self.at_latch_lo = self.at_byte & 1;
        self.at_latch_hi = (self.at_byte >> 1u8) & 1;
    }

    /// Dot 1: mark all eight secondary OAM slots empty.
    pub fn clear_oam(&mut self)
        requires
            old(self).wf(),
        ensures
            final(self).wf(),
            final(self).secondary_oam@ == Seq::new(8, |i: int| Sprite::spec_empty()),
            *final(self) == (Ppu { secondary_oam: final(self).secondary_oam, ..*old(self) }),
    {
        let mut i: usize = 0;
        while i < 8
            invariant
                old(self).wf(),
                i <= 8,
                self.secondary_oam@.len() == 8,
                forall|j: int| 0 <= j < i ==> self.secondary_oam@[j] == Sprite::spec_empty(),
                *self == (Ppu { secondary_oam: self.secondary_oam, ..*old(self) }),
            decreases 8 - i,
        {
            self.secondary_oam[i] = Sprite::new();
            i += 1;
        }
        proof {
            assert(self.secondary_oam@ =~= Seq::new(8, |i: int| Sprite::spec_empty()));
        }
    }
}

// ----------------------------------------------------------------------
// sprite evaluation: the first up to eight sprites covering the line
// ----------------------------------------------------------------------

/// Whether a sprite's vertical range covers the line evaluation targets:
/// the scanline itself, or the line above when evaluating during
/// pre-render.
pub open spec fn spec_sprite_in_range(s: Sprite, scanline: int, height: int) -> bool {
    let line = (if scanline == 261 {
        -1int
    } else {
        scanline
    }) - s.y;
    0 <= line < height
}

/// The OAM indices of the sprites among the first `n` whose range covers
/// the line, in ascending order.
pub open spec fn spec_selected(oam: Seq<Sprite>, scanline: int, height: int, n: int) -> Seq<int>
    decreases n,
{
    if n <= 0 {
        Seq::empty()
    } else {
        let prev = spec_selected(oam, scanline, height, n - 1);
        if spec_sprite_in_range(oam[n - 1], scanline, height) {
            prev.push(n - 1)
        } else {
            prev
        }
    }
}

impl Ppu {
    /// The record placed in a secondary OAM slot for a selected sprite:
    /// its OAM index plus its four OAM bytes; the pattern bytes are
    /// filled later by the dot-321 fetch.
    pub open spec fn spec_selected_entry(self, slot: int, oam_index: int) -> Sprite {
        Sprite {
            id: oam_index as u8,
            y: self.oam@[oam_index].y,
            tile: self.oam@[oam_index].tile,
            attr: self.oam@[oam_index].attr,
            x: self.oam@[oam_index].x,
            pt_lo: self.secondary_oam@[slot].pt_lo,
            pt_hi: self.secondary_oam@[slot].pt_hi,
        }
    }

    /// Dot 257: scan OAM top to bottom for sprites covering the next
    /// line, keeping the first eight in order; finding a ninth sets the
    /// sprite-overflow status bit.
    pub fn eval_sprites(&mut self)
        requires
            old(self).wf(),
        ensures
            final(self).wf(),
            ({
                let sel = spec_selected(
                    old(self).oam@,
                    old(self).scanline as int,
                    old(self).spec_sprite_height() as int,
                    64,
                );
                &&& final(self).status == (if sel.len() > 8 {
                    old(self).status | 0x20u8
                } else {
                    old(self).status
                })
                &&& forall|k: int|
                    0 <= k < sel.len() && k < 8 ==> final(self).secondary_oam@[k] == old(self).spec_selected_entry(k, sel[k])
                &&& forall|k: int|
                    sel.len() <= k < 8 ==> final(self).secondary_oam@[k] == old(self).secondary_oam@[k]
            }),
            *final(self) == (Ppu {
                status: final(self).status,
                secondary_oam: final(self).secondary_oam,
                ..*old(self)
            }),
    {
        let ghost sc = self.scanline as int;
        let ghost h = self.spec_sprite_height() as int;
        let spr_height = self.sprite_height() as i16;
        let mut n: usize = 0;
        let mut i: usize = 0;
        while i < 64
            invariant
                old(self).wf(),
                self.wf(),
                i <= 64,
                n <= 8,
                sc == old(self).scanline as int,
                h == old(self).spec_sprite_height() as int,
                spr_height == h,
                ({
                    let sel = spec_selected(old(self).oam@, sc, h, i as int);
                    &&& n == (if sel.len() < 8 {
                        sel.len() as int
                    } else {
                        8int
                    })
                    &&& self.status == (if sel.len() > 8 {
                        old(self).status | 0x20u8
                    } else {
                        old(self).status
                    })
                    &&& forall|k: int|
                        0 <= k < n ==> self.secondary_oam@[k] == old(self).spec_selected_entry(
                            k,
                            sel[k],
                        )
                    &&& forall|k: int|
                        n <= k < 8 ==> self.secondary_oam@[k] == old(self).secondary_oam@[k]
                }),
                *self == (Ppu {
                    status: self.status,
                    secondary_oam: self.secondary_oam,
                    ..*old(self)
                }),
            decreases 64 - i,
        {
            let line: i16 = (if self.scanline == 261 {
                -1
            } else {
                self.scanline as i16
            }) - (self.oam[i].y as i16);
            if line >= 0 && line < spr_height {
                if n < 8 {
                    let src = self.oam[i];
                    let mut s = self.secondary_oam[n];
                    s.id = i as u8;
                    s.y = src.y;
                    s.tile = src.tile;
                    s.attr = src.attr;
                    s.x = src.x;
                    self.secondary_oam[n] = s;
                    n += 1;
                } else {
                    self.status = self.status | 0x20;
                    proof {
                        let s0 = old(self).status;
                        assert((s0 | 0x20u8) | 0x20u8 == s0 | 0x20u8) by (bit_vector);
                    }
                }
            }
            proof {
                let oam0 = old(self).oam@;
                assert(spec_selected(oam0, sc, h, i as int + 1) == (if spec_sprite_in_range(
                    oam0[i as int],
                    sc,
                    h,
                ) {
                    spec_selected(oam0, sc, h, i as int).push(i as int)
                } else {
                    spec_selected(oam0, sc, h, i as int)
                }));
            }
            i += 1;
        }
    }
}


// ----------------------------------------------------------------------
// sprite pattern fetch and pixel composition
// ----------------------------------------------------------------------

impl Ppu {
    /// The pattern-memory address of a cached sprite's row for the
    /// current scanline, honoring 8/16-pixel height, the bank bit of
    /// 16-pixel tiles, and vertical flip.
    pub open spec fn spec_sprite_line_addr(self, s: Sprite) -> u16 {
        let h = self.spec_sprite_height() as usize;
        let base: u16 = if h == 16 {
            ((((s.tile & 1u8) as u16) * 0x1000u16 + ((s.tile & 0xFEu8) as u16) * 16u16) as u16)
        } else {
            (((if (self.ctrl & 0x8u8) != 0u8 {
                0x1000u16
            } else {
                0u16
            }) + (s.tile as u16) * 16u16) as u16)
        };
        let sy0 = self.scanline.wrapping_sub(s.y as usize) % h;
        let sy = if (s.attr & 0x80u8) != 0u8 {
            sy0 ^ (h - 1) as usize
        } else {
            sy0
        };
        ((base + sy + (sy & 8usize)) as u16)
    }

    /// Dot 321: copy secondary OAM into the sprite cache and fetch each
    /// sprite's two pattern bytes for this scanline.
    pub fn load_sprites(&mut self)
        requires
            old(self).wf(),
        ensures
            final(self).wf(),
            forall|i: int|
                0 <= i < 8 ==> final(self).sprite_cache@[i] == (Sprite {
                    pt_lo: old(self).spec_read(
                        old(self).spec_sprite_line_addr(old(self).secondary_oam@[i]),
                    ),
                    pt_hi: old(self).spec_read(
                        (old(self).spec_sprite_line_addr(old(self).secondary_oam@[i])
                            + 8u16) as u16,
                    ),
                    ..old(self).secondary_oam@[i]
                }),
            *final(self) == (Ppu { sprite_cache: final(self).sprite_cache, ..*old(self) }),
    {
        let mut i: usize = 0;
        while i < 8
            invariant
                old(self).wf(),
                self.wf(),
                i <= 8,
                forall|j: int|
                    0 <= j < i ==> self.sprite_cache@[j] == (Sprite {
                        pt_lo: old(self).spec_read(
                            old(self).spec_sprite_line_addr(old(self).secondary_oam@[j]),
                        ),
                        pt_hi: old(self).spec_read(
                            (old(self).spec_sprite_line_addr(old(self).secondary_oam@[j])
                                + 8u16) as u16,
                        ),
                        ..old(self).secondary_oam@[j]
                    }),
                *self == (Ppu { sprite_cache: self.sprite_cache, ..*old(self) }),
            decreases 8 - i,
        {
            let mut s = self.secondary_oam[i];
            let sprite_height = self.sprite_height() as usize;
            proof {
                let t = self.secondary_oam@[i as int].tile;
                assert((t & 1u8) <= 1u8 && (t & 0xFEu8) <= 0xFEu8) by (bit_vector);
            }
            let base: u16 = if sprite_height == 16 {
                ((s.tile & 1) as u16) * 0x1000 + ((s.tile & 0xFE) as u16) * 16
            } else {
                self.sprite_pattern_table_address() + (s.tile as u16) * 16
            };
            let sy0: usize = self.scanline.wrapping_sub(s.y as usize) % sprite_height;
            let sy: usize = if s.attr & 0x80 != 0 {
                sy0 ^ (sprite_height - 1)
            } else {
                sy0
            };
            proof {
                let a = sy0;
                let b = sprite_height;
                assert(a < 16 && (b == 8 || b == 16) ==> (a ^ (b - 1) as usize) < 16usize)
                    by (bit_vector);
                assert((sy & 8usize) <= 8) by (bit_vector)
                    requires
                        sy < 16usize,
                ;
            }
            let addr: u16 = base + (sy as u16) + ((sy & 8) as u16);
            s.pt_lo = self.read(addr);
            s.pt_hi = self.read(addr + 8);
            self.sprite_cache[i] = s;
            i += 1;
        }
    }
}


/// Two one-bit values packed as a two-bit number are at most 3.
pub proof fn lemma_two_bits(hi: u16, lo: u16)
    by (bit_vector)
    requires
        hi <= 1u16,
        lo <= 1u16,
    ensures
        ((hi << 1u16) | lo) <= 3u16,
        (((hi << 1u16) as u8) | (lo as u8)) <= 3u8,
{
}

impl Ppu {
    /// The background palette index for screen column `x`: two pattern
    /// bits at the fine-X tap of the shifters, with the attribute bits
    /// above when the pattern is opaque; 0 when background rendering or
    /// the leftmost column is masked off.
    pub open spec fn spec_bg_palette(self, x: int) -> u8 {
        if (self.mask & 0x08u8) != 0u8 && (x >= 8 || (self.mask & 0x02u8) != 0u8) {
            let fx = self.x & 0x7u8;
            let p = (((spec_nth_bit(self.pt_shifter_hi, (15 - fx) as u8) << 1u16) as u8) | (
            spec_nth_bit(self.pt_shifter_lo, (15 - fx) as u8) as u8)) as u8;
            if p != 0u8 {
                (p | (((((spec_nth_bit(self.at_shifter_hi as u16, (7 - fx) as u8) << 1u16) as u8)
                    | (spec_nth_bit(self.at_shifter_lo as u16, (7 - fx) as u8) as u8)) as u8)
                    << 2u8) as u8) as u8
            } else {
                p
            }
        } else {
            0u8
        }
    }

    /// A cached sprite's two pattern bits at screen column `x`, honoring
    /// horizontal flip.
    pub open spec fn spec_obj_pal2(self, i: int, x: int) -> u8 {
        let s = self.sprite_cache@[i];
        let sx0 = x - s.x;
        let sx = if (s.attr & 0x40u8) != 0u8 {
            7 - sx0
        } else {
            sx0
        };
        ((spec_nth_bit(s.pt_hi as u16, (7 - sx) as u8) << 1u16) | spec_nth_bit(
            s.pt_lo as u16,
            (7 - sx) as u8,
        )) as u8
    }

    /// Whether cached sprite `i` produces an opaque pixel at column `x`.
    pub open spec fn spec_obj_active(self, i: int, x: int) -> bool {
        let s = self.sprite_cache@[i];
        &&& s.id != 64u8
        &&& 0 <= x - s.x < 8
        &&& self.spec_obj_pal2(i, x) != 0u8
    }

    /// The cache slot whose sprite wins column `x`: the lowest active
    /// slot at or above `i`, or 8 when none is.
    pub open spec fn spec_obj_winner(self, x: int, i: int) -> int
        decreases 8 - i,
    {
        if i >= 8 {
            8int
        } else if self.spec_obj_active(i, x) {
            i
        } else {
            self.spec_obj_winner(x, i + 1)
        }
    }

    /// The winner scan never leaves the slot range.
    pub proof fn lemma_winner_bounds(self, x: int, i: int)
        requires
            0 <= i <= 8,
        ensures
            i <= self.spec_obj_winner(x, i) <= 8,
        decreases 8 - i,
    {
        if i < 8 && !self.spec_obj_active(i, x) {
            self.lemma_winner_bounds(x, i + 1);
        }
    }

    /// The full sprite palette index (16..31) the winning slot yields.
    pub open spec fn spec_obj_value(self, i: int, x: int) -> u8 {
        ((self.spec_obj_pal2(i, x) | (((self.sprite_cache@[i].attr & 0x03u8) as u8) << 2u8) as u8)
            + 16u8) as u8
    }

    /// Whether some cache slot at or above `i` holds sprite 0 with an
    /// opaque pixel at column `x`.
    pub open spec fn spec_s0_opaque_from(self, x: int, i: int) -> bool
        decreases 8 - i,
    {
        if i >= 8 {
            false
        } else {
            (self.sprite_cache@[i].id == 0u8 && self.spec_obj_active(i, x))
                || self.spec_s0_opaque_from(x, i + 1)
        }
    }

    /// Whether sprite rendering takes part in column `x` at all.
    pub open spec fn spec_sprites_on(self, x: int) -> bool {
        (self.mask & 0x10u8) != 0u8 && (x >= 8 || (self.mask & 0x04u8) != 0u8)
    }

    /// The sprite contribution at column `x`: palette index (0 when
    /// transparent) and the behind-background priority bit.
    pub open spec fn spec_obj_result(self, x: int) -> (u8, bool) {
        if self.spec_sprites_on(x) {
            let w = self.spec_obj_winner(x, 0);
            if w < 8 {
                (
                    self.spec_obj_value(w, x),
                    (self.sprite_cache@[w].attr & 0x20u8) != 0u8,
                )
            } else {
                (0u8, false)
            }
        } else {
            (0u8, false)
        }
    }

    /// The 32-entry palette index finally chosen for column `x`:
    /// the sprite wins over an opaque background only without the
    /// priority bit; everything is forced to the backdrop while
    /// rendering is disabled.
    pub open spec fn spec_pixel_index(self, x: int) -> u8 {
        if !self.spec_rendering_enabled() {
            0u8
        } else {
            let bg = self.spec_bg_palette(x);
            let (obj, prio) = self.spec_obj_result(x);
            if obj != 0u8 && (bg == 0u8 || !prio) {
                obj
            } else {
                bg
            }
        }
    }

    /// Whether the sprite-0-hit condition arises at column `x`.
    pub open spec fn spec_sprite0_hit(self, x: int) -> bool {
        &&& self.spec_sprites_on(x)
        &&& self.spec_bg_palette(x) != 0u8
        &&& x != 255
        &&& self.spec_s0_opaque_from(x, 0)
    }

    /// Scan the sprite cache for screen column `x`: the winning sprite's
    /// palette index and priority bit, and whether an opaque sprite-0
    /// pixel coincides with an opaque background pixel there.
    fn sprite_scan(&self, x: usize, bg_opaque: bool) -> (r: (u8, bool, bool))
        requires
            self.wf(),
            x < 256,
        ensures
            r.0 == self.spec_obj_result(x as int).0,
            r.1 == self.spec_obj_result(x as int).1,
            r.0 < 32,
            r.2 == (self.spec_sprites_on(x as int) && bg_opaque && x != 255
                && self.spec_s0_opaque_from(x as int, 0)),
    {
        let mut obj_palette: u8 = 0;
        let mut obj_priority = false;
        let mut s0_hit = false;
        if self.is_sprite_rendering_enabled() && (x >= 8
            || self.is_leftmost_sprite_rendering_enabled()) {
            proof {
                assert(self.spec_obj_winner(x as int, 8) == 8);
                assert(!self.spec_s0_opaque_from(x as int, 8));
            }
            let mut ii: usize = 8;
            while ii > 0
                invariant
                    self.wf(),
                    ii <= 8,
                    x < 256,
                    ({
                        let w = self.spec_obj_winner(x as int, ii as int);
                        &&& (w < 8 ==> obj_palette == self.spec_obj_value(w, x as int)
                            && obj_priority == ((self.sprite_cache@[w].attr & 0x20u8) != 0u8)
                            && obj_palette >= 16)
                        &&& (w == 8 ==> obj_palette == 0u8 && !obj_priority)
                    }),
                    obj_palette < 32u8,
                    s0_hit == (bg_opaque && x != 255 && self.spec_s0_opaque_from(
                        x as int,
                        ii as int,
                    )),
                decreases ii,
            {
                ii -= 1;
                let sc = self.sprite_cache[ii];
                if sc.id != 64 {
                    let sxu = sc.x as usize;
                    if x >= sxu && x - sxu < 8 {
                        let sprite_x = x - sxu;
                        let sxa: usize = if sc.attr & 0x40 != 0 {
                            proof {
                                let a = sprite_x;
                                assert(a < 8usize ==> (a ^ 7usize) == 7usize - a) by (bit_vector);
                            }
                            sprite_x ^ 7
                        } else {
                            sprite_x
                        };
                        let shi = nth_bit(sc.pt_hi as u16, (7 - sxa) as u8);
                        let slo = nth_bit(sc.pt_lo as u16, (7 - sxa) as u8);
                        proof {
                            lemma_two_bits(shi, slo);
                        }
                        let sp = ((shi << 1u16) | slo) as u8;
                        proof {
                            assert(sxa == (if (sc.attr & 0x40u8) != 0u8 {
                                7 - (x as int - sc.x)
                            } else {
                                x as int - sc.x
                            }));
                            assert(sp == self.spec_obj_pal2(ii as int, x as int));
                        }
                        if sp != 0 {
                            if sc.id == 0 && bg_opaque && x != 255 {
                                s0_hit = true;
                            }
                            proof {
                                let a0 = sp;
                                let at = sc.attr;
                                assert(a0 <= 3u8 ==> (a0 | ((((at & 0x03u8) as u8) << 2u8) as u8))
                                    <= 15u8) by (bit_vector);
                            }
                            obj_palette = (sp | ((sc.attr & 0x03) << 2u8)) + 16;
                            obj_priority = sc.attr & 0x20 != 0;
                        }
                    }
                }
                proof {
                    let xi = x as int;
                    let iii = ii as int;
                    assert(self.spec_obj_winner(xi, iii) == (if self.spec_obj_active(iii, xi) {
                        iii
                    } else {
                        self.spec_obj_winner(xi, iii + 1)
                    }));
                    assert(self.spec_s0_opaque_from(xi, iii) == ((self.sprite_cache@[iii].id
                        == 0u8 && self.spec_obj_active(iii, xi)) || self.spec_s0_opaque_from(
                        xi,
                        iii + 1,
                    )));
                }
            }
            proof {
                assert(self.spec_sprites_on(x as int));
                self.lemma_winner_bounds(x as int, 0);
                let w0 = self.spec_obj_winner(x as int, 0);
                assert(w0 < 8 ==> obj_palette == self.spec_obj_value(w0, x as int) && obj_priority
                    == ((self.sprite_cache@[w0].attr & 0x20u8) != 0u8));
                assert(w0 == 8 ==> obj_palette == 0u8 && !obj_priority);
                assert(obj_palette == self.spec_obj_result(x as int).0);
                assert(obj_priority == self.spec_obj_result(x as int).1);
            }
        } else {
            proof {
                assert(!self.spec_sprites_on(x as int));
                assert(obj_palette == self.spec_obj_result(x as int).0);
                assert(obj_priority == self.spec_obj_result(x as int).1);
            }
        }
        (obj_palette, obj_priority, s0_hit)
    }

    /// Dots 2-257 and 322-337: composite one pixel into the frame buffer
    /// on visible columns, then shift the background shifters once.
    #[verifier::rlimit(60)]
    pub fn load_pixel(&mut self)
        requires
            old(self).wf(),
        ensures
            final(self).wf(),
            old(self).cycle < 2 ==> *final(self) == *old(self),
            old(self).cycle >= 2 ==> {
                let x = old(self).cycle - 2int;
                &&& final(self).pipe() == Ppu::spec_shift(old(self).pipe())
                &&& *final(self) == (Ppu {
                    status: final(self).status,
                    frame_buffer: final(self).frame_buffer,
                    at_shifter_lo: final(self).at_shifter_lo,
                    at_shifter_hi: final(self).at_shifter_hi,
                    pt_shifter_lo: final(self).pt_shifter_lo,
                    pt_shifter_hi: final(self).pt_shifter_hi,
                    ..*old(self)
                })
                &&& (old(self).scanline < 240 && x < 256) ==> {
                    let idx = (old(self).scanline * 256 + x) * 3;
                    let color = (old(self).palette@[old(self).spec_pixel_index(x) as int]
                        & 0x3Fu8) as int;
                    &&& final(self).status == (if old(self).spec_sprite0_hit(x) {
                        old(self).status | 0x40u8
                    } else {
                        old(self).status
                    })
                    &&& final(self).frame_buffer@ == old(self).frame_buffer@.update(
                        idx,
                        spec_palette_rgb(color).0,
                    ).update(idx + 1, spec_palette_rgb(color).1).update(
                        idx + 2,
                        spec_palette_rgb(color).2,
                    )
                }
                &&& !(old(self).scanline < 240 && x < 256) ==> final(self).status == old(self).status && final(self).frame_buffer@ == old(self).frame_buffer@
            },
    {
        if self.cycle < 2 {
            return ;
        }
        let x = self.cycle - 2;

        if self.scanline < 240 && x < 256 {
            let mut palette: u8 = 0;
            if self.is_bg_rendering_enabled() && (x >= 8
                || self.is_leftmost_bg_rendering_enabled()) {
                let fine_x = self.x & 0x7;
                proof {
                    let x0 = self.x;
                    assert((x0 & 0x7u8) <= 7u8) by (bit_vector);
                }
                let hi_bit = nth_bit(self.pt_shifter_hi, 15 - fine_x);
                let lo_bit = nth_bit(self.pt_shifter_lo, 15 - fine_x);
                palette = ((hi_bit << 1u16) as u8) | (lo_bit as u8);
                proof {
                    lemma_two_bits(hi_bit, lo_bit);
                }
                if palette != 0 {
                    let ahi = nth_bit(self.at_shifter_hi as u16, 7 - fine_x);
                    let alo = nth_bit(self.at_shifter_lo as u16, 7 - fine_x);
                    proof {
                        lemma_two_bits(ahi, alo);
                        let p0 = palette;
                        let q0: u8 = (((ahi << 1u16) as u8) | (alo as u8)) as u8;
                        assert(p0 <= 3u8 && q0 <= 3u8 ==> (p0 | ((q0 << 2u8) as u8)) <= 15u8)
                            by (bit_vector);
                    }
                    palette = palette | ((((ahi << 1u16) as u8) | (alo as u8)) << 2u8);
                }
            }
            proof {
                assert(old(self).spec_bg_palette(x as int) == palette && palette <= 15u8);
            }
            let (obj_palette, obj_priority, s0_hit) = self.sprite_scan(x, palette != 0);
            if s0_hit {
                self.status = self.status | 0x40;
            }
            proof {
                assert(old(self).spec_sprites_on(x as int) == (((old(self).mask & 0x10u8) != 0u8)
                    && (x >= 8 || (old(self).mask & 0x04u8) != 0u8)));
                assert(old(self).spec_sprite0_hit(x as int) == (old(self).spec_sprites_on(x as int)
                    && old(self).spec_bg_palette(x as int) != 0u8 && x as int != 255 && old(self).spec_s0_opaque_from(x as int, 0)));
                assert(palette == old(self).spec_bg_palette(x as int));
                assert(s0_hit ==> old(self).spec_sprite0_hit(x as int));
                assert(old(self).spec_sprite0_hit(x as int) ==> s0_hit);
                assert(obj_palette == old(self).spec_obj_result(x as int).0);
                assert(obj_priority == old(self).spec_obj_result(x as int).1);
                assert(obj_palette < 32u8);
            }

            if obj_palette != 0 && (palette == 0 || !obj_priority) {
                palette = obj_palette;
            }
            if !self.is_rendering_enabled() {
                palette = 0;
            }
            proof {
                assert(palette == old(self).spec_pixel_index(x as int) && palette < 32u8);
            }

            let color = self.palette[palette as usize] & 0x3F;
            proof {
                let c0 = self.palette@[palette as int];
                assert((c0 & 0x3Fu8) < 64u8) by (bit_vector);
            }
            let idx = (self.scanline * 256 + x) * 3;
            let (cr, cg, cb) = palette_rgb(color);
            self.frame_buffer[idx] = cr;
            self.frame_buffer[idx + 1] = cg;
            self.frame_buffer[idx + 2] = cb;
        }

        self.shift();
    }
}


/// The next (scanline, cycle, odd_frame) position after one PPU dot:
/// the dot counter steps to 340 then wraps into the next scanline, the
/// pre-render line wraps into scanline 0 flipping frame parity, and an
/// odd rendered frame skips its first dot.
pub open spec fn spec_pos_step(sc: int, c: int, odd: bool, rend: bool) -> (int, int, bool) {
    if c < 340 {
        (sc, c + 1, odd)
    } else {
        let c2: int = if sc == 261 && odd && rend {
            1
        } else {
            0
        };
        if sc == 261 {
            (0, c2, !odd)
        } else {
            (sc + 1, c2, odd)
        }
    }
}

/// The position after `n` PPU dots.
pub open spec fn spec_pos_after(sc: int, c: int, odd: bool, rend: bool, n: nat) -> (
    int,
    int,
    bool,
)
    decreases n,
{
    if n == 0 {
        (sc, c, odd)
    } else {
        let p = spec_pos_after(sc, c, odd, rend, (n - 1) as nat);
        spec_pos_step(p.0, p.1, p.2, rend)
    }
}

/// Setting the sprite status bits never disturbs the VBlank bit, and the
/// pre-render clear wipes all three.
pub proof fn lemma_status_bits(st: u8)
    by (bit_vector)
    ensures
        ((st | 0x20u8) & 0x80u8) == (st & 0x80u8),
        ((st | 0x40u8) & 0x80u8) == (st & 0x80u8),
        (((st | 0x20u8) | 0x40u8) & 0x80u8) == (st & 0x80u8),
        (((st | 0x20u8) | 0x20u8) & 0x80u8) == (st & 0x80u8),
        ((st & 0x1Fu8) & 0x7Fu8) == (st & 0x1Fu8),
        ((st & 0x1Fu8) & 0x80u8) == 0u8,
{
}

impl Ppu {
    /// Secondary OAM after the dot-257 evaluation: the first up to eight
    /// in-range sprites in order, the remaining slots untouched.
    pub open spec fn spec_secondary_after_eval(pre: Ppu) -> Seq<Sprite> {
        let sel = spec_selected(
            pre.oam@,
            pre.scanline as int,
            pre.spec_sprite_height() as int,
            64,
        );
        Seq::new(
            8,
            |k: int|
                if k < sel.len() {
                    pre.spec_selected_entry(k, sel[k])
                } else {
                    pre.secondary_oam@[k]
                },
        )
    }

    /// The status byte after the dot-257 evaluation: overflow set when a
    /// ninth in-range sprite exists.
    pub open spec fn spec_status_after_eval(pre: Ppu) -> u8 {
        let sel = spec_selected(
            pre.oam@,
            pre.scanline as int,
            pre.spec_sprite_height() as int,
            64,
        );
        if sel.len() > 8 {
            (pre.status | 0x20u8) as u8
        } else {
            pre.status
        }
    }

    /// The sprite cache after the dot-321 pattern fetch.
    pub open spec fn spec_cache_after_load(pre: Ppu) -> Seq<Sprite> {
        Seq::new(
            8,
            |i: int|
                Sprite {
                    pt_lo: pre.spec_read(pre.spec_sprite_line_addr(pre.secondary_oam@[i])),
                    pt_hi: pre.spec_read(
                        (pre.spec_sprite_line_addr(pre.secondary_oam@[i]) + 8u16) as u16,
                    ),
                    ..pre.secondary_oam@[i]
                },
        )
    }

    /// The frame buffer after the dot's pixel composition: on a visible
    /// row and column, the three RGB bytes of the composed palette entry
    /// land at the pixel's offset; elsewhere the buffer is untouched.
    pub open spec fn spec_pixel_fb(pre: Ppu) -> Seq<u8> {
        let x = pre.cycle - 2;
        if pre.scanline < 240 && x < 256 {
            let idx = (pre.scanline * 256 + x) * 3;
            let color = (pre.palette@[pre.spec_pixel_index(x) as int] & 0x3Fu8) as int;
            pre.frame_buffer@.update(idx, spec_palette_rgb(color).0).update(
                idx + 1,
                spec_palette_rgb(color).1,
            ).update(idx + 2, spec_palette_rgb(color).2)
        } else {
            pre.frame_buffer@
        }
    }

    /// The status byte after the dot's pixel composition, over the base
    /// `st0` it starts from: sprite-0 hit may come on.
    pub open spec fn spec_pixel_status(pre: Ppu, st0: u8) -> u8 {
        let x = pre.cycle - 2;
        if pre.scanline < 240 && x < 256 && pre.spec_sprite0_hit(x) {
            (st0 | 0x40u8) as u8
        } else {
            st0
        }
    }

    /// The attribute byte fetched at phase 4, shifted into the quadrant
    /// coarse X and coarse Y select.
    pub open spec fn spec_at_fetched(pre: Ppu) -> u8 {
        let b = pre.spec_read(pre.addr_latch);
        let b1 = if (((pre.v & 0x3E0u16) >> 5u16) & 2u16) != 0u16 {
            (b >> 4u8) as u8
        } else {
            b
        };
        if ((pre.v & 0x1Fu16) & 2u16) != 0u16 {
            (b1 >> 2u8) as u8
        } else {
            b1
        }
    }

    /// The whole per-dot effect of `Ppu::cycle` at the pre-state's
    /// (scanline, cycle) position classified as `s`: which memories and
    /// registers change, and to what. The frame position itself is
    /// advanced by `Ppu::step`, not here.
    pub open spec fn spec_dot_effect(pre: Ppu, post: Ppu, s: Scanline) -> bool {
        let c = pre.cycle as int;
        if s == Scanline::VBlank {
            if c == 1 {
                post == (Ppu {
                    status: (pre.status | 0x80u8) as u8,
                    trigger_nmi: post.trigger_nmi,
                    ..pre
                })
            } else {
                post == pre
            }
        } else if s == Scanline::PostRender {
            if c == 0 {
                post == (Ppu { frame_ready: true, ..pre })
            } else {
                post == pre
            }
        } else {
            // Visible or PreRender: the fetch pipeline, sprite work and
            // pixel composition.
            &&& (c == 1 ==> post == (Ppu {
                secondary_oam: post.secondary_oam,
                status: post.status,
                addr_latch: (0x2000u16 | (pre.v & 0xFFFu16)) as u16,
                ..pre
            }) && post.secondary_oam@ == Seq::new(8, |i: int| Sprite::spec_empty()) && post.status
                == (if s == Scanline::PreRender {
                (pre.status & 0x1Fu8) as u8
            } else {
                pre.status
            }))
            &&& ((2 <= c && c <= 255) || (322 <= c && c <= 337) ==> {
                let shifted = Ppu::spec_shift(pre.pipe());
                &&& post.status == Ppu::spec_pixel_status(pre, pre.status)
                &&& post.frame_buffer@ == Ppu::spec_pixel_fb(pre)
                &&& (c % 8 == 1 ==> post.pipe() == Ppu::spec_reload(
                    PipeState { addr_latch: (0x2000u16 | (pre.v & 0xFFFu16)) as u16, ..shifted },
                ) && post.v == pre.v)
                &&& (c % 8 == 2 ==> post.pipe() == (PipeState {
                    nt_byte: pre.spec_read(pre.addr_latch),
                    ..shifted
                }) && post.v == pre.v)
                &&& (c % 8 == 3 ==> post.pipe() == (PipeState {
                    addr_latch: (0x23C0u16 | (pre.v & 0x0C00u16) | ((pre.v >> 4u16) & 0x38u16) | ((
                    pre.v >> 2u16) & 0x07u16)) as u16,
                    ..shifted
                }) && post.v == pre.v)
                &&& (c % 8 == 4 ==> post.pipe() == (PipeState {
                    at_byte: Ppu::spec_at_fetched(pre),
                    ..shifted
                }) && post.v == pre.v)
                &&& (c % 8 == 5 ==> post.pipe() == (PipeState {
                    addr_latch: pre.spec_pt_addr(),
                    ..shifted
                }) && post.v == pre.v)
                &&& (c % 8 == 6 ==> post.pipe() == (PipeState {
                    pt_latch_lo: pre.spec_read(pre.addr_latch),
                    ..shifted
                }) && post.v == pre.v)
                &&& (c % 8 == 7 ==> post.pipe() == (PipeState {
                    addr_latch: pre.addr_latch.wrapping_add(8u16),
                    ..shifted
                }) && post.v == pre.v)
                &&& (c % 8 == 0 ==> post.pipe() == (PipeState {
                    pt_latch_hi: pre.spec_read(pre.addr_latch),
                    ..shifted
                }) && post.v == (if pre.spec_rendering_enabled() {
                    spec_increment_h(pre.v)
                } else {
                    pre.v
                }))
                &&& post == (Ppu {
                    status: post.status,
                    frame_buffer: post.frame_buffer,
                    v: post.v,
                    addr_latch: post.addr_latch,
                    nt_byte: post.nt_byte,
                    at_byte: post.at_byte,
                    at_latch_lo: post.at_latch_lo,
                    at_latch_hi: post.at_latch_hi,
                    pt_latch_lo: post.pt_latch_lo,
                    pt_latch_hi: post.pt_latch_hi,
                    at_shifter_lo: post.at_shifter_lo,
                    at_shifter_hi: post.at_shifter_hi,
                    pt_shifter_lo: post.pt_shifter_lo,
                    pt_shifter_hi: post.pt_shifter_hi,
                    ..pre
                })
            })
            &&& (c == 256 ==> post.status == Ppu::spec_pixel_status(pre, pre.status)
                && post.frame_buffer@ == Ppu::spec_pixel_fb(pre) && post.pipe() == (PipeState {
                pt_latch_hi: pre.spec_read(pre.addr_latch),
                ..Ppu::spec_shift(pre.pipe())
            }) && post.v == (if pre.spec_rendering_enabled() {
                spec_increment_v(pre.v)
            } else {
                pre.v
            }) && post == (Ppu {
                status: post.status,
                frame_buffer: post.frame_buffer,
                v: post.v,
                pt_latch_hi: post.pt_latch_hi,
                at_shifter_lo: post.at_shifter_lo,
                at_shifter_hi: post.at_shifter_hi,
                pt_shifter_lo: post.pt_shifter_lo,
                pt_shifter_hi: post.pt_shifter_hi,
                ..pre
            }))
            &&& (c == 257 ==> post.secondary_oam@ == Ppu::spec_secondary_after_eval(pre)
                && post.status == Ppu::spec_pixel_status(pre, Ppu::spec_status_after_eval(pre))
                && post.frame_buffer@ == Ppu::spec_pixel_fb(pre) && post.pipe()
                == Ppu::spec_reload(Ppu::spec_shift(pre.pipe())) && post.v == (if pre
                .spec_rendering_enabled() {
                spec_copy_h(pre.v, pre.t)
            } else {
                pre.v
            }) && post == (Ppu {
                secondary_oam: post.secondary_oam,
                status: post.status,
                frame_buffer: post.frame_buffer,
                v: post.v,
                at_latch_lo: post.at_latch_lo,
                at_latch_hi: post.at_latch_hi,
                pt_shifter_lo: post.pt_shifter_lo,
                pt_shifter_hi: post.pt_shifter_hi,
                at_shifter_lo: post.at_shifter_lo,
                at_shifter_hi: post.at_shifter_hi,
                ..pre
            }))
            &&& (280 <= c && c <= 304 ==> post == (Ppu { v: post.v, ..pre }) && post.v == (if s
                == Scanline::PreRender && pre.spec_rendering_enabled() {
                spec_copy_v(pre.v, pre.t)
            } else {
                pre.v
            }))
            &&& (c == 321 ==> post.sprite_cache@ == Ppu::spec_cache_after_load(pre) && post == (Ppu {
                sprite_cache: post.sprite_cache,
                addr_latch: (0x2000u16 | (pre.v & 0xFFFu16)) as u16,
                ..pre
            }))
            &&& (c == 339 ==> post == (Ppu {
                addr_latch: (0x2000u16 | (pre.v & 0xFFFu16)) as u16,
                ..pre
            }))
            &&& (c == 338 || c == 340 ==> post == (Ppu {
                nt_byte: pre.spec_read(pre.addr_latch),
                ..pre
            }))
            &&& (c == 0 || (258 <= c && c <= 279) || (305 <= c && c <= 320) ==> post == pre)
        }
    }

    /// The sprite-scan spec functions read neither the status register
    /// nor secondary OAM, so two states differing only there scan alike.
    pub proof fn lemma_scan_unaffected(a: Ppu, b: Ppu, x: int, i: int)
        requires
            b == (Ppu { status: b.status, secondary_oam: b.secondary_oam, ..a }),
            0 <= i <= 8,
        ensures
            a.spec_s0_opaque_from(x, i) == b.spec_s0_opaque_from(x, i),
            a.spec_obj_winner(x, i) == b.spec_obj_winner(x, i),
        decreases 8 - i,
    {
        if i < 8 {
            Ppu::lemma_scan_unaffected(a, b, x, i + 1);
        }
    }

    /// Pixel composition reads neither the status register nor secondary
    /// OAM: the composed color and the sprite-0 condition agree across
    /// two states differing only there.
    pub proof fn lemma_pixel_unaffected(a: Ppu, b: Ppu, x: int)
        requires
            b == (Ppu { status: b.status, secondary_oam: b.secondary_oam, ..a }),
        ensures
            a.spec_sprite0_hit(x) == b.spec_sprite0_hit(x),
            a.spec_pixel_index(x) == b.spec_pixel_index(x),
    {
        Ppu::lemma_scan_unaffected(a, b, x, 0);
    }

    /// One dot's work on a visible or pre-render scanline: the sprite
    /// pipeline at dots 1/257/321, the background fetch and pixel
    /// composition on the fetch dots, and the v-register updates.
    /// Returns whether this dot asked for the odd-frame skip.
    #[verifier::rlimit(100)]
    #[verifier::spinoff_prover]
    fn render_dot(&mut self, s: Scanline) -> (skip: bool)
        requires
            old(self).wf(),
            s == Scanline::Visible || s == Scanline::PreRender,
            s == Scanline::spec_from(old(self).scanline as int),
        ensures
            final(self).wf(),
            skip == (s == Scanline::PreRender && old(self).cycle == 340 && old(self).odd_frame
                && old(self).spec_rendering_enabled()),
            Ppu::eq_pos(*old(self), *final(self)),
            final(self).ctrl == old(self).ctrl && final(self).mask == old(self).mask && final(self).oamaddr == old(self).oamaddr && final(self).vram_buffer == old(self).vram_buffer
                && final(self).open_bus == old(self).open_bus,
            final(self).t == old(self).t && final(self).x == old(self).x && final(self).w == old(self).w,
            final(self).rom == old(self).rom,
            Ppu::eq_video_mem(*old(self), *final(self)),
            final(self).oam@ == old(self).oam@,
            final(self).trigger_nmi == old(self).trigger_nmi,
            final(self).frame_ready == old(self).frame_ready,
            s == Scanline::PreRender && old(self).cycle == 1 ==> final(self).status == (old(self).status & 0x1Fu8),
            (s == Scanline::Visible || (s == Scanline::PreRender && old(self).cycle != 1)) ==> (
            final(self).status & 0x80u8) == (old(self).status & 0x80u8),
            !old(self).spec_rendering_enabled() ==> final(self).v == old(self).v,
            old(self).cycle == 257 && old(self).spec_rendering_enabled() ==> final(self).v
                == spec_copy_h(old(self).v, old(self).t),
            Ppu::spec_dot_effect(*old(self), *final(self), s),
    {
        let c = self.cycle;
        let mut skip = false;
        proof {
            lemma_status_bits(old(self).status);
        }
        if c == 1 {
            self.clear_oam();
            if s == Scanline::PreRender {
                self.status = self.status & 0x1F;
            }
        } else if c == 257 {
            self.eval_sprites();
            proof {
                lemma_status_bits(old(self).status);
            }
        } else if c == 321 {
            self.load_sprites();
            proof {
                assert(self.sprite_cache@ =~= Ppu::spec_cache_after_load(*old(self)));
            }
        }
        if (2 <= c && c <= 255) || (322 <= c && c <= 337) {
            proof {
                let st1 = self.status;
                lemma_status_bits(st1);
            }
            self.load_pixel();
            let phase = c % 8;
            if phase == 1 {
                self.addr_latch = self.nt_addr();
                self.reload_shifters();
            } else if phase == 2 {
                self.nt_byte = self.read(self.addr_latch);
            } else if phase == 3 {
                self.addr_latch = self.at_addr();
            } else if phase == 4 {
                self.at_byte = self.read(self.addr_latch);
                if self.coarse_y() & 2 != 0 {
                    self.at_byte = self.at_byte >> 4u8;
                }
                if self.coarse_x() & 2 != 0 {
                    self.at_byte = self.at_byte >> 2u8;
                }
            } else if phase == 5 {
                self.addr_latch = self.pt_addr();
            } else if phase == 6 {
                self.pt_latch_lo = self.read(self.addr_latch);
            } else if phase == 7 {
                self.addr_latch = self.addr_latch.wrapping_add(8);
            } else {
                self.pt_latch_hi = self.read(self.addr_latch);
                self.increment_h();
            }
        } else if c == 256 {
            proof {
                let st1 = self.status;
                lemma_status_bits(st1);
            }
            self.load_pixel();
            self.pt_latch_hi = self.read(self.addr_latch);
            self.increment_v();
        } else if c == 257 {
            proof {
                let st1 = self.status;
                lemma_status_bits(st1);
                assert(self.secondary_oam@ =~= Ppu::spec_secondary_after_eval(*old(self)));
                Ppu::lemma_pixel_unaffected(*old(self), *self, c - 2);
            }
            self.load_pixel();
            self.reload_shifters();
            self.copy_h();
        } else if 280 <= c && c <= 304 {
            if s == Scanline::PreRender {
                self.copy_v();
            }
        } else if c == 1 {
            self.addr_latch = self.nt_addr();
            if s == Scanline::PreRender {
                self.status = self.status & 0x7F;
                proof {
                    let st0 = old(self).status;
                    assert(((st0 & 0x1Fu8) & 0x7Fu8) == (st0 & 0x1Fu8)) by (bit_vector);
                }
            }
        } else if c == 321 || c == 339 {
            self.addr_latch = self.nt_addr();
        } else if c == 338 {
            self.nt_byte = self.read(self.addr_latch);
        } else if c == 340 {
            self.nt_byte = self.read(self.addr_latch);
            if s == Scanline::PreRender && self.odd_frame && self.is_rendering_enabled() {
                skip = true;
            }
        }
        skip
    }

    pub fn cycle(&mut self, s: Scanline) -> (skip: bool)
        requires
            old(self).wf(),
            s == Scanline::spec_from(old(self).scanline as int),
        ensures
            final(self).wf(),
            skip == (s == Scanline::PreRender && old(self).cycle == 340 && old(self).odd_frame
                && old(self).spec_rendering_enabled()),
            Ppu::eq_pos(*old(self), *final(self)),
            final(self).ctrl == old(self).ctrl && final(self).mask == old(self).mask && final(self).oamaddr == old(self).oamaddr && final(self).vram_buffer == old(self).vram_buffer
                && final(self).open_bus == old(self).open_bus,
            final(self).t == old(self).t && final(self).x == old(self).x && final(self).w == old(self).w,
            final(self).rom == old(self).rom,
            Ppu::eq_video_mem(*old(self), *final(self)),
            final(self).oam@ == old(self).oam@,
            final(self).trigger_nmi == (old(self).trigger_nmi || (s == Scanline::VBlank && old(self).cycle == 1 && (old(self).ctrl & 0x80u8) != 0u8)),
            final(self).frame_ready == (old(self).frame_ready || (s == Scanline::PostRender && old(self).cycle == 0)),
            s == Scanline::VBlank && old(self).cycle == 1 ==> final(self).status == (old(self).status | 0x80u8),
            s == Scanline::VBlank && old(self).cycle != 1 ==> final(self).status == old(self).status,
            s == Scanline::PostRender ==> final(self).status == old(self).status,
            s == Scanline::PreRender && old(self).cycle == 1 ==> final(self).status == (old(self).status & 0x1Fu8),
            (s == Scanline::Visible || (s == Scanline::PreRender && old(self).cycle != 1)) ==> (
            final(self).status & 0x80u8) == (old(self).status & 0x80u8),
            !old(self).spec_rendering_enabled() ==> final(self).v == old(self).v,
            (s == Scanline::Visible || s == Scanline::PreRender) && old(self).cycle == 257 && old(self).spec_rendering_enabled() ==> final(self).v == spec_copy_h(old(self).v, old(self).t),
            (s == Scanline::VBlank || s == Scanline::PostRender) ==> final(self).v == old(self).v
                && final(self).frame_buffer@ == old(self).frame_buffer@,
            Ppu::spec_dot_effect(*old(self), *final(self), s),
    {
        let c = self.cycle;
        let mut skip = false;
        proof {
            lemma_status_bits(old(self).status);
        }
        if s == Scanline::VBlank {
            if c == 1 {
                self.status = self.status | 0x80;
                if self.ctrl & 0x80 != 0 {
                    self.trigger_nmi = true;
                }
            }
        } else if s == Scanline::PostRender {
            if c == 0 {
                self.frame_ready = true;
            }
        } else {
            skip = self.render_dot(s);
        }
        skip
    }

    /// One PPU dot: run the current dot's work, then advance the
    /// (cycle, scanline) position, wrapping into the next frame and
    /// honoring the odd-frame skip.
    pub fn step(&mut self)
        requires
            old(self).wf(),
        ensures
            final(self).wf(),
            old(self).cycle < 340 ==> final(self).cycle == old(self).cycle + 1 && final(self).scanline == old(self).scanline && final(self).odd_frame == old(self).odd_frame,
            old(self).cycle == 340 ==> final(self).scanline == (if old(self).scanline == 261 {
                0int
            } else {
                old(self).scanline + 1
            }) && final(self).cycle == (if old(self).scanline == 261 && old(self).odd_frame && old(self).spec_rendering_enabled() {
                1int
            } else {
                0int
            }) && final(self).odd_frame == (if old(self).scanline == 261 {
                !old(self).odd_frame
            } else {
                old(self).odd_frame
            }),
            final(self).ctrl == old(self).ctrl && final(self).mask == old(self).mask && final(self).oamaddr == old(self).oamaddr && final(self).vram_buffer == old(self).vram_buffer
                && final(self).open_bus == old(self).open_bus,
            final(self).t == old(self).t && final(self).x == old(self).x && final(self).w == old(self).w,
            final(self).rom == old(self).rom,
            Ppu::eq_video_mem(*old(self), *final(self)),
            final(self).oam@ == old(self).oam@,
            final(self).trigger_nmi == (old(self).trigger_nmi || (old(self).scanline == 241 && old(self).cycle == 1 && (old(self).ctrl & 0x80u8) != 0u8)),
            final(self).frame_ready == (old(self).frame_ready || (old(self).scanline == 240 && old(self).cycle == 0)),
            old(self).scanline == 241 && old(self).cycle == 1 ==> final(self).status == (old(self).status | 0x80u8),
            old(self).scanline == 261 && old(self).cycle == 1 ==> final(self).status == (old(self).status & 0x1Fu8),
            !(old(self).scanline == 241 && old(self).cycle == 1) && !(old(self).scanline == 261
                && old(self).cycle == 1) ==> (final(self).status & 0x80u8) == (old(self).status
                & 0x80u8),
            !old(self).spec_rendering_enabled() ==> final(self).v == old(self).v,
            (old(self).scanline <= 239 || old(self).scanline == 261) && old(self).cycle == 257
                && old(self).spec_rendering_enabled() ==> final(self).v == spec_copy_h(
                old(self).v,
                old(self).t,
            ),
            ({
                let settled = Ppu {
                    cycle: old(self).cycle,
                    scanline: old(self).scanline,
                    odd_frame: old(self).odd_frame,
                    ..*final(self)
                };
                &&& old(self).scanline <= 239 ==> Ppu::spec_dot_effect(
                    *old(self),
                    settled,
                    Scanline::Visible,
                )
                &&& old(self).scanline == 240 ==> Ppu::spec_dot_effect(
                    *old(self),
                    settled,
                    Scanline::PostRender,
                )
                &&& old(self).scanline == 241 ==> Ppu::spec_dot_effect(
                    *old(self),
                    settled,
                    Scanline::VBlank,
                )
                &&& old(self).scanline == 261 ==> Ppu::spec_dot_effect(
                    *old(self),
                    settled,
                    Scanline::PreRender,
                )
                &&& (242 <= old(self).scanline && old(self).scanline <= 260) ==> settled == *old(self)
            }),
    {
        let mut skip = false;
        if self.scanline <= 239 {
            skip = self.cycle(Scanline::Visible);
        } else if self.scanline == 240 {
            skip = self.cycle(Scanline::PostRender);
        } else if self.scanline == 241 {
            skip = self.cycle(Scanline::VBlank);
        } else if self.scanline == 261 {
            skip = self.cycle(Scanline::PreRender);
        }
        if skip {
            self.cycle = self.cycle + 2;
        } else {
            self.cycle = self.cycle + 1;
        }
        if self.cycle > 340 {
            self.cycle = self.cycle % 341;
            self.scanline = self.scanline + 1;
            if self.scanline >= 262 {
                self.scanline = 0;
                self.odd_frame = !self.odd_frame;
            }
        }
    }
}

} // verus!
