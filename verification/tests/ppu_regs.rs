//! PPU register behavior: palette mirroring, scroll latches, VBlank,
//! NMI and the frame-ready flag.

use nes_cpu::Nes;
use nes_cpu::SystemVersion;
use nes_cpu::rom::Rom;

fn nrom_image() -> Vec<u8> {
    let mut data = vec![0u8; 16];
    data[0] = 0x4E;
    data[1] = 0x45;
    data[2] = 0x53;
    data[3] = 0x1A;
    data[4] = 1;
    data[5] = 1;
    data.extend(std::iter::repeat(0u8).take(16 * 1024 + 8 * 1024));
    data
}

fn fresh_nes() -> Nes {
    let mut nes = Nes::new(SystemVersion::NTSC);
    nes.set_rom(Rom::new(nrom_image()).unwrap());
    nes
}

fn write_vram_addr(nes: &mut Nes, addr: u16) {
    nes.cpu.bus.write(0x2006, (addr >> 8) as u8);
    nes.cpu.bus.write(0x2006, (addr & 0xFF) as u8);
}

#[test]
fn palette_mirror_3f10_aliases_3f00() {
    let mut nes = fresh_nes();
    for (mirror, base) in [(0x3F10u16, 0x3F00u16), (0x3F14, 0x3F04), (0x3F18, 0x3F08), (
        0x3F1C,
        0x3F0C,
    )] {
        write_vram_addr(&mut nes, mirror);
        nes.cpu.bus.write(0x2007, 0x20);
        write_vram_addr(&mut nes, base);
        assert_eq!(nes.cpu.bus.read(0x2007), 0x20);
    }
}

#[test]
fn vram_data_port_round_trips_through_nametable() {
    let mut nes = fresh_nes();
    write_vram_addr(&mut nes, 0x2005);
    nes.cpu.bus.write(0x2007, 0x77);
    write_vram_addr(&mut nes, 0x2005);
    // Nametable reads are buffered: the first read returns the stale
    // buffer, the second the stored byte.
    let _ = nes.cpu.bus.read(0x2007);
    write_vram_addr(&mut nes, 0x2005);
    let first = nes.cpu.bus.read(0x2007);
    let _ = first;
    let buffered = nes.cpu.bus.read(0x2007);
    let _ = buffered;
    write_vram_addr(&mut nes, 0x2005);
    let _ = nes.cpu.bus.read(0x2007);
    let value = nes.cpu.bus.read(0x2007);
    assert_eq!(value, 0x77);
}

#[test]
fn status_read_mixes_open_bus_into_low_bits() {
    let mut nes = fresh_nes();
    nes.cpu.bus.ppu.open_bus = 0x1F;
    nes.cpu.bus.ppu.scanline = 241;
    nes.cpu.bus.ppu.cycle = 1;
    nes.cpu.bus.ppu.step();
    // Upper three bits from status, lower five from the open bus.
    assert_eq!(nes.cpu.bus.read(0x2002), 0x9F);
}

#[test]
fn vblank_status_set_on_first_read_clear_on_second() {
    let mut nes = fresh_nes();
    nes.cpu.bus.ppu.scanline = 241;
    nes.cpu.bus.ppu.cycle = 1;
    nes.cpu.bus.ppu.step();
    let first = nes.cpu.bus.read(0x2002);
    assert_eq!(first & 0x80, 0x80);
    let second = nes.cpu.bus.read(0x2002);
    assert_eq!(second & 0x80, 0x00);
}

#[test]
fn nmi_taken_when_ctrl_bit7_set() {
    let mut nes = fresh_nes();
    // NMI vector at $FFFA: leave 0 (empty ROM reads 0) and observe PC.
    nes.cpu.bus.write(0x2000, 0x80);
    nes.cpu.bus.ppu.scanline = 241;
    nes.cpu.bus.ppu.cycle = 1;
    nes.cpu.bus.ppu.step();
    assert!(nes.cpu.bus.ppu.trigger_nmi);
    // A NOP at PC; the step services the NMI raised during catch-up of
    // the previous instruction only after its PPU ticks, so run the
    // pending flag through one instruction.
    nes.cpu.bus.write(0x0100, 0xEA);
    nes.set_start(0x0100);
    let sp_before = nes.cpu.sp;
    nes.step();
    // The NMI pushed PCH, PCL and P.
    assert_eq!(nes.cpu.sp, sp_before.wrapping_sub(3));
    // PC loaded from the (all-zero) vector.
    assert_eq!(nes.cpu.pc, 0x0000);
    assert!(!nes.cpu.bus.ppu.trigger_nmi);
}

#[test]
fn no_nmi_when_ctrl_bit7_clear() {
    let mut nes = fresh_nes();
    nes.cpu.bus.ppu.scanline = 241;
    nes.cpu.bus.ppu.cycle = 1;
    nes.cpu.bus.ppu.step();
    assert!(!nes.cpu.bus.ppu.trigger_nmi);
    assert_eq!(nes.cpu.bus.ppu.status & 0x80, 0x80);
}

#[test]
fn frame_ready_raised_entering_post_render_and_polled_once() {
    let mut nes = fresh_nes();
    assert_eq!(nes.frame().len(), 256 * 240 * 3);
    nes.cpu.bus.ppu.scanline = 240;
    nes.cpu.bus.ppu.cycle = 0;
    nes.cpu.bus.ppu.step();
    assert!(nes.cpu.bus.ppu.frame_ready);
    assert!(nes.poll_frame());
    assert!(!nes.poll_frame());
}

#[test]
fn scroll_copy_h_at_dot_257_of_rendering_scanline() {
    let mut nes = fresh_nes();
    // Enable background rendering so v updates run.
    nes.cpu.bus.write(0x2001, 0x08);
    // Load t via the address port: the second write copies t into v.
    write_vram_addr(&mut nes, 0x0000);
    // Now set t's horizontal bits through the scroll port.
    nes.cpu.bus.write(0x2005, 0xFF); // coarse X = 31, fine X = 7
    nes.cpu.bus.write(0x2005, 0x00);
    nes.cpu.bus.ppu.scanline = 10;
    nes.cpu.bus.ppu.cycle = 257;
    let t = nes.cpu.bus.ppu.t;
    let v_before = nes.cpu.bus.ppu.v;
    nes.cpu.bus.ppu.step();
    let v_after = nes.cpu.bus.ppu.v;
    assert_eq!(v_after, (v_before & !0x041F) | (t & 0x041F));
    assert_eq!(v_after & 0x1F, 31);
}

#[test]
fn v_stays_fifteen_bits_across_increments() {
    let mut nes = fresh_nes();
    nes.cpu.bus.write(0x2000, 0x04); // increment of 32
    write_vram_addr(&mut nes, 0x3FFF);
    for _ in 0..0x500 {
        let _ = nes.cpu.bus.read(0x2007);
        assert!(nes.cpu.bus.ppu.v < 0x8000);
    }
}

#[test]
fn oam_address_and_data_port() {
    let mut nes = fresh_nes();
    nes.cpu.bus.write(0x2003, 0x04); // sprite 1, byte 0
    nes.cpu.bus.write(0x2004, 0x30); // y
    nes.cpu.bus.write(0x2004, 0x31); // tile
    nes.cpu.bus.write(0x2004, 0x32); // attr
    nes.cpu.bus.write(0x2004, 0x33); // x
    let s = nes.cpu.bus.ppu.oam[1];
    assert_eq!((s.y, s.tile, s.attr, s.x), (0x30, 0x31, 0x32, 0x33));
    // $2004 reads are the simplified constant.
    assert_eq!(nes.cpu.bus.read(0x2004), 0xFF);
}

#[test]
fn status_read_resets_write_toggle() {
    let mut nes = fresh_nes();
    nes.cpu.bus.write(0x2006, 0x21);
    let _ = nes.cpu.bus.read(0x2002);
    // The toggle was reset, so this is a "first" write again.
    nes.cpu.bus.write(0x2006, 0x3F);
    nes.cpu.bus.write(0x2006, 0x00);
    assert_eq!(nes.cpu.bus.ppu.v, 0x3F00);
}

#[test]
fn odd_frame_skips_last_pre_render_dot_when_rendering() {
    let mut nes = fresh_nes();
    nes.cpu.bus.write(0x2001, 0x08);
    nes.cpu.bus.ppu.odd_frame = true;
    nes.cpu.bus.ppu.scanline = 261;
    nes.cpu.bus.ppu.cycle = 340;
    nes.cpu.bus.ppu.step();
    assert_eq!(nes.cpu.bus.ppu.scanline, 0);
    assert_eq!(nes.cpu.bus.ppu.cycle, 1);
    assert!(!nes.cpu.bus.ppu.odd_frame);
}
