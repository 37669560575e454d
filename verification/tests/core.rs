//! Bus, RAM, controller, DMA and cartridge-loading behavior.

use nes_cpu::Nes;
use nes_cpu::SystemVersion;
use nes_cpu::controller::{Button, ButtonStates};
use nes_cpu::mapper::Mapper;
use nes_cpu::rom::{Rom, RomError, INesVersion, Mirroring, TvSystem};

fn nrom_image(prg_banks: u8, chr_banks: u8) -> Vec<u8> {
    let mut data = vec![0u8; 16];
    data[0] = 0x4E;
    data[1] = 0x45;
    data[2] = 0x53;
    data[3] = 0x1A;
    data[4] = prg_banks;
    data[5] = chr_banks;
    let prg = prg_banks as usize * 16 * 1024;
    let chr = chr_banks as usize * 8 * 1024;
    data.extend(std::iter::repeat(0u8).take(prg + chr));
    data
}

fn mmc1_image() -> Vec<u8> {
    let mut data = vec![0u8; 16];
    data[0] = 0x4E;
    data[1] = 0x45;
    data[2] = 0x53;
    data[3] = 0x1A;
    data[4] = 2; // 32 KiB PRG
    data[5] = 1; // 8 KiB CHR
    data[6] = 0x10; // mapper 1 low nibble
    data.extend(std::iter::repeat(0u8).take(2 * 16 * 1024 + 8 * 1024));
    data
}

fn fresh_nes() -> Nes {
    let mut nes = Nes::new(SystemVersion::NTSC);
    let rom = Rom::new(nrom_image(1, 1)).unwrap();
    nes.set_rom(rom);
    nes
}

#[test]
fn header_parses_ines1_fields() {
    let mut img = nrom_image(2, 1);
    img[6] = 0x03; // vertical mirroring + battery
    let rom = Rom::new(img).unwrap();
    assert_eq!(rom.header.nes_version, INesVersion::One);
    assert_eq!(rom.header.prg_rom_size, 32 * 1024);
    assert_eq!(rom.header.chr_rom_size, 8 * 1024);
    assert_eq!(rom.header.prg_ram_size, 8 * 1024);
    assert_eq!(rom.header.mapper_number, 0);
    assert!(rom.header.battery);
    assert!(!rom.header.trainer);
    assert_eq!(rom.header.mirroring, Mirroring::Vertical);
    assert_eq!(rom.header.tv, TvSystem::NTSC);
}

#[test]
fn rom_rejects_bad_magic() {
    let mut img = nrom_image(1, 1);
    img[0] = 0x4D;
    assert!(matches!(Rom::new(img), Err(RomError::BadMagic)));
}

#[test]
fn rom_rejects_unsupported_mapper() {
    let mut img = nrom_image(1, 1);
    img[6] = 0x40; // mapper 4
    assert!(matches!(Rom::new(img), Err(RomError::UnsupportedMapper)));
}

#[test]
fn rom_rejects_truncated_image() {
    let mut img = nrom_image(2, 1);
    img.truncate(16 + 100);
    assert!(matches!(Rom::new(img), Err(RomError::TruncatedImage)));
}

#[test]
fn ram_write_read_round_trip_with_mirrors() {
    let mut nes = fresh_nes();
    for &a in &[0x0005u16, 0x01FF, 0x07FF, 0x1234] {
        nes.cpu.bus.write(a, 0xAB);
        assert_eq!(nes.cpu.bus.read(a), 0xAB);
        assert_eq!(nes.cpu.bus.read(a ^ 0x0800), 0xAB);
        assert_eq!(nes.cpu.bus.read(a ^ 0x1000), 0xAB);
        assert_eq!(nes.cpu.bus.read(a ^ 0x1800), 0xAB);
        nes.cpu.bus.write(a, 0x00);
    }
}

#[test]
fn controller_strobe_shifts_buttons_in_order() {
    let mut nes = fresh_nes();
    let states = ButtonStates {
        a: true,
        b: false,
        select: true,
        start: false,
        up: true,
        down: true,
        left: false,
        right: true,
    };
    nes.cpu.bus.controller1.set_button_states(states);
    nes.cpu.bus.write(0x4016, 0x01);
    nes.cpu.bus.write(0x4016, 0x00);
    let expected = [1u8, 0, 1, 0, 1, 1, 0, 1];
    for &e in expected.iter() {
        assert_eq!(nes.cpu.bus.read(0x4016), e);
    }
}

#[test]
fn set_button_latches_while_strobing() {
    let mut nes = fresh_nes();
    nes.cpu.bus.write(0x4016, 0x01);
    nes.set_button(Button::A, true);
    // While strobing, reads return the A bit continuously.
    assert_eq!(nes.cpu.bus.read(0x4016), 1);
    assert_eq!(nes.cpu.bus.read(0x4016), 1);
}

#[test]
fn oam_dma_copies_page_and_charges_514_cycles() {
    let mut nes = fresh_nes();
    for i in 0..256u16 {
        nes.cpu.bus.write(0x0200 + i, i as u8);
    }
    // A NOP for the instruction that runs after the DMA stall.
    nes.cpu.bus.write(0x0100, 0xEA);
    nes.set_start(0x0100);
    nes.cpu.bus.write(0x4014, 0x02);
    assert!(nes.cpu.bus.dma_transfer.0);
    let cycles_before = nes.cpu.bus.cycles;
    nes.step();
    assert_eq!(nes.cpu.bus.cycles, cycles_before + 514 + 2);
    for i in 0..64usize {
        let s = nes.cpu.bus.ppu.oam[i];
        assert_eq!(s.y, (i * 4) as u8);
        assert_eq!(s.tile, (i * 4 + 1) as u8);
        assert_eq!(s.attr, (i * 4 + 2) as u8);
        assert_eq!(s.x, (i * 4 + 3) as u8);
    }
    assert!(!nes.cpu.bus.dma_transfer.0);
}

#[test]
fn mmc1_five_writes_load_control_register() {
    let mut nes = Nes::new(SystemVersion::NTSC);
    let rom = Rom::new(mmc1_image()).unwrap();
    nes.set_rom(rom);
    for bit in [0u8, 1, 1, 0, 0] {
        nes.cpu.bus.write(0x8000, bit);
    }
    match &nes.cpu.bus.ppu.rom.mapper {
        Mapper::Mmc1(m) => {
            assert_eq!(m.control, 0b00110);
            assert_eq!(m.shift_register, 0x10);
            assert_eq!(m.shift_count, 0);
        },
        _ => panic!("expected an MMC1 board"),
    }
}

#[test]
fn mmc1_reset_write_forces_prg_mode_3() {
    let mut nes = Nes::new(SystemVersion::NTSC);
    let rom = Rom::new(mmc1_image()).unwrap();
    nes.set_rom(rom);
    // Two partial shifts, then a reset write.
    nes.cpu.bus.write(0x8000, 1);
    nes.cpu.bus.write(0x8000, 1);
    nes.cpu.bus.write(0x8000, 0x80);
    match &nes.cpu.bus.ppu.rom.mapper {
        Mapper::Mmc1(m) => {
            assert_eq!(m.shift_register, 0x10);
            assert_eq!(m.shift_count, 0);
            assert_eq!(m.control & 0x0C, 0x0C);
        },
        _ => panic!("expected an MMC1 board"),
    }
}

#[test]
fn apu_stub_reads_zero_and_mapper_window_reads_rom() {
    let mut nes = fresh_nes();
    assert_eq!(nes.cpu.bus.read(0x4000), 0);
    assert_eq!(nes.cpu.bus.read(0x4015), 0);
    // Empty PRG data reads as zero.
    assert_eq!(nes.cpu.bus.read(0x8000), 0);
}

#[test]
fn dma_port_reads_open_bus() {
    let mut nes = fresh_nes();
    nes.cpu.bus.write(0x2003, 0x5A); // any PPU write drives the open bus
    assert_eq!(nes.cpu.bus.read(0x4014), 0x5A);
}

#[test]
fn prg_ram_window_round_trips() {
    let mut nes = fresh_nes();
    nes.cpu.bus.write(0x6000, 0x5A);
    nes.cpu.bus.write(0x7FFF, 0xA5);
    assert_eq!(nes.cpu.bus.read(0x6000), 0x5A);
    assert_eq!(nes.cpu.bus.read(0x7FFF), 0xA5);
}

#[test]
fn nrom_mirrors_16k_prg() {
    let mut img = nrom_image(1, 1);
    let prg_start = 16;
    img[prg_start] = 0x42;
    img[prg_start + 0x3FFF] = 0x99;
    let mut nes = Nes::new(SystemVersion::NTSC);
    nes.set_rom(Rom::new(img).unwrap());
    assert_eq!(nes.cpu.bus.read(0x8000), 0x42);
    assert_eq!(nes.cpu.bus.read(0xC000), 0x42);
    assert_eq!(nes.cpu.bus.read(0xBFFF), 0x99);
    assert_eq!(nes.cpu.bus.read(0xFFFF), 0x99);
}
