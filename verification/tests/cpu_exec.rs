//! CPU instruction semantics and cycle accounting, driven through small
//! programs placed in RAM.

use nes_cpu::Nes;
use nes_cpu::SystemVersion;
use nes_cpu::rom::Rom;

fn nrom_image() -> Vec<u8> {
    let mut data = vec![0u8; 16];
    data[0] = 0x4E;
    data[1] = 0x45;
    data[2] = 0x53;
    data[3] = 0x1A;
    data[4] = 1;
    data[5] = 1;
    data.extend(std::iter::repeat(0u8).take(16 * 1024 + 8 * 1024));
    data
}

fn nes_with_program(origin: u16, program: &[u8]) -> Nes {
    let mut nes = Nes::new(SystemVersion::NTSC);
    nes.set_rom(Rom::new(nrom_image()).unwrap());
    for (i, &b) in program.iter().enumerate() {
        nes.cpu.bus.write(origin + i as u16, b);
    }
    nes.set_start(origin);
    nes
}

fn cycles_of_one_step(nes: &mut Nes) -> u64 {
    let before = nes.cpu.bus.cycles;
    nes.step();
    nes.cpu.bus.cycles - before
}

#[test]
fn lda_immediate_sets_accumulator_and_flags() {
    let mut nes = nes_with_program(0x0200, &[0xA9, 0x05, 0xA9, 0x00, 0xA9, 0x80]);
    assert_eq!(cycles_of_one_step(&mut nes), 2);
    assert_eq!(nes.cpu.a, 0x05);
    assert_eq!(nes.cpu.p & 0x02, 0); // not zero
    nes.step();
    assert_eq!(nes.cpu.a, 0x00);
    assert_eq!(nes.cpu.p & 0x02, 0x02); // zero
    nes.step();
    assert_eq!(nes.cpu.a, 0x80);
    assert_eq!(nes.cpu.p & 0x80, 0x80); // negative
}

#[test]
fn adc_sets_carry_zero_and_overflow() {
    // LDA #$05; ADC #$FB -> A = 0, C = 1, Z = 1.
    let mut nes = nes_with_program(0x0200, &[0xA9, 0x05, 0x69, 0xFB]);
    nes.step();
    nes.step();
    assert_eq!(nes.cpu.a, 0x00);
    assert_eq!(nes.cpu.p & 0x01, 0x01);
    assert_eq!(nes.cpu.p & 0x02, 0x02);
    // LDA #$50; ADC #$50 -> A = 0xA0, V = 1, N = 1.
    let mut nes2 = nes_with_program(0x0200, &[0xA9, 0x50, 0x69, 0x50]);
    nes2.step();
    nes2.step();
    assert_eq!(nes2.cpu.a, 0xA0);
    assert_eq!(nes2.cpu.p & 0x40, 0x40);
    assert_eq!(nes2.cpu.p & 0x80, 0x80);
}

#[test]
fn sbc_with_carry_set_subtracts_exactly() {
    // SEC; LDA #$10; SBC #$01 -> A = 0x0F, C = 1.
    let mut nes = nes_with_program(0x0200, &[0x38, 0xA9, 0x10, 0xE9, 0x01]);
    nes.step();
    nes.step();
    nes.step();
    assert_eq!(nes.cpu.a, 0x0F);
    assert_eq!(nes.cpu.p & 0x01, 0x01);
}

#[test]
fn sta_stores_to_zero_page() {
    // LDA #$42; STA $10.
    let mut nes = nes_with_program(0x0200, &[0xA9, 0x42, 0x85, 0x10]);
    nes.step();
    let c = cycles_of_one_step(&mut nes);
    assert_eq!(c, 3);
    assert_eq!(nes.cpu.bus.read(0x0010), 0x42);
}

#[test]
fn absolute_x_read_pays_page_cross_penalty() {
    // LDX #$20; LDA $00F0,X -> effective 0x0110, crossing a page: 4+1.
    let mut nes = nes_with_program(0x0200, &[0xA2, 0x20, 0xBD, 0xF0, 0x00]);
    nes.cpu.bus.write(0x0110, 0x77);
    nes.step();
    let c = cycles_of_one_step(&mut nes);
    assert_eq!(c, 5);
    assert_eq!(nes.cpu.a, 0x77);
    // Same read without crossing: LDX #$01; LDA $00F0,X -> 4 cycles.
    let mut nes2 = nes_with_program(0x0200, &[0xA2, 0x01, 0xBD, 0xF0, 0x00]);
    nes2.cpu.bus.write(0x00F1, 0x55);
    nes2.step();
    let c2 = cycles_of_one_step(&mut nes2);
    assert_eq!(c2, 4);
    assert_eq!(nes2.cpu.a, 0x55);
}

#[test]
fn branch_taken_pays_one_extra_cycle() {
    // LDA #$00 (Z=1); BEQ +2 within the same page: 2 + 1.
    let mut nes = nes_with_program(0x0200, &[0xA9, 0x00, 0xF0, 0x02, 0xEA, 0xEA]);
    nes.step();
    let c = cycles_of_one_step(&mut nes);
    assert_eq!(c, 3);
    assert_eq!(nes.cpu.pc, 0x0206);
    // Branch not taken: BNE with Z=1 takes the base 2 cycles.
    let mut nes2 = nes_with_program(0x0200, &[0xA9, 0x00, 0xD0, 0x02]);
    nes2.step();
    let c2 = cycles_of_one_step(&mut nes2);
    assert_eq!(c2, 2);
    assert_eq!(nes2.cpu.pc, 0x0204);
}

#[test]
fn branch_taken_across_page_pays_two_extra_cycles() {
    // BEQ from 0x02FB with Z set: the following instruction sits at
    // 0x02FD, the target at 0x0305 on the next page: 2 + 1 + 1.
    let mut nes = nes_with_program(0x02F9, &[0xA9, 0x00, 0xF0, 0x06]);
    nes.step();
    let c = cycles_of_one_step(&mut nes);
    assert_eq!(c, 4);
    assert_eq!(nes.cpu.pc, 0x0303);
}

#[test]
fn lxa_pins_a_and_x_to_zero() {
    let mut nes = nes_with_program(0x0200, &[0xAB, 0x55, 0xEA]);
    nes.cpu.a = 0x33;
    nes.cpu.x = 0x44;
    nes.step();
    assert_eq!(nes.cpu.a, 0x00);
    assert_eq!(nes.cpu.x, 0x00);
    assert_eq!(nes.cpu.p & 0x02, 0x02);
    assert_eq!(nes.cpu.p & 0x80, 0x00);
    // The immediate operand byte was consumed.
    assert_eq!(nes.cpu.pc, 0x0202);
}

#[test]
fn jmp_indirect_honors_page_wrap_bug() {
    // JMP ($02FF): low byte from $02FF, high byte from $0200, not $0300.
    let mut nes = nes_with_program(0x0100, &[0x6C, 0xFF, 0x02]);
    nes.cpu.bus.write(0x02FF, 0x34);
    nes.cpu.bus.write(0x0200, 0x12);
    nes.cpu.bus.write(0x0300, 0x99);
    nes.step();
    assert_eq!(nes.cpu.pc, 0x1234);
}

#[test]
fn jsr_rts_round_trip() {
    // JSR $0210; (at $0210) RTS; then a NOP back at $0203.
    let mut nes = nes_with_program(0x0200, &[0x20, 0x10, 0x02, 0xEA]);
    nes.cpu.bus.write(0x0210, 0x60);
    nes.cpu.sp = 0xFD;
    let c = cycles_of_one_step(&mut nes);
    assert_eq!(c, 6);
    assert_eq!(nes.cpu.pc, 0x0210);
    assert_eq!(nes.cpu.sp, 0xFB);
    let c2 = cycles_of_one_step(&mut nes);
    assert_eq!(c2, 6);
    assert_eq!(nes.cpu.pc, 0x0203);
    assert_eq!(nes.cpu.sp, 0xFD);
}

#[test]
fn stack_push_pop_php_pla() {
    // LDA #$C3; PHA; LDA #$00; PLA.
    let mut nes = nes_with_program(0x0200, &[0xA9, 0xC3, 0x48, 0xA9, 0x00, 0x68]);
    nes.cpu.sp = 0xFD;
    nes.step();
    nes.step();
    assert_eq!(nes.cpu.sp, 0xFC);
    nes.step();
    assert_eq!(nes.cpu.a, 0x00);
    nes.step();
    assert_eq!(nes.cpu.a, 0xC3);
    assert_eq!(nes.cpu.sp, 0xFD);
    assert_eq!(nes.cpu.p & 0x80, 0x80);
}

#[test]
fn sei_and_plp_defer_interrupt_disable_one_instruction() {
    // CLI; SEI; the I flag change lands at the start of the following
    // instruction, not during SEI itself.
    let mut nes = nes_with_program(0x0200, &[0x58, 0x78, 0xEA]);
    nes.step();
    assert_eq!(nes.cpu.p & 0x04, 0x00);
    nes.step();
    // SEI executed: the update is pending, not yet applied.
    assert_eq!(nes.cpu.p & 0x04, 0x00);
    assert!(nes.cpu.update_interrupt_disable.0);
    nes.step();
    assert_eq!(nes.cpu.p & 0x04, 0x04);
}

#[test]
fn inc_dec_memory_and_registers() {
    // INC $10; DEX; INY.
    let mut nes = nes_with_program(0x0200, &[0xE6, 0x10, 0xCA, 0xC8]);
    nes.cpu.bus.write(0x0010, 0xFF);
    nes.cpu.x = 1;
    nes.cpu.y = 0xFF;
    nes.step();
    assert_eq!(nes.cpu.bus.read(0x0010), 0x00);
    assert_eq!(nes.cpu.p & 0x02, 0x02);
    nes.step();
    assert_eq!(nes.cpu.x, 0);
    assert_eq!(nes.cpu.p & 0x02, 0x02);
    nes.step();
    assert_eq!(nes.cpu.y, 0);
    assert_eq!(nes.cpu.p & 0x02, 0x02);
}

#[test]
fn shifts_and_rotates_through_carry() {
    // SEC; ROL A with A = 0x40 -> 0x81, C = 0.
    let mut nes = nes_with_program(0x0200, &[0x38, 0x2A]);
    nes.cpu.a = 0x40;
    nes.step();
    nes.step();
    assert_eq!(nes.cpu.a, 0x81);
    assert_eq!(nes.cpu.p & 0x01, 0x00);
    // LSR A with A = 0x01 -> 0, C = 1, Z = 1.
    let mut nes2 = nes_with_program(0x0200, &[0x4A]);
    nes2.cpu.a = 0x01;
    nes2.step();
    assert_eq!(nes2.cpu.a, 0x00);
    assert_eq!(nes2.cpu.p & 0x03, 0x03);
}

#[test]
fn cmp_sets_carry_zero_negative() {
    // LDA #$30; CMP #$30 -> C=1, Z=1; CMP #$40 -> C=0, N=1.
    let mut nes = nes_with_program(0x0200, &[0xA9, 0x30, 0xC9, 0x30, 0xC9, 0x40]);
    nes.step();
    nes.step();
    assert_eq!(nes.cpu.p & 0x03, 0x03);
    nes.step();
    assert_eq!(nes.cpu.p & 0x01, 0x00);
    assert_eq!(nes.cpu.p & 0x80, 0x80);
}

#[test]
fn brk_pushes_and_loads_irq_vector() {
    let mut nes = nes_with_program(0x0200, &[0x00]);
    nes.cpu.sp = 0xFD;
    let c = cycles_of_one_step(&mut nes);
    assert_eq!(c, 7);
    assert_eq!(nes.cpu.sp, 0xFA);
    assert_eq!(nes.cpu.p & 0x04, 0x04);
    // Vector at $FFFE reads 0 from the empty ROM.
    assert_eq!(nes.cpu.pc, 0x0000);
}

#[test]
fn undocumented_lax_and_sax() {
    // LAX $10 loads A and X together; SAX $11 stores A & X.
    let mut nes = nes_with_program(0x0200, &[0xA7, 0x10, 0x87, 0x11]);
    nes.cpu.bus.write(0x0010, 0x6C);
    nes.step();
    assert_eq!(nes.cpu.a, 0x6C);
    assert_eq!(nes.cpu.x, 0x6C);
    nes.step();
    assert_eq!(nes.cpu.bus.read(0x0011), 0x6C);
}

#[test]
fn reset_loads_vector_and_sets_warmup() {
    let mut img = nrom_image();
    // Reset vector at $FFFC -> offset into the 16 KiB bank, mirrored.
    // $FFFC maps to PRG offset 0x3FFC.
    img[16 + 0x3FFC] = 0x34;
    img[16 + 0x3FFD] = 0x12;
    let mut nes = Nes::new(SystemVersion::NTSC);
    nes.set_rom(Rom::new(img).unwrap());
    nes.on();
    assert_eq!(nes.cpu.pc, 0x1234);
    assert_eq!(nes.cpu.bus.cycles, 7);
    assert!(nes.cpu.bus.reset);
    // During warm-up, ctrl/mask/scroll/addr writes are dropped.
    nes.cpu.bus.write(0x2001, 0x08);
    assert_eq!(nes.cpu.bus.ppu.mask, 0x00);
}
