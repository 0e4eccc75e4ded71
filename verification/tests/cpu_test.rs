//! CPU instruction tests: each builds a small cartridge image, runs the
//! program to its break, and checks the register file and flags.

use nes_core::bus::Bus;
use nes_core::cpu::status::{CARRY_FLAG, NEGATIVE_FLAG, OVERFLOW_FLAG, ZERO_FLAG};
use nes_core::cpu::CPU6502;
use nes_core::rom::Rom;

fn test_rom(program: &[u8]) -> Rom {
    const HEADER_SIZE: usize = 16;
    const PRG_PAGE_SIZE: usize = 0x4000;
    const CHR_PAGE_SIZE: usize = 0x2000;

    let nes_tag: [u8; 4] = [0x4E, 0x45, 0x53, 0x1A];
    let prg_size: u8 = 1;
    let chr_size: u8 = 1;
    let flags6: u8 = 0;
    let flags7: u8 = 0;
    let flags8: u8 = 0;
    let flags9: u8 = 0;
    let flags10: u8 = 0;
    let bytes11_15: [u8; 5] = [0; 5];
    let mut prg_rom = [0u8; PRG_PAGE_SIZE];
    let chr_rom = [0u8; CHR_PAGE_SIZE];

    // reset vector: the program sits at 0x8000
    prg_rom[PRG_PAGE_SIZE - 3] = 0x80;
    prg_rom[PRG_PAGE_SIZE - 4] = 0x00;
    prg_rom[..program.len()].copy_from_slice(program);

    let mut rom = Vec::with_capacity(HEADER_SIZE + PRG_PAGE_SIZE + CHR_PAGE_SIZE);

    rom.extend_from_slice(&nes_tag);
    rom.push(prg_size);
    rom.push(chr_size);
    rom.push(flags6);
    rom.push(flags7);
    rom.push(flags8);
    rom.push(flags9);
    rom.push(flags10);
    rom.extend_from_slice(&bytes11_15);
    rom.extend_from_slice(&prg_rom);
    rom.extend_from_slice(&chr_rom);

    Rom::new(&rom).unwrap()
}

#[test]
fn lda_0xa9_immediate_load_data() {
    let rom = test_rom(&[0xa9, 0x05, 0x00]);
    let bus = Bus::new(rom);
    let mut cpu = CPU6502::new(bus);
    cpu.reset();
    cpu.run();
    assert_eq!(cpu.accumulator, 0x05);
    assert!((cpu.status_reg.status & ZERO_FLAG) == 0);
    assert!((cpu.status_reg.status & NEGATIVE_FLAG) == 0)
}

#[test]
fn lda_0xa9_zero_flag() {
    let rom = test_rom(&[0xa9, 0x00, 0x00]);
    let bus = Bus::new(rom);
    let mut cpu = CPU6502::new(bus);
    cpu.reset();
    cpu.run();
    assert!((cpu.status_reg.status & ZERO_FLAG) == 0b10);
    assert!((cpu.status_reg.status & NEGATIVE_FLAG) == 0)
}

#[test]
fn lda_0xa9_negative_flag() {
    let rom = test_rom(&[0xa9, 0xff, 0x00]);
    let bus = Bus::new(rom);
    let mut cpu = CPU6502::new(bus);
    cpu.reset();
    cpu.run();
    assert!((cpu.status_reg.status & NEGATIVE_FLAG) == 0b1000_0000);
    assert!((cpu.status_reg.status & ZERO_FLAG) == 0);
}

#[test]
fn ldx_0xa2_immediate_load() {
    let rom = test_rom(&[0xa2, 0x05, 0x00]);
    let bus = Bus::new(rom);
    let mut cpu = CPU6502::new(bus);
    cpu.reset();
    cpu.run();
    assert_eq!(cpu.indx_reg_x, 0x05);
    assert!((cpu.status_reg.status & ZERO_FLAG) == 0);
    assert!((cpu.status_reg.status & NEGATIVE_FLAG) == 0)
}

#[test]
fn ldy_0xa0_immediate_load() {
    let rom = test_rom(&[0xa0, 0x05, 0x00]);
    let bus = Bus::new(rom);
    let mut cpu = CPU6502::new(bus);
    cpu.reset();
    cpu.run();
    assert_eq!(cpu.indx_reg_y, 0x05);
    assert!((cpu.status_reg.status & ZERO_FLAG) == 0);
    assert!((cpu.status_reg.status & NEGATIVE_FLAG) == 0)
}

#[test]
fn tax_0xaa_move_a_to_x() {
    let rom = test_rom(&[0xaa, 0x00]);
    let bus = Bus::new(rom);
    let mut cpu = CPU6502::new(bus);
    cpu.reset();
    cpu.accumulator = 10;
    cpu.run();
    assert_eq!(cpu.indx_reg_x, 10);
    assert!((cpu.status_reg.status & ZERO_FLAG) == 0);
    assert!((cpu.status_reg.status & NEGATIVE_FLAG) == 0)
}

#[test]
fn inx_0e8_increment_x() {
    let rom = test_rom(&[0xe8, 0x00]);
    let bus = Bus::new(rom);
    let mut cpu = CPU6502::new(bus);
    cpu.reset();
    cpu.run();
    assert_eq!(cpu.indx_reg_x, 1);
    assert!((cpu.status_reg.status & ZERO_FLAG) == 0);
    assert!((cpu.status_reg.status & NEGATIVE_FLAG) == 0)
}

#[test]
fn inx_0e8_increment_x_negative_flag() {
    let rom = test_rom(&[0xe8, 0x00]);
    let bus = Bus::new(rom);
    let mut cpu = CPU6502::new(bus);
    cpu.reset();
    cpu.indx_reg_x = 127;
    cpu.run();
    assert_eq!(cpu.indx_reg_x, 128);
    assert!((cpu.status_reg.status & ZERO_FLAG) == 0);
    assert!((cpu.status_reg.status & NEGATIVE_FLAG) == 0b1000_0000)
}

#[test]
fn test_5_ops_working_together() {
    let rom = test_rom(&[0xa9, 0xc0, 0xaa, 0xe8, 0x00]);
    let bus = Bus::new(rom);
    let mut cpu = CPU6502::new(bus);
    cpu.reset();
    cpu.run();
    assert_eq!(cpu.indx_reg_x, 0xc1)
}

#[test]
fn test_inx_overflow() {
    let rom = test_rom(&[0xe8, 0xe8, 0x00]);
    let bus = Bus::new(rom);
    let mut cpu = CPU6502::new(bus);
    cpu.reset();
    cpu.indx_reg_x = 0xff;
    cpu.run();
    assert_eq!(cpu.indx_reg_x, 1)
}

#[test]
fn test_lda_from_bus() {
    let rom = test_rom(&[0xa5, 0x10, 0x00]);
    let bus = Bus::new(rom);
    let mut cpu = CPU6502::new(bus);
    cpu.mem_write(0x10, 0x55);
    cpu.reset();
    cpu.run();

    assert_eq!(cpu.accumulator, 0x55);
}

#[test]
fn test_sta_0x85_store_accumulatore() {
    let rom = test_rom(&[0x85, 0x10, 0x00]);
    let bus = Bus::new(rom);
    let mut cpu = CPU6502::new(bus);
    cpu.reset();
    cpu.accumulator = 123;
    cpu.run();
    assert_eq!(cpu.mem_read(0x10), 123);
}

#[test]
fn inx_wraps_to_zero() {
    // X at 0xFF steps to 0: the zero flag rises and negative falls
    let rom = test_rom(&[0xe8, 0x00]);
    let bus = Bus::new(rom);
    let mut cpu = CPU6502::new(bus);
    cpu.reset();
    cpu.indx_reg_x = 0xff;
    cpu.run();
    assert_eq!(cpu.indx_reg_x, 0);
    assert!((cpu.status_reg.status & ZERO_FLAG) != 0);
    assert!((cpu.status_reg.status & NEGATIVE_FLAG) == 0);
}

#[test]
fn indirect_jmp_page_bug() {
    // a pointer of 0x02FF takes its high byte from 0x0200, not 0x0300
    let rom = test_rom(&[0x6c, 0xff, 0x02]);
    let bus = Bus::new(rom);
    let mut cpu = CPU6502::new(bus);
    cpu.reset();
    cpu.mem_write(0x02ff, 0x00);
    cpu.mem_write(0x0200, 0x80);
    cpu.mem_write(0x0300, 0x55);
    cpu.step();
    assert_eq!(cpu.program_counter, 0x8000);
}

#[test]
fn adc_sets_overflow_and_carry() {
    // 0x50 + 0x50 = 0xA0: overflow and negative, no carry
    let rom = test_rom(&[0xa9, 0x50, 0x69, 0x50, 0x00]);
    let bus = Bus::new(rom);
    let mut cpu = CPU6502::new(bus);
    cpu.reset();
    cpu.run();
    assert_eq!(cpu.accumulator, 0xa0);
    assert!((cpu.status_reg.status & OVERFLOW_FLAG) != 0);
    assert!((cpu.status_reg.status & NEGATIVE_FLAG) != 0);
    assert!((cpu.status_reg.status & CARRY_FLAG) == 0);
}

#[test]
fn sbc_with_carry_set() {
    // SEC; LDA #5; SBC #3 leaves 2 with the carry still set
    let rom = test_rom(&[0x38, 0xa9, 0x05, 0xe9, 0x03, 0x00]);
    let bus = Bus::new(rom);
    let mut cpu = CPU6502::new(bus);
    cpu.reset();
    cpu.run();
    assert_eq!(cpu.accumulator, 2);
    assert!((cpu.status_reg.status & CARRY_FLAG) != 0);
}

#[test]
fn php_plp_round_trip_keeps_flags() {
    // SEC; PHP; CLC; PLP: the carry comes back, break stays clear
    let rom = test_rom(&[0x38, 0x08, 0x18, 0x28, 0x00]);
    let bus = Bus::new(rom);
    let mut cpu = CPU6502::new(bus);
    cpu.reset();
    cpu.run();
    assert!((cpu.status_reg.status & CARRY_FLAG) != 0);
    assert!((cpu.status_reg.status & 0x10) == 0);
    assert!((cpu.status_reg.status & 0x20) != 0);
}

#[test]
fn compare_sets_carry_when_greater_or_equal() {
    // LDA #5; CMP #3: carry set, zero clear
    let rom = test_rom(&[0xa9, 0x05, 0xc9, 0x03, 0x00]);
    let bus = Bus::new(rom);
    let mut cpu = CPU6502::new(bus);
    cpu.reset();
    cpu.run();
    assert!((cpu.status_reg.status & CARRY_FLAG) != 0);
    assert!((cpu.status_reg.status & ZERO_FLAG) == 0);
}

#[test]
fn branch_taken_skips_instruction() {
    // LDA #0; BEQ +2 skips the LDA #1, so A stays 0
    let rom = test_rom(&[0xa9, 0x00, 0xf0, 0x02, 0xa9, 0x01, 0x00]);
    let bus = Bus::new(rom);
    let mut cpu = CPU6502::new(bus);
    cpu.reset();
    cpu.run();
    assert_eq!(cpu.accumulator, 0);
}

#[test]
fn hlt_opcode_traps_sticky() {
    // opcode 0x02 is unusable: the CPU traps and refuses to step further
    let rom = test_rom(&[0x02, 0xe8, 0x00]);
    let bus = Bus::new(rom);
    let mut cpu = CPU6502::new(bus);
    cpu.reset();
    cpu.step();
    assert!(cpu.trapped);
    let x_before = cpu.indx_reg_x;
    assert!(cpu.step());
    assert_eq!(cpu.indx_reg_x, x_before);
}

#[test]
fn run_with_callback_runs_between_instructions() {
    // the callback seeds the byte the program then loads
    let rom = test_rom(&[0xa5, 0x10, 0x00]);
    let bus = Bus::new(rom);
    let mut cpu = CPU6502::new(bus);
    cpu.reset();
    cpu.run_with_callback(|c: &mut CPU6502| {
        c.mem_write(0x10, 0x42);
    });
    assert_eq!(cpu.accumulator, 0x42);
}
