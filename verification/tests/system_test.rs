//! Tests of the cartridge parser, the PPU register dance, the APU channels
//! and the controller port.

use nes_core::apu::regs::length_counter::LengthCounter;
use nes_core::apu::regs::sweep::Sweep;
use nes_core::apu::Apu;
use nes_core::bus::Bus;
use nes_core::cpu::CPU6502;
use nes_core::joypad::{Buttons, JoyPad};
use nes_core::ppu::address_reg::AddressReg;
use nes_core::ppu::control_reg::ControlReg;
use nes_core::ppu::render::frame::Frame;
use nes_core::ppu::Ppu;
use nes_core::rom::{Mirroring, Rom, RomError};

fn image(prg_pages: u8, chr_pages: u8, flags6: u8, flags7: u8) -> Vec<u8> {
    let mut raw = vec![0x4E, 0x45, 0x53, 0x1A, prg_pages, chr_pages, flags6, flags7];
    raw.extend_from_slice(&[0u8; 8]);
    raw.extend(std::iter::repeat(0u8).take(16384 * prg_pages as usize));
    raw.extend(std::iter::repeat(0u8).take(8192 * chr_pages as usize));
    raw
}

#[test]
fn container_parse() {
    // a 24592-byte image: one program page and one character page
    let raw = image(1, 1, 0, 0);
    assert_eq!(raw.len(), 24592);
    let rom = Rom::new(&raw).unwrap();
    assert_eq!(rom.prg_size(), 16384);
    assert_eq!(rom.chr_size(), 8192);
    assert!(matches!(rom.get_mirroring(), Mirroring::Horizontal));
}

#[test]
fn container_rejects_bad_tag() {
    let mut raw = image(1, 1, 0, 0);
    raw[0] = 0x4D;
    assert!(matches!(Rom::new(&raw), Err(RomError::BadTag)));
}

#[test]
fn container_rejects_version() {
    let raw = image(1, 1, 0, 0x08);
    assert!(matches!(Rom::new(&raw), Err(RomError::UnsupportedVersion)));
}

#[test]
fn container_rejects_truncated() {
    let mut raw = image(1, 1, 0, 0);
    raw.truncate(20000);
    assert!(matches!(Rom::new(&raw), Err(RomError::TruncatedPayload)));
}

#[test]
fn container_mirroring_and_mapper() {
    let raw = image(1, 1, 0x01, 0x10);
    let rom = Rom::new(&raw).unwrap();
    assert!(matches!(rom.get_mirroring(), Mirroring::Vertical));
    // mapper: high nibble of byte 7 over high nibble of byte 6
    let raw2 = image(1, 1, 0x10, 0x20);
    let rom2 = Rom::new(&raw2).unwrap();
    assert_eq!(rom2.clone_prg_rom().len(), 16384);
    assert_eq!(rom2.clone_chr_rom().len(), 8192);
    let _ = rom.read_prg(0);
    let _ = rom2.reag_chr(0);
}

#[test]
fn joypad_serializes_buttons_in_order() {
    // strobe high latches, strobe low shifts out A,B,Select,Start,Up,Down,
    // Left,Right; the ninth read returns 1
    let mut pad = JoyPad::new();
    pad.set_button(Buttons::A);
    pad.set_button(Buttons::Start);
    pad.set_button(Buttons::Right);
    pad.write(1);
    pad.write(0);
    let expected = [1, 0, 0, 1, 0, 0, 0, 1];
    for bit in expected {
        assert_eq!(pad.read(), bit);
    }
    assert_eq!(pad.read(), 1);
    assert_eq!(pad.read(), 1);
}

#[test]
fn joypad_strobe_high_repeats_first_bit() {
    let mut pad = JoyPad::new();
    pad.set_button(Buttons::A);
    pad.write(1);
    assert_eq!(pad.read(), 1);
    assert_eq!(pad.read(), 1);
    pad.unset_button(Buttons::A);
    assert_eq!(pad.read(), 0);
}

#[test]
fn ppu_status_read_clears_vblank_and_toggle() {
    let mut ppu = Ppu::new(Vec::new(), Mirroring::Horizontal);
    ppu.status_reg.flags = 0x80;
    ppu.internal_regs.w = true;
    let data = ppu.read_status();
    assert_eq!(data, 0x80);
    assert_eq!(ppu.status_reg.flags & 0x80, 0);
    assert!(!ppu.internal_regs.w);
}

#[test]
fn ppu_addr_write_pair_forces_bit14_zero() {
    let mut ppu = Ppu::new(Vec::new(), Mirroring::Horizontal);
    ppu.write_to_ppu_addr(0xFF);
    ppu.write_to_ppu_addr(0xFF);
    assert_eq!(ppu.internal_regs.v & 0x4000, 0);
    assert_eq!(ppu.internal_regs.v, 0x3FFF);
}

#[test]
fn ppu_vram_write_and_buffered_read() {
    let mut ppu = Ppu::new(vec![0u8; 8192], Mirroring::Vertical);
    ppu.write_to_ppu_addr(0x24);
    ppu.write_to_ppu_addr(0x05);
    ppu.write_to_data(0x66);
    assert_eq!(ppu.vram[0x405], 0x66);

    // the data port is buffered below the palette range: the first read
    // returns stale contents, the second the stored byte
    ppu.write_to_ppu_addr(0x24);
    ppu.write_to_ppu_addr(0x05);
    let _stale = ppu.read_data();
    let value = ppu.read_data();
    assert_eq!(value, 0x66);
}

#[test]
fn ppu_palette_read_is_direct() {
    let mut ppu = Ppu::new(Vec::new(), Mirroring::Horizontal);
    ppu.write_to_ppu_addr(0x3F);
    ppu.write_to_ppu_addr(0x01);
    ppu.write_to_data(0x2A);
    ppu.write_to_ppu_addr(0x3F);
    ppu.write_to_ppu_addr(0x01);
    assert_eq!(ppu.read_data(), 0x2A);
    // the 0x3F10 slot mirrors 0x3F00
    ppu.write_to_ppu_addr(0x3F);
    ppu.write_to_ppu_addr(0x10);
    ppu.write_to_data(0x19);
    assert_eq!(ppu.palette_table[0], 0x19);
}

#[test]
fn ppu_vblank_begins_at_scanline_241() {
    let mut ppu = Ppu::new(Vec::new(), Mirroring::Horizontal);
    ppu.write_to_ctrl(0x80);
    // run to scanline 241, dot 2
    for _ in 0..(241 * 341 + 2) {
        ppu.tick();
    }
    assert!(ppu.status_reg.flags & 0x80 != 0);
    assert!(ppu.is_nmi_interrupt());
    assert!(ppu.take_nmi_interrupt().is_some());
    assert!(!ppu.is_nmi_interrupt());
}

#[test]
fn ppu_oam_round_trip() {
    let mut ppu = Ppu::new(Vec::new(), Mirroring::Horizontal);
    ppu.write_to_oam_addr(0x10);
    ppu.write_to_oam_data(0x77);
    ppu.write_to_oam_addr(0x10);
    assert_eq!(ppu.read_oam_data(), 0x77);

    let page = [0xABu8; 256];
    ppu.write_to_oam_dma(&page);
    assert_eq!(ppu.read_oam_data(), 0xAB);
}

#[test]
fn ppu_scroll_writes_land_in_latch() {
    let mut ppu = Ppu::new(Vec::new(), Mirroring::Horizontal);
    ppu.write_to_scroll(0x7D);
    // coarse X is the high five bits, fine X the low three
    assert_eq!(ppu.internal_regs.t & 0x1F, 0x0F);
    assert_eq!(ppu.internal_regs.x, 0x05);
    ppu.write_to_scroll(0x5E);
    assert_eq!((ppu.internal_regs.t & 0x03E0) >> 5, 0x0B);
    assert_eq!((ppu.internal_regs.t & 0x7000) >> 12, 0x06);
}

#[test]
fn ppu_mask_and_ctrl_accessors() {
    let mut ppu = Ppu::new(Vec::new(), Mirroring::Horizontal);
    ppu.write_to_mask(0x18);
    assert!(ppu.mask_reg.show_background());
    assert!(ppu.mask_reg.show_sprites());
    ppu.write_to_ctrl(0x10);
    assert_eq!(ppu.ctrl_reg.bknd_pattern_addr(), 0x1000);
    assert_eq!(ppu.ctrl_reg.sprt_pattern_addr(), 0x0000);
    assert_eq!(ppu.ctrl_reg.sprite_size(), 8);
    assert_eq!(ppu.ctrl_reg.nametable_addr(), 0x2000);
}

#[test]
fn frame_set_pixel_writes_three_bytes() {
    let mut frame = Frame::new();
    frame.set_pixel(1, 0, (10, 20, 30));
    assert_eq!(frame.data[3], 10);
    assert_eq!(frame.data[4], 20);
    assert_eq!(frame.data[5], 30);
    // out-of-range coordinates are ignored
    frame.set_pixel(256, 0, (1, 2, 3));
    assert_eq!(frame.data.len(), 256 * 240 * 3);
}

#[test]
fn apu_length_counter_table_and_enable() {
    let mut lc = LengthCounter::new();
    lc.write(0xFF, 0x08);
    // load index 1 selects the 254 entry
    assert_eq!(lc.counter, 254);
    lc.tick();
    assert_eq!(lc.counter, 253);
    lc.halt = true;
    lc.tick();
    assert_eq!(lc.counter, 253);
}

#[test]
fn apu_status_reflects_length_counters() {
    let mut apu = Apu::new();
    apu.write_register(0x4015, 0x01);
    apu.write_register(0x4003, 0x08);
    assert_eq!(apu.read_status() & 0x01, 0x01);
    // disabling the channel zeroes its length counter
    apu.write_register(0x4015, 0x00);
    assert_eq!(apu.read_status(), 0);
}

#[test]
fn apu_dmc_level_stays_in_range() {
    let mut apu = Apu::new();
    apu.write_register(0x4011, 0xFF);
    let levels = apu.get_audio_levels();
    assert_eq!(levels.dmc, 0x7F);
    assert!(levels.dmc <= 127);
    apu.write_register(0x4011, 0x00);
    assert_eq!(apu.get_audio_levels().dmc, 0);
}

#[test]
fn apu_triangle_sequence_starts_at_15() {
    let apu = Apu::new();
    let levels = apu.get_audio_levels();
    assert_eq!(levels.triangle, 15);
    assert_eq!(levels.pulse1, 0);
    assert_eq!(levels.noise, 0);
}

#[test]
fn apu_sweep_targets_period_plus_shifted() {
    let mut sweep = Sweep::new();
    // enabled, shift of one, no negate
    sweep.write(0xFF, 0x81);
    // the write flags a reload: the first tick only reloads the divider
    assert_eq!(sweep.tick(0x0400, false), None);
    assert_eq!(sweep.tick(0x0400, false), Some(0x0600));
    assert!(!sweep.is_muted());
    // a target past 0x7FF mutes
    sweep.tick(0x0700, false);
    assert!(sweep.is_muted());
}

#[test]
fn bus_clocks_ppu_three_dots_per_cpu_cycle() {
    let raw = image(1, 1, 0, 0);
    let rom = Rom::new(&raw).unwrap();
    let mut bus = Bus::new(rom);
    bus.tick(100);
    // 100 CPU cycles: the PPU saw 300 dots, the APU 100 cycles
    assert_eq!(bus.ppu.cycles, 300);
    assert_eq!(bus.ppu.scanline, 0);
    assert_eq!(bus.apu.global_cycle, 100);
    bus.tick(100);
    assert_eq!(bus.ppu.cycles, 600 - 341);
    assert_eq!(bus.ppu.scanline, 1);
}

#[test]
fn bus_ram_mirrors_every_two_kib() {
    let raw = image(1, 1, 0, 0);
    let rom = Rom::new(&raw).unwrap();
    let mut bus = Bus::new(rom);
    bus.mem_write(0x0005, 0x42);
    assert_eq!(bus.mem_read(0x0005), 0x42);
    assert_eq!(bus.mem_read(0x0805), 0x42);
    assert_eq!(bus.mem_read(0x1805), 0x42);
}

#[test]
fn bus_prg_rom_mirrors_single_page() {
    let mut raw = image(1, 1, 0, 0);
    raw[16] = 0x99;
    let rom = Rom::new(&raw).unwrap();
    let mut bus = Bus::new(rom);
    assert_eq!(bus.mem_read(0x8000), 0x99);
    assert_eq!(bus.mem_read(0xC000), 0x99);
}

#[test]
fn bus_controller_port_round_trip() {
    let raw = image(1, 1, 0, 0);
    let rom = Rom::new(&raw).unwrap();
    let mut bus = Bus::new(rom);
    bus.joypad.set_button(Buttons::B);
    bus.mem_write(0x4016, 1);
    bus.mem_write(0x4016, 0);
    assert_eq!(bus.mem_read(0x4016), 0);
    assert_eq!(bus.mem_read(0x4016), 1);
}

#[test]
fn cpu_memory_helper_round_trip() {
    let mut mem = nes_core::cpu::memory::Memory::new();
    mem.mem_write_u16(0x0200, 0xBEEF);
    assert_eq!(mem.mem_read_u16(0x0200), 0xBEEF);
    assert_eq!(mem.mem_read(0x0200), 0xEF);
    assert_eq!(mem.mem_read(0x0201), 0xBE);
}

#[test]
fn cpu_load_places_program_in_rom_window() {
    let raw = image(1, 1, 0, 0);
    let rom = Rom::new(&raw).unwrap();
    let bus = Bus::new(rom);
    let mut cpu = CPU6502::new(bus);
    cpu.load_and_run(vec![0xa9, 0x07, 0x00]);
    assert_eq!(cpu.accumulator, 0x07);
}

#[test]
fn address_reg_latch_and_increment() {
    let mut reg = AddressReg::new();
    reg.update(0x21, false);
    reg.update(0xFF, true);
    assert_eq!(reg.get(), 0x21FF);

    let mut ctrl = ControlReg::new();
    ctrl.update(0x04);
    reg.increment(ctrl.vram_addr_increment());
    assert_eq!(reg.get(), 0x221F);

    // addresses above the 14-bit space wrap back into it
    reg.update(0x45, false);
    assert_eq!(reg.get(), 0x051F);
}

#[test]
fn internal_regs_coarse_increments_wrap() {
    let mut regs = nes_core::ppu::internal_regs::InternalRegs::new();
    regs.v = 0x001F;
    regs.coarse_x_inc();
    // a wrap from coarse-X 31 clears it and flips the horizontal table
    assert_eq!(regs.v, 0x0400);
    regs.v = 0x73A0;
    regs.coarse_y_inc();
    // fine Y 7, coarse Y 29: both clear and the vertical table flips
    assert_eq!(regs.v, 0x0800);
}

#[test]
fn noise_shift_register_feedback_step() {
    let mut noise = nes_core::apu::channels::noise::Noise::new();
    assert_eq!(noise.shift_register, 1);
    // bit 0 is 1 and the long-mode tap (bit 1) is 0: feedback 1 lands in
    // bit 14 as the register shifts right
    noise.step_timer();
    assert_eq!(noise.shift_register, 0x4000);
    noise.step_timer();
    assert_eq!(noise.shift_register, 0x2000);
}

#[test]
fn envelope_decays_after_divider_runs_out() {
    let mut env = nes_core::apu::regs::envelope::Envelope::new();
    env.write(0xFF, 0x02);
    env.restart();
    env.tick();
    assert_eq!(env.decay_level, 15);
    assert_eq!(env.divider, 2);
    env.tick();
    env.tick();
    env.tick();
    assert_eq!(env.decay_level, 14);
    assert_eq!(env.output_volume(), 14);
}

#[test]
fn audio_fifo_collects_resampled_levels() {
    let raw = image(1, 1, 0, 0);
    let rom = Rom::new(&raw).unwrap();
    let mut bus = Bus::new(rom);
    // 100 CPU cycles push the resampler past its threshold twice
    bus.tick(100);
    let samples = bus.take_audio_samples();
    assert_eq!(samples.len(), 2);
    assert_eq!(samples[0].triangle, 15);
    assert!(bus.take_audio_samples().is_empty());
}

#[test]
fn bus_oam_dma_copies_page_and_stalls() {
    let raw = image(1, 1, 0, 0);
    let rom = Rom::new(&raw).unwrap();
    let mut bus = Bus::new(rom);
    for i in 0..256u16 {
        bus.mem_write(0x0200 + i, i as u8);
    }
    let cycles_before = bus.apu.global_cycle;
    bus.mem_write(0x4014, 0x02);
    let stalled = bus.apu.global_cycle - cycles_before;
    assert!(stalled == 513 || stalled == 514);
    bus.ppu.write_to_oam_addr(0x00);
    assert_eq!(bus.ppu.read_oam_data(), 0x00);
    bus.ppu.write_to_oam_addr(0x47);
    assert_eq!(bus.ppu.read_oam_data(), 0x47);
}

#[test]
fn rendering_frame_reaches_frame_ready() {
    // a cartridge with pattern data, rendering enabled: a full frame of
    // dots runs the pixel pipeline and raises the frame-ready signal
    let mut raw = image(1, 1, 0, 0);
    for (i, b) in raw.iter_mut().enumerate().skip(16 + 16384) {
        *b = (i % 251) as u8;
    }
    let rom = Rom::new(&raw).unwrap();
    let mut bus = Bus::new(rom);
    bus.mem_write(0x2001, 0x18);
    bus.mem_write(0x2000, 0x80);
    let mut frames = 0;
    for _ in 0..30000 {
        bus.tick(3);
        if bus.poll_frame_ready() {
            frames += 1;
            break;
        }
    }
    assert_eq!(frames, 1);
    assert!(bus.poll_nmi_status().is_some());
}
