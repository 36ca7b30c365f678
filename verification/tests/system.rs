use dmgcore::gameboy::Gameboy;
use dmgcore::graphics::PPU;
use dmgcore::joypad::Joypad;
use dmgcore::mappers::{Cartridge, MBC1, MBC3};
use dmgcore::memory::AddressSpace;
use dmgcore::sound::{apu_enabled, ch1_initial_volume, master_left_volume, master_right_volume};

fn rom_image(kind: u8, rom_code: u8, ram_code: u8) -> Vec<u8> {
    let banks = 2usize << rom_code;
    let mut bytes = vec![0u8; banks * 16384];
    bytes[0x147] = kind;
    bytes[0x148] = rom_code;
    bytes[0x149] = ram_code;
    // A marker at the start of every bank.
    for b in 0..banks {
        bytes[b * 16384] = 0xB0 + b as u8;
    }
    bytes
}

#[test]
fn div_write_resets_counter_idempotently() {
    let mut mem = AddressSpace::new();
    mem.tick(200);
    assert!(mem.read(0xFF04) == 0 || mem.internal_div > 0);
    for _ in 0..200 {
        mem.tick(255);
    }
    mem.write(0xFF04, 0x55);
    assert_eq!(mem.internal_div, 0);
    let tima_after_first = mem.read(0xFF05);
    mem.write(0xFF04, 0xAA);
    assert_eq!(mem.internal_div, 0);
    assert_eq!(mem.read(0xFF05), tima_after_first);
}

#[test]
fn tima_counts_on_falling_edge_of_selected_bit() {
    let mut mem = AddressSpace::new();
    // TAC = enabled, input from DIV bit 3: a full period is 16 cycles.
    mem.write(0xFF07, 0x05);
    mem.tick(160);
    assert_eq!(mem.read(0xFF05), 10);
}

#[test]
fn tac_disable_at_high_line_causes_one_extra_increment() {
    let mut mem = AddressSpace::new();
    mem.write(0xFF07, 0x05);
    // After 8 cycles DIV bit 3 is high, so the input line is high.
    mem.tick(8);
    assert_eq!(mem.read(0xFF05), 0);
    // Turning the timer off drops the line: exactly one extra increment.
    mem.write(0xFF07, 0x01);
    mem.tick(1);
    assert_eq!(mem.read(0xFF05), 1);
    mem.tick(64);
    assert_eq!(mem.read(0xFF05), 1);
}

#[test]
fn tima_overflow_reloads_tma_and_raises_interrupt() {
    let mut mem = AddressSpace::new();
    mem.write(0xFF05, 0xFF);
    mem.write(0xFF06, 0x23);
    mem.write(0xFF07, 0x05);
    mem.tick(16);
    assert_eq!(mem.read(0xFF05), 0x23);
    // Timer interrupt is bit 2 of IF.
    assert_eq!(mem.read(0xFF0F) & 0x04, 0x04);
}

#[test]
fn oam_dma_copies_work_ram_page() {
    let mut mem = AddressSpace::new();
    for i in 0..160u16 {
        mem.write(0xC200 + i, (i as u8).wrapping_mul(3).wrapping_add(7));
    }
    mem.write(0xFF46, 0xC2);
    mem.tick(160);
    mem.unlock_oam();
    for i in 0..160u16 {
        assert_eq!(mem.read(0xFE00 + i), (i as u8).wrapping_mul(3).wrapping_add(7));
    }
}

#[test]
fn dma_write_while_running_is_ignored() {
    let mut mem = AddressSpace::new();
    mem.write(0xC000, 0x11);
    mem.write(0xD000, 0x99);
    mem.write(0xFF46, 0xC0);
    mem.tick(10);
    mem.write(0xFF46, 0xD0);
    mem.tick(150);
    mem.unlock_oam();
    assert_eq!(mem.read(0xFE00), 0x11);
}

#[test]
fn vram_and_oam_gating() {
    let mut mem = AddressSpace::new();
    // Both start locked: reads give 0xFF, writes are dropped.
    assert_eq!(mem.read(0x8000), 0xFF);
    mem.write(0x8000, 0x42);
    mem.unlock_vram();
    assert_eq!(mem.read(0x8000), 0x00);
    mem.write(0x8000, 0x42);
    assert_eq!(mem.read(0x8000), 0x42);
    mem.unlock_oam();
    mem.write(0xFE05, 0x77);
    assert_eq!(mem.read(0xFE05), 0x77);
    mem.lock_oam();
    assert_eq!(mem.read(0xFE05), 0xFF);
}

#[test]
fn echo_ram_mirrors_work_ram() {
    let mut mem = AddressSpace::new();
    mem.write(0xC123, 0x5A);
    assert_eq!(mem.read(0xE123), 0x5A);
    mem.write(0xE456, 0xA5);
    assert_eq!(mem.read(0xC456), 0xA5);
}

#[test]
fn interrupt_flag_readback_keeps_upper_bits() {
    let mut mem = AddressSpace::new();
    assert_eq!(mem.read(0xFF0F), 0xE0);
    mem.write(0xFF0F, 0x05);
    assert_eq!(mem.read(0xFF0F), 0xE5);
    // IE is stored verbatim but reads back with the upper three bits 1.
    mem.write(0xFFFF, 0x1F);
    assert_eq!(mem.read(0xFFFF), 0xFF);
    mem.write(0xFFFF, 0x01);
    assert_eq!(mem.read(0xFFFF), 0xE1);
}

#[test]
fn oam_is_unreadable_while_dma_runs() {
    let mut mem = AddressSpace::new();
    mem.unlock_oam();
    mem.write(0xFE00, 0x55);
    assert_eq!(mem.read(0xFE00), 0x55);
    mem.write(0xFF46, 0xC0);
    // With the transfer in flight, OAM reads 0xFF and drops writes even
    // though the PPU lock is open.
    assert_eq!(mem.read(0xFE00), 0xFF);
    mem.write(0xFE01, 0x77);
    mem.tick(160);
    assert_eq!(mem.read(0xFE01), 0x00);
}

#[test]
fn unusable_and_unmapped_regions_read_ff() {
    let mut mem = AddressSpace::new();
    mem.write(0xFEA0, 0x12);
    assert_eq!(mem.read(0xFEA0), 0xFF);
    assert_eq!(mem.read(0xFEFF), 0xFF);
    mem.write(0xFF03, 0x34);
    assert_eq!(mem.read(0xFF03), 0xFF);
    assert_eq!(mem.read(0xFF08), 0xFF);
    mem.write(0xFF4C, 0x56);
    assert_eq!(mem.read(0xFF4C), 0xFF);
    assert_eq!(mem.read(0xFF7F), 0xFF);
}

#[test]
fn nr52_power_off_clears_audio_registers() {
    let mut mem = AddressSpace::new();
    mem.write(0xFF26, 0x80);
    mem.write(0xFF10, 0x55);
    mem.write(0xFF24, 0x77);
    mem.write(0xFF30, 0xAB);
    mem.write(0xFF26, 0x00);
    assert!(!apu_enabled(&mem));
    assert_eq!(mem.read(0xFF10), 0x00);
    assert_eq!(mem.read(0xFF24), 0x00);
    // Wave RAM is kept.
    assert_eq!(mem.read(0xFF30), 0xAB);
}

#[test]
fn ly_is_read_only_and_stat_mask_writable() {
    let mut mem = AddressSpace::new();
    mem.write(0xFF44, 0x55);
    assert_eq!(mem.read(0xFF44), 0x00);
    mem.write(0xFF41, 0xFF);
    // Only bits 3-6 are writable.
    assert_eq!(mem.read(0xFF41), 0x78);
}

#[test]
fn one_vblank_interrupt_per_frame() {
    let mut mem = AddressSpace::new();
    let mut ppu = PPU::new();
    mem.write(0xFF40, 0x91);
    let mut vblanks = 0;
    for _ in 0..70224 {
        ppu.single_tick(&mut mem);
        if mem.read(0xFF0F) & 0x01 != 0 {
            vblanks += 1;
            mem.write(0xFF0F, 0);
        }
    }
    assert_eq!(vblanks, 1);
    // LY runs its 154-line cycle and returns to the start.
    assert_eq!(mem.read(0xFF44), 0);
}

#[test]
fn stat_irq_fires_on_rising_edge_only() {
    let mut mem = AddressSpace::new();
    let mut ppu = PPU::new();
    mem.write(0xFF40, 0x91);
    // Enable the LYC compare interrupt with LYC = 1: the line rises when
    // LY reaches 1, fires once, and holding it high does not fire again.
    mem.write(0xFF45, 0x01);
    mem.write(0xFF41, 0x40);
    let mut lcd_irqs = 0;
    for _ in 0..1500 {
        ppu.single_tick(&mut mem);
        if mem.read(0xFF0F) & 0x02 != 0 {
            lcd_irqs += 1;
            mem.write(0xFF0F, 0);
        }
    }
    assert_eq!(lcd_irqs, 1);
}

#[test]
fn background_line_renders_through_palette() {
    let mut mem = AddressSpace::new();
    let mut ppu = PPU::new();
    mem.unlock_vram();
    mem.unlock_oam();
    // Tile 0: every row 0xFF/0x00, color index 1 everywhere.
    for row in 0..8u16 {
        mem.write(0x8000 + row * 2, 0xFF);
        mem.write(0x8000 + row * 2 + 1, 0x00);
    }
    // BGP maps color 1 to shade 1.
    mem.write(0xFF47, 0xE4);
    mem.write(0xFF40, 0x91);
    for _ in 0..456 {
        ppu.single_tick(&mut mem);
    }
    for x in 0..160usize {
        assert_eq!(ppu.framebuffer[x], 1);
    }
}

#[test]
fn joypad_matrix_and_interrupt() {
    let mut mem = AddressSpace::new();
    let mut pad = Joypad::new();
    // Select the d-pad row (bit 4 low).
    mem.write(0xFF00, 0x20);
    pad.update_state(0xFF, &mut mem);
    assert_eq!(mem.read(0xFF00) & 0x0F, 0x0F);
    // Press Right (bit 0): selected edge raises the Joypad interrupt.
    pad.update_state(0xFE, &mut mem);
    assert_eq!(mem.read(0xFF00) & 0x0F, 0x0E);
    assert_eq!(mem.read(0xFF0F) & 0x10, 0x10);
}

#[test]
fn mbc1_bank_switching() {
    let mut mem = AddressSpace::new();
    let rom = rom_image(0x01, 0x01, 0x02);
    assert!(mem.load_rom(rom).is_ok());
    assert_eq!(mem.read(0x0000), 0xB0);
    assert_eq!(mem.read(0x4000), 0xB1);
    mem.write(0x2000, 0x02);
    assert_eq!(mem.read(0x4000), 0xB2);
    mem.write(0x2000, 0x00);
    // Bank 0 coerces to 1.
    assert_eq!(mem.read(0x4000), 0xB1);
    // RAM gated by the enable register.
    assert_eq!(mem.read(0xA000), 0xFF);
    mem.write(0x0000, 0x0A);
    mem.write(0xA000, 0x33);
    assert_eq!(mem.read(0xA000), 0x33);
    mem.write(0x0000, 0x00);
    assert_eq!(mem.read(0xA000), 0xFF);
}

#[test]
fn mbc3_rtc_latch_reads_snapshot() {
    let mut mem = AddressSpace::new();
    let rom = rom_image(0x13, 0x01, 0x03);
    assert!(mem.load_rom(rom).is_ok());
    assert_eq!(mem.mapper.cartridge_type(), Some(Cartridge::MBC3));
    mem.write(0x0000, 0x0A);
    mem.write(0x4000, 0x08);
    // Latch on the 0 -> 1 edge.
    mem.write(0x6000, 0x00);
    mem.write(0x6000, 0x01);
    assert_eq!(mem.read(0xA000), 0);
    // Writing seconds sets the live clock.
    mem.write(0xA000, 0x3B);
    mem.write(0x6000, 0x00);
    mem.write(0x6000, 0x01);
    assert_eq!(mem.read(0xA000), 0x3B);
}

#[test]
fn load_rom_rejects_bad_images() {
    let mut mem = AddressSpace::new();
    assert!(mem.load_rom(vec![0u8; 0x100]).is_err());
    let mut bad = rom_image(0x05, 0x00, 0x00);
    assert!(mem.load_rom(bad.clone()).is_err());
    bad[0x147] = 0x00;
    assert!(mem.load_rom(bad).is_ok());
}

#[test]
fn mapper_save_and_restore() {
    let rom = rom_image(0x03, 0x00, 0x02);
    let mut m = MBC1::new(rom.clone());
    m.write(0x0000, 0x0A);
    m.write(0xA000, 0x42);
    let saved = m.save_persistent_state();
    let mut m2 = MBC1::new(rom);
    m2.load_persistent_state(saved);
    m2.write(0x0000, 0x0A);
    assert_eq!(m2.read(0xA000), 0x42);
}

#[test]
fn rtc_advances_once_per_second() {
    let rom = rom_image(0x13, 0x00, 0x02);
    let mut m = MBC3::new(rom);
    for _ in 0..16486 {
        m.tick(255);
    }
    m.tick(214);
    // 16486 * 255 + 214 == 4204144 >= one second of cycles.
    assert_eq!(m.rtc.RTCS, 1);
}

#[test]
fn apu_registers_round_trip() {
    let mut mem = AddressSpace::new();
    mem.write(0xFF26, 0x80);
    assert!(apu_enabled(&mem));
    mem.write(0xFF24, 0x57);
    assert_eq!(master_left_volume(&mem), 5);
    assert_eq!(master_right_volume(&mem), 7);
    mem.write(0xFF12, 0xA3);
    assert_eq!(ch1_initial_volume(&mem), 0x0A);
    // NR13 is write-only.
    mem.write(0xFF13, 0x5A);
    assert_eq!(mem.read(0xFF13), 0xFF);
    assert_eq!(mem.apu_read(0xFF13), 0x5A);
}

#[test]
fn gameboy_boot_and_serial_byte() {
    let mut gb = Gameboy::new();
    gb.boot();
    assert_eq!(gb.cpu.registers.AF(), 0x01B0);
    assert_eq!(gb.cpu.registers.PC(), 0x0100);
    // The documented post-boot I/O values read back, NR52 included.
    assert_eq!(gb.memory.read(0xFF26), 0xF1);
    assert_eq!(gb.memory.read(0xFF40), 0x91);
    assert_eq!(gb.memory.read(0xFF47), 0xFC);
    gb.memory.write(0xFF01, b'P');
    gb.memory.write(0xFF02, 0x81);
    let (cycles, serial) = gb.step(0xFF);
    assert!(cycles >= 4);
    assert_eq!(serial, Some(b'P'));
    assert_eq!(gb.memory.read(0xFF02), 0);
}

#[test]
fn step_charges_the_same_cycles_everywhere() {
    let mut gb = Gameboy::new();
    gb.boot();
    let cpu_before = gb.cpu.clock;
    let ppu_before = gb.ppu.tick_i;
    let (cycles, _) = gb.step(0xFF);
    assert_eq!(gb.cpu.clock - cpu_before, cycles as u64);
    assert_eq!(gb.ppu.tick_i - ppu_before, cycles as u64);
}

#[test]
fn mbc3_save_carries_the_clock() {
    let rom = rom_image(0x13, 0x00, 0x02);
    let mut m = MBC3::new(rom.clone());
    m.write(0x0000, 0x0A);
    m.write(0xA000, 0x42);
    // Set the seconds register through the RTC window.
    m.write(0x4000, 0x08);
    m.write(0xA000, 0x2A);
    let saved = m.save_persistent_state();
    assert_eq!(saved.len(), 8192 + 5);
    assert_eq!(saved[8192], 0x2A);
    let mut m2 = MBC3::new(rom);
    m2.load_persistent_state(saved);
    assert_eq!(m2.rtc.RTCS, 0x2A);
    m2.write(0x0000, 0x0A);
    m2.write(0x4000, 0x00);
    assert_eq!(m2.read(0xA000), 0x42);
}

#[test]
fn vram_is_locked_while_drawing() {
    let mut mem = AddressSpace::new();
    let mut ppu = PPU::new();
    mem.write(0xFF40, 0x91);
    // 100 dots into the line the PPU is drawing: VRAM reads 0xFF.
    for _ in 0..100 {
        ppu.single_tick(&mut mem);
    }
    assert_eq!(mem.read(0x8000), 0xFF);
    // In the horizontal blank it is open again.
    for _ in 0..200 {
        ppu.single_tick(&mut mem);
    }
    assert_eq!(mem.read(0x8000), 0x00);
}

#[test]
fn ppu_disable_resets_line_and_unlocks() {
    let mut mem = AddressSpace::new();
    let mut ppu = PPU::new();
    mem.write(0xFF40, 0x91);
    for _ in 0..1000 {
        ppu.single_tick(&mut mem);
    }
    assert_eq!(mem.read(0xFF44), 2);
    // Clearing LCDC bit 7 resets LY and dot at once and unlocks the RAMs.
    mem.write(0xFF40, 0x11);
    ppu.single_tick(&mut mem);
    assert_eq!(mem.read(0xFF44), 0);
    assert_eq!(mem.read(0x8000), 0x00);
    mem.unlock_oam();
    // Re-enabling resumes from line 0 in the OAM scan.
    mem.write(0xFF40, 0x91);
    for _ in 0..456 {
        ppu.single_tick(&mut mem);
    }
    assert_eq!(mem.read(0xFF44), 1);
}

#[test]
fn halt_idles_at_four_cycles() {
    assert_eq!(dmgcore::opcodes::get_instr(0x76).cycles_taken, 4);
    assert_eq!(dmgcore::opcodes::get_instr(0x76).length, 1);
}

#[test]
fn overlapping_sprite_with_smaller_x_wins() {
    let mut mem = AddressSpace::new();
    let mut ppu = PPU::new();
    mem.unlock_vram();
    mem.unlock_oam();
    // Tile 1 draws color 2, tile 2 draws color 3, on every pixel.
    for row in 0..8u16 {
        mem.write(0x8010 + row * 2, 0x00);
        mem.write(0x8011 + row * 2, 0xFF);
        mem.write(0x8020 + row * 2, 0xFF);
        mem.write(0x8021 + row * 2, 0xFF);
    }
    // Sprite 0 (earlier OAM slot) at x = 20 with tile 1; sprite 1 at
    // x = 18 with tile 2.  Where they overlap, the smaller x must win
    // even though its OAM index is higher.
    mem.write(0xFE00, 16);
    mem.write(0xFE01, 20);
    mem.write(0xFE02, 1);
    mem.write(0xFE03, 0);
    mem.write(0xFE04, 16);
    mem.write(0xFE05, 18);
    mem.write(0xFE06, 2);
    mem.write(0xFE07, 0);
    mem.write(0xFF48, 0xE4);
    mem.write(0xFF40, 0x93);
    for _ in 0..456 {
        ppu.single_tick(&mut mem);
    }
    // Columns 10-17 belong to sprite 1, 12-17 being the overlap.
    assert_eq!(ppu.framebuffer[10], 3);
    assert_eq!(ppu.framebuffer[12], 3);
    assert_eq!(ppu.framebuffer[17], 3);
    // Columns 18-19 are sprite 0 alone.
    assert_eq!(ppu.framebuffer[18], 2);
    assert_eq!(ppu.framebuffer[19], 2);
}
