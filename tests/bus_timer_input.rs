use gbemu::input::{Input, KeyCode};
use gbemu::mem::Mem;
use gbemu::timer::Timer;

#[test]
fn div_write_reads_zero() {
    let mut mem = Mem::new();
    for v in [0u8, 1, 0x7F, 0xFF] {
        mem.io[4] = 0x33;
        mem.write(0xFF04, v);
        assert_eq!(mem.read(0xFF04), 0);
    }
}

#[test]
fn tac_write_keeps_low_three_bits() {
    let mut mem = Mem::new();
    for v in [0u8, 0x05, 0xF8, 0xFF, 0xAB] {
        mem.write(0xFF07, v);
        assert_eq!(mem.read(0xFF07), v & 0x07);
    }
}

#[test]
fn rom_writes_are_ignored() {
    let mut mem = Mem::new();
    mem.rom[0x1234] = 0x11;
    mem.rom_bank[0x10] = 0x22;
    mem.write(0x1234, 0x99);
    mem.write(0x4010, 0x99);
    assert_eq!(mem.read(0x1234), 0x11);
    assert_eq!(mem.read(0x4010), 0x22);
}

#[test]
fn echo_ram_aliases_work_ram() {
    let mut mem = Mem::new();
    mem.write(0xE010, 0x5C);
    assert_eq!(mem.read(0xC010), 0x5C);
    mem.write(0xC123, 0x77);
    assert_eq!(mem.read(0xE123), 0x77);
}

#[test]
fn unusable_region_reads_zero() {
    let mut mem = Mem::new();
    mem.write(0xFEA0, 0x12);
    assert_eq!(mem.read(0xFEA0), 0);
    assert_eq!(mem.read(0xFEFF), 0);
}

#[test]
fn dma_copies_into_oam() {
    let mut mem = Mem::new();
    for i in 0..160u16 {
        mem.write(0xC000 + i, (i as u8).wrapping_mul(3));
    }
    mem.write(0xFF46, 0xC0);
    for i in 0..160u16 {
        assert_eq!(mem.read(0xFE00 + i), (i as u8).wrapping_mul(3));
    }
    assert_eq!(mem.read(0xFF46), 0xC0);
}

#[test]
fn joypad_write_requests_refresh() {
    let mut mem = Mem::new();
    assert!(!mem.input_update);
    mem.write(0xFF00, 0x20);
    assert!(mem.input_update);
    assert_eq!(mem.read(0xFF00), 0x20);
}

#[test]
fn boot_io_values() {
    let mem = Mem::default();
    assert_eq!(mem.read(0xFF10), 0x80);
    assert_eq!(mem.read(0xFF26), 0xF1);
    assert_eq!(mem.read(0xFF40), 0x91);
    assert_eq!(mem.read(0xFF47), 0xFC);
    assert_eq!(mem.read(0xFF48), 0xFF);
    assert_eq!(mem.read(0xFF49), 0xFF);
}

#[test]
fn div_counts_every_256_clocks() {
    let mut mem = Mem::new();
    let mut t = Timer::new();
    t.inc(255, &mut mem);
    assert_eq!(mem.read(0xFF04), 0);
    t.inc(256, &mut mem);
    assert_eq!(mem.read(0xFF04), 1);
    t.inc(256 * 300, &mut mem);
    assert_eq!(mem.read(0xFF04), (300 % 256) as u8);
}

#[test]
fn tima_overflow_reloads_and_interrupts() {
    let mut mem = Mem::new();
    let mut t = Timer::default();
    mem.write(0xFF07, 0x05); // enabled, 16 T-states
    mem.write(0xFF06, 0xAB);
    mem.write(0xFF05, 0xFE);
    t.inc(16, &mut mem);
    assert_eq!(mem.read(0xFF05), 0xFF);
    assert_eq!(mem.read(0xFF0F) & 0x04, 0);
    t.inc(32, &mut mem);
    assert_eq!(mem.read(0xFF05), 0xAB);
    assert_eq!(mem.read(0xFF0F) & 0x04, 0x04);
}

#[test]
fn tima_large_delta_applies_every_increment() {
    let mut mem = Mem::new();
    let mut t = Timer::new();
    mem.write(0xFF07, 0x06); // enabled, 64 T-states
    mem.write(0xFF06, 0x00);
    t.inc(64 * 300, &mut mem);
    // 300 increments from 0: one overflow at 256, then 44 more from TMA 0
    assert_eq!(mem.read(0xFF05), 44);
    assert_eq!(mem.read(0xFF0F) & 0x04, 0x04);
}

#[test]
fn tima_counts_at_1024_when_enabled() {
    let mut mem = Mem::new();
    let mut t = Timer::new();
    mem.write(0xFF07, 0x04);
    t.inc(1024 * 3, &mut mem);
    assert_eq!(mem.read(0xFF05), 3);
}

#[test]
fn tima_stopped_when_disabled() {
    let mut mem = Mem::new();
    let mut t = Timer::new();
    mem.write(0xFF07, 0x03);
    t.inc(10_000, &mut mem);
    assert_eq!(mem.read(0xFF05), 0);
}

#[test]
fn key_press_shows_in_selected_row_and_interrupts() {
    let mut mem = Mem::new();
    let mut input = Input::new();
    mem.write(0xFF00, 0x20); // select directions (bit 4 low)
    input.update(&mut mem);
    assert_eq!(mem.read(0xFF00) & 0x0F, 0x0F);
    assert!(!mem.input_update);
    input.key(&mut mem, KeyCode::Down, true);
    assert_eq!(mem.read(0xFF00) & 0x0F, 0x07);
    assert_eq!(mem.read(0xFF0F) & 0x10, 0x10);
    input.key(&mut mem, KeyCode::Down, false);
    assert_eq!(mem.read(0xFF00) & 0x0F, 0x0F);
}

#[test]
fn button_row_not_shown_when_unselected() {
    let mut mem = Mem::new();
    let mut input = Input::default();
    mem.write(0xFF00, 0x20); // directions only
    input.key(&mut mem, KeyCode::A, true);
    assert_eq!(mem.read(0xFF00) & 0x0F, 0x0F);
    assert_eq!(mem.read(0xFF0F) & 0x10, 0);
    mem.write(0xFF00, 0x10); // buttons only
    input.update(&mut mem);
    assert_eq!(mem.read(0xFF00) & 0x0F, 0x0E);
    assert_eq!(input.r1, 0x0E);
}

#[test]
fn unknown_key_changes_nothing() {
    let mut mem = Mem::new();
    let mut input = Input::new();
    input.key(&mut mem, KeyCode::Uk, true);
    assert_eq!(input.r0, 0x0F);
    assert_eq!(input.r1, 0x0F);
}

#[test]
fn default_memory_is_clean() {
    let m = Mem::default();
    assert_eq!(m.read(0xC000), 0);
    assert_eq!(m.read(0xFFFF), 0);
    assert_eq!(m.read(0xFF0F), 0);
    assert!(!m.input_update);
}

#[test]
fn default_timer_first_step_reloads_tma_once() {
    let mut mem = Mem::default();
    let mut t = Timer::default();
    assert_eq!((t.cnt, t.div, t.prev), (0, 0, 0));
    mem.write(0xFF07, 0x05);
    mem.write(0xFF05, 0xFF);
    mem.write(0xFF06, 0x42);
    t.inc(16, &mut mem);
    assert_eq!(mem.read(0xFF05), 0x42);
    assert_eq!(mem.read(0xFF0F), 0x04);
    assert_eq!(mem.read(0xFF04), 0);
}
