use gbemu::cpu::Cpu;
use gbemu::emu::{gb_frame, FRAME_CLKS};
use gbemu::gpu::{gpu_cycle, Gpu, GpuMode, FB_SIZE};
use gbemu::input::Input;
use gbemu::mem::Mem;
use gbemu::timer::Timer;

#[test]
fn one_frame_presents_once_and_wraps_ly() {
    let mut mem = Mem::new();
    let mut gpu = Gpu::new();
    assert_eq!(mem.read(0xFF40), 0x91);
    assert_eq!(mem.read(0xFF44), 0);
    let presents = gpu_cycle(&mut gpu, &mut mem, 70224);
    assert_eq!(presents, 1);
    assert_eq!(mem.read(0xFF44), 0);
    assert_eq!(gpu.mode, GpuMode::OAM);
    assert_eq!(gpu.clk, 0);
    assert_eq!(mem.read(0xFF0F) & 0x01, 0x01);
}

#[test]
fn frame_mode_sequence_in_small_steps() {
    let mut mem = Mem::new();
    let mut gpu = Gpu::new();
    let mut seen = vec![0u32; 256];
    let mut hblank_entries = 0;
    let mut vblank_lines = std::collections::BTreeSet::new();
    let mut presents = 0;
    let mut last_mode = mem.read(0xFF41) & 3;
    let mut last_ly = mem.read(0xFF44);
    seen[last_ly as usize] += 1;
    let mut clk = 0u64;
    while clk < 70224 {
        clk += 4;
        presents += gpu_cycle(&mut gpu, &mut mem, clk);
        let mode = mem.read(0xFF41) & 3;
        let ly = mem.read(0xFF44);
        if mode != last_mode && mode == 0 {
            hblank_entries += 1;
        }
        if ly != last_ly {
            seen[ly as usize] += 1;
        }
        if mode == 1 {
            vblank_lines.insert(ly);
        }
        last_mode = mode;
        last_ly = ly;
    }
    assert_eq!(presents, 1);
    assert_eq!(hblank_entries, 144);
    assert_eq!(vblank_lines.len(), 10);
    // 0 is seen at the start and again after the wrap
    assert_eq!(seen[0], 2);
    for l in 1..154 {
        assert_eq!(seen[l], 1, "line {}", l);
    }
    for l in 154..256 {
        assert_eq!(seen[l], 0);
    }
}

#[test]
fn lyc_coincidence_sets_stat_bit() {
    let mut mem = Mem::new();
    let mut gpu = Gpu::new();
    mem.write(0xFF45, 1);
    mem.write(0xFF41, 0x40);
    gpu_cycle(&mut gpu, &mut mem, 456);
    assert_eq!(mem.read(0xFF44), 1);
    assert_eq!(mem.read(0xFF41) & 0x04, 0x04);
    assert_eq!(mem.read(0xFF0F) & 0x02, 0x02);
    gpu_cycle(&mut gpu, &mut mem, 912);
    assert_eq!(mem.read(0xFF44), 2);
    assert_eq!(mem.read(0xFF41) & 0x04, 0);
}

#[test]
fn lcd_off_is_quiescent() {
    let mut mem = Mem::new();
    let mut gpu = Gpu::new();
    mem.write(0xFF40, 0x11);
    assert_eq!(gpu_cycle(&mut gpu, &mut mem, 100_000), 0);
    assert_eq!(mem.read(0xFF44), 0);
    assert_eq!(gpu.mode, GpuMode::OAM);
    assert_eq!(gpu.prev, 100_000);
}

#[test]
fn background_tile_is_drawn_through_palette() {
    let mut mem = Mem::new();
    let mut gpu = Gpu::new();
    // LCDC 0x91: unsigned tile data at 0x8000, map at 0x9800; tile 0 row 0 = colour 3 everywhere
    mem.write(0x8000, 0xFF);
    mem.write(0x8001, 0xFF);
    mem.write(0xFF47, 0xE4);
    gpu_cycle(&mut gpu, &mut mem, 80 + 172);
    assert_eq!(gpu.fb.len(), FB_SIZE);
    for x in 0..160 {
        assert_eq!(gpu.fb[x], 3);
    }
    // line 1 is still blank
    assert_eq!(gpu.fb[160], 0);
}

#[test]
fn sprite_drawn_over_background() {
    let mut mem = Mem::new();
    let mut gpu = Gpu::new();
    mem.write(0xFF40, 0x93); // sprites on
    mem.write(0xFF48, 0xE4);
    // tile 1: row 0 low plane 0x80 -> leftmost pixel colour 1
    mem.write(0x8010, 0x80);
    mem.write(0x8011, 0x00);
    // sprite 0 at screen (10, 0), tile 1
    mem.write(0xFE00, 16);
    mem.write(0xFE01, 18);
    mem.write(0xFE02, 1);
    mem.write(0xFE03, 0);
    gpu_cycle(&mut gpu, &mut mem, 80 + 172);
    assert_eq!(gpu.fb[10], 1);
    assert_eq!(gpu.fb[11], 0);
    assert_eq!(gpu.fb[9], 0);
}

#[test]
fn frame_driver_runs_one_frame() {
    let mut cpu = Cpu::new();
    let mut gpu = Gpu::new();
    let mut input = Input::new();
    let mut timer = Timer::new();
    let mut mem = Mem::new();
    // JR -2: spin in place
    mem.rom[0x100] = 0x18;
    mem.rom[0x101] = 0xFE;
    let out = gb_frame(&mut cpu, &mut gpu, &mut input, &mut timer, &mut mem);
    assert!(cpu.clk >= FRAME_CLKS);
    assert_eq!(out.presents, 1);
    assert_eq!(out.diagnostic, None);
    assert_eq!(gpu.prev, cpu.clk);
    assert_eq!(timer.prev, cpu.clk);
}

#[test]
fn frame_driver_returns_when_stopped() {
    let mut cpu = Cpu::new();
    let mut gpu = Gpu::new();
    let mut input = Input::new();
    let mut timer = Timer::new();
    let mut mem = Mem::new();
    mem.rom[0x100] = 0x10;
    mem.rom[0x101] = 0x00;
    gb_frame(&mut cpu, &mut gpu, &mut input, &mut timer, &mut mem);
    assert_eq!(cpu.stop, 1);
    assert_eq!(cpu.clk, 8);
}

#[test]
fn presented_frame_is_copied_at_vblank_entry() {
    let mut mem = Mem::new();
    let mut gpu = Gpu::new();
    mem.write(0x8000, 0xFF);
    mem.write(0x8001, 0xFF);
    mem.write(0xFF47, 0xE4);
    // up to VBLANK entry: 144 lines of 456 T-states
    assert_eq!(gpu_cycle(&mut gpu, &mut mem, 144 * 456), 1);
    assert_eq!(gpu.mode, GpuMode::VBLANK);
    assert_eq!(gpu.screen.len(), FB_SIZE);
    assert_eq!(gpu.screen[0], 3);
    assert_eq!(gpu.screen, gpu.fb);
    // drawing line 0 of the next frame leaves the presented copy alone
    mem.write(0x8000, 0x00);
    mem.write(0x8001, 0x00);
    gpu_cycle(&mut gpu, &mut mem, 154 * 456 + 80 + 172);
    assert_eq!(gpu.fb[0], 0);
    assert_eq!(gpu.screen[0], 3);
}
