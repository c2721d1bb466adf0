use gbemu::consts::{A, B, C, F, H, L};
use gbemu::cpu::{cpu_cycle, daa, Cpu, Diagnostic, Ime};
use gbemu::mem::Mem;

/// A processor and a memory with `prog` placed at 0x0100, where execution starts.
fn machine(prog: &[u8]) -> (Cpu, Mem) {
    let cpu = Cpu::new();
    let mut mem = Mem::new();
    for (i, b) in prog.iter().enumerate() {
        mem.rom[0x100 + i] = *b;
    }
    (cpu, mem)
}

fn run(cpu: &mut Cpu, mem: &mut Mem, steps: usize) -> Vec<Option<Diagnostic>> {
    (0..steps).map(|_| cpu_cycle(cpu, mem)).collect()
}

#[test]
fn ld_bc_then_inc_bc() {
    let (mut cpu, mut mem) = machine(&[0x01, 0x34, 0x12, 0x03]);
    let f = cpu.regs[F];
    run(&mut cpu, &mut mem, 2);
    assert_eq!(cpu.get_hilo(B, C), 0x1235);
    assert_eq!(cpu.regs[F], f);
    assert_eq!(cpu.clk, 12 + 8);
}

#[test]
fn add_a_b_sets_z_h_c() {
    let (mut cpu, mut mem) = machine(&[0x3E, 0x3A, 0x06, 0xC6, 0x80]);
    run(&mut cpu, &mut mem, 3);
    assert_eq!(cpu.regs[A], 0x00);
    assert_eq!(cpu.regs[F], 0xB0);
}

#[test]
fn sub_immediate_borrows() {
    let (mut cpu, mut mem) = machine(&[0x3E, 0x00, 0xD6, 0x01]);
    run(&mut cpu, &mut mem, 2);
    assert_eq!(cpu.regs[A], 0xFF);
    assert_eq!(cpu.regs[F], 0x70);
}

#[test]
fn store_and_load_through_hl() {
    let (mut cpu, mut mem) = machine(&[0x21, 0x00, 0x80, 0x36, 0xAA, 0x7E]);
    run(&mut cpu, &mut mem, 3);
    assert_eq!(cpu.regs[A], 0xAA);
    assert_eq!(mem.read(0x8000), 0xAA);
    assert_eq!(mem.vram[0], 0xAA);
}

#[test]
fn ei_delays_interrupt_by_one_instruction() {
    let (mut cpu, mut mem) = machine(&[0xFB, 0x00, 0x00]);
    mem.write(0xFFFF, 0x01);
    mem.write(0xFF0F, 0x01);
    cpu_cycle(&mut cpu, &mut mem);
    assert_eq!(cpu.ime, Ime::PendingEnable);
    assert_eq!(cpu.pc, 0x101);
    cpu_cycle(&mut cpu, &mut mem);
    assert_eq!(cpu.ime, Ime::Enabled);
    assert_eq!(cpu.pc, 0x102);
    cpu_cycle(&mut cpu, &mut mem);
    assert_eq!(cpu.pc, 0x0040);
    assert_eq!(cpu.ime, Ime::Disabled);
    assert_eq!(mem.read(0xFF0F) & 0x01, 0);
    assert_eq!(cpu.sp, 0xFFFC);
    assert_eq!(mem.read(0xFFFC), 0x02);
    assert_eq!(mem.read(0xFFFD), 0x01);
}

#[test]
fn interrupt_picks_lowest_source() {
    let (mut cpu, mut mem) = machine(&[0x00]);
    cpu.ime = Ime::Enabled;
    mem.write(0xFFFF, 0x1F);
    mem.write(0xFF0F, 0x0C);
    let clk = cpu.clk;
    cpu_cycle(&mut cpu, &mut mem);
    assert_eq!(cpu.pc, 0x0050);
    assert_eq!(mem.read(0xFF0F), 0x08);
    assert_eq!(cpu.clk, clk + 20);
}

#[test]
fn di_takes_effect_after_next_instruction() {
    let (mut cpu, mut mem) = machine(&[0xF3, 0x00]);
    cpu.ime = Ime::Enabled;
    cpu_cycle(&mut cpu, &mut mem);
    assert_eq!(cpu.ime, Ime::PendingDisable);
    cpu_cycle(&mut cpu, &mut mem);
    assert_eq!(cpu.ime, Ime::Disabled);
}

#[test]
fn halt_idles_until_interrupt_requested() {
    let (mut cpu, mut mem) = machine(&[0x76, 0x3C]);
    cpu_cycle(&mut cpu, &mut mem);
    assert_eq!(cpu.halt, 1);
    cpu_cycle(&mut cpu, &mut mem);
    assert_eq!(cpu.pc, 0x101);
    assert_eq!(cpu.clk, 8);
    mem.write(0xFFFF, 0x04);
    mem.write(0xFF0F, 0x04);
    let a = cpu.regs[A];
    cpu_cycle(&mut cpu, &mut mem);
    assert_eq!(cpu.halt, 0);
    assert_eq!(cpu.regs[A], a.wrapping_add(1));
    assert_eq!(cpu.clk, 8 + 4 + 4);
}

#[test]
fn undefined_opcode_repeats_and_reports() {
    let (mut cpu, mut mem) = machine(&[0xD3]);
    let d = run(&mut cpu, &mut mem, 3);
    for x in d {
        assert_eq!(x, Some(Diagnostic::UndefinedOpcode { pc: 0x100, opcode: 0xD3 }));
    }
    assert_eq!(cpu.pc, 0x100);
    assert_eq!(cpu.clk, 12);
}

#[test]
fn stop_with_bad_second_byte_is_reported() {
    let (mut cpu, mut mem) = machine(&[0x10, 0x01]);
    let d = cpu_cycle(&mut cpu, &mut mem);
    assert_eq!(d, Some(Diagnostic::BadStopEncoding { pc: 0x101, byte: 0x01 }));
    assert_eq!(cpu.stop, 1);
    assert_eq!(cpu.pc, 0x102);
    let (mut cpu2, mut mem2) = machine(&[0x10, 0x00]);
    assert_eq!(cpu_cycle(&mut cpu2, &mut mem2), None);
    assert_eq!(cpu2.stop, 1);
}

#[test]
fn push_then_pop_into_other_pair() {
    // LD BC,0xBEEF; PUSH BC; POP DE
    let (mut cpu, mut mem) = machine(&[0x01, 0xEF, 0xBE, 0xC5, 0xD1]);
    run(&mut cpu, &mut mem, 3);
    assert_eq!(cpu.get_hilo(gbemu::consts::D, gbemu::consts::E), 0xBEEF);
    assert_eq!(cpu.sp, 0xFFFE);
}

#[test]
fn pop_af_clears_low_nibble() {
    // LD BC,0x12FF; PUSH BC; POP AF
    let (mut cpu, mut mem) = machine(&[0x01, 0xFF, 0x12, 0xC5, 0xF1]);
    run(&mut cpu, &mut mem, 3);
    assert_eq!(cpu.regs[A], 0x12);
    assert_eq!(cpu.regs[F], 0xF0);
}

#[test]
fn inc_then_dec_pair_wraps() {
    // LD HL,0xFFFF; INC HL; DEC HL
    let (mut cpu, mut mem) = machine(&[0x21, 0xFF, 0xFF, 0x23]);
    run(&mut cpu, &mut mem, 2);
    assert_eq!(cpu.get_hilo(H, L), 0x0000);
    mem.rom[0x104] = 0x2B;
    cpu_cycle(&mut cpu, &mut mem);
    assert_eq!(cpu.get_hilo(H, L), 0xFFFF);
}

#[test]
fn call_and_ret_round_trip() {
    // CALL 0x0200 ... at 0x0200: RET
    let (mut cpu, mut mem) = machine(&[0xCD, 0x00, 0x02]);
    mem.rom[0x200] = 0xC9;
    cpu_cycle(&mut cpu, &mut mem);
    assert_eq!(cpu.pc, 0x0200);
    assert_eq!(cpu.sp, 0xFFFC);
    assert_eq!(cpu.clk, 24);
    cpu_cycle(&mut cpu, &mut mem);
    assert_eq!(cpu.pc, 0x0103);
    assert_eq!(cpu.sp, 0xFFFE);
    assert_eq!(cpu.clk, 24 + 16);
}

#[test]
fn half_carry_of_add_and_sub() {
    // LD A,0x0F; ADD A,0x01 -> H; LD A,0x10; SUB A,0x01 -> H; LD A,0x1F; SUB A,0x01 -> no H
    let (mut cpu, mut mem) = machine(&[0x3E, 0x0F, 0xC6, 0x01, 0x3E, 0x10, 0xD6, 0x01, 0x3E, 0x1F, 0xD6, 0x01]);
    run(&mut cpu, &mut mem, 2);
    assert_eq!(cpu.regs[F] & 0x20, 0x20);
    run(&mut cpu, &mut mem, 2);
    assert_eq!(cpu.regs[F] & 0x20, 0x20);
    run(&mut cpu, &mut mem, 2);
    assert_eq!(cpu.regs[F] & 0x20, 0x00);
    let (mut cpu2, mut mem2) = machine(&[0x3E, 0x0E, 0xC6, 0x01]);
    run(&mut cpu2, &mut mem2, 2);
    assert_eq!(cpu2.regs[F] & 0x20, 0x00);
}

#[test]
fn conditional_jump_costs_more_when_taken() {
    // XOR A (Z set); JR Z,+2; ...; JR NZ,+2
    let (mut cpu, mut mem) = machine(&[0xAF, 0x28, 0x02, 0x00, 0x00, 0x20, 0x05]);
    cpu_cycle(&mut cpu, &mut mem);
    let clk = cpu.clk;
    cpu_cycle(&mut cpu, &mut mem);
    assert_eq!(cpu.pc, 0x105);
    assert_eq!(cpu.clk, clk + 12);
    cpu_cycle(&mut cpu, &mut mem);
    assert_eq!(cpu.pc, 0x107);
    assert_eq!(cpu.clk, clk + 12 + 8);
}

#[test]
fn jr_backwards_offset() {
    // NOP; JR -3 (back to 0x0100)
    let (mut cpu, mut mem) = machine(&[0x00, 0x18, 0xFD]);
    run(&mut cpu, &mut mem, 2);
    assert_eq!(cpu.pc, 0x100);
}

#[test]
fn and_or_xor_flags() {
    // LD A,0xF0; AND 0x0F -> 0, Z H; OR 0x81 -> 0x81; XOR 0x81 -> 0, Z
    let (mut cpu, mut mem) = machine(&[0x3E, 0xF0, 0xE6, 0x0F, 0xF6, 0x81, 0xEE, 0x81]);
    run(&mut cpu, &mut mem, 2);
    assert_eq!(cpu.regs[A], 0);
    assert_eq!(cpu.regs[F], 0xA0);
    cpu_cycle(&mut cpu, &mut mem);
    assert_eq!(cpu.regs[A], 0x81);
    assert_eq!(cpu.regs[F], 0x00);
    cpu_cycle(&mut cpu, &mut mem);
    assert_eq!(cpu.regs[A], 0);
    assert_eq!(cpu.regs[F], 0x80);
}

#[test]
fn adc_and_sbc_use_carry() {
    // SCF; LD A,0x0F; ADC A,0x00 -> 0x10 with H; SCF; SBC A,0x00 -> 0x0F with N H
    let (mut cpu, mut mem) = machine(&[0x37, 0x3E, 0x0F, 0xCE, 0x00, 0x37, 0xDE, 0x00]);
    run(&mut cpu, &mut mem, 3);
    assert_eq!(cpu.regs[A], 0x10);
    assert_eq!(cpu.regs[F], 0x20);
    run(&mut cpu, &mut mem, 2);
    assert_eq!(cpu.regs[A], 0x0F);
    assert_eq!(cpu.regs[F], 0x60);
}

#[test]
fn cp_leaves_a() {
    let (mut cpu, mut mem) = machine(&[0x3E, 0x42, 0xFE, 0x42]);
    run(&mut cpu, &mut mem, 2);
    assert_eq!(cpu.regs[A], 0x42);
    assert_eq!(cpu.regs[F], 0xC0);
}

#[test]
fn add_hl_keeps_zero_flag() {
    // XOR A; LD HL,0x0FFF; LD BC,0x0001; ADD HL,BC
    let (mut cpu, mut mem) = machine(&[0xAF, 0x21, 0xFF, 0x0F, 0x01, 0x01, 0x00, 0x09]);
    run(&mut cpu, &mut mem, 4);
    assert_eq!(cpu.get_hilo(H, L), 0x1000);
    assert_eq!(cpu.regs[F], 0xA0);
}

#[test]
fn add_sp_signed_and_ld_hl_sp() {
    // LD SP,0x00FF; ADD SP,+1; LD HL,SP-2
    let (mut cpu, mut mem) = machine(&[0x31, 0xFF, 0x00, 0xE8, 0x01, 0xF8, 0xFE]);
    run(&mut cpu, &mut mem, 2);
    assert_eq!(cpu.sp, 0x0100);
    assert_eq!(cpu.regs[F], 0x30);
    cpu_cycle(&mut cpu, &mut mem);
    assert_eq!(cpu.get_hilo(H, L), 0x00FE);
    assert_eq!(cpu.regs[F], 0x00);
}

#[test]
fn ld_nn_sp_stores_little_endian() {
    let (mut cpu, mut mem) = machine(&[0x08, 0x00, 0xC0]);
    cpu_cycle(&mut cpu, &mut mem);
    assert_eq!(mem.read(0xC000), 0xFE);
    assert_eq!(mem.read(0xC001), 0xFF);
    assert_eq!(cpu.clk, 20);
}

#[test]
fn rotates_of_accumulator_clear_z() {
    // LD A,0x80; RLCA -> 0x01 C; RRA -> 0x80 C
    let (mut cpu, mut mem) = machine(&[0x3E, 0x80, 0x07, 0x1F]);
    run(&mut cpu, &mut mem, 2);
    assert_eq!(cpu.regs[A], 0x01);
    assert_eq!(cpu.regs[F], 0x10);
    cpu_cycle(&mut cpu, &mut mem);
    assert_eq!(cpu.regs[A], 0x80);
    assert_eq!(cpu.regs[F], 0x10);
}

#[test]
fn prefixed_shift_swap_bit_res_set() {
    // LD B,0x80; SLA B -> 0 Z C; LD C,0xF1; SWAP C; BIT 7,C; RES 7,C; SET 0,B
    let (mut cpu, mut mem) = machine(&[
        0x06, 0x80, 0xCB, 0x20, 0x0E, 0xF1, 0xCB, 0x31, 0xCB, 0x79, 0xCB, 0xB9, 0xCB, 0xC0,
    ]);
    run(&mut cpu, &mut mem, 2);
    assert_eq!(cpu.regs[B], 0x00);
    assert_eq!(cpu.regs[F], 0x90);
    run(&mut cpu, &mut mem, 2);
    assert_eq!(cpu.regs[C], 0x1F);
    assert_eq!(cpu.regs[F], 0x00);
    cpu_cycle(&mut cpu, &mut mem);
    assert_eq!(cpu.regs[F], 0xA0);
    cpu_cycle(&mut cpu, &mut mem);
    assert_eq!(cpu.regs[C], 0x1F);
    cpu_cycle(&mut cpu, &mut mem);
    assert_eq!(cpu.regs[B], 0x01);
}

#[test]
fn sra_keeps_top_bit() {
    let (mut cpu, mut mem) = machine(&[0x3E, 0x81, 0xCB, 0x2F]);
    run(&mut cpu, &mut mem, 2);
    assert_eq!(cpu.regs[A], 0xC0);
    assert_eq!(cpu.regs[F], 0x10);
    assert_eq!(cpu.clk, 8 + 8);
}

#[test]
fn prefixed_op_on_memory() {
    // LD HL,0xC000; LD (HL),0x01; RLC (HL)
    let (mut cpu, mut mem) = machine(&[0x21, 0x00, 0xC0, 0x36, 0x01, 0xCB, 0x06]);
    run(&mut cpu, &mut mem, 3);
    assert_eq!(mem.read(0xC000), 0x02);
    assert_eq!(cpu.clk, 12 + 12 + 16);
}

#[test]
fn daa_after_bcd_addition() {
    // LD A,0x45; ADD A,0x38 -> 0x7D; DAA -> 0x83
    let (mut cpu, mut mem) = machine(&[0x3E, 0x45, 0xC6, 0x38, 0x27]);
    run(&mut cpu, &mut mem, 3);
    assert_eq!(cpu.regs[A], 0x83);
    assert_eq!(daa(0x9A, false, false, false), (0x00, 0x90));
    assert_eq!(daa(0x0F, true, true, false), (0x09, 0x40));
}

#[test]
fn cpl_scf_ccf() {
    let (mut cpu, mut mem) = machine(&[0x3E, 0x0F, 0x2F, 0x37, 0x3F]);
    run(&mut cpu, &mut mem, 2);
    assert_eq!(cpu.regs[A], 0xF0);
    assert_eq!(cpu.regs[F] & 0x60, 0x60);
    cpu_cycle(&mut cpu, &mut mem);
    assert_eq!(cpu.regs[F] & 0x70, 0x10);
    cpu_cycle(&mut cpu, &mut mem);
    assert_eq!(cpu.regs[F] & 0x70, 0x00);
}

#[test]
fn rst_and_reti() {
    // RST 0x28 ; at 0x28: RETI
    let (mut cpu, mut mem) = machine(&[0xEF]);
    mem.rom[0x28] = 0xD9;
    cpu_cycle(&mut cpu, &mut mem);
    assert_eq!(cpu.pc, 0x0028);
    cpu_cycle(&mut cpu, &mut mem);
    assert_eq!(cpu.pc, 0x0101);
    assert_eq!(cpu.ime, Ime::Enabled);
    assert_eq!(cpu.clk, 16 + 16);
}

#[test]
fn ldh_and_ld_a_nn() {
    // LD A,0x5A; LDH (0x80),A; LD A,0; LD A,(0xFF80); LD (0xC123),A
    let (mut cpu, mut mem) = machine(&[0x3E, 0x5A, 0xE0, 0x80, 0x3E, 0x00, 0xFA, 0x80, 0xFF, 0xEA, 0x23, 0xC1]);
    run(&mut cpu, &mut mem, 5);
    assert_eq!(cpu.regs[A], 0x5A);
    assert_eq!(mem.read(0xC123), 0x5A);
}

#[test]
fn hl_increment_and_decrement_loads() {
    // LD HL,0xC000; LD A,7; LD (HL+),A; LD (HL-),A ; HL back to 0xC000
    let (mut cpu, mut mem) = machine(&[0x21, 0x00, 0xC0, 0x3E, 0x07, 0x22, 0x32]);
    run(&mut cpu, &mut mem, 3);
    assert_eq!(cpu.get_hilo(H, L), 0xC001);
    cpu_cycle(&mut cpu, &mut mem);
    assert_eq!(cpu.get_hilo(H, L), 0xC000);
    assert_eq!(mem.read(0xC000), 7);
    assert_eq!(mem.read(0xC001), 7);
}

#[test]
fn boot_register_state() {
    let cpu = Cpu::default();
    assert_eq!(cpu.get_hilo(A, F), 0x01B0);
    assert_eq!(cpu.get_hilo(B, C), 0x0013);
    assert_eq!(cpu.get_hilo(gbemu::consts::D, gbemu::consts::E), 0x00D8);
    assert_eq!(cpu.get_hilo(H, L), 0x014D);
    assert_eq!(cpu.sp, 0xFFFE);
    assert_eq!(cpu.pc, 0x0100);
    assert_eq!(cpu.ime, Ime::Disabled);
}

#[test]
fn clock_never_decreases() {
    let (mut cpu, mut mem) = machine(&[0x00, 0x3C, 0x18, 0xFC]);
    let mut last = cpu.clk;
    for _ in 0..100 {
        cpu_cycle(&mut cpu, &mut mem);
        assert!(cpu.clk > last);
        last = cpu.clk;
    }
}
