//! Properties that hold of every input, proved over the spec functions that
//! the contracts of the executable functions use.
use vstd::prelude::*;
use crate::consts::{A, F, FL_C, FL_H, FL_Z, GPU_INTS, LYCP, PINT_F, SCLINEP};
use crate::cpu::{AluOp, CpuView, alu_spec, lemma_flags, pair_ok, sub8};
use crate::gpu::{GpuMode, GpuView, set_line_mem, set_mode_mem, settle, threshold, transition};
use crate::isa::lemma_cycle_clock;
use crate::mem::MemView;

verus! {

/// The flags of the arithmetic/logic block: Z is set exactly when the result
/// is 0 (for CP, the result of the subtraction); AND sets H and clears C;
/// OR and XOR clear H and C.
pub proof fn law_alu_flags(op: AluOp, a: u8, v: u8, cin: bool)
    ensures
        ({
            let (r, f) = alu_spec(op, a, v, cin);
            &&& op != AluOp::Cp ==> ((f & FL_Z != 0) == (r == 0))
            &&& op == AluOp::Cp ==> ((f & FL_Z != 0) == (sub8(a, v, false).0 == 0))
            &&& op == AluOp::And ==> f & FL_H != 0 && f & FL_C == 0
            &&& (op == AluOp::Or || op == AluOp::Xor) ==> f & FL_H == 0 && f & FL_C == 0
        }),
{
    let s = a + v + (if cin { 1int } else { 0 });
    let d = a - v - (if cin { 1int } else { 0 });
    lemma_flags(((s % 256) as u8) == 0, false, a % 16 + v % 16 + 1 > 15, s > 255);
    lemma_flags(((a + v) % 256) as u8 == 0, false, a % 16 + v % 16 > 15, a + v > 255);
    lemma_flags(((s % 256) as u8) == 0, false, a % 16 + v % 16 + 0 > 15, s > 255);
    lemma_flags((((a - v) + 256) % 256) as u8 == 0, true, a % 16 < v % 16, a - v < 0);
    lemma_flags((((d + 256) % 256) as u8) == 0, true, a % 16 < v % 16 + 1, d < 0);
    lemma_flags((((d + 256) % 256) as u8) == 0, true, a % 16 < v % 16 + 0, d < 0);
    lemma_flags(a & v == 0, false, true, false);
    lemma_flags(a ^ v == 0, false, false, false);
    lemma_flags(a | v == 0, false, false, false);
}

proof fn lemma_low_nibble(x: u8)
    ensures
        x & 0xF == x % 16,
{
    assert(x & 0xF == x % 16) by (bit_vector);
}

/// Half carry: ADD sets H exactly when the low nibbles carry, SUB exactly
/// when the low nibble of the subtrahend is the larger.
pub proof fn law_half_carry(a: u8, b: u8, cin: bool)
    ensures
        (alu_spec(AluOp::Add, a, b, cin).1 & FL_H != 0) == ((a & 0xF) + (b & 0xF) > 0xF),
        (alu_spec(AluOp::Sub, a, b, cin).1 & FL_H != 0) == ((a & 0xF) < (b & 0xF)),
{
    lemma_low_nibble(a);
    lemma_low_nibble(b);
    let s = a + b;
    lemma_flags(((s % 256) as u8) == 0, false, a % 16 + b % 16 + 0 > 15, s > 255);
    let d = a - b;
    lemma_flags((((d + 256) % 256) as u8) == 0, true, a % 16 < b % 16 + 0, d < 0);
}

/// LD rr,nn followed by a read of the pair gives the two bytes at PC; INC rr
/// then DEC rr gives the pair back.
pub proof fn law_ld16_inc_dec(c: CpuView, m: MemView, rh: usize, rl: usize)
    requires
        c.wf(),
        pair_ok(rh, rl),
        rl != F,
    ensures
        c.ld_16(m, rh, rl).hilo(rh, rl) == m.read16(c.pc),
        c.inc_16(rh, rl).dec_16(rh, rl).hilo(rh, rl) == c.hilo(rh, rl),
{
}

/// POP AF keeps only the high nibble of F, whatever the stack holds.
pub proof fn law_pop_af(c: CpuView, m: MemView)
    requires
        c.wf(),
    ensures
        c.pop_16(m, A, F).regs[F as int] & 0x0F == 0,
        c.pop_16(m, A, F).wf(),
{
    let v = c.top(m);
    let lo = (v % 256) as u8;
    assert((lo & 0xF0) & 0x0F == 0) by (bit_vector);
}

/// Address in a region where a written byte reads back unchanged: video,
/// external and work RAM, and high RAM.
pub open spec fn plain_ram(a: int) -> bool {
    (0x8000 <= a <= 0xDFFF) || (0xFF80 <= a <= 0xFFFF)
}

/// PUSH of a pair then POP into another pair copies it, when the stack lies
/// in RAM. Popping into AF is left out: F keeps only its high nibble.
pub proof fn law_push_pop(c: CpuView, m: MemView, rh: usize, rl: usize, qh: usize, ql: usize)
    requires
        c.wf(),
        m.wf(),
        pair_ok(rh, rl),
        pair_ok(qh, ql),
        ql != F,
        plain_ram(c.sp - 2),
        plain_ram(c.sp - 1),
    ensures
        c.push_regs().pop_16(c.push_mem(m, c.hilo(rh, rl)), qh, ql).hilo(qh, ql) == c.hilo(rh, rl),
        c.push_regs().pop_16(c.push_mem(m, c.hilo(rh, rl)), qh, ql).sp == c.sp,
{
}

/// A write to DIV reads back 0; a write to TAC reads back its three low bits.
pub proof fn law_div_tac(m: MemView, v: u8)
    requires
        m.wf(),
    ensures
        m.write(0xFF04, v).read(0xFF04) == 0,
        m.write(0xFF07, v).read(0xFF07) == v & 0x07,
{
    assert(v & 0x07 == v % 8) by (bit_vector);
}

/// Setting LY leaves STAT bit 2 telling whether LY equals LYC.
pub proof fn law_lyc_coincidence(m: MemView, v: u8)
    requires
        m.wf(),
    ensures
        (set_line_mem(m, v).read(GPU_INTS) & 4 != 0) == (v == m.read(LYCP)),
{
    reveal(set_line_mem);
    let g = m.write(0xFF44, v).read(GPU_INTS);
    assert((g | 4) & 4 != 0 && (g & 0xFB) & 4 == 0) by (bit_vector);
}

/// The processor after `n` steps from `c` and `m`.
pub open spec fn run_cycles(c: CpuView, m: MemView, n: nat) -> (CpuView, MemView)
    decreases n,
{
    if n == 0 {
        (c, m)
    } else {
        let (c1, m1) = run_cycles(c, m, (n - 1) as nat);
        let (c2, m2, _) = c1.cycle(m1);
        (c2, m2)
    }
}

/// The clock never runs backwards: over any `n` steps it does not decrease,
/// gains at most 28 T-states a step, and, while the 64-bit counter has room,
/// at least 4 a step.
pub proof fn law_clock_monotone(c: CpuView, m: MemView, n: nat)
    requires
        c.clk <= u64::MAX,
    ensures
        run_cycles(c, m, n).0.clk <= u64::MAX,
        c.clk <= run_cycles(c, m, n).0.clk <= c.clk + 28 * n,
        c.clk + 28 * n <= u64::MAX ==> c.clk + 4 * n <= run_cycles(c, m, n).0.clk,
    decreases n,
{
    if n > 0 {
        law_clock_monotone(c, m, (n - 1) as nat);
        let (c1, m1) = run_cycles(c, m, (n - 1) as nat);
        lemma_cycle_clock(c1, m1);
    }
}

/// LY as the memory holds it.
pub open spec fn ly(m: MemView) -> u8 {
    m.read(SCLINEP)
}

/// What settling shows: the LY values after each transition, the number of
/// entries into HBLANK, and the LY values of the VBLANK lines.
pub open spec fn settle_trace(g: GpuView, m: MemView) -> (Set<u8>, nat, Set<u8>)
    decreases g.clk,
{
    if g.clk >= threshold(g.mode) {
        let (g1, m1, _) = transition(g, m);
        let (lines, hb, vb) = settle_trace(g1, m1);
        (
            lines.insert(ly(m1)),
            hb + if g1.mode == GpuMode::HBLANK { 1nat } else { 0 },
            if g1.mode == GpuMode::VBLANK { vb.insert(ly(m1)) } else { vb },
        )
    } else {
        (Set::empty(), 0, Set::empty())
    }
}

proof fn lemma_ly_writes(m: MemView, mode: GpuMode, v: u8, f: u8)
    requires
        m.wf(),
    ensures
        ly(set_mode_mem(m, mode)) == ly(m),
        set_mode_mem(m, mode).wf(),
        ly(set_line_mem(m, v)) == v,
        set_line_mem(m, v).wf(),
        ly(m.write(PINT_F, f)) == ly(m),
        m.write(PINT_F, f).wf(),
{
    reveal(set_mode_mem);
    reveal(set_line_mem);
}

/// Lines `l` to 153 of the VBLANK period, ending at LY 0 in OAM.
proof fn lemma_vblank_lines(g: GpuView, m: MemView, l: u8, r: nat)
    requires
        m.wf(),
        g.mode == GpuMode::VBLANK,
        ly(m) == l,
        144 <= l <= 153,
        g.clk == 456 * (154 - l) + r,
        r < 80,
    ensures
        settle(g, m).0.mode == GpuMode::OAM,
        settle(g, m).0.clk == r,
        ly(settle(g, m).1) == 0,
        settle(g, m).2 == 0,
        settle_trace(g, m).0 == Set::new(|x: u8| (l < x <= 153) || x == 0),
        settle_trace(g, m).1 == 0,
        settle_trace(g, m).2 == Set::new(|x: u8| l < x <= 153),
    decreases 154 - l,
{
    let (g1, m1, n1) = transition(g, m);
    lemma_ly_writes(m, GpuMode::OAM, (l + 1) as u8, 0);
    let mv = set_line_mem(m, (l + 1) as u8);
    if l == 153 {
        lemma_ly_writes(mv, GpuMode::OAM, 0, 0);
        lemma_ly_writes(set_line_mem(mv, 0), GpuMode::OAM, 0, 0);
        assert(g1.mode == GpuMode::OAM && g1.clk == r && ly(m1) == 0);
        assert(settle(g1, m1) == (g1, m1, 0nat));
        assert(settle_trace(g1, m1) == (Set::<u8>::empty(), 0nat, Set::<u8>::empty()));
        assert(settle_trace(g, m).0 =~= Set::new(|x: u8| (l < x <= 153) || x == 0));
        assert(settle_trace(g, m).2 =~= Set::new(|x: u8| l < x <= 153));
    } else {
        lemma_vblank_lines(g1, m1, (l + 1) as u8, r);
        assert(settle_trace(g, m).0 =~= Set::new(|x: u8| (l < x <= 153) || x == 0));
        assert(settle_trace(g, m).2 =~= Set::new(|x: u8| l < x <= 153));
    }
}

/// One visible line from OAM at line `l`: three transitions, ending in OAM
/// at line `l + 1`, or in VBLANK at line 144 with the frame presented.
proof fn lemma_line_step(g: GpuView, m: MemView, l: u8)
    requires
        m.wf(),
        g.mode == GpuMode::OAM,
        ly(m) == l,
        l <= 143,
        g.clk >= 456 + 80,
    ensures
        ({
            let (g1, m1, n1) = transition(g, m);
            let (g2, m2, n2) = transition(g1, m1);
            let (g3, m3, n3) = transition(g2, m2);
            &&& g1.clk >= threshold(g1.mode) && g2.clk >= threshold(g2.mode)
            &&& g.clk >= threshold(g.mode)
            &&& m3.wf()
            &&& g3.clk == g.clk - 456
            &&& ly(m1) == l && ly(m2) == l && ly(m3) == l + 1
            &&& g1.mode == GpuMode::VRAM && g2.mode == GpuMode::HBLANK
            &&& n1 == 0 && n2 == 0
            &&& l < 143 ==> g3.mode == GpuMode::OAM && n3 == 0
            &&& l == 143 ==> g3.mode == GpuMode::VBLANK && n3 == 1
        }),
{
    let (g1, m1, n1) = transition(g, m);
    lemma_ly_writes(m, GpuMode::VRAM, 0, 0);
    let (g2, m2, n2) = transition(g1, m1);
    lemma_ly_writes(m1, GpuMode::HBLANK, 0, 0);
    if l == 143 {
        let mv = set_mode_mem(m2, GpuMode::VBLANK);
        lemma_ly_writes(m2, GpuMode::VBLANK, 0, 0);
        lemma_ly_writes(mv, GpuMode::VBLANK, 0, (mv.read(PINT_F) | 1) as u8);
        let mi = mv.write(PINT_F, mv.read(PINT_F) | 1);
        lemma_ly_writes(mi, GpuMode::VBLANK, 144, 0);
    } else {
        let mo = set_mode_mem(m2, GpuMode::OAM);
        lemma_ly_writes(m2, GpuMode::OAM, 0, 0);
        lemma_ly_writes(mo, GpuMode::OAM, (l + 1) as u8, 0);
    }
}

/// Visible lines `l` to 143 and then the VBLANK period, from OAM at line `l`.
proof fn lemma_visible_lines(g: GpuView, m: MemView, l: u8, r: nat)
    requires
        m.wf(),
        g.mode == GpuMode::OAM,
        ly(m) == l,
        l <= 143,
        g.clk == 456 * (154 - l) + r,
        r < 80,
    ensures
        settle(g, m).0.mode == GpuMode::OAM,
        settle(g, m).0.clk == r,
        ly(settle(g, m).1) == 0,
        settle(g, m).2 == 1,
        settle_trace(g, m).0 == Set::new(|x: u8| (l <= x <= 153) || x == 0),
        settle_trace(g, m).1 == 144 - l,
        settle_trace(g, m).2 == Set::new(|x: u8| 144 <= x <= 153),
    decreases 143 - l,
{
    lemma_line_step(g, m, l);
    let (g1, m1, n1) = transition(g, m);
    let (g2, m2, n2) = transition(g1, m1);
    let (g3, m3, n3) = transition(g2, m2);
    assert(settle(g2, m2) == (settle(g3, m3).0, settle(g3, m3).1, n3 + settle(g3, m3).2));
    assert(settle(g1, m1) == (settle(g3, m3).0, settle(g3, m3).1, n3 + settle(g3, m3).2));
    assert(settle(g, m) == (settle(g3, m3).0, settle(g3, m3).1, n3 + settle(g3, m3).2));
    let t3 = settle_trace(g3, m3);
    let t2 = settle_trace(g2, m2);
    let t1 = settle_trace(g1, m1);
    assert(t2.0 == t3.0.insert(ly(m3)) && t2.1 == t3.1 && t2.2 == (if g3.mode == GpuMode::VBLANK { t3.2.insert(ly(m3)) } else { t3.2 }));
    assert(t1.0 == t2.0.insert(l) && t1.1 == t2.1 + 1 && t1.2 == t2.2);
    assert(settle_trace(g, m).0 == t1.0.insert(l) && settle_trace(g, m).1 == t1.1 && settle_trace(g, m).2 == t1.2);
    if l == 143 {
        lemma_vblank_lines(g3, m3, 144, r);
    } else {
        lemma_visible_lines(g3, m3, (l + 1) as u8, r);
    }
    assert(settle_trace(g, m).0 =~= Set::new(|x: u8| (l <= x <= 153) || x == 0));
    assert(settle_trace(g, m).2 =~= Set::new(|x: u8| 144 <= x <= 153));
}

/// One frame of 70,224 T-states from the start of line 0 in OAM: LY takes
/// every value from 0 to 153 and comes back to 0, HBLANK is entered 144
/// times, VBLANK spans the 10 lines 144 to 153, and one frame is presented.
pub proof fn law_frame_cycle(g: GpuView, m: MemView, r: nat)
    requires
        m.wf(),
        g.mode == GpuMode::OAM,
        ly(m) == 0,
        g.clk == 70224 + r,
        r < 80,
    ensures
        settle(g, m).0.mode == GpuMode::OAM,
        settle(g, m).0.clk == r,
        ly(settle(g, m).1) == 0,
        settle(g, m).2 == 1,
        settle_trace(g, m).0 == Set::new(|x: u8| x <= 153),
        settle_trace(g, m).1 == 144,
        settle_trace(g, m).2 == Set::new(|x: u8| 144 <= x <= 153),
        settle_trace(g, m).2.len() == 10,
{
    lemma_visible_lines(g, m, 0, r);
    assert(settle_trace(g, m).0 =~= Set::new(|x: u8| x <= 153));
    let s = Set::new(|x: u8| 144 <= x <= 153);
    assert(s =~= set![144u8, 145, 146, 147, 148, 149, 150, 151, 152, 153]);
    assert(set![144u8, 145, 146, 147, 148, 149, 150, 151, 152, 153].len() == 10);
}

} // verus!
