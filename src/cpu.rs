use vstd::prelude::*;
use crate::consts::{A, B, C, D, E, F, H, L, FL_Z, FL_N, FL_H, FL_C, PINT_E, PINT_F};
use crate::mem::{Mem, MemView};
use crate::isa::{costs, lemma_cycle_clock, alu_op, daa_spec, pair_hi, pair_lo, reg_of, shift_op, sp_plus};

verus! {

/// Largest clock value from which a whole frame may still be run without
/// the clock reaching its largest value.
pub const CLK_LIMIT: u64 = 0xFFFF_FFFF_FFFF_0000;

/// Interrupt master enable: EI and DI take effect one instruction late.
#[derive(Clone, Copy, PartialEq, Eq, Debug, Structural)]
pub enum Ime {
    Disabled,
    Enabled,
    PendingEnable,
    PendingDisable,
}

/// The eight operations of the 8-bit arithmetic/logic block.
#[derive(Clone, Copy, PartialEq, Eq, Debug, Structural)]
pub enum AluOp {
    Add,
    Adc,
    Sub,
    Sbc,
    And,
    Xor,
    Or,
    Cp,
}

/// The eight rotate and shift operations of the prefixed block.
#[derive(Clone, Copy, PartialEq, Eq, Debug, Structural)]
pub enum ShiftOp {
    Rlc,
    Rrc,
    Rl,
    Rr,
    Sla,
    Sra,
    Swap,
    Srl,
}

/// A fault that the CPU reports without stopping.
#[derive(Clone, Copy, PartialEq, Eq, Debug, Structural)]
pub enum Diagnostic {
    /// An opcode with no instruction was met at `pc`.
    UndefinedOpcode { pc: u16, opcode: u8 },
    /// The byte after STOP at `pc` was `byte` rather than 0.
    BadStopEncoding { pc: u16, byte: u8 },
}

pub struct Cpu {
    /// Registers B, C, D, E, H, L, F, A, indexed by the tags in `consts`.
    pub regs: Vec<u8>,
    pub sp: u16,
    pub pc: u16,
    pub ime: Ime,
    pub halt: u8,
    pub stop: u8,
    /// T-states elapsed.
    pub clk: u64,
}

#[verifier::ext_equal]
pub struct CpuView {
    pub regs: Seq<u8>,
    pub sp: u16,
    pub pc: u16,
    pub ime: Ime,
    pub halt: u8,
    pub stop: u8,
    pub clk: nat,
}

impl View for Cpu {
    type V = CpuView;

    open spec fn view(&self) -> CpuView {
        CpuView {
            regs: self.regs@,
            sp: self.sp,
            pc: self.pc,
            ime: self.ime,
            halt: self.halt,
            stop: self.stop,
            clk: self.clk as nat,
        }
    }
}

/// The flag byte with Z, N, H and C set as given; the low nibble is zero.
pub open spec fn flags(z: bool, n: bool, h: bool, c: bool) -> u8 {
    (if z { FL_Z } else { 0u8 }) | (if n { FL_N } else { 0u8 }) | (if h { FL_H } else { 0u8 }) | (
    if c {
        FL_C
    } else {
        0u8
    })
}

pub proof fn lemma_flags(z: bool, n: bool, h: bool, c: bool)
    ensures
        flags(z, n, h, c) & 0x0F == 0,
        (flags(z, n, h, c) & FL_Z != 0) == z,
        (flags(z, n, h, c) & FL_N != 0) == n,
        (flags(z, n, h, c) & FL_H != 0) == h,
        (flags(z, n, h, c) & FL_C != 0) == c,
{
    assert(flags(z, n, h, c) & 0x0F == 0 && (flags(z, n, h, c) & FL_Z != 0) == z && (flags(
        z,
        n,
        h,
        c,
    ) & FL_N != 0) == n && (flags(z, n, h, c) & FL_H != 0) == h && (flags(z, n, h, c) & FL_C != 0)
        == c) by (bit_vector);
}

proof fn lemma_flag_masks(f: u8, mask: u8)
    requires
        f & 0x0F == 0,
        mask & 0x0F == 0,
    ensures
        (f | mask) & 0x0F == 0,
        (f & !mask) & 0x0F == 0,
{
    assert((f | mask) & 0x0F == 0 && (f & !mask) & 0x0F == 0) by (bit_vector)
        requires
            f & 0x0F == 0,
            mask & 0x0F == 0,
    ;
}

proof fn lemma_high_nibble(v: u8)
    ensures
        (v & 0xF0) & 0x0F == 0,
{
    assert((v & 0xF0) & 0x0F == 0) by (bit_vector);
}

/// A byte read as a two's-complement signed value.
pub open spec fn signed(d: u8) -> int {
    if d < 128 {
        d as int
    } else {
        d - 256
    }
}

pub open spec fn bool_int(b: bool) -> int {
    if b {
        1
    } else {
        0
    }
}

/// Addition with carry in: result and flags.
pub open spec fn add8(a: u8, v: u8, cin: bool) -> (u8, u8) {
    let s = a + v + bool_int(cin);
    let r = (s % 256) as u8;
    (r, flags(r == 0, false, a % 16 + v % 16 + bool_int(cin) > 15, s > 255))
}

/// Subtraction with borrow in: result and flags.
pub open spec fn sub8(a: u8, v: u8, cin: bool) -> (u8, u8) {
    let d = a - v - bool_int(cin);
    let r = ((d + 256) % 256) as u8;
    (r, flags(r == 0, true, a % 16 < v % 16 + bool_int(cin), d < 0))
}

/// The new accumulator and flags of an arithmetic/logic operation on `a`
/// and `v`, with carry flag `cin`.
pub open spec fn alu_spec(op: AluOp, a: u8, v: u8, cin: bool) -> (u8, u8) {
    match op {
        AluOp::Add => add8(a, v, false),
        AluOp::Adc => add8(a, v, cin),
        AluOp::Sub => sub8(a, v, false),
        AluOp::Sbc => sub8(a, v, cin),
        AluOp::And => (a & v, flags(a & v == 0, false, true, false)),
        AluOp::Xor => (a ^ v, flags(a ^ v == 0, false, false, false)),
        AluOp::Or => (a | v, flags(a | v == 0, false, false, false)),
        AluOp::Cp => (a, sub8(a, v, false).1),
    }
}

/// The result of a rotate or shift of `v` with carry flag `cin`, and the
/// carry out.
pub open spec fn shift_spec(op: ShiftOp, v: u8, cin: bool) -> (u8, bool) {
    match op {
        ShiftOp::Rlc => (((v * 2) % 256 + v / 128) as u8, v >= 128),
        ShiftOp::Rrc => ((v / 2 + (v % 2) * 128) as u8, v % 2 == 1),
        ShiftOp::Rl => (((v * 2) % 256 + bool_int(cin)) as u8, v >= 128),
        ShiftOp::Rr => ((v / 2 + bool_int(cin) * 128) as u8, v % 2 == 1),
        ShiftOp::Sla => (((v * 2) % 256) as u8, v >= 128),
        ShiftOp::Sra => ((v / 2 + (v / 128) * 128) as u8, v % 2 == 1),
        ShiftOp::Swap => (((v % 16) * 16 + v / 16) as u8, false),
        ShiftOp::Srl => ((v / 2) as u8, v % 2 == 1),
    }
}

/// A register tag that names one of the seven byte registers other than F.
pub open spec fn reg_ok(r: usize) -> bool {
    r < 8 && r != F
}

/// The four register pairs AF, BC, DE, HL.
pub open spec fn pair_ok(rh: usize, rl: usize) -> bool {
    (rh == B && rl == C) || (rh == D && rl == E) || (rh == H && rl == L) || (rh == A && rl == F)
}

impl CpuView {
    pub open spec fn wf(self) -> bool {
        self.regs.len() == 8 && self.regs[F as int] & 0x0F == 0
    }

    pub open spec fn hilo(self, rh: usize, rl: usize) -> u16 {
        (self.regs[rh as int] * 256 + self.regs[rl as int]) as u16
    }

    pub open spec fn hl(self) -> u16 {
        self.hilo(H, L)
    }

    pub open spec fn flag(self, mask: u8) -> bool {
        self.regs[F as int] & mask != 0
    }

    /// The pair `rh`,`rl` set to `v`; F keeps only its high nibble.
    pub open spec fn with_hilo(self, rh: usize, rl: usize, v: u16) -> CpuView {
        let lo = (v % 256) as u8;
        CpuView {
            regs: self.regs.update(rh as int, (v / 256) as u8).update(
                rl as int,
                if rl == F {
                    lo & 0xF0
                } else {
                    lo
                },
            ),
            ..self
        }
    }

    pub open spec fn with_reg(self, r: usize, v: u8) -> CpuView {
        CpuView { regs: self.regs.update(r as int, v), ..self }
    }

    pub open spec fn with_f(self, f: u8) -> CpuView {
        self.with_reg(F, f)
    }

    /// `n` T-states later; the 64-bit counter stops at its largest value.
    pub open spec fn tick(self, n: nat) -> CpuView {
        CpuView {
            clk: if self.clk + n > u64::MAX {
                u64::MAX as nat
            } else {
                self.clk + n
            },
            ..self
        }
    }

    pub open spec fn with_pc(self, pc: int) -> CpuView {
        CpuView { pc: (pc % 0x10000) as u16, ..self }
    }

    pub open spec fn with_sp(self, sp: int) -> CpuView {
        CpuView { sp: (sp % 0x10000) as u16, ..self }
    }

    /// LD rr,nn: the pair is loaded from the two bytes at PC.
    pub open spec fn ld_16(self, m: MemView, rh: usize, rl: usize) -> CpuView {
        self.with_hilo(rh, rl, m.read16(self.pc)).with_pc(self.pc + 2).tick(12)
    }

    /// LD r,n: the register is loaded from the byte at PC.
    pub open spec fn ld_8(self, m: MemView, r: usize) -> CpuView {
        self.with_reg(r, m.read(self.pc)).with_pc(self.pc + 1).tick(8)
    }

    /// LD r,(rr): the register is loaded from the byte the pair points to.
    pub open spec fn ld_8_p16(self, m: MemView, r8: usize, rh: usize, rl: usize) -> CpuView {
        self.with_reg(r8, m.read(self.hilo(rh, rl))).tick(8)
    }

    pub open spec fn inc_16(self, rh: usize, rl: usize) -> CpuView {
        self.with_hilo(rh, rl, ((self.hilo(rh, rl) + 1) % 0x10000) as u16).tick(8)
    }

    pub open spec fn dec_16(self, rh: usize, rl: usize) -> CpuView {
        self.with_hilo(rh, rl, ((self.hilo(rh, rl) + 0xFFFF) % 0x10000) as u16).tick(8)
    }

    /// INC r: N cleared, H from bit 3, Z from the result, C kept.
    pub open spec fn inc_8(self, r: usize) -> CpuView {
        let v = self.regs[r as int];
        let res = ((v + 1) % 256) as u8;
        self.with_reg(r, res).with_f(flags(res == 0, false, v % 16 == 15, self.flag(FL_C))).tick(4)
    }

    /// DEC r: N set, H from the borrow out of bit 4, Z from the result, C kept.
    pub open spec fn dec_8(self, r: usize) -> CpuView {
        let v = self.regs[r as int];
        let res = ((v + 255) % 256) as u8;
        self.with_reg(r, res).with_f(flags(res == 0, true, v % 16 == 0, self.flag(FL_C))).tick(4)
    }

    /// ADD HL,v: Z kept, N cleared, H from bit 11, C from bit 15.
    pub open spec fn add_hl(self, v: u16) -> CpuView {
        let hl = self.hl();
        self.with_hilo(H, L, ((hl + v) % 0x10000) as u16).with_f(
            flags(self.flag(FL_Z), false, hl % 4096 + v % 4096 > 4095, hl + v > 0xFFFF),
        ).tick(8)
    }

    /// A and F after an arithmetic/logic operation with operand `v`.
    pub open spec fn alu(self, op: AluOp, v: u8) -> CpuView {
        let (res, f) = alu_spec(op, self.regs[A as int], v, self.flag(FL_C));
        self.with_reg(A, res).with_f(f)
    }

    /// A rotate or shift of register `r`, with Z from the result.
    pub open spec fn shift(self, op: ShiftOp, r: usize) -> CpuView {
        let (res, c) = shift_spec(op, self.regs[r as int], self.flag(FL_C));
        self.with_reg(r, res).with_f(flags(res == 0, false, false, c)).tick(4)
    }

    /// BIT n,v: Z is the complement of the tested bit, N cleared, H set, C kept.
    pub open spec fn bit_test(self, bit: u8, v: u8) -> CpuView {
        self.with_f(flags(v & (1u8 << bit) == 0, false, true, self.flag(FL_C)))
    }

    /// The stack pointer and memory after pushing `v`, high byte first.
    pub open spec fn push_mem(self, m: MemView, v: u16) -> MemView {
        m.write(((self.sp + 0xFFFF) % 0x10000) as u16, (v / 256) as u8).write(
            ((self.sp + 0xFFFE) % 0x10000) as u16,
            (v % 256) as u8,
        )
    }

    pub open spec fn push_regs(self) -> CpuView {
        self.with_sp(self.sp + 0xFFFE)
    }

    /// The 16-bit value on top of the stack.
    pub open spec fn top(self, m: MemView) -> u16 {
        m.read16(self.sp)
    }

    pub open spec fn pop_16(self, m: MemView, rh: usize, rl: usize) -> CpuView {
        self.with_hilo(rh, rl, self.top(m)).with_sp(self.sp + 2).tick(12)
    }

    pub open spec fn call(self, m: MemView, cond: bool) -> CpuView {
        if cond {
            self.push_regs().with_pc(m.read16(self.pc) as int).tick(24)
        } else {
            self.with_pc(self.pc + 2).tick(12)
        }
    }

    /// The memory after a call: the return address, two bytes past PC, is pushed.
    pub open spec fn call_mem(self, m: MemView, cond: bool) -> MemView {
        if cond {
            self.push_mem(m, ((self.pc + 2) % 0x10000) as u16)
        } else {
            m
        }
    }

    pub open spec fn ret(self, m: MemView, cond: bool) -> CpuView {
        if cond {
            self.with_pc(self.top(m) as int).with_sp(self.sp + 2).tick(20)
        } else {
            self.tick(8)
        }
    }

    pub open spec fn jp(self, m: MemView, cond: bool) -> CpuView {
        if cond {
            self.with_pc(m.read16(self.pc) as int).tick(16)
        } else {
            self.with_pc(self.pc + 2).tick(12)
        }
    }

    pub open spec fn jr(self, m: MemView, cond: bool) -> CpuView {
        if cond {
            self.with_pc(self.pc + 1 + 0x10000 + signed(m.read(self.pc))).tick(12)
        } else {
            self.with_pc(self.pc + 1).tick(8)
        }
    }
}

fn make_flags(z: bool, n: bool, h: bool, c: bool) -> (r: u8)
    ensures
        r == flags(z, n, h, c),
        r & 0x0F == 0,
{
    proof {
        lemma_flags(z, n, h, c);
    }
    (if z { FL_Z } else { 0u8 }) | (if n { FL_N } else { 0u8 }) | (if h { FL_H } else { 0u8 }) | (
    if c {
        FL_C
    } else {
        0u8
    })
}

/// Arithmetic/logic operation on `a` and `v`: the new accumulator and flags.
pub fn alu(op: AluOp, a: u8, v: u8, cin: bool) -> (r: (u8, u8))
    ensures
        r == alu_spec(op, a, v, cin),
        r.1 & 0x0F == 0,
{
    let c: u16 = if cin { 1 } else { 0 };
    match op {
        AluOp::Add | AluOp::Adc => {
            let c: u16 = if op == AluOp::Adc { c } else { 0 };
            let s: u16 = a as u16 + v as u16 + c;
            let res = (s % 256) as u8;
            let f = make_flags(res == 0, false, (a % 16) as u16 + (v % 16) as u16 + c > 15, s > 255);
            (res, f)
        },
        AluOp::Sub | AluOp::Sbc | AluOp::Cp => {
            let c: u16 = if op == AluOp::Sbc { c } else { 0 };
            let d: u16 = (a as u16 + 256) - v as u16 - c;
            let res = (d % 256) as u8;
            let f = make_flags(res == 0, true, ((a % 16) as u16) < (v % 16) as u16 + c, d < 256);
            if op == AluOp::Cp {
                (a, f)
            } else {
                (res, f)
            }
        },
        AluOp::And => {
            let res = a & v;
            (res, make_flags(res == 0, false, true, false))
        },
        AluOp::Xor => {
            let res = a ^ v;
            (res, make_flags(res == 0, false, false, false))
        },
        AluOp::Or => {
            let res = a | v;
            (res, make_flags(res == 0, false, false, false))
        },
    }
}

/// Rotate or shift of `v` with carry flag `cin`: the result and the carry out.
pub fn shift(op: ShiftOp, v: u8, cin: bool) -> (r: (u8, bool))
    ensures
        r == shift_spec(op, v, cin),
{
    let c: u8 = if cin { 1 } else { 0 };
    match op {
        ShiftOp::Rlc => (((v as u16 * 2) % 256) as u8 + v / 128, v >= 128),
        ShiftOp::Rrc => (v / 2 + (v % 2) * 128, v % 2 == 1),
        ShiftOp::Rl => (((v as u16 * 2) % 256) as u8 + c, v >= 128),
        ShiftOp::Rr => (v / 2 + c * 128, v % 2 == 1),
        ShiftOp::Sla => (((v as u16 * 2) % 256) as u8, v >= 128),
        ShiftOp::Sra => (v / 2 + (v / 128) * 128, v % 2 == 1),
        ShiftOp::Swap => ((v % 16) * 16 + v / 16, false),
        ShiftOp::Srl => (v / 2, v % 2 == 1),
    }
}

impl Cpu {
    pub open spec fn wf(&self) -> bool {
        self@.wf()
    }

    /// The 16-bit value of the pair `rh`,`rl`, high byte first.
    pub fn get_hilo(&self, rh: usize, rl: usize) -> (r: u16)
        requires
            self.wf(),
            rh < 8,
            rl < 8,
        ensures
            r == self@.hilo(rh, rl),
    {
        (self.regs[rh] as u16) * 256 + self.regs[rl] as u16
    }

    /// Sets the pair `rh`,`rl` to `val`; the low nibble of F is not stored.
    pub fn set_hilo(&mut self, rh: usize, rl: usize, val: u16)
        requires
            old(self).wf(),
            pair_ok(rh, rl),
        ensures
            final(self).wf(),
            final(self)@ == old(self)@.with_hilo(rh, rl, val),
    {
        let lo = (val % 256) as u8;
        self.regs[rh] = (val / 256) as u8;
        self.regs[rl] = if rl == F {
            lo & 0xF0
        } else {
            lo
        };
        proof {
            lemma_high_nibble(lo);
        }
    }

    pub fn get_flag(&self, flag: u8) -> (r: bool)
        requires
            self.wf(),
        ensures
            r == self@.flag(flag),
    {
        (self.regs[F] & flag) > 0
    }

    /// Sets (`val`) or clears the flag bits of `flag`.
    pub fn set_flag(&mut self, val: bool, flag: u8)
        requires
            old(self).wf(),
            flag & 0x0F == 0,
        ensures
            final(self).wf(),
            final(self)@ == old(self)@.with_f(
                if val {
                    old(self)@.regs[F as int] | flag
                } else {
                    old(self)@.regs[F as int] & !flag
                },
            ),
    {
        proof {
            lemma_flag_masks(self.regs@[F as int], flag);
        }
        self.regs[F] = if val {
            self.regs[F] | flag
        } else {
            self.regs[F] & !flag
        };
    }

    fn set_f(&mut self, f: u8)
        requires
            old(self).wf(),
            f & 0x0F == 0,
        ensures
            final(self).wf(),
            final(self)@ == old(self)@.with_f(f),
    {
        self.regs[F] = f;
    }

    fn set_reg(&mut self, r: usize, v: u8)
        requires
            old(self).wf(),
            reg_ok(r),
        ensures
            final(self).wf(),
            final(self)@ == old(self)@.with_reg(r, v),
    {
        self.regs[r] = v;
    }

    /// Reads the byte at PC and steps past it.
    fn fetch(&mut self, gb_mem: &Mem) -> (r: u8)
        requires
            old(self).wf(),
            gb_mem.wf(),
        ensures
            r == gb_mem@.read(old(self).pc),
            final(self)@ == old(self)@.with_pc(old(self).pc + 1),
    {
        let r = gb_mem.read(self.pc);
        self.pc = self.pc.wrapping_add(1);
        r
    }

    /// Reads the little-endian word at PC and steps past it.
    fn fetch16(&mut self, gb_mem: &Mem) -> (r: u16)
        requires
            old(self).wf(),
            gb_mem.wf(),
        ensures
            r == gb_mem@.read16(old(self).pc),
            final(self)@ == old(self)@.with_pc(old(self).pc + 2),
    {
        let lo = self.fetch(gb_mem);
        let hi = self.fetch(gb_mem);
        (hi as u16) * 256 + lo as u16
    }

    /// LD rr,nn
    pub fn ld_16(&mut self, gb_mem: &Mem, rh: usize, rl: usize)
        requires
            old(self).wf(),
            gb_mem.wf(),
            pair_ok(rh, rl),
        ensures
            final(self).wf(),
            final(self)@ == old(self)@.ld_16(gb_mem@, rh, rl),
    {
        let v = self.fetch16(gb_mem);
        self.set_hilo(rh, rl, v);
        self.clk = self.clk.saturating_add(12);
    }

    /// LD r,n
    pub fn ld_8(&mut self, gb_mem: &Mem, r: usize)
        requires
            old(self).wf(),
            gb_mem.wf(),
            reg_ok(r),
        ensures
            final(self).wf(),
            final(self)@ == old(self)@.ld_8(gb_mem@, r),
    {
        let v = self.fetch(gb_mem);
        self.set_reg(r, v);
        self.clk = self.clk.saturating_add(8);
    }

    /// LD (rr),r
    pub fn ld_p16_8(&mut self, gb_mem: &mut Mem, rh: usize, rl: usize, r8: usize)
        requires
            old(self).wf(),
            old(gb_mem).wf(),
            rh < 8,
            rl < 8,
            r8 < 8,
        ensures
            final(self).wf(),
            final(gb_mem).wf(),
            final(self)@ == old(self)@.tick(8),
            final(gb_mem)@ == old(gb_mem)@.write(old(self)@.hilo(rh, rl), old(self)@.regs[r8 as int]),
    {
        gb_mem.write(self.get_hilo(rh, rl), self.regs[r8]);
        self.clk = self.clk.saturating_add(8);
    }

    /// LD r,(rr)
    pub fn ld_8_p16(&mut self, gb_mem: &Mem, r8: usize, rh: usize, rl: usize)
        requires
            old(self).wf(),
            gb_mem.wf(),
            reg_ok(r8),
            rh < 8,
            rl < 8,
        ensures
            final(self).wf(),
            final(self)@ == old(self)@.ld_8_p16(gb_mem@, r8, rh, rl),
    {
        let v = gb_mem.read(self.get_hilo(rh, rl));
        self.set_reg(r8, v);
        self.clk = self.clk.saturating_add(8);
    }

    /// INC rr: no flag changes.
    pub fn inc_16(&mut self, rh: usize, rl: usize)
        requires
            old(self).wf(),
            pair_ok(rh, rl),
        ensures
            final(self).wf(),
            final(self)@ == old(self)@.inc_16(rh, rl),
    {
        let v = self.get_hilo(rh, rl);
        self.set_hilo(rh, rl, v.wrapping_add(1));
        self.clk = self.clk.saturating_add(8);
    }

    /// DEC rr: no flag changes.
    pub fn dec_16(&mut self, rh: usize, rl: usize)
        requires
            old(self).wf(),
            pair_ok(rh, rl),
        ensures
            final(self).wf(),
            final(self)@ == old(self)@.dec_16(rh, rl),
    {
        let v = self.get_hilo(rh, rl);
        self.set_hilo(rh, rl, v.wrapping_sub(1));
        self.clk = self.clk.saturating_add(8);
    }

    /// INC r
    pub fn inc_8(&mut self, r: usize)
        requires
            old(self).wf(),
            reg_ok(r),
        ensures
            final(self).wf(),
            final(self)@ == old(self)@.inc_8(r),
    {
        let v = self.regs[r];
        let res = v.wrapping_add(1);
        let f = make_flags(res == 0, false, v % 16 == 15, self.get_flag(FL_C));
        self.set_reg(r, res);
        self.set_f(f);
        self.clk = self.clk.saturating_add(4);
    }

    /// DEC r
    pub fn dec_8(&mut self, r: usize)
        requires
            old(self).wf(),
            reg_ok(r),
        ensures
            final(self).wf(),
            final(self)@ == old(self)@.dec_8(r),
    {
        let v = self.regs[r];
        let res = v.wrapping_sub(1);
        let f = make_flags(res == 0, true, v % 16 == 0, self.get_flag(FL_C));
        self.set_reg(r, res);
        self.set_f(f);
        self.clk = self.clk.saturating_add(4);
    }

    fn add_hl(&mut self, v: u16)
        requires
            old(self).wf(),
        ensures
            final(self).wf(),
            final(self)@ == old(self)@.add_hl(v),
    {
        let hl = self.get_hilo(H, L);
        let s: u32 = hl as u32 + v as u32;
        let f = make_flags(self.get_flag(FL_Z), false, hl % 4096 + v % 4096 > 4095, s > 0xFFFF);
        self.set_hilo(H, L, (s % 0x10000) as u16);
        self.set_f(f);
        self.clk = self.clk.saturating_add(8);
    }

    /// ADD HL,rr
    pub fn add_hl_16(&mut self, rh: usize, rl: usize)
        requires
            old(self).wf(),
            pair_ok(rh, rl),
        ensures
            final(self).wf(),
            final(self)@ == old(self)@.add_hl(old(self)@.hilo(rh, rl)),
    {
        let v = self.get_hilo(rh, rl);
        self.add_hl(v);
    }

    fn alu_a(&mut self, op: AluOp, v: u8)
        requires
            old(self).wf(),
        ensures
            final(self).wf(),
            final(self)@ == old(self)@.alu(op, v),
    {
        let (res, f) = alu(op, self.regs[A], v, self.get_flag(FL_C));
        self.set_reg(A, res);
        self.set_f(f);
    }

    fn alu_a_8(&mut self, op: AluOp, r: usize)
        requires
            old(self).wf(),
            reg_ok(r),
        ensures
            final(self).wf(),
            final(self)@ == old(self)@.alu(op, old(self)@.regs[r as int]).tick(4),
    {
        let v = self.regs[r];
        self.alu_a(op, v);
        self.clk = self.clk.saturating_add(4);
    }

    /// ADD A,r
    pub fn add_a_8(&mut self, r: usize)
        requires
            old(self).wf(),
            reg_ok(r),
        ensures
            final(self).wf(),
            final(self)@ == old(self)@.alu(AluOp::Add, old(self)@.regs[r as int]).tick(4),
    {
        self.alu_a_8(AluOp::Add, r);
    }

    /// ADC A,r
    pub fn adc_a_8(&mut self, r: usize)
        requires
            old(self).wf(),
            reg_ok(r),
        ensures
            final(self).wf(),
            final(self)@ == old(self)@.alu(AluOp::Adc, old(self)@.regs[r as int]).tick(4),
    {
        self.alu_a_8(AluOp::Adc, r);
    }

    /// SUB A,r
    pub fn sub_a_8(&mut self, r: usize)
        requires
            old(self).wf(),
            reg_ok(r),
        ensures
            final(self).wf(),
            final(self)@ == old(self)@.alu(AluOp::Sub, old(self)@.regs[r as int]).tick(4),
    {
        self.alu_a_8(AluOp::Sub, r);
    }

    /// SBC A,r
    pub fn sbc_a_8(&mut self, r: usize)
        requires
            old(self).wf(),
            reg_ok(r),
        ensures
            final(self).wf(),
            final(self)@ == old(self)@.alu(AluOp::Sbc, old(self)@.regs[r as int]).tick(4),
    {
        self.alu_a_8(AluOp::Sbc, r);
    }

    /// AND A,r
    pub fn and_a_8(&mut self, r: usize)
        requires
            old(self).wf(),
            reg_ok(r),
        ensures
            final(self).wf(),
            final(self)@ == old(self)@.alu(AluOp::And, old(self)@.regs[r as int]).tick(4),
    {
        self.alu_a_8(AluOp::And, r);
    }

    /// XOR A,r
    pub fn xor_a_8(&mut self, r: usize)
        requires
            old(self).wf(),
            reg_ok(r),
        ensures
            final(self).wf(),
            final(self)@ == old(self)@.alu(AluOp::Xor, old(self)@.regs[r as int]).tick(4),
    {
        self.alu_a_8(AluOp::Xor, r);
    }

    /// OR A,r
    pub fn or_a_8(&mut self, r: usize)
        requires
            old(self).wf(),
            reg_ok(r),
        ensures
            final(self).wf(),
            final(self)@ == old(self)@.alu(AluOp::Or, old(self)@.regs[r as int]).tick(4),
    {
        self.alu_a_8(AluOp::Or, r);
    }

    /// CP A,r
    pub fn cp_a_8(&mut self, r: usize)
        requires
            old(self).wf(),
            reg_ok(r),
        ensures
            final(self).wf(),
            final(self)@ == old(self)@.alu(AluOp::Cp, old(self)@.regs[r as int]).tick(4),
    {
        self.alu_a_8(AluOp::Cp, r);
    }

    fn push(&mut self, gb_mem: &mut Mem, v: u16)
        requires
            old(self).wf(),
            old(gb_mem).wf(),
        ensures
            final(self).wf(),
            final(gb_mem).wf(),
            final(self)@ == old(self)@.push_regs(),
            final(gb_mem)@ == old(self)@.push_mem(old(gb_mem)@, v),
    {
        self.sp = self.sp.wrapping_sub(1);
        gb_mem.write(self.sp, (v / 256) as u8);
        self.sp = self.sp.wrapping_sub(1);
        gb_mem.write(self.sp, (v % 256) as u8);
    }

    fn pop(&mut self, gb_mem: &Mem) -> (r: u16)
        requires
            old(self).wf(),
            gb_mem.wf(),
        ensures
            final(self).wf(),
            r == old(self)@.top(gb_mem@),
            final(self)@ == old(self)@.with_sp(old(self).sp + 2),
    {
        let lo = gb_mem.read(self.sp);
        self.sp = self.sp.wrapping_add(1);
        let hi = gb_mem.read(self.sp);
        self.sp = self.sp.wrapping_add(1);
        (hi as u16) * 256 + lo as u16
    }

    /// RST n: pushes PC and jumps to `addr`.
    pub fn rst_addr16(&mut self, gb_mem: &mut Mem, addr: u16)
        requires
            old(self).wf(),
            old(gb_mem).wf(),
        ensures
            final(self).wf(),
            final(gb_mem).wf(),
            final(self)@ == old(self)@.push_regs().with_pc(addr as int).tick(16),
            final(gb_mem)@ == old(self)@.push_mem(old(gb_mem)@, old(self).pc),
    {
        let pc = self.pc;
        self.push(gb_mem, pc);
        self.pc = addr;
        self.clk = self.clk.saturating_add(16);
    }

    /// PUSH rr
    pub fn push_16(&mut self, gb_mem: &mut Mem, rh: usize, rl: usize)
        requires
            old(self).wf(),
            old(gb_mem).wf(),
            pair_ok(rh, rl),
        ensures
            final(self).wf(),
            final(gb_mem).wf(),
            final(self)@ == old(self)@.push_regs().tick(16),
            final(gb_mem)@ == old(self)@.push_mem(old(gb_mem)@, old(self)@.hilo(rh, rl)),
    {
        let v = self.get_hilo(rh, rl);
        self.push(gb_mem, v);
        self.clk = self.clk.saturating_add(16);
    }

    /// POP rr; popping into AF keeps only the high nibble of F.
    pub fn pop_16(&mut self, gb_mem: &Mem, rh: usize, rl: usize)
        requires
            old(self).wf(),
            gb_mem.wf(),
            pair_ok(rh, rl),
        ensures
            final(self).wf(),
            final(self)@ == old(self)@.pop_16(gb_mem@, rh, rl),
    {
        let v = self.pop(gb_mem);
        self.set_hilo(rh, rl, v);
        self.clk = self.clk.saturating_add(12);
    }

    /// CALL nn, taken when `cond` holds.
    pub fn call_addr16(&mut self, gb_mem: &mut Mem, cond: bool)
        requires
            old(self).wf(),
            old(gb_mem).wf(),
        ensures
            final(self).wf(),
            final(gb_mem).wf(),
            final(self)@ == old(self)@.call(old(gb_mem)@, cond),
            final(gb_mem)@ == old(self)@.call_mem(old(gb_mem)@, cond),
    {
        let target = self.fetch16(gb_mem);
        if cond {
            let pc = self.pc;
            self.push(gb_mem, pc);
            self.pc = target;
            self.clk = self.clk.saturating_add(24);
        } else {
            self.clk = self.clk.saturating_add(12);
        }
    }

    /// RET cc, taken when `cond` holds.
    pub fn ret(&mut self, gb_mem: &Mem, cond: bool)
        requires
            old(self).wf(),
            gb_mem.wf(),
        ensures
            final(self).wf(),
            final(self)@ == old(self)@.ret(gb_mem@, cond),
    {
        if cond {
            self.pc = self.pop(gb_mem);
            self.clk = self.clk.saturating_add(20);
        } else {
            self.clk = self.clk.saturating_add(8);
        }
    }

    /// JP nn, taken when `cond` holds.
    pub fn jp_addr16(&mut self, gb_mem: &Mem, cond: bool)
        requires
            old(self).wf(),
            gb_mem.wf(),
        ensures
            final(self).wf(),
            final(self)@ == old(self)@.jp(gb_mem@, cond),
    {
        let target = self.fetch16(gb_mem);
        if cond {
            self.pc = target;
            self.clk = self.clk.saturating_add(16);
        } else {
            self.clk = self.clk.saturating_add(12);
        }
    }

    /// JR e, taken when `cond` holds; the offset is signed.
    pub fn jr_addr8(&mut self, gb_mem: &Mem, cond: bool)
        requires
            old(self).wf(),
            gb_mem.wf(),
        ensures
            final(self).wf(),
            final(self)@ == old(self)@.jr(gb_mem@, cond),
    {
        let d = self.fetch(gb_mem);
        if cond {
            let base: u32 = self.pc as u32 + d as u32;
            let t: u32 = if d < 128 {
                base + 0x10000
            } else {
                base + 0xFF00
            };
            self.pc = (t % 0x10000) as u16;
            self.clk = self.clk.saturating_add(12);
        } else {
            self.clk = self.clk.saturating_add(8);
        }
    }

    fn shift_r(&mut self, op: ShiftOp, r: usize)
        requires
            old(self).wf(),
            reg_ok(r),
        ensures
            final(self).wf(),
            final(self)@ == old(self)@.shift(op, r),
    {
        let (res, c) = shift(op, self.regs[r], self.get_flag(FL_C));
        let f = make_flags(res == 0, false, false, c);
        self.set_reg(r, res);
        self.set_f(f);
        self.clk = self.clk.saturating_add(4);
    }

    /// RLC r
    pub fn rlc_8(&mut self, r: usize)
        requires
            old(self).wf(),
            reg_ok(r),
        ensures
            final(self).wf(),
            final(self)@ == old(self)@.shift(ShiftOp::Rlc, r),
    {
        self.shift_r(ShiftOp::Rlc, r);
    }

    /// RRC r
    pub fn rrc_8(&mut self, r: usize)
        requires
            old(self).wf(),
            reg_ok(r),
        ensures
            final(self).wf(),
            final(self)@ == old(self)@.shift(ShiftOp::Rrc, r),
    {
        self.shift_r(ShiftOp::Rrc, r);
    }

    /// RL r: rotate through carry
    pub fn rl_8(&mut self, r: usize)
        requires
            old(self).wf(),
            reg_ok(r),
        ensures
            final(self).wf(),
            final(self)@ == old(self)@.shift(ShiftOp::Rl, r),
    {
        self.shift_r(ShiftOp::Rl, r);
    }

    /// RR r: rotate through carry
    pub fn rr_8(&mut self, r: usize)
        requires
            old(self).wf(),
            reg_ok(r),
        ensures
            final(self).wf(),
            final(self)@ == old(self)@.shift(ShiftOp::Rr, r),
    {
        self.shift_r(ShiftOp::Rr, r);
    }

    /// SLA r
    pub fn sla_8(&mut self, r: usize)
        requires
            old(self).wf(),
            reg_ok(r),
        ensures
            final(self).wf(),
            final(self)@ == old(self)@.shift(ShiftOp::Sla, r),
    {
        self.shift_r(ShiftOp::Sla, r);
    }

    /// SRA r: the top bit is kept
    pub fn sra_8(&mut self, r: usize)
        requires
            old(self).wf(),
            reg_ok(r),
        ensures
            final(self).wf(),
            final(self)@ == old(self)@.shift(ShiftOp::Sra, r),
    {
        self.shift_r(ShiftOp::Sra, r);
    }

    /// SWAP r: nibbles exchanged, C cleared
    pub fn swap_8(&mut self, r: usize)
        requires
            old(self).wf(),
            reg_ok(r),
        ensures
            final(self).wf(),
            final(self)@ == old(self)@.shift(ShiftOp::Swap, r),
    {
        self.shift_r(ShiftOp::Swap, r);
    }

    /// SRL r
    pub fn srl_8(&mut self, r: usize)
        requires
            old(self).wf(),
            reg_ok(r),
        ensures
            final(self).wf(),
            final(self)@ == old(self)@.shift(ShiftOp::Srl, r),
    {
        self.shift_r(ShiftOp::Srl, r);
    }

    /// BIT n,r
    pub fn bitnum_8(&mut self, bit: u8, r: usize)
        requires
            old(self).wf(),
            reg_ok(r),
            bit < 8,
        ensures
            final(self).wf(),
            final(self)@ == old(self)@.bit_test(bit, old(self)@.regs[r as int]).tick(4),
    {
        let f = make_flags(self.regs[r] & (1u8 << bit) == 0, false, true, self.get_flag(FL_C));
        self.set_f(f);
        self.clk = self.clk.saturating_add(4);
    }

    /// BIT n,(HL)
    pub fn bitnum_phl(&mut self, gb_mem: &Mem, bit: u8)
        requires
            old(self).wf(),
            gb_mem.wf(),
            bit < 8,
        ensures
            final(self).wf(),
            final(self)@ == old(self)@.bit_test(bit, gb_mem@.read(old(self)@.hl())).tick(8),
    {
        let v = gb_mem.read(self.get_hilo(H, L));
        let f = make_flags(v & (1u8 << bit) == 0, false, true, self.get_flag(FL_C));
        self.set_f(f);
        self.clk = self.clk.saturating_add(8);
    }

    /// RES n,r
    pub fn resnum_8(&mut self, bit: u8, r: usize)
        requires
            old(self).wf(),
            reg_ok(r),
            bit < 8,
        ensures
            final(self).wf(),
            final(self)@ == old(self)@.with_reg(r, old(self)@.regs[r as int] & !(1u8 << bit)).tick(4),
    {
        let v = self.regs[r] & !(1u8 << bit);
        self.set_reg(r, v);
        self.clk = self.clk.saturating_add(4);
    }

    /// RES n,(HL)
    pub fn resnum_phl(&mut self, gb_mem: &mut Mem, bit: u8)
        requires
            old(self).wf(),
            old(gb_mem).wf(),
            bit < 8,
        ensures
            final(self).wf(),
            final(gb_mem).wf(),
            final(self)@ == old(self)@.tick(12),
            final(gb_mem)@ == old(gb_mem)@.write(
                old(self)@.hl(),
                old(gb_mem)@.read(old(self)@.hl()) & !(1u8 << bit),
            ),
    {
        let hl = self.get_hilo(H, L);
        let v = gb_mem.read(hl);
        gb_mem.write(hl, v & !(1u8 << bit));
        self.clk = self.clk.saturating_add(12);
    }

    /// SET n,r
    pub fn setnum_8(&mut self, bit: u8, r: usize)
        requires
            old(self).wf(),
            reg_ok(r),
            bit < 8,
        ensures
            final(self).wf(),
            final(self)@ == old(self)@.with_reg(r, old(self)@.regs[r as int] | (1u8 << bit)).tick(4),
    {
        let v = self.regs[r] | (1u8 << bit);
        self.set_reg(r, v);
        self.clk = self.clk.saturating_add(4);
    }

    /// SET n,(HL)
    pub fn setnum_phl(&mut self, gb_mem: &mut Mem, bit: u8)
        requires
            old(self).wf(),
            old(gb_mem).wf(),
            bit < 8,
        ensures
            final(self).wf(),
            final(gb_mem).wf(),
            final(self)@ == old(self)@.tick(12),
            final(gb_mem)@ == old(gb_mem)@.write(
                old(self)@.hl(),
                old(gb_mem)@.read(old(self)@.hl()) | (1u8 << bit),
            ),
    {
        let hl = self.get_hilo(H, L);
        let v = gb_mem.read(hl);
        gb_mem.write(hl, v | (1u8 << bit));
        self.clk = self.clk.saturating_add(12);
    }

    /// An opcode with no instruction: PC is stepped back onto it, so it is
    /// met again, and the fault is reported.
    pub fn undef(&mut self, opcode: u8) -> (r: Diagnostic)
        requires
            old(self).wf(),
        ensures
            final(self).wf(),
            final(self)@ == old(self)@.with_pc(old(self).pc + 0xFFFF).tick(4),
            r == (Diagnostic::UndefinedOpcode { pc: final(self).pc, opcode }),
    {
        self.clk = self.clk.saturating_add(4);
        self.pc = self.pc.wrapping_sub(1);
        Diagnostic::UndefinedOpcode { pc: self.pc, opcode }
    }

    /// The registers as the boot ROM leaves them.
    pub fn new() -> (r: Cpu)
        ensures
            r.wf(),
            r@.hilo(A, F) == 0x01B0,
            r@.hilo(B, C) == 0x0013,
            r@.hilo(D, E) == 0x00D8,
            r@.hilo(H, L) == 0x014D,
            r.sp == 0xFFFE,
            r.pc == 0x0100,
            r.ime == Ime::Disabled,
            r.halt == 0,
            r.stop == 0,
            r.clk == 0,
    {
        let mut c = Cpu {
            regs: vec![0x00, 0x13, 0x00, 0xD8, 0x01, 0x4D, 0xB0, 0x01],
            sp: 0xFFFE,
            pc: 0x0100,
            ime: Ime::Disabled,
            halt: 0,
            stop: 0,
            clk: 0,
        };
        assert(0xB0u8 & 0x0F == 0) by (bit_vector);
        c
    }
}

impl Default for Cpu {
    /// The registers as the boot ROM leaves them.
    fn default() -> (r: Cpu)
        ensures
            r.wf(),
            r@.hilo(A, F) == 0x01B0,
            r@.hilo(B, C) == 0x0013,
            r@.hilo(D, E) == 0x00D8,
            r@.hilo(H, L) == 0x014D,
            r.sp == 0xFFFE,
            r.pc == 0x0100,
            r.ime == Ime::Disabled,
            r.halt == 0,
            r.stop == 0,
            r.clk == 0,
    {
        Cpu::new()
    }
}

fn reg_idx(z: u8) -> (r: usize)
    requires
        z < 8,
        z != 6,
    ensures
        r == reg_of(z),
        reg_ok(r),
{
    if z == 7 {
        A
    } else {
        z as usize
    }
}

fn alu_op_of(y: u8) -> (r: AluOp)
    ensures
        r == alu_op(y),
{
    if y == 0 {
        AluOp::Add
    } else if y == 1 {
        AluOp::Adc
    } else if y == 2 {
        AluOp::Sub
    } else if y == 3 {
        AluOp::Sbc
    } else if y == 4 {
        AluOp::And
    } else if y == 5 {
        AluOp::Xor
    } else if y == 6 {
        AluOp::Or
    } else {
        AluOp::Cp
    }
}

fn shift_op_of(y: u8) -> (r: ShiftOp)
    ensures
        r == shift_op(y),
{
    if y == 0 {
        ShiftOp::Rlc
    } else if y == 1 {
        ShiftOp::Rrc
    } else if y == 2 {
        ShiftOp::Rl
    } else if y == 3 {
        ShiftOp::Rr
    } else if y == 4 {
        ShiftOp::Sla
    } else if y == 5 {
        ShiftOp::Sra
    } else if y == 6 {
        ShiftOp::Swap
    } else {
        ShiftOp::Srl
    }
}

fn pair_regs(p: u8) -> (r: (usize, usize))
    requires
        p < 4,
    ensures
        r.0 == pair_hi(p),
        r.1 == pair_lo(p),
        pair_ok(r.0, r.1),
{
    if p == 0 {
        (B, C)
    } else if p == 1 {
        (D, E)
    } else if p == 2 {
        (H, L)
    } else {
        (A, F)
    }
}

/// Decimal adjust of the accumulator: the new A and F.
pub fn daa(a: u8, n: bool, h: bool, c: bool) -> (r: (u8, u8))
    ensures
        r == daa_spec(a, n, h, c),
        r.1 & 0x0F == 0,
{
    if !n {
        let lo: u16 = if h || a % 16 > 9 { 6 } else { 0 };
        let carry = c || a > 0x99;
        let hi: u16 = if carry { 0x60 } else { 0 };
        let res = ((a as u16 + lo + hi) % 256) as u8;
        (res, make_flags(res == 0, false, false, carry))
    } else {
        let lo: u16 = if h { 6 } else { 0 };
        let hi: u16 = if c { 0x60 } else { 0 };
        let res = ((a as u16 + 512 - lo - hi) % 256) as u8;
        (res, make_flags(res == 0, true, false, c))
    }
}

/// SP plus a signed byte: the sum and the flags from the low byte.
fn add_sp(sp: u16, d: u8) -> (r: (u16, u8))
    ensures
        r == sp_plus(sp, d),
        r.1 & 0x0F == 0,
{
    let t: u32 = if d < 128 {
        sp as u32 + 0x10000 + d as u32
    } else {
        sp as u32 + 0xFF00 + d as u32
    };
    let f = make_flags(false, false, sp % 16 + (d % 16) as u16 > 15, sp % 256 + d as u16 > 255);
    ((t % 0x10000) as u16, f)
}

impl Cpu {
    fn cond(&self, k: u8) -> (r: bool)
        requires
            self.wf(),
        ensures
            r == self@.cond(k),
    {
        if k == 0 {
            !self.get_flag(FL_Z)
        } else if k == 1 {
            self.get_flag(FL_Z)
        } else if k == 2 {
            !self.get_flag(FL_C)
        } else {
            self.get_flag(FL_C)
        }
    }

    fn pair_sp(&self, p: u8) -> (r: u16)
        requires
            self.wf(),
            p < 4,
        ensures
            r == self@.pair_sp(p),
    {
        if p == 3 {
            self.sp
        } else {
            let (rh, rl) = pair_regs(p);
            self.get_hilo(rh, rl)
        }
    }

    fn set_pair_sp(&mut self, p: u8, v: u16)
        requires
            old(self).wf(),
            p < 4,
        ensures
            final(self).wf(),
            final(self)@ == old(self)@.with_pair_sp(p, v),
    {
        if p == 3 {
            self.sp = v;
        } else {
            let (rh, rl) = pair_regs(p);
            self.set_hilo(rh, rl, v);
        }
    }

    fn exec_ld_block(&mut self, gb_mem: &mut Mem, op: u8) -> (r: Option<Diagnostic>)
        requires
            old(self).wf(),
            old(gb_mem).wf(),
            0x40 <= op < 0x80,
        ensures
            final(self).wf(),
            final(gb_mem).wf(),
            (final(self)@, final(gb_mem)@, r) == old(self)@.exec_ld_block(old(gb_mem)@, op),
    {
        let y = (op / 8) % 8;
        let z = op % 8;
        if op == 0x76 {
            self.halt = 1;
            self.clk = self.clk.saturating_add(4);
        } else if y == 6 {
            self.ld_p16_8(gb_mem, H, L, reg_idx(z));
        } else if z == 6 {
            self.ld_8_p16(gb_mem, reg_idx(y), H, L);
        } else {
            let v = self.regs[reg_idx(z)];
            self.set_reg(reg_idx(y), v);
            self.clk = self.clk.saturating_add(4);
        }
        None
    }

    fn exec_alu_block(&mut self, gb_mem: &Mem, op: u8) -> (r: Option<Diagnostic>)
        requires
            old(self).wf(),
            gb_mem.wf(),
            0x80 <= op < 0xC0,
        ensures
            final(self).wf(),
            (final(self)@, gb_mem@, r) == old(self)@.exec_alu_block(gb_mem@, op),
    {
        let y = (op / 8) % 8;
        let z = op % 8;
        if z == 6 {
            let v = gb_mem.read(self.get_hilo(H, L));
            self.alu_a(alu_op_of(y), v);
            self.clk = self.clk.saturating_add(8);
        } else {
            self.alu_a_8(alu_op_of(y), reg_idx(z));
        }
        None
    }

    fn exec_cb(&mut self, gb_mem: &mut Mem, op: u8) -> (r: Option<Diagnostic>)
        requires
            old(self).wf(),
            old(gb_mem).wf(),
        ensures
            final(self).wf(),
            final(gb_mem).wf(),
            (final(self)@, final(gb_mem)@, r) == old(self)@.exec_cb(old(gb_mem)@, op),
    {
        let x = op / 64;
        let y = (op / 8) % 8;
        let z = op % 8;
        if x == 0 {
            if z == 6 {
                let hl = self.get_hilo(H, L);
                let v = gb_mem.read(hl);
                let (res, c) = shift(shift_op_of(y), v, self.get_flag(FL_C));
                let f = make_flags(res == 0, false, false, c);
                gb_mem.write(hl, res);
                self.set_f(f);
                self.clk = self.clk.saturating_add(16);
            } else {
                self.shift_r(shift_op_of(y), reg_idx(z));
                self.clk = self.clk.saturating_add(4);
            }
        } else if x == 1 {
            if z == 6 {
                self.bitnum_phl(gb_mem, y);
            } else {
                self.bitnum_8(y, reg_idx(z));
            }
            self.clk = self.clk.saturating_add(4);
        } else if x == 2 {
            if z == 6 {
                self.resnum_phl(gb_mem, y);
            } else {
                self.resnum_8(y, reg_idx(z));
            }
            self.clk = self.clk.saturating_add(4);
        } else {
            if z == 6 {
                self.setnum_phl(gb_mem, y);
            } else {
                self.setnum_8(y, reg_idx(z));
            }
            self.clk = self.clk.saturating_add(4);
        }
        None
    }

    fn exec_x0_z0(&mut self, gb_mem: &mut Mem, y: u8) -> (r: Option<Diagnostic>)
        requires
            old(self).wf(),
            old(gb_mem).wf(),
            y < 8,
        ensures
            final(self).wf(),
            final(gb_mem).wf(),
            (final(self)@, final(gb_mem)@, r) == old(self)@.exec_x0_z0(old(gb_mem)@, y),
    {
        if y == 0 {
            self.clk = self.clk.saturating_add(4);
            None
        } else if y == 1 {
            let nn = self.fetch16(gb_mem);
            gb_mem.write(nn, (self.sp % 256) as u8);
            gb_mem.write(nn.wrapping_add(1), (self.sp / 256) as u8);
            self.clk = self.clk.saturating_add(20);
            None
        } else if y == 2 {
            let pc = self.pc;
            let b = self.fetch(gb_mem);
            self.stop = 1;
            self.clk = self.clk.saturating_add(8);
            if b != 0 {
                Some(Diagnostic::BadStopEncoding { pc, byte: b })
            } else {
                None
            }
        } else if y == 3 {
            self.jr_addr8(gb_mem, true);
            None
        } else {
            let c = self.cond(y - 4);
            self.jr_addr8(gb_mem, c);
            None
        }
    }

    fn exec_x0_z1(&mut self, gb_mem: &Mem, y: u8) -> (r: Option<Diagnostic>)
        requires
            old(self).wf(),
            gb_mem.wf(),
            y < 8,
        ensures
            final(self).wf(),
            (final(self)@, gb_mem@, r) == old(self)@.exec_x0_z1(gb_mem@, y),
    {
        let p = y / 2;
        if y % 2 == 0 {
            let v = self.fetch16(gb_mem);
            self.set_pair_sp(p, v);
            self.clk = self.clk.saturating_add(12);
        } else {
            let v = self.pair_sp(p);
            self.add_hl(v);
        }
        None
    }

    fn exec_x0_z2(&mut self, gb_mem: &mut Mem, y: u8) -> (r: Option<Diagnostic>)
        requires
            old(self).wf(),
            old(gb_mem).wf(),
            y < 8,
        ensures
            final(self).wf(),
            final(gb_mem).wf(),
            (final(self)@, final(gb_mem)@, r) == old(self)@.exec_x0_z2(old(gb_mem)@, y),
    {
        let hl = self.get_hilo(H, L);
        let addr = if y < 2 {
            self.get_hilo(B, C)
        } else if y < 4 {
            self.get_hilo(D, E)
        } else {
            hl
        };
        if y >= 6 {
            self.set_hilo(H, L, hl.wrapping_sub(1));
        } else if y >= 4 {
            self.set_hilo(H, L, hl.wrapping_add(1));
        }
        if y % 2 == 0 {
            gb_mem.write(addr, self.regs[A]);
        } else {
            let v = gb_mem.read(addr);
            self.set_reg(A, v);
        }
        self.clk = self.clk.saturating_add(8);
        None
    }

    fn exec_x0_z3(&mut self, y: u8) -> (r: Option<Diagnostic>)
        requires
            old(self).wf(),
            y < 8,
        ensures
            final(self).wf(),
            forall|m: MemView| (final(self)@, m, r) == #[trigger] old(self)@.exec_x0_z3(m, y),
    {
        let p = y / 2;
        let v = self.pair_sp(p);
        if y % 2 == 0 {
            self.set_pair_sp(p, v.wrapping_add(1));
        } else {
            self.set_pair_sp(p, v.wrapping_sub(1));
        }
        self.clk = self.clk.saturating_add(8);
        None
    }

    fn exec_x0_incdec(&mut self, gb_mem: &mut Mem, y: u8, dec: bool) -> (r: Option<Diagnostic>)
        requires
            old(self).wf(),
            old(gb_mem).wf(),
            y < 8,
        ensures
            final(self).wf(),
            final(gb_mem).wf(),
            (final(self)@, final(gb_mem)@, r) == old(self)@.exec_x0_incdec(old(gb_mem)@, y, dec),
    {
        if y == 6 {
            let hl = self.get_hilo(H, L);
            let v = gb_mem.read(hl);
            let res = if dec {
                v.wrapping_sub(1)
            } else {
                v.wrapping_add(1)
            };
            let h = if dec {
                v % 16 == 0
            } else {
                v % 16 == 15
            };
            let f = make_flags(res == 0, dec, h, self.get_flag(FL_C));
            gb_mem.write(hl, res);
            self.set_f(f);
            self.clk = self.clk.saturating_add(12);
        } else if dec {
            self.dec_8(reg_idx(y));
        } else {
            self.inc_8(reg_idx(y));
        }
        None
    }

    fn exec_x0_z6(&mut self, gb_mem: &mut Mem, y: u8) -> (r: Option<Diagnostic>)
        requires
            old(self).wf(),
            old(gb_mem).wf(),
            y < 8,
        ensures
            final(self).wf(),
            final(gb_mem).wf(),
            (final(self)@, final(gb_mem)@, r) == old(self)@.exec_x0_z6(old(gb_mem)@, y),
    {
        if y == 6 {
            let n = self.fetch(gb_mem);
            let hl = self.get_hilo(H, L);
            gb_mem.write(hl, n);
            self.clk = self.clk.saturating_add(12);
        } else {
            self.ld_8(gb_mem, reg_idx(y));
        }
        None
    }

    fn exec_x0_z7(&mut self, y: u8) -> (r: Option<Diagnostic>)
        requires
            old(self).wf(),
            y < 8,
        ensures
            final(self).wf(),
            forall|m: MemView| (final(self)@, m, r) == #[trigger] old(self)@.exec_x0_z7(m, y),
    {
        let a = self.regs[A];
        let z = self.get_flag(FL_Z);
        let c = self.get_flag(FL_C);
        if y < 4 {
            let (res, cy) = shift(shift_op_of(y), a, c);
            self.set_reg(A, res);
            self.set_f(make_flags(false, false, false, cy));
        } else if y == 4 {
            let (res, f) = daa(a, self.get_flag(FL_N), self.get_flag(FL_H), c);
            self.set_reg(A, res);
            self.set_f(f);
        } else if y == 5 {
            self.set_reg(A, !a);
            self.set_f(make_flags(z, true, true, c));
        } else if y == 6 {
            self.set_f(make_flags(z, false, false, true));
        } else {
            self.set_f(make_flags(z, false, false, !c));
        }
        self.clk = self.clk.saturating_add(4);
        None
    }

    fn exec_low(&mut self, gb_mem: &mut Mem, op: u8) -> (r: Option<Diagnostic>)
        requires
            old(self).wf(),
            old(gb_mem).wf(),
            op < 0x40,
        ensures
            final(self).wf(),
            final(gb_mem).wf(),
            (final(self)@, final(gb_mem)@, r) == old(self)@.exec_low(old(gb_mem)@, op),
    {
        let y = op / 8;
        let z = op % 8;
        if z == 0 {
            self.exec_x0_z0(gb_mem, y)
        } else if z == 1 {
            self.exec_x0_z1(gb_mem, y)
        } else if z == 2 {
            self.exec_x0_z2(gb_mem, y)
        } else if z == 3 {
            self.exec_x0_z3(y)
        } else if z == 4 {
            self.exec_x0_incdec(gb_mem, y, false)
        } else if z == 5 {
            self.exec_x0_incdec(gb_mem, y, true)
        } else if z == 6 {
            self.exec_x0_z6(gb_mem, y)
        } else {
            self.exec_x0_z7(y)
        }
    }

    fn exec_x3_z0(&mut self, gb_mem: &mut Mem, y: u8) -> (r: Option<Diagnostic>)
        requires
            old(self).wf(),
            old(gb_mem).wf(),
            y < 8,
        ensures
            final(self).wf(),
            final(gb_mem).wf(),
            (final(self)@, final(gb_mem)@, r) == old(self)@.exec_x3_z0(old(gb_mem)@, y),
    {
        if y < 4 {
            let c = self.cond(y);
            self.ret(gb_mem, c);
            return None;
        }
        let sp = self.sp;
        let n = self.fetch(gb_mem);
        if y == 4 {
            gb_mem.write(0xFF00 + n as u16, self.regs[A]);
            self.clk = self.clk.saturating_add(12);
        } else if y == 5 {
            let (v, f) = add_sp(sp, n);
            self.sp = v;
            self.set_f(f);
            self.clk = self.clk.saturating_add(16);
        } else if y == 6 {
            let v = gb_mem.read(0xFF00 + n as u16);
            self.set_reg(A, v);
            self.clk = self.clk.saturating_add(12);
        } else {
            let (v, f) = add_sp(sp, n);
            self.set_hilo(H, L, v);
            self.set_f(f);
            self.clk = self.clk.saturating_add(12);
        }
        None
    }

    fn exec_x3_z1(&mut self, gb_mem: &Mem, y: u8) -> (r: Option<Diagnostic>)
        requires
            old(self).wf(),
            gb_mem.wf(),
            y < 8,
        ensures
            final(self).wf(),
            (final(self)@, gb_mem@, r) == old(self)@.exec_x3_z1(gb_mem@, y),
    {
        if y % 2 == 0 {
            let (rh, rl) = pair_regs(y / 2);
            self.pop_16(gb_mem, rh, rl);
        } else if y == 1 {
            self.pc = self.pop(gb_mem);
            self.clk = self.clk.saturating_add(16);
        } else if y == 3 {
            self.pc = self.pop(gb_mem);
            self.ime = Ime::Enabled;
            self.clk = self.clk.saturating_add(16);
        } else if y == 5 {
            self.pc = self.get_hilo(H, L);
            self.clk = self.clk.saturating_add(4);
        } else {
            self.sp = self.get_hilo(H, L);
            self.clk = self.clk.saturating_add(8);
        }
        None
    }

    fn exec_x3_z2(&mut self, gb_mem: &mut Mem, y: u8) -> (r: Option<Diagnostic>)
        requires
            old(self).wf(),
            old(gb_mem).wf(),
            y < 8,
        ensures
            final(self).wf(),
            final(gb_mem).wf(),
            (final(self)@, final(gb_mem)@, r) == old(self)@.exec_x3_z2(old(gb_mem)@, y),
    {
        let io_c: u16 = 0xFF00 + self.regs[C] as u16;
        if y < 4 {
            let c = self.cond(y);
            self.jp_addr16(gb_mem, c);
        } else if y == 4 {
            gb_mem.write(io_c, self.regs[A]);
            self.clk = self.clk.saturating_add(8);
        } else if y == 5 {
            let nn = self.fetch16(gb_mem);
            gb_mem.write(nn, self.regs[A]);
            self.clk = self.clk.saturating_add(16);
        } else if y == 6 {
            let v = gb_mem.read(io_c);
            self.set_reg(A, v);
            self.clk = self.clk.saturating_add(8);
        } else {
            let nn = self.fetch16(gb_mem);
            let v = gb_mem.read(nn);
            self.set_reg(A, v);
            self.clk = self.clk.saturating_add(16);
        }
        None
    }

    fn exec_x3_z3(&mut self, gb_mem: &mut Mem, y: u8) -> (r: Option<Diagnostic>)
        requires
            old(self).wf(),
            old(gb_mem).wf(),
            y < 8,
        ensures
            final(self).wf(),
            final(gb_mem).wf(),
            (final(self)@, final(gb_mem)@, r) == old(self)@.exec_x3_z3(old(gb_mem)@, y),
    {
        if y == 0 {
            self.jp_addr16(gb_mem, true);
            None
        } else if y == 1 {
            let op = self.fetch(gb_mem);
            self.exec_cb(gb_mem, op)
        } else if y == 6 {
            self.ime = Ime::PendingDisable;
            self.clk = self.clk.saturating_add(4);
            None
        } else if y == 7 {
            self.ime = Ime::PendingEnable;
            self.clk = self.clk.saturating_add(4);
            None
        } else {
            Some(self.undef(0xC3 + y * 8))
        }
    }

    fn exec_high(&mut self, gb_mem: &mut Mem, op: u8) -> (r: Option<Diagnostic>)
        requires
            old(self).wf(),
            old(gb_mem).wf(),
            op >= 0xC0,
        ensures
            final(self).wf(),
            final(gb_mem).wf(),
            (final(self)@, final(gb_mem)@, r) == old(self)@.exec_high(old(gb_mem)@, op),
    {
        let y = (op / 8) % 8;
        let z = op % 8;
        if z == 0 {
            self.exec_x3_z0(gb_mem, y)
        } else if z == 1 {
            self.exec_x3_z1(gb_mem, y)
        } else if z == 2 {
            self.exec_x3_z2(gb_mem, y)
        } else if z == 3 {
            self.exec_x3_z3(gb_mem, y)
        } else if z == 4 {
            if y < 4 {
                let c = self.cond(y);
                self.call_addr16(gb_mem, c);
                None
            } else {
                Some(self.undef(op))
            }
        } else if z == 5 {
            if y % 2 == 0 {
                let (rh, rl) = pair_regs(y / 2);
                self.push_16(gb_mem, rh, rl);
                None
            } else if y == 1 {
                self.call_addr16(gb_mem, true);
                None
            } else {
                Some(self.undef(op))
            }
        } else if z == 6 {
            let n = self.fetch(gb_mem);
            self.alu_a(alu_op_of(y), n);
            self.clk = self.clk.saturating_add(8);
            None
        } else {
            self.rst_addr16(gb_mem, y as u16 * 8);
            None
        }
    }

    /// Runs the instruction whose opcode `op` has just been fetched.
    fn execute(&mut self, gb_mem: &mut Mem, op: u8) -> (r: Option<Diagnostic>)
        requires
            old(self).wf(),
            old(gb_mem).wf(),
        ensures
            final(self).wf(),
            final(gb_mem).wf(),
            (final(self)@, final(gb_mem)@, r) == old(self)@.execute(old(gb_mem)@, op),
    {
        if op < 0x40 {
            self.exec_low(gb_mem, op)
        } else if op < 0x80 {
            self.exec_ld_block(gb_mem, op)
        } else if op < 0xC0 {
            self.exec_alu_block(gb_mem, op)
        } else {
            self.exec_high(gb_mem, op)
        }
    }
}

/// Runs one step of the processor: services a pending interrupt, or applies
/// the delayed effect of EI/DI and then idles in HALT or runs one
/// instruction. Returns the fault that the instruction reported, if any.
pub fn cpu_cycle(gb_cpu: &mut Cpu, gb_mem: &mut Mem) -> (r: Option<Diagnostic>)
    requires
        old(gb_cpu).wf(),
        old(gb_mem).wf(),
    ensures
        final(gb_cpu).wf(),
        final(gb_mem).wf(),
        (final(gb_cpu)@, final(gb_mem)@, r) == old(gb_cpu)@.cycle(old(gb_mem)@),
        costs(old(gb_cpu)@, final(gb_cpu)@, 4, 28),
{
    proof {
        lemma_cycle_clock(gb_cpu@, gb_mem@);
    }
    proof {
        reveal(CpuView::cycle);
    }
    let int_e = gb_mem.read(PINT_E);
    let int_f = gb_mem.read(PINT_F);
    let p = int_e & int_f;
    if gb_cpu.halt != 0 && p != 0 {
        gb_cpu.halt = 0;
        gb_cpu.clk = gb_cpu.clk.saturating_add(4);
    }
    if gb_cpu.ime == Ime::Enabled && p & 0x1F != 0 {
        let n: u8 = if p & 1 != 0 {
            0
        } else if p & 2 != 0 {
            1
        } else if p & 4 != 0 {
            2
        } else if p & 8 != 0 {
            3
        } else {
            4
        };
        gb_cpu.ime = Ime::Disabled;
        gb_mem.write(PINT_F, int_f & !(1u8 << n));
        let pc = gb_cpu.pc;
        gb_cpu.push(gb_mem, pc);
        gb_cpu.pc = 0x40 + 8 * n as u16;
        gb_cpu.clk = gb_cpu.clk.saturating_add(20);
        return None;
    }
    gb_cpu.ime = match gb_cpu.ime {
        Ime::PendingEnable => Ime::Enabled,
        Ime::PendingDisable => Ime::Disabled,
        i => i,
    };
    if gb_cpu.halt != 0 {
        gb_cpu.clk = gb_cpu.clk.saturating_add(4);
        return None;
    }
    let opcode = gb_cpu.fetch(gb_mem);
    gb_cpu.execute(gb_mem, opcode)
}

} // verus!
