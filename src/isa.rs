//! What each instruction does, as functions from the state after the opcode
//! fetch to the state after the instruction.
use vstd::prelude::*;
use crate::consts::{A, B, C, D, E, F, H, L, FL_Z, FL_N, FL_H, FL_C};
use crate::cpu::{AluOp, CpuView, Diagnostic, Ime, ShiftOp, flags, shift_spec, signed};
use crate::mem::MemView;

verus! {

/// The state of processor and memory after an instruction, and the fault it
/// reported, if any.
pub type Outcome = (CpuView, MemView, Option<Diagnostic>);

/// Register tag of operand code `z` (B, C, D, E, H, L, -, A); code 6 is (HL).
pub open spec fn reg_of(z: u8) -> usize {
    if z == 7 {
        A
    } else {
        z as usize
    }
}

pub open spec fn alu_op(y: u8) -> AluOp {
    if y == 0 {
        AluOp::Add
    } else if y == 1 {
        AluOp::Adc
    } else if y == 2 {
        AluOp::Sub
    } else if y == 3 {
        AluOp::Sbc
    } else if y == 4 {
        AluOp::And
    } else if y == 5 {
        AluOp::Xor
    } else if y == 6 {
        AluOp::Or
    } else {
        AluOp::Cp
    }
}

pub open spec fn shift_op(y: u8) -> ShiftOp {
    if y == 0 {
        ShiftOp::Rlc
    } else if y == 1 {
        ShiftOp::Rrc
    } else if y == 2 {
        ShiftOp::Rl
    } else if y == 3 {
        ShiftOp::Rr
    } else if y == 4 {
        ShiftOp::Sla
    } else if y == 5 {
        ShiftOp::Sra
    } else if y == 6 {
        ShiftOp::Swap
    } else {
        ShiftOp::Srl
    }
}

/// High register of pair code `p` (BC, DE, HL; AF or SP for 3).
pub open spec fn pair_hi(p: u8) -> usize {
    if p == 0 {
        B
    } else if p == 1 {
        D
    } else if p == 2 {
        H
    } else {
        A
    }
}

pub open spec fn pair_lo(p: u8) -> usize {
    if p == 0 {
        C
    } else if p == 1 {
        E
    } else if p == 2 {
        L
    } else {
        F
    }
}

/// Adds a signed byte to SP: the sum, and the flags from the low byte.
pub open spec fn sp_plus(sp: u16, d: u8) -> (u16, u8) {
    (
        ((sp + 0x10000 + signed(d)) % 0x10000) as u16,
        flags(false, false, sp % 16 + d % 16 > 15, sp % 256 + d > 255),
    )
}

/// Decimal adjust of `a` after a BCD addition (`n` clear) or subtraction.
pub open spec fn daa_spec(a: u8, n: bool, h: bool, c: bool) -> (u8, u8) {
    if !n {
        let lo = if h || a % 16 > 9 { 6int } else { 0 };
        let carry = c || a > 0x99;
        let hi = if carry { 0x60int } else { 0 };
        let r = ((a + lo + hi) % 256) as u8;
        (r, flags(r == 0, false, false, carry))
    } else {
        let lo = if h { 6int } else { 0 };
        let hi = if c { 0x60int } else { 0 };
        let r = ((a + 512 - lo - hi) % 256) as u8;
        (r, flags(r == 0, true, false, c))
    }
}

impl CpuView {
    /// Condition code `k`: NZ, Z, NC, C.
    pub open spec fn cond(self, k: u8) -> bool {
        if k == 0 {
            !self.flag(FL_Z)
        } else if k == 1 {
            self.flag(FL_Z)
        } else if k == 2 {
            !self.flag(FL_C)
        } else {
            self.flag(FL_C)
        }
    }

    /// Operand code `z`: a register, or the byte at HL for 6.
    pub open spec fn operand(self, m: MemView, z: u8) -> u8 {
        if z == 6 {
            m.read(self.hl())
        } else {
            self.regs[reg_of(z) as int]
        }
    }

    /// The 16-bit value of pair code `p`, with SP for 3.
    pub open spec fn pair_sp(self, p: u8) -> u16 {
        if p == 3 {
            self.sp
        } else {
            self.hilo(pair_hi(p), pair_lo(p))
        }
    }

    pub open spec fn with_pair_sp(self, p: u8, v: u16) -> CpuView {
        if p == 3 {
            CpuView { sp: v, ..self }
        } else {
            self.with_hilo(pair_hi(p), pair_lo(p), v)
        }
    }

    /// Opcodes 0x40 to 0x7F: LD r,r', LD r,(HL), LD (HL),r and HALT.
    pub open spec fn exec_ld_block(self, m: MemView, op: u8) -> Outcome {
        let y = (op / 8) % 8;
        let z = op % 8;
        if op == 0x76 {
            (CpuView { halt: 1, ..self }.tick(4), m, None)
        } else if y == 6 {
            (self.tick(8), m.write(self.hl(), self.regs[reg_of(z) as int]), None)
        } else if z == 6 {
            (self.with_reg(reg_of(y), m.read(self.hl())).tick(8), m, None)
        } else {
            (self.with_reg(reg_of(y), self.regs[reg_of(z) as int]).tick(4), m, None)
        }
    }

    /// Opcodes 0x80 to 0xBF: the arithmetic/logic operation `y` on A and
    /// operand `z`.
    pub open spec fn exec_alu_block(self, m: MemView, op: u8) -> Outcome {
        let y = (op / 8) % 8;
        let z = op % 8;
        (
            self.alu(alu_op(y), self.operand(m, z)).tick(
                if z == 6 {
                    8
                } else {
                    4
                },
            ),
            m,
            None,
        )
    }

    /// The prefixed opcode `op`, fetched after 0xCB; the cost includes the
    /// prefix.
    pub open spec fn exec_cb(self, m: MemView, op: u8) -> Outcome {
        let x = op / 64;
        let y = (op / 8) % 8;
        let z = op % 8;
        let hl = self.hl();
        let v = self.operand(m, z);
        if x == 0 {
            let (res, c) = shift_spec(shift_op(y), v, self.flag(FL_C));
            let f = flags(res == 0, false, false, c);
            if z == 6 {
                (self.with_f(f).tick(16), m.write(hl, res), None)
            } else {
                (self.with_reg(reg_of(z), res).with_f(f).tick(8), m, None)
            }
        } else if x == 1 {
            (
                self.bit_test(y, v).tick(
                    if z == 6 {
                        12
                    } else {
                        8
                    },
                ),
                m,
                None,
            )
        } else {
            let res = if x == 2 {
                v & !(1u8 << y)
            } else {
                v | (1u8 << y)
            };
            if z == 6 {
                (self.tick(16), m.write(hl, res), None)
            } else {
                (self.with_reg(reg_of(z), res).tick(8), m, None)
            }
        }
    }

    /// Opcodes 0x00 to 0x3F with low bits 0: NOP, LD (nn),SP, STOP, JR.
    pub open spec fn exec_x0_z0(self, m: MemView, y: u8) -> Outcome {
        if y == 0 {
            (self.tick(4), m, None)
        } else if y == 1 {
            let nn = m.read16(self.pc);
            (
                self.with_pc(self.pc + 2).tick(20),
                m.write(nn, (self.sp % 256) as u8).write(((nn + 1) % 0x10000) as u16, (self.sp / 256) as u8),
                None,
            )
        } else if y == 2 {
            let b = m.read(self.pc);
            (
                CpuView { stop: 1, ..self.with_pc(self.pc + 1) }.tick(8),
                m,
                if b != 0 {
                    Some(Diagnostic::BadStopEncoding { pc: self.pc, byte: b })
                } else {
                    None
                },
            )
        } else if y == 3 {
            (self.jr(m, true), m, None)
        } else {
            (self.jr(m, self.cond((y - 4) as u8)), m, None)
        }
    }

    /// Opcodes with low bits 1: LD rr,nn and ADD HL,rr.
    pub open spec fn exec_x0_z1(self, m: MemView, y: u8) -> Outcome {
        let p = y / 2;
        if y % 2 == 0 {
            (self.with_pair_sp(p, m.read16(self.pc)).with_pc(self.pc + 2).tick(12), m, None)
        } else {
            (self.add_hl(self.pair_sp(p)), m, None)
        }
    }

    /// Opcodes with low bits 2: loads between A and (BC), (DE), (HL+), (HL-).
    pub open spec fn exec_x0_z2(self, m: MemView, y: u8) -> Outcome {
        let addr = if y < 2 {
            self.hilo(B, C)
        } else if y < 4 {
            self.hilo(D, E)
        } else {
            self.hl()
        };
        let c1 = if y < 4 {
            self
        } else if y < 6 {
            self.with_hilo(H, L, ((self.hl() + 1) % 0x10000) as u16)
        } else {
            self.with_hilo(H, L, ((self.hl() + 0xFFFF) % 0x10000) as u16)
        };
        if y % 2 == 0 {
            (c1.tick(8), m.write(addr, self.regs[A as int]), None)
        } else {
            (c1.with_reg(A, m.read(addr)).tick(8), m, None)
        }
    }

    /// Opcodes with low bits 3: INC rr and DEC rr, SP included.
    pub open spec fn exec_x0_z3(self, m: MemView, y: u8) -> Outcome {
        let p = y / 2;
        let v = self.pair_sp(p);
        let d = if y % 2 == 0 {
            1int
        } else {
            0xFFFF
        };
        (self.with_pair_sp(p, ((v + d) % 0x10000) as u16).tick(8), m, None)
    }

    /// Opcodes with low bits 4 and 5: INC r and DEC r, (HL) included.
    pub open spec fn exec_x0_incdec(self, m: MemView, y: u8, dec: bool) -> Outcome {
        if y == 6 {
            let v = m.read(self.hl());
            let res = if dec {
                ((v + 255) % 256) as u8
            } else {
                ((v + 1) % 256) as u8
            };
            let h = if dec {
                v % 16 == 0
            } else {
                v % 16 == 15
            };
            (self.with_f(flags(res == 0, dec, h, self.flag(FL_C))).tick(12), m.write(self.hl(), res), None)
        } else if dec {
            (self.dec_8(reg_of(y)), m, None)
        } else {
            (self.inc_8(reg_of(y)), m, None)
        }
    }

    /// Opcodes with low bits 6: LD r,n and LD (HL),n.
    pub open spec fn exec_x0_z6(self, m: MemView, y: u8) -> Outcome {
        if y == 6 {
            (self.with_pc(self.pc + 1).tick(12), m.write(self.hl(), m.read(self.pc)), None)
        } else {
            (self.ld_8(m, reg_of(y)), m, None)
        }
    }

    /// Opcodes with low bits 7: the accumulator rotates (Z cleared), DAA,
    /// CPL, SCF and CCF.
    pub open spec fn exec_x0_z7(self, m: MemView, y: u8) -> Outcome {
        let a = self.regs[A as int];
        let z = self.flag(FL_Z);
        let c = self.flag(FL_C);
        if y < 4 {
            let (res, cy) = shift_spec(shift_op(y), a, c);
            (self.with_reg(A, res).with_f(flags(false, false, false, cy)).tick(4), m, None)
        } else if y == 4 {
            let (res, f) = daa_spec(a, self.flag(FL_N), self.flag(FL_H), c);
            (self.with_reg(A, res).with_f(f).tick(4), m, None)
        } else if y == 5 {
            (self.with_reg(A, !a).with_f(flags(z, true, true, c)).tick(4), m, None)
        } else if y == 6 {
            (self.with_f(flags(z, false, false, true)).tick(4), m, None)
        } else {
            (self.with_f(flags(z, false, false, !c)).tick(4), m, None)
        }
    }

    /// Opcodes 0x00 to 0x3F.
    pub open spec fn exec_low(self, m: MemView, op: u8) -> Outcome {
        let y = op / 8;
        let z = op % 8;
        if z == 0 {
            self.exec_x0_z0(m, y)
        } else if z == 1 {
            self.exec_x0_z1(m, y)
        } else if z == 2 {
            self.exec_x0_z2(m, y)
        } else if z == 3 {
            self.exec_x0_z3(m, y)
        } else if z == 4 {
            self.exec_x0_incdec(m, y, false)
        } else if z == 5 {
            self.exec_x0_incdec(m, y, true)
        } else if z == 6 {
            self.exec_x0_z6(m, y)
        } else {
            self.exec_x0_z7(m, y)
        }
    }

    /// The state after an undefined opcode: PC back on it, 4 T-states spent.
    pub open spec fn exec_undef(self, m: MemView, op: u8) -> Outcome {
        let c1 = self.with_pc(self.pc + 0xFFFF).tick(4);
        (c1, m, Some(Diagnostic::UndefinedOpcode { pc: c1.pc, opcode: op }))
    }

    /// Opcodes 0xC0 to 0xFF with low bits 0: RET cc, LDH (n),A, ADD SP,e,
    /// LDH A,(n), LD HL,SP+e.
    pub open spec fn exec_x3_z0(self, m: MemView, y: u8) -> Outcome {
        let n = m.read(self.pc);
        let c1 = self.with_pc(self.pc + 1);
        if y < 4 {
            (self.ret(m, self.cond(y)), m, None)
        } else if y == 4 {
            (c1.tick(12), m.write((0xFF00 + n) as u16, self.regs[A as int]), None)
        } else if y == 5 {
            let (v, f) = sp_plus(self.sp, n);
            (CpuView { sp: v, ..c1 }.with_f(f).tick(16), m, None)
        } else if y == 6 {
            (c1.with_reg(A, m.read((0xFF00 + n) as u16)).tick(12), m, None)
        } else {
            let (v, f) = sp_plus(self.sp, n);
            (c1.with_hilo(H, L, v).with_f(f).tick(12), m, None)
        }
    }

    /// Low bits 1: POP, RET and RETI (16 T-states), JP HL, LD SP,HL.
    pub open spec fn exec_x3_z1(self, m: MemView, y: u8) -> Outcome {
        if y % 2 == 0 {
            (self.pop_16(m, pair_hi(y / 2), pair_lo(y / 2)), m, None)
        } else if y == 1 {
            (self.with_pc(self.top(m) as int).with_sp(self.sp + 2).tick(16), m, None)
        } else if y == 3 {
            (
                CpuView { ime: Ime::Enabled, ..self.with_pc(self.top(m) as int).with_sp(self.sp + 2) }.tick(16),
                m,
                None,
            )
        } else if y == 5 {
            (self.with_pc(self.hl() as int).tick(4), m, None)
        } else {
            (CpuView { sp: self.hl(), ..self }.tick(8), m, None)
        }
    }

    /// Low bits 2: JP cc and the loads between A and (C) or (nn).
    pub open spec fn exec_x3_z2(self, m: MemView, y: u8) -> Outcome {
        let a = self.regs[A as int];
        let io_c = (0xFF00 + self.regs[C as int]) as u16;
        let nn = m.read16(self.pc);
        let c2 = self.with_pc(self.pc + 2);
        if y < 4 {
            (self.jp(m, self.cond(y)), m, None)
        } else if y == 4 {
            (self.tick(8), m.write(io_c, a), None)
        } else if y == 5 {
            (c2.tick(16), m.write(nn, a), None)
        } else if y == 6 {
            (self.with_reg(A, m.read(io_c)).tick(8), m, None)
        } else {
            (c2.with_reg(A, m.read(nn)).tick(16), m, None)
        }
    }

    /// Low bits 3: JP nn, DI, EI and undefined opcodes; 0xCB is the prefix.
    pub open spec fn exec_x3_z3(self, m: MemView, y: u8) -> Outcome {
        if y == 0 {
            (self.jp(m, true), m, None)
        } else if y == 1 {
            self.with_pc(self.pc + 1).exec_cb(m, m.read(self.pc))
        } else if y == 6 {
            (CpuView { ime: Ime::PendingDisable, ..self }.tick(4), m, None)
        } else if y == 7 {
            (CpuView { ime: Ime::PendingEnable, ..self }.tick(4), m, None)
        } else {
            self.exec_undef(m, (0xC3 + y * 8) as u8)
        }
    }

    /// Low bits 4: CALL cc and undefined opcodes.
    pub open spec fn exec_x3_z4(self, m: MemView, y: u8) -> Outcome {
        if y < 4 {
            (self.call(m, self.cond(y)), self.call_mem(m, self.cond(y)), None)
        } else {
            self.exec_undef(m, (0xC4 + y * 8) as u8)
        }
    }

    /// Low bits 5: PUSH, CALL nn and undefined opcodes.
    pub open spec fn exec_x3_z5(self, m: MemView, y: u8) -> Outcome {
        if y % 2 == 0 {
            (
                self.push_regs().tick(16),
                self.push_mem(m, self.hilo(pair_hi(y / 2), pair_lo(y / 2))),
                None,
            )
        } else if y == 1 {
            (self.call(m, true), self.call_mem(m, true), None)
        } else {
            self.exec_undef(m, (0xC5 + y * 8) as u8)
        }
    }

    /// Opcodes 0xC0 to 0xFF.
    pub open spec fn exec_high(self, m: MemView, op: u8) -> Outcome {
        let y = (op / 8) % 8;
        let z = op % 8;
        if z == 0 {
            self.exec_x3_z0(m, y)
        } else if z == 1 {
            self.exec_x3_z1(m, y)
        } else if z == 2 {
            self.exec_x3_z2(m, y)
        } else if z == 3 {
            self.exec_x3_z3(m, y)
        } else if z == 4 {
            self.exec_x3_z4(m, y)
        } else if z == 5 {
            self.exec_x3_z5(m, y)
        } else if z == 6 {
            let c1 = self.with_pc(self.pc + 1);
            (c1.alu(alu_op(y), m.read(self.pc)).tick(8), m, None)
        } else {
            (
                self.push_regs().with_pc(y * 8).tick(16),
                self.push_mem(m, self.pc),
                None,
            )
        }
    }

    /// The instruction `op`, whose opcode byte has just been fetched.
    pub open spec fn execute(self, m: MemView, op: u8) -> Outcome {
        if op < 0x40 {
            self.exec_low(m, op)
        } else if op < 0x80 {
            self.exec_ld_block(m, op)
        } else if op < 0xC0 {
            self.exec_alu_block(m, op)
        } else {
            self.exec_high(m, op)
        }
    }

    /// HALT ends, at a cost of 4 T-states, once an enabled interrupt is
    /// requested.
    pub open spec fn woken(self, m: MemView) -> CpuView {
        if self.halt != 0 && pending(m) != 0 {
            CpuView { halt: 0, ..self }.tick(4)
        } else {
            self
        }
    }

    /// Whether an interrupt is dispatched before the next fetch.
    pub open spec fn irq_taken(self, m: MemView) -> bool {
        self.ime == Ime::Enabled && pending(m) & 0x1F != 0
    }

    /// One step of the processor: interrupt dispatch, or the IME delay and
    /// then HALT or one instruction.
    #[verifier::opaque]
    pub open spec fn cycle(self, m: MemView) -> Outcome {
        let c0 = self.woken(m);
        if c0.irq_taken(m) {
            let n = lowest_irq(pending(m));
            let m1 = m.write(0xFF0F, m.read(0xFF0F) & !(1u8 << n));
            (
                CpuView { ime: Ime::Disabled, ..c0 }.push_regs().with_pc(0x40 + 8 * n).tick(20),
                c0.push_mem(m1, c0.pc),
                None,
            )
        } else {
            let c1 = CpuView { ime: ime_step(c0.ime), ..c0 };
            if c1.halt != 0 {
                (c1.tick(4), m, None)
            } else {
                c1.with_pc(c1.pc + 1).execute(m, m.read(c1.pc))
            }
        }
    }
}

/// Interrupts both requested (IF) and enabled (IE).
pub open spec fn pending(m: MemView) -> u8 {
    m.read(0xFFFF) & m.read(0xFF0F)
}

/// The lowest-numbered pending source: VBlank, LCD status, timer, serial,
/// joypad.
pub open spec fn lowest_irq(p: u8) -> u8 {
    if p & 1 != 0 {
        0
    } else if p & 2 != 0 {
        1
    } else if p & 4 != 0 {
        2
    } else if p & 8 != 0 {
        3
    } else {
        4
    }
}

/// A pending EI or DI takes effect.
pub open spec fn ime_step(i: Ime) -> Ime {
    match i {
        Ime::PendingEnable => Ime::Enabled,
        Ime::PendingDisable => Ime::Disabled,
        _ => i,
    }
}

/// `d` is `c` after between `lo` and `hi` T-states; the counter stops at its
/// largest value.
pub open spec fn costs(c: CpuView, d: CpuView, lo: nat, hi: nat) -> bool {
    &&& c.clk <= d.clk <= c.clk + hi
    &&& d.clk <= u64::MAX
    &&& c.clk + hi <= u64::MAX ==> c.clk + lo <= d.clk
}

proof fn lemma_cost_x0_z0(c: CpuView, m: MemView, y: u8)
    requires
        c.clk <= u64::MAX,
    ensures
        costs(c, c.exec_x0_z0(m, y).0, 4, 24),
{
}

proof fn lemma_cost_x0_z1(c: CpuView, m: MemView, y: u8)
    requires
        c.clk <= u64::MAX,
    ensures
        costs(c, c.exec_x0_z1(m, y).0, 4, 24),
{
}

proof fn lemma_cost_x0_z2(c: CpuView, m: MemView, y: u8)
    requires
        c.clk <= u64::MAX,
    ensures
        costs(c, c.exec_x0_z2(m, y).0, 4, 24),
{
}

proof fn lemma_cost_x0_z3(c: CpuView, m: MemView, y: u8)
    requires
        c.clk <= u64::MAX,
    ensures
        costs(c, c.exec_x0_z3(m, y).0, 4, 24),
{
}

proof fn lemma_cost_x0_incdec4(c: CpuView, m: MemView, y: u8)
    requires
        c.clk <= u64::MAX,
    ensures
        costs(c, c.exec_x0_incdec(m, y, false).0, 4, 24),
{
}

proof fn lemma_cost_x0_incdec5(c: CpuView, m: MemView, y: u8)
    requires
        c.clk <= u64::MAX,
    ensures
        costs(c, c.exec_x0_incdec(m, y, true).0, 4, 24),
{
}

proof fn lemma_cost_x0_z6(c: CpuView, m: MemView, y: u8)
    requires
        c.clk <= u64::MAX,
    ensures
        costs(c, c.exec_x0_z6(m, y).0, 4, 24),
{
}

proof fn lemma_cost_x0_z7(c: CpuView, m: MemView, y: u8)
    requires
        c.clk <= u64::MAX,
    ensures
        costs(c, c.exec_x0_z7(m, y).0, 4, 24),
{
}

proof fn lemma_cost_x3_z0(c: CpuView, m: MemView, y: u8)
    requires
        c.clk <= u64::MAX,
    ensures
        costs(c, c.exec_x3_z0(m, y).0, 4, 24),
{
}

proof fn lemma_cost_x3_z1(c: CpuView, m: MemView, y: u8)
    requires
        c.clk <= u64::MAX,
    ensures
        costs(c, c.exec_x3_z1(m, y).0, 4, 24),
{
}

proof fn lemma_cost_x3_z2(c: CpuView, m: MemView, y: u8)
    requires
        c.clk <= u64::MAX,
    ensures
        costs(c, c.exec_x3_z2(m, y).0, 4, 24),
{
}

proof fn lemma_cost_x3_z4(c: CpuView, m: MemView, y: u8)
    requires
        c.clk <= u64::MAX,
    ensures
        costs(c, c.exec_x3_z4(m, y).0, 4, 24),
{
}

proof fn lemma_cost_x3_z5(c: CpuView, m: MemView, y: u8)
    requires
        c.clk <= u64::MAX,
    ensures
        costs(c, c.exec_x3_z5(m, y).0, 4, 24),
{
}

proof fn lemma_cost_cb(c: CpuView, m: MemView, y: u8)
    requires
        c.clk <= u64::MAX,
    ensures
        costs(c, c.exec_cb(m, y).0, 4, 24),
{
}

proof fn lemma_cost_ld(c: CpuView, m: MemView, y: u8)
    requires
        c.clk <= u64::MAX,
    ensures
        costs(c, c.exec_ld_block(m, y).0, 4, 24),
{
}

proof fn lemma_cost_alu(c: CpuView, m: MemView, y: u8)
    requires
        c.clk <= u64::MAX,
    ensures
        costs(c, c.exec_alu_block(m, y).0, 4, 24),
{
}

proof fn lemma_cost_high(c: CpuView, m: MemView, y: u8)
    requires
        c.clk <= u64::MAX,
        y % 8 == 6 || y % 8 == 7,
    ensures
        costs(c, c.exec_high(m, y).0, 4, 24),
{
}

proof fn lemma_cost_x3_z3(c: CpuView, m: MemView, y: u8)
    requires
        c.clk <= u64::MAX,
    ensures
        costs(c, c.exec_x3_z3(m, y).0, 4, 24),
{
    lemma_cost_cb(c.with_pc(c.pc + 1), m, m.read(c.pc));
}

/// Every instruction costs between 4 and 24 T-states; the counter stops at
/// its largest value.
pub proof fn lemma_execute_clock(c: CpuView, m: MemView, op: u8)
    requires
        c.clk <= u64::MAX,
    ensures
        costs(c, c.execute(m, op).0, 4, 24),
{
    let y = (op / 8) % 8;
    let z = op % 8;
    if op < 0x40 {
        let y = op / 8;
        if z == 0 { lemma_cost_x0_z0(c, m, y); }
        else if z == 1 { lemma_cost_x0_z1(c, m, y); }
        else if z == 2 { lemma_cost_x0_z2(c, m, y); }
        else if z == 3 { lemma_cost_x0_z3(c, m, y); }
        else if z == 4 { lemma_cost_x0_incdec4(c, m, y); }
        else if z == 5 { lemma_cost_x0_incdec5(c, m, y); }
        else if z == 6 { lemma_cost_x0_z6(c, m, y); }
        else { lemma_cost_x0_z7(c, m, y); }
    } else if op < 0x80 {
        lemma_cost_ld(c, m, op);
    } else if op < 0xC0 {
        lemma_cost_alu(c, m, op);
    } else {
        if z == 0 { lemma_cost_x3_z0(c, m, y); }
        else if z == 1 { lemma_cost_x3_z1(c, m, y); }
        else if z == 2 { lemma_cost_x3_z2(c, m, y); }
        else if z == 3 { lemma_cost_x3_z3(c, m, y); }
        else if z == 4 { lemma_cost_x3_z4(c, m, y); }
        else if z == 5 { lemma_cost_x3_z5(c, m, y); }
        else { lemma_cost_high(c, m, op); }
    }
}

/// A step of the processor costs between 4 and 28 T-states; the counter
/// stops at its largest value.
pub proof fn lemma_cycle_clock(c: CpuView, m: MemView)
    requires
        c.clk <= u64::MAX,
    ensures
        costs(c, c.cycle(m).0, 4, 28),
{
    reveal(CpuView::cycle);
    let c0 = c.woken(m);
    let c1 = CpuView { ime: ime_step(c0.ime), ..c0 };
    lemma_execute_clock(c1.with_pc(c1.pc + 1), m, m.read(c1.pc));
}

} // verus!
