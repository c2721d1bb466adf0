use vstd::prelude::*;
use crate::consts::{CNTTP, CTLTTP, DIVTP, MODTP, PINT_F};
use crate::mem::{Mem, MemView};

verus! {

/// The divider and the programmable counter, clocked by the T-states that the
/// processor reports.
pub struct Timer {
    /// T-states towards the next TIMA increment.
    pub cnt: u64,
    /// T-states towards the next DIV increment.
    pub div: u64,
    /// Clock value at the previous call.
    pub prev: u64,
}

/// T-states per TIMA increment, for the two low bits of TAC.
pub open spec fn tac_period(tac: u8) -> u64 {
    if tac % 4 == 0 {
        1024
    } else if tac % 4 == 1 {
        16
    } else if tac % 4 == 2 {
        64
    } else {
        256
    }
}

/// TIMA and IF after `k` increments of TIMA: each overflow reloads TMA and
/// requests the timer interrupt.
pub open spec fn tima_run(tima: u8, tma: u8, iflag: u8, k: nat) -> (u8, u8)
    decreases k,
{
    if k == 0 {
        (tima, iflag)
    } else {
        let (t, f) = tima_run(tima, tma, iflag, (k - 1) as nat);
        if t == 255 {
            (tma, f | 4)
        } else {
            ((t + 1) as u8, f)
        }
    }
}

/// The memory after `k` TIMA increments from `m`.
pub open spec fn tima_mem(m: MemView, k: nat) -> MemView {
    let (t, f) = tima_run(m.io[5], m.io[6], m.io[0xF], k);
    MemView { io: m.io.update(5, t).update(0xF, f), ..m }
}

/// The memory after DIV has been stepped `k` times.
pub open spec fn div_mem(m: MemView, k: int) -> MemView {
    MemView { io: m.io.update(4, ((m.io[4] + k) % 256) as u8), ..m }
}

/// Steps TIMA `k` times.
fn run_tima(gb_mem: &mut Mem, k: u64)
    requires
        old(gb_mem).wf(),
    ensures
        final(gb_mem).wf(),
        final(gb_mem)@ == tima_mem(old(gb_mem)@, k as nat),
{
    let ghost m1 = gb_mem@;
    let mut j: u64 = 0;
    assert(m1.io.update(5, m1.io[5]).update(0xF, m1.io[0xF]) =~= m1.io);
    assert(gb_mem@ =~= tima_mem(m1, 0));
    while j < k
        invariant
            gb_mem.wf(),
            m1.wf(),
            j <= k,
            gb_mem@ == tima_mem(m1, j as nat),
        decreases k - j,
    {
        let t = gb_mem.read(CNTTP);
        if t == 255 {
            let tma = gb_mem.read(MODTP);
            gb_mem.write(CNTTP, tma);
            let int_f = gb_mem.read(PINT_F);
            gb_mem.write(PINT_F, int_f | 4);
        } else {
            gb_mem.write(CNTTP, t + 1);
        }
        j = j + 1;
        assert(gb_mem@ =~= tima_mem(m1, j as nat));
    }
}

/// The two counters and the memory after the timer catches up from clock
/// value `prev` to `clks`.
pub open spec fn timer_after(cnt: nat, div: nat, prev: nat, clks: nat, m: MemView) -> (nat, nat, MemView) {
    let tclk = clks - prev;
    let m1 = div_mem(m, (div + tclk) / 256);
    let tac = m1.io[7];
    let total = cnt + tclk;
    let lim = tac_period(tac) as int;
    if tac & 4 != 0 {
        ((total % lim) as nat, ((div + tclk) % 256) as nat, tima_mem(m1, (total / lim) as nat))
    } else {
        (cnt, ((div + tclk) % 256) as nat, m1)
    }
}

impl Timer {
    pub open spec fn wf(&self) -> bool {
        self.div < 256 && self.cnt < 1024
    }

    pub fn new() -> (r: Timer)
        ensures
            r.wf(),
            r.cnt == 0,
            r.div == 0,
            r.prev == 0,
    {
        Timer { cnt: 0, div: 0, prev: 0 }
    }

    /// Advances the timer to clock value `cp_clks`: DIV counts every 256
    /// T-states; while TAC bit 2 is set, TIMA counts at the rate TAC selects.
    pub fn inc(&mut self, cp_clks: u64, gb_mem: &mut Mem)
        requires
            old(self).wf(),
            old(gb_mem).wf(),
            old(self).prev <= cp_clks,
        ensures
            final(self).wf(),
            final(gb_mem).wf(),
            final(self).prev == cp_clks,
            (final(self).cnt as nat, final(self).div as nat, final(gb_mem)@) == timer_after(
                old(self).cnt as nat,
                old(self).div as nat,
                old(self).prev as nat,
                cp_clks as nat,
                old(gb_mem)@,
            ),
    {
        let tclk = cp_clks - self.prev;
        self.prev = cp_clks;
        let d = self.div + tclk % 256;
        let steps = tclk / 256 + d / 256;
        self.div = d % 256;
        let div = gb_mem.read(DIVTP);
        gb_mem.io[4] = ((div as u64 + steps % 256) % 256) as u8;
        assert(gb_mem@ =~= div_mem(old(gb_mem)@, (old(self).div + tclk) / 256));
        let ghost m1 = gb_mem@;
        let ctrl = gb_mem.read(CTLTTP);
        if ctrl & 4 != 0 {
            let lim: u64 = if ctrl % 4 == 0 {
                1024
            } else if ctrl % 4 == 1 {
                16
            } else if ctrl % 4 == 2 {
                64
            } else {
                256
            };
            let k = tclk / lim + (self.cnt + tclk % lim) / lim;
            self.cnt = (self.cnt + tclk % lim) % lim;
            proof {
                let (c0, t, l) = (old(self).cnt as int, tclk as int, lim as int);
                assert(k == (c0 + t) / l && self.cnt == (c0 + t) % l) by (nonlinear_arith)
                    requires
                        k == t / l + (c0 + t % l) / l,
                        self.cnt == (c0 + t % l) % l,
                        l > 0,
                        c0 >= 0,
                        t >= 0,
                ;
            }
            run_tima(gb_mem, k);
        }
    }
}

impl Default for Timer {
    fn default() -> (r: Timer)
        ensures
            r.wf(),
            r.cnt == 0,
            r.div == 0,
            r.prev == 0,
    {
        Timer::new()
    }
}

} // verus!
