use vstd::prelude::*;
use crate::consts::LCD_CTLP;
use crate::cpu::{CLK_LIMIT, Cpu, CpuView, Diagnostic, cpu_cycle};
use crate::gpu::{Gpu, GpuView, gpu_cycle, settle};
use crate::input::{Input, refreshed};
use crate::mem::{Mem, MemView};
use crate::timer::{Timer, timer_after};

verus! {

/// T-states in one frame.
pub const FRAME_CLKS: u64 = 70224;

/// What a frame reports to the host.
pub struct FrameOutcome {
    /// Frames that the picture processor finished and that are to be presented.
    pub presents: u64,
    /// The first fault that the processor reported during the frame.
    pub diagnostic: Option<Diagnostic>,
}

/// The whole machine: processor, picture processor and its clock
/// reference, joypad rows, timer counters and clock reference, memory.
pub struct MachineView {
    pub cpu: CpuView,
    pub gpu: GpuView,
    pub gpu_prev: nat,
    pub rows: (u8, u8),
    pub timer: (nat, nat, nat),
    pub mem: MemView,
}

pub open spec fn machine_view(
    gb_cpu: &Cpu,
    gb_gpu: &Gpu,
    gb_input: &Input,
    gb_timer: &Timer,
    gb_mem: &Mem,
) -> MachineView {
    MachineView {
        cpu: gb_cpu@,
        gpu: gb_gpu@,
        gpu_prev: gb_gpu.prev as nat,
        rows: (gb_input.r0, gb_input.r1),
        timer: (gb_timer.cnt as nat, gb_timer.div as nat, gb_timer.prev as nat),
        mem: gb_mem@,
    }
}

/// One instruction, then the picture processor, the joypad latch and the
/// timer catching up; the frames presented and the fault reported.
pub open spec fn tick(s: MachineView) -> (MachineView, nat, Option<Diagnostic>) {
    let (c1, m1, d) = s.cpu.cycle(s.mem);
    let (g2, m2, n) = if m1.read(LCD_CTLP) & 0x80 != 0 {
        settle(GpuView { clk: (s.gpu.clk + c1.clk - s.gpu_prev) as nat, ..s.gpu }, m1)
    } else {
        (s.gpu, m1, 0)
    };
    let m3 = if m2.input_update {
        refreshed(m2, s.rows.0, s.rows.1)
    } else {
        m2
    };
    let (cnt, div, m4) = timer_after(s.timer.0, s.timer.1, s.timer.2, c1.clk, m3);
    (
        MachineView {
            cpu: c1,
            gpu: g2,
            gpu_prev: c1.clk,
            rows: s.rows,
            timer: (cnt, div, c1.clk),
            mem: m4,
        },
        n,
        d,
    )
}

/// `n` ticks from `s`: the state, the frames presented, the first fault.
pub open spec fn run(s: MachineView, n: nat) -> (MachineView, nat, Option<Diagnostic>)
    decreases n,
{
    if n == 0 {
        (s, 0, None)
    } else {
        let (s1, p1, d1) = run(s, (n - 1) as nat);
        let (s2, p2, d2) = tick(s1);
        (
            s2,
            p1 + p2,
            if d1.is_some() {
                d1
            } else {
                d2
            },
        )
    }
}

/// Whether a frame that ends at clock value `target` is over.
pub open spec fn frame_done(s: MachineView, target: nat) -> bool {
    s.cpu.clk >= target || s.cpu.stop != 0
}

/// Whether the components agree on the clock and are well formed.
pub open spec fn machine_ok(gb_cpu: &Cpu, gb_gpu: &Gpu, gb_timer: &Timer, gb_mem: &Mem) -> bool {
    &&& gb_cpu.wf()
    &&& gb_gpu.wf()
    &&& gb_timer.wf()
    &&& gb_mem.wf()
    &&& gb_gpu.prev == gb_cpu.clk
    &&& gb_timer.prev == gb_cpu.clk
}

/// Runs instructions for one frame (70,224 T-states) or until the processor
/// stops; after each instruction the picture processor, the joypad latch and
/// the timer catch up with the same T-states.
pub fn gb_frame(
    gb_cpu: &mut Cpu,
    gb_gpu: &mut Gpu,
    gb_input: &mut Input,
    gb_timer: &mut Timer,
    gb_mem: &mut Mem,
) -> (r: FrameOutcome)
    requires
        machine_ok(old(gb_cpu), old(gb_gpu), old(gb_timer), old(gb_mem)),
        old(gb_cpu).clk + FRAME_CLKS + 64 <= CLK_LIMIT,
    ensures
        machine_ok(final(gb_cpu), final(gb_gpu), final(gb_timer), final(gb_mem)),
        old(gb_cpu).clk <= final(gb_cpu).clk <= old(gb_cpu).clk + FRAME_CLKS + 28,
        final(gb_cpu).clk >= old(gb_cpu).clk + FRAME_CLKS || final(gb_cpu).stop != 0,
        old(gb_cpu).stop != 0 ==> final(gb_cpu).clk == old(gb_cpu).clk,
        ({
            let s0 = machine_view(old(gb_cpu), old(gb_gpu), old(gb_input), old(gb_timer), old(gb_mem));
            let target = old(gb_cpu).clk + FRAME_CLKS;
            exists|n: nat|
                {
                    &&& run(s0, n) == (
                        machine_view(final(gb_cpu), final(gb_gpu), final(gb_input), final(gb_timer), final(gb_mem)),
                        r.presents as nat,
                        r.diagnostic,
                    )
                    &&& frame_done(run(s0, n).0, target as nat)
                    &&& forall|k: nat| k < n ==> !frame_done(#[trigger] run(s0, k).0, target as nat)
                }
        }),
{
    let ghost s0 = machine_view(gb_cpu, gb_gpu, gb_input, gb_timer, gb_mem);
    let ghost mut steps: nat = 0;
    let target = gb_cpu.clk + FRAME_CLKS;
    let mut out = FrameOutcome { presents: 0, diagnostic: None };
    if gb_cpu.stop != 0 {
        assert(run(s0, 0).0 == s0);
        return out;
    }
    while gb_cpu.clk < target && gb_cpu.stop == 0
        invariant
            machine_ok(gb_cpu, gb_gpu, gb_timer, gb_mem),
            target == old(gb_cpu).clk + FRAME_CLKS,
            target + 64 <= CLK_LIMIT,
            old(gb_cpu).clk <= gb_cpu.clk <= target + 28,
            out.presents * 80 + gb_gpu.clk <= gb_cpu.clk - old(gb_cpu).clk + old(gb_gpu).clk,
            s0 == machine_view(old(gb_cpu), old(gb_gpu), old(gb_input), old(gb_timer), old(gb_mem)),
            run(s0, steps) == (
                machine_view(gb_cpu, gb_gpu, gb_input, gb_timer, gb_mem),
                out.presents as nat,
                out.diagnostic,
            ),
            forall|k: nat| k < steps ==> !frame_done(#[trigger] run(s0, k).0, target as nat),
        decreases target + 64 - gb_cpu.clk,
    {
        let d = cpu_cycle(gb_cpu, gb_mem);
        if out.diagnostic.is_none() {
            out.diagnostic = d;
        }
        let n = gpu_cycle(gb_gpu, gb_mem, gb_cpu.clk);
        if gb_mem.input_update {
            gb_input.update(gb_mem);
        }
        gb_timer.inc(gb_cpu.clk, gb_mem);
        out.presents = out.presents + n;
        proof {
            steps = steps + 1;
        }
    }
    out
}

} // verus!
