use vstd::prelude::*;
use crate::consts::{
    BG_PALLP, GPU_INTS, HEIGHT, LCD_CTLP, LYCP, OBJPALBP, PINT_F, SCLINEP, SCXP, SCYP, SPRITE_BASE,
    WIDTH, WXP, WYP,
};
use crate::mem::{Mem, MemView, zeroed};
use crate::cpu::CLK_LIMIT;

verus! {

/// Pixels in one frame.
pub const FB_SIZE: usize = 23040;

/// Shade (0 to 3) of colour index `cn` through palette `pal`.
pub open spec fn shade(pal: u8, cn: u8) -> u8 {
    (pal >> (2 * cn)) & 3
}

/// Colour index of bit `cb` of a tile row given by its two planes.
pub open spec fn color_index(lo: u8, hi: u8, cb: u8) -> u8 {
    (((hi >> cb) & 1) * 2 + ((lo >> cb) & 1)) as u8
}

fn color_idx(lo: u8, hi: u8, cb: u8) -> (r: u8)
    requires
        cb < 8,
    ensures
        r == color_index(lo, hi, cb),
        r < 4,
{
    let h = (hi >> cb) & 1;
    let l = (lo >> cb) & 1;
    assert(h <= 1 && l <= 1) by (bit_vector)
        requires
            h == (hi >> cb) & 1,
            l == (lo >> cb) & 1,
    ;
    h * 2 + l
}

/// Whether line `ly` shows the window.
pub open spec fn window_line(m: MemView, ly: u8) -> bool {
    m.read(LCD_CTLP) & 0x20 != 0 && m.read(WYP) <= ly
}

/// Background or window shade of pixel `x` on line `ly`.
pub open spec fn bg_shade(m: MemView, ly: u8, x: u8) -> u8 {
    let lcdc = m.read(LCD_CTLP);
    let sw = window_line(m, ly);
    let wx = m.read(WXP);
    let y: u8 = if sw {
        (ly - m.read(WYP)) as u8
    } else {
        ((m.read(SCYP) + ly) % 256) as u8
    };
    let xe: u8 = if sw && x >= wx {
        (x - wx) as u8
    } else {
        ((x + m.read(SCXP)) % 256) as u8
    };
    let msk: u8 = if sw { 0x40 } else { 0x08 };
    let bgmap: int = if lcdc & msk != 0 { 0x9C00 } else { 0x9800 };
    let tn = m.read((bgmap + xe / 8 + (y / 8) * 32) as u16);
    let tp: int = if lcdc & 0x10 != 0 {
        0x8000 + tn * 16
    } else {
        0x8800 + ((tn + 128) % 256) * 16
    };
    let row = (y % 8) * 2;
    let lo = m.read((tp + row) as u16);
    let hi = m.read((tp + row + 1) as u16);
    shade(m.read(BG_PALLP), color_index(lo, hi, (7 - xe % 8) as u8))
}

/// The shade that sprite `i` puts at column `p` of line `ly`, if it covers
/// that column with a colour other than 0. `bgz` tells which background
/// pixels were shade 0, for sprites drawn behind the background.
pub open spec fn sprite_pixel(m: MemView, ly: u8, i: int, p: int, bgz: Seq<bool>) -> Option<u8> {
    let lcdc = m.read(LCD_CTLP);
    let tall = lcdc & 0x4 != 0;
    let addr = SPRITE_BASE + i * 4;
    let sy = m.read(addr as u16) - 16;
    let sx = m.read((addr + 1) as u16) - 8;
    let tile = m.read((addr + 2) as u16) & (if tall { 0xFEu8 } else { 0xFFu8 });
    let attr = m.read((addr + 3) as u16);
    let h: int = if tall { 16 } else { 8 };
    let o = p - sx;
    if !(sy <= ly < sy + h && 0 <= o < 8) {
        None
    } else {
        let line = if attr & 0x40 != 0 { h - 1 - (ly - sy) } else { ly - sy };
        let sp = 0x8000 + tile * 16 + line * 2;
        let lo = m.read(sp as u16);
        let hi = m.read((sp + 1) as u16);
        let cb: u8 = if attr & 0x20 != 0 { o as u8 } else { (7 - o) as u8 };
        let cn = color_index(lo, hi, cb);
        let pal = if attr & 0x10 != 0 { m.read((OBJPALBP + 1) as u16) } else { m.read(OBJPALBP) };
        if cn == 0 || (attr & 0x80 != 0 && lcdc & 0x1 != 0 && !bgz[p]) {
            None
        } else {
            Some(shade(pal, cn))
        }
    }
}

/// Line `row` after sprites 0 to `n - 1` are drawn over it in turn.
pub open spec fn sprites_row(m: MemView, ly: u8, n: nat, row: Seq<u8>, bgz: Seq<bool>) -> Seq<u8>
    decreases n,
{
    if n == 0 {
        row
    } else {
        let r = sprites_row(m, ly, (n - 1) as nat, row, bgz);
        Seq::new(
            WIDTH as nat,
            |p: int|
                match sprite_pixel(m, ly, n - 1, p, bgz) {
                    Some(s) => s,
                    None => r[p],
                },
        )
    }
}

/// The background pass of line `ly` over the previous `row`.
pub open spec fn bg_row(m: MemView, ly: u8, row: Seq<u8>) -> Seq<u8> {
    if m.read(LCD_CTLP) & 0x1 != 0 {
        Seq::new(WIDTH as nat, |x: int| bg_shade(m, ly, x as u8))
    } else {
        row
    }
}

/// Which background pixels of line `ly` were shade 0.
pub open spec fn bg_zero(m: MemView, ly: u8) -> Seq<bool> {
    Seq::new(
        WIDTH as nat,
        |x: int| m.read(LCD_CTLP) & 0x1 != 0 && bg_shade(m, ly, x as u8) == 0,
    )
}

/// Line `ly` as drawn over the previous `row`: background, then sprites when
/// LCDC bit 1 is set.
pub open spec fn line_spec(m: MemView, ly: u8, row: Seq<u8>) -> Seq<u8> {
    let r = bg_row(m, ly, row);
    if m.read(LCD_CTLP) & 0x2 != 0 {
        sprites_row(m, ly, 40, r, bg_zero(m, ly))
    } else {
        r
    }
}

/// The frame after line `ly` is drawn; lines past the screen are not drawn.
#[verifier::opaque]
pub open spec fn draw_spec(fb: Seq<u8>, m: MemView, ly: u8) -> Seq<u8> {
    if ly < HEIGHT {
        let base = ly * WIDTH;
        let row = line_spec(m, ly, fb.subrange(base, base + WIDTH));
        Seq::new(fb.len(), |i: int| if base <= i < base + WIDTH { row[i - base] } else { fb[i] })
    } else {
        fb
    }
}

fn bg_pixel(gb_mem: &Mem, ly: u8, x: u8) -> (r: u8)
    requires
        gb_mem.wf(),
    ensures
        r == bg_shade(gb_mem@, ly, x),
{
    let lcdc = gb_mem.read(LCD_CTLP);
    let wy = gb_mem.read(WYP);
    let sw = (lcdc & 0x20 != 0) && wy <= ly;
    let wx = gb_mem.read(WXP);
    let y: u8 = if sw {
        ly - wy
    } else {
        ((gb_mem.read(SCYP) as u16 + ly as u16) % 256) as u8
    };
    let xe: u8 = if sw && x >= wx {
        x - wx
    } else {
        ((x as u16 + gb_mem.read(SCXP) as u16) % 256) as u8
    };
    let msk: u8 = if sw { 0x40 } else { 0x08 };
    let bgmap: u16 = if lcdc & msk != 0 { 0x9C00 } else { 0x9800 };
    let tn = gb_mem.read(bgmap + (xe / 8) as u16 + ((y / 8) as u16) * 32);
    let tp: u16 = if lcdc & 0x10 != 0 {
        0x8000 + (tn as u16) * 16
    } else {
        0x8800 + ((tn as u16 + 128) % 256) * 16
    };
    let row = ((y % 8) as u16) * 2;
    let lo = gb_mem.read(tp + row);
    let hi = gb_mem.read(tp + row + 1);
    let cb: u8 = 7 - xe % 8;
    let cn = color_idx(lo, hi, cb);
    get_color(gb_mem, cn, BG_PALLP)
}

/// The shade of colour index `cn` through the palette register at `addr`.
fn get_color(gb_mem: &Mem, cn: u8, addr: u16) -> (r: u8)
    requires
        gb_mem.wf(),
        cn < 4,
    ensures
        r == shade(gb_mem@.read(addr), cn),
{
    let pallete = gb_mem.read(addr);
    (pallete >> (2 * cn)) & 3
}

/// Draws sprite `i` of line `ly` over `row`.
fn draw_sprite(gb_mem: &Mem, ly: u8, i: u16, row: &mut Vec<u8>, bgz: &Vec<bool>)
    requires
        gb_mem.wf(),
        old(row)@.len() == WIDTH,
        bgz@.len() == WIDTH,
        i < 40,
    ensures
        final(row)@ == Seq::new(
            WIDTH as nat,
            |p: int|
                match sprite_pixel(gb_mem@, ly, i as int, p, bgz@) {
                    Some(s) => s,
                    None => old(row)@[p],
                },
        ),
{
    let ghost old_row = row@;
    let lcdc = gb_mem.read(LCD_CTLP);
    let tall = lcdc & 0x4 != 0;
    let addr: u16 = SPRITE_BASE + i * 4;
    let sy: i32 = gb_mem.read(addr) as i32 - 16;
    let sx: i32 = gb_mem.read(addr + 1) as i32 - 8;
    let tile: u8 = gb_mem.read(addr + 2) & (if tall { 0xFEu8 } else { 0xFFu8 });
    let attr = gb_mem.read(addr + 3);
    let h: i32 = if tall { 16 } else { 8 };
    let lyi = ly as i32;
    if !(sy <= lyi && lyi < sy + h) {
        assert(row@ =~= Seq::new(
            WIDTH as nat,
            |p: int|
                match sprite_pixel(gb_mem@, ly, i as int, p, bgz@) {
                    Some(s) => s,
                    None => old_row[p],
                },
        ));
        return;
    }
    let line: i32 = if attr & 0x40 != 0 { h - 1 - (lyi - sy) } else { lyi - sy };
    let sp: u16 = 0x8000 + (tile as u16) * 16 + (line as u16) * 2;
    let lo = gb_mem.read(sp);
    let hi = gb_mem.read(sp + 1);
    let pal_addr: u16 = if attr & 0x10 != 0 { OBJPALBP + 1 } else { OBJPALBP };
    let mut o: i32 = 0;
    while o < 8
        invariant
            gb_mem.wf(),
            bgz@.len() == WIDTH,
            row@.len() == WIDTH,
            0 <= o <= 8,
            i < 40,
            sy <= lyi < sy + h,
            lyi == ly,
            sx == gb_mem@.read((SPRITE_BASE + i * 4 + 1) as u16) - 8,
            sy == gb_mem@.read((SPRITE_BASE + i * 4) as u16) - 16,
            tile == gb_mem@.read((SPRITE_BASE + i * 4 + 2) as u16) & (if tall { 0xFEu8 } else { 0xFFu8 }),
            attr == gb_mem@.read((SPRITE_BASE + i * 4 + 3) as u16),
            lcdc == gb_mem@.read(LCD_CTLP),
            tall == (lcdc & 0x4 != 0),
            h == (if tall { 16int } else { 8 }),
            line == (if attr & 0x40 != 0 { h - 1 - (ly - sy) } else { ly - sy }),
            sp == 0x8000 + tile * 16 + line * 2,
            lo == gb_mem@.read(sp),
            hi == gb_mem@.read((sp + 1) as u16),
            pal_addr == (if attr & 0x10 != 0 { OBJPALBP + 1 } else { OBJPALBP as int }),
            forall|p: int|
                0 <= p < WIDTH ==> row@[p] == (if sx <= p < sx + o {
                    match sprite_pixel(gb_mem@, ly, i as int, p, bgz@) {
                        Some(s) => s,
                        None => old_row[p],
                    }
                } else {
                    old_row[p]
                }),
        decreases 8 - o,
    {
        let p = sx + o;
        if 0 <= p && p < WIDTH as i32 {
            let cb: u8 = if attr & 0x20 != 0 { o as u8 } else { (7 - o) as u8 };
            let cn = color_idx(lo, hi, cb);
            if !(cn == 0 || (attr & 0x80 != 0 && lcdc & 0x1 != 0 && !bgz[p as usize])) {
                row[p as usize] = get_color(gb_mem, cn, pal_addr);
            }
        }
        o = o + 1;
    }
    assert(row@ =~= Seq::new(
        WIDTH as nat,
        |p: int|
            match sprite_pixel(gb_mem@, ly, i as int, p, bgz@) {
                Some(s) => s,
                None => old_row[p],
            },
    ));
}

#[derive(Clone, Copy, PartialEq, Eq, Debug, Structural)]
pub enum GpuMode {
    OAM,
    VRAM,
    HBLANK,
    VBLANK,
}

/// The mode number that STAT shows.
pub open spec fn mode_num(mode: GpuMode) -> u8 {
    match mode {
        GpuMode::HBLANK => 0,
        GpuMode::VBLANK => 1,
        GpuMode::OAM => 2,
        GpuMode::VRAM => 3,
    }
}

/// T-states spent in a mode before the next transition.
pub open spec fn threshold(mode: GpuMode) -> nat {
    match mode {
        GpuMode::OAM => 80,
        GpuMode::VRAM => 172,
        GpuMode::HBLANK => 204,
        GpuMode::VBLANK => 456,
    }
}

/// The memory after entering `mode`: STAT shows it, and the STAT interrupt
/// is requested when the mode's source is enabled.
#[verifier::opaque]
pub open spec fn set_mode_mem(m: MemView, mode: GpuMode) -> MemView {
    let i = mode_num(mode);
    let gint = (m.read(GPU_INTS) & 0xFC) | i;
    let m1 = m.write(GPU_INTS, gint);
    if i != 3 && gint & (1u8 << (3 + i) as u8) != 0 {
        m1.write(PINT_F, m1.read(PINT_F) | 2)
    } else {
        m1
    }
}

/// The memory after LY is set to `val`: the coincidence bit of STAT tells
/// whether LY equals LYC, and a coincidence requests the STAT interrupt when
/// its source is enabled.
#[verifier::opaque]
pub open spec fn set_line_mem(m: MemView, val: u8) -> MemView {
    let m1 = m.write(SCLINEP, val);
    let gint = m1.read(GPU_INTS);
    if val == m1.read(LYCP) {
        let m2 = if gint & 0x40 != 0 {
            m1.write(PINT_F, m1.read(PINT_F) | 2)
        } else {
            m1
        };
        m2.write(GPU_INTS, gint | 4)
    } else {
        m1.write(GPU_INTS, gint & 0xFB)
    }
}

pub struct Gpu {
    pub mode: GpuMode,
    /// T-states spent in the current mode.
    pub clk: u64,
    /// Clock value at the previous call.
    pub prev: u64,
    /// Shades 0 to 3, row by row, as the lines are drawn.
    pub fb: Vec<u8>,
    /// The frame as it stood when VBLANK was last entered: the one to present.
    pub screen: Vec<u8>,
}

pub struct GpuView {
    pub mode: GpuMode,
    pub clk: nat,
    pub fb: Seq<u8>,
    pub screen: Seq<u8>,
}

impl View for Gpu {
    type V = GpuView;

    open spec fn view(&self) -> GpuView {
        GpuView { mode: self.mode, clk: self.clk as nat, fb: self.fb@, screen: self.screen@ }
    }
}

/// One mode transition, taken once the residual reaches the mode's
/// threshold; the count is 1 when the frame is presented, which happens on
/// entering VBLANK and copies the frame into `screen`.
pub open spec fn transition(g: GpuView, m: MemView) -> (GpuView, MemView, nat) {
    match g.mode {
        GpuMode::HBLANK => {
            let last = m.read(SCLINEP) == 143;
            let m1 = if last {
                let mv = set_mode_mem(m, GpuMode::VBLANK);
                mv.write(PINT_F, mv.read(PINT_F) | 1)
            } else {
                set_mode_mem(m, GpuMode::OAM)
            };
            let m2 = set_line_mem(m1, ((m1.read(SCLINEP) + 1) % 256) as u8);
            (
                GpuView {
                    mode: if last { GpuMode::VBLANK } else { GpuMode::OAM },
                    clk: (g.clk - 204) as nat,
                    screen: if last { g.fb } else { g.screen },
                    ..g
                },
                m2,
                if last { 1 } else { 0 },
            )
        },
        GpuMode::VBLANK => {
            let m1 = set_line_mem(m, ((m.read(SCLINEP) + 1) % 256) as u8);
            if m1.read(SCLINEP) > 153 {
                (
                    GpuView { mode: GpuMode::OAM, clk: (g.clk - 456) as nat, ..g },
                    set_mode_mem(set_line_mem(m1, 0), GpuMode::OAM),
                    0,
                )
            } else {
                (GpuView { clk: (g.clk - 456) as nat, ..g }, m1, 0)
            }
        },
        GpuMode::OAM => (
            GpuView { mode: GpuMode::VRAM, clk: (g.clk - 80) as nat, ..g },
            set_mode_mem(m, GpuMode::VRAM),
            0,
        ),
        GpuMode::VRAM => {
            let m1 = set_mode_mem(m, GpuMode::HBLANK);
            (
                GpuView {
                    mode: GpuMode::HBLANK,
                    clk: (g.clk - 172) as nat,
                    fb: draw_spec(g.fb, m1, m1.read(SCLINEP)),
                    ..g
                },
                m1,
                0,
            )
        },
    }
}

/// Transitions taken while the residual reaches the threshold, and the
/// number of frames presented meanwhile.
pub open spec fn settle(g: GpuView, m: MemView) -> (GpuView, MemView, nat)
    decreases g.clk,
{
    if g.clk >= threshold(g.mode) {
        let (g1, m1, n1) = transition(g, m);
        let (g2, m2, n2) = settle(g1, m1);
        (g2, m2, n1 + n2)
    } else {
        (g, m, 0)
    }
}

proof fn lemma_settle_count(g: GpuView, m: MemView)
    ensures
        settle(g, m).2 * 80 + settle(g, m).0.clk <= g.clk,
        settle(g, m).0.clk < threshold(settle(g, m).0.mode),
        settle(g, m).0.fb.len() == g.fb.len(),
        g.screen.len() == g.fb.len() ==> settle(g, m).0.screen.len() == g.fb.len(),
    decreases g.clk,
{
    if g.clk >= threshold(g.mode) {
        reveal(draw_spec);
        let (g1, m1, n1) = transition(g, m);
        lemma_settle_count(g1, m1);
    }
}

impl Gpu {
    pub open spec fn wf(&self) -> bool {
        self.fb_ok() && self.clk < 456
    }

    pub open spec fn fb_ok(&self) -> bool {
        self.fb@.len() == FB_SIZE && self.screen@.len() == FB_SIZE
    }

    pub fn new() -> (r: Gpu)
        ensures
            r.wf(),
            r.mode == GpuMode::OAM,
            r.clk == 0,
            r.prev == 0,
            r.fb@ == Seq::new(FB_SIZE as nat, |i: int| 0u8),
            r.screen@ == Seq::new(FB_SIZE as nat, |i: int| 0u8),
    {
        Gpu { mode: GpuMode::OAM, clk: 0, prev: 0, fb: zeroed(FB_SIZE), screen: zeroed(FB_SIZE) }
    }

    fn lcd_on(&self, gb_mem: &Mem) -> (r: bool)
        requires
            gb_mem.wf(),
        ensures
            r == (gb_mem@.read(LCD_CTLP) & 0x80 != 0),
    {
        gb_mem.read(LCD_CTLP) & 0x80 != 0
    }

    fn line(&self, gb_mem: &Mem) -> (r: u8)
        requires
            gb_mem.wf(),
        ensures
            r == gb_mem@.read(SCLINEP),
    {
        gb_mem.read(SCLINEP)
    }

    fn lyc(&self, gb_mem: &Mem) -> (r: u8)
        requires
            gb_mem.wf(),
        ensures
            r == gb_mem@.read(LYCP),
    {
        gb_mem.read(LYCP)
    }

    fn set_line(&mut self, gb_mem: &mut Mem, val: u8)
        requires
            old(gb_mem).wf(),
        ensures
            final(gb_mem).wf(),
            final(gb_mem)@ == set_line_mem(old(gb_mem)@, val),
            final(self)@ == old(self)@,
            final(self).prev == old(self).prev,
    {
        proof {
            reveal(set_line_mem);
        }
        gb_mem.write(SCLINEP, val);
        let gint = gb_mem.read(GPU_INTS);
        if val == self.lyc(gb_mem) {
            if gint & 0x40 != 0 {
                let int_f = gb_mem.read(PINT_F);
                gb_mem.write(PINT_F, int_f | 0x2);
            }
            gb_mem.write(GPU_INTS, gint | 0x4);
        } else {
            gb_mem.write(GPU_INTS, gint & 0xFB);
        }
    }

    fn set_mode(&mut self, gb_mem: &mut Mem, mode: GpuMode)
        requires
            old(gb_mem).wf(),
        ensures
            final(gb_mem).wf(),
            final(gb_mem)@ == set_mode_mem(old(gb_mem)@, mode),
            final(self)@ == (GpuView { mode, ..old(self)@ }),
            final(self).prev == old(self).prev,
    {
        proof {
            reveal(set_mode_mem);
        }
        self.mode = mode;
        let i_mode: u8 = match mode {
            GpuMode::HBLANK => 0,
            GpuMode::VBLANK => 1,
            GpuMode::OAM => 2,
            GpuMode::VRAM => 3,
        };
        let gint = (gb_mem.read(GPU_INTS) & 0xFC) | i_mode;
        gb_mem.write(GPU_INTS, gint);
        if i_mode != 3 && gint & (1u8 << (3 + i_mode)) != 0 {
            let int_f = gb_mem.read(PINT_F);
            gb_mem.write(PINT_F, int_f | 0x2);
        }
    }

    /// Draws the current line LY into the frame: background and window,
    /// then sprites.
    fn draw_line(&mut self, gb_mem: &Mem)
        requires
            old(self).fb_ok(),
            gb_mem.wf(),
        ensures
            final(self).fb_ok(),
            final(self)@ == (GpuView {
                fb: draw_spec(old(self)@.fb, gb_mem@, gb_mem@.read(SCLINEP)),
                ..old(self)@
            }),
            final(self).prev == old(self).prev,
    {
        proof {
            reveal(draw_spec);
        }
        let ghost fb0 = self.fb@;
        let ly = self.line(gb_mem);
        if ly as usize >= HEIGHT {
            return;
        }
        let base: usize = ly as usize * WIDTH;
        assert(base + WIDTH <= FB_SIZE) by (nonlinear_arith)
            requires
                ly < HEIGHT,
                base == ly * WIDTH,
        ;
        let ghost g0 = *self;
        let lcdc = gb_mem.read(LCD_CTLP);
        let mut row: Vec<u8> = Vec::new();
        let mut bgz: Vec<bool> = Vec::new();
        let mut x: usize = 0;
        while x < WIDTH
            invariant
                gb_mem.wf(),
                self.fb_ok(),
                self.fb@ == fb0,
                fb0.len() == FB_SIZE,
                base + WIDTH <= FB_SIZE,
                x <= WIDTH,
                base == ly * WIDTH,
                ly < HEIGHT,
                lcdc == gb_mem@.read(LCD_CTLP),
                row@.len() == x,
                bgz@.len() == x,
                forall|j: int| 0 <= j < x ==> row@[j] == bg_row(gb_mem@, ly, fb0.subrange(base as int, base + WIDTH))[j],
                forall|j: int| 0 <= j < x ==> bgz@[j] == bg_zero(gb_mem@, ly)[j],
            decreases WIDTH - x,
        {
            if lcdc & 0x1 != 0 {
                let s = bg_pixel(gb_mem, ly, x as u8);
                row.push(s);
                bgz.push(s == 0);
            } else {
                row.push(self.fb[base + x]);
                bgz.push(false);
            }
            x = x + 1;
        }
        assert(row@ =~= bg_row(gb_mem@, ly, fb0.subrange(base as int, base + WIDTH)));
        assert(bgz@ =~= bg_zero(gb_mem@, ly));
        if lcdc & 0x2 != 0 {
            let mut i: u16 = 0;
            while i < 40
                invariant
                    gb_mem.wf(),
                    i <= 40,
                    bgz@ == bg_zero(gb_mem@, ly),
                    fb0.len() == FB_SIZE,
                    base + WIDTH <= FB_SIZE,
                    row@ == sprites_row(
                        gb_mem@,
                        ly,
                        i as nat,
                        bg_row(gb_mem@, ly, fb0.subrange(base as int, base + WIDTH)),
                        bg_zero(gb_mem@, ly),
                    ),
                    row@.len() == WIDTH,
                decreases 40 - i,
            {
                draw_sprite(gb_mem, ly, i, &mut row, &bgz);
                i = i + 1;
            }
        }
        assert(row@ =~= line_spec(gb_mem@, ly, fb0.subrange(base as int, base + WIDTH)));
        let mut j: usize = 0;
        while j < WIDTH
            invariant
                self.fb@.len() == FB_SIZE,
                self.screen@ == g0.screen@,
                self.clk == g0.clk,
                self.mode == g0.mode,
                self.prev == g0.prev,
                fb0.len() == FB_SIZE,
                base + WIDTH <= FB_SIZE,
                j <= WIDTH,
                base == ly * WIDTH,
                ly < HEIGHT,
                row@ == line_spec(gb_mem@, ly, fb0.subrange(base as int, base + WIDTH)),
                forall|k: int| 0 <= k < FB_SIZE ==> self.fb@[k] == (if base <= k < base + j { row@[k - base] } else { fb0[k] }),
            decreases WIDTH - j,
        {
            self.fb[base + j] = row[j];
            j = j + 1;
        }
        assert(self.fb@ =~= draw_spec(fb0, gb_mem@, ly));
    }

    /// Copies the frame into `screen`.
    fn present(&mut self)
        requires
            old(self).fb_ok(),
        ensures
            final(self).fb_ok(),
            final(self)@ == (GpuView { screen: old(self)@.fb, ..old(self)@ }),
            final(self).prev == old(self).prev,
    {
        let mut i: usize = 0;
        while i < FB_SIZE
            invariant
                self.fb_ok(),
                self.fb@ == old(self).fb@,
                self.mode == old(self).mode,
                self.clk == old(self).clk,
                self.prev == old(self).prev,
                i <= FB_SIZE,
                forall|k: int| 0 <= k < i ==> self.screen@[k] == self.fb@[k],
            decreases FB_SIZE - i,
        {
            let v = self.fb[i];
            self.screen[i] = v;
            i = i + 1;
        }
        assert(self.screen@ =~= self.fb@);
    }

    /// Takes one mode transition; returns 1 when the frame is presented.
    fn step(&mut self, gb_mem: &mut Mem) -> (r: u64)
        requires
            old(self).fb_ok(),
            old(gb_mem).wf(),
            old(self).clk >= threshold(old(self).mode),
        ensures
            final(self).fb_ok(),
            final(gb_mem).wf(),
            final(self).prev == old(self).prev,
            (final(self)@, final(gb_mem)@, r as nat) == transition(old(self)@, old(gb_mem)@),
    {
        match self.mode {
            GpuMode::HBLANK => {
                let last = self.line(gb_mem) == 143;
                if last {
                    self.present();
                    self.set_mode(gb_mem, GpuMode::VBLANK);
                    let int_f = gb_mem.read(PINT_F);
                    gb_mem.write(PINT_F, int_f | 0x1);
                } else {
                    self.set_mode(gb_mem, GpuMode::OAM);
                }
                let ly = self.line(gb_mem);
                self.set_line(gb_mem, ly.wrapping_add(1));
                self.clk -= 204;
                if last {
                    1
                } else {
                    0
                }
            },
            GpuMode::VBLANK => {
                self.clk -= 456;
                let ly = self.line(gb_mem);
                self.set_line(gb_mem, ly.wrapping_add(1));
                if self.line(gb_mem) > 153 {
                    self.set_line(gb_mem, 0);
                    self.set_mode(gb_mem, GpuMode::OAM);
                }
                0
            },
            GpuMode::OAM => {
                self.clk -= 80;
                self.set_mode(gb_mem, GpuMode::VRAM);
                0
            },
            GpuMode::VRAM => {
                self.clk -= 172;
                self.set_mode(gb_mem, GpuMode::HBLANK);
                self.draw_line(gb_mem);
                0
            },
        }
    }

    /// The threshold of the current mode.
    fn threshold(&self) -> (r: u64)
        ensures
            r == threshold(self.mode),
    {
        match self.mode {
            GpuMode::OAM => 80,
            GpuMode::VRAM => 172,
            GpuMode::HBLANK => 204,
            GpuMode::VBLANK => 456,
        }
    }
}

/// Advances the picture processor to clock value `clks`, taking every mode
/// transition that the elapsed T-states reach. Returns how many frames were
/// presented. While the LCD is off nothing changes but the clock reference.
pub fn gpu_cycle(gb_gpu: &mut Gpu, gb_mem: &mut Mem, clks: u64) -> (r: u64)
    requires
        old(gb_gpu).wf(),
        old(gb_mem).wf(),
        old(gb_gpu).prev <= clks,
        clks <= CLK_LIMIT + 0x100,
    ensures
        final(gb_gpu).wf(),
        final(gb_mem).wf(),
        final(gb_gpu).prev == clks,
        r * 80 + final(gb_gpu).clk <= old(gb_gpu).clk + clks - old(gb_gpu).prev,
        old(gb_mem)@.read(LCD_CTLP) & 0x80 == 0 ==> final(gb_gpu)@ == old(gb_gpu)@
            && final(gb_mem)@ == old(gb_mem)@ && r == 0,
        old(gb_mem)@.read(LCD_CTLP) & 0x80 != 0 ==> (final(gb_gpu)@, final(gb_mem)@, r as nat)
            == settle(
            GpuView { clk: (old(gb_gpu).clk + clks - old(gb_gpu).prev) as nat, ..old(gb_gpu)@ },
            old(gb_mem)@,
        ),
{
    let on = gb_gpu.lcd_on(gb_mem);
    let elapsed = clks - gb_gpu.prev;
    gb_gpu.prev = clks;
    if !on {
        return 0;
    }
    gb_gpu.clk += elapsed;
    let ghost total = settle(gb_gpu@, gb_mem@);
    proof {
        lemma_settle_count(gb_gpu@, gb_mem@);
    }
    let mut n: u64 = 0;
    while gb_gpu.clk >= gb_gpu.threshold()
        invariant
            gb_gpu.fb_ok(),
            gb_mem.wf(),
            gb_gpu.prev == clks,
            n + settle(gb_gpu@, gb_mem@).2 == total.2,
            settle(gb_gpu@, gb_mem@).0 == total.0,
            settle(gb_gpu@, gb_mem@).1 == total.1,
            total.2 * 80 <= u64::MAX,
        decreases gb_gpu.clk,
    {
        proof {
            lemma_settle_count(gb_gpu@, gb_mem@);
        }
        let k = gb_gpu.step(gb_mem);
        n = n + k;
    }
    proof {
        lemma_settle_count(gb_gpu@, gb_mem@);
    }
    n
}

} // verus!
