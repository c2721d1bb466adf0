use vstd::prelude::*;
use crate::consts::{JOYP, KEY_A, KEY_B, KEY_D, KEY_L, KEY_R, KEY_U, PINT_F, SELECT, START};
use crate::mem::{Mem, MemView};

verus! {

/// The joypad latch: two rows of four keys, a clear bit meaning pressed.
pub struct Input {
    /// Direction keys: Right, Left, Up, Down.
    pub r0: u8,
    /// Button keys: A, B, Select, Start.
    pub r1: u8,
}

#[derive(Clone, Copy, PartialEq, Eq, Debug, Structural)]
pub enum KeyCode {
    Start,
    Select,
    A,
    B,
    Up,
    Down,
    Left,
    Right,
    Uk,
}

/// The direction row and the button row after `key` is pressed (`kp`) or
/// released; an unknown key changes neither.
pub open spec fn rows_after(r0: u8, r1: u8, key: KeyCode, kp: bool) -> (u8, u8) {
    match key {
        KeyCode::Start => (r0, row_after(r1, START, kp)),
        KeyCode::Select => (r0, row_after(r1, SELECT, kp)),
        KeyCode::A => (r0, row_after(r1, KEY_A, kp)),
        KeyCode::B => (r0, row_after(r1, KEY_B, kp)),
        KeyCode::Down => (row_after(r0, KEY_D, kp), r1),
        KeyCode::Up => (row_after(r0, KEY_U, kp), r1),
        KeyCode::Left => (row_after(r0, KEY_L, kp), r1),
        KeyCode::Right => (row_after(r0, KEY_R, kp), r1),
        KeyCode::Uk => (r0, r1),
    }
}

/// A row after a key of bit `key` is pressed (`kp`) or released.
pub open spec fn row_after(row: u8, key: u8, kp: bool) -> u8 {
    if kp {
        row & !key
    } else {
        row | key
    }
}

/// The low nibble of the joypad register: the rows that `dat` selects
/// (bit 4 low for directions, bit 5 low for buttons), ANDed together.
pub open spec fn selected(r0: u8, r1: u8, dat: u8) -> u8 {
    0xF & (if dat & 0x10 == 0 { r0 } else { 0xFF }) & (if dat & 0x20 == 0 { r1 } else { 0xFF })
}

/// The memory after the joypad register is refreshed from rows `r0`, `r1`:
/// a key newly pressed requests the joypad interrupt.
pub open spec fn refreshed(m: MemView, r0: u8, r1: u8) -> MemView {
    let dat = m.read(JOYP);
    let val = selected(r0, r1, dat);
    let m1 = if (dat & 0x0F) & !val != 0 {
        m.write(PINT_F, m.read(PINT_F) | 0x10)
    } else {
        m
    };
    MemView { input_update: false, ..m1.write(JOYP, (dat & 0xF0) | val) }
}

impl Input {
    pub fn new() -> (r: Input)
        ensures
            r.r0 == 0x0F,
            r.r1 == 0x0F,
    {
        Input { r0: 0x0F, r1: 0x0F }
    }

    /// Records a key press (`kp`) or release, then refreshes the joypad
    /// register.
    pub fn key(&mut self, gb_mem: &mut Mem, key: KeyCode, kp: bool)
        requires
            old(gb_mem).wf(),
        ensures
            final(gb_mem).wf(),
            (final(self).r0, final(self).r1) == rows_after(old(self).r0, old(self).r1, key, kp),
            final(gb_mem)@ == refreshed(old(gb_mem)@, final(self).r0, final(self).r1),
    {
        match key {
            KeyCode::Start => self.update_row(START, kp, false),
            KeyCode::Select => self.update_row(SELECT, kp, false),
            KeyCode::B => self.update_row(KEY_B, kp, false),
            KeyCode::A => self.update_row(KEY_A, kp, false),
            KeyCode::Down => self.update_row(KEY_D, kp, true),
            KeyCode::Up => self.update_row(KEY_U, kp, true),
            KeyCode::Left => self.update_row(KEY_L, kp, true),
            KeyCode::Right => self.update_row(KEY_R, kp, true),
            KeyCode::Uk => {},
        };
        self.update(gb_mem);
    }

    /// Refreshes the low nibble of the joypad register from the rows that
    /// its select bits choose.
    pub fn update(&mut self, gb_mem: &mut Mem)
        requires
            old(gb_mem).wf(),
        ensures
            final(gb_mem).wf(),
            final(self).r0 == old(self).r0,
            final(self).r1 == old(self).r1,
            final(gb_mem)@ == refreshed(old(gb_mem)@, old(self).r0, old(self).r1),
    {
        let dat = gb_mem.read(JOYP);
        let (r0, r1) = (self.r0, self.r1);
        let mut val: u8 = 0xF;
        if dat & 0x10 == 0 {
            val &= r0;
        }
        if dat & 0x20 == 0 {
            val &= r1;
        }
        assert(val == selected(r0, r1, dat)) by (bit_vector)
            requires
                val == (if dat & 0x20 == 0 {
                    (if dat & 0x10 == 0 { 0xF & r0 } else { 0xFu8 }) & r1
                } else {
                    (if dat & 0x10 == 0 { 0xF & r0 } else { 0xFu8 })
                }),
        ;
        if (dat & 0x0F) & !val != 0 {
            let int_f = gb_mem.read(PINT_F);
            gb_mem.write(PINT_F, int_f | 0x10);
        }
        gb_mem.write(JOYP, (dat & 0xF0) | val);
        gb_mem.input_update = false;
    }

    fn update_row(&mut self, key: u8, kp: bool, r0: bool)
        ensures
            final(self).r0 == if r0 { row_after(old(self).r0, key, kp) } else { old(self).r0 },
            final(self).r1 == if r0 { old(self).r1 } else { row_after(old(self).r1, key, kp) },
    {
        if r0 {
            if kp {
                self.r0 &= !key;
            } else {
                self.r0 |= key;
            }
        } else {
            if kp {
                self.r1 &= !key;
            } else {
                self.r1 |= key;
            }
        }
    }
}

impl Default for Input {
    fn default() -> (r: Input)
        ensures
            r.r0 == 0x0F,
            r.r1 == 0x0F,
    {
        Input::new()
    }
}

} // verus!
