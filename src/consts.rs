use vstd::prelude::*;

verus! {

// Register file layout: eight bytes indexed by register tag.
pub const B: usize = 0;
pub const C: usize = 1;
pub const D: usize = 2;
pub const E: usize = 3;
pub const H: usize = 4;
pub const L: usize = 5;
pub const F: usize = 6;
pub const A: usize = 7;

// Flag bits of register F.
pub const FL_Z: u8 = 0x80;
pub const FL_N: u8 = 0x40;
pub const FL_H: u8 = 0x20;
pub const FL_C: u8 = 0x10;

// Memory-mapped registers.
pub const JOYP: u16 = 0xFF00;
pub const DIVTP: u16 = 0xFF04;
pub const CNTTP: u16 = 0xFF05;
pub const MODTP: u16 = 0xFF06;
pub const CTLTTP: u16 = 0xFF07;
pub const PINT_F: u16 = 0xFF0F;
pub const LCD_CTLP: u16 = 0xFF40;
pub const GPU_INTS: u16 = 0xFF41;
pub const SCYP: u16 = 0xFF42;
pub const SCXP: u16 = 0xFF43;
pub const SCLINEP: u16 = 0xFF44;
pub const LYCP: u16 = 0xFF45;
pub const DMAP: u16 = 0xFF46;
pub const BG_PALLP: u16 = 0xFF47;
pub const OBJPALBP: u16 = 0xFF48;
pub const WYP: u16 = 0xFF4A;
pub const WXP: u16 = 0xFF4B;
pub const PINT_E: u16 = 0xFFFF;
pub const SPRITE_BASE: u16 = 0xFE00;

// Screen size in pixels.
pub const WIDTH: usize = 160;
pub const HEIGHT: usize = 144;

// Joypad row bits (0 = pressed).
pub const KEY_A: u8 = 0x01;
pub const KEY_B: u8 = 0x02;
pub const SELECT: u8 = 0x04;
pub const START: u8 = 0x08;
pub const KEY_R: u8 = 0x01;
pub const KEY_L: u8 = 0x02;
pub const KEY_U: u8 = 0x04;
pub const KEY_D: u8 = 0x08;

} // verus!
