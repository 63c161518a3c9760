//! Named ASCII byte values used by the grammars and serializers, so that
//! byte-level code reads as the characters it produces.

use vstd::prelude::*;

verus! {

pub const NULL_CHAR: u8 = 0x00;

pub const TAB: u8 = 0x09;

pub const LINE_FEED: u8 = 0x0A;

pub const FORM_FEED: u8 = 0x0C;

pub const CARRIAGE_RETURN: u8 = 0x0D;

pub const SPACE: u8 = 0x20;

pub const NUMBER_SIGN: u8 = 0x23;

pub const PERCENT: u8 = 0x25;

pub const LEFT_PAREN: u8 = 0x28;

pub const RIGHT_PAREN: u8 = 0x29;

pub const PLUS: u8 = 0x2B;

pub const MINUS: u8 = 0x2D;

pub const DOT: u8 = 0x2E;

pub const SOLIDUS: u8 = 0x2F;

pub const DIGIT_0: u8 = 0x30;

pub const DIGIT_9: u8 = 0x39;

pub const LEFT_ANGLE: u8 = 0x3C;

pub const RIGHT_ANGLE: u8 = 0x3E;

pub const UPPER_A: u8 = 0x41;

pub const UPPER_D: u8 = 0x44;

pub const UPPER_E: u8 = 0x45;

pub const UPPER_F: u8 = 0x46;

pub const UPPER_O: u8 = 0x4F;

pub const UPPER_P: u8 = 0x50;

pub const UPPER_R: u8 = 0x52;

pub const LEFT_SQUARE: u8 = 0x5B;

pub const BACKSLASH: u8 = 0x5C;

pub const RIGHT_SQUARE: u8 = 0x5D;

pub const LOWER_A: u8 = 0x61;

pub const LOWER_B: u8 = 0x62;

pub const LOWER_D: u8 = 0x64;

pub const LOWER_E: u8 = 0x65;

pub const LOWER_F: u8 = 0x66;

pub const LOWER_I: u8 = 0x69;

pub const LOWER_J: u8 = 0x6A;

pub const LOWER_L: u8 = 0x6C;

pub const LOWER_M: u8 = 0x6D;

pub const LOWER_N: u8 = 0x6E;

pub const LOWER_O: u8 = 0x6F;

pub const LOWER_R: u8 = 0x72;

pub const LOWER_S: u8 = 0x73;

pub const LOWER_T: u8 = 0x74;

pub const LOWER_U: u8 = 0x75;

pub const LOWER_X: u8 = 0x78;

pub const LEFT_CURLY: u8 = 0x7B;

pub const RIGHT_CURLY: u8 = 0x7D;

} // verus!
