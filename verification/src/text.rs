//! The bitmap-font status-text renderer: unpacks a 1-bit-per-pixel
//! 128x128 font sheet into a texture and blits scaled glyphs into a
//! caller-supplied 32-bit pixel buffer.
use std::collections::BTreeMap;
use vstd::prelude::*;
use crate::cpu::cpu6502;
use crate::flags::FLAGS6502;
use crate::flags::flag_mask;

verus! {

broadcast use vstd::laws_cmp::group_laws_cmp;

/// A texel of the unpacked font sheet: fully opaque white for a set
/// font bit, transparent black otherwise.
pub fn color_from_bit(bit: u8) -> (r: u32)
    ensures
        r == (if bit == 0 {
            0u32
        } else {
            0xFFFFFFFFu32
        }),
{
    if bit == 0 {
        0x00000000
    } else {
        0xFFFFFFFF
    }
}

/// The Microknight font, 128x128 pixels packed 1 bit per pixel.
pub fn microknight_font() -> (r: Vec<u8>)
    ensures
        r@.len() == 2048,
{
    vec![
        0x00, 0x0c, 0x1b, 0x0d, 0x81, 0x03, 0x01, 0xc0, 0x30, 0x18, 0x18, 0x00, 0x00, 0x00, 0x00, 0x00,
        0x00, 0x0c, 0x1b, 0x0d, 0x87, 0xc4, 0xb3, 0x60, 0x30, 0x30, 0x0c, 0x1b, 0x03, 0x00, 0x00, 0x00,
        0x00, 0x0c, 0x09, 0x1f, 0xcd, 0x03, 0xe1, 0xc0, 0x10, 0x60, 0x06, 0x0e, 0x03, 0x00, 0x00, 0x00,
        0x00, 0x0c, 0x00, 0x0d, 0x87, 0xc0, 0xc3, 0xd8, 0x20, 0x60, 0x06, 0x3f, 0x8f, 0xc0, 0x03, 0xe0,
        0x00, 0x0c, 0x00, 0x1f, 0xc1, 0x61, 0x83, 0x70, 0x00, 0x60, 0x06, 0x0e, 0x03, 0x01, 0x80, 0x00,
        0x00, 0x00, 0x00, 0x0d, 0x81, 0x63, 0x63, 0x60, 0x00, 0x30, 0x0c, 0x1b, 0x03, 0x01, 0x80, 0x00,
        0x00, 0x0c, 0x00, 0x0d, 0x87, 0xc6, 0x91, 0xf0, 0x00, 0x18, 0x18, 0x00, 0x00, 0x00, 0x80, 0x00,
        0x00, 0x00, 0x00, 0x00, 0x01, 0x00, 0x60, 0x18, 0x00, 0x00, 0x00, 0x00, 0x00, 0x01, 0x00, 0x00,
        0x00, 0x00, 0x00, 0x00, 0x00, 0x00, 0x00, 0x00, 0x00, 0x00, 0x00, 0x00, 0x00, 0x00, 0x00, 0x00,
        0x00, 0x00, 0x00, 0x03, 0x07, 0xc1, 0xe0, 0x61, 0xf0, 0x70, 0x7f, 0x1e, 0x0f, 0x00, 0x00, 0x00,
        0x00, 0x03, 0x1e, 0x03, 0x00, 0x60, 0x30, 0x61, 0x80, 0xc0, 0x03, 0x33, 0x19, 0x81, 0x80, 0xc0,
        0x00, 0x06, 0x33, 0x07, 0x03, 0xc0, 0xe0, 0xc1, 0xf8, 0xfc, 0x06, 0x1f, 0x18, 0xc1, 0x80, 0xc0,
        0x00, 0x0c, 0x37, 0x83, 0x06, 0x00, 0x31, 0xb0, 0x0c, 0xc6, 0x0c, 0x31, 0x98, 0xc0, 0x00, 0x00,
        0x00, 0x18, 0x3d, 0x83, 0x0c, 0x02, 0x33, 0x30, 0x8c, 0xc6, 0x0c, 0x31, 0x8f, 0xc0, 0x00, 0x00,
        0x18, 0x30, 0x39, 0x83, 0x0c, 0x06, 0x33, 0xf9, 0x98, 0xcc, 0x0c, 0x33, 0x00, 0xc1, 0x80, 0xc0,
        0x18, 0x60, 0x1f, 0x0f, 0xcf, 0xe3, 0xe0, 0x30, 0xf0, 0x78, 0x0c, 0x1e, 0x03, 0x81, 0x80, 0x40,
        0x00, 0x00, 0x00, 0x00, 0x00, 0x00, 0x00, 0x00, 0x00, 0x00, 0x00, 0x00, 0x00, 0x00, 0x00, 0x80,
        0x00, 0x00, 0x00, 0x00, 0x00, 0x00, 0x00, 0x00, 0x00, 0x00, 0x00, 0x00, 0x00, 0x00, 0x00, 0x00,
        0x00, 0x00, 0x00, 0x0f, 0x83, 0x83, 0xc3, 0xe0, 0xf0, 0xf8, 0x7f, 0x3f, 0x87, 0x0c, 0x63, 0xf0,
        0x18, 0x00, 0x0c, 0x18, 0xc6, 0xc6, 0x63, 0x31, 0x98, 0xcc, 0x60, 0x30, 0x0c, 0x0c, 0x60, 0xc0,
        0x30, 0x3e, 0x06, 0x00, 0xcd, 0xe6, 0x33, 0xf1, 0x80, 0xc6, 0x7e, 0x3f, 0x18, 0x0c, 0x60, 0xc0,
        0x60, 0x00, 0x03, 0x07, 0x8f, 0x67, 0xf3, 0x19, 0x80, 0xc6, 0x60, 0x30, 0x19, 0xcf, 0xe0, 0xc0,
        0x30, 0x3e, 0x06, 0x06, 0x0d, 0xe6, 0x33, 0x19, 0x80, 0xc6, 0x60, 0x30, 0x18, 0xcc, 0x60, 0xc0,
        0x18, 0x00, 0x0c, 0x00, 0x0c, 0x06, 0x33, 0x31, 0x8c, 0xc6, 0x60, 0x30, 0x18, 0xcc, 0x60, 0xc0,
        0x00, 0x00, 0x00, 0x06, 0x06, 0x66, 0x33, 0xe0, 0xf8, 0xfc, 0x7f, 0x30, 0x0f, 0xcc, 0x63, 0xf0,
        0x00, 0x00, 0x00, 0x00, 0x03, 0xc0, 0x00, 0x00, 0x00, 0x00, 0x00, 0x00, 0x00, 0xc0, 0x00, 0x00,
        0x00, 0x00, 0x00, 0x00, 0x00, 0x00, 0x00, 0x00, 0x00, 0x00, 0x00, 0x00, 0x00, 0x00, 0x00, 0x00,
        0x0e, 0x63, 0x30, 0x18, 0xcc, 0x63, 0xc3, 0xe0, 0xf0, 0xf8, 0x3c, 0x1f, 0x98, 0xcc, 0x66, 0x30,
        0x06, 0x66, 0x30, 0x1d, 0xce, 0x66, 0x63, 0x31, 0x98, 0xcc, 0x60, 0x06, 0x18, 0xcc, 0x66, 0x30,
        0x06, 0x6c, 0x30, 0x1f, 0xcf, 0x66, 0x33, 0x19, 0x8c, 0xc6, 0x3e, 0x06, 0x18, 0xcc, 0x66, 0x30,
        0x06, 0x78, 0x30, 0x1a, 0xcd, 0xe6, 0x33, 0x19, 0x8c, 0xc6, 0x03, 0x06, 0x18, 0xc6, 0xc6, 0xb0,
        0xc6, 0x6c, 0x30, 0x18, 0xcc, 0xe6, 0x33, 0xf1, 0x8c, 0xfc, 0x23, 0x06, 0x18, 0xc6, 0xc7, 0xf0,
        0xc6, 0x66, 0x30, 0x18, 0xcc, 0x66, 0x33, 0x01, 0xac, 0xd8, 0x63, 0x06, 0x18, 0xc3, 0x87, 0x70,
        0x7c, 0x63, 0x3f, 0x98, 0xcc, 0x63, 0xe3, 0x00, 0xf8, 0xcc, 0x3e, 0x06, 0x0f, 0x83, 0x86, 0x30,
        0x00, 0x00, 0x00, 0x00, 0x00, 0x00, 0x00, 0x00, 0x18, 0x06, 0x00, 0x00, 0x00, 0x00, 0x00, 0x00,
        0x00, 0x00, 0x00, 0x00, 0x00, 0x00, 0x00, 0x00, 0x00, 0x00, 0x00, 0x00, 0x00, 0x00, 0x00, 0x00,
        0xc6, 0x63, 0x3f, 0x87, 0x00, 0x01, 0xc0, 0x40, 0x00, 0x18, 0x00, 0x30, 0x00, 0x00, 0x60, 0x00,
        0x6c, 0x63, 0x03, 0x06, 0x0c, 0x00, 0xc0, 0xe0, 0x00, 0x18, 0x1e, 0x3e, 0x0f, 0x03, 0xe3, 0xc0,
        0x38, 0x63, 0x06, 0x06, 0x06, 0x00, 0xc1, 0xb0, 0x00, 0x10, 0x03, 0x33, 0x19, 0x86, 0x66, 0x60,
        0x38, 0x3e, 0x0c, 0x06, 0x03, 0x00, 0xc0, 0x00, 0x00, 0x08, 0x3f, 0x31, 0x98, 0x0c, 0x67, 0xe0,
        0x6c, 0x06, 0x18, 0x06, 0x01, 0x80, 0xc0, 0x00, 0x00, 0x00, 0x63, 0x31, 0x98, 0x0c, 0x66, 0x00,
        0xc6, 0x06, 0x30, 0x06, 0x00, 0xc0, 0xc0, 0x00, 0x00, 0x00, 0x63, 0x31, 0x98, 0xcc, 0x66, 0x30,
        0xc6, 0x06, 0x3f, 0x87, 0x00, 0x61, 0xc0, 0x00, 0x00, 0x00, 0x3f, 0x3f, 0x0f, 0x87, 0xe3, 0xe0,
        0x00, 0x00, 0x00, 0x00, 0x00, 0x00, 0x00, 0x01, 0xfc, 0x00, 0x00, 0x00, 0x00, 0x00, 0x00, 0x00,
        0x00, 0x00, 0x00, 0x00, 0x00, 0x00, 0x00, 0x00, 0x00, 0x00, 0x00, 0x00, 0x00, 0x00, 0x00, 0x00,
        0x38, 0x00, 0x30, 0x03, 0x00, 0xc6, 0x00, 0xe0, 0x00, 0x00, 0x00, 0x00, 0x00, 0x00, 0x00, 0x00,
        0x6c, 0x3f, 0x3e, 0x00, 0x00, 0x06, 0x60, 0x61, 0x88, 0xf8, 0x3c, 0x3e, 0x07, 0xcf, 0xc3, 0xc0,
        0x60, 0x63, 0x33, 0x07, 0x01, 0xc6, 0xc0, 0x61, 0xdc, 0xcc, 0x66, 0x33, 0x0c, 0xcc, 0x66, 0x00,
        0x78, 0x63, 0x31, 0x83, 0x00, 0xc7, 0x80, 0x61, 0xfc, 0xc6, 0x63, 0x31, 0x98, 0xcc, 0x03, 0xe0,
        0x60, 0x63, 0x31, 0x83, 0x00, 0xc6, 0xc0, 0x61, 0xac, 0xc6, 0x63, 0x31, 0x98, 0xcc, 0x00, 0x30,
        0x60, 0x3f, 0x31, 0x83, 0x00, 0xc6, 0x60, 0x61, 0x8c, 0xc6, 0x63, 0x31, 0x98, 0xcc, 0x06, 0x30,
        0x60, 0x03, 0x31, 0x8f, 0xc4, 0xc6, 0x31, 0xf9, 0x8c, 0xc6, 0x3e, 0x3f, 0x0f, 0xcc, 0x03, 0xe0,
        0x60, 0x3e, 0x00, 0x00, 0x03, 0x80, 0x00, 0x00, 0x00, 0x00, 0x00, 0x30, 0x00, 0xc0, 0x00, 0x00,
        0x00, 0x00, 0x00, 0x00, 0x00, 0x00, 0x00, 0x00, 0x00, 0x00, 0x00, 0x00, 0x00, 0x00, 0x00, 0x00,
        0x30, 0x00, 0x00, 0x00, 0x00, 0x00, 0x00, 0x00, 0x18, 0x18, 0x18, 0x1c, 0x87, 0x00, 0x00, 0xc0,
        0x7c, 0x63, 0x31, 0x98, 0xcc, 0x66, 0x33, 0xf8, 0x30, 0x18, 0x0c, 0x27, 0x0e, 0x00, 0x00, 0x00,
        0x30, 0x63, 0x31, 0x9a, 0xc6, 0xc6, 0x30, 0x30, 0x30, 0x18, 0x0c, 0x00, 0x1c, 0x00, 0x00, 0xc0,
        0x30, 0x63, 0x1b, 0x1f, 0xc3, 0x86, 0x30, 0x60, 0x60, 0x18, 0x06, 0x00, 0x18, 0x20, 0x00, 0xc0,
        0x30, 0x63, 0x1b, 0x0f, 0x83, 0x86, 0x30, 0xc0, 0x30, 0x18, 0x0c, 0x00, 0x10, 0x60, 0x00, 0xc0,
        0x32, 0x63, 0x0e, 0x0d, 0x86, 0xc3, 0xf1, 0x80, 0x30, 0x18, 0x0c, 0x00, 0x00, 0xe0, 0x00, 0xc0,
        0x1c, 0x3f, 0x0e, 0x08, 0x8c, 0x60, 0x33, 0xf8, 0x18, 0x18, 0x18, 0x00, 0x01, 0xc0, 0x00, 0xc0,
        0x00, 0x00, 0x00, 0x00, 0x00, 0x03, 0xe0, 0x00, 0x00, 0x18, 0x00, 0x00, 0x03, 0x80, 0x00, 0x00,
        0x00, 0x00, 0x00, 0x00, 0x00, 0x00, 0x00, 0x00, 0x00, 0x00, 0x00, 0x00, 0x00, 0x00, 0x00, 0x00,
        0x30, 0x1c, 0x00, 0x18, 0xc1, 0x83, 0xc1, 0xb0, 0x78, 0x00, 0x00, 0x1f, 0x00, 0x03, 0xc3, 0xe0,
        0x78, 0x36, 0x31, 0x98, 0xc1, 0x86, 0x00, 0x00, 0x84, 0x7e, 0x1b, 0x03, 0x00, 0x04, 0x20, 0x00,
        0xcc, 0x30, 0x1f, 0x18, 0xc1, 0x83, 0xe0, 0x01, 0x32, 0xc6, 0x36, 0x00, 0x00, 0x0b, 0x90, 0x00,
        0xc0, 0x7c, 0x31, 0x8f, 0x80, 0x06, 0x30, 0x01, 0x42, 0xc6, 0x6c, 0x00, 0x0f, 0x8a, 0x50, 0x00,
        0xc0, 0x30, 0x31, 0x81, 0x81, 0x86, 0x30, 0x01, 0x42, 0x7e, 0x36, 0x00, 0x00, 0x0b, 0x90, 0x00,
        0xc6, 0x30, 0x1f, 0x07, 0xc1, 0x83, 0xe0, 0x01, 0x32, 0x00, 0x1b, 0x00, 0x00, 0x0a, 0x50, 0x00,
        0x7c, 0x7f, 0x31, 0x81, 0x81, 0x80, 0x30, 0x00, 0x84, 0x7c, 0x00, 0x00, 0x00, 0x04, 0x20, 0x00,
        0x30, 0x00, 0x00, 0x00, 0x00, 0x01, 0xe0, 0x00, 0x78, 0x00, 0x00, 0x00, 0x00, 0x03, 0xc0, 0x00,
        0x00, 0x00, 0x00, 0x00, 0x00, 0x00, 0x00, 0x00, 0x00, 0x00, 0x00, 0x00, 0x00, 0x00, 0x00, 0x00,
        0x38, 0x00, 0x1c, 0x0e, 0x01, 0x80, 0x00, 0x00, 0x00, 0x00, 0x18, 0x00, 0x00, 0x06, 0x03, 0x00,
        0x6c, 0x08, 0x06, 0x03, 0x03, 0x06, 0x31, 0xf8, 0x00, 0x00, 0x38, 0x1f, 0x1b, 0x0e, 0x67, 0x30,
        0x6c, 0x3e, 0x0c, 0x06, 0x06, 0x06, 0x33, 0xd0, 0x30, 0x00, 0x18, 0x31, 0x8d, 0x86, 0xc3, 0x60,
        0x38, 0x08, 0x18, 0x03, 0x00, 0x06, 0x31, 0xd0, 0x30, 0x00, 0x18, 0x31, 0x86, 0xc7, 0xa3, 0xc0,
        0x00, 0x00, 0x1e, 0x0e, 0x00, 0x06, 0x30, 0x50, 0x00, 0x00, 0x3c, 0x1f, 0x0d, 0x83, 0x61, 0xf0,
        0x00, 0x3e, 0x00, 0x00, 0x00, 0x06, 0x30, 0x50, 0x00, 0x00, 0x00, 0x00, 0x1b, 0x06, 0xf3, 0x18,
        0x00, 0x00, 0x00, 0x00, 0x00, 0x07, 0xe0, 0x50, 0x00, 0x18, 0x00, 0x1f, 0x00, 0x0c, 0xf6, 0x70,
        0x00, 0x00, 0x00, 0x00, 0x00, 0x06, 0x00, 0x00, 0x00, 0x30, 0x00, 0x00, 0x00, 0x00, 0x30, 0xf8,
        0x00, 0x00, 0x00, 0x00, 0x00, 0x00, 0x00, 0x00, 0x00, 0x00, 0x00, 0x00, 0x00, 0x00, 0x00, 0x00,
        0xe0, 0x18, 0x0c, 0x03, 0x03, 0x03, 0x91, 0xb0, 0xf0, 0x3f, 0x3c, 0x0c, 0x03, 0x01, 0x83, 0x60,
        0x36, 0x00, 0x02, 0x04, 0x0c, 0xc4, 0xe0, 0x01, 0x98, 0x6c, 0x66, 0x02, 0x04, 0x06, 0x60, 0x00,
        0x6c, 0x18, 0x1e, 0x0f, 0x07, 0x83, 0xc1, 0xe0, 0xf0, 0xcf, 0x60, 0x3f, 0x9f, 0xcf, 0xe7, 0xf0,
        0x3a, 0x1e, 0x33, 0x19, 0x8c, 0xc6, 0x63, 0x31, 0x98, 0xfc, 0x60, 0x30, 0x18, 0x0c, 0x06, 0x00,
        0xf6, 0x03, 0x3f, 0x9f, 0xcf, 0xe7, 0xf3, 0xf9, 0xfc, 0xcc, 0x60, 0x3f, 0x1f, 0x8f, 0xc7, 0xe0,
        0x6f, 0x63, 0x31, 0x98, 0xcc, 0x66, 0x33, 0x19, 0x8c, 0xcc, 0x63, 0x30, 0x18, 0x0c, 0x06, 0x00,
        0xcf, 0x3e, 0x31, 0x98, 0xcc, 0x66, 0x33, 0x19, 0x8c, 0xcf, 0x3e, 0x3f, 0x9f, 0xcf, 0xe7, 0xf0,
        0x03, 0x00, 0x00, 0x00, 0x00, 0x00, 0x00, 0x00, 0x00, 0x00, 0x18, 0x00, 0x00, 0x00, 0x00, 0x00,
        0x00, 0x00, 0x00, 0x00, 0x00, 0x00, 0x00, 0x00, 0x00, 0x00, 0x00, 0x00, 0x00, 0x00, 0x00, 0x00,
        0x30, 0x0c, 0x06, 0x0d, 0x8f, 0x83, 0x90, 0xc0, 0x30, 0x30, 0x39, 0x1b, 0x00, 0x07, 0x81, 0x80,
        0x08, 0x10, 0x19, 0x80, 0x0c, 0xc4, 0xe0, 0x20, 0x40, 0xcc, 0x4e, 0x00, 0x0f, 0x8c, 0xc0, 0x40,
        0x7e, 0x3f, 0x1f, 0x8f, 0xcc, 0x67, 0x31, 0xe0, 0xf0, 0x78, 0x3c, 0x1e, 0x1a, 0xcd, 0xe6, 0x30,
        0x18, 0x0c, 0x06, 0x03, 0x0e, 0x67, 0xb3, 0x31, 0x98, 0xcc, 0x66, 0x33, 0x1f, 0xef, 0x66, 0x30,
        0x18, 0x0c, 0x06, 0x03, 0x0c, 0x66, 0xf3, 0x19, 0x8c, 0xc6, 0x63, 0x31, 0x9b, 0x6e, 0x66, 0x30,
        0x18, 0x0c, 0x06, 0x03, 0x0c, 0x66, 0x73, 0x19, 0x8c, 0xc6, 0x63, 0x31, 0x98, 0xec, 0x66, 0x30,
        0x7e, 0x3f, 0x1f, 0x8f, 0xcf, 0xc6, 0x31, 0xf0, 0xf8, 0x7c, 0x3e, 0x1f, 0x0f, 0xc7, 0xc3, 0xe0,
        0x00, 0x00, 0x00, 0x00, 0x00, 0x00, 0x00, 0x00, 0x00, 0x00, 0x00, 0x00, 0x00, 0x00, 0x00, 0x00,
        0x00, 0x00, 0x00, 0x00, 0x00, 0x00, 0x00, 0x00, 0x00, 0x00, 0x00, 0x00, 0x00, 0x00, 0x00, 0x00,
        0x18, 0x0c, 0x1b, 0x03, 0x0c, 0x00, 0x00, 0xc0, 0x30, 0x18, 0x39, 0x1b, 0x07, 0x80, 0x00, 0x00,
        0x20, 0x33, 0x00, 0x04, 0x0f, 0x83, 0xc0, 0x20, 0x40, 0x66, 0x4e, 0x00, 0x0c, 0xc7, 0xe3, 0xc0,
        0xc6, 0x63, 0x31, 0x98, 0xcc, 0xc6, 0x60, 0xf0, 0x78, 0x3c, 0x1e, 0x0f, 0x07, 0x81, 0xb6, 0x60,
        0xc6, 0x63, 0x31, 0x98, 0xcc, 0x66, 0xe0, 0x18, 0x0c, 0x06, 0x03, 0x01, 0x80, 0xc7, 0xf6, 0x00,
        0xc6, 0x63, 0x31, 0x8f, 0x8f, 0xc6, 0x31, 0xf8, 0xfc, 0x7e, 0x3f, 0x1f, 0x8f, 0xcd, 0x86, 0x00,
        0xc6, 0x63, 0x31, 0x81, 0x8c, 0x06, 0x33, 0x19, 0x8c, 0xc6, 0x63, 0x31, 0x98, 0xcd, 0x86, 0x30,
        0x7c, 0x3e, 0x1f, 0x01, 0x8c, 0x06, 0xe1, 0xf8, 0xfc, 0x7e, 0x3f, 0x1f, 0x8f, 0xc7, 0xf3, 0xe0,
        0x00, 0x00, 0x00, 0x00, 0x0c, 0x06, 0x00, 0x00, 0x00, 0x00, 0x00, 0x00, 0x00, 0x00, 0x01, 0x80,
        0x00, 0x00, 0x00, 0x00, 0x00, 0x00, 0x00, 0x00, 0x00, 0x00, 0x00, 0x00, 0x00, 0x00, 0x00, 0x00,
        0x30, 0x0c, 0x0c, 0x0d, 0x83, 0x00, 0xc0, 0x60, 0xd8, 0x0c, 0x39, 0x0c, 0x03, 0x01, 0x83, 0x90,
        0x08, 0x10, 0x33, 0x00, 0x00, 0x81, 0x01, 0x98, 0x00, 0x16, 0x4e, 0x02, 0x04, 0x06, 0x64, 0xe0,
        0x78, 0x3c, 0x1e, 0x0f, 0x03, 0x81, 0xc0, 0xe0, 0x70, 0x3e, 0x7c, 0x1e, 0x0f, 0x07, 0x83, 0xc0,
        0xfc, 0x7e, 0x3f, 0x1f, 0x81, 0x80, 0xc0, 0x60, 0x30, 0x66, 0x66, 0x33, 0x19, 0x8c, 0xc6, 0x60,
        0xc0, 0x60, 0x30, 0x18, 0x01, 0x80, 0xc0, 0x60, 0x30, 0xc6, 0x63, 0x31, 0x98, 0xcc, 0x66, 0x30,
        0xc6, 0x63, 0x31, 0x98, 0xc1, 0x80, 0xc0, 0x60, 0x30, 0xc6, 0x63, 0x31, 0x98, 0xcc, 0x66, 0x30,
        0x7c, 0x3e, 0x1f, 0x0f, 0x87, 0xe3, 0xf1, 0xf8, 0xfc, 0x7e, 0x63, 0x1f, 0x0f, 0x87, 0xc3, 0xe0,
        0x00, 0x00, 0x00, 0x00, 0x00, 0x00, 0x00, 0x00, 0x00, 0x00, 0x00, 0x00, 0x00, 0x00, 0x00, 0x00,
        0x00, 0x00, 0x00, 0x00, 0x00, 0x00, 0x00, 0x00, 0x00, 0x00, 0x00, 0x00, 0x00, 0x00, 0x00, 0x00,
        0x6c, 0x00, 0x00, 0x06, 0x01, 0x80, 0xc1, 0xb0, 0x30, 0xc0, 0x36, 0x00, 0x00, 0x00, 0x00, 0x00,
        0x00, 0x0c, 0x1e, 0x01, 0x02, 0x03, 0x30, 0x00, 0x40, 0xc0, 0x00, 0x00, 0x00, 0x00, 0x00, 0x00,
        0x78, 0x00, 0x33, 0x18, 0xcc, 0x66, 0x33, 0x19, 0x8c, 0xf8, 0x63, 0x00, 0x00, 0x00, 0x00, 0x00,
        0xcc, 0x3f, 0x37, 0x98, 0xcc, 0x66, 0x33, 0x19, 0x8c, 0xcc, 0x63, 0x00, 0x00, 0x00, 0x00, 0x00,
        0xc6, 0x00, 0x3d, 0x98, 0xcc, 0x66, 0x33, 0x19, 0x8c, 0xc6, 0x63, 0x00, 0x00, 0x00, 0x00, 0x00,
        0xc6, 0x0c, 0x39, 0x98, 0xcc, 0x66, 0x33, 0x18, 0xfc, 0xfc, 0x3f, 0x00, 0x00, 0x00, 0x00, 0x00,
        0x7c, 0x00, 0x1f, 0x0f, 0xc7, 0xe3, 0xf1, 0xf8, 0x0c, 0xc0, 0x03, 0x00, 0x00, 0x00, 0x00, 0x00,
        0x00, 0x00, 0x00, 0x00, 0x00, 0x00, 0x00, 0x00, 0xf8, 0xc0, 0x3e, 0x00, 0x00, 0x00, 0x00, 0x00,
        0x00, 0x00, 0x00, 0x00, 0x00, 0x00, 0x00, 0x00, 0x00, 0x00, 0x00, 0x00, 0x00, 0x00, 0x00, 0x00,
        0x00, 0x00, 0x00, 0x00, 0x00, 0x00, 0x00, 0x00, 0x00, 0x00, 0x00, 0x00, 0x00, 0x00, 0x00, 0x00,
        0x00, 0x00, 0x00, 0x00, 0x00, 0x00, 0x00, 0x00, 0x00, 0x00, 0x00, 0x00, 0x00, 0x00, 0x00, 0x00,
    ]
}

/// The font sheet position of each glyph, starting at the space
/// character, as a bitmap-font layout table.
pub fn microknight_layout() -> (r: Vec<(u8, u8)>)
    ensures
        r@.len() == 224,
        forall|i: int| 0 <= i < r@.len() ==> (#[trigger] r@[i]).0 <= 117 && r@[i].1 <= 117,
{
    vec![
        (0, 0), (9, 0), (18, 0), (27, 0), (36, 0), (45, 0), (54, 0), (63, 0),
        (72, 0), (81, 0), (90, 0), (99, 0), (108, 0), (117, 0), (0, 9), (9, 9),
        (18, 9), (27, 9), (36, 9), (45, 9), (54, 9), (63, 9), (72, 9), (81, 9),
        (90, 9), (99, 9), (108, 9), (117, 9), (0, 18), (9, 18), (18, 18), (27, 18),
        (36, 18), (45, 18), (54, 18), (63, 18), (72, 18), (81, 18), (90, 18), (99, 18),
        (108, 18), (117, 18), (0, 27), (9, 27), (18, 27), (27, 27), (36, 27), (45, 27),
        (54, 27), (63, 27), (72, 27), (81, 27), (90, 27), (99, 27), (108, 27), (117, 27),
        (0, 36), (9, 36), (18, 36), (27, 36), (36, 36), (45, 36), (54, 36), (63, 36),
        (72, 36), (81, 36), (90, 36), (99, 36), (108, 36), (117, 36), (0, 45), (9, 45),
        (18, 45), (27, 45), (36, 45), (45, 45), (54, 45), (63, 45), (72, 45), (81, 45),
        (90, 45), (99, 45), (108, 45), (117, 45), (0, 54), (9, 54), (18, 54), (27, 54),
        (36, 54), (45, 54), (54, 54), (63, 54), (72, 54), (81, 54), (90, 54), (99, 54),
        (0, 0), (0, 0), (0, 0), (0, 0), (0, 0), (0, 0), (0, 0), (0, 0),
        (0, 0), (0, 0), (0, 0), (0, 0), (0, 0), (0, 0), (0, 0), (0, 0),
        (0, 0), (0, 0), (0, 0), (0, 0), (0, 0), (0, 0), (0, 0), (0, 0),
        (0, 0), (0, 0), (0, 0), (0, 0), (0, 0), (0, 0), (0, 0), (0, 0),
        (108, 54), (117, 54), (0, 63), (9, 63), (18, 63), (27, 63), (36, 63), (45, 63),
        (54, 63), (63, 63), (72, 63), (81, 63), (90, 63), (99, 63), (108, 63), (117, 63),
        (0, 72), (9, 72), (18, 72), (27, 72), (36, 72), (45, 72), (54, 72), (63, 72),
        (72, 72), (81, 72), (90, 72), (99, 72), (108, 72), (117, 72), (0, 81), (9, 81),
        (18, 81), (27, 81), (36, 81), (45, 81), (54, 81), (63, 81), (72, 81), (81, 81),
        (90, 81), (99, 81), (108, 81), (117, 81), (0, 90), (9, 90), (18, 90), (27, 90),
        (36, 90), (45, 90), (54, 90), (63, 90), (72, 90), (81, 90), (90, 90), (99, 90),
        (108, 90), (117, 90), (0, 99), (9, 99), (18, 99), (27, 99), (36, 99), (45, 99),
        (54, 99), (63, 99), (72, 99), (81, 99), (90, 99), (99, 99), (108, 99), (117, 99),
        (0, 108), (9, 108), (18, 108), (27, 108), (36, 108), (45, 108), (54, 108), (63, 108),
        (72, 108), (81, 108), (90, 108), (99, 108), (108, 108), (117, 108), (0, 117), (9, 117),
        (18, 117), (27, 117), (36, 117), (45, 117), (54, 117), (63, 117), (72, 117), (81, 117),
    ]
}

/// The status-text renderer: the unpacked font texture, the glyph
/// layout table, the pixel width of the target buffer, and the integer
/// scale factor.
pub struct StatusText {
    pub texture: Vec<u32>,
    pub layout: Vec<(u8, u8)>,
    pub width: usize,
    pub scale: usize,
}

/// Whether pixel index `p` of a buffer of row width `w` lies inside the
/// box that a `tlen`-character text occupies when drawn at `(x, y)`
/// with scale `s`.
pub open spec fn in_text_box(p: int, w: int, x: int, y: int, s: int, tlen: int) -> bool
    recommends
        w > 0,
{
    y <= p / w < y + 8 * s && x <= p % w < x + 8 * s * tlen
}

proof fn lemma_row_col(r: int, c: int, w: int)
    by (nonlinear_arith)
    requires
        w > 0,
        0 <= c < w,
        0 <= r,
    ensures
        (r * w + c) / w == r,
        (r * w + c) % w == c,
{
}

impl StatusText {
    /// The renderer is well formed when the texture is the whole
    /// unpacked 128x128 sheet of transparent/opaque texels and the
    /// layout table is complete with in-sheet coordinates.
    pub open spec fn wf(&self) -> bool {
        &&& self.texture@.len() == 128 * 128
        &&& forall|i: int|
            0 <= i < self.texture@.len() ==> #[trigger] self.texture@[i] == 0 || self.texture@[i]
                == 0xFFFFFFFFu32
        &&& self.layout@.len() == 224
        &&& forall|i: int|
            0 <= i < self.layout@.len() ==> (#[trigger] self.layout@[i]).0 <= 117
                && self.layout@[i].1 <= 117
    }

    /// Unpacks the packed font into a texture for easier drawing.
    pub fn new(width: usize, _height: usize, scale: usize) -> (r: StatusText)
        ensures
            r.wf(),
            r.width == width,
            r.scale == scale,
    {
        let font = microknight_font();
        let mut texture: Vec<u32> = Vec::new();
        let mut i: usize = 0;
        while i < font.len()
            invariant
                font@.len() == 2048,
                i <= 2048,
                texture@.len() == 8 * i,
                forall|j: int|
                    0 <= j < texture@.len() ==> #[trigger] texture@[j] == 0 || texture@[j]
                        == 0xFFFFFFFFu32,
            decreases 2048 - i,
        {
            let t = font[i];
            texture.push(color_from_bit((t >> 7) & 1));
            texture.push(color_from_bit((t >> 6) & 1));
            texture.push(color_from_bit((t >> 5) & 1));
            texture.push(color_from_bit((t >> 4) & 1));
            texture.push(color_from_bit((t >> 3) & 1));
            texture.push(color_from_bit((t >> 2) & 1));
            texture.push(color_from_bit((t >> 1) & 1));
            texture.push(color_from_bit(t & 1));
            i = i + 1;
        }
        StatusText { texture, layout: microknight_layout(), width, scale }
    }

    /// Draws `text` at pixel position `pos` in `screen`, tinting the
    /// opaque texels with `color`. Pixels outside the text box are left
    /// untouched, and every painted pixel carries either transparent
    /// black or the tinted opaque value.
    #[verifier::loop_isolation(false)]
    pub fn draw(&self, screen: &mut Vec<u32>, pos: (usize, usize), text: &str, color: u32)
        requires
            self.wf(),
            self.width > 0,
            printable(text@),
            pos.0 + 8 * self.scale * text@.len() <= self.width,
            (pos.1 + 8 * self.scale) * self.width <= old(screen)@.len(),
        ensures
            final(screen)@.len() == old(screen)@.len(),
            forall|p: int|
                0 <= p < old(screen)@.len() && !in_text_box(
                    p,
                    self.width as int,
                    pos.0 as int,
                    pos.1 as int,
                    self.scale as int,
                    text@.len() as int,
                ) ==> final(screen)@[p] == old(screen)@[p],
            forall|p: int|
                0 <= p < old(screen)@.len() && final(screen)@[p] != old(screen)@[p]
                    ==> final(screen)@[p] == 0 || final(screen)@[p]
                    == vstd::wrapping::u32_specs::wrapping_mul(0xFFFFFFFFu32, color),
    {
        let ghost w = self.width as int;
        let ghost s = self.scale as int;
        let ghost slen = old(screen)@.len() as int;
        let ghost tlen = text@.len() as int;
        let total = screen.len();
        proof {
            assert(8 * s <= (pos.1 + 8 * s) * w) by (nonlinear_arith)
                requires
                    w >= 1,
                    s >= 0,
                    pos.1 >= 0,
            ;
        }
        let step = 8 * self.scale;
        let mut x = pos.0;
        let y = pos.1;
        let n = text.unicode_len();
        let mut ci: usize = 0;
        while ci < n
            invariant
                ci <= n,
                x == pos.0 + step * ci,
                screen@.len() == old(screen)@.len(),
                forall|p: int|
                    0 <= p < slen && !in_text_box(p, w, pos.0 as int, pos.1 as int, s, tlen)
                        ==> screen@[p] == old(screen)@[p],
                forall|p: int|
                    0 <= p < slen && screen@[p] != old(screen)@[p] ==> screen@[p] == 0
                        || screen@[p] == vstd::wrapping::u32_specs::wrapping_mul(
                        0xFFFFFFFFu32,
                        color,
                    ),
            decreases n - ci,
        {
            proof {
                assert(step * ci + step == step * (ci + 1) && step * (ci + 1) <= step * tlen
                    && step * tlen == 8 * s * tlen) by (nonlinear_arith)
                    requires
                        step == 8 * s,
                        0 <= ci < tlen,
                        step >= 0,
                ;
            }
            let c = text.get_char(ci);
            let mut index: usize = (c as u32) as usize - 32;
            if index >= self.layout.len() {
                index = 0;
            }
            let layout = self.layout[index];
            let texture_offset = (layout.1 as usize) * 128 + (layout.0 as usize);

            let mut fy: usize = 0;
            while fy < step
                invariant
                    fy <= step,
                    screen@.len() == old(screen)@.len(),
                    forall|p: int|
                        0 <= p < slen && !in_text_box(p, w, pos.0 as int, pos.1 as int, s, tlen)
                            ==> screen@[p] == old(screen)@[p],
                    forall|p: int|
                        0 <= p < slen && screen@[p] != old(screen)@[p] ==> screen@[p] == 0
                            || screen@[p] == vstd::wrapping::u32_specs::wrapping_mul(
                            0xFFFFFFFFu32,
                            color,
                        ),
                decreases step - fy,
            {
                let ty = fy / self.scale;
                proof {
                    assert(ty <= 7) by (nonlinear_arith)
                        requires
                            fy < step,
                            step == 8 * (self.scale as int),
                            ty == fy as int / self.scale as int,
                    ;
                    assert((y + fy) * w + w == (y + fy + 1) * w && (y + fy + 1) * w <= (pos.1
                        + 8 * s) * w && y + fy + 1 <= (y + fy + 1) * w && y + fy <= (y + fy) * w) by (nonlinear_arith)
                        requires
                            fy < step,
                            step == 8 * s,
                            y == pos.1,
                            w >= 1,
                            y >= 0,
                            fy >= 0,
                    ;
                }
                let mut fx: usize = 0;
                while fx < step
                    invariant
                        fx <= step,
                        ty <= 7,
                        (y + fy) * w + w <= slen,
                        y + fy <= (y + fy) * w,
                        screen@.len() == old(screen)@.len(),
                        forall|p: int|
                            0 <= p < slen && !in_text_box(p, w, pos.0 as int, pos.1 as int, s, tlen)
                                ==> screen@[p] == old(screen)@[p],
                        forall|p: int|
                            0 <= p < slen && screen@[p] != old(screen)@[p] ==> screen@[p] == 0
                                || screen@[p] == vstd::wrapping::u32_specs::wrapping_mul(
                                0xFFFFFFFFu32,
                                color,
                            ),
                    decreases step - fx,
                {
                    let tx = fx / self.scale;
                    proof {
                        assert(tx <= 7) by (nonlinear_arith)
                            requires
                                fx < step,
                                step == 8 * (self.scale as int),
                                tx == fx as int / self.scale as int,
                        ;
                    }
                    let pixel = texture_offset + ty * 128 + tx;
                    if pixel != 0 {
                        let v = self.texture[pixel].wrapping_mul(color);
                        let idx = (y + fy) * self.width + fx + x;
                        proof {
                            lemma_row_col((y + fy) as int, (x + fx) as int, w);
                            assert(in_text_box(idx as int, w, pos.0 as int, pos.1 as int, s, tlen));
                        }
                        screen.set(idx, v);
                    }
                    fx = fx + 1;
                }
                fy = fy + 1;
            }
            x = x + step;
            ci = ci + 1;
        }
    }
}

/// Whether every character of a text is drawable: at or above the
/// space character, where the glyph sheet begins.
pub open spec fn printable(sq: Seq<char>) -> bool {
    forall|i: int| 0 <= i < sq.len() ==> 32 <= #[trigger] sq[i] as u32
}

/// Concatenation preserves drawability.
pub proof fn lemma_printable_concat(a: Seq<char>, b: Seq<char>)
    requires
        printable(a),
        printable(b),
    ensures
        printable(a + b),
{
    assert forall|i: int| 0 <= i < (a + b).len() implies 32 <= #[trigger] (a + b)[i] as u32 by {
        if i < a.len() {
            assert((a + b)[i] == a[i]);
        } else {
            assert((a + b)[i] == b[i - a.len()]);
        }
    }
}

/// Hexadecimal digits are drawable.
pub proof fn lemma_printable_hex2(b: u8)
    ensures
        printable(crate::hex::spec_hex2(b)),
{
    assert(48 <= crate::hex::spec_hex_digit(b / 16) as u32);
    assert(48 <= crate::hex::spec_hex_digit(b % 16) as u32);
}

/// Hexadecimal digits are drawable.
pub proof fn lemma_printable_hex4(n: u16)
    ensures
        printable(crate::hex::spec_hex4(n)),
{
    lemma_printable_hex2((n / 256) as u8);
    lemma_printable_hex2((n % 256) as u8);
    lemma_printable_concat(
        crate::hex::spec_hex2((n / 256) as u8),
        crate::hex::spec_hex2((n % 256) as u8),
    );
}

/// A value is drawable multiplied into its row: a helper bound for the
/// pixel-index arithmetic of the display routines.
pub proof fn lemma_le_times(a: int, w: int)
    by (nonlinear_arith)
    requires
        0 <= a,
        1 <= w,
    ensures
        a <= a * w,
{
}

/// Multiplying both sides of an ordering by a nonnegative width keeps
/// it: a helper bound for the pixel-index arithmetic of the display
/// routines.
pub proof fn lemma_mul_le(a: int, b: int, w: int)
    by (nonlinear_arith)
    requires
        a <= b,
        0 <= w,
    ensures
        a * w <= b * w,
{
}

/// Draws the register panel: the status flags in their set/clear
/// colours and the PC, A, X, Y and stack-pointer values.
pub fn draw_cpu(status: &StatusText, cpu: &cpu6502, screen: &mut Vec<u32>, x: u32, y: u32)
    requires
        status.wf(),
        status.width > 0,
        x + 178 + 8 * status.scale <= status.width,
        x + 8 * status.scale * 14 <= status.width,
        (y + 50 + 8 * status.scale) * status.width <= old(screen)@.len(),
    ensures
        final(screen)@.len() == old(screen)@.len(),
{
    let total = screen.len();
    let xu = x as usize;
    let yu = y as usize;
    proof {
        lemma_le_times(y + 50 + 8 * status.scale, status.width as int);
    }
    let on: u32 = 0xFF00FFFF;
    let off: u32 = 0xFF0000FF;
    proof {
        lemma_mul_le(
            yu + 8 * status.scale,
            yu + 50 + 8 * status.scale,
            status.width as int,
        );
        reveal_strlit("STATUS: ");
        assert(printable("STATUS: "@));
    }
    status.draw(screen, (xu, yu), "STATUS: ", 1);
    proof {
        reveal_strlit("N");
        assert(printable("N"@));
    }
    status.draw(
        screen,
        (xu + 64, yu),
        "N",
        if cpu.status & flag_mask(FLAGS6502::N) != 0 {
            on
        } else {
            off
        },
    );
    proof {
        reveal_strlit("V");
        assert(printable("V"@));
    }
    status.draw(
        screen,
        (xu + 80, yu),
        "V",
        if cpu.status & flag_mask(FLAGS6502::V) != 0 {
            on
        } else {
            off
        },
    );
    proof {
        reveal_strlit("-");
        assert(printable("-"@));
    }
    status.draw(
        screen,
        (xu + 96, yu),
        "-",
        if cpu.status & flag_mask(FLAGS6502::U) != 0 {
            on
        } else {
            off
        },
    );
    proof {
        reveal_strlit("B");
        assert(printable("B"@));
    }
    status.draw(
        screen,
        (xu + 112, yu),
        "B",
        if cpu.status & flag_mask(FLAGS6502::B) != 0 {
            on
        } else {
            off
        },
    );
    proof {
        reveal_strlit("D");
        assert(printable("D"@));
    }
    status.draw(
        screen,
        (xu + 128, yu),
        "D",
        if cpu.status & flag_mask(FLAGS6502::D) != 0 {
            on
        } else {
            off
        },
    );
    proof {
        reveal_strlit("I");
        assert(printable("I"@));
    }
    status.draw(
        screen,
        (xu + 144, yu),
        "I",
        if cpu.status & flag_mask(FLAGS6502::I) != 0 {
            on
        } else {
            off
        },
    );
    proof {
        reveal_strlit("Z");
        assert(printable("Z"@));
    }
    status.draw(
        screen,
        (xu + 160, yu),
        "Z",
        if cpu.status & flag_mask(FLAGS6502::Z) != 0 {
            on
        } else {
            off
        },
    );
    proof {
        reveal_strlit("C");
        assert(printable("C"@));
    }
    status.draw(
        screen,
        (xu + 178, yu),
        "C",
        if cpu.status & flag_mask(FLAGS6502::C) != 0 {
            on
        } else {
            off
        },
    );

    let mut line = String::from_str("PC: $");
    crate::hex::push_hex4(&mut line, cpu.pc);
    proof {
        reveal_strlit("PC: $");
        assert(printable("PC: $"@));
        lemma_printable_hex4(cpu.pc);
        lemma_printable_concat("PC: $"@, crate::hex::spec_hex4(cpu.pc));
        assert(line@.len() == 9);
        lemma_mul_le(
            yu + 10 + 8 * status.scale,
            yu + 50 + 8 * status.scale,
            status.width as int,
        );
    }
    status.draw(screen, (xu, yu + 10), line.as_str(), 1);

    let mut line = String::from_str("A : $");
    crate::hex::push_hex2(&mut line, cpu.a);
    proof {
        reveal_strlit("A : $");
        assert(printable("A : $"@));
        lemma_printable_hex2(cpu.a);
        lemma_printable_concat("A : $"@, crate::hex::spec_hex2(cpu.a));
        assert(line@.len() == 7);
        lemma_mul_le(
            yu + 20 + 8 * status.scale,
            yu + 50 + 8 * status.scale,
            status.width as int,
        );
    }
    status.draw(screen, (xu, yu + 20), line.as_str(), 1);

    let mut line = String::from_str("X : $");
    crate::hex::push_hex2(&mut line, cpu.x);
    proof {
        reveal_strlit("X : $");
        assert(printable("X : $"@));
        lemma_printable_hex2(cpu.x);
        lemma_printable_concat("X : $"@, crate::hex::spec_hex2(cpu.x));
        assert(line@.len() == 7);
        lemma_mul_le(
            yu + 30 + 8 * status.scale,
            yu + 50 + 8 * status.scale,
            status.width as int,
        );
    }
    status.draw(screen, (xu, yu + 30), line.as_str(), 1);

    let mut line = String::from_str("Y : $");
    crate::hex::push_hex2(&mut line, cpu.y);
    proof {
        reveal_strlit("Y : $");
        assert(printable("Y : $"@));
        lemma_printable_hex2(cpu.y);
        lemma_printable_concat("Y : $"@, crate::hex::spec_hex2(cpu.y));
        assert(line@.len() == 7);
        lemma_mul_le(
            yu + 40 + 8 * status.scale,
            yu + 50 + 8 * status.scale,
            status.width as int,
        );
    }
    status.draw(screen, (xu, yu + 40), line.as_str(), 1);

    let mut line = String::from_str("Stack P: $0x");
    crate::hex::push_hex2(&mut line, cpu.stkp);
    proof {
        reveal_strlit("Stack P: $0x");
        assert(printable("Stack P: $0x"@));
        lemma_printable_hex2(cpu.stkp);
        lemma_printable_concat("Stack P: $0x"@, crate::hex::spec_hex2(cpu.stkp));
        assert(line@.len() == 14);
    }
    status.draw(screen, (xu, yu + 50), line.as_str(), 1);
}

/// Draws a hex dump of memory: `rows` lines of `columns` bytes each,
/// starting at `addr`, each line prefixed with its address.
#[verifier::loop_isolation(false)]
pub fn draw_ram(
    status: &StatusText,
    cpu: &cpu6502,
    screen: &mut Vec<u32>,
    x: u32,
    y: u32,
    addr: u16,
    rows: u32,
    columns: u32,
)
    requires
        status.wf(),
        status.width > 0,
        cpu.wf(),
        x + 8 * status.scale * (6 + 3 * columns) <= status.width,
        (y + 10 * rows + 8 * status.scale) * status.width <= old(screen)@.len(),
    ensures
        final(screen)@.len() == old(screen)@.len(),
{
    let total = screen.len();
    let ram_x = x as usize;
    let mut ram_y = y as usize;
    let mut naddr = addr;
    proof {
        lemma_le_times(
            y + 10 * rows + 8 * status.scale,
            status.width as int,
        );
    }
    let mut row: u32 = 0;
    while row < rows
        invariant
            row <= rows,
            ram_y == y + 10 * row,
            screen@.len() == old(screen)@.len(),
        decreases rows - row,
    {
        let mut offset = String::from_str("$");
        crate::hex::push_hex4(&mut offset, naddr);
        offset.append(":");
        proof {
            reveal_strlit("$");
            reveal_strlit(":");
            assert(printable("$"@));
            assert(printable(":"@));
            lemma_printable_hex4(naddr);
            lemma_printable_concat("$"@, crate::hex::spec_hex4(naddr));
            lemma_printable_concat("$"@ + crate::hex::spec_hex4(naddr), ":"@);
            assert(offset@.len() == 6);
        }
        let mut column: u32 = 0;
        while column < columns
            invariant
                column <= columns,
                offset@.len() == 6 + 3 * column,
                printable(offset@),
            decreases columns - column,
        {
            let ghost off0 = offset@;
            offset.append(" ");
            let b = cpu.bus.read(naddr, true);
            crate::hex::push_hex2(&mut offset, b);
            proof {
                reveal_strlit(" ");
                assert(printable(" "@));
                lemma_printable_hex2(b);
                lemma_printable_concat(off0, " "@);
                lemma_printable_concat(off0 + " "@, crate::hex::spec_hex2(b));
            }
            naddr = naddr.wrapping_add(1);
            column = column + 1;
        }
        proof {
            assert(8 * status.scale * offset@.len() == 8 * status.scale * (6 + 3 * columns));
            lemma_mul_le(
                ram_y + 8 * status.scale,
                y + 10 * rows + 8 * status.scale,
                status.width as int,
            );
        }
        status.draw(screen, (ram_x, ram_y), offset.as_str(), 1);
        ram_y = ram_y + 10;
        row = row + 1;
    }
}

/// Draws the disassembly window: the line at PC highlighted in the
/// centre, the following lines below and the preceding lines above.
/// Neighbouring lines are found by probing the map at nearby
/// addresses, walking outward from PC.
#[verifier::loop_isolation(false)]
pub fn draw_code(
    status: &StatusText,
    cpu: &cpu6502,
    screen: &mut Vec<u32>,
    x: u32,
    y: u32,
    lines: u32,
    map_lines: &BTreeMap<u16, String>,
)
    requires
        status.wf(),
        status.width > 0,
        forall|k: u16| #[trigger]
            map_lines@.contains_key(k) ==> printable(map_lines@[k]@) && x + 8 * status.scale
                * map_lines@[k]@.len() <= status.width,
        (y + 10 * lines + 10 + 8 * status.scale) * status.width <= old(screen)@.len(),
    ensures
        final(screen)@.len() == old(screen)@.len(),
{
    let total = screen.len();
    let xu = x as usize;
    let yu = y as usize;
    let lines_u = lines as usize;
    proof {
        lemma_le_times(
            y + 10 * lines + 10 + 8 * status.scale,
            status.width as int,
        );
        assert(lines >> 1 <= lines) by (bit_vector);
    }
    let half = (lines >> 1) as usize;
    let cy = half * 10 + yu;
    proof {
        lemma_mul_le(half as int, lines as int, 10);
        lemma_mul_le(
            cy + 8 * status.scale,
            y + 10 * lines + 10 + 8 * status.scale,
            status.width as int,
        );
    }
    if let Some(instruction) = map_lines.get(&cpu.pc) {
        status.draw(screen, (xu, cy), instruction.as_str(), 0x00FF00FF);

        let fwd_limit = lines_u * 10 + yu;
        let mut line_y = cy;
        let mut k: u32 = cpu.pc as u32 + 1;
        while k <= 0xFFFF && line_y < fwd_limit
            invariant
                line_y <= yu + 10 * lines_u + 10,
                k <= 0x10000,
                screen@.len() == old(screen)@.len(),
            decreases 0x10000 - k,
        {
            if let Some(next_asm) = map_lines.get(&(k as u16)) {
                line_y = line_y + 10;
                proof {
                    lemma_mul_le(
                        line_y + 8 * status.scale,
                        y + 10 * lines + 10 + 8 * status.scale,
                        status.width as int,
                    );
                }
                status.draw(screen, (xu, line_y), next_asm.as_str(), 1);
            }
            k = k + 1;
        }

        let mut line_y = cy;
        let mut j: u32 = cpu.pc as u32;
        while j > 0 && line_y > yu
            invariant
                yu <= line_y <= yu + 10 * lines_u,
                (line_y - yu) % 10 == 0,
                j <= 0xFFFF,
                screen@.len() == old(screen)@.len(),
            decreases j,
        {
            j = j - 1;
            if let Some(prev_asm) = map_lines.get(&(j as u16)) {
                line_y = line_y - 10;
                proof {
                    lemma_mul_le(
                        line_y + 8 * status.scale,
                        y + 10 * lines + 10 + 8 * status.scale,
                        status.width as int,
                    );
                }
                status.draw(screen, (xu, line_y), prev_asm.as_str(), 1);
                if line_y <= yu {
                    break;
                }
            }
        }
    }
}

} // verus!
