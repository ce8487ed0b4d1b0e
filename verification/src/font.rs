//! The built-in hexadecimal fonts.
//!
//! The standard 4x5 font occupies memory 0x050..0x0A0; the big 8x10 font of
//! the later dialects occupies 0x0A0..0x140.  Glyph sprites are indexed by
//! the digit they draw.

use vstd::prelude::*;

verus! {

/// Memory address of the standard font.
pub const FONT_BASE: u16 = 0x50;

/// Memory address of the big font.
pub const BIG_FONT_BASE: u16 = 0xA0;

/// The 80 bytes of the standard 4x5 font, glyph `d` at offset `5 * d`.
pub open spec fn spec_font_set() -> Seq<u8> {
    seq![
        0xF0u8, 0x90u8, 0x90u8, 0x90u8, 0xF0u8, 0x20u8, 0x60u8, 0x20u8, 0x20u8, 0x70u8,
        0xF0u8, 0x10u8, 0xF0u8, 0x80u8, 0xF0u8, 0xF0u8, 0x10u8, 0xF0u8, 0x10u8, 0xF0u8,
        0x90u8, 0x90u8, 0xF0u8, 0x10u8, 0x10u8, 0xF0u8, 0x80u8, 0xF0u8, 0x10u8, 0xF0u8,
        0xF0u8, 0x80u8, 0xF0u8, 0x90u8, 0xF0u8, 0xF0u8, 0x10u8, 0x20u8, 0x40u8, 0x40u8,
        0xF0u8, 0x90u8, 0xF0u8, 0x90u8, 0xF0u8, 0xF0u8, 0x90u8, 0xF0u8, 0x10u8, 0xF0u8,
        0xF0u8, 0x90u8, 0xF0u8, 0x90u8, 0x90u8, 0xE0u8, 0x90u8, 0xE0u8, 0x90u8, 0xE0u8,
        0xF0u8, 0x80u8, 0x80u8, 0x80u8, 0xF0u8, 0xE0u8, 0x90u8, 0x90u8, 0x90u8, 0xE0u8,
        0xF0u8, 0x80u8, 0xF0u8, 0x80u8, 0xF0u8, 0xF0u8, 0x80u8, 0xF0u8, 0x80u8, 0x80u8,
    ]
}

/// First half of the big font: glyphs 0 through 7.
pub open spec fn spec_big_font_lo() -> Seq<u8> {
    seq![
        0xFFu8, 0xFFu8, 0xC3u8, 0xC3u8, 0xC3u8, 0xC3u8, 0xC3u8, 0xC3u8, 0xFFu8, 0xFFu8,
        0x18u8, 0x78u8, 0x78u8, 0x18u8, 0x18u8, 0x18u8, 0x18u8, 0x18u8, 0xFFu8, 0xFFu8,
        0xFFu8, 0xFFu8, 0x03u8, 0x03u8, 0xFFu8, 0xFFu8, 0xC0u8, 0xC0u8, 0xFFu8, 0xFFu8,
        0xFFu8, 0xFFu8, 0x03u8, 0x03u8, 0xFFu8, 0xFFu8, 0x03u8, 0x03u8, 0xFFu8, 0xFFu8,
        0xC3u8, 0xC3u8, 0xC3u8, 0xC3u8, 0xFFu8, 0xFFu8, 0x03u8, 0x03u8, 0x03u8, 0x03u8,
        0xFFu8, 0xFFu8, 0xC0u8, 0xC0u8, 0xFFu8, 0xFFu8, 0x03u8, 0x03u8, 0xFFu8, 0xFFu8,
        0xFFu8, 0xFFu8, 0xC0u8, 0xC0u8, 0xFFu8, 0xFFu8, 0xC3u8, 0xC3u8, 0xFFu8, 0xFFu8,
        0xFFu8, 0xFFu8, 0x03u8, 0x03u8, 0x06u8, 0x0Cu8, 0x18u8, 0x18u8, 0x18u8, 0x18u8,
    ]
}

/// Second half of the big font: glyphs 8 through F.
pub open spec fn spec_big_font_hi() -> Seq<u8> {
    seq![
        0xFFu8, 0xFFu8, 0xC3u8, 0xC3u8, 0xFFu8, 0xFFu8, 0xC3u8, 0xC3u8, 0xFFu8, 0xFFu8,
        0xFFu8, 0xFFu8, 0xC3u8, 0xC3u8, 0xFFu8, 0xFFu8, 0x03u8, 0x03u8, 0xFFu8, 0xFFu8,
        0x7Eu8, 0xFFu8, 0xC3u8, 0xC3u8, 0xFFu8, 0xFFu8, 0xC3u8, 0xC3u8, 0xC3u8, 0xC3u8,
        0xFCu8, 0xFFu8, 0xC3u8, 0xC3u8, 0xFCu8, 0xFCu8, 0xC3u8, 0xC3u8, 0xFFu8, 0xFCu8,
        0x3Cu8, 0xFFu8, 0xC3u8, 0xC0u8, 0xC0u8, 0xC0u8, 0xC0u8, 0xC3u8, 0xFFu8, 0x3Cu8,
        0xFCu8, 0xFEu8, 0xC3u8, 0xC3u8, 0xC3u8, 0xC3u8, 0xC3u8, 0xC3u8, 0xFEu8, 0xFCu8,
        0xFFu8, 0xFFu8, 0xC0u8, 0xC0u8, 0xFFu8, 0xFFu8, 0xC0u8, 0xC0u8, 0xFFu8, 0xFFu8,
        0xFFu8, 0xFFu8, 0xC0u8, 0xC0u8, 0xFFu8, 0xFFu8, 0xC0u8, 0xC0u8, 0xC0u8, 0xC0u8,
    ]
}

/// The 160 bytes of the big 8x10 font, glyph `d` at offset `10 * d`.
pub open spec fn spec_big_font_set() -> Seq<u8> {
    spec_big_font_lo() + spec_big_font_hi()
}

/// The standard font as bytes.
pub fn font_set() -> (r: Vec<u8>)
    ensures
        r@ == spec_font_set(),
        r@.len() == 80,
{
    let mut r: Vec<u8> = Vec::new();
    r.push(0xF0);
    r.push(0x90);
    r.push(0x90);
    r.push(0x90);
    r.push(0xF0);
    r.push(0x20);
    r.push(0x60);
    r.push(0x20);
    r.push(0x20);
    r.push(0x70);
    r.push(0xF0);
    r.push(0x10);
    r.push(0xF0);
    r.push(0x80);
    r.push(0xF0);
    r.push(0xF0);
    r.push(0x10);
    r.push(0xF0);
    r.push(0x10);
    r.push(0xF0);
    r.push(0x90);
    r.push(0x90);
    r.push(0xF0);
    r.push(0x10);
    r.push(0x10);
    r.push(0xF0);
    r.push(0x80);
    r.push(0xF0);
    r.push(0x10);
    r.push(0xF0);
    r.push(0xF0);
    r.push(0x80);
    r.push(0xF0);
    r.push(0x90);
    r.push(0xF0);
    r.push(0xF0);
    r.push(0x10);
    r.push(0x20);
    r.push(0x40);
    r.push(0x40);
    r.push(0xF0);
    r.push(0x90);
    r.push(0xF0);
    r.push(0x90);
    r.push(0xF0);
    r.push(0xF0);
    r.push(0x90);
    r.push(0xF0);
    r.push(0x10);
    r.push(0xF0);
    r.push(0xF0);
    r.push(0x90);
    r.push(0xF0);
    r.push(0x90);
    r.push(0x90);
    r.push(0xE0);
    r.push(0x90);
    r.push(0xE0);
    r.push(0x90);
    r.push(0xE0);
    r.push(0xF0);
    r.push(0x80);
    r.push(0x80);
    r.push(0x80);
    r.push(0xF0);
    r.push(0xE0);
    r.push(0x90);
    r.push(0x90);
    r.push(0x90);
    r.push(0xE0);
    r.push(0xF0);
    r.push(0x80);
    r.push(0xF0);
    r.push(0x80);
    r.push(0xF0);
    r.push(0xF0);
    r.push(0x80);
    r.push(0xF0);
    r.push(0x80);
    r.push(0x80);
    proof {
        assert(r@ =~= spec_font_set());
    }
    r
}

fn big_font_lo() -> (r: Vec<u8>)
    ensures
        r@ == spec_big_font_lo(),
{
    let mut r: Vec<u8> = Vec::new();
    r.push(0xFF);
    r.push(0xFF);
    r.push(0xC3);
    r.push(0xC3);
    r.push(0xC3);
    r.push(0xC3);
    r.push(0xC3);
    r.push(0xC3);
    r.push(0xFF);
    r.push(0xFF);
    r.push(0x18);
    r.push(0x78);
    r.push(0x78);
    r.push(0x18);
    r.push(0x18);
    r.push(0x18);
    r.push(0x18);
    r.push(0x18);
    r.push(0xFF);
    r.push(0xFF);
    r.push(0xFF);
    r.push(0xFF);
    r.push(0x03);
    r.push(0x03);
    r.push(0xFF);
    r.push(0xFF);
    r.push(0xC0);
    r.push(0xC0);
    r.push(0xFF);
    r.push(0xFF);
    r.push(0xFF);
    r.push(0xFF);
    r.push(0x03);
    r.push(0x03);
    r.push(0xFF);
    r.push(0xFF);
    r.push(0x03);
    r.push(0x03);
    r.push(0xFF);
    r.push(0xFF);
    r.push(0xC3);
    r.push(0xC3);
    r.push(0xC3);
    r.push(0xC3);
    r.push(0xFF);
    r.push(0xFF);
    r.push(0x03);
    r.push(0x03);
    r.push(0x03);
    r.push(0x03);
    r.push(0xFF);
    r.push(0xFF);
    r.push(0xC0);
    r.push(0xC0);
    r.push(0xFF);
    r.push(0xFF);
    r.push(0x03);
    r.push(0x03);
    r.push(0xFF);
    r.push(0xFF);
    r.push(0xFF);
    r.push(0xFF);
    r.push(0xC0);
    r.push(0xC0);
    r.push(0xFF);
    r.push(0xFF);
    r.push(0xC3);
    r.push(0xC3);
    r.push(0xFF);
    r.push(0xFF);
    r.push(0xFF);
    r.push(0xFF);
    r.push(0x03);
    r.push(0x03);
    r.push(0x06);
    r.push(0x0C);
    r.push(0x18);
    r.push(0x18);
    r.push(0x18);
    r.push(0x18);
    proof {
        assert(r@ =~= spec_big_font_lo());
    }
    r
}

fn big_font_hi() -> (r: Vec<u8>)
    ensures
        r@ == spec_big_font_hi(),
{
    let mut r: Vec<u8> = Vec::new();
    r.push(0xFF);
    r.push(0xFF);
    r.push(0xC3);
    r.push(0xC3);
    r.push(0xFF);
    r.push(0xFF);
    r.push(0xC3);
    r.push(0xC3);
    r.push(0xFF);
    r.push(0xFF);
    r.push(0xFF);
    r.push(0xFF);
    r.push(0xC3);
    r.push(0xC3);
    r.push(0xFF);
    r.push(0xFF);
    r.push(0x03);
    r.push(0x03);
    r.push(0xFF);
    r.push(0xFF);
    r.push(0x7E);
    r.push(0xFF);
    r.push(0xC3);
    r.push(0xC3);
    r.push(0xFF);
    r.push(0xFF);
    r.push(0xC3);
    r.push(0xC3);
    r.push(0xC3);
    r.push(0xC3);
    r.push(0xFC);
    r.push(0xFF);
    r.push(0xC3);
    r.push(0xC3);
    r.push(0xFC);
    r.push(0xFC);
    r.push(0xC3);
    r.push(0xC3);
    r.push(0xFF);
    r.push(0xFC);
    r.push(0x3C);
    r.push(0xFF);
    r.push(0xC3);
    r.push(0xC0);
    r.push(0xC0);
    r.push(0xC0);
    r.push(0xC0);
    r.push(0xC3);
    r.push(0xFF);
    r.push(0x3C);
    r.push(0xFC);
    r.push(0xFE);
    r.push(0xC3);
    r.push(0xC3);
    r.push(0xC3);
    r.push(0xC3);
    r.push(0xC3);
    r.push(0xC3);
    r.push(0xFE);
    r.push(0xFC);
    r.push(0xFF);
    r.push(0xFF);
    r.push(0xC0);
    r.push(0xC0);
    r.push(0xFF);
    r.push(0xFF);
    r.push(0xC0);
    r.push(0xC0);
    r.push(0xFF);
    r.push(0xFF);
    r.push(0xFF);
    r.push(0xFF);
    r.push(0xC0);
    r.push(0xC0);
    r.push(0xFF);
    r.push(0xFF);
    r.push(0xC0);
    r.push(0xC0);
    r.push(0xC0);
    r.push(0xC0);
    proof {
        assert(r@ =~= spec_big_font_hi());
    }
    r
}

/// The big font as bytes.
pub fn big_font_set() -> (r: Vec<u8>)
    ensures
        r@ == spec_big_font_set(),
        r@.len() == 160,
{
    let mut r: Vec<u8> = big_font_lo();
    let mut hi: Vec<u8> = big_font_hi();
    r.append(&mut hi);
    proof {
        assert(spec_big_font_lo().len() == 80);
        assert(spec_big_font_hi().len() == 80);
    }
    r
}

/// Address of the 4x5 glyph for digit `d`.
pub fn sprite_addr(d: u8) -> (r: u16)
    requires
        d < 16,
    ensures
        r == FONT_BASE + 5 * d,
{
    0x50 + 5 * (d as u16)
}

/// Address of the 8x10 glyph for digit `d`.
pub fn big_sprite_addr(d: u8) -> (r: u16)
    requires
        d < 16,
    ensures
        r == BIG_FONT_BASE + 10 * d,
{
    0xA0 + 10 * (d as u16)
}

} // verus!
