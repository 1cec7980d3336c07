//! RGB colors and their rendering as SGR escape fragments, in 24-bit
//! truecolor or the legacy 216-color cube.

use vstd::prelude::*;
use vstd::arithmetic::div_mod::lemma_div_is_ordered;
use vstd::arithmetic::div_mod::lemma_div_multiples_vanish;
use vstd::string::StringExecFns;
use crate::codes::{dec_seq, push_dec_u8};

verus! {

/// An RGB color: three 8-bit channels.
#[derive(Clone, Copy, PartialEq, Eq, Structural, Debug)]
pub struct AnsiColor(pub u8, pub u8, pub u8);

/// Whether a color applies to the character glyph or to the cell fill.
#[derive(Clone, Copy, PartialEq, Eq, Structural, Debug)]
pub enum ColorGround {
    BACK,
    FORE,
}

/// Color fidelity: the legacy 216-color cube or 24-bit truecolor.
#[derive(Clone, Copy, PartialEq, Eq, Structural, Debug)]
pub enum ColorMode {
    LIMITED,
    TRUECOLOR,
}

/// Quantizes one 8-bit channel to the 216-color cube's base-6 range `[0, 5]`:
/// channels below 48 collapse to 0, the rest scale by `5/187`.
pub open spec fn quantize_spec(c: int) -> int {
    if c >= 48 {
        ((c - 48) * 5) / 187
    } else {
        0
    }
}

/// The 216-color-cube palette index of a color, in `[16, 231]`.
pub open spec fn limited_index_spec(c: AnsiColor) -> int {
    36 * quantize_spec(c.0 as int) + 6 * quantize_spec(c.1 as int) + quantize_spec(c.2 as int)
        + 16
}

/// The ground selector of an SGR color sequence: `48` sets the background,
/// `38` the foreground.
pub open spec fn ground_code_seq(g: ColorGround) -> Seq<char> {
    match g {
        ColorGround::BACK => seq!['4', '8'],
        ColorGround::FORE => seq!['3', '8'],
    }
}

/// The truecolor fragment `ESC[<ground>;2;r;g;bm`.
pub open spec fn truecolor_seq(c: AnsiColor, g: ColorGround) -> Seq<char> {
    seq!['\x1b', '['] + ground_code_seq(g) + seq![';', '2', ';'] + dec_seq(c.0 as int)
        + seq![';'] + dec_seq(c.1 as int) + seq![';'] + dec_seq(c.2 as int) + seq!['m']
}

/// The legacy palette fragment `ESC[<ground>;5;<index>m`.
pub open spec fn limited_seq(c: AnsiColor, g: ColorGround) -> Seq<char> {
    seq!['\x1b', '['] + ground_code_seq(g) + seq![';', '5', ';'] + dec_seq(limited_index_spec(c))
        + seq!['m']
}

/// The escape fragment a color renders to under the given mode and ground.
pub open spec fn color_seq(c: AnsiColor, mode: ColorMode, g: ColorGround) -> Seq<char> {
    match mode {
        ColorMode::TRUECOLOR => truecolor_seq(c, g),
        ColorMode::LIMITED => limited_seq(c, g),
    }
}

/// One channel of the border-shading effect: scaled by 0.9 and truncated.
pub open spec fn shade_channel_spec(c: int) -> int {
    (c * 9) / 10
}

/// Darkens one channel for the border-shading effect.
pub fn shade_channel(c: u8) -> (r: u8)
    ensures
        r as int == shade_channel_spec(c as int),
        r <= c,
{
    let wide: u16 = (c as u16 * 9) / 10;
    proof {
        lemma_div_is_ordered(c as int * 9, 10 * (c as int), 10);
        lemma_div_multiples_vanish(c as int, 10);
    }
    wide as u8
}

/// Structural equality of two optional colors.
pub fn opt_color_eq(a: &Option<AnsiColor>, b: &Option<AnsiColor>) -> (r: bool)
    ensures
        r == (*a == *b),
{
    match (*a, *b) {
        (Option::None, Option::None) => true,
        (Option::Some(x), Option::Some(y)) => x == y,
        _ => false,
    }
}

/// Quantizes a channel for the 216-color cube.
pub fn calc_legacy_color(c: u8) -> (r: u8)
    ensures
        r as int == quantize_spec(c as int),
        r <= 5,
{
    if c >= 48 {
        let wide: u16 = (c as u16 - 48) * 5;
        (wide / 187) as u8
    } else {
        0
    }
}

/// Channels below 48 quantize to 0, and the quantized value never exceeds 5.
pub proof fn lemma_quantize_bounds(c: int)
    requires
        0 <= c <= 255,
    ensures
        0 <= quantize_spec(c) <= 5,
        c < 48 ==> quantize_spec(c) == 0,
{
    if c >= 48 {
        lemma_div_is_ordered(0, (c - 48) * 5, 187);
        lemma_div_is_ordered((c - 48) * 5, 1035, 187);
    }
}

/// Quantization is non-decreasing on `[48, 255]`.
pub proof fn lemma_quantize_monotonic(c1: int, c2: int)
    requires
        48 <= c1 <= c2 <= 255,
    ensures
        quantize_spec(c1) <= quantize_spec(c2),
{
    lemma_div_is_ordered((c1 - 48) * 5, (c2 - 48) * 5, 187);
}

/// Every palette index produced by quantization lies in `[16, 231]`.
pub proof fn lemma_limited_index_range(c: AnsiColor)
    ensures
        16 <= limited_index_spec(c) <= 231,
{
    lemma_quantize_bounds(c.0 as int);
    lemma_quantize_bounds(c.1 as int);
    lemma_quantize_bounds(c.2 as int);
}

fn get_ground_code(ground: &ColorGround) -> (r: &'static str)
    ensures
        r@ == ground_code_seq(*ground),
{
    proof {
        reveal_strlit("48");
        reveal_strlit("38");
    }
    let r = match ground {
        ColorGround::BACK => "48",
        ColorGround::FORE => "38",
    };
    proof {
        assert(r@ =~= ground_code_seq(*ground));
    }
    r
}

impl AnsiColor {
    fn truecolor_render(&self, ground: &ColorGround) -> (r: String)
        ensures
            r@ == truecolor_seq(*self, *ground),
    {
        proof {
            reveal_strlit("\x1b[");
            reveal_strlit(";2;");
            reveal_strlit(";");
            reveal_strlit("m");
        }
        let mut s = String::new();
        s.append("\x1b[");
        s.append(get_ground_code(ground));
        s.append(";2;");
        push_dec_u8(&mut s, self.0);
        s.append(";");
        push_dec_u8(&mut s, self.1);
        s.append(";");
        push_dec_u8(&mut s, self.2);
        s.append("m");
        proof {
            assert(s@ =~= truecolor_seq(*self, *ground));
        }
        s
    }

    fn limited_render(&self, ground: &ColorGround) -> (r: String)
        ensures
            r@ == limited_seq(*self, *ground),
    {
        proof {
            reveal_strlit("\x1b[");
            reveal_strlit(";5;");
            reveal_strlit("m");
        }
        let r = calc_legacy_color(self.0);
        let g = calc_legacy_color(self.1);
        let b = calc_legacy_color(self.2);
        let color_code: u8 = r * 36 + g * 6 + b + 16;
        let mut s = String::new();
        s.append("\x1b[");
        s.append(get_ground_code(ground));
        s.append(";5;");
        push_dec_u8(&mut s, color_code);
        s.append("m");
        proof {
            assert(s@ =~= limited_seq(*self, *ground));
        }
        s
    }

    /// Builds a color from its three channels.
    pub fn new(r: u8, g: u8, b: u8) -> (c: Self)
        ensures
            c == (AnsiColor(r, g, b)),
    {
        AnsiColor(r, g, b)
    }

    /// Renders the color as an escape fragment under the given fidelity mode
    /// and ground.
    pub fn to_string(&self, mode: &ColorMode, ground: &ColorGround) -> (r: String)
        ensures
            r@ == color_seq(*self, *mode, *ground),
    {
        match mode {
            ColorMode::TRUECOLOR => self.truecolor_render(ground),
            ColorMode::LIMITED => self.limited_render(ground),
        }
    }
}

} // verus!
