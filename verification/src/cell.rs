//! One styled character: a Unicode scalar with optional foreground and
//! background colors and a set of text-decoration flags.

use vstd::prelude::*;
use vstd::string::StringExecFns;
use crate::codes::{push_char, reset_seq};
use crate::color::{
    color_seq, opt_color_eq, shade_channel, shade_channel_spec, AnsiColor, ColorGround, ColorMode,
};
use crate::graphics::{empty_graphics, graphics_seq, AnsiGraphics};
use crate::string::AnsiString;

verus! {

/// One character plus its optional fore/back colors and decoration flags.
#[derive(Clone, Copy, Debug)]
pub struct AnsiChar {
    pub char: char,
    pub back_color: Option<AnsiColor>,
    pub fore_color: Option<AnsiColor>,
    pub graphics: AnsiGraphics,
}

/// The escape fragment of an optional color: absent colors render to
/// nothing.
pub open spec fn opt_color_seq(o: Option<AnsiColor>, mode: ColorMode, g: ColorGround) -> Seq<
    char,
> {
    match o {
        Some(c) => color_seq(c, mode, g),
        None => Seq::empty(),
    }
}

/// The isolated (non-optimized) rendering of one cell: a full reset, the
/// background and foreground fragments if present, the flag set codes, the
/// character, and the trailing flag reset codes.
pub open spec fn cell_seq(c: AnsiChar, mode: ColorMode) -> Seq<char> {
    reset_seq() + opt_color_seq(c.back_color, mode, ColorGround::BACK) + opt_color_seq(
        c.fore_color,
        mode,
        ColorGround::FORE,
    ) + graphics_seq(c.graphics, false) + seq![c.char] + graphics_seq(c.graphics, true)
}

/// Converts an optional channel triple into an optional color.
pub open spec fn opt_color_of(o: Option<(u8, u8, u8)>) -> Option<AnsiColor> {
    match o {
        Some(t) => Some(AnsiColor(t.0, t.1, t.2)),
        None => None,
    }
}

/// A plain cell: the given character, the given colors, no flags.
pub open spec fn plain_cell(ch: char, fore: Option<AnsiColor>, back: Option<AnsiColor>) -> AnsiChar {
    AnsiChar { char: ch, back_color: back, fore_color: fore, graphics: empty_graphics() }
}

/// The merge of a source cell over a fallback cell: the source wins
/// everywhere, except that an absent source background keeps the
/// fallback's background.
pub open spec fn merge_cell_spec(src: AnsiChar, fallback: AnsiChar) -> AnsiChar {
    AnsiChar {
        char: src.char,
        fore_color: src.fore_color,
        back_color: if src.back_color is None {
            fallback.back_color
        } else {
            src.back_color
        },
        graphics: src.graphics,
    }
}

/// The border-shaded copy of a cell: a present background has every channel
/// darkened; an absent background stays absent, and nothing else changes.
pub open spec fn shade_cell_spec(c: AnsiChar) -> AnsiChar {
    AnsiChar {
        char: c.char,
        fore_color: c.fore_color,
        back_color: match c.back_color {
            Some(b) => Some(
                AnsiColor(
                    shade_channel_spec(b.0 as int) as u8,
                    shade_channel_spec(b.1 as int) as u8,
                    shade_channel_spec(b.2 as int) as u8,
                ),
            ),
            None => None,
        },
        graphics: c.graphics,
    }
}

/// Merges a source cell over a fallback cell, without aliasing between the
/// inputs.
pub fn merge_cell(src: &AnsiChar, fallback: &AnsiChar) -> (r: AnsiChar)
    ensures
        r == merge_cell_spec(*src, *fallback),
{
    AnsiChar {
        char: src.char,
        fore_color: src.fore_color,
        back_color: if opt_color_eq(&src.back_color, &Option::None) {
            fallback.back_color
        } else {
            src.back_color
        },
        graphics: src.graphics,
    }
}

/// Builds the border-shaded copy of a cell.
pub fn shade_cell(c: &AnsiChar) -> (r: AnsiChar)
    ensures
        r == shade_cell_spec(*c),
{
    AnsiChar {
        char: c.char,
        fore_color: c.fore_color,
        back_color: match c.back_color {
            Some(b) => Some(
                AnsiColor(shade_channel(b.0), shade_channel(b.1), shade_channel(b.2)),
            ),
            None => None,
        },
        graphics: c.graphics,
    }
}

impl AnsiChar {
    /// Builds a cell from a character and optional channel triples, with no
    /// decoration flags.
    pub fn new(char: char, fore: Option<(u8, u8, u8)>, back: Option<(u8, u8, u8)>) -> (r:
        AnsiChar)
        ensures
            r == plain_cell(char, opt_color_of(fore), opt_color_of(back)),
    {
        AnsiChar {
            char: char,
            back_color: match back {
                Some(back) => Some(AnsiColor(back.0, back.1, back.2)),
                None => None,
            },
            fore_color: match fore {
                Some(fore) => Some(AnsiColor(fore.0, fore.1, fore.2)),
                None => None,
            },
            graphics: AnsiGraphics::new(),
        }
    }

    /// Renders the cell in isolation.
    pub fn to_string(&self, mode: &ColorMode) -> (r: String)
        ensures
            r@ == cell_seq(*self, *mode),
    {
        proof {
            reveal_strlit("\x1b[0m");
        }
        let mut s = String::new();
        s.append("\x1b[0m");
        match &self.back_color {
            Some(back) => s.append(back.to_string(mode, &ColorGround::BACK).as_str()),
            None => {},
        }
        match &self.fore_color {
            Some(fore) => s.append(fore.to_string(mode, &ColorGround::FORE).as_str()),
            None => {},
        }
        s.append(self.graphics.to_string(false).as_str());
        push_char(&mut s, self.char);
        s.append(self.graphics.to_string(true).as_str());
        proof {
            assert(s@ =~= cell_seq(*self, *mode));
        }
        s
    }

    /// Replaces the cell's character, leaving colors and flags alone.
    pub fn set(&mut self, c: char)
        ensures
            final(self).char == c,
            final(self).back_color == old(self).back_color,
            final(self).fore_color == old(self).fore_color,
            final(self).graphics == old(self).graphics,
    {
        self.char = c;
    }

    /// Wraps the cell as a one-cell line.
    pub fn as_ansistring(&self) -> (r: AnsiString)
        ensures
            r@ == seq![*self],
    {
        let mut vec: Vec<AnsiChar> = Vec::new();
        vec.push(*self);
        proof {
            assert(vec@ =~= seq![*self]);
        }
        AnsiString { vec }
    }
}

} // verus!
