//! A fixed-length line of styled cells: construction from text, splitting,
//! placement editing, and the run-compressing ANSI serializer.

use vstd::prelude::*;
use vstd::string::{StrSliceExecFns, StringExecFns};
use crate::cell::{
    cell_seq, merge_cell, merge_cell_spec, opt_color_seq, plain_cell, AnsiChar,
};
use crate::codes::{push_char, reset_seq};
use crate::color::{opt_color_eq, AnsiColor, ColorGround, ColorMode};
use crate::graphics::{graphics_seq, union_graphics, AnsiGraphics};

verus! {

/// An ordered sequence of styled cells.
#[derive(Clone, Debug)]
pub struct AnsiString {
    pub vec: Vec<AnsiChar>,
}

impl View for AnsiString {
    type V = Seq<AnsiChar>;

    open spec fn view(&self) -> Seq<AnsiChar> {
        self.vec@
    }
}

/// The cells of a uniformly colored piece of text: one plain cell per
/// character.
pub open spec fn make_cells(
    s: Seq<char>,
    fore: Option<AnsiColor>,
    back: Option<AnsiColor>,
) -> Seq<AnsiChar> {
    Seq::new(s.len(), |i: int| plain_cell(s[i], fore, back))
}

/// The cell at position `j` after placing `src` over `dest` at `pos`:
/// positions under the clipped source window take the source (wholesale on
/// `assign`, merged otherwise), all others keep the destination cell.
pub open spec fn place_cell_at(
    dest: Seq<AnsiChar>,
    src: Seq<AnsiChar>,
    pos: int,
    assign: bool,
    j: int,
) -> AnsiChar {
    if pos <= j < pos + src.len() && j < dest.len() {
        if assign {
            src[j - pos]
        } else {
            merge_cell_spec(src[j - pos], dest[j])
        }
    } else {
        dest[j]
    }
}

/// The line that results from placing `src` over `dest` at `pos`, clipped
/// to the destination's length.
pub open spec fn place_spec(
    dest: Seq<AnsiChar>,
    src: Seq<AnsiChar>,
    pos: int,
    assign: bool,
) -> Seq<AnsiChar> {
    Seq::new(dest.len(), |j: int| place_cell_at(dest, src, pos, assign, j))
}

/// Every cell with the given flags unioned into its set.
pub open spec fn add_graphics_spec(cells: Seq<AnsiChar>, agm: AnsiGraphics) -> Seq<AnsiChar> {
    Seq::new(
        cells.len(),
        |i: int|
            AnsiChar {
                char: cells[i].char,
                back_color: cells[i].back_color,
                fore_color: cells[i].fore_color,
                graphics: union_graphics(cells[i].graphics, agm),
            },
    )
}

/// The full formatting prefix of one cell in the batched serializer:
/// background fragment if present, then foreground fragment if present,
/// then the flag set codes.
pub open spec fn line_prefix_seq(c: AnsiChar, mode: ColorMode) -> Seq<char> {
    opt_color_seq(c.back_color, mode, ColorGround::BACK) + opt_color_seq(
        c.fore_color,
        mode,
        ColorGround::FORE,
    ) + graphics_seq(c.graphics, false)
}

/// What the batched serializer emits between two neighbouring cells: a full
/// reset and the current cell's whole prefix on any color change; only the
/// flag reset/set codes when just the flags differ; nothing when the
/// formatting is identical.
pub open spec fn transition_seq(prev: AnsiChar, cur: AnsiChar, mode: ColorMode) -> Seq<char> {
    if prev.back_color != cur.back_color || prev.fore_color != cur.fore_color {
        reset_seq() + line_prefix_seq(cur, mode)
    } else if prev.graphics != cur.graphics {
        graphics_seq(prev.graphics, true) + graphics_seq(cur.graphics, false)
    } else {
        Seq::empty()
    }
}

/// The batched serialization of a line, before the trailing reset: the
/// first cell's full prefix and character, then for each further cell the
/// transition from its predecessor and its character.
pub open spec fn line_body_seq(cells: Seq<AnsiChar>, mode: ColorMode) -> Seq<char>
    decreases cells.len(),
{
    if cells.len() == 0 {
        Seq::empty()
    } else if cells.len() == 1 {
        line_prefix_seq(cells[0], mode) + seq![cells[0].char]
    } else {
        line_body_seq(cells.drop_last(), mode) + transition_seq(
            cells[cells.len() - 2],
            cells.last(),
            mode,
        ) + seq![cells.last().char]
    }
}

/// The complete batched serialization: the body followed by one full reset.
pub open spec fn line_seq(cells: Seq<AnsiChar>, mode: ColorMode) -> Seq<char> {
    line_body_seq(cells, mode) + reset_seq()
}

/// The unoptimized serialization: every cell rendered in isolation,
/// each followed by a full reset.
pub open spec fn noopt_seq(cells: Seq<AnsiChar>, mode: ColorMode) -> Seq<char>
    decreases cells.len(),
{
    if cells.len() == 0 {
        Seq::empty()
    } else {
        noopt_seq(cells.drop_last(), mode) + cell_seq(cells.last(), mode) + reset_seq()
    }
}

/// Adding a set of flags to every cell twice yields the same line as
/// adding it once: the underlying union is idempotent.
pub proof fn lemma_add_graphics_idempotent(cells: Seq<AnsiChar>, agm: AnsiGraphics)
    ensures
        add_graphics_spec(add_graphics_spec(cells, agm), agm) == add_graphics_spec(cells, agm),
{
    assert(add_graphics_spec(add_graphics_spec(cells, agm), agm) =~= add_graphics_spec(
        cells,
        agm,
    ));
}

/// Merging placement with a colorless source never clears a uniform
/// background: touched and untouched cells alike keep the color.
pub proof fn lemma_place_keeps_background(
    dest: Seq<AnsiChar>,
    src: Seq<AnsiChar>,
    pos: int,
    back: AnsiColor,
)
    requires
        forall|i: int| 0 <= i < dest.len() ==> dest[i].back_color == Some(back),
        forall|i: int| 0 <= i < src.len() ==> src[i].back_color is None,
    ensures
        forall|j: int|
            0 <= j < dest.len() ==> (#[trigger] place_spec(dest, src, pos, false)[j]).back_color
                == Some(back),
{
}

/// A single colorless, flagless cell serializes to just its character and
/// the trailing full reset: no color or flag escape fragments at all.
pub proof fn lemma_plain_cell_line(c: AnsiChar, mode: ColorMode)
    requires
        c.back_color is None,
        c.fore_color is None,
        c.graphics == crate::graphics::empty_graphics(),
    ensures
        line_seq(seq![c], mode) == seq![c.char] + reset_seq(),
{
    assert(line_body_seq(seq![c], mode) == line_prefix_seq(c, mode) + seq![c.char]);
    assert(graphics_seq(c.graphics, false) =~= Seq::<char>::empty());
    assert(line_seq(seq![c], mode) =~= seq![c.char] + reset_seq());
}

/// Appends one cell's full formatting prefix: background, foreground, flag
/// set codes.
fn push_prefix(s: &mut String, c: &AnsiChar, mode: &ColorMode)
    ensures
        final(s)@ == old(s)@ + line_prefix_seq(*c, *mode),
{
    match &c.back_color {
        Some(b) => s.append(b.to_string(mode, &ColorGround::BACK).as_str()),
        None => {},
    }
    match &c.fore_color {
        Some(f) => s.append(f.to_string(mode, &ColorGround::FORE).as_str()),
        None => {},
    }
    s.append(c.graphics.to_string(false).as_str());
    proof {
        assert(s@ =~= old(s)@ + line_prefix_seq(*c, *mode));
    }
}

/// Appends what the run-compressing serializer emits between two
/// neighbouring cells.
fn push_transition(s: &mut String, prev: &AnsiChar, cur: &AnsiChar, mode: &ColorMode)
    ensures
        final(s)@ == old(s)@ + transition_seq(*prev, *cur, *mode),
{
    proof {
        reveal_strlit("\x1b[0m");
    }
    if !opt_color_eq(&prev.back_color, &cur.back_color) || !opt_color_eq(
        &prev.fore_color,
        &cur.fore_color,
    ) {
        s.append("\x1b[0m");
        push_prefix(s, cur, mode);
        proof {
            assert(s@ =~= old(s)@ + transition_seq(*prev, *cur, *mode));
        }
    } else if !(prev.graphics == cur.graphics) {
        s.append(prev.graphics.to_string(true).as_str());
        s.append(cur.graphics.to_string(false).as_str());
        proof {
            assert(s@ =~= old(s)@ + transition_seq(*prev, *cur, *mode));
        }
    } else {
        proof {
            assert(s@ =~= old(s)@ + transition_seq(*prev, *cur, *mode));
        }
    }
}

impl AnsiString {
    /// The number of cells.
    pub fn len(&self) -> (r: usize)
        ensures
            r == self@.len(),
    {
        self.vec.len()
    }

    /// Builds a line from text with one optional foreground and one
    /// optional background color applied to every cell.
    pub fn new(str: &str, fore: Option<(u8, u8, u8)>, back: Option<(u8, u8, u8)>) -> (r: Self)
        ensures
            r@ == make_cells(
                str@,
                crate::cell::opt_color_of(fore),
                crate::cell::opt_color_of(back),
            ),
    {
        let n = str.unicode_len();
        let mut vec: Vec<AnsiChar> = Vec::new();
        let mut i: usize = 0;
        while i < n
            invariant
                i <= n,
                n == str@.len(),
                vec@.len() == i,
                forall|j: int|
                    0 <= j < i ==> vec@[j] == plain_cell(
                        str@[j],
                        crate::cell::opt_color_of(fore),
                        crate::cell::opt_color_of(back),
                    ),
            decreases n - i,
        {
            vec.push(AnsiChar::new(str.get_char(i), fore, back));
            i = i + 1;
        }
        proof {
            assert(vec@ =~= make_cells(
                str@,
                crate::cell::opt_color_of(fore),
                crate::cell::opt_color_of(back),
            ));
        }
        AnsiString { vec }
    }

    /// Builds a uniformly foreground-colored line.
    pub fn new_fore(str: &str, fore: (u8, u8, u8)) -> (r: Self)
        ensures
            r@ == make_cells(
                str@,
                Some(AnsiColor(fore.0, fore.1, fore.2)),
                None,
            ),
    {
        AnsiString::new(str, Some(fore), None)
    }

    /// Builds a uniformly background-colored line.
    pub fn new_back(str: &str, back: (u8, u8, u8)) -> (r: Self)
        ensures
            r@ == make_cells(
                str@,
                None,
                Some(AnsiColor(back.0, back.1, back.2)),
            ),
    {
        AnsiString::new(str, None, Some(back))
    }

    /// Builds a colorless line.
    pub fn new_colorless(str: &str) -> (r: Self)
        ensures
            r@ == make_cells(str@, None, None),
    {
        AnsiString::new(str, None, None)
    }

    /// Splits the line at `mid` into a prefix and a suffix, leaving the
    /// receiver untouched.
    pub fn split_at(&self, mid: usize) -> (r: (AnsiString, AnsiString))
        requires
            mid <= self@.len(),
        ensures
            r.0@ == self@.subrange(0, mid as int),
            r.1@ == self@.subrange(mid as int, self@.len() as int),
    {
        let n = self.vec.len();
        let mut head: Vec<AnsiChar> = Vec::new();
        let mut i: usize = 0;
        while i < mid
            invariant
                i <= mid <= n,
                n == self@.len(),
                head@ == self@.subrange(0, i as int),
            decreases mid - i,
        {
            head.push(self.vec[i]);
            proof {
                assert(head@ =~= self@.subrange(0, i + 1));
            }
            i = i + 1;
        }
        let mut tail: Vec<AnsiChar> = Vec::new();
        let mut j: usize = mid;
        while j < n
            invariant
                mid <= j <= n,
                n == self@.len(),
                tail@ == self@.subrange(mid as int, j as int),
            decreases n - j,
        {
            tail.push(self.vec[j]);
            proof {
                assert(tail@ =~= self@.subrange(mid as int, j + 1));
            }
            j = j + 1;
        }
        (AnsiString { vec: head }, AnsiString { vec: tail })
    }

    /// A copy of the line's first `end` cells.
    pub fn cut_at(&self, end: usize) -> (r: AnsiString)
        requires
            end <= self@.len(),
        ensures
            r@ == self@.subrange(0, end as int),
    {
        let pair = self.split_at(end);
        pair.0
    }

    /// A new line holding this line's cells followed by the other's.
    pub fn concat(&self, other: &AnsiString) -> (r: AnsiString)
        ensures
            r@ == self@ + other@,
    {
        let n = self.vec.len();
        let m = other.vec.len();
        let mut vec: Vec<AnsiChar> = Vec::new();
        let mut i: usize = 0;
        while i < n
            invariant
                i <= n,
                n == self@.len(),
                vec@ == self@.subrange(0, i as int),
            decreases n - i,
        {
            vec.push(self.vec[i]);
            proof {
                assert(vec@ =~= self@.subrange(0, i + 1));
            }
            i = i + 1;
        }
        let mut j: usize = 0;
        while j < m
            invariant
                j <= m,
                n == self@.len(),
                m == other@.len(),
                vec@ == self@ + other@.subrange(0, j as int),
            decreases m - j,
        {
            vec.push(other.vec[j]);
            proof {
                assert(vec@ =~= self@ + other@.subrange(0, j + 1));
            }
            j = j + 1;
        }
        proof {
            assert(self@.subrange(0, n as int) =~= self@);
            assert(other@.subrange(0, m as int) =~= other@);
            assert(vec@ =~= self@ + other@);
        }
        AnsiString { vec }
    }

    /// Writes `text`'s cells starting at `pos`, clipped to the line's
    /// length. On `assign`, destination cells are replaced wholesale;
    /// otherwise each is merged, keeping its background where the source
    /// cell has none.
    #[verifier::loop_isolation(false)]
    pub fn place(&mut self, text: &AnsiString, pos: usize, assign: bool)
        requires
            pos < old(self)@.len(),
        ensures
            final(self)@ == place_spec(old(self)@, text@, pos as int, assign),
    {
        let len = self.vec.len();
        let tlen = text.vec.len();
        let remaining = len - pos;
        let ei = if tlen < remaining {
            pos + tlen
        } else {
            len
        };
        let mut i: usize = pos;
        while i < ei
            invariant
                pos <= i <= ei <= len,
                len == self@.len(),
                tlen == text@.len(),
                ei as int == if pos + tlen < len {
                    pos + tlen
                } else {
                    len as int
                },
                forall|j: int|
                    0 <= j < len ==> self@[j] == (if pos <= j < i {
                        place_cell_at(old(self)@, text@, pos as int, assign, j)
                    } else {
                        old(self)@[j]
                    }),
            decreases ei - i,
        {
            let src = text.vec[i - pos];
            let newcell = if assign {
                src
            } else {
                merge_cell(&src, &self.vec[i])
            };
            self.vec[i] = newcell;
            i = i + 1;
        }
        proof {
            assert(self@ =~= place_spec(old(self)@, text@, pos as int, assign));
        }
    }

    /// Writes plain text at `pos`, merging so existing backgrounds shine
    /// through.
    pub fn place_str(&mut self, str: &str, pos: usize)
        requires
            pos < old(self)@.len(),
        ensures
            final(self)@ == place_spec(
                old(self)@,
                make_cells(str@, None, None),
                pos as int,
                false,
            ),
    {
        let astr = AnsiString::new_colorless(str);
        self.place(&astr, pos, false);
    }

    /// Places content centered: at offset `(len - content.len()) / 2`.
    pub fn center_place(&mut self, astr: &AnsiString, assign: bool)
        requires
            astr@.len() <= old(self)@.len(),
            old(self)@.len() > 0,
        ensures
            final(self)@ == place_spec(
                old(self)@,
                astr@,
                (old(self)@.len() - astr@.len()) as int / 2,
                assign,
            ),
    {
        let pos: usize = (self.vec.len() - astr.vec.len()) / 2;
        self.place(astr, pos, assign);
    }

    /// Places plain text centered.
    pub fn center_place_str(&mut self, str: &str)
        requires
            str@.len() <= old(self)@.len(),
            old(self)@.len() > 0,
        ensures
            final(self)@ == place_spec(
                old(self)@,
                make_cells(str@, None, None),
                (old(self)@.len() - str@.len()) as int / 2,
                false,
            ),
    {
        let astr = AnsiString::new_colorless(str);
        let pos: usize = (self.vec.len() - astr.vec.len()) / 2;
        self.place(&astr, pos, false);
    }

    /// Unions the given flags into every cell's set.
    #[verifier::loop_isolation(false)]
    pub fn add_graphics(&mut self, agm: AnsiGraphics)
        ensures
            final(self)@ == add_graphics_spec(old(self)@, agm),
    {
        let n = self.vec.len();
        let mut i: usize = 0;
        while i < n
            invariant
                i <= n,
                n == self@.len(),
                forall|j: int|
                    0 <= j < n ==> self@[j] == (if j < i {
                        add_graphics_spec(old(self)@, agm)[j]
                    } else {
                        old(self)@[j]
                    }),
            decreases n - i,
        {
            let c = self.vec[i];
            self.vec[i] = AnsiChar {
                char: c.char,
                back_color: c.back_color,
                fore_color: c.fore_color,
                graphics: c.graphics.union(&agm),
            };
            i = i + 1;
        }
        proof {
            assert(self@ =~= add_graphics_spec(old(self)@, agm));
        }
    }

    /// Renders every cell in isolation, each followed by a full reset.
    #[verifier::loop_isolation(false)]
    pub fn to_string_noopt(&self, mode: &ColorMode) -> (r: String)
        ensures
            r@ == noopt_seq(self@, *mode),
    {
        proof {
            reveal_strlit("\x1b[0m");
        }
        let n = self.vec.len();
        let mut s = String::new();
        let mut i: usize = 0;
        while i < n
            invariant
                i <= n,
                n == self@.len(),
                s@ == noopt_seq(self@.subrange(0, i as int), *mode),
            decreases n - i,
        {
            s.append(self.vec[i].to_string(mode).as_str());
            s.append("\x1b[0m");
            proof {
                let ext = self@.subrange(0, i + 1);
                assert(ext.drop_last() =~= self@.subrange(0, i as int));
                assert(ext.last() == self@[i as int]);
                assert(s@ =~= noopt_seq(ext, *mode));
            }
            i = i + 1;
        }
        proof {
            assert(self@.subrange(0, n as int) =~= self@);
        }
        s
    }

    /// The run-compressing serializer: emits the first cell's full prefix,
    /// then for each later cell only what changed against its predecessor,
    /// and one trailing full reset.
    #[verifier::loop_isolation(false)]
    #[verifier::rlimit(60)]
    pub fn to_string(&self, mode: &ColorMode) -> (r: String)
        requires
            self@.len() >= 1,
        ensures
            r@ == line_seq(self@, *mode),
    {
        proof {
            reveal_strlit("\x1b[0m");
        }
        let mut s = String::new();
        let c0 = self.vec[0];
        push_prefix(&mut s, &c0, mode);
        push_char(&mut s, c0.char);
        proof {
            let first = self@.subrange(0, 1);
            assert(first.len() == 1);
            assert(first[0] == self@[0]);
            assert(s@ =~= line_body_seq(first, *mode));
        }
        let n = self.vec.len();
        let mut i: usize = 1;
        while i < n
            invariant
                1 <= i <= n,
                n == self@.len(),
                s@ == line_body_seq(self@.subrange(0, i as int), *mode),
            decreases n - i,
        {
            let prev = self.vec[i - 1];
            let cur = self.vec[i];
            push_transition(&mut s, &prev, &cur, mode);
            push_char(&mut s, cur.char);
            proof {
                let pre = self@.subrange(0, i as int);
                let ext = self@.subrange(0, i + 1);
                assert(ext.drop_last() =~= pre);
                assert(ext.last() == self@[i as int]);
                assert(ext[ext.len() - 2] == self@[i - 1]);
                assert(s@ =~= line_body_seq(ext, *mode));
            }
            i = i + 1;
        }
        s.append("\x1b[0m");
        proof {
            assert(self@.subrange(0, n as int) =~= self@);
            assert(s@ =~= line_seq(self@, *mode));
        }
        s
    }
}

} // verus!
