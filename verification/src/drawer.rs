//! A fixed-size 2D drawing surface: a grid of lines with bounds-gated
//! placement, clipping, canvas-to-canvas compositing with border shading,
//! and whole-surface rendering.

use vstd::prelude::*;
use vstd::string::StringExecFns;
use crate::cell::{plain_cell, shade_cell, shade_cell_spec, AnsiChar};
use crate::color::AnsiColor;
use crate::string::{line_seq, make_cells, place_spec, AnsiString};
use crate::codes::push_char;
use crate::color::ColorMode;

verus! {

/// A fixed height-by-width grid of lines.
#[derive(Clone, Debug)]
pub struct Drawer {
    pub height: usize,
    pub width: usize,
    pub plane: Vec<AnsiString>,
}

/// A uniform row: spaces over one background color.
pub open spec fn fill_row_spec(width: int, color: AnsiColor) -> Seq<AnsiChar> {
    Seq::new(width as nat, |i: int| plain_cell(' ', None, Some(color)))
}

/// A row with every cell border-shaded.
pub open spec fn shade_row_spec(row: Seq<AnsiChar>) -> Seq<AnsiChar> {
    Seq::new(row.len(), |i: int| shade_cell_spec(row[i]))
}

/// The fill color a canvas is built with: the given one, or the default
/// plane color.
pub open spec fn plane_color_of(o: Option<(u8, u8, u8)>) -> AnsiColor {
    match o {
        Some(c) => AnsiColor(c.0, c.1, c.2),
        None => AnsiColor(110, 90, 250),
    }
}

/// Every row serialized, each followed by one line break.
pub open spec fn render_spec(rows: Seq<Seq<AnsiChar>>, mode: ColorMode) -> Seq<char>
    decreases rows.len(),
{
    if rows.len() == 0 {
        Seq::empty()
    } else {
        render_spec(rows.drop_last(), mode) + line_seq(rows.last(), mode) + seq!['\n']
    }
}

/// Builds the border-shaded copy of a row.
pub fn shade_row(row: &AnsiString) -> (r: AnsiString)
    ensures
        r@ == shade_row_spec(row@),
{
    let n = row.vec.len();
    let mut vec: Vec<AnsiChar> = Vec::new();
    let mut i: usize = 0;
    while i < n
        invariant
            i <= n,
            n == row@.len(),
            vec@.len() == i,
            forall|j: int| 0 <= j < i ==> vec@[j] == shade_cell_spec(row@[j]),
        decreases n - i,
    {
        vec.push(shade_cell(&row.vec[i]));
        i = i + 1;
    }
    proof {
        assert(vec@ =~= shade_row_spec(row@));
    }
    AnsiString { vec }
}

/// Shading scales every defined background channel by 0.9 with integer
/// truncation, and keeps undefined backgrounds undefined.
pub proof fn lemma_shade_row_backgrounds(row: Seq<AnsiChar>)
    ensures
        shade_row_spec(row).len() == row.len(),
        forall|i: int|
            0 <= i < row.len() ==> #[trigger] shade_row_spec(row)[i].back_color == (match row[i].back_color {
                Some(b) => Some(
                    AnsiColor(
                        ((b.0 * 9) / 10) as u8,
                        ((b.1 * 9) / 10) as u8,
                        ((b.2 * 9) / 10) as u8,
                    ),
                ),
                None => None,
            }),
{
}

fn fill_row(width: usize, color: AnsiColor) -> (r: AnsiString)
    ensures
        r@ == fill_row_spec(width as int, color),
{
    let mut vec: Vec<AnsiChar> = Vec::new();
    let mut i: usize = 0;
    while i < width
        invariant
            i <= width,
            vec@.len() == i,
            forall|j: int| 0 <= j < i ==> vec@[j] == plain_cell(' ', None, Some(color)),
        decreases width - i,
    {
        vec.push(AnsiChar {
            char: ' ',
            back_color: Some(color),
            fore_color: None,
            graphics: crate::graphics::AnsiGraphics::new(),
        });
        i = i + 1;
    }
    proof {
        assert(vec@ =~= fill_row_spec(width as int, color));
    }
    AnsiString { vec }
}

impl Drawer {
    /// The canvas's rows as sequences of cells.
    pub open spec fn rows(&self) -> Seq<Seq<AnsiChar>> {
        Seq::new(self.plane@.len(), |i: int| self.plane@[i]@)
    }

    /// Well-formedness: one line per row, and every line exactly as long as
    /// the canvas is wide.
    pub open spec fn wf(&self) -> bool {
        self.plane@.len() == self.height && (forall|i: int|
            0 <= i < self.plane@.len() ==> (#[trigger] self.plane@[i])@.len() == self.width)
    }

    /// Whether a coordinate pair lies outside the canvas.
    pub open spec fn out_of_bounds(&self, row: int, col: int) -> bool {
        row >= self.height || col >= self.width
    }

    fn check_write_position(&self, pos: (usize, usize)) -> (r: bool)
        ensures
            r == self.out_of_bounds(pos.0 as int, pos.1 as int),
    {
        (pos.0 >= self.height) || (pos.1 >= self.width)
    }

    /// Builds a canvas of the given `(height, width)`, every cell a space
    /// over the given background color (or the default plane color).
    pub fn new(size: (usize, usize), plane_color: Option<(u8, u8, u8)>) -> (r: Drawer)
        ensures
            r.wf(),
            r.height == size.0,
            r.width == size.1,
            forall|i: int|
                0 <= i < size.0 ==> #[trigger] r.rows()[i] == fill_row_spec(
                    size.1 as int,
                    plane_color_of(plane_color),
                ),
    {
        let color = match plane_color {
            None => AnsiColor(110, 90, 250),
            Some(c) => AnsiColor(c.0, c.1, c.2),
        };
        let mut plane: Vec<AnsiString> = Vec::new();
        let mut i: usize = 0;
        while i < size.0
            invariant
                i <= size.0,
                plane@.len() == i,
                color == plane_color_of(plane_color),
                forall|j: int|
                    0 <= j < i ==> (#[trigger] plane@[j])@ == fill_row_spec(
                        size.1 as int,
                        color,
                    ),
            decreases size.0 - i,
        {
            plane.push(fill_row(size.1, color));
            i = i + 1;
        }
        Drawer { height: size.0, width: size.1, plane }
    }

    /// Serializes every row and joins them with line breaks.
    #[verifier::loop_isolation(false)]
    pub fn render(&self, mode: &ColorMode) -> (r: String)
        requires
            self.wf(),
            self.height >= 1,
            self.width >= 1,
        ensures
            r@ == render_spec(self.rows(), *mode),
    {
        let n = self.plane.len();
        let mut s = String::new();
        let mut i: usize = 0;
        while i < n
            invariant
                i <= n,
                s@ == render_spec(self.rows().subrange(0, i as int), *mode),
            decreases n - i,
        {
            s.append(self.plane[i].to_string(mode).as_str());
            push_char(&mut s, '\n');
            proof {
                let ext = self.rows().subrange(0, i + 1);
                assert(ext.drop_last() =~= self.rows().subrange(0, i as int));
                assert(ext.last() == self.rows()[i as int]);
                assert(s@ =~= render_spec(ext, *mode));
            }
            i = i + 1;
        }
        proof {
            assert(self.rows().subrange(0, n as int) =~= self.rows());
        }
        s
    }

    /// Places a line at `(row, col)`: a silent no-op when out of bounds,
    /// otherwise the target row takes the content, clipped to the canvas
    /// width, under the given overwrite policy.
    #[verifier::loop_isolation(false)]
    pub fn place(&mut self, astr: &AnsiString, pos: (usize, usize), assign: bool)
        requires
            old(self).wf(),
        ensures
            final(self).wf(),
            final(self).height == old(self).height,
            final(self).width == old(self).width,
            old(self).out_of_bounds(pos.0 as int, pos.1 as int) ==> final(self).rows()
                == old(self).rows(),
            !old(self).out_of_bounds(pos.0 as int, pos.1 as int) ==> {
                &&& final(self).rows()[pos.0 as int] == place_spec(
                    old(self).rows()[pos.0 as int],
                    astr@,
                    pos.1 as int,
                    assign,
                )
                &&& forall|r: int|
                    0 <= r < old(self).rows().len() && r != pos.0 as int
                        ==> final(self).rows()[r] == old(self).rows()[r]
            },
    {
        if self.check_write_position(pos) {
            proof {
                assert(self.rows() =~= old(self).rows());
            }
            return ;
        }
        self.plane[pos.0].place(astr, pos.1, assign);
        proof {
            assert(self.rows()[pos.0 as int] == place_spec(
                old(self).rows()[pos.0 as int],
                astr@,
                pos.1 as int,
                assign,
            ));
        }
    }

    /// Places a line horizontally centered in the given row.
    pub fn center_place(&mut self, astr: &AnsiString, ypos: usize, assign: bool)
        requires
            old(self).wf(),
            astr@.len() <= old(self).width,
        ensures
            final(self).wf(),
            final(self).height == old(self).height,
            final(self).width == old(self).width,
            old(self).out_of_bounds(
                ypos as int,
                (old(self).width - astr@.len()) as int / 2,
            ) ==> final(self).rows() == old(self).rows(),
            !old(self).out_of_bounds(ypos as int, (old(self).width - astr@.len()) as int / 2)
                ==> {
                &&& final(self).rows()[ypos as int] == place_spec(
                    old(self).rows()[ypos as int],
                    astr@,
                    (old(self).width - astr@.len()) as int / 2,
                    assign,
                )
                &&& forall|r: int|
                    0 <= r < old(self).rows().len() && r != ypos as int
                        ==> final(self).rows()[r] == old(self).rows()[r]
            },
    {
        let xpos: usize = (self.width - astr.len()) / 2;
        self.place(astr, (ypos, xpos), assign);
    }

    /// Places plain text at `(row, col)`, merging over existing
    /// backgrounds; out-of-bounds coordinates are a silent no-op.
    pub fn place_str(&mut self, _str: &str, pos: (usize, usize))
        requires
            old(self).wf(),
        ensures
            final(self).wf(),
            final(self).height == old(self).height,
            final(self).width == old(self).width,
            old(self).out_of_bounds(pos.0 as int, pos.1 as int) ==> final(self).rows()
                == old(self).rows(),
            !old(self).out_of_bounds(pos.0 as int, pos.1 as int) ==> {
                &&& final(self).rows()[pos.0 as int] == place_spec(
                    old(self).rows()[pos.0 as int],
                    make_cells(_str@, None, None),
                    pos.1 as int,
                    false,
                )
                &&& forall|r: int|
                    0 <= r < old(self).rows().len() && r != pos.0 as int
                        ==> final(self).rows()[r] == old(self).rows()[r]
            },
    {
        let astr = AnsiString::new_colorless(_str);
        self.place(&astr, pos, false);
    }

    /// Places plain text horizontally centered in the given row.
    pub fn center_place_str(&mut self, str: &str, ypos: usize)
        requires
            old(self).wf(),
            str@.len() <= old(self).width,
        ensures
            final(self).wf(),
            final(self).height == old(self).height,
            final(self).width == old(self).width,
            old(self).out_of_bounds(
                ypos as int,
                (old(self).width - str@.len()) as int / 2,
            ) ==> final(self).rows() == old(self).rows(),
            !old(self).out_of_bounds(ypos as int, (old(self).width - str@.len()) as int / 2)
                ==> {
                &&& final(self).rows()[ypos as int] == place_spec(
                    old(self).rows()[ypos as int],
                    make_cells(str@, None, None),
                    (old(self).width - str@.len()) as int / 2,
                    false,
                )
                &&& forall|r: int|
                    0 <= r < old(self).rows().len() && r != ypos as int
                        ==> final(self).rows()[r] == old(self).rows()[r]
            },
    {
        let astr = AnsiString::new_colorless(str);
        let xpos: usize = (self.width - astr.len()) / 2;
        self.place(&astr, (ypos, xpos), false);
    }

    /// Composites another canvas onto this one at `(row, col)`, always
    /// merging (placed backgrounds never erase what lies outside the pasted
    /// footprint). With `border`, every pasted row is border-shaded first.
    /// Rows and columns that do not fit are clipped; an out-of-bounds
    /// origin is a silent no-op.
    #[verifier::loop_isolation(false)]
    pub fn place_drawer(&mut self, other: &Self, pos: (usize, usize), border: bool)
        requires
            old(self).wf(),
            other.wf(),
        ensures
            final(self).wf(),
            final(self).height == old(self).height,
            final(self).width == old(self).width,
            old(self).out_of_bounds(pos.0 as int, pos.1 as int) ==> final(self).rows()
                == old(self).rows(),
            !old(self).out_of_bounds(pos.0 as int, pos.1 as int) ==> forall|r: int|
                0 <= r < old(self).rows().len() ==> #[trigger] final(self).rows()[r] == (if pos.0
                    <= r < pos.0 + other.height && r < old(self).height {
                    place_spec(
                        old(self).rows()[r],
                        (if border {
                            shade_row_spec(other.rows()[r - pos.0])
                        } else {
                            other.rows()[r - pos.0]
                        }),
                        pos.1 as int,
                        false,
                    )
                } else {
                    old(self).rows()[r]
                }),
    {
        if self.check_write_position(pos) {
            proof {
                assert(self.rows() =~= old(self).rows());
            }
            return ;
        }
        let limit = self.height - pos.0;
        let mut k: usize = 0;
        while k < other.height && k < limit
            invariant
                k <= other.height,
                pos.0 + k <= self.height,
                self.height == old(self).height,
                self.width == old(self).width,
                self.plane@.len() == old(self).plane@.len(),
                self.wf(),
                forall|r: int|
                    0 <= r < old(self).rows().len() ==> #[trigger] self.rows()[r] == (if pos.0
                        <= r < pos.0 + k {
                        place_spec(
                            old(self).rows()[r],
                            (if border {
                                shade_row_spec(other.rows()[r - pos.0])
                            } else {
                                other.rows()[r - pos.0]
                            }),
                            pos.1 as int,
                            false,
                        )
                    } else {
                        old(self).rows()[r]
                    }),
            decreases other.height - k,
        {
            let dest = pos.0 + k;
            let ghost prev = *self;
            if border {
                let shaded = shade_row(&other.plane[k]);
                self.plane[dest].place(&shaded, pos.1, false);
                proof {
                    assert(self.plane@ =~= prev.plane@.update(
                        dest as int,
                        self.plane@[dest as int],
                    ));
                    assert(self.rows()[dest as int] == place_spec(
                        prev.rows()[dest as int],
                        shade_row_spec(other.rows()[k as int]),
                        pos.1 as int,
                        false,
                    ));
                    assert(forall|r: int|
                        0 <= r < self.rows().len() && r != dest as int
                            ==> #[trigger] self.rows()[r] == prev.rows()[r]);
                }
            } else {
                self.plane[dest].place(&other.plane[k], pos.1, false);
                proof {
                    assert(self.rows()[dest as int] == place_spec(
                        prev.rows()[dest as int],
                        other.rows()[k as int],
                        pos.1 as int,
                        false,
                    ));
                    assert(forall|r: int|
                        0 <= r < self.rows().len() && r != dest as int
                            ==> #[trigger] self.rows()[r] == prev.rows()[r]);
                }
            }
            k = k + 1;
        }
    }
}

} // verus!
