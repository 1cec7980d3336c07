//! Text-decoration flags (bold, faint, italic, ...) with their SGR
//! set/reset code pairs, set-union semantics, and name lookup.

use vstd::prelude::*;
use vstd::string::StrSliceExecFns;
use vstd::string::StringExecFns;

verus! {

/// One of the eight text-decoration flags, in canonical order.
#[derive(Clone, Copy, PartialEq, Eq, Structural, Debug)]
pub enum AnsiGraphicMode {
    Bold,
    Faint,
    Italic,
    Underline,
    Blinking,
    Reverse,
    Hidden,
    Strike,
}

/// A set of text-decoration flags.
#[derive(Clone, Copy, PartialEq, Eq, Structural, Debug)]
pub struct AnsiGraphics {
    pub bold: bool,
    pub faint: bool,
    pub italic: bool,
    pub underline: bool,
    pub blinking: bool,
    pub reverse: bool,
    pub hidden: bool,
    pub strike: bool,
}

/// The empty flag set.
pub open spec fn empty_graphics() -> AnsiGraphics {
    AnsiGraphics {
        bold: false,
        faint: false,
        italic: false,
        underline: false,
        blinking: false,
        reverse: false,
        hidden: false,
        strike: false,
    }
}

/// The set holding exactly one flag.
pub open spec fn single_graphics(m: AnsiGraphicMode) -> AnsiGraphics {
    AnsiGraphics {
        bold: m is Bold,
        faint: m is Faint,
        italic: m is Italic,
        underline: m is Underline,
        blinking: m is Blinking,
        reverse: m is Reverse,
        hidden: m is Hidden,
        strike: m is Strike,
    }
}

/// The union of two flag sets.
pub open spec fn union_graphics(a: AnsiGraphics, b: AnsiGraphics) -> AnsiGraphics {
    AnsiGraphics {
        bold: a.bold || b.bold,
        faint: a.faint || b.faint,
        italic: a.italic || b.italic,
        underline: a.underline || b.underline,
        blinking: a.blinking || b.blinking,
        reverse: a.reverse || b.reverse,
        hidden: a.hidden || b.hidden,
        strike: a.strike || b.strike,
    }
}

/// The escape sequence that switches one flag on.
pub open spec fn mode_set_seq(m: AnsiGraphicMode) -> Seq<char> {
    match m {
        AnsiGraphicMode::Bold => seq!['\x1b', '[', '1', 'm'],
        AnsiGraphicMode::Faint => seq!['\x1b', '[', '2', 'm'],
        AnsiGraphicMode::Italic => seq!['\x1b', '[', '3', 'm'],
        AnsiGraphicMode::Underline => seq!['\x1b', '[', '4', 'm'],
        AnsiGraphicMode::Blinking => seq!['\x1b', '[', '5', 'm'],
        AnsiGraphicMode::Reverse => seq!['\x1b', '[', '7', 'm'],
        AnsiGraphicMode::Hidden => seq!['\x1b', '[', '8', 'm'],
        AnsiGraphicMode::Strike => seq!['\x1b', '[', '9', 'm'],
    }
}

/// The escape sequence that switches one flag off again.
pub open spec fn mode_reset_seq(m: AnsiGraphicMode) -> Seq<char> {
    match m {
        AnsiGraphicMode::Bold => seq!['\x1b', '[', '2', '2', 'm'],
        AnsiGraphicMode::Faint => seq!['\x1b', '[', '2', '2', 'm'],
        AnsiGraphicMode::Italic => seq!['\x1b', '[', '2', '3', 'm'],
        AnsiGraphicMode::Underline => seq!['\x1b', '[', '2', '4', 'm'],
        AnsiGraphicMode::Blinking => seq!['\x1b', '[', '2', '5', 'm'],
        AnsiGraphicMode::Reverse => seq!['\x1b', '[', '2', '7', 'm'],
        AnsiGraphicMode::Hidden => seq!['\x1b', '[', '2', '8', 'm'],
        AnsiGraphicMode::Strike => seq!['\x1b', '[', '2', '9', 'm'],
    }
}

/// The set or reset sequence of one flag, by the `reset` switch.
pub open spec fn mode_code_seq(m: AnsiGraphicMode, reset: bool) -> Seq<char> {
    if reset {
        mode_reset_seq(m)
    } else {
        mode_set_seq(m)
    }
}

/// The concatenation, in canonical flag order, of each active flag's set
/// (or reset) sequence.
pub open spec fn graphics_seq(g: AnsiGraphics, reset: bool) -> Seq<char> {
    (if g.bold {
        mode_code_seq(AnsiGraphicMode::Bold, reset)
    } else {
        Seq::empty()
    }) + (if g.faint {
        mode_code_seq(AnsiGraphicMode::Faint, reset)
    } else {
        Seq::empty()
    }) + (if g.italic {
        mode_code_seq(AnsiGraphicMode::Italic, reset)
    } else {
        Seq::empty()
    }) + (if g.underline {
        mode_code_seq(AnsiGraphicMode::Underline, reset)
    } else {
        Seq::empty()
    }) + (if g.blinking {
        mode_code_seq(AnsiGraphicMode::Blinking, reset)
    } else {
        Seq::empty()
    }) + (if g.reverse {
        mode_code_seq(AnsiGraphicMode::Reverse, reset)
    } else {
        Seq::empty()
    }) + (if g.hidden {
        mode_code_seq(AnsiGraphicMode::Hidden, reset)
    } else {
        Seq::empty()
    }) + (if g.strike {
        mode_code_seq(AnsiGraphicMode::Strike, reset)
    } else {
        Seq::empty()
    })
}

/// ASCII upper-case folding of one character; anything outside `a..z` is
/// left unchanged.
pub open spec fn ascii_upper_char(c: char) -> char {
    if c == 'a' {
        'A'
    } else if c == 'b' {
        'B'
    } else if c == 'c' {
        'C'
    } else if c == 'd' {
        'D'
    } else if c == 'e' {
        'E'
    } else if c == 'f' {
        'F'
    } else if c == 'g' {
        'G'
    } else if c == 'h' {
        'H'
    } else if c == 'i' {
        'I'
    } else if c == 'j' {
        'J'
    } else if c == 'k' {
        'K'
    } else if c == 'l' {
        'L'
    } else if c == 'm' {
        'M'
    } else if c == 'n' {
        'N'
    } else if c == 'o' {
        'O'
    } else if c == 'p' {
        'P'
    } else if c == 'q' {
        'Q'
    } else if c == 'r' {
        'R'
    } else if c == 's' {
        'S'
    } else if c == 't' {
        'T'
    } else if c == 'u' {
        'U'
    } else if c == 'v' {
        'V'
    } else if c == 'w' {
        'W'
    } else if c == 'x' {
        'X'
    } else if c == 'y' {
        'Y'
    } else if c == 'z' {
        'Z'
    } else {
        c
    }
}

/// Whether `s`, upper-case folded, spells `target`.
pub open spec fn upper_eq(s: Seq<char>, target: Seq<char>) -> bool {
    s.len() == target.len() && (forall|i: int|
        0 <= i < s.len() ==> ascii_upper_char(s[i]) == target[i])
}

/// The canonical upper-case name of one flag.
pub open spec fn mode_name_seq(m: AnsiGraphicMode) -> Seq<char> {
    match m {
        AnsiGraphicMode::Bold => seq!['B', 'O', 'L', 'D'],
        AnsiGraphicMode::Faint => seq!['F', 'A', 'I', 'N', 'T'],
        AnsiGraphicMode::Italic => seq!['I', 'T', 'A', 'L', 'I', 'C'],
        AnsiGraphicMode::Underline => seq!['U', 'N', 'D', 'E', 'R', 'L', 'I', 'N', 'E'],
        AnsiGraphicMode::Blinking => seq!['B', 'L', 'I', 'N', 'K', 'I', 'N', 'G'],
        AnsiGraphicMode::Reverse => seq!['R', 'E', 'V', 'E', 'R', 'S', 'E'],
        AnsiGraphicMode::Hidden => seq!['H', 'I', 'D', 'D', 'E', 'N'],
        AnsiGraphicMode::Strike => seq!['S', 'T', 'R', 'I', 'K', 'E'],
    }
}

/// The flag whose name `s` spells, ignoring ASCII case; `None` outside the
/// fixed eight-member table.
pub open spec fn parse_mode_name(s: Seq<char>) -> Option<AnsiGraphicMode> {
    if upper_eq(s, mode_name_seq(AnsiGraphicMode::Bold)) {
        Some(AnsiGraphicMode::Bold)
    } else if upper_eq(s, mode_name_seq(AnsiGraphicMode::Faint)) {
        Some(AnsiGraphicMode::Faint)
    } else if upper_eq(s, mode_name_seq(AnsiGraphicMode::Italic)) {
        Some(AnsiGraphicMode::Italic)
    } else if upper_eq(s, mode_name_seq(AnsiGraphicMode::Underline)) {
        Some(AnsiGraphicMode::Underline)
    } else if upper_eq(s, mode_name_seq(AnsiGraphicMode::Blinking)) {
        Some(AnsiGraphicMode::Blinking)
    } else if upper_eq(s, mode_name_seq(AnsiGraphicMode::Reverse)) {
        Some(AnsiGraphicMode::Reverse)
    } else if upper_eq(s, mode_name_seq(AnsiGraphicMode::Hidden)) {
        Some(AnsiGraphicMode::Hidden)
    } else if upper_eq(s, mode_name_seq(AnsiGraphicMode::Strike)) {
        Some(AnsiGraphicMode::Strike)
    } else {
        None
    }
}

fn ascii_upper(c: char) -> (r: char)
    ensures
        r == ascii_upper_char(c),
{
    match c {
        'a' => 'A',
        'b' => 'B',
        'c' => 'C',
        'd' => 'D',
        'e' => 'E',
        'f' => 'F',
        'g' => 'G',
        'h' => 'H',
        'i' => 'I',
        'j' => 'J',
        'k' => 'K',
        'l' => 'L',
        'm' => 'M',
        'n' => 'N',
        'o' => 'O',
        'p' => 'P',
        'q' => 'Q',
        'r' => 'R',
        's' => 'S',
        't' => 'T',
        'u' => 'U',
        'v' => 'V',
        'w' => 'W',
        'x' => 'X',
        'y' => 'Y',
        'z' => 'Z',
        _ => c,
    }
}

fn eq_name_ci(name: &str, target: &str) -> (r: bool)
    ensures
        r == upper_eq(name@, target@),
{
    let n = name.unicode_len();
    if n != target.unicode_len() {
        return false;
    }
    let mut i: usize = 0;
    while i < n
        invariant
            i <= n,
            n == name@.len(),
            n == target@.len(),
            forall|j: int| 0 <= j < i ==> ascii_upper_char(name@[j]) == target@[j],
        decreases n - i,
    {
        if ascii_upper(name.get_char(i)) != target.get_char(i) {
            return false;
        }
        i = i + 1;
    }
    true
}

/// Union is commutative, associative, and idempotent: the algebra of a set.
pub proof fn lemma_union_graphics_idempotent(a: AnsiGraphics, b: AnsiGraphics)
    ensures
        union_graphics(union_graphics(a, b), b) == union_graphics(a, b),
        union_graphics(a, b) == union_graphics(b, a),
        union_graphics(a, a) == a,
{
}

fn mode_code_str(m: AnsiGraphicMode, reset: bool) -> (r: &'static str)
    ensures
        r@ == mode_code_seq(m, reset),
{
    proof {
        reveal_strlit("\x1b[1m");
        reveal_strlit("\x1b[2m");
        reveal_strlit("\x1b[3m");
        reveal_strlit("\x1b[4m");
        reveal_strlit("\x1b[5m");
        reveal_strlit("\x1b[7m");
        reveal_strlit("\x1b[8m");
        reveal_strlit("\x1b[9m");
        reveal_strlit("\x1b[22m");
        reveal_strlit("\x1b[23m");
        reveal_strlit("\x1b[24m");
        reveal_strlit("\x1b[25m");
        reveal_strlit("\x1b[27m");
        reveal_strlit("\x1b[28m");
        reveal_strlit("\x1b[29m");
    }
    let r = if reset {
        match m {
            AnsiGraphicMode::Bold => "\x1b[22m",
            AnsiGraphicMode::Faint => "\x1b[22m",
            AnsiGraphicMode::Italic => "\x1b[23m",
            AnsiGraphicMode::Underline => "\x1b[24m",
            AnsiGraphicMode::Blinking => "\x1b[25m",
            AnsiGraphicMode::Reverse => "\x1b[27m",
            AnsiGraphicMode::Hidden => "\x1b[28m",
            AnsiGraphicMode::Strike => "\x1b[29m",
        }
    } else {
        match m {
            AnsiGraphicMode::Bold => "\x1b[1m",
            AnsiGraphicMode::Faint => "\x1b[2m",
            AnsiGraphicMode::Italic => "\x1b[3m",
            AnsiGraphicMode::Underline => "\x1b[4m",
            AnsiGraphicMode::Blinking => "\x1b[5m",
            AnsiGraphicMode::Reverse => "\x1b[7m",
            AnsiGraphicMode::Hidden => "\x1b[8m",
            AnsiGraphicMode::Strike => "\x1b[9m",
        }
    };
    proof {
        assert(r@ =~= mode_code_seq(m, reset));
    }
    r
}

impl AnsiGraphics {
    /// The empty flag set.
    pub fn new() -> (r: Self)
        ensures
            r == empty_graphics(),
    {
        AnsiGraphics {
            bold: false,
            faint: false,
            italic: false,
            underline: false,
            blinking: false,
            reverse: false,
            hidden: false,
            strike: false,
        }
    }

    /// The set holding exactly the given flag.
    pub fn from_mode(m: AnsiGraphicMode) -> (r: Self)
        ensures
            r == single_graphics(m),
    {
        let mut g = AnsiGraphics::new();
        match m {
            AnsiGraphicMode::Bold => g.bold = true,
            AnsiGraphicMode::Faint => g.faint = true,
            AnsiGraphicMode::Italic => g.italic = true,
            AnsiGraphicMode::Underline => g.underline = true,
            AnsiGraphicMode::Blinking => g.blinking = true,
            AnsiGraphicMode::Reverse => g.reverse = true,
            AnsiGraphicMode::Hidden => g.hidden = true,
            AnsiGraphicMode::Strike => g.strike = true,
        }
        g
    }

    /// Decodes a flag set from its bit-mask form, one bit per flag in
    /// canonical order starting at the least significant bit.
    pub fn from_bits(bits: u8) -> (r: Self)
        ensures
            r.bold == ((bits & 0x01) != 0),
            r.faint == ((bits & 0x02) != 0),
            r.italic == ((bits & 0x04) != 0),
            r.underline == ((bits & 0x08) != 0),
            r.blinking == ((bits & 0x10) != 0),
            r.reverse == ((bits & 0x20) != 0),
            r.hidden == ((bits & 0x40) != 0),
            r.strike == ((bits & 0x80) != 0),
    {
        AnsiGraphics {
            bold: (bits & 0x01) != 0,
            faint: (bits & 0x02) != 0,
            italic: (bits & 0x04) != 0,
            underline: (bits & 0x08) != 0,
            blinking: (bits & 0x10) != 0,
            reverse: (bits & 0x20) != 0,
            hidden: (bits & 0x40) != 0,
            strike: (bits & 0x80) != 0,
        }
    }

    /// Whether the set holds the given flag.
    pub fn contains(&self, m: AnsiGraphicMode) -> (r: bool)
        ensures
            r == (union_graphics(*self, single_graphics(m)) == *self),
    {
        let r = match m {
            AnsiGraphicMode::Bold => self.bold,
            AnsiGraphicMode::Faint => self.faint,
            AnsiGraphicMode::Italic => self.italic,
            AnsiGraphicMode::Underline => self.underline,
            AnsiGraphicMode::Blinking => self.blinking,
            AnsiGraphicMode::Reverse => self.reverse,
            AnsiGraphicMode::Hidden => self.hidden,
            AnsiGraphicMode::Strike => self.strike,
        };
        r
    }

    /// The union of this set with another.
    pub fn union(&self, other: &Self) -> (r: Self)
        ensures
            r == union_graphics(*self, *other),
    {
        AnsiGraphics {
            bold: self.bold || other.bold,
            faint: self.faint || other.faint,
            italic: self.italic || other.italic,
            underline: self.underline || other.underline,
            blinking: self.blinking || other.blinking,
            reverse: self.reverse || other.reverse,
            hidden: self.hidden || other.hidden,
            strike: self.strike || other.strike,
        }
    }

    /// Inserts one flag (idempotent).
    pub fn add_mode(&self, m: AnsiGraphicMode) -> (r: Self)
        ensures
            r == union_graphics(*self, single_graphics(m)),
    {
        self.union(&AnsiGraphics::from_mode(m))
    }

    /// Looks up a flag by name, ignoring ASCII case, and returns its set
    /// code (`reset == false`) or reset code (`reset == true`). Names
    /// outside the fixed eight-member table are a caller contract violation.
    pub fn get_mode(name: &str, reset: bool) -> (r: &'static str)
        requires
            parse_mode_name(name@) is Some,
        ensures
            r@ == mode_code_seq(parse_mode_name(name@)->0, reset),
    {
        proof {
            reveal_strlit("BOLD");
            reveal_strlit("FAINT");
            reveal_strlit("ITALIC");
            reveal_strlit("UNDERLINE");
            reveal_strlit("BLINKING");
            reveal_strlit("REVERSE");
            reveal_strlit("HIDDEN");
            reveal_strlit("STRIKE");
            assert("BOLD"@ =~= mode_name_seq(AnsiGraphicMode::Bold));
            assert("FAINT"@ =~= mode_name_seq(AnsiGraphicMode::Faint));
            assert("ITALIC"@ =~= mode_name_seq(AnsiGraphicMode::Italic));
            assert("UNDERLINE"@ =~= mode_name_seq(AnsiGraphicMode::Underline));
            assert("BLINKING"@ =~= mode_name_seq(AnsiGraphicMode::Blinking));
            assert("REVERSE"@ =~= mode_name_seq(AnsiGraphicMode::Reverse));
            assert("HIDDEN"@ =~= mode_name_seq(AnsiGraphicMode::Hidden));
            assert("STRIKE"@ =~= mode_name_seq(AnsiGraphicMode::Strike));
        }
        if eq_name_ci(name, "BOLD") {
            mode_code_str(AnsiGraphicMode::Bold, reset)
        } else if eq_name_ci(name, "FAINT") {
            mode_code_str(AnsiGraphicMode::Faint, reset)
        } else if eq_name_ci(name, "ITALIC") {
            mode_code_str(AnsiGraphicMode::Italic, reset)
        } else if eq_name_ci(name, "UNDERLINE") {
            mode_code_str(AnsiGraphicMode::Underline, reset)
        } else if eq_name_ci(name, "BLINKING") {
            mode_code_str(AnsiGraphicMode::Blinking, reset)
        } else if eq_name_ci(name, "REVERSE") {
            mode_code_str(AnsiGraphicMode::Reverse, reset)
        } else if eq_name_ci(name, "HIDDEN") {
            mode_code_str(AnsiGraphicMode::Hidden, reset)
        } else {
            let r = mode_code_str(AnsiGraphicMode::Strike, reset);
            proof {
                assert(upper_eq(name@, mode_name_seq(AnsiGraphicMode::Strike)));
            }
            r
        }
    }

    /// Concatenates, in canonical flag order, each active flag's set code
    /// (`reset == false`) or reset code (`reset == true`).
    pub fn to_string(&self, reset: bool) -> (r: String)
        ensures
            r@ == graphics_seq(*self, reset),
    {
        let mut s = String::new();
        if self.bold {
            s.append(mode_code_str(AnsiGraphicMode::Bold, reset));
        }
        if self.faint {
            s.append(mode_code_str(AnsiGraphicMode::Faint, reset));
        }
        if self.italic {
            s.append(mode_code_str(AnsiGraphicMode::Italic, reset));
        }
        if self.underline {
            s.append(mode_code_str(AnsiGraphicMode::Underline, reset));
        }
        if self.blinking {
            s.append(mode_code_str(AnsiGraphicMode::Blinking, reset));
        }
        if self.reverse {
            s.append(mode_code_str(AnsiGraphicMode::Reverse, reset));
        }
        if self.hidden {
            s.append(mode_code_str(AnsiGraphicMode::Hidden, reset));
        }
        if self.strike {
            s.append(mode_code_str(AnsiGraphicMode::Strike, reset));
        }
        proof {
            assert(s@ =~= graphics_seq(*self, reset));
        }
        s
    }
}

} // verus!
