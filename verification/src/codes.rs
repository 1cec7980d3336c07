//! Shared building blocks for emitting ANSI escape text: the full reset
//! sequence, decimal rendering of channel values, and a char-append helper.

use vstd::prelude::*;
use vstd::string::StringExecFns;

verus! {

/// The full SGR reset sequence `ESC[0m`.
pub open spec fn reset_seq() -> Seq<char> {
    seq!['\x1b', '[', '0', 'm']
}

/// The decimal digit character for a value in `[0, 10)`.
pub open spec fn digit_char(d: int) -> char {
    if d == 0 {
        '0'
    } else if d == 1 {
        '1'
    } else if d == 2 {
        '2'
    } else if d == 3 {
        '3'
    } else if d == 4 {
        '4'
    } else if d == 5 {
        '5'
    } else if d == 6 {
        '6'
    } else if d == 7 {
        '7'
    } else if d == 8 {
        '8'
    } else {
        '9'
    }
}

/// The decimal rendering of a non-negative integer, without leading zeros.
pub open spec fn dec_seq(n: int) -> Seq<char>
    decreases n,
{
    if n < 10 {
        seq![digit_char(n)]
    } else {
        dec_seq(n / 10).push(digit_char(n % 10))
    }
}

/// Relies on `String::push`: appends the given character to the end of the string.
#[verifier::external_body]
pub fn push_char(s: &mut String, c: char)
    ensures
        final(s)@ == old(s)@.push(c),
{
    s.push(c);
}

fn digit_str(d: u8) -> (r: &'static str)
    requires
        d < 10,
    ensures
        r@ == seq![digit_char(d as int)],
{
    proof {
        reveal_strlit("0");
        reveal_strlit("1");
        reveal_strlit("2");
        reveal_strlit("3");
        reveal_strlit("4");
        reveal_strlit("5");
        reveal_strlit("6");
        reveal_strlit("7");
        reveal_strlit("8");
        reveal_strlit("9");
    }
    let r = match d {
        0 => "0",
        1 => "1",
        2 => "2",
        3 => "3",
        4 => "4",
        5 => "5",
        6 => "6",
        7 => "7",
        8 => "8",
        _ => "9",
    };
    proof {
        assert(r@ =~= seq![digit_char(d as int)]);
    }
    r
}

/// Appends the decimal rendering of `n` to `s`.
pub fn push_dec_u8(s: &mut String, n: u8)
    ensures
        final(s)@ == old(s)@ + dec_seq(n as int),
{
    let d2: u8 = n / 10;
    let d1: u8 = d2 / 10;
    if n >= 100 {
        s.append(digit_str(d1));
    }
    if n >= 10 {
        s.append(digit_str(d2 % 10));
    }
    s.append(digit_str(n % 10));
    proof {
        let ni = n as int;
        if n >= 10 {
            assert(dec_seq(ni) == dec_seq(ni / 10).push(digit_char(ni % 10)));
            if n >= 100 {
                assert(dec_seq(ni / 10) == dec_seq(ni / 10 / 10).push(
                    digit_char((ni / 10) % 10),
                ));
                assert(dec_seq(ni / 10 / 10) == seq![digit_char(ni / 10 / 10)]);
            } else {
                assert(dec_seq(ni / 10) == seq![digit_char(ni / 10)]);
            }
        }
        assert(s@ =~= old(s)@ + dec_seq(ni));
    }
}

} // verus!
