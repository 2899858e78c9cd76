//! Verified rendering of integers as decimal and hexadecimal text, used by
//! the error messages and by the debug form of a window reference.

use vstd::prelude::*;
use vstd::string::StringExecFns;

verus! {

/// The character for one digit value, in bases up to sixteen.
pub open spec fn digit_char(d: nat) -> char
    recommends
        d < 16,
{
    if d == 0 {
        '0'
    } else if d == 1 {
        '1'
    } else if d == 2 {
        '2'
    } else if d == 3 {
        '3'
    } else if d == 4 {
        '4'
    } else if d == 5 {
        '5'
    } else if d == 6 {
        '6'
    } else if d == 7 {
        '7'
    } else if d == 8 {
        '8'
    } else if d == 9 {
        '9'
    } else if d == 10 {
        'a'
    } else if d == 11 {
        'b'
    } else if d == 12 {
        'c'
    } else if d == 13 {
        'd'
    } else if d == 14 {
        'e'
    } else {
        'f'
    }
}

/// The decimal rendering of `v`, most significant digit first, without
/// leading zeroes (`0` renders as the single character `0`).
pub open spec fn decimal_seq(v: nat) -> Seq<char>
    decreases v,
{
    if v < 10 {
        seq![digit_char(v)]
    } else {
        decimal_seq(v / 10).push(digit_char(v % 10))
    }
}

/// The hexadecimal rendering of `v`, most significant digit first, without
/// leading zeroes and in lower case.
pub open spec fn hex_seq(v: nat) -> Seq<char>
    decreases v,
{
    if v < 16 {
        seq![digit_char(v)]
    } else {
        hex_seq(v / 16).push(digit_char(v % 16))
    }
}

/// The one-character string for one digit value.
fn digit_str(d: usize) -> (r: &'static str)
    requires
        d < 16,
    ensures
        r@ == seq![digit_char(d as nat)],
{
    proof {
        reveal_strlit("0");
        reveal_strlit("1");
        reveal_strlit("2");
        reveal_strlit("3");
        reveal_strlit("4");
        reveal_strlit("5");
        reveal_strlit("6");
        reveal_strlit("7");
        reveal_strlit("8");
        reveal_strlit("9");
        reveal_strlit("a");
        reveal_strlit("b");
        reveal_strlit("c");
        reveal_strlit("d");
        reveal_strlit("e");
        reveal_strlit("f");
    }
    let r = match d {
        0 => "0",
        1 => "1",
        2 => "2",
        3 => "3",
        4 => "4",
        5 => "5",
        6 => "6",
        7 => "7",
        8 => "8",
        9 => "9",
        10 => "a",
        11 => "b",
        12 => "c",
        13 => "d",
        14 => "e",
        _ => "f",
    };
    proof {
        assert(r@ =~= seq![digit_char(d as nat)]);
    }
    r
}

/// Renders `v` in decimal, exactly as `decimal_seq` states it.
pub fn decimal_string(v: usize) -> (s: String)
    ensures
        s@ == decimal_seq(v as nat),
    decreases v,
{
    if v < 10 {
        let s = String::from_str(digit_str(v));
        proof {
            assert(s@ =~= decimal_seq(v as nat));
        }
        s
    } else {
        let mut s = decimal_string(v / 10);
        s.append(digit_str(v % 10));
        proof {
            assert(s@ =~= decimal_seq(v as nat));
        }
        s
    }
}

/// Renders `v` in hexadecimal, exactly as `hex_seq` states it.
pub fn hex_string(v: u64) -> (s: String)
    ensures
        s@ == hex_seq(v as nat),
    decreases v,
{
    if v < 16 {
        let d: usize = (v % 16) as usize;
        let s = String::from_str(digit_str(d));
        proof {
            assert(s@ =~= hex_seq(v as nat));
        }
        s
    } else {
        let mut s = hex_string(v / 16);
        let d: usize = (v % 16) as usize;
        s.append(digit_str(d));
        proof {
            assert(s@ =~= hex_seq(v as nat));
        }
        s
    }
}

} // verus!
