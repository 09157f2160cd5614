//! Verified decimal rendering of unsigned integers: plain digit strings,
//! zero-padded fields, and comma-grouped thousands.

use vstd::prelude::*;
use vstd::string::*;

verus! {

/// The character for a single decimal digit value.
pub open spec fn digit_char(d: nat) -> char
    recommends
        d < 10,
{
    if d == 0 {
        '0'
    } else if d == 1 {
        '1'
    } else if d == 2 {
        '2'
    } else if d == 3 {
        '3'
    } else if d == 4 {
        '4'
    } else if d == 5 {
        '5'
    } else if d == 6 {
        '6'
    } else if d == 7 {
        '7'
    } else if d == 8 {
        '8'
    } else {
        '9'
    }
}

/// The decimal representation of `n`, most significant digit first, with no
/// leading zeros (a single zero for `n == 0`).
pub open spec fn dec_str(n: nat) -> Seq<char>
    decreases n,
{
    if n < 10 {
        seq![digit_char(n)]
    } else {
        dec_str(n / 10) + seq![digit_char(n % 10)]
    }
}

/// The decimal representation of `n`, left-padded with zeros to at least
/// `width` characters.
pub open spec fn padded_dec_str(n: nat, width: nat) -> Seq<char> {
    if dec_str(n).len() >= width {
        dec_str(n)
    } else {
        Seq::new((width - dec_str(n).len()) as nat, |i: int| '0') + dec_str(n)
    }
}

/// The decimal representation of `n` with a comma between each group of three
/// digits, counted from the least significant end.
pub open spec fn grouped_dec_str(n: nat) -> Seq<char>
    decreases n,
{
    if n < 1000 {
        dec_str(n)
    } else {
        grouped_dec_str(n / 1000) + seq![','] + padded_dec_str(n % 1000, 3)
    }
}

fn digit_str(d: u64) -> (r: &'static str)
    requires
        d < 10,
    ensures
        r@ == seq![digit_char(d as nat)],
{
    proof {
        reveal_strlit("0");
        reveal_strlit("1");
        reveal_strlit("2");
        reveal_strlit("3");
        reveal_strlit("4");
        reveal_strlit("5");
        reveal_strlit("6");
        reveal_strlit("7");
        reveal_strlit("8");
        reveal_strlit("9");
        assert("0"@ =~= seq!['0']);
        assert("1"@ =~= seq!['1']);
        assert("2"@ =~= seq!['2']);
        assert("3"@ =~= seq!['3']);
        assert("4"@ =~= seq!['4']);
        assert("5"@ =~= seq!['5']);
        assert("6"@ =~= seq!['6']);
        assert("7"@ =~= seq!['7']);
        assert("8"@ =~= seq!['8']);
        assert("9"@ =~= seq!['9']);
    }
    match d {
        0 => "0",
        1 => "1",
        2 => "2",
        3 => "3",
        4 => "4",
        5 => "5",
        6 => "6",
        7 => "7",
        8 => "8",
        _ => "9",
    }
}

/// Render `n` in decimal.
pub fn u64_to_string(n: u64) -> (r: String)
    ensures
        r@ == dec_str(n as nat),
    decreases n,
{
    if n < 10 {
        String::from_str(digit_str(n))
    } else {
        let mut s = u64_to_string(n / 10);
        s.append(digit_str(n % 10));
        s
    }
}

/// Render `n` in decimal, left-padded with zeros to at least `width`
/// characters.
pub fn u64_to_padded_string(n: u64, width: usize) -> (r: String)
    ensures
        r@ == padded_dec_str(n as nat, width as nat),
{
    let mut s = u64_to_string(n);
    let ghost d = dec_str(n as nat);
    while s.unicode_len() < width
        invariant
            s@.len() >= d.len(),
            s@ =~= Seq::new((s@.len() - d.len()) as nat, |i: int| '0') + d,
            d == dec_str(n as nat),
            s@.len() <= width || s@.len() == d.len(),
        decreases width - s@.len(),
    {
        let mut t = String::from_str("0");
        proof {
            reveal_strlit("0");
            assert("0"@ =~= seq!['0']);
        }
        t.append(s.as_str());
        proof {
            assert(t@ =~= Seq::new((s@.len() + 1 - d.len()) as nat, |i: int| '0') + d);
        }
        s = t;
    }
    proof {
        if d.len() >= width {
            assert(s@ =~= d);
        }
    }
    s
}

/// Render `n` in decimal with comma-grouped thousands.
pub fn u64_to_grouped_string(n: u64) -> (r: String)
    ensures
        r@ == grouped_dec_str(n as nat),
    decreases n,
{
    if n < 1000 {
        u64_to_string(n)
    } else {
        let mut s = u64_to_grouped_string(n / 1000);
        s.append(",");
        let tail = u64_to_padded_string(n % 1000, 3);
        s.append(tail.as_str());
        proof {
            reveal_strlit(",");
            assert(","@ =~= seq![',']);
        }
        s
    }
}

} // verus!
