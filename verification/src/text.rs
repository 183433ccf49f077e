//! Verified text rendering: decimal digits, zero padding, repetition, and
//! the date key used by persistence. Every formatter in the crate is built
//! from these pieces.

use vstd::prelude::*;
use vstd::string::StringExecFns;
use crate::clock::Date;

verus! {

/// The decimal digit character for `d` (meaningful for `0 <= d < 10`).
pub open spec fn digit_char(d: int) -> char {
    if d == 0 {
        '0'
    } else if d == 1 {
        '1'
    } else if d == 2 {
        '2'
    } else if d == 3 {
        '3'
    } else if d == 4 {
        '4'
    } else if d == 5 {
        '5'
    } else if d == 6 {
        '6'
    } else if d == 7 {
        '7'
    } else if d == 8 {
        '8'
    } else {
        '9'
    }
}

/// The decimal digits of `n`, most significant first, without leading
/// zeros (meaningful for `n >= 0`).
pub open spec fn spec_dec(n: int) -> Seq<char>
    decreases n,
{
    if n < 10 {
        seq![digit_char(n)]
    } else {
        spec_dec(n / 10) + seq![digit_char(n % 10)]
    }
}

/// `n` in decimal, zero-padded on the left to at least two digits.
pub open spec fn spec_pad2(n: int) -> Seq<char> {
    if n < 10 {
        seq!['0'] + spec_dec(n)
    } else {
        spec_dec(n)
    }
}

/// `n` in decimal, zero-padded on the left to at least four digits.
pub open spec fn spec_pad4(n: int) -> Seq<char> {
    if n < 10 {
        seq!['0', '0', '0'] + spec_dec(n)
    } else if n < 100 {
        seq!['0', '0'] + spec_dec(n)
    } else if n < 1000 {
        seq!['0'] + spec_dec(n)
    } else {
        spec_dec(n)
    }
}

/// `s` repeated `n` times.
pub open spec fn spec_repeat(s: Seq<char>, n: int) -> Seq<char>
    decreases n,
{
    if n <= 0 {
        Seq::empty()
    } else {
        spec_repeat(s, n - 1) + s
    }
}

/// The text key a date's daily record is stored under: `YYYY-MM-DD`.
pub open spec fn spec_date_key(d: Date) -> Seq<char> {
    spec_pad4(d.year as int) + seq!['-'] + spec_pad2(d.month as int) + seq!['-'] + spec_pad2(
        d.day as int,
    )
}

/// The one-character string for a single decimal digit.
pub fn digit_str(d: u32) -> (r: &'static str)
    requires
        d < 10,
    ensures
        r@ == seq![digit_char(d as int)],
{
    if d == 0 {
        proof {
            reveal_strlit("0");
            assert("0"@ =~= seq![digit_char(0)]);
        }
        "0"
    } else if d == 1 {
        proof {
            reveal_strlit("1");
            assert("1"@ =~= seq![digit_char(1)]);
        }
        "1"
    } else if d == 2 {
        proof {
            reveal_strlit("2");
            assert("2"@ =~= seq![digit_char(2)]);
        }
        "2"
    } else if d == 3 {
        proof {
            reveal_strlit("3");
            assert("3"@ =~= seq![digit_char(3)]);
        }
        "3"
    } else if d == 4 {
        proof {
            reveal_strlit("4");
            assert("4"@ =~= seq![digit_char(4)]);
        }
        "4"
    } else if d == 5 {
        proof {
            reveal_strlit("5");
            assert("5"@ =~= seq![digit_char(5)]);
        }
        "5"
    } else if d == 6 {
        proof {
            reveal_strlit("6");
            assert("6"@ =~= seq![digit_char(6)]);
        }
        "6"
    } else if d == 7 {
        proof {
            reveal_strlit("7");
            assert("7"@ =~= seq![digit_char(7)]);
        }
        "7"
    } else if d == 8 {
        proof {
            reveal_strlit("8");
            assert("8"@ =~= seq![digit_char(8)]);
        }
        "8"
    } else {
        proof {
            reveal_strlit("9");
            assert("9"@ =~= seq![digit_char(9)]);
        }
        "9"
    }
}

/// `n` in decimal, without leading zeros.
pub fn u32_string(n: u32) -> (r: String)
    ensures
        r@ == spec_dec(n as int),
    decreases n,
{
    if n < 10 {
        String::from_str(digit_str(n))
    } else {
        let mut s = u32_string(n / 10);
        s.append(digit_str(n % 10));
        s
    }
}

/// `n` in decimal, zero-padded to at least two digits.
pub fn pad2_string(n: u32) -> (r: String)
    ensures
        r@ == spec_pad2(n as int),
{
    if n < 10 {
        let mut s = String::from_str("0");
        s.append(digit_str(n));
        proof {
            reveal_strlit("0");
            assert(s@ =~= seq!['0'] + spec_dec(n as int));
        }
        s
    } else {
        u32_string(n)
    }
}

/// `n` in decimal, zero-padded to at least four digits.
pub fn pad4_string(n: u32) -> (r: String)
    ensures
        r@ == spec_pad4(n as int),
{
    if n < 10 {
        let mut s = String::from_str("000");
        s.append(digit_str(n));
        proof {
            reveal_strlit("000");
            assert(s@ =~= seq!['0', '0', '0'] + spec_dec(n as int));
        }
        s
    } else if n < 100 {
        let mut s = String::from_str("00");
        let t = u32_string(n);
        s.append(t.as_str());
        proof {
            reveal_strlit("00");
            assert(s@ =~= seq!['0', '0'] + spec_dec(n as int));
        }
        s
    } else if n < 1000 {
        let mut s = String::from_str("0");
        let t = u32_string(n);
        s.append(t.as_str());
        proof {
            reveal_strlit("0");
            assert(s@ =~= seq!['0'] + spec_dec(n as int));
        }
        s
    } else {
        u32_string(n)
    }
}

/// `part` repeated `n` times.
pub fn repeat_str(part: &str, n: usize) -> (r: String)
    ensures
        r@ == spec_repeat(part@, n as int),
{
    let mut r = String::new();
    let mut i: usize = 0;
    while i < n
        invariant
            i <= n,
            r@ == spec_repeat(part@, i as int),
        decreases n - i,
    {
        r.append(part);
        i = i + 1;
    }
    r
}

/// The text key a date's daily record is stored under: `YYYY-MM-DD`.
pub fn date_key(d: &Date) -> (r: String)
    ensures
        r@ == spec_date_key(*d),
{
    let mut s = pad4_string(d.year);
    s.append("-");
    let m = pad2_string(d.month);
    s.append(m.as_str());
    s.append("-");
    let dd = pad2_string(d.day);
    s.append(dd.as_str());
    proof {
        reveal_strlit("-");
        assert(s@ =~= spec_date_key(*d));
    }
    s
}

} // verus!
