//! Text helpers: decimal rendering of integers, and string comparison,
//! each verified against a character-sequence model.
use vstd::prelude::*;
use vstd::string::StringExecFns;
use vstd::string::StringSliceAdditionalSpecFns;

verus! {

/// The decimal digit character for `d` (meaningful for `d < 10`).
pub open spec fn digit_char(d: nat) -> char {
    if d == 0 {
        '0'
    } else if d == 1 {
        '1'
    } else if d == 2 {
        '2'
    } else if d == 3 {
        '3'
    } else if d == 4 {
        '4'
    } else if d == 5 {
        '5'
    } else if d == 6 {
        '6'
    } else if d == 7 {
        '7'
    } else if d == 8 {
        '8'
    } else {
        '9'
    }
}

/// The decimal rendering of `n`, most significant digit first, with no
/// leading zeroes (a single `'0'` for zero).
pub open spec fn dec_chars(n: nat) -> Seq<char>
    decreases n,
{
    if n < 10 {
        seq![digit_char(n)]
    } else {
        dec_chars(n / 10) + seq![digit_char(n % 10)]
    }
}

/// The decimal rendering of a signed value: a minus sign before the
/// magnitude when negative.
pub open spec fn int_chars(x: int) -> Seq<char> {
    if x < 0 {
        seq!['-'] + dec_chars((-x) as nat)
    } else {
        dec_chars(x as nat)
    }
}

fn digit_str(d: u32) -> (r: &'static str)
    requires
        d < 10,
    ensures
        r@ == seq![digit_char(d as nat)],
{
    if d == 0 {
        proof { reveal_strlit("0"); }
        assert("0"@ =~= seq![digit_char(d as nat)]);
        "0"
    } else if d == 1 {
        proof { reveal_strlit("1"); }
        assert("1"@ =~= seq![digit_char(d as nat)]);
        "1"
    } else if d == 2 {
        proof { reveal_strlit("2"); }
        assert("2"@ =~= seq![digit_char(d as nat)]);
        "2"
    } else if d == 3 {
        proof { reveal_strlit("3"); }
        assert("3"@ =~= seq![digit_char(d as nat)]);
        "3"
    } else if d == 4 {
        proof { reveal_strlit("4"); }
        assert("4"@ =~= seq![digit_char(d as nat)]);
        "4"
    } else if d == 5 {
        proof { reveal_strlit("5"); }
        assert("5"@ =~= seq![digit_char(d as nat)]);
        "5"
    } else if d == 6 {
        proof { reveal_strlit("6"); }
        assert("6"@ =~= seq![digit_char(d as nat)]);
        "6"
    } else if d == 7 {
        proof { reveal_strlit("7"); }
        assert("7"@ =~= seq![digit_char(d as nat)]);
        "7"
    } else if d == 8 {
        proof { reveal_strlit("8"); }
        assert("8"@ =~= seq![digit_char(d as nat)]);
        "8"
    } else {
        proof { reveal_strlit("9"); }
        assert("9"@ =~= seq![digit_char(d as nat)]);
        "9"
    }
}

/// Renders `n` in decimal.
pub fn u32_string(n: u32) -> (r: String)
    ensures
        r@ == dec_chars(n as nat),
    decreases n,
{
    if n < 10 {
        let s = digit_str(n).to_owned();
        s
    } else {
        let mut s = u32_string(n / 10);
        s.append(digit_str(n % 10));
        assert(s@ =~= dec_chars(n as nat));
        s
    }
}

/// Renders `x` in decimal, with a leading minus sign when negative.
pub fn i32_string(x: i32) -> (r: String)
    ensures
        r@ == int_chars(x as int),
{
    if x >= 0 {
        u32_string(x as u32)
    } else {
        let mag: u32 = (-(x as i64)) as u32;
        proof { reveal_strlit("-"); }
        let mut s = String::from_str("-");
        let digits = u32_string(mag);
        s.append(digits.as_str());
        assert(s@ =~= int_chars(x as int));
        s
    }
}

/// Whether two strings hold the same characters.
pub fn str_eq(a: &str, b: &str) -> (r: bool)
    ensures
        r == (a@ == b@),
{
    let ab = a.as_bytes();
    let bb = b.as_bytes();
    let n = ab.len();
    if n != bb.len() {
        return false;
    }
    let mut i: usize = 0;
    while i < n
        invariant
            n == ab@.len() == bb@.len(),
            i <= n,
            ab@ == a.spec_bytes(),
            bb@ == b.spec_bytes(),
            forall|k: int| 0 <= k < i ==> ab@[k] == bb@[k],
        decreases n - i,
    {
        if ab[i] != bb[i] {
            return false;
        }
        i += 1;
    }
    proof {
        assert(a.spec_bytes() =~= b.spec_bytes());
        vstd::utf8::encode_utf8_decode_utf8(a@);
        vstd::utf8::encode_utf8_decode_utf8(b@);
    }
    true
}

} // verus!
