//! Small verified helpers over strings, characters and slices: equality,
//! prefix and membership tests, and decimal rendering of integers.

use vstd::prelude::*;

verus! {

/// True when `s` begins with `p`.
pub open spec fn spec_starts_with(s: Seq<char>, p: Seq<char>) -> bool {
    p.len() <= s.len() && (forall|i: int| 0 <= i < p.len() ==> s[i] == p[i])
}

/// Character-wise equality of two strings.
pub fn str_eq(a: &str, b: &str) -> (r: bool)
    ensures
        r == (a@ == b@),
{
    let alen = a.unicode_len();
    let blen = b.unicode_len();
    if alen != blen {
        return false;
    }
    let mut i: usize = 0;
    while i < alen
        invariant
            0 <= i <= alen,
            alen == a@.len(),
            alen == b@.len(),
            forall|j: int| 0 <= j < i ==> a@[j] == b@[j],
        decreases alen - i,
    {
        if a.get_char(i) != b.get_char(i) {
            return false;
        }
        i = i + 1;
    }
    proof {
        assert(a@ =~= b@);
    }
    true
}

/// True when the string `s` contains the character `c`.
pub fn str_contains_char(s: &str, c: char) -> (r: bool)
    ensures
        r == s@.contains(c),
{
    let len = s.unicode_len();
    let mut i: usize = 0;
    while i < len
        invariant
            0 <= i <= len,
            len == s@.len(),
            forall|j: int| 0 <= j < i ==> s@[j] != c,
        decreases len - i,
    {
        if s.get_char(i) == c {
            return true;
        }
        i = i + 1;
    }
    false
}

/// True when `s` begins with `prefix`.
pub fn str_starts_with(s: &str, prefix: &str) -> (r: bool)
    ensures
        r == spec_starts_with(s@, prefix@),
{
    let slen = s.unicode_len();
    let plen = prefix.unicode_len();
    if plen > slen {
        return false;
    }
    let mut i: usize = 0;
    while i < plen
        invariant
            0 <= i <= plen,
            plen <= slen,
            slen == s@.len(),
            plen == prefix@.len(),
            forall|j: int| 0 <= j < i ==> s@[j] == prefix@[j],
        decreases plen - i,
    {
        if s.get_char(i) != prefix.get_char(i) {
            return false;
        }
        i = i + 1;
    }
    true
}

/// True when the slice contains `x`.
pub fn slice_contains_i32(keys: &[i32], x: i32) -> (r: bool)
    ensures
        r == keys@.contains(x),
{
    let len = keys.len();
    let mut i: usize = 0;
    while i < len
        invariant
            0 <= i <= len,
            len == keys@.len(),
            forall|j: int| 0 <= j < i ==> keys@[j] != x,
        decreases len - i,
    {
        if keys[i] == x {
            return true;
        }
        i = i + 1;
    }
    false
}

/// The decimal digit character for `d` (`d < 10`).
pub open spec fn digit_char(d: nat) -> char {
    if d == 0 {
        '0'
    } else if d == 1 {
        '1'
    } else if d == 2 {
        '2'
    } else if d == 3 {
        '3'
    } else if d == 4 {
        '4'
    } else if d == 5 {
        '5'
    } else if d == 6 {
        '6'
    } else if d == 7 {
        '7'
    } else if d == 8 {
        '8'
    } else {
        '9'
    }
}

/// The decimal representation of a natural number, most significant digit
/// first, with no leading zeros (a single `'0'` for zero).
pub open spec fn spec_dec_nat(n: nat) -> Seq<char>
    decreases n,
{
    if n < 10 {
        seq![digit_char(n)]
    } else {
        spec_dec_nat(n / 10) + seq![digit_char(n % 10)]
    }
}

/// The decimal representation of an integer: a minus sign for negatives,
/// then the digits of the magnitude.
pub open spec fn spec_dec_int(v: int) -> Seq<char> {
    if v < 0 {
        seq!['-'] + spec_dec_nat((-v) as nat)
    } else {
        spec_dec_nat(v as nat)
    }
}

fn digit_str(d: u64) -> (r: &'static str)
    requires
        d < 10,
    ensures
        r@ =~= seq![digit_char(d as nat)],
{
    proof {
        reveal_strlit("0");
        reveal_strlit("1");
        reveal_strlit("2");
        reveal_strlit("3");
        reveal_strlit("4");
        reveal_strlit("5");
        reveal_strlit("6");
        reveal_strlit("7");
        reveal_strlit("8");
        reveal_strlit("9");
    }
    if d == 0 {
        "0"
    } else if d == 1 {
        "1"
    } else if d == 2 {
        "2"
    } else if d == 3 {
        "3"
    } else if d == 4 {
        "4"
    } else if d == 5 {
        "5"
    } else if d == 6 {
        "6"
    } else if d == 7 {
        "7"
    } else if d == 8 {
        "8"
    } else {
        "9"
    }
}

/// Render an unsigned integer in decimal.
pub fn u64_to_dec(n: u64) -> (r: String)
    ensures
        r@ == spec_dec_nat(n as nat),
    decreases n,
{
    if n < 10 {
        String::from_str(digit_str(n))
    } else {
        let mut s = u64_to_dec(n / 10);
        s.append(digit_str(n % 10));
        s
    }
}

/// Render a signed integer in decimal.
pub fn i64_to_dec(v: i64) -> (r: String)
    ensures
        r@ == spec_dec_int(v as int),
{
    if v >= 0 {
        u64_to_dec(v as u64)
    } else {
        let mag: u64 = ((-(v + 1)) as u64) + 1;
        proof {
            assert(mag as int == -(v as int));
            reveal_strlit("-");
        }
        let mut s = String::from_str("-");
        let digits = u64_to_dec(mag);
        s.append(digits.as_str());
        proof {
            assert(s@ =~= spec_dec_int(v as int));
        }
        s
    }
}

/// Render a 32-bit signed integer in decimal.
pub fn i32_to_dec(v: i32) -> (r: String)
    ensures
        r@ == spec_dec_int(v as int),
{
    i64_to_dec(v as i64)
}

/// `s` left-padded with `'0'` characters to at least `w` characters.
pub open spec fn spec_zero_pad(s: Seq<char>, w: nat) -> Seq<char> {
    if s.len() >= w {
        s
    } else {
        Seq::new((w - s.len()) as nat, |i: int| '0') + s
    }
}

/// The fractional-seconds field of a timestamp: the decimal representation
/// of `v`, zero-padded to six characters, with the sign (if any) leading the
/// padding.
pub open spec fn spec_usec_field(v: int) -> Seq<char> {
    if v < 0 {
        seq!['-'] + spec_zero_pad(spec_dec_nat((-v) as nat), 5)
    } else {
        spec_zero_pad(spec_dec_nat(v as nat), 6)
    }
}

fn zero_pad(s: String, w: usize) -> (r: String)
    ensures
        r@ == spec_zero_pad(s@, w as nat),
{
    let len = s.unicode_len();
    if len >= w {
        return s;
    }
    proof {
        reveal_strlit("0");
    }
    let mut r = String::new();
    let mut k: usize = 0;
    let pad = w - len;
    while k < pad
        invariant
            0 <= k <= pad,
            r@ =~= Seq::new(k as nat, |i: int| '0'),
        decreases pad - k,
    {
        r.append("0");
        proof {
            reveal_strlit("0");
            assert(r@ =~= Seq::new((k + 1) as nat, |i: int| '0'));
        }
        k = k + 1;
    }
    r.append(s.as_str());
    proof {
        assert(r@ =~= spec_zero_pad(s@, w as nat));
    }
    r
}

/// Render the fractional-seconds field of a timestamp.
pub fn usec_field(v: i64) -> (r: String)
    ensures
        r@ == spec_usec_field(v as int),
{
    if v >= 0 {
        zero_pad(u64_to_dec(v as u64), 6)
    } else {
        let mag: u64 = ((-(v + 1)) as u64) + 1;
        proof {
            assert(mag as int == -(v as int));
            reveal_strlit("-");
        }
        let mut s = String::from_str("-");
        let padded = zero_pad(u64_to_dec(mag), 5);
        s.append(padded.as_str());
        proof {
            assert(s@ =~= spec_usec_field(v as int));
        }
        s
    }
}

} // verus!
