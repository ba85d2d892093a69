//! Canonical decimal rendering of unsigned big integers carried as
//! big-endian byte strings.
//!
//! The snarkjs interchange format requires every field element to appear as
//! its minimal unsigned base-10 digit string, so this module is the
//! correctness core of the crate: [`dec_str`] is the mathematical definition
//! of that digit string, and [`dec_of_bytes`] is the executable renderer,
//! proved to produce exactly `dec_str` of the byte string's integer value.

use vstd::prelude::*;
use vstd::string::*;

verus! {

/// The unsigned integer value of a big-endian byte string.
pub open spec fn bytes_value(b: Seq<u8>) -> nat
    decreases b.len(),
{
    if b.len() == 0 {
        0
    } else {
        bytes_value(b.drop_last()) * 256 + (b.last() as nat)
    }
}

/// The character for a single decimal digit.
pub open spec fn digit_char(d: nat) -> char {
    if d == 0 {
        '0'
    } else if d == 1 {
        '1'
    } else if d == 2 {
        '2'
    } else if d == 3 {
        '3'
    } else if d == 4 {
        '4'
    } else if d == 5 {
        '5'
    } else if d == 6 {
        '6'
    } else if d == 7 {
        '7'
    } else if d == 8 {
        '8'
    } else {
        '9'
    }
}

/// The numeric value of a decimal digit character; 10 for any other character.
pub open spec fn digit_val(c: char) -> nat {
    if c == '0' {
        0
    } else if c == '1' {
        1
    } else if c == '2' {
        2
    } else if c == '3' {
        3
    } else if c == '4' {
        4
    } else if c == '5' {
        5
    } else if c == '6' {
        6
    } else if c == '7' {
        7
    } else if c == '8' {
        8
    } else if c == '9' {
        9
    } else {
        10
    }
}

/// Whether a character is a decimal digit.
pub open spec fn is_dec_digit(c: char) -> bool {
    digit_val(c) < 10
}

/// The canonical decimal rendering of a natural number: minimal length,
/// no sign, no leading zero, `"0"` for zero.
pub open spec fn dec_str(n: nat) -> Seq<char>
    decreases n,
{
    if n < 10 {
        seq![digit_char(n)]
    } else {
        dec_str(n / 10).push(digit_char(n % 10))
    }
}

/// The natural number denoted by a string of decimal digits
/// (most significant first; the empty string denotes zero).
pub open spec fn parse_dec(s: Seq<char>) -> nat
    decreases s.len(),
{
    if s.len() == 0 {
        0
    } else {
        parse_dec(s.drop_last()) * 10 + digit_val(s.last())
    }
}

/// A decimal digit's character denotes that digit.
pub proof fn lemma_digit_char_val(d: nat)
    requires
        d < 10,
    ensures
        digit_val(digit_char(d)) == d,
        is_dec_digit(digit_char(d)),
{
}

/// Round trip: parsing the canonical decimal rendering of `n` gives back `n`.
pub proof fn lemma_dec_str_round_trip(n: nat)
    ensures
        parse_dec(dec_str(n)) == n,
    decreases n,
{
    if n < 10 {
        lemma_digit_char_val(n);
        assert(parse_dec(Seq::<char>::empty()) == 0);
        assert(dec_str(n).drop_last() =~= Seq::<char>::empty());
        assert(dec_str(n).last() == digit_char(n));
    } else {
        lemma_dec_str_round_trip(n / 10);
        lemma_digit_char_val(n % 10);
        assert(dec_str(n).drop_last() =~= dec_str(n / 10));
        assert(dec_str(n).last() == digit_char(n % 10));
        vstd::arithmetic::div_mod::lemma_fundamental_div_mod(n as int, 10);
    }
}

/// The canonical decimal rendering is injective.
pub proof fn lemma_dec_str_injective(a: nat, b: nat)
    ensures
        dec_str(a) == dec_str(b) ==> a == b,
{
    if dec_str(a) == dec_str(b) {
        lemma_dec_str_round_trip(a);
        lemma_dec_str_round_trip(b);
    }
}

/// Every character of the canonical decimal rendering is a decimal digit;
/// in particular no sign character ever appears.
pub proof fn lemma_dec_str_digits(n: nat)
    ensures
        forall|i: int| 0 <= i < dec_str(n).len() ==> is_dec_digit(#[trigger] dec_str(n)[i]),
    decreases n,
{
    if n < 10 {
        lemma_digit_char_val(n);
        assert forall|i: int| 0 <= i < dec_str(n).len() implies is_dec_digit(
            #[trigger] dec_str(n)[i],
        ) by {
            assert(dec_str(n)[i] == digit_char(n));
        }
    } else {
        lemma_dec_str_digits(n / 10);
        lemma_digit_char_val(n % 10);
        assert forall|i: int| 0 <= i < dec_str(n).len() implies is_dec_digit(
            #[trigger] dec_str(n)[i],
        ) by {
            if i < dec_str(n).len() - 1 {
                assert(dec_str(n)[i] == dec_str(n / 10)[i]);
                assert(is_dec_digit(dec_str(n / 10)[i]));
            } else {
                assert(dec_str(n)[i] == digit_char(n % 10));
            }
        }
    }
}

/// Format of the canonical decimal rendering: it is never empty, it is
/// exactly `"0"` for zero, and it never starts with a zero digit otherwise.
pub proof fn lemma_dec_str_format(n: nat)
    ensures
        dec_str(n).len() >= 1,
        n == 0 ==> dec_str(n) == seq!['0'],
        n > 0 ==> dec_str(n)[0] != '0',
        n < 10 ==> dec_str(n).len() == 1,
    decreases n,
{
    if n >= 10 {
        lemma_dec_str_format(n / 10);
        assert(dec_str(n)[0] == dec_str(n / 10)[0]);
    }
}

/// A canonical decimal string: nonempty, decimal digits only (hence no sign
/// or separator characters), and no leading zero unless it is exactly "0".
pub open spec fn is_decimal(s: Seq<char>) -> bool {
    &&& s.len() >= 1
    &&& forall|i: int| 0 <= i < s.len() ==> is_dec_digit(#[trigger] s[i])
    &&& s.len() > 1 ==> s[0] != '0'
}

/// Every canonical rendering is a canonical decimal string.
pub proof fn lemma_dec_str_is_decimal(n: nat)
    ensures
        is_decimal(dec_str(n)),
{
    lemma_dec_str_digits(n);
    lemma_dec_str_format(n);
}

/// A big-endian byte string has value zero exactly when every byte is zero.
pub proof fn lemma_bytes_value_zero(b: Seq<u8>)
    ensures
        (bytes_value(b) == 0) <==> (forall|i: int| 0 <= i < b.len() ==> b[i] == 0),
    decreases b.len(),
{
    if b.len() > 0 {
        lemma_bytes_value_zero(b.drop_last());
        assert forall|i: int| 0 <= i < b.len() - 1 implies b.drop_last()[i] == b[i] by {}
        if bytes_value(b) == 0 {
            assert(bytes_value(b.drop_last()) * 256 == 0);
            assert(bytes_value(b.drop_last()) == 0) by {
                if bytes_value(b.drop_last()) > 0 {
                    assert(bytes_value(b.drop_last()) * 256 >= 256) by (nonlinear_arith)
                        requires
                            bytes_value(b.drop_last()) >= 1,
                    ;
                }
            }
        }
        if forall|i: int| 0 <= i < b.len() ==> b[i] == 0 {
            assert(b.last() == 0);
            assert(bytes_value(b.drop_last()) == 0);
        }
    }
}

/// Extending a big-endian byte string by one byte multiplies its value by 256
/// and adds the new byte.
pub proof fn lemma_bytes_value_snoc(b: Seq<u8>, i: int)
    requires
        0 <= i < b.len(),
    ensures
        bytes_value(b.take(i + 1)) == bytes_value(b.take(i)) * 256 + b[i],
{
    assert(b.take(i + 1).drop_last() =~= b.take(i));
    assert(b.take(i + 1).last() == b[i]);
}

/// Whether every byte of the vector is zero, i.e. whether the big-endian
/// value is zero.
fn is_zero(d: &Vec<u8>) -> (r: bool)
    ensures
        r == (bytes_value(d@) == 0),
{
    proof {
        lemma_bytes_value_zero(d@);
    }
    let mut i: usize = 0;
    while i < d.len()
        invariant
            i <= d@.len(),
            forall|j: int| 0 <= j < i ==> d@[j] == 0,
            (bytes_value(d@) == 0) <==> (forall|k: int| 0 <= k < d@.len() ==> d@[k] == 0),
        decreases d@.len() - i,
    {
        if d[i] != 0 {
            return false;
        }
        i += 1;
    }
    true
}

/// Divide a big-endian byte string in place by 10, returning the remainder.
fn div10(d: &mut Vec<u8>) -> (rem: u8)
    ensures
        final(d)@.len() == old(d)@.len(),
        bytes_value(old(d)@) == bytes_value(final(d)@) * 10 + rem,
        rem < 10,
{
    let ghost orig = d@;
    let mut rem: u16 = 0;
    let mut i: usize = 0;
    while i < d.len()
        invariant
            i <= d@.len(),
            d@.len() == orig.len(),
            rem < 10,
            forall|k: int| i <= k < d@.len() ==> d@[k] == orig[k],
            bytes_value(d@.take(i as int)) * 10 + rem == bytes_value(orig.take(i as int)),
        decreases d@.len() - i,
    {
        let ghost prev = d@;
        let ghost prev_rem = rem as nat;
        let cur: u16 = rem * 256 + (d[i] as u16);
        let q: u8 = (cur / 10) as u8;
        d[i] = q;
        rem = cur % 10;
        proof {
            let ii = i as int;
            assert(d@.take(ii) =~= prev.take(ii));
            lemma_bytes_value_snoc(d@, ii);
            lemma_bytes_value_snoc(orig, ii);
            let pn = bytes_value(prev.take(ii));
            let po = bytes_value(orig.take(ii));
            assert(d@[ii] == q);
            assert(po == pn * 10 + prev_rem);
            assert(cur == prev_rem * 256 + orig[ii]);
            assert(cur / 10 < 256);
            assert(cur == q * 10 + (cur % 10));
            assert((pn * 256 + q) * 10 + (cur % 10) == pn * 2560 + q * 10 + (cur % 10))
                by (nonlinear_arith);
            assert((pn * 10 + prev_rem) * 256 == pn * 2560 + prev_rem * 256)
                by (nonlinear_arith);
            assert(bytes_value(d@.take(ii + 1)) * 10 + (cur % 10) as nat
                == bytes_value(orig.take(ii + 1)));
        }
        i += 1;
    }
    proof {
        assert(d@.take(i as int) =~= d@);
        assert(orig.take(i as int) =~= orig);
    }
    rem as u8
}

/// The one-character string for a single decimal digit.
fn digit_str(d: u8) -> (r: &'static str)
    requires
        d < 10,
    ensures
        r@ == seq![digit_char(d as nat)],
{
    let r: &'static str = if d == 0 {
        "0"
    } else if d == 1 {
        "1"
    } else if d == 2 {
        "2"
    } else if d == 3 {
        "3"
    } else if d == 4 {
        "4"
    } else if d == 5 {
        "5"
    } else if d == 6 {
        "6"
    } else if d == 7 {
        "7"
    } else if d == 8 {
        "8"
    } else {
        "9"
    };
    proof {
        reveal_strlit("0");
        reveal_strlit("1");
        reveal_strlit("2");
        reveal_strlit("3");
        reveal_strlit("4");
        reveal_strlit("5");
        reveal_strlit("6");
        reveal_strlit("7");
        reveal_strlit("8");
        reveal_strlit("9");
        assert(r@ =~= seq![digit_char(d as nat)]);
    }
    r
}

/// Render the big-endian byte string's integer value as its canonical
/// decimal digit string.
pub fn dec_of_bytes(bytes: Vec<u8>) -> (r: String)
    ensures
        r@ == dec_str(bytes_value(bytes@)),
    decreases bytes_value(bytes@),
{
    let ghost v = bytes_value(bytes@);
    let mut d = bytes;
    let rem = div10(&mut d);
    let ghost v1 = bytes_value(d@);
    if is_zero(&d) {
        let r = digit_str(rem).to_owned();
        assert(v == rem);
        r
    } else {
        proof {
            assert(v1 * 10 > v1) by (nonlinear_arith)
                requires
                    v1 >= 1,
            ;
            vstd::arithmetic::div_mod::lemma_fundamental_div_mod_converse(
                v as int,
                10,
                v1 as int,
                rem as int,
            );
        }
        let mut s = dec_of_bytes(d);
        s.append(digit_str(rem));
        proof {
            assert(dec_str(v1).push(digit_char(rem as nat))
                =~= dec_str(v1) + seq![digit_char(rem as nat)]);
        }
        s
    }
}

/// Render a machine integer as its canonical decimal digit string.
pub fn dec_of_usize(n: usize) -> (r: String)
    ensures
        r@ == dec_str(n as nat),
    decreases n,
{
    if n < 10 {
        digit_str(n as u8).to_owned()
    } else {
        let mut s = dec_of_usize(n / 10);
        s.append(digit_str((n % 10) as u8));
        proof {
            assert(dec_str((n / 10) as nat).push(digit_char((n % 10) as nat))
                =~= dec_str((n / 10) as nat) + seq![digit_char((n % 10) as nat)]);
        }
        s
    }
}

} // verus!
