//! Building small ASCII strings in verified code.
//!
//! Rendered text (links, durations, persisted dates) is assembled as a
//! vector of ASCII bytes and turned into a `String` at the very end.

use vstd::prelude::*;

verus! {

/// True of a byte that is an ASCII decimal digit.
pub open spec fn is_ascii_digit(b: u8) -> bool {
    48 <= b <= 57
}

/// The decimal digits of `n`, most significant first, as ASCII bytes.
pub open spec fn dec_digits(n: nat) -> Seq<u8>
    decreases n,
{
    if n < 10 {
        seq![(n + 48) as u8]
    } else {
        dec_digits(n / 10).push((n % 10 + 48) as u8)
    }
}

/// The decimal digits of `n`, padded on the left with one `'0'` when `n`
/// has a single digit, as the persisted date format demands.
pub open spec fn dec_digits_padded2(n: nat) -> Seq<u8> {
    if n < 10 {
        seq![48u8] + dec_digits(n)
    } else {
        dec_digits(n)
    }
}

/// The decimal rendering of `n` as characters.
pub open spec fn dec_chars(n: nat) -> Seq<char> {
    dec_digits(n).map_values(|b: u8| b as char)
}

/// Every byte of a decimal rendering is an ASCII digit.
pub proof fn lemma_dec_digits_ascii(n: nat)
    ensures
        forall|i: int| 0 <= i < dec_digits(n).len() ==> is_ascii_digit(#[trigger] dec_digits(n)[i]),
    decreases n,
{
    if n >= 10 {
        lemma_dec_digits_ascii(n / 10);
        assert(dec_digits(n) == dec_digits(n / 10).push((n % 10 + 48) as u8));
        assert(forall|i: int| 0 <= i < dec_digits(n / 10).len()
            ==> dec_digits(n)[i] == #[trigger] dec_digits(n / 10)[i]);
    } else {
        assert(dec_digits(n) == seq![(n + 48) as u8]);
    }
}

/// Appends the decimal digits of `n` to `out`.
pub fn push_u64_decimal(out: &mut Vec<u8>, n: u64)
    ensures
        final(out)@ == old(out)@ + dec_digits(n as nat),
    decreases n,
{
    if n >= 10 {
        push_u64_decimal(out, n / 10);
    }
    out.push((n % 10 + 48) as u8);
}

/// Appends the decimal digits of `n`, left-padded with `'0'` to at least
/// two digits.
pub fn push_u64_decimal_padded2(out: &mut Vec<u8>, n: u64)
    ensures
        final(out)@ == old(out)@ + dec_digits_padded2(n as nat),
{
    if n < 10 {
        out.push(48u8);
    }
    push_u64_decimal(out, n);
}

/// Relies on `String::from_utf8`: a vector of bytes below 128 is valid
/// UTF-8 and decodes to the characters with the same code points.
#[verifier::external_body]
pub fn string_from_ascii(bytes: Vec<u8>) -> (r: String)
    requires
        forall|i: int| 0 <= i < bytes@.len() ==> bytes@[i] < 128,
    ensures
        r@.len() == bytes@.len(),
        forall|i: int| 0 <= i < bytes@.len() ==> r@[i] == #[trigger] bytes@[i] as char,
{
    String::from_utf8(bytes).unwrap_or_default()
}

/// Renders `n` in decimal.
pub fn u64_to_string(n: u64) -> (r: String)
    ensures
        r@ == dec_chars(n as nat),
{
    let mut bytes: Vec<u8> = Vec::new();
    push_u64_decimal(&mut bytes, n);
    proof {
        lemma_dec_digits_ascii(n as nat);
    }
    let r = string_from_ascii(bytes);
    proof {
        assert(r@ =~= dec_chars(n as nat));
    }
    r
}

} // verus!
