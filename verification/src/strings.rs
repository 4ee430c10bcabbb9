//! Verified string building: appending characters and decimal renderings.

use vstd::prelude::*;

verus! {

/// Relies on `String::push`: appends the given character to the string.
#[verifier::external_body]
pub fn push_char(s: &mut String, c: char)
    ensures
        final(s)@ == old(s)@.push(c),
{
    s.push(c);
}

/// The character for the decimal digit `d`.
pub open spec fn dec_digit(d: int) -> char {
    ((48 + d) as u8) as char
}

/// The decimal rendering of a non-negative integer, most significant digit
/// first, with no leading zeroes (`0` renders as `"0"`).
pub open spec fn dec_spec(n: int) -> Seq<char>
    decreases n,
{
    if n < 10 {
        seq![dec_digit(n)]
    } else {
        dec_spec(n / 10).push(dec_digit(n % 10))
    }
}

/// Appends the decimal rendering of `n`.
pub fn push_u64_dec(s: &mut String, n: u64)
    ensures
        final(s)@ == old(s)@ + dec_spec(n as int),
    decreases n,
{
    if n >= 10 {
        push_u64_dec(s, n / 10);
    }
    push_char(s, ((48 + (n % 10)) as u8) as char);
    proof {
        if n < 10 {
            assert(old(s)@.push(dec_digit(n as int)) =~= old(s)@ + dec_spec(n as int));
        } else {
            assert((old(s)@ + dec_spec(n as int / 10)).push(dec_digit(n as int % 10)) =~= old(
                s,
            )@ + dec_spec(n as int));
        }
    }
}

/// The decimal rendering of `n` as a fresh string.
pub fn u64_to_dec(n: u64) -> (r: String)
    ensures
        r@ == dec_spec(n as int),
{
    let mut s = String::new();
    push_u64_dec(&mut s, n);
    proof {
        assert(Seq::<char>::empty() + dec_spec(n as int) =~= dec_spec(n as int));
    }
    s
}

} // verus!
