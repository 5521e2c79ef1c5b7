//! ASCII text helpers: decimal representation of unsigned integers, byte-sequence building.

use vstd::prelude::*;

verus! {

/// ASCII code of the digit `d` (`d < 10`).
pub open spec fn ascii_digit(d: nat) -> u8 {
    (48 + d) as u8
}

/// The decimal representation of `n`, most significant digit first, without leading zeros
/// ("0" for zero).
pub open spec fn decimal_digits(n: nat) -> Seq<u8>
    decreases n,
{
    if n < 10 {
        seq![ascii_digit(n)]
    } else {
        decimal_digits(n / 10).push(ascii_digit(n % 10))
    }
}

/// Formats `n` with the `itoa` crate.
///
/// Trusted: `itoa::Buffer::format` on a `u32` returns the decimal representation of the
/// number, as its documentation and its example (`format(128u64) == "128"`) state.
#[verifier::external_body]
pub(crate) fn itoa_format_u32(n: u32) -> (text: Vec<u8>)
    ensures
        text@ == decimal_digits(n as nat),
{
    let mut buffer = itoa::Buffer::new();
    buffer.format(n).as_bytes().to_vec()
}

/// Appends the decimal representation of `n` to `out`.
pub fn push_decimal(out: &mut Vec<u8>, n: u32)
    ensures
        final(out)@ == old(out)@ + decimal_digits(n as nat),
    decreases n,
{
    if n >= 10 {
        push_decimal(out, n / 10);
    }
    out.push(48 + (n % 10) as u8);
    proof {
        assert(old(out)@ + decimal_digits(n as nat) =~= out@);
    }
}

/// Number of decimal digits of `n`: `n.ilog10() + 1` for `n >= 1`, and 1 for zero.
pub fn decimal_width(n: u32) -> (width: u32)
    ensures
        width == decimal_digits(n as nat).len(),
        1 <= width <= 10,
    decreases n,
{
    proof {
        lemma_decimal_width_bound(n as nat);
    }
    if n < 10 {
        1
    } else {
        1 + decimal_width(n / 10)
    }
}

proof fn lemma_decimal_width_bound(n: nat)
    requires
        n <= u32::MAX,
    ensures
        decimal_digits(n).len() <= 10,
{
    reveal_with_fuel(pow10, 11);
    lemma_decimal_len_small_k(n, 10);
}

proof fn lemma_decimal_len_small_k(n: nat, k: nat)
    requires
        k >= 1,
        n < pow10(k),
    ensures
        decimal_digits(n).len() <= k,
    decreases k,
{
    if n >= 10 {
        if k == 1 {
            assert(false);
        } else {
            lemma_decimal_len_small_k(n / 10, (k - 1) as nat);
        }
    }
}

/// Ten to the power `k`.
pub open spec fn pow10(k: nat) -> nat
    decreases k,
{
    if k == 0 {
        1
    } else {
        10 * pow10((k - 1) as nat)
    }
}

/// The number that a string of ASCII digits denotes, read most significant digit first.
pub open spec fn decimal_value(digits: Seq<u8>) -> nat
    decreases digits.len(),
{
    if digits.len() == 0 {
        0
    } else {
        decimal_value(digits.drop_last()) * 10 + (digits.last() - 48) as nat
    }
}

/// A decimal numeral as written without padding: at least one byte, every byte an ASCII
/// digit, and no leading zero unless the numeral is "0".
pub open spec fn is_decimal_numeral(digits: Seq<u8>) -> bool {
    &&& digits.len() >= 1
    &&& forall|i: int| 0 <= i < digits.len() ==> 48 <= #[trigger] digits[i] <= 57
    &&& (digits.len() == 1 || digits[0] != 48)
}

/// The decimal text of `n` is a numeral that denotes `n`; for `n >= 1` its length `k` is the
/// number of decimal digits of `n`: `10^(k-1) <= n < 10^k`.
pub proof fn lemma_decimal_digits_denote(n: nat)
    ensures
        is_decimal_numeral(decimal_digits(n)),
        decimal_value(decimal_digits(n)) == n,
        n >= 1 ==> pow10((decimal_digits(n).len() - 1) as nat) <= n,
        n < pow10(decimal_digits(n).len()),
    decreases n,
{
    let d = decimal_digits(n);
    if n < 10 {
        assert(d.drop_last() =~= Seq::<u8>::empty());
        assert(decimal_value(Seq::<u8>::empty()) == 0);
        assert(d.last() == ascii_digit(n));
        assert(ascii_digit(n) as int == 48 + n);
        reveal_with_fuel(pow10, 2);
    } else {
        let h = decimal_digits(n / 10);
        lemma_decimal_digits_denote(n / 10);
        assert(d.drop_last() =~= h);
        assert(d.last() == ascii_digit(n % 10));
        assert(ascii_digit(n % 10) as int == 48 + n % 10);
        assert(d[0] == h[0]);
        assert forall|i: int| 0 <= i < d.len() implies 48 <= #[trigger] d[i] <= 57 by {
            if i < h.len() {
                assert(d[i] == h[i]);
            }
        }
        let k = h.len();
        assert(pow10(k + 1) == 10 * pow10(k));
        assert(pow10(k) == 10 * pow10((k - 1) as nat));
    }
}

/// Appends all of `bytes` to `out`.
pub fn extend_bytes(out: &mut Vec<u8>, bytes: &[u8])
    ensures
        final(out)@ == old(out)@ + bytes@,
{
    let mut i: usize = 0;
    while i < bytes.len()
        invariant
            i <= bytes@.len(),
            out@ == old(out)@ + bytes@.subrange(0, i as int),
        decreases bytes@.len() - i,
    {
        out.push(bytes[i]);
        i = i + 1;
        proof {
            assert(bytes@.subrange(0, i as int) =~= bytes@.subrange(0, i - 1).push(bytes@[i - 1]));
        }
    }
    proof {
        assert(bytes@.subrange(0, i as int) =~= bytes@);
    }
}

} // verus!
