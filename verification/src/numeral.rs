//! Decimal numerals, padded with zeros to a least width.
//!
//! The spec functions say what a numeral is; the executable functions append
//! one to a `String` and are proved to append exactly that.

use vstd::prelude::*;

verus! {

/// The character of a decimal digit.
pub open spec fn digit_char(d: nat) -> char
    recommends
        d < 10,
{
    ('0' as u8 + d) as char
}

/// The decimal numeral of `n`, most significant digit first, without
/// leading zeros.
pub open spec fn decimal(n: nat) -> Seq<char>
    decreases n,
{
    if n < 10 {
        seq![digit_char(n)]
    } else {
        decimal(n / 10).push(digit_char(n % 10))
    }
}

/// `count` zeros.
pub open spec fn zeros(count: nat) -> Seq<char> {
    Seq::new(count, |i: int| '0')
}

/// The decimal numeral of `n`, with zeros in front of it where it has fewer
/// than `width` digits. A numeral of `width` digits or more is not cut.
pub open spec fn zero_padded(n: nat, width: nat) -> Seq<char> {
    let digits = decimal(n);
    if digits.len() < width {
        zeros((width - digits.len()) as nat) + digits
    } else {
        digits
    }
}

/// The numeral of a signed number, `width` characters wide at least. A
/// negative number has its sign in front of the padding, and the sign counts
/// towards the width.
pub open spec fn signed_zero_padded(v: int, width: nat) -> Seq<char> {
    if v < 0 {
        let rest: nat = if width > 0 {
            (width - 1) as nat
        } else {
            0
        };
        seq!['-'] + zero_padded((-v) as nat, rest)
    } else {
        zero_padded(v as nat, width)
    }
}

/// Ten to the power `k`.
pub open spec fn pow10(k: nat) -> nat
    decreases k,
{
    if k == 0 {
        1
    } else {
        10 * pow10((k - 1) as nat)
    }
}

/// No power of ten is zero.
pub proof fn lemma_pow10_positive(k: nat)
    ensures
        pow10(k) >= 1,
    decreases k,
{
    if k > 0 {
        lemma_pow10_positive((k - 1) as nat);
    }
}

/// A number below ten to the `k` has a numeral of at most `k` digits, and a
/// number of at least ten to the `k - 1` has one of at least `k` digits.
pub proof fn lemma_decimal_len(n: nat, k: nat)
    requires
        k >= 1,
    ensures
        decimal(n).len() >= 1,
        n < pow10(k) ==> decimal(n).len() <= k,
        n >= pow10((k - 1) as nat) ==> decimal(n).len() >= k,
    decreases k,
{
    reveal_with_fuel(pow10, 2);
    if k > 1 {
        lemma_pow10_positive((k - 2) as nat);
        if n >= 10 {
            lemma_decimal_len(n / 10, (k - 1) as nat);
        }
    }
}

/// A numeral holds nothing but the ten digits.
pub proof fn lemma_decimal_digits(n: nat)
    ensures
        forall|i: int| 0 <= i < decimal(n).len() ==> '0' <= #[trigger] decimal(n)[i] <= '9',
    decreases n,
{
    assert('0' <= digit_char(n % 10) <= '9');
    if n >= 10 {
        lemma_decimal_digits(n / 10);
        assert forall|i: int| 0 <= i < decimal(n).len() implies '0' <= #[trigger] decimal(n)[i]
            <= '9' by {
            if i < decimal(n / 10).len() {
                assert(decimal(n)[i] == decimal(n / 10)[i]);
            }
        }
    }
}

/// Padding never cuts: a padded numeral is as wide as the wider of the
/// numeral and `width`, it ends in the numeral, and all before that is zeros.
pub proof fn lemma_zero_padded_shape(n: nat, width: nat)
    ensures
        ({
            let padded = zero_padded(n, width);
            let digits = decimal(n);
            let front = padded.len() - digits.len();
            &&& padded.len() == if digits.len() < width {
                width
            } else {
                digits.len()
            }
            &&& padded.subrange(front, padded.len() as int) == digits
            &&& forall|i: int| 0 <= i < front ==> #[trigger] padded[i] == '0'
        }),
{
}

/// A number below ten to the `width` is padded to `width` digits exactly.
pub proof fn lemma_zero_padded_exact(n: nat, width: nat)
    requires
        width >= 1,
        n < pow10(width),
    ensures
        zero_padded(n, width).len() == width,
{
    lemma_decimal_len(n, width);
}

/// `String::push` of the standard library appends one character to the end
/// of the string. The contract says so, and that the characters before it
/// stay as they were; it is taken from the documentation, not proved.
pub assume_specification[ String::push ](text: &mut String, c: char)
    ensures
        final(text)@ == old(text)@.push(c),
;

fn digit(d: u32) -> (c: char)
    requires
        d < 10,
    ensures
        c == digit_char(d as nat),
{
    (48u8 + d as u8) as char
}

/// The number of digits in the decimal numeral of `n`.
pub fn digit_count(n: u32) -> (count: usize)
    ensures
        count == decimal(n as nat).len(),
        1 <= count <= 10,
    decreases n,
{
    proof {
        reveal_with_fuel(pow10, 11);
        lemma_decimal_len(n as nat, 10);
    }
    if n >= 10 {
        digit_count(n / 10) + 1
    } else {
        1
    }
}

/// Appends the decimal numeral of `n` to `text`.
pub fn push_decimal(text: &mut String, n: u32)
    ensures
        final(text)@ == old(text)@ + decimal(n as nat),
    decreases n,
{
    if n >= 10 {
        push_decimal(text, n / 10);
    }
    text.push(digit(n % 10));
}

/// Appends the numeral of `n`, padded with zeros to `width` digits.
pub fn push_zero_padded(text: &mut String, n: u32, width: usize)
    ensures
        final(text)@ == old(text)@ + zero_padded(n as nat, width as nat),
{
    let count = digit_count(n);
    let mut filled: usize = count;
    while filled < width
        invariant
            count <= filled,
            count < width ==> filled <= width,
            count >= width ==> filled == count,
            text@ == old(text)@ + zeros((filled - count) as nat),
        decreases width - filled,
    {
        text.push('0');
        filled = filled + 1;
        assert(zeros((filled - count) as nat) == zeros((filled - 1 - count) as nat).push('0'));
    }
    let ghost front = zeros((filled - count) as nat);
    push_decimal(text, n);
    assert(old(text)@ + front + decimal(n as nat) == old(text)@ + (front + decimal(n as nat)));
    assert(front.len() == 0 ==> front + decimal(n as nat) == decimal(n as nat));
}

/// Appends the numeral of a signed number, padded with zeros behind the sign
/// to `width` characters.
pub fn push_signed_zero_padded(text: &mut String, v: i32, width: usize)
    ensures
        final(text)@ == old(text)@ + signed_zero_padded(v as int, width as nat),
{
    if v < 0 {
        let magnitude: u32 = (-(v as i64)) as u32;
        let rest: usize = if width > 0 {
            width - 1
        } else {
            0
        };
        text.push('-');
        push_zero_padded(text, magnitude, rest);
        let ghost numeral = zero_padded(magnitude as nat, rest as nat);
        assert(old(text)@.push('-') + numeral == old(text)@ + (seq!['-'] + numeral));
    } else {
        push_zero_padded(text, v as u32, width);
    }
}

} // verus!
