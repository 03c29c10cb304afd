//! Building byte strings without allocation: appending to a fixed buffer and
//! writing integers in decimal.

use vstd::prelude::*;

verus! {

/// The ASCII code of the digit `0`.
pub const ZERO_DIGIT: u8 = 48;

/// The ASCII code of the minus sign.
pub const MINUS_SIGN: u8 = 45;

/// The decimal digits of `n`, most significant first.
pub open spec fn digits(n: nat) -> Seq<u8>
    decreases n,
{
    if n < 10 {
        seq![(ZERO_DIGIT + n) as u8]
    } else {
        digits(n / 10).push((ZERO_DIGIT + n % 10) as u8)
    }
}

/// The decimal text of `n`: its digits, after a minus sign if it is negative.
pub open spec fn signed_digits(n: int) -> Seq<u8> {
    if n < 0 {
        seq![MINUS_SIGN] + digits((-n) as nat)
    } else {
        digits(n as nat)
    }
}

/// The number that a sequence of decimal digits denotes.
pub open spec fn number(text: Seq<u8>) -> int
    decreases text.len(),
{
    if text.len() == 0 {
        0
    } else {
        10 * number(text.drop_last()) + (text.last() - ZERO_DIGIT)
    }
}

/// Ten to the power of `k`.
pub open spec fn pow10(k: nat) -> nat
    decreases k,
{
    if k == 0 {
        1
    } else {
        10 * pow10((k - 1) as nat)
    }
}

/// Ten to the twentieth exceeds every `u64`, and ten to the thirty-ninth every
/// magnitude of an `i128`.
proof fn lemma_pow10_values()
    ensures
        pow10(20) == 100_000_000_000_000_000_000,
        pow10(39) == 1_000_000_000_000_000_000_000_000_000_000_000_000_000,
{
    reveal_with_fuel(pow10, 41);
}

/// A number below ten to the power of `k` has at most `k` digits.
pub proof fn lemma_digits_len(n: nat, k: nat)
    requires
        n < pow10(k),
        k > 0,
    ensures
        1 <= digits(n).len() <= k,
    decreases k,
{
    if n >= 10 {
        if k == 1 {
            assert(pow10(1) == 10 * pow10(0));
        }
        lemma_digits_len(n / 10, (k - 1) as nat);
    }
}

/// Decimal text has at most twenty bytes for a `u64`.
pub proof fn lemma_u64_digits_len(n: u64)
    ensures
        1 <= digits(n as nat).len() <= 20,
{
    lemma_pow10_values();
    lemma_digits_len(n as nat, 20);
}

/// Decimal text has at most forty bytes for an `i128`.
pub proof fn lemma_i128_digits_len(n: i128)
    ensures
        1 <= signed_digits(n as int).len() <= 40,
{
    lemma_pow10_values();
    if n < 0 {
        lemma_digits_len((-n) as nat, 39);
    } else {
        lemma_digits_len(n as nat, 39);
    }
}

/// Reading the decimal digits of a number gives the number back.
pub proof fn law_digits_denote(n: nat)
    ensures
        number(digits(n)) == n,
    decreases n,
{
    if n < 10 {
        assert(digits(n).drop_last() == Seq::<u8>::empty());
        assert(number(Seq::<u8>::empty()) == 0);
    } else {
        law_digits_denote(n / 10);
        assert(digits(n).drop_last() == digits(n / 10));
    }
}

/// Decimal text is canonical: every byte is a digit, and a number other than
/// zero has no leading zero.
pub proof fn law_digits_canonical(n: nat)
    ensures
        forall|i: int|
            0 <= i < digits(n).len() ==> ZERO_DIGIT <= #[trigger] digits(n)[i] < ZERO_DIGIT + 10,
        n > 0 ==> digits(n)[0] != ZERO_DIGIT,
        digits(n).len() > 0,
    decreases n,
{
    if n >= 10 {
        law_digits_canonical(n / 10);
    }
}

/// Copies `src` into `buf` at `*cursor` and moves the cursor behind it.
pub fn append(buf: &mut [u8], cursor: &mut usize, src: &[u8])
    requires
        *old(cursor) + src@.len() <= old(buf)@.len(),
    ensures
        *final(cursor) == *old(cursor) + src@.len(),
        final(buf)@ == old(buf)@.take(*old(cursor) as int) + src@ + old(buf)@.skip(
            *old(cursor) + src@.len() as int,
        ),
{
    let start: usize = *cursor;
    let room: usize = buf.len();
    let mut i: usize = 0;
    while i < src.len()
        invariant
            i <= src@.len(),
            room == old(buf)@.len(),
            start + src@.len() <= room,
            buf@ == old(buf)@.take(start as int) + src@.take(i as int) + old(buf)@.skip(
                start + i as int,
            ),
        decreases src@.len() - i,
    {
        buf[start + i] = src[i];
        i = i + 1;
        assert(buf@ == old(buf)@.take(start as int) + src@.take(i as int) + old(buf)@.skip(
            start + i as int,
        ));
    }
    *cursor = start + src.len();
    assert(src@.take(src@.len() as int) == src@);
}

/// One more digit written behind `len` others takes that digit off what remains.
proof fn lemma_next_digit(n: nat, rest: nat, before: Seq<u8>, after: Seq<u8>, len: int)
    requires
        rest > 0,
        0 <= len < before.len(),
        digits(n) == digits(rest) + before.take(len).reverse(),
        after == before.update(len, (ZERO_DIGIT + rest % 10) as u8),
    ensures
        rest / 10 == 0 ==> digits(n) == after.take(len + 1).reverse(),
        rest / 10 > 0 ==> digits(n) == digits(rest / 10) + after.take(len + 1).reverse(),
{
    let digit = (ZERO_DIGIT + rest % 10) as u8;
    assert(after.take(len + 1).reverse() == seq![digit] + before.take(len).reverse());
    if rest / 10 > 0 {
        assert(digits(rest) == digits(rest / 10).push(digit));
        assert(digits(n) == digits(rest / 10) + after.take(len + 1).reverse());
    }
}

/// Writing at `len` leaves what stands behind `len` as it was.
proof fn lemma_skip_next(before: Seq<u8>, origin: Seq<u8>, len: int, digit: u8)
    requires
        0 <= len < before.len(),
        before.skip(len) == origin.skip(len),
        before.len() == origin.len(),
    ensures
        before.update(len, digit).skip(len + 1) == origin.skip(len + 1),
{
    assert(before.update(len, digit).skip(len + 1) == before.skip(len).skip(1));
    assert(origin.skip(len + 1) == origin.skip(len).skip(1));
}

/// Writes the digits of `n` into the front of `buf`, least significant first,
/// and returns how many there are.
fn write_reversed(n: u128, buf: &mut [u8]) -> (len: usize)
    requires
        n > 0,
        n < pow10(old(buf)@.len()),
    ensures
        final(buf)@.len() == old(buf)@.len(),
        len <= final(buf)@.len(),
        final(buf)@.take(len as int).reverse() == digits(n as nat),
        final(buf)@.skip(len as int) == old(buf)@.skip(len as int),
{
    let size: usize = buf.len();
    let mut rest: u128 = n;
    let mut len: usize = 0;
    while rest > 0
        invariant
            size == old(buf)@.len(),
            buf@.len() == size,
            len <= size,
            rest < pow10((size - len) as nat),
            rest == 0 ==> digits(n as nat) == buf@.take(len as int).reverse(),
            rest > 0 ==> digits(n as nat) == digits(rest as nat) + buf@.take(len as int).reverse(),
            buf@.skip(len as int) == old(buf)@.skip(len as int),
        decreases rest,
    {
        let ghost before = buf@;
        let ghost digit = (ZERO_DIGIT + rest % 10) as u8;
        assert(len < size);
        buf[len] = ZERO_DIGIT + (rest % 10) as u8;
        proof {
            lemma_next_digit(n as nat, rest as nat, before, buf@, len as int);
            lemma_skip_next(before, old(buf)@, len as int, digit);
        }
        rest = rest / 10;
        len = len + 1;
    }
    len
}

/// Reverses the first `len` bytes of `buf`.
fn reverse_front(buf: &mut [u8], len: usize)
    requires
        len <= old(buf)@.len(),
    ensures
        final(buf)@ == old(buf)@.take(len as int).reverse() + old(buf)@.skip(len as int),
{
    let mut i: usize = 0;
    while i < len / 2
        invariant
            i <= len / 2,
            len <= old(buf)@.len(),
            buf@.len() == old(buf)@.len(),
            forall|j: int|
                0 <= j < i || len - i <= j < len ==> #[trigger] buf@[j] == old(buf)@[len - 1 - j],
            forall|j: int| i <= j < len - i || len <= j < buf@.len() ==> #[trigger] buf@[j] == old(
                buf,
            )@[j],
        decreases len / 2 - i,
    {
        let low = buf[i];
        let high = buf[len - 1 - i];
        buf[i] = high;
        buf[len - 1 - i] = low;
        i = i + 1;
    }
    assert(buf@ == old(buf)@.take(len as int).reverse() + old(buf)@.skip(len as int));
}

/// Writes `n` in decimal into `buf` and returns the part that was filled. The
/// rest of the buffer keeps its bytes.
pub fn u64_to_decimal(n: u64, buf: &mut [u8; 20]) -> (text: &[u8])
    ensures
        text@ == digits(n as nat),
        final(buf)@ == text@ + old(buf)@.skip(text@.len() as int),
{
    if n == 0 {
        buf[0] = ZERO_DIGIT;
        return &buf[0..1];
    }
    proof {
        lemma_pow10_values();
    }
    let len: usize = write_reversed(n as u128, buf);
    reverse_front(buf, len);
    &buf[0..len]
}

/// Writes `n` in decimal into `buf`, with a leading minus sign if it is
/// negative, and returns the part that was filled. The rest of the buffer keeps
/// its bytes.
pub fn i128_to_decimal(n: i128, buf: &mut [u8; 40]) -> (text: &[u8])
    ensures
        text@ == signed_digits(n as int),
        final(buf)@ == text@ + old(buf)@.skip(text@.len() as int),
{
    if n == 0 {
        buf[0] = ZERO_DIGIT;
        return &buf[0..1];
    }
    let magnitude: u128 = if n < 0 {
        (-(n + 1)) as u128 + 1
    } else {
        n as u128
    };
    proof {
        lemma_pow10_values();
        lemma_digits_len(magnitude as nat, 39);
        assert(pow10(40) == 10 * pow10(39));
    }
    let mut len: usize = write_reversed(magnitude, buf);
    if n < 0 {
        let ghost before = buf@;
        buf[len] = MINUS_SIGN;
        proof {
            lemma_skip_next(before, old(buf)@, len as int, MINUS_SIGN);
            assert(buf@.take(len + 1).reverse() == seq![MINUS_SIGN] + before.take(
                len as int,
            ).reverse());
        }
        len = len + 1;
    }
    reverse_front(buf, len);
    &buf[0..len]
}

} // verus!
