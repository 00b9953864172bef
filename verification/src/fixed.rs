//! Quantized decimal coordinates.
//!
//! Coordinates are carried as integers scaled by ten to the seventh: the
//! canonical quantization that the deduplicator keys on. A decimal string is
//! converted by truncating (not rounding) its fractional part to seven digits
//! and packing integer and fractional parts into one signed integer.
use vstd::prelude::*;

verus! {

/// The packing factor: ten to the seventh.
pub const SCALE: i64 = 10_000_000;

/// A decimal coordinate, quantized: `scaled` holds the value times `SCALE`,
/// with fractional digits beyond the seventh truncated.
#[derive(Debug, PartialEq, Eq, Structural, Clone, Copy)]
pub struct Fixed {
    pub scaled: i64,
}

/// An ASCII decimal digit.
pub open spec fn is_digit(b: u8) -> bool {
    48 <= b && b <= 57
}

/// The numeric value of an ASCII digit byte.
pub open spec fn digit_val(b: u8) -> int {
    b - 48
}

/// The value of the digit run `bs[from..to]` read as a base-ten number.
pub open spec fn digits_val(bs: Seq<u8>, from: int, to: int) -> int
    decreases to - from,
{
    if from < to {
        digits_val(bs, from, to - 1) * 10 + digit_val(bs[to - 1])
    } else {
        0
    }
}

/// Ten to the power `n` (one for non-positive `n`).
pub open spec fn pow10(n: int) -> int
    decreases n,
{
    if n <= 0 {
        1
    } else {
        10 * pow10(n - 1)
    }
}

/// The scaled value of the fractional digit run `bs[from..to]`: only the
/// first seven digits count, and shorter runs are padded with zeros.
pub open spec fn frac_scaled(bs: Seq<u8>, from: int, to: int) -> int {
    let e = if to > from + 7 { from + 7 } else { to };
    digits_val(bs, from, e) * pow10(7 - (e - from))
}

/// Fractional digits beyond the seventh never change the scaled value.
pub proof fn lemma_frac_digits_beyond_seven_ignored(bs: Seq<u8>, from: int, t1: int, t2: int)
    requires
        from + 7 <= t1,
        from + 7 <= t2,
    ensures
        frac_scaled(bs, from, t1) == frac_scaled(bs, from, t2),
{
}

pub proof fn lemma_digits_val_nonneg(bs: Seq<u8>, from: int, to: int)
    requires
        forall|i: int| from <= i < to ==> is_digit(#[trigger] bs[i]),
    ensures
        digits_val(bs, from, to) >= 0,
    decreases to - from,
{
    if from < to {
        lemma_digits_val_nonneg(bs, from, to - 1);
    }
}

/// Reading more digits never shrinks the value.
pub proof fn lemma_digits_val_mono(bs: Seq<u8>, from: int, mid: int, to: int)
    requires
        from <= mid <= to,
        forall|i: int| from <= i < to ==> is_digit(#[trigger] bs[i]),
    ensures
        digits_val(bs, from, to) >= digits_val(bs, from, mid),
    decreases to - mid,
{
    if mid < to {
        lemma_digits_val_mono(bs, from, mid, to - 1);
        lemma_digits_val_nonneg(bs, from, to - 1);
    }
}

/// A run of `to - from` digits stays below ten to that power.
pub proof fn lemma_digits_val_bound(bs: Seq<u8>, from: int, to: int)
    requires
        from <= to,
        forall|i: int| from <= i < to ==> is_digit(#[trigger] bs[i]),
    ensures
        digits_val(bs, from, to) < pow10(to - from),
    decreases to - from,
{
    if from < to {
        lemma_digits_val_bound(bs, from, to - 1);
    }
}

pub proof fn lemma_pow10_pos(n: int)
    ensures
        pow10(n) >= 1,
    decreases n,
{
    if n > 0 {
        lemma_pow10_pos(n - 1);
    }
}

/// Accumulates the value of the digit run `b[from..to]`, reporting `None` as
/// soon as the value passes `cap`.
pub(crate) fn digits_acc(b: &[u8], from: usize, to: usize, cap: u128) -> (r: Option<u128>)
    requires
        from <= to <= b@.len(),
        forall|i: int| from <= i < to ==> is_digit(#[trigger] b@[i]),
        cap <= 0x8000_0000_0000_0000u128,
    ensures
        match r {
            Some(v) => v as int == digits_val(b@, from as int, to as int) && v <= cap,
            None => digits_val(b@, from as int, to as int) > cap,
        },
{
    let mut acc: u128 = 0;
    let mut i: usize = from;
    while i < to
        invariant
            from <= i <= to <= b@.len(),
            forall|k: int| from <= k < to ==> is_digit(#[trigger] b@[k]),
            cap <= 0x8000_0000_0000_0000u128,
            acc as int == digits_val(b@, from as int, i as int),
            acc <= cap,
        decreases to - i,
    {
        let d = b[i];
        let acc2: u128 = acc * 10 + ((d - 48) as u128);
        assert(acc2 as int == digits_val(b@, from as int, (i + 1) as int));
        if acc2 > cap {
            proof {
                lemma_digits_val_mono(b@, from as int, i + 1, to as int);
            }
            return None;
        }
        acc = acc2;
        i = i + 1;
    }
    Some(acc)
}

/// The scaled value of the fractional digit run `b[from..to]`: truncates to
/// seven digits and pads shorter runs with zeros.
pub(crate) fn frac_acc(b: &[u8], from: usize, to: usize) -> (r: u64)
    requires
        from <= to <= b@.len(),
        forall|i: int| from <= i < to ==> is_digit(#[trigger] b@[i]),
    ensures
        r as int == frac_scaled(b@, from as int, to as int),
        r < 10_000_000,
{
    let e: usize = if to - from > 7 {
        from + 7
    } else {
        to
    };
    let k: usize = e - from;
    let mut acc: u64 = 0;
    let mut i: usize = from;
    while i < e
        invariant
            from <= i <= e <= to <= b@.len(),
            e - from <= 7,
            forall|j: int| from <= j < to ==> is_digit(#[trigger] b@[j]),
            acc as int == digits_val(b@, from as int, i as int),
            (acc as int) < pow10(i - from),
        decreases e - i,
    {
        let d = b[i];
        proof {
            lemma_digits_val_bound(b@, from as int, i + 1);
        }
        assert(pow10(i + 1 - from) <= pow10(7)) by {
            lemma_pow10_le(i + 1 - from, 7);
        }
        assert(pow10(7) == 10_000_000) by {
            reveal_with_fuel(pow10, 8);
        }
        acc = acc * 10 + ((d - 48) as u64);
        i = i + 1;
    }
    assert(pow10(0) == 1);
    assert(acc as int == digits_val(b@, from as int, e as int) * pow10(0));
    let mut j: usize = k;
    while j < 7
        invariant
            k <= j <= 7,
            from + k == e,
            e <= to <= b@.len(),
            forall|m: int| from <= m < to ==> is_digit(#[trigger] b@[m]),
            acc as int == digits_val(b@, from as int, e as int) * pow10(j - k),
            (acc as int) < pow10(j as int),
        decreases 7 - j,
    {
        assert(pow10(j + 1) == 10 * pow10(j as int));
        assert(pow10((j + 1) - k) == 10 * pow10(j - k));
        assert(pow10(j as int) <= pow10(7)) by {
            lemma_pow10_le(j as int, 7);
        }
        assert(pow10(7) == 10_000_000) by {
            reveal_with_fuel(pow10, 8);
        }
        proof {
            lemma_digits_val_nonneg(b@, from as int, e as int);
            lemma_pow10_pos(j - k);
            let dv = digits_val(b@, from as int, e as int);
            let p = pow10(j - k);
            assert((dv * p) * 10 == dv * (10 * p)) by (nonlinear_arith);
        }
        acc = acc * 10;
        j = j + 1;
    }
    assert(pow10(7) == 10_000_000) by {
        reveal_with_fuel(pow10, 8);
    }
    acc
}

/// A fractional digit run scales to a non-negative value.
pub proof fn lemma_frac_scaled_nonneg(bs: Seq<u8>, from: int, to: int)
    requires
        forall|i: int| from <= i < to ==> is_digit(#[trigger] bs[i]),
    ensures
        frac_scaled(bs, from, to) >= 0,
{
    let e = if to > from + 7 {
        from + 7
    } else {
        to
    };
    lemma_digits_val_nonneg(bs, from, e);
    lemma_pow10_pos(7 - (e - from));
    let dv = digits_val(bs, from, e);
    let p = pow10(7 - (e - from));
    assert(dv * p >= 0) by (nonlinear_arith)
        requires
            dv >= 0,
            p >= 1,
    ;
}

pub proof fn lemma_pow10_le(a: int, c: int)
    requires
        a <= c,
    ensures
        pow10(a) <= pow10(c),
    decreases c - a,
{
    if a < c {
        lemma_pow10_le(a, c - 1);
        lemma_pow10_pos(c - 1);
    }
}

} // verus!
