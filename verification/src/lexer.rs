//! Primitive lexers: signed-number tokens, their conversion to quantized
//! coordinates and to integer indices, and the end-of-line / comment rule.
//!
//! Every lexer works on a byte offset into the line and reports either the
//! offset after what it consumed or the offset of the offending remainder.
use vstd::prelude::*;
use vstd::string::StringSliceAdditionalSpecFns;
use crate::fixed::{Fixed, SCALE, is_digit, digits_val, frac_scaled, digits_acc, frac_acc};
use crate::record::{ParseError, ParseErrorKind};

verus! {

/// A blank byte: space or tab.
pub open spec fn is_space(b: u8) -> bool {
    b == 32 || b == 9
}

/// The offset of the first byte at or after `pos` that is not a space or tab.
pub open spec fn sp_skip_spaces(bs: Seq<u8>, pos: int) -> int
    decreases bs.len() - pos,
{
    if pos < 0 || pos >= bs.len() {
        pos
    } else if is_space(bs[pos]) {
        sp_skip_spaces(bs, pos + 1)
    } else {
        pos
    }
}

/// The offset of the first byte at or after `pos` that is not a digit.
pub open spec fn sp_scan_digits(bs: Seq<u8>, pos: int) -> int
    decreases bs.len() - pos,
{
    if pos < 0 || pos >= bs.len() {
        pos
    } else if is_digit(bs[pos]) {
        sp_scan_digits(bs, pos + 1)
    } else {
        pos
    }
}

/// `sp_skip_spaces` lands on the first non-blank byte and skips only blanks.
pub proof fn lemma_skip_spaces_first(bs: Seq<u8>, pos: int)
    requires
        0 <= pos <= bs.len(),
    ensures
        pos <= sp_skip_spaces(bs, pos) <= bs.len(),
        forall|i: int| pos <= i < sp_skip_spaces(bs, pos) ==> is_space(#[trigger] bs[i]),
        sp_skip_spaces(bs, pos) < bs.len() ==> !is_space(bs[sp_skip_spaces(bs, pos)]),
    decreases bs.len() - pos,
{
    if pos < bs.len() && is_space(bs[pos]) {
        lemma_skip_spaces_first(bs, pos + 1);
    }
}

/// The position where a number token's optional leading sign ends.
pub open spec fn sp_sign_end(bs: Seq<u8>, pos: int) -> int {
    if 0 <= pos < bs.len() && (bs[pos] == 43 || bs[pos] == 45) {
        pos + 1
    } else {
        pos
    }
}

/// Whether the number token starting at `pos` carries a minus sign.
pub open spec fn sp_num_neg(bs: Seq<u8>, pos: int) -> bool {
    0 <= pos < bs.len() && bs[pos] == 45
}

/// Where the integer digits of the number token starting at `pos` end.
pub open spec fn sp_int_end(bs: Seq<u8>, pos: int) -> int {
    sp_scan_digits(bs, sp_sign_end(bs, pos))
}

/// Whether the number token starting at `pos` has a decimal point.
pub open spec fn sp_has_dot(bs: Seq<u8>, pos: int) -> bool {
    let ie = sp_int_end(bs, pos);
    0 <= ie < bs.len() && bs[ie] == 46
}

/// Where the whole number token starting at `pos` ends.
pub open spec fn sp_num_end(bs: Seq<u8>, pos: int) -> int {
    if sp_has_dot(bs, pos) {
        sp_scan_digits(bs, sp_int_end(bs, pos) + 1)
    } else {
        sp_int_end(bs, pos)
    }
}

/// Recognition of a signed-number token: an optional `+` or `-`, one or more
/// digits, an optional `.`, and any further digits. `Ok` carries the offset
/// after the token; `Err` the offset where a digit was missing.
pub open spec fn sp_consume_num(bs: Seq<u8>, pos: int) -> Result<int, (ParseErrorKind, int)> {
    let se = sp_sign_end(bs, pos);
    if sp_scan_digits(bs, se) == se {
        Err((ParseErrorKind::MalformedNumber, se))
    } else {
        Ok(sp_num_end(bs, pos))
    }
}

/// The magnitude of the token starting at `pos`, scaled by `SCALE`: integer
/// digits packed above the seven kept fractional digits.
pub open spec fn sp_float_mag(bs: Seq<u8>, pos: int) -> int {
    let se = sp_sign_end(bs, pos);
    let ie = sp_int_end(bs, pos);
    digits_val(bs, se, ie) * (SCALE as int) + if sp_has_dot(bs, pos) {
        frac_scaled(bs, ie + 1, sp_num_end(bs, pos))
    } else {
        0
    }
}

/// Decimal conversion: the token's quantized value, or `NotAFloat` at the
/// token's start when the scaled magnitude does not fit the coordinate type.
pub open spec fn sp_parse_float(bs: Seq<u8>, pos: int) -> Result<
    (int, Fixed),
    (ParseErrorKind, int),
> {
    match sp_consume_num(bs, pos) {
        Err(e) => Err(e),
        Ok(end) => {
            let mag = sp_float_mag(bs, pos);
            if mag > i64::MAX {
                Err((ParseErrorKind::NotAFloat, pos))
            } else {
                Ok(
                    (
                        end,
                        Fixed {
                            scaled: (if sp_num_neg(bs, pos) {
                                -mag
                            } else {
                                mag
                            }) as i64,
                        },
                    ),
                )
            }
        },
    }
}

/// Integer conversion: `NotAnInteger` at the token's start when the token has
/// a decimal point or its value does not fit a signed 64-bit integer.
pub open spec fn sp_parse_num(bs: Seq<u8>, pos: int) -> Result<
    (int, i64),
    (ParseErrorKind, int),
> {
    match sp_consume_num(bs, pos) {
        Err(e) => Err(e),
        Ok(end) => {
            if sp_has_dot(bs, pos) {
                Err((ParseErrorKind::NotAnInteger, pos))
            } else {
                let mag = digits_val(bs, sp_sign_end(bs, pos), sp_int_end(bs, pos));
                if sp_num_neg(bs, pos) {
                    if mag > 0x8000_0000_0000_0000 {
                        Err((ParseErrorKind::NotAnInteger, pos))
                    } else {
                        Ok((end, (-mag) as i64))
                    }
                } else {
                    if mag > i64::MAX {
                        Err((ParseErrorKind::NotAnInteger, pos))
                    } else {
                        Ok((end, mag as i64))
                    }
                }
            }
        },
    }
}

/// At least one space or tab.
pub open spec fn sp_space1(bs: Seq<u8>, pos: int) -> Result<int, (ParseErrorKind, int)> {
    if sp_skip_spaces(bs, pos) == pos {
        Err((ParseErrorKind::ExpectedSpace, pos))
    } else {
        Ok(sp_skip_spaces(bs, pos))
    }
}

/// Nothing meaningful remains: blanks, then the line's end or a `#` comment
/// running to the end. `Ok` always carries the line's end.
pub open spec fn sp_end_line(bs: Seq<u8>, pos: int) -> Result<int, (ParseErrorKind, int)> {
    let p = sp_skip_spaces(bs, pos);
    if p == bs.len() || (0 <= p < bs.len() && bs[p] == 35) {
        Ok(bs.len() as int)
    } else {
        Err((ParseErrorKind::ExpectedEnd, p))
    }
}

/// Byte runs that agree read to the same number.
proof fn lemma_digits_val_congruent(bs1: Seq<u8>, bs2: Seq<u8>, from: int, to: int)
    requires
        forall|i: int| from <= i < to ==> bs1[i] == #[trigger] bs2[i],
    ensures
        digits_val(bs1, from, to) == digits_val(bs2, from, to),
    decreases to - from,
{
    if from < to {
        lemma_digits_val_congruent(bs1, bs2, from, to - 1);
    }
}

/// Quantization tolerance: two number tokens with the same sign, the same
/// integer digits and the same first seven fractional digits convert to the
/// same quantized value, whatever fractional digits follow.
pub proof fn lemma_float_value_ignores_deep_fraction(bs1: Seq<u8>, bs2: Seq<u8>, pos: int)
    requires
        sp_consume_num(bs1, pos) is Ok,
        sp_consume_num(bs2, pos) is Ok,
        sp_num_neg(bs1, pos) == sp_num_neg(bs2, pos),
        sp_sign_end(bs1, pos) == sp_sign_end(bs2, pos),
        sp_int_end(bs1, pos) == sp_int_end(bs2, pos),
        forall|i: int|
            sp_sign_end(bs1, pos) <= i < sp_int_end(bs1, pos) ==> bs1[i] == #[trigger] bs2[i],
        sp_has_dot(bs1, pos),
        sp_has_dot(bs2, pos),
        sp_num_end(bs1, pos) >= sp_int_end(bs1, pos) + 1 + 7,
        sp_num_end(bs2, pos) >= sp_int_end(bs2, pos) + 1 + 7,
        forall|i: int|
            sp_int_end(bs1, pos) + 1 <= i < sp_int_end(bs1, pos) + 1 + 7 ==> bs1[i]
                == #[trigger] bs2[i],
    ensures
        sp_parse_float(bs1, pos) is Ok <==> sp_parse_float(bs2, pos) is Ok,
        sp_parse_float(bs1, pos) is Ok ==> sp_parse_float(bs1, pos)->Ok_0.1 == sp_parse_float(
            bs2,
            pos,
        )->Ok_0.1,
{
    let se = sp_sign_end(bs1, pos);
    let ie = sp_int_end(bs1, pos);
    lemma_digits_val_congruent(bs1, bs2, se, ie);
    lemma_digits_val_congruent(bs1, bs2, ie + 1, ie + 1 + 7);
    assert(frac_scaled(bs1, ie + 1, sp_num_end(bs1, pos)) == frac_scaled(
        bs2,
        ie + 1,
        sp_num_end(bs2, pos),
    ));
    assert(sp_float_mag(bs1, pos) == sp_float_mag(bs2, pos));
}

/// An executable position result agrees with its specification.
pub open spec fn pos_res_matches(
    r: Result<usize, ParseError>,
    sp: Result<int, (ParseErrorKind, int)>,
) -> bool {
    match (r, sp) {
        (Ok(p), Ok(q)) => p as int == q,
        (Err(e), Err(f)) => e.kind == f.0 && e.pos as int == f.1,
        _ => false,
    }
}

/// An executable position-and-value result agrees with its specification.
pub open spec fn val_res_matches<V>(
    r: Result<(usize, V), ParseError>,
    sp: Result<(int, V), (ParseErrorKind, int)>,
) -> bool {
    match (r, sp) {
        (Ok(p), Ok(q)) => p.0 as int == q.0 && p.1 == q.1,
        (Err(e), Err(f)) => e.kind == f.0 && e.pos as int == f.1,
        _ => false,
    }
}

pub(crate) fn skip_spaces(b: &[u8], pos: usize) -> (r: usize)
    requires
        pos <= b@.len(),
    ensures
        r as int == sp_skip_spaces(b@, pos as int),
        pos <= r <= b@.len(),
{
    let mut i: usize = pos;
    while i < b.len() && (b[i] == 32 || b[i] == 9)
        invariant
            pos <= i <= b@.len(),
            sp_skip_spaces(b@, pos as int) == sp_skip_spaces(b@, i as int),
        decreases b@.len() - i,
    {
        i = i + 1;
    }
    i
}

pub(crate) fn scan_digits(b: &[u8], pos: usize) -> (r: usize)
    requires
        pos <= b@.len(),
    ensures
        r as int == sp_scan_digits(b@, pos as int),
        pos <= r <= b@.len(),
        forall|i: int| pos <= i < r ==> is_digit(#[trigger] b@[i]),
{
    let mut i: usize = pos;
    while i < b.len() && 48 <= b[i] && b[i] <= 57
        invariant
            pos <= i <= b@.len(),
            sp_scan_digits(b@, pos as int) == sp_scan_digits(b@, i as int),
            forall|k: int| pos <= k < i ==> is_digit(#[trigger] b@[k]),
        decreases b@.len() - i,
    {
        i = i + 1;
    }
    i
}

pub(crate) fn lex_num(b: &[u8], pos: usize) -> (r: Result<usize, ParseError>)
    requires
        pos <= b@.len(),
    ensures
        pos_res_matches(r, sp_consume_num(b@, pos as int)),
        match r {
            Ok(p2) => pos <= p2 <= b@.len(),
            Err(e) => pos <= e.pos <= b@.len(),
        },
{
    let mut p: usize = pos;
    if p < b.len() && (b[p] == 43 || b[p] == 45) {
        p = p + 1;
    }
    let de = scan_digits(b, p);
    if de == p {
        return Err(ParseError { kind: ParseErrorKind::MalformedNumber, pos: p });
    }
    let mut e: usize = de;
    if e < b.len() && b[e] == 46 {
        e = scan_digits(b, e + 1);
    }
    Ok(e)
}

pub(crate) fn lex_space1(b: &[u8], pos: usize) -> (r: Result<usize, ParseError>)
    requires
        pos <= b@.len(),
    ensures
        pos_res_matches(r, sp_space1(b@, pos as int)),
        match r {
            Ok(p2) => pos <= p2 <= b@.len(),
            Err(e) => pos <= e.pos <= b@.len(),
        },
{
    let p = skip_spaces(b, pos);
    if p == pos {
        Err(ParseError { kind: ParseErrorKind::ExpectedSpace, pos })
    } else {
        Ok(p)
    }
}

pub(crate) fn lex_end_line(b: &[u8], pos: usize) -> (r: Result<usize, ParseError>)
    requires
        pos <= b@.len(),
    ensures
        pos_res_matches(r, sp_end_line(b@, pos as int)),
        match r {
            Ok(p2) => p2 == b@.len(),
            Err(e) => pos <= e.pos <= b@.len(),
        },
{
    let p = skip_spaces(b, pos);
    if p == b.len() {
        Ok(p)
    } else if b[p] == 35 {
        Ok(b.len())
    } else {
        Err(ParseError { kind: ParseErrorKind::ExpectedEnd, pos: p })
    }
}

pub(crate) fn lex_float(b: &[u8], pos: usize) -> (r: Result<(usize, Fixed), ParseError>)
    requires
        pos <= b@.len(),
    ensures
        val_res_matches(r, sp_parse_float(b@, pos as int)),
        match r {
            Ok(p) => pos <= p.0 <= b@.len(),
            Err(e) => pos <= e.pos <= b@.len(),
        },
{
    let neg = pos < b.len() && b[pos] == 45;
    let se: usize = if pos < b.len() && (b[pos] == 43 || b[pos] == 45) {
        pos + 1
    } else {
        pos
    };
    let ie = scan_digits(b, se);
    if ie == se {
        return Err(ParseError { kind: ParseErrorKind::MalformedNumber, pos: se });
    }
    let has_dot = ie < b.len() && b[ie] == 46;
    let end: usize = if has_dot {
        scan_digits(b, ie + 1)
    } else {
        ie
    };
    let iv = digits_acc(b, se, ie, 922_337_203_685u128);
    match iv {
        None => {
            proof {
                crate::fixed::lemma_frac_scaled_nonneg(b@, ie + 1, sp_num_end(b@, pos as int));
                let dv = digits_val(b@, se as int, ie as int);
                assert(dv >= 922_337_203_686);
                assert(dv * 10_000_000 >= 922_337_203_686i64 * 10_000_000) by (nonlinear_arith)
                    requires
                        dv >= 922_337_203_686,
                ;
            }
            Err(ParseError { kind: ParseErrorKind::NotAFloat, pos })
        },
        Some(v) => {
            let fr: u64 = if has_dot {
                frac_acc(b, ie + 1, end)
            } else {
                0
            };
            let mag: u128 = v * 10_000_000u128 + fr as u128;
            if mag > 0x7fff_ffff_ffff_ffffu128 {
                Err(ParseError { kind: ParseErrorKind::NotAFloat, pos })
            } else {
                let m = mag as i64;
                let val: i64 = if neg {
                    -m
                } else {
                    m
                };
                Ok((end, Fixed { scaled: val }))
            }
        },
    }
}

pub(crate) fn lex_int(b: &[u8], pos: usize) -> (r: Result<(usize, i64), ParseError>)
    requires
        pos <= b@.len(),
    ensures
        val_res_matches(r, sp_parse_num(b@, pos as int)),
        match r {
            Ok(p) => pos <= p.0 <= b@.len(),
            Err(e) => pos <= e.pos <= b@.len(),
        },
{
    let neg = pos < b.len() && b[pos] == 45;
    let se: usize = if pos < b.len() && (b[pos] == 43 || b[pos] == 45) {
        pos + 1
    } else {
        pos
    };
    let ie = scan_digits(b, se);
    if ie == se {
        return Err(ParseError { kind: ParseErrorKind::MalformedNumber, pos: se });
    }
    let has_dot = ie < b.len() && b[ie] == 46;
    if has_dot {
        return Err(ParseError { kind: ParseErrorKind::NotAnInteger, pos });
    }
    let iv = digits_acc(b, se, ie, 0x8000_0000_0000_0000u128);
    match iv {
        None => Err(ParseError { kind: ParseErrorKind::NotAnInteger, pos }),
        Some(v) => {
            if neg {
                if v == 0x8000_0000_0000_0000u128 {
                    Ok((ie, i64::MIN))
                } else {
                    Ok((ie, -(v as i64)))
                }
            } else {
                if v > 0x7fff_ffff_ffff_ffffu128 {
                    Err(ParseError { kind: ParseErrorKind::NotAnInteger, pos })
                } else {
                    Ok((ie, v as i64))
                }
            }
        },
    }
}

/// Recognizes a signed-number token at byte offset `pos` of `s`; `Ok` is the
/// offset just past the token.
pub fn consume_num(s: &str, pos: usize) -> (r: Result<usize, ParseError>)
    requires
        pos <= s.spec_bytes().len(),
    ensures
        pos_res_matches(r, sp_consume_num(s.spec_bytes(), pos as int)),
{
    lex_num(s.as_bytes(), pos)
}

/// Reads a signed-number token at byte offset `pos` of `s` as a quantized
/// decimal coordinate.
pub fn parse_float(s: &str, pos: usize) -> (r: Result<(usize, Fixed), ParseError>)
    requires
        pos <= s.spec_bytes().len(),
    ensures
        val_res_matches(r, sp_parse_float(s.spec_bytes(), pos as int)),
{
    lex_float(s.as_bytes(), pos)
}

/// Reads a signed-number token at byte offset `pos` of `s` as an integer
/// index.
pub fn parse_num(s: &str, pos: usize) -> (r: Result<(usize, i64), ParseError>)
    requires
        pos <= s.spec_bytes().len(),
    ensures
        val_res_matches(r, sp_parse_num(s.spec_bytes(), pos as int)),
{
    lex_int(s.as_bytes(), pos)
}

/// Accepts only trailing blanks and an optional `#` comment from byte offset
/// `pos` to the end of `s`.
pub fn end_line(s: &str, pos: usize) -> (r: Result<usize, ParseError>)
    requires
        pos <= s.spec_bytes().len(),
    ensures
        pos_res_matches(r, sp_end_line(s.spec_bytes(), pos as int)),
{
    lex_end_line(s.as_bytes(), pos)
}

} // verus!
