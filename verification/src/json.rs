//! Byte-level scanning primitives for the provider's JSON documents.
//!
//! Each executable scanner has a specification twin: a recursive spec
//! function over the byte sequence that defines exactly which inputs are
//! accepted and what they mean.  Strings support the single-character JSON
//! escapes and `\u` escapes (surrogate pairs included), decoded to UTF-8
//! bytes.  Numbers follow the JSON grammar (optional minus, no leading
//! zeros, optional fraction and exponent) and are read into fixed-point
//! thousandths, truncating below a thousandth and rejecting magnitudes the
//! fixed point cannot hold.  Bytes are written as hex ASCII codes: 0x22 is
//! the quote, 0x5c the backslash, 0x7b/0x7d the braces, 0x5b/0x5d the
//! brackets, 0x2c the comma, 0x3a the colon.

use vstd::prelude::*;
use vstd::arithmetic::div_mod::lemma_fundamental_div_mod;
use vstd::arithmetic::div_mod::lemma_mod_division_less_than_divisor;

verus! {

/// JSON insignificant whitespace: space, tab, line feed, carriage return.
pub open spec fn is_ws(b: u8) -> bool {
    b == 0x20 || b == 0x09 || b == 0x0a || b == 0x0d
}

/// ASCII decimal digit.
pub open spec fn is_digit(b: u8) -> bool {
    0x30 <= b <= 0x39
}

/// Position of the first byte at or after `i` that is not whitespace.
pub open spec fn spec_ws_end(s: Seq<u8>, i: int) -> int
    decreases s.len() - i,
{
    if 0 <= i < s.len() && is_ws(s[i]) {
        spec_ws_end(s, i + 1)
    } else {
        i
    }
}

/// Skip insignificant whitespace starting at `i`.
pub fn ws_end(s: &Vec<u8>, i: usize) -> (j: usize)
    requires
        i <= s@.len(),
    ensures
        j == spec_ws_end(s@, i as int),
        i <= j <= s@.len(),
    decreases s@.len() - i,
{
    if i < s.len() {
        let b: u8 = s[i];
        if b == 0x20 || b == 0x09 || b == 0x0a || b == 0x0d {
            return ws_end(s, i + 1);
        }
    }
    i
}

/// Position just after the run of decimal digits starting at `i`.
pub open spec fn spec_digits_end(s: Seq<u8>, i: int) -> int
    decreases s.len() - i,
{
    if 0 <= i < s.len() && is_digit(s[i]) {
        spec_digits_end(s, i + 1)
    } else {
        i
    }
}

fn digits_end(s: &Vec<u8>, i: usize) -> (j: usize)
    requires
        i <= s@.len(),
    ensures
        j == spec_digits_end(s@, i as int),
        i <= j <= s@.len(),
    decreases s@.len() - i,
{
    if i < s.len() && s[i] >= 0x30 && s[i] <= 0x39 {
        return digits_end(s, i + 1);
    }
    i
}

/// Replacement byte of a single-character escape, `None` for an escape that
/// is not one (`\u` is handled separately).
pub open spec fn spec_unescape(b: u8) -> Option<u8> {
    if b == 0x22 {
        Some(0x22)
    } else if b == 0x5c {
        Some(0x5c)
    } else if b == 0x2f {
        Some(0x2f)
    } else if b == 0x62 {
        Some(0x08)
    } else if b == 0x66 {
        Some(0x0c)
    } else if b == 0x6e {
        Some(0x0a)
    } else if b == 0x72 {
        Some(0x0d)
    } else if b == 0x74 {
        Some(0x09)
    } else {
        None
    }
}

/// Value of a hex digit, `None` for any other byte.
pub open spec fn spec_hex_val(b: u8) -> Option<u8> {
    if 0x30 <= b <= 0x39 {
        Some((b - 0x30) as u8)
    } else if 0x61 <= b <= 0x66 {
        Some((b - 0x61 + 10) as u8)
    } else if 0x41 <= b <= 0x46 {
        Some((b - 0x41 + 10) as u8)
    } else {
        None
    }
}

fn hex_val(b: u8) -> (r: Option<u8>)
    ensures
        r == spec_hex_val(b),
{
    if b >= 0x30 && b <= 0x39 {
        Some(b - 0x30)
    } else if b >= 0x61 && b <= 0x66 {
        Some(b - 0x61 + 10)
    } else if b >= 0x41 && b <= 0x46 {
        Some(b - 0x41 + 10)
    } else {
        None
    }
}

/// Value of the four hex digits at `i` .. `i + 4`.
pub open spec fn spec_hex4(s: Seq<u8>, i: int) -> Option<int> {
    if 0 <= i && i + 3 < s.len() {
        match (spec_hex_val(s[i]), spec_hex_val(s[i + 1]), spec_hex_val(s[i + 2]), spec_hex_val(
            s[i + 3],
        )) {
            (Some(a), Some(b), Some(c), Some(d)) => Some(
                a * 4096 + b * 256 + c * 16 + d,
            ),
            _ => None,
        }
    } else {
        None
    }
}

fn hex4(s: &Vec<u8>, i: usize) -> (r: Option<u32>)
    requires
        i <= s@.len(),
    ensures
        match r {
            Some(v) => spec_hex4(s@, i as int) == Some(v as int) && i + 4 <= s@.len() && v
                < 0x10000,
            None => spec_hex4(s@, i as int) is None,
        },
{
    if s.len() > 3 && i < s.len() - 3 {
        match (hex_val(s[i]), hex_val(s[i + 1]), hex_val(s[i + 2]), hex_val(s[i + 3])) {
            (Some(a), Some(b), Some(c), Some(d)) => Some(
                (a as u32) * 4096 + (b as u32) * 256 + (c as u32) * 16 + (d as u32),
            ),
            _ => None,
        }
    } else {
        None
    }
}

/// UTF-8 bytes of the code point `cp`.
pub open spec fn spec_utf8(cp: int) -> Seq<u8> {
    if cp < 0x80 {
        seq![cp as u8]
    } else if cp < 0x800 {
        seq![(0xC0 + cp / 0x40) as u8, (0x80 + cp % 0x40) as u8]
    } else if cp < 0x10000 {
        seq![
            (0xE0 + cp / 0x1000) as u8,
            (0x80 + (cp / 0x40) % 0x40) as u8,
            (0x80 + cp % 0x40) as u8,
        ]
    } else {
        seq![
            (0xF0 + cp / 0x40000) as u8,
            (0x80 + (cp / 0x1000) % 0x40) as u8,
            (0x80 + (cp / 0x40) % 0x40) as u8,
            (0x80 + cp % 0x40) as u8,
        ]
    }
}

fn push_utf8(out: &mut Vec<u8>, cp: u32)
    requires
        cp < 0x110000,
    ensures
        final(out)@ == old(out)@ + spec_utf8(cp as int),
{
    if cp < 0x80 {
        out.push(cp as u8);
    } else if cp < 0x800 {
        out.push((0xC0 + cp / 0x40) as u8);
        out.push((0x80 + cp % 0x40) as u8);
    } else if cp < 0x10000 {
        out.push((0xE0 + cp / 0x1000) as u8);
        out.push((0x80 + (cp / 0x40) % 0x40) as u8);
        out.push((0x80 + cp % 0x40) as u8);
    } else {
        out.push((0xF0 + cp / 0x40000) as u8);
        out.push((0x80 + (cp / 0x1000) % 0x40) as u8);
        out.push((0x80 + (cp / 0x40) % 0x40) as u8);
        out.push((0x80 + cp % 0x40) as u8);
    }
    proof {
        assert(out@ =~= old(out)@ + spec_utf8(cp as int));
    }
}

/// Contents of a string literal read from just after the opening quote at
/// `i - 1`, with `acc` the bytes unescaped so far.  Yields the unescaped
/// contents and the position just past the closing quote; `None` when the
/// literal is unterminated, uses an unknown escape, or holds a `\u` escape
/// that is not a code point or a well-formed surrogate pair.
pub open spec fn spec_string_body(s: Seq<u8>, i: int, acc: Seq<u8>) -> Option<(Seq<u8>, int)>
    decreases s.len() - i,
{
    if i < 0 || i >= s.len() {
        None
    } else if s[i] == 0x22 {
        Some((acc, i + 1))
    } else if s[i] == 0x5c {
        if i + 1 < s.len() {
            if s[i + 1] == 0x75 {
                match spec_hex4(s, i + 2) {
                    None => None,
                    Some(cp) => {
                        if 0xD800 <= cp < 0xDC00 {
                            if i + 11 < s.len() && s[i + 6] == 0x5c && s[i + 7] == 0x75 {
                                match spec_hex4(s, i + 8) {
                                    None => None,
                                    Some(lo) => {
                                        if 0xDC00 <= lo < 0xE000 {
                                            let cc = 0x10000 + (cp - 0xD800) * 0x400 + (lo
                                                - 0xDC00);
                                            spec_string_body(s, i + 12, acc + spec_utf8(cc))
                                        } else {
                                            None
                                        }
                                    },
                                }
                            } else {
                                None
                            }
                        } else if 0xDC00 <= cp < 0xE000 {
                            None
                        } else {
                            spec_string_body(s, i + 6, acc + spec_utf8(cp))
                        }
                    },
                }
            } else {
                match spec_unescape(s[i + 1]) {
                    Some(u) => spec_string_body(s, i + 2, acc.push(u)),
                    None => None,
                }
            }
        } else {
            None
        }
    } else {
        spec_string_body(s, i + 1, acc.push(s[i]))
    }
}

/// A complete string literal whose opening quote stands at `i`.
pub open spec fn spec_string_at(s: Seq<u8>, i: int) -> Option<(Seq<u8>, int)> {
    if 0 <= i < s.len() && s[i] == 0x22 {
        spec_string_body(s, i + 1, Seq::empty())
    } else {
        None
    }
}

fn string_body(s: &Vec<u8>, i: usize, acc: Vec<u8>) -> (r: Result<(Vec<u8>, usize), ()>)
    requires
        i <= s@.len(),
    ensures
        match r {
            Ok((c, e)) => spec_string_body(s@, i as int, acc@) == Some((c@, e as int)) && i < e
                <= s@.len(),
            Err(()) => spec_string_body(s@, i as int, acc@) is None,
        },
    decreases s@.len() - i,
{
    if i >= s.len() {
        return Err(());
    }
    let b: u8 = s[i];
    if b == 0x22 {
        Ok((acc, i + 1))
    } else if b == 0x5c {
        if i + 1 < s.len() {
            let n: u8 = s[i + 1];
            if n == 0x75 {
                match hex4(s, i + 2) {
                    None => Err(()),
                    Some(cp) => {
                        if cp >= 0xD800 && cp < 0xDC00 {
                            if s.len() > 11 && i < s.len() - 11 && s[i + 6] == 0x5c && s[i + 7]
                                == 0x75 {
                                match hex4(s, i + 8) {
                                    None => Err(()),
                                    Some(lo) => {
                                        if lo >= 0xDC00 && lo < 0xE000 {
                                            let cc: u32 = 0x10000 + (cp - 0xD800) * 0x400 + (lo
                                                - 0xDC00);
                                            let mut acc2 = acc;
                                            push_utf8(&mut acc2, cc);
                                            string_body(s, i + 12, acc2)
                                        } else {
                                            Err(())
                                        }
                                    },
                                }
                            } else {
                                Err(())
                            }
                        } else if cp >= 0xDC00 && cp < 0xE000 {
                            Err(())
                        } else {
                            let mut acc2 = acc;
                            push_utf8(&mut acc2, cp);
                            string_body(s, i + 6, acc2)
                        }
                    },
                }
            } else {
                let u: u8 = if n == 0x22 {
                    0x22
                } else if n == 0x5c {
                    0x5c
                } else if n == 0x2f {
                    0x2f
                } else if n == 0x62 {
                    0x08
                } else if n == 0x66 {
                    0x0c
                } else if n == 0x6e {
                    0x0a
                } else if n == 0x72 {
                    0x0d
                } else if n == 0x74 {
                    0x09
                } else {
                    return Err(());
                };
                let mut acc2 = acc;
                acc2.push(u);
                string_body(s, i + 2, acc2)
            }
        } else {
            Err(())
        }
    } else {
        let mut acc2 = acc;
        acc2.push(b);
        string_body(s, i + 1, acc2)
    }
}

/// Read the string literal whose opening quote stands at `i`.
pub fn string_at(s: &Vec<u8>, i: usize) -> (r: Result<(Vec<u8>, usize), ()>)
    requires
        i <= s@.len(),
    ensures
        match r {
            Ok((c, e)) => spec_string_at(s@, i as int) == Some((c@, e as int)) && i < e
                <= s@.len(),
            Err(()) => spec_string_at(s@, i as int) is None,
        },
{
    if i < s.len() && s[i] == 0x22 {
        string_body(s, i + 1, Vec::new())
    } else {
        Err(())
    }
}

/// Value and end position of a run of decimal digits starting at `i`, with
/// `acc` the value read so far.  `None` when the value would exceed `cap`.
pub open spec fn spec_digits_loop(s: Seq<u8>, i: int, acc: int, cap: int) -> Option<(int, int)>
    decreases s.len() - i,
{
    if 0 <= i < s.len() && is_digit(s[i]) {
        let acc2 = acc * 10 + (s[i] - 0x30);
        if acc2 > cap {
            None
        } else {
            spec_digits_loop(s, i + 1, acc2, cap)
        }
    } else {
        Some((acc, i))
    }
}

/// Read a run of decimal digits starting at `i`, into a value capped at
/// `cap`.
pub fn digits_loop(s: &Vec<u8>, i: usize, acc: u64, cap: u64) -> (r: Result<(u64, usize), ()>)
    requires
        i <= s@.len(),
        acc <= cap,
    ensures
        match r {
            Ok((v, e)) => spec_digits_loop(s@, i as int, acc as int, cap as int) == Some((
                v as int,
                e as int,
            )) && v <= cap && i <= e <= s@.len(),
            Err(()) => spec_digits_loop(s@, i as int, acc as int, cap as int) is None,
        },
    decreases s@.len() - i,
{
    if i < s.len() && s[i] >= 0x30 && s[i] <= 0x39 {
        let d: u64 = (s[i] - 0x30) as u64;
        proof {
            lemma_fundamental_div_mod(cap as int, 10);
            lemma_mod_division_less_than_divisor(cap as int, 10);
        }
        if acc > cap / 10 || (acc == cap / 10 && d > cap % 10) {
            assert(acc * 10 + d > cap);
            Err(())
        } else {
            assert(acc * 10 + d <= cap) by (nonlinear_arith)
                requires
                    acc <= cap / 10,
                    d <= 9,
                    acc < cap / 10 || d <= cap % 10,
                    cap == 10 * (cap / 10) + cap % 10,
                    0 <= cap % 10 < 10,
            ;
            digits_loop(s, i + 1, acc * 10 + d, cap)
        }
    } else {
        Ok((acc, i))
    }
}

/// Whether the integer part starting at `i` begins with a forbidden leading
/// zero: a `0` followed by another digit.
pub open spec fn spec_leading_zero(s: Seq<u8>, i: int) -> bool {
    0 <= i && i + 1 < s.len() && s[i] == 0x30 && is_digit(s[i + 1])
}

/// Largest reading the decoder holds, in thousandths.  A value beyond this
/// magnitude, or a mantissa of more than sixteen significant digits, is
/// rejected as out of the fixed point's range.
pub open spec fn spec_max_millis() -> int {
    999_999_999_999_999
}

/// Mantissa digits read from `i`: `acc` is the value so far, `dexp` the
/// decimal exponent so far (each fraction digit lowers it by one), `frac`
/// whether the digits follow the decimal point.  A digit is folded into
/// `acc` while `acc` is below 10^15; past that a zero only adjusts the
/// exponent and a non-zero digit is rejected.  The exponent saturates at
/// ten million in magnitude, far past the representable range.
pub open spec fn spec_mant_loop(s: Seq<u8>, i: int, acc: int, dexp: int, frac: bool) -> Option<
    (int, int, int),
>
    decreases s.len() - i,
{
    if 0 <= i < s.len() && is_digit(s[i]) {
        let d = s[i] - 0x30;
        if acc < 1_000_000_000_000_000 {
            let dexp2 = if frac && dexp > -10_000_000 {
                dexp - 1
            } else {
                dexp
            };
            spec_mant_loop(s, i + 1, acc * 10 + d, dexp2, frac)
        } else if d == 0 {
            let dexp2 = if !frac && dexp < 10_000_000 {
                dexp + 1
            } else {
                dexp
            };
            spec_mant_loop(s, i + 1, acc, dexp2, frac)
        } else {
            None
        }
    } else {
        Some((acc, dexp, i))
    }
}

fn mant_loop(s: &Vec<u8>, i: usize, acc: u64, dexp: i64, frac: bool) -> (r: Result<
    (u64, i64, usize),
    (),
>)
    requires
        i <= s@.len(),
        acc <= 9_999_999_999_999_999,
        -10_000_000 <= dexp <= 10_000_000,
    ensures
        match r {
            Ok((a, dx, e)) => spec_mant_loop(s@, i as int, acc as int, dexp as int, frac)
                == Some((a as int, dx as int, e as int)) && a <= 9_999_999_999_999_999
                && -10_000_000 <= dx <= 10_000_000 && i <= e <= s@.len(),
            Err(()) => spec_mant_loop(s@, i as int, acc as int, dexp as int, frac) is None,
        },
    decreases s@.len() - i,
{
    if i < s.len() && s[i] >= 0x30 && s[i] <= 0x39 {
        let d: u64 = (s[i] - 0x30) as u64;
        if acc < 1_000_000_000_000_000 {
            let dexp2: i64 = if frac && dexp > -10_000_000 {
                dexp - 1
            } else {
                dexp
            };
            mant_loop(s, i + 1, acc * 10 + d, dexp2, frac)
        } else if d == 0 {
            let dexp2: i64 = if !frac && dexp < 10_000_000 {
                dexp + 1
            } else {
                dexp
            };
            mant_loop(s, i + 1, acc, dexp2, frac)
        } else {
            Err(())
        }
    } else {
        Ok((acc, dexp, i))
    }
}

/// Exponent digits read from `i`, the value saturating at one million;
/// beyond that the scaled value is out of range, or zero, regardless.
pub open spec fn spec_exp_loop(s: Seq<u8>, i: int, acc: int) -> (int, int)
    decreases s.len() - i,
{
    if 0 <= i < s.len() && is_digit(s[i]) {
        let a2 = if acc < 1_000_000 {
            acc * 10 + (s[i] - 0x30)
        } else {
            acc
        };
        spec_exp_loop(s, i + 1, a2)
    } else {
        (acc, i)
    }
}

fn exp_loop(s: &Vec<u8>, i: usize, acc: u64) -> (r: (u64, usize))
    requires
        i <= s@.len(),
        acc <= 10_000_008,
    ensures
        (r.0 as int, r.1 as int) == spec_exp_loop(s@, i as int, acc as int),
        r.0 <= 10_000_008,
        i <= r.1 <= s@.len(),
    decreases s@.len() - i,
{
    if i < s.len() && s[i] >= 0x30 && s[i] <= 0x39 {
        let a2: u64 = if acc < 1_000_000 {
            acc * 10 + (s[i] - 0x30) as u64
        } else {
            acc
        };
        exp_loop(s, i + 1, a2)
    } else {
        (acc, i)
    }
}

/// `v` scaled up by `k` decimal places, `None` past the largest reading.
pub open spec fn spec_shift_up(v: int, k: int) -> Option<int>
    decreases k,
{
    if v > spec_max_millis() {
        None
    } else if k <= 0 {
        Some(v)
    } else {
        spec_shift_up(v * 10, k - 1)
    }
}

fn shift_up(v: u64, k: i64) -> (r: Result<u64, ()>)
    requires
        v <= 9_999_999_999_999_999,
    ensures
        match r {
            Ok(w) => spec_shift_up(v as int, k as int) == Some(w as int) && w
                <= 999_999_999_999_999,
            Err(()) => spec_shift_up(v as int, k as int) is None,
        },
    decreases k,
{
    if v > 999_999_999_999_999 {
        Err(())
    } else if k <= 0 {
        Ok(v)
    } else {
        shift_up(v * 10, k - 1)
    }
}

/// `v` scaled down by `k` decimal places, truncating.
pub open spec fn spec_shift_down(v: int, k: int) -> int
    decreases k,
{
    if k <= 0 || v <= 0 {
        v
    } else {
        spec_shift_down(v / 10, k - 1)
    }
}

fn shift_down(v: u64, k: i64) -> (r: u64)
    ensures
        r as int == spec_shift_down(v as int, k as int),
        r <= v,
    decreases k,
{
    if k <= 0 || v == 0 {
        v
    } else {
        proof {
            lemma_fundamental_div_mod(v as int, 10);
            lemma_mod_division_less_than_divisor(v as int, 10);
        }
        shift_down(v / 10, k - 1)
    }
}

/// A JSON number starting at `i`, read to a signed fixed-point value in
/// thousandths: an optional minus, an integer part without leading zeros,
/// an optional fraction, an optional exponent.  Digits below a thousandth
/// are truncated away; a magnitude past `spec_max_millis` is `None`.
/// Yields the value and the end position.
pub open spec fn spec_number_at(s: Seq<u8>, i: int) -> Option<(int, int)> {
    let neg = 0 <= i < s.len() && s[i] == 0x2d;
    let j = if neg {
        i + 1
    } else {
        i
    };
    if 0 <= j < s.len() && is_digit(s[j]) && !spec_leading_zero(s, j) {
        match spec_mant_loop(s, j, 0, 0, false) {
            None => None,
            Some((acc1, dexp1, k)) => {
                let fr = if k < s.len() && s[k] == 0x2e {
                    if k + 1 < s.len() && is_digit(s[k + 1]) {
                        spec_mant_loop(s, k + 1, acc1, dexp1, true)
                    } else {
                        None
                    }
                } else {
                    Some((acc1, dexp1, k))
                };
                match fr {
                    None => None,
                    Some((acc, dexp, k2)) => {
                        let ex = if k2 < s.len() && (s[k2] == 0x65 || s[k2] == 0x45) {
                            let eneg = k2 + 1 < s.len() && s[k2 + 1] == 0x2d;
                            let m = if k2 + 1 < s.len() && (s[k2 + 1] == 0x2b || s[k2 + 1]
                                == 0x2d) {
                                k2 + 2
                            } else {
                                k2 + 1
                            };
                            if m < s.len() && is_digit(s[m]) {
                                let ee = spec_exp_loop(s, m, 0);
                                Some(
                                    (
                                        if eneg {
                                            dexp - ee.0
                                        } else {
                                            dexp + ee.0
                                        },
                                        ee.1,
                                    ),
                                )
                            } else {
                                None
                            }
                        } else {
                            Some((dexp, k2))
                        };
                        match ex {
                            None => None,
                            Some((dtot, end)) => {
                                if acc == 0 {
                                    Some((0, end))
                                } else if dtot + 3 >= 0 {
                                    match spec_shift_up(acc, dtot + 3) {
                                        None => None,
                                        Some(v) => Some(
                                            (
                                                if neg {
                                                    -v
                                                } else {
                                                    v
                                                },
                                                end,
                                            ),
                                        ),
                                    }
                                } else {
                                    let v = spec_shift_down(acc, -(dtot + 3));
                                    Some(
                                        (
                                            if neg {
                                                -v
                                            } else {
                                                v
                                            },
                                            end,
                                        ),
                                    )
                                }
                            },
                        }
                    },
                }
            },
        }
    } else {
        None
    }
}

/// Read the JSON number starting at `i`.
pub fn number_at(s: &Vec<u8>, i: usize) -> (r: Result<(i64, usize), ()>)
    requires
        i <= s@.len(),
    ensures
        match r {
            Ok((v, e)) => spec_number_at(s@, i as int) == Some((v as int, e as int)) && i <= e
                <= s@.len(),
            Err(()) => spec_number_at(s@, i as int) is None,
        },
{
    let neg: bool = i < s.len() && s[i] == 0x2d;
    let j: usize = if neg {
        i + 1
    } else {
        i
    };
    if !(j < s.len() && s[j] >= 0x30 && s[j] <= 0x39) {
        return Err(());
    }
    if s[j] == 0x30 && j + 1 < s.len() && s[j + 1] >= 0x30 && s[j + 1] <= 0x39 {
        return Err(());
    }
    let (acc1, dexp1, k) = match mant_loop(s, j, 0, 0, false) {
        Err(()) => {
            return Err(());
        },
        Ok(t) => t,
    };
    let (acc, dexp, k2): (u64, i64, usize) = if k < s.len() && s[k] == 0x2e {
        if k + 1 < s.len() && s[k + 1] >= 0x30 && s[k + 1] <= 0x39 {
            match mant_loop(s, k + 1, acc1, dexp1, true) {
                Err(()) => {
                    return Err(());
                },
                Ok(t) => t,
            }
        } else {
            return Err(());
        }
    } else {
        (acc1, dexp1, k)
    };
    let (dtot, end): (i64, usize) = if k2 < s.len() && (s[k2] == 0x65 || s[k2] == 0x45) {
        let eneg: bool = k2 + 1 < s.len() && s[k2 + 1] == 0x2d;
        let m: usize = if k2 + 1 < s.len() && (s[k2 + 1] == 0x2b || s[k2 + 1] == 0x2d) {
            k2 + 2
        } else {
            k2 + 1
        };
        if m < s.len() && s[m] >= 0x30 && s[m] <= 0x39 {
            let (e, me) = exp_loop(s, m, 0);
            if eneg {
                (dexp - (e as i64), me)
            } else {
                (dexp + (e as i64), me)
            }
        } else {
            return Err(());
        }
    } else {
        (dexp, k2)
    };
    if acc == 0 {
        return Ok((0, end));
    }
    if dtot + 3 >= 0 {
        match shift_up(acc, dtot + 3) {
            Err(()) => Err(()),
            Ok(v) => if neg {
                Ok((0 - (v as i64), end))
            } else {
                Ok((v as i64, end))
            },
        }
    } else {
        let v: u64 = shift_down(acc, 0 - (dtot + 3));
        if neg {
            Ok((0 - (v as i64), end))
        } else {
            Ok((v as i64, end))
        }
    }
}

/// End of a syntactically valid JSON number starting at `i`, without range
/// checks: the shape a skipped member's number must have.
pub open spec fn spec_num_end(s: Seq<u8>, i: int) -> Option<int> {
    let j = if 0 <= i < s.len() && s[i] == 0x2d {
        i + 1
    } else {
        i
    };
    if 0 <= j < s.len() && is_digit(s[j]) && !spec_leading_zero(s, j) {
        let k = spec_digits_end(s, j);
        let k2 = if k < s.len() && s[k] == 0x2e {
            if k + 1 < s.len() && is_digit(s[k + 1]) {
                spec_digits_end(s, k + 1)
            } else {
                -1
            }
        } else {
            k
        };
        if k2 < 0 {
            None
        } else if k2 < s.len() && (s[k2] == 0x65 || s[k2] == 0x45) {
            let m = if k2 + 1 < s.len() && (s[k2 + 1] == 0x2b || s[k2 + 1] == 0x2d) {
                k2 + 2
            } else {
                k2 + 1
            };
            if m < s.len() && is_digit(s[m]) {
                Some(spec_digits_end(s, m))
            } else {
                None
            }
        } else {
            Some(k2)
        }
    } else {
        None
    }
}

fn num_end(s: &Vec<u8>, i: usize) -> (r: Result<usize, ()>)
    requires
        i <= s@.len(),
    ensures
        match r {
            Ok(e) => spec_num_end(s@, i as int) == Some(e as int) && i <= e <= s@.len(),
            Err(()) => spec_num_end(s@, i as int) is None,
        },
{
    let j: usize = if i < s.len() && s[i] == 0x2d {
        i + 1
    } else {
        i
    };
    if !(j < s.len() && s[j] >= 0x30 && s[j] <= 0x39) {
        return Err(());
    }
    if s[j] == 0x30 && j + 1 < s.len() && s[j + 1] >= 0x30 && s[j + 1] <= 0x39 {
        return Err(());
    }
    let k = digits_end(s, j);
    let k2: usize = if k < s.len() && s[k] == 0x2e {
        if k + 1 < s.len() && s[k + 1] >= 0x30 && s[k + 1] <= 0x39 {
            digits_end(s, k + 1)
        } else {
            return Err(());
        }
    } else {
        k
    };
    if k2 < s.len() && (s[k2] == 0x65 || s[k2] == 0x45) {
        let m: usize = if k2 + 1 < s.len() && (s[k2 + 1] == 0x2b || s[k2 + 1] == 0x2d) {
            k2 + 2
        } else {
            k2 + 1
        };
        if m < s.len() && s[m] >= 0x30 && s[m] <= 0x39 {
            Ok(digits_end(s, m))
        } else {
            Err(())
        }
    } else {
        Ok(k2)
    }
}

/// End of the complete JSON value starting at `i`: a string, number,
/// object, array, `true`, `false` or `null`.  `None` when the text is not
/// a valid value.  This is the shape a skipped member must have; its
/// numbers are checked for syntax only, not range.
pub open spec fn spec_skip_json(s: Seq<u8>, i: int) -> Option<int>
    decreases s.len() - i, 0int,
{
    if i < 0 || i >= s.len() {
        None
    } else if s[i] == 0x22 {
        match spec_string_at(s, i) {
            Some((c, e)) => Some(e),
            None => None,
        }
    } else if s[i] == 0x7b {
        spec_skip_object(s, i + 1)
    } else if s[i] == 0x5b {
        spec_skip_array(s, i + 1)
    } else if s[i] == 0x74 {
        if i + 3 < s.len() && s[i + 1] == 0x72 && s[i + 2] == 0x75 && s[i + 3] == 0x65 {
            Some(i + 4)
        } else {
            None
        }
    } else if s[i] == 0x66 {
        if i + 4 < s.len() && s[i + 1] == 0x61 && s[i + 2] == 0x6c && s[i + 3] == 0x73 && s[i + 4]
            == 0x65 {
            Some(i + 5)
        } else {
            None
        }
    } else if s[i] == 0x6e {
        if i + 3 < s.len() && s[i + 1] == 0x75 && s[i + 2] == 0x6c && s[i + 3] == 0x6c {
            Some(i + 4)
        } else {
            None
        }
    } else if s[i] == 0x2d || is_digit(s[i]) {
        spec_num_end(s, i)
    } else {
        None
    }
}

/// Members of a skipped object from `i` (just after `{` or a `,`).
pub open spec fn spec_skip_members(s: Seq<u8>, i: int) -> Option<int>
    decreases s.len() - i, 1int,
{
    let j1 = spec_ws_end(s, i);
    match spec_string_at(s, j1) {
        None => None,
        Some((k, j2)) => {
            let j3 = spec_ws_end(s, j2);
            if !(j3 < s.len() && s[j3] == 0x3a) {
                None
            } else {
                let j4 = spec_ws_end(s, j3 + 1);
                let v = if i <= j4 <= s.len() {
                    spec_skip_json(s, j4)
                } else {
                    None
                };
                match v {
                    None => None,
                    Some(j5) => {
                        let j6 = spec_ws_end(s, j5);
                        if j6 < s.len() && s[j6] == 0x2c {
                            if i < j6 + 1 <= s.len() {
                                spec_skip_members(s, j6 + 1)
                            } else {
                                None
                            }
                        } else if j6 < s.len() && s[j6] == 0x7d {
                            Some(j6 + 1)
                        } else {
                            None
                        }
                    },
                }
            }
        },
    }
}

/// A skipped object read from just after its `{`.
pub open spec fn spec_skip_object(s: Seq<u8>, i: int) -> Option<int>
    decreases s.len() - i, 2int,
{
    let j1 = spec_ws_end(s, i);
    if j1 < s.len() && s[j1] == 0x7d {
        Some(j1 + 1)
    } else if 0 <= i <= s.len() {
        spec_skip_members(s, i)
    } else {
        None
    }
}

/// Elements of a skipped array from `i` (just after `[` or a `,`).
pub open spec fn spec_skip_elems(s: Seq<u8>, i: int) -> Option<int>
    decreases s.len() - i, 1int,
{
    let j0 = spec_ws_end(s, i);
    let v = if i <= j0 <= s.len() {
        spec_skip_json(s, j0)
    } else {
        None
    };
    match v {
        None => None,
        Some(j5) => {
            let j6 = spec_ws_end(s, j5);
            if j6 < s.len() && s[j6] == 0x2c {
                if i < j6 + 1 <= s.len() {
                    spec_skip_elems(s, j6 + 1)
                } else {
                    None
                }
            } else if j6 < s.len() && s[j6] == 0x5d {
                Some(j6 + 1)
            } else {
                None
            }
        },
    }
}

/// A skipped array read from just after its `[`.
pub open spec fn spec_skip_array(s: Seq<u8>, i: int) -> Option<int>
    decreases s.len() - i, 2int,
{
    let j1 = spec_ws_end(s, i);
    if j1 < s.len() && s[j1] == 0x5d {
        Some(j1 + 1)
    } else if 0 <= i <= s.len() {
        spec_skip_elems(s, i)
    } else {
        None
    }
}

/// Scan the complete JSON value starting at `i`.
pub fn skip_json(s: &Vec<u8>, i: usize) -> (r: Result<usize, ()>)
    requires
        i <= s@.len(),
    ensures
        match r {
            Ok(e) => spec_skip_json(s@, i as int) == Some(e as int) && e <= s@.len(),
            Err(()) => spec_skip_json(s@, i as int) is None,
        },
    decreases s@.len() - i, 0int,
{
    if i >= s.len() {
        return Err(());
    }
    let b: u8 = s[i];
    if b == 0x22 {
        match string_at(s, i) {
            Ok((c, e)) => Ok(e),
            Err(()) => Err(()),
        }
    } else if b == 0x7b {
        skip_object(s, i + 1)
    } else if b == 0x5b {
        skip_array(s, i + 1)
    } else if b == 0x74 {
        if s.len() > 3 && i < s.len() - 3 && s[i + 1] == 0x72 && s[i + 2] == 0x75 && s[i + 3]
            == 0x65 {
            Ok(i + 4)
        } else {
            Err(())
        }
    } else if b == 0x66 {
        if s.len() > 4 && i < s.len() - 4 && s[i + 1] == 0x61 && s[i + 2] == 0x6c && s[i + 3]
            == 0x73 && s[i + 4] == 0x65 {
            Ok(i + 5)
        } else {
            Err(())
        }
    } else if b == 0x6e {
        if s.len() > 3 && i < s.len() - 3 && s[i + 1] == 0x75 && s[i + 2] == 0x6c && s[i + 3]
            == 0x6c {
            Ok(i + 4)
        } else {
            Err(())
        }
    } else if b == 0x2d || (b >= 0x30 && b <= 0x39) {
        num_end(s, i)
    } else {
        Err(())
    }
}

fn skip_members(s: &Vec<u8>, i: usize) -> (r: Result<usize, ()>)
    requires
        i <= s@.len(),
    ensures
        match r {
            Ok(e) => spec_skip_members(s@, i as int) == Some(e as int) && e <= s@.len(),
            Err(()) => spec_skip_members(s@, i as int) is None,
        },
    decreases s@.len() - i, 1int,
{
    let j1 = ws_end(s, i);
    let (k, j2) = match string_at(s, j1) {
        Ok(p) => p,
        Err(()) => {
            return Err(());
        },
    };
    let j3 = ws_end(s, j2);
    if !(j3 < s.len() && s[j3] == 0x3a) {
        return Err(());
    }
    let j4 = ws_end(s, j3 + 1);
    let j5 = match skip_json(s, j4) {
        Ok(e) => e,
        Err(()) => {
            return Err(());
        },
    };
    let j6 = ws_end(s, j5);
    if j6 < s.len() && s[j6] == 0x2c {
        if i < j6 + 1 {
            skip_members(s, j6 + 1)
        } else {
            Err(())
        }
    } else if j6 < s.len() && s[j6] == 0x7d {
        Ok(j6 + 1)
    } else {
        Err(())
    }
}

fn skip_object(s: &Vec<u8>, i: usize) -> (r: Result<usize, ()>)
    requires
        i <= s@.len(),
    ensures
        match r {
            Ok(e) => spec_skip_object(s@, i as int) == Some(e as int) && e <= s@.len(),
            Err(()) => spec_skip_object(s@, i as int) is None,
        },
    decreases s@.len() - i, 2int,
{
    let j1 = ws_end(s, i);
    if j1 < s.len() && s[j1] == 0x7d {
        Ok(j1 + 1)
    } else {
        skip_members(s, i)
    }
}

fn skip_elems(s: &Vec<u8>, i: usize) -> (r: Result<usize, ()>)
    requires
        i <= s@.len(),
    ensures
        match r {
            Ok(e) => spec_skip_elems(s@, i as int) == Some(e as int) && e <= s@.len(),
            Err(()) => spec_skip_elems(s@, i as int) is None,
        },
    decreases s@.len() - i, 1int,
{
    let j0 = ws_end(s, i);
    let j5 = match skip_json(s, j0) {
        Ok(e) => e,
        Err(()) => {
            return Err(());
        },
    };
    let j6 = ws_end(s, j5);
    if j6 < s.len() && s[j6] == 0x2c {
        if i < j6 + 1 {
            skip_elems(s, j6 + 1)
        } else {
            Err(())
        }
    } else if j6 < s.len() && s[j6] == 0x5d {
        Ok(j6 + 1)
    } else {
        Err(())
    }
}

fn skip_array(s: &Vec<u8>, i: usize) -> (r: Result<usize, ()>)
    requires
        i <= s@.len(),
    ensures
        match r {
            Ok(e) => spec_skip_array(s@, i as int) == Some(e as int) && e <= s@.len(),
            Err(()) => spec_skip_array(s@, i as int) is None,
        },
    decreases s@.len() - i, 2int,
{
    let j1 = ws_end(s, i);
    if j1 < s.len() && s[j1] == 0x5d {
        Ok(j1 + 1)
    } else {
        skip_elems(s, i)
    }
}

} // verus!
