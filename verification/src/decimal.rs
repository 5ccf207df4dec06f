//! Exact decimal numbers and the textual coercions of the quote format:
//! plain decimals, plain integers, integers scaled by one hundred, and
//! decimals scaled by ten thousand.
use vstd::prelude::*;

use crate::text::{digit_of, digit_val, is_digit};

verus! {

/// An exact decimal number: `mantissa / 10^scale`.
///
/// A well-formed value is normalized: with a positive scale the
/// mantissa is never divisible by ten.
#[derive(Clone, Copy, Debug, PartialEq, Eq, Hash, Structural)]
pub struct Decimal {
    pub mantissa: i64,
    pub scale: usize,
}

/// Mathematical absolute value.
pub open spec fn abs_int(m: int) -> int {
    if m >= 0 {
        m
    } else {
        -m
    }
}

impl Decimal {
    /// Normal form: trailing decimal zeros are stripped.
    pub open spec fn wf(self) -> bool {
        self.scale > 0 ==> abs_int(self.mantissa as int) % 10 != 0
    }

    /// The number zero is exactly a zero mantissa.
    pub open spec fn is_zero_spec(self) -> bool {
        self.mantissa == 0
    }

    /// Builds the decimal `mantissa / 10^scale` in normal form.
    pub fn new(mantissa: i64, scale: usize) -> (r: Decimal)
        requires
            -i64::MAX <= mantissa,
        ensures
            ({
                let nm = norm_mantissa(abs_int(mantissa as int), scale as nat);
                r.mantissa == if mantissa < 0 {
                    -nm
                } else {
                    nm
                }
            }),
            r.scale == norm_scale(abs_int(mantissa as int), scale as nat),
            r.wf(),
    {
        let neg: bool = mantissa < 0;
        let mut mag: u64 = if neg {
            (-mantissa) as u64
        } else {
            mantissa as u64
        };
        let mut e: usize = scale;
        proof {
            lemma_norm_props(mag as int, e as nat);
        }
        while e > 0 && mag % 10 == 0
            invariant
                mag <= i64::MAX,
                norm_mantissa(abs_int(mantissa as int), scale as nat) == norm_mantissa(
                    mag as int,
                    e as nat,
                ),
                norm_scale(abs_int(mantissa as int), scale as nat) == norm_scale(
                    mag as int,
                    e as nat,
                ),
            decreases e,
        {
            mag = mag / 10;
            e = e - 1;
        }
        proof {
            lemma_norm_props(abs_int(mantissa as int), scale as nat);
            assert(norm_mantissa(mag as int, e as nat) == mag as int);
            assert(norm_scale(mag as int, e as nat) == e as nat);
        }
        let m: i64 = if neg {
            -(mag as i64)
        } else {
            mag as i64
        };
        Decimal { mantissa: m, scale: e }
    }
}

/// Strips the whole-number part down by trailing decimal zeros.
pub open spec fn norm_mantissa(m: int, e: nat) -> int
    decreases e,
{
    if e > 0 && m % 10 == 0 {
        norm_mantissa(m / 10, (e - 1) as nat)
    } else {
        m
    }
}

/// The scale left after stripping trailing decimal zeros.
pub open spec fn norm_scale(m: int, e: nat) -> nat
    decreases e,
{
    if e > 0 && m % 10 == 0 {
        norm_scale(m / 10, (e - 1) as nat)
    } else {
        e
    }
}

/// Normalization keeps a non-negative mantissa within its old bound,
/// preserves whether it is zero, and reaches the normal form.
pub proof fn lemma_norm_props(m: int, e: nat)
    requires
        m >= 0,
    ensures
        0 <= norm_mantissa(m, e) <= m,
        norm_mantissa(m, e) == 0 <==> m == 0,
        norm_scale(m, e) <= e,
        norm_scale(m, e) > 0 ==> norm_mantissa(m, e) % 10 != 0,
    decreases e,
{
    if e > 0 && m % 10 == 0 {
        vstd::arithmetic::div_mod::lemma_fundamental_div_mod(m, 10);
        lemma_norm_props(m / 10, (e - 1) as nat);
    }
}

/// The token with its sign mark removed.
pub open spec fn unsigned_body(s: Seq<char>) -> Seq<char> {
    if s.len() > 0 && s[0] == '-' {
        s.drop_first()
    } else {
        s
    }
}

/// Whether the token carries the sign mark.
pub open spec fn token_neg(s: Seq<char>) -> bool {
    s.len() > 0 && s[0] == '-'
}

/// A character a decimal token may hold after its sign.
pub open spec fn is_dec_char(c: char) -> bool {
    is_digit(c) || c == '.'
}

/// The digits of `s` read as one whole number, ignoring any dots.
pub open spec fn mantissa_value(s: Seq<char>) -> int
    decreases s.len(),
{
    if s.len() == 0 {
        0
    } else if s.last() == '.' {
        mantissa_value(s.drop_last())
    } else {
        mantissa_value(s.drop_last()) * 10 + digit_val(s.last())
    }
}

/// How many dots `s` holds.
pub open spec fn dot_count(s: Seq<char>) -> int
    decreases s.len(),
{
    if s.len() == 0 {
        0
    } else {
        dot_count(s.drop_last()) + if s.last() == '.' {
            1int
        } else {
            0int
        }
    }
}

/// How many digits `s` holds.
pub open spec fn digit_count(s: Seq<char>) -> int
    decreases s.len(),
{
    if s.len() == 0 {
        0
    } else {
        digit_count(s.drop_last()) + if is_digit(s.last()) {
            1int
        } else {
            0int
        }
    }
}

/// How many digits follow the last dot of `s`; zero without a dot.
pub open spec fn scale_value(s: Seq<char>) -> nat
    decreases s.len(),
{
    if s.len() == 0 {
        0
    } else if s.last() == '.' {
        0
    } else if dot_count(s.drop_last()) > 0 {
        scale_value(s.drop_last()) + 1
    } else {
        0
    }
}

/// Unfolds each counting function over one appended character.
pub proof fn lemma_snoc_token(t: Seq<char>, c: char)
    ensures
        mantissa_value(t.push(c)) == if c == '.' {
            mantissa_value(t)
        } else {
            mantissa_value(t) * 10 + digit_val(c)
        },
        dot_count(t.push(c)) == dot_count(t) + if c == '.' {
            1int
        } else {
            0int
        },
        digit_count(t.push(c)) == digit_count(t) + if is_digit(c) {
            1int
        } else {
            0int
        },
        scale_value(t.push(c)) == if c == '.' {
            0nat
        } else if dot_count(t) > 0 {
            scale_value(t) + 1
        } else {
            0nat
        },
{
    assert(t.push(c).drop_last() =~= t);
    assert(t.push(c).last() == c);
}

/// Over tokens of digits and dots the mantissa never shrinks as the
/// token grows, and the dot count never shrinks.
pub proof fn lemma_token_prefix(t: Seq<char>, k: int)
    requires
        0 <= k <= t.len(),
        forall|i: int| 0 <= i < t.len() ==> is_dec_char(#[trigger] t[i]),
    ensures
        0 <= mantissa_value(t.take(k)) <= mantissa_value(t),
        dot_count(t.take(k)) <= dot_count(t),
    decreases t.len(),
{
    if t.len() == 0 {
        assert(t.take(k) =~= t);
    } else if k == t.len() {
        assert(t.take(k) =~= t);
        lemma_token_prefix(t.drop_last(), k - 1);
        assert(t.drop_last().take(k - 1) =~= t.drop_last());
    } else {
        assert(t.take(k) =~= t.drop_last().take(k));
        lemma_token_prefix(t.drop_last(), k);
    }
}

/// A valid decimal token: an optional leading minus, then digits with
/// at most one dot, at least one digit, and a whole-number reading that
/// a machine word can hold.
pub open spec fn dec_token_valid(s: Seq<char>) -> bool {
    let b = unsigned_body(s);
    &&& b.len() > 0
    &&& forall|i: int| 0 <= i < b.len() ==> is_dec_char(#[trigger] b[i])
    &&& digit_count(b) >= 1
    &&& dot_count(b) <= 1
    &&& mantissa_value(b) <= i64::MAX
}

/// The decimal a valid token denotes, in normal form.
pub open spec fn dec_of(s: Seq<char>) -> Decimal {
    let b = unsigned_body(s);
    let m = norm_mantissa(mantissa_value(b), scale_value(b));
    let e = norm_scale(mantissa_value(b), scale_value(b));
    Decimal {
        mantissa: (if token_neg(s) {
            -m
        } else {
            m
        }) as i64,
        scale: e as usize,
    }
}

/// Largest mantissa a token may denote.
pub const MANTISSA_LIMIT: u64 = 9223372036854775807;

/// Parses a decimal token; yields its value exactly when the token is
/// valid, and nothing otherwise.
pub fn parse_decimal(s: &str) -> (r: Option<Decimal>)
    ensures
        r is Some <==> dec_token_valid(s@),
        r is Some ==> r->0 == dec_of(s@) && r->0.wf() && -i64::MAX <= r->0.mantissa,
{
    let n: usize = s.unicode_len();
    let neg: bool = n > 0 && s.get_char(0) == '-';
    let start: usize = if neg {
        1
    } else {
        0
    };
    let ghost b: Seq<char> = unsigned_body(s@);
    proof {
        assert(b =~= s@.skip(start as int));
    }
    let mut i: usize = start;
    let mut mag: u64 = 0;
    let mut dots: bool = false;
    let mut digits: bool = false;
    let mut frac: usize = 0;
    while i < n
        invariant
            n == s@.len(),
            start <= i <= n,
            b == unsigned_body(s@),
            b =~= s@.skip(start as int),
            start == if token_neg(s@) {
                1int
            } else {
                0int
            },
            forall|j: int| 0 <= j < i - start ==> is_dec_char(#[trigger] b[j]),
            mag == mantissa_value(b.take(i - start)),
            mag <= MANTISSA_LIMIT,
            dot_count(b.take(i - start)) >= 0,
            digit_count(b.take(i - start)) >= 0,
            dots <==> dot_count(b.take(i - start)) == 1,
            dot_count(b.take(i - start)) <= 1,
            digits <==> digit_count(b.take(i - start)) >= 1,
            frac == scale_value(b.take(i - start)),
            !dots ==> frac == 0,
            frac <= i,
        decreases n - i,
    {
        let c: char = s.get_char(i);
        proof {
            assert(b[i - start] == s@[i as int]);
            assert(b.take(i - start + 1) =~= b.take(i - start).push(b[i - start]));
            lemma_snoc_token(b.take(i - start), c);
        }
        if c == '.' {
            if dots {
                proof {
                    lemma_token_prefix_or_invalid(s@, b, i - start + 1);
                }
                return None;
            }
            dots = true;
            frac = 0;
        } else {
            match digit_of(c) {
                None => {
                    proof {
                        assert(!is_dec_char(b[i - start]));
                    }
                    return None;
                },
                Some(d) => {
                    proof {
                        lemma_step_bound(mag as int, d as int);
                    }
                    if mag > (MANTISSA_LIMIT - (d as u64)) / 10 {
                        proof {
                            lemma_token_prefix_or_invalid_mag(s@, b, i - start + 1);
                        }
                        return None;
                    }
                    mag = mag * 10 + (d as u64);
                    digits = true;
                    if dots {
                        frac = frac + 1;
                    }
                },
            }
        }
        i = i + 1;
    }
    proof {
        assert(b.take(i - start) =~= b);
    }
    if !digits {
        return None;
    }
    proof {
        lemma_norm_props(mag as int, frac as nat);
    }
    let mut m: u64 = mag;
    let mut e: usize = frac;
    while e > 0 && m % 10 == 0
        invariant
            m <= MANTISSA_LIMIT,
            norm_mantissa(mag as int, frac as nat) == norm_mantissa(m as int, e as nat),
            norm_scale(mag as int, frac as nat) == norm_scale(m as int, e as nat),
        decreases e,
    {
        m = m / 10;
        e = e - 1;
    }
    proof {
        lemma_norm_props(mag as int, frac as nat);
    }
    let mantissa: i64 = if neg {
        -(m as i64)
    } else {
        m as i64
    };
    Some(Decimal { mantissa, scale: e })
}

/// One accumulation step stays within the limit exactly when the guard
/// division says so.
proof fn lemma_step_bound(mag: int, d: int)
    requires
        0 <= mag,
        0 <= d <= 9,
    ensures
        mag <= (MANTISSA_LIMIT - d) / 10 ==> mag * 10 + d <= MANTISSA_LIMIT,
        mag > (MANTISSA_LIMIT - d) / 10 ==> mag * 10 + d > MANTISSA_LIMIT,
{
    let q = (MANTISSA_LIMIT - d) / 10;
    vstd::arithmetic::div_mod::lemma_fundamental_div_mod(MANTISSA_LIMIT - d, 10);
    vstd::arithmetic::div_mod::lemma_mod_division_less_than_divisor(MANTISSA_LIMIT - d, 10);
    assert(mag <= q ==> mag * 10 <= q * 10) by (nonlinear_arith);
    assert(mag > q ==> mag * 10 >= q * 10 + 10) by (nonlinear_arith);
}

/// A valid integer token: an optional leading minus, then one or more
/// digits reading to a value a machine word can hold.
pub open spec fn int_token_valid(s: Seq<char>) -> bool {
    let b = unsigned_body(s);
    &&& b.len() > 0
    &&& forall|i: int| 0 <= i < b.len() ==> is_digit(#[trigger] b[i])
    &&& mantissa_value(b) <= i64::MAX
}

/// The signed value an integer token denotes.
pub open spec fn int_token_value(s: Seq<char>) -> int {
    if token_neg(s) {
        -mantissa_value(unsigned_body(s))
    } else {
        mantissa_value(unsigned_body(s))
    }
}

/// Parses an integer token; yields its value exactly when the token is
/// valid, and nothing otherwise.
pub fn parse_i64(s: &str) -> (r: Option<i64>)
    ensures
        r is Some <==> int_token_valid(s@),
        r is Some ==> r->0 == int_token_value(s@) && -i64::MAX <= r->0,
{
    let n: usize = s.unicode_len();
    let neg: bool = n > 0 && s.get_char(0) == '-';
    let start: usize = if neg {
        1
    } else {
        0
    };
    let ghost b: Seq<char> = unsigned_body(s@);
    proof {
        assert(b =~= s@.skip(start as int));
    }
    if start >= n {
        return None;
    }
    let mut i: usize = start;
    let mut mag: u64 = 0;
    while i < n
        invariant
            n == s@.len(),
            start <= i <= n,
            b == unsigned_body(s@),
            b =~= s@.skip(start as int),
            start == if token_neg(s@) {
                1int
            } else {
                0int
            },
            forall|j: int| 0 <= j < i - start ==> is_digit(#[trigger] b[j]),
            mag == mantissa_value(b.take(i - start)),
            mag <= MANTISSA_LIMIT,
        decreases n - i,
    {
        let c: char = s.get_char(i);
        proof {
            assert(b[i - start] == s@[i as int]);
            assert(b.take(i - start + 1) =~= b.take(i - start).push(b[i - start]));
            lemma_snoc_token(b.take(i - start), c);
        }
        match digit_of(c) {
            None => {
                proof {
                    assert(!is_digit(b[i - start]));
                }
                return None;
            },
            Some(d) => {
                proof {
                    lemma_step_bound(mag as int, d as int);
                }
                if mag > (MANTISSA_LIMIT - (d as u64)) / 10 {
                    proof {
                        lemma_int_invalid_mag(s@, b, i - start + 1);
                    }
                    return None;
                }
                mag = mag * 10 + (d as u64);
            },
        }
        i = i + 1;
    }
    proof {
        assert(b.take(i - start) =~= b);
    }
    if neg {
        Some(-(mag as i64))
    } else {
        Some(mag as i64)
    }
}

/// Scale applied to every volume token: one vendor unit is a hundred
/// shares.
pub const VOLUME_SCALE: u64 = 100;

/// A valid volume token: an integer token whose value is a
/// non-negative share count and whose scaled value still fits a
/// machine word.
pub open spec fn vol_token_valid(s: Seq<char>) -> bool {
    &&& int_token_valid(s)
    &&& int_token_value(s) >= 0
    &&& mantissa_value(unsigned_body(s)) * VOLUME_SCALE <= i64::MAX
}

/// The share count a volume token denotes.
pub open spec fn vol_token_value(s: Seq<char>) -> int {
    int_token_value(s) * VOLUME_SCALE
}

/// Parses a volume token and applies the hundredfold scale; yields the
/// share count exactly when the token is valid, and nothing otherwise.
pub fn parse_volume(s: &str) -> (r: Option<i64>)
    ensures
        r is Some <==> vol_token_valid(s@),
        r is Some ==> r->0 == vol_token_value(s@),
{
    match parse_i64(s) {
        None => None,
        Some(v) => {
            if v < 0 {
                return None;
            }
            let mag: u64 = v as u64;
            proof {
                lemma_mul_guard(mag as int, VOLUME_SCALE as int);
                lemma_int_value_bounds(s@);
                assert(mag == mantissa_value(unsigned_body(s@)));
            }
            if mag > MANTISSA_LIMIT / VOLUME_SCALE {
                return None;
            }
            Some((mag * VOLUME_SCALE) as i64)
        },
    }
}

/// Ten to the `k`.
pub open spec fn pow10(k: nat) -> int
    decreases k,
{
    if k == 0 {
        1
    } else {
        10 * pow10((k - 1) as nat)
    }
}

/// Scale applied to the market-total token: one vendor unit is ten
/// thousand base currency units.
pub const TOTAL_SCALE_DIGITS: u64 = 4;

/// Whether multiplying `d` by ten thousand stays within a machine word.
pub open spec fn scale10k_valid(d: Decimal) -> bool {
    d.scale >= 4 || abs_int(d.mantissa as int) * pow10((4 - d.scale) as nat) <= i64::MAX
}

/// `d` times ten thousand, in normal form whenever `d` was.
pub open spec fn scale10k(d: Decimal) -> Decimal {
    if d.scale >= 4 {
        Decimal { mantissa: d.mantissa, scale: (d.scale - 4) as usize }
    } else {
        Decimal {
            mantissa: ({
                let m = abs_int(d.mantissa as int) * pow10((4 - d.scale) as nat);
                (if d.mantissa < 0 {
                    -m
                } else {
                    m
                }) as i64
            }),
            scale: 0,
        }
    }
}

/// Multiplies a decimal by ten thousand; yields the scaled value
/// exactly when it fits, and nothing otherwise.
pub fn dec_mul_10k(d: Decimal) -> (r: Option<Decimal>)
    requires
        d.wf(),
        -i64::MAX <= d.mantissa,
    ensures
        r is Some <==> scale10k_valid(d),
        r is Some ==> r->0 == scale10k(d) && r->0.wf() && -i64::MAX <= r->0.mantissa,
{
    if d.scale >= 4 {
        return Some(Decimal { mantissa: d.mantissa, scale: d.scale - 4 });
    }
    let k: usize = 4 - d.scale;
    let f: u64 = if k == 1 {
        10
    } else if k == 2 {
        100
    } else if k == 3 {
        1000
    } else {
        10000
    };
    proof {
        assert(pow10(0) == 1);
        assert(pow10(1) == 10);
        assert(pow10(2) == 100);
        assert(pow10(3) == 1000);
        assert(pow10(4) == 10000);
        assert(f == pow10(k as nat));
    }
    let neg: bool = d.mantissa < 0;
    let mag: u64 = if neg {
        (-d.mantissa) as u64
    } else {
        d.mantissa as u64
    };
    proof {
        lemma_mul_guard(mag as int, f as int);
    }
    if mag > MANTISSA_LIMIT / f {
        return None;
    }
    let scaled: u64 = mag * f;
    if neg {
        Some(Decimal { mantissa: -(scaled as i64), scale: 0 })
    } else {
        Some(Decimal { mantissa: scaled as i64, scale: 0 })
    }
}

/// A product stays within the mantissa limit exactly when the guard
/// division says so.
proof fn lemma_mul_guard(mag: int, f: int)
    requires
        0 <= mag,
        1 <= f,
    ensures
        mag <= MANTISSA_LIMIT as int / f ==> mag * f <= MANTISSA_LIMIT,
        mag > MANTISSA_LIMIT as int / f ==> mag * f > MANTISSA_LIMIT,
{
    let q = MANTISSA_LIMIT as int / f;
    vstd::arithmetic::div_mod::lemma_fundamental_div_mod(MANTISSA_LIMIT as int, f);
    vstd::arithmetic::div_mod::lemma_mod_division_less_than_divisor(MANTISSA_LIMIT as int, f);
    assert(mag <= q ==> mag * f <= q * f) by (nonlinear_arith)
        requires
            0 <= mag,
            1 <= f,
            q == MANTISSA_LIMIT as int / f,
    ;
    assert(mag > q ==> mag * f >= q * f + f) by (nonlinear_arith)
        requires
            0 <= mag,
            1 <= f,
            q == MANTISSA_LIMIT as int / f,
    ;
}

/// A valid integer token reads to a non-negative whole number whose
/// magnitude is the signed value's.
pub proof fn lemma_int_value_bounds(s: Seq<char>)
    requires
        int_token_valid(s),
    ensures
        0 <= mantissa_value(unsigned_body(s)) <= i64::MAX,
        abs_int(int_token_value(s)) == mantissa_value(unsigned_body(s)),
{
    let b = unsigned_body(s);
    assert forall|i: int| 0 <= i < b.len() implies is_dec_char(#[trigger] b[i]) by {
        assert(is_digit(b[i]));
    }
    lemma_token_prefix(b, b.len() as int);
    assert(b.take(b.len() as int) =~= b);
}

/// An integer token whose prefix already overflows is not valid.
proof fn lemma_int_invalid_mag(s: Seq<char>, b: Seq<char>, k: int)
    requires
        b == unsigned_body(s),
        0 <= k <= b.len(),
        mantissa_value(b.take(k)) > i64::MAX,
    ensures
        !int_token_valid(s),
{
    if forall|i: int| 0 <= i < b.len() ==> is_digit(#[trigger] b[i]) {
        assert forall|i: int| 0 <= i < b.len() implies is_dec_char(#[trigger] b[i]) by {
            assert(is_digit(b[i]));
        }
        lemma_token_prefix(b, k);
    }
}

/// A token whose prefix already shows two dots is not valid.
proof fn lemma_token_prefix_or_invalid(s: Seq<char>, b: Seq<char>, k: int)
    requires
        b == unsigned_body(s),
        0 <= k <= b.len(),
        dot_count(b.take(k)) >= 2,
    ensures
        !dec_token_valid(s),
{
    if forall|i: int| 0 <= i < b.len() ==> is_dec_char(#[trigger] b[i]) {
        lemma_token_prefix(b, k);
    }
}

/// A token whose prefix already overflows the mantissa is not valid.
proof fn lemma_token_prefix_or_invalid_mag(s: Seq<char>, b: Seq<char>, k: int)
    requires
        b == unsigned_body(s),
        0 <= k <= b.len(),
        mantissa_value(b.take(k)) > i64::MAX,
    ensures
        !dec_token_valid(s),
{
    if forall|i: int| 0 <= i < b.len() ==> is_dec_char(#[trigger] b[i]) {
        lemma_token_prefix(b, k);
    }
}

} // verus!
