//! Exact decimal values and their wire-string codec.
//!
//! Monetary fields travel on the wire as strings such as `"101.5"`.
//! A `Decimal` holds such a value exactly: a sign, an unsigned mantissa
//! and a scale, so that the value is `mantissa / 10^scale`. The codec
//! converts between that value and the canonical numeric grammar
//! `'-'? digits ('.' digits)?` (no leading zeros except a single `0`
//! before the point, no negative zero, at most 28 fractional digits)
//! without any loss of precision in either direction.

use vstd::prelude::*;
use vstd::arithmetic::div_mod::*;
use vstd::arithmetic::mul::*;
use crate::errors::ExchangeError;

verus! {

/// An exact decimal number: `mantissa / 10^scale`, negated when
/// `negative` is set. `scale` is the number of digits after the
/// decimal point in the canonical wire form.
#[derive(Clone, Copy, Debug, PartialEq, Eq, Structural)]
pub struct Decimal {
    pub negative: bool,
    pub mantissa: u64,
    pub scale: u32,
}

impl Decimal {
    /// Well-formed decimals keep the scale within the supported
    /// precision and never carry a negative zero.
    pub open spec fn wf(self) -> bool {
        self.scale <= 28 && (self.negative ==> self.mantissa > 0)
    }

    /// The decimal `num / 10^scale`, as an exact value.
    pub fn new(num: i64, scale: u32) -> (r: Decimal)
        requires
            scale <= 28,
        ensures
            r.wf(),
            r.scale == scale,
            r.negative == (num < 0),
            num >= 0 ==> r.mantissa == num,
            num < 0 ==> r.mantissa == -(num as int),
    {
        if num >= 0 {
            Decimal { negative: false, mantissa: num as u64, scale }
        } else {
            let wide: i128 = num as i128;
            Decimal { negative: true, mantissa: (-wide) as u64, scale }
        }
    }

    /// The value zero, the default for wire-optional numeric fields.
    pub fn zero() -> (r: Decimal)
        ensures
            r == (Decimal { negative: false, mantissa: 0, scale: 0 }),
    {
        Decimal { negative: false, mantissa: 0, scale: 0 }
    }

    /// A decimal is non-negative when its sign flag is clear.
    pub open spec fn is_nonneg(self) -> bool {
        !self.negative
    }
}

// ---------------------------------------------------------------------
// The canonical numeric grammar, as specification functions.
// ---------------------------------------------------------------------

/// The characters `'0'` through `'9'`.
pub open spec fn is_digit_char(c: char) -> bool {
    48 <= c as int <= 57
}

/// The digit character for a value in `0..=9`.
pub open spec fn digit_char(d: int) -> char {
    ((48 + d) as u8) as char
}

/// The numeric value of a digit character.
pub open spec fn digit_val(c: char) -> int {
    c as int - 48
}

/// Every character of `s` is a decimal digit.
pub open spec fn all_digits(s: Seq<char>) -> bool {
    forall|i: int| 0 <= i < s.len() ==> is_digit_char(#[trigger] s[i])
}

/// Ten to the `k`.
pub open spec fn pow10(k: nat) -> nat
    decreases k,
{
    if k == 0 {
        1
    } else {
        10 * pow10((k - 1) as nat)
    }
}

/// The shortest decimal digit string of `n`: no leading zero except
/// for `n == 0`, which is the single character `0`.
pub open spec fn dec_digits(n: nat) -> Seq<char>
    decreases n,
{
    if n < 10 {
        seq![digit_char(n as int)]
    } else {
        dec_digits(n / 10).push(digit_char((n % 10) as int))
    }
}

/// The last `k` decimal digits of `n`, zero padded on the left.
pub open spec fn fixed_digits(n: nat, k: nat) -> Seq<char>
    decreases k,
{
    if k == 0 {
        Seq::empty()
    } else {
        fixed_digits(n / 10, (k - 1) as nat).push(digit_char((n % 10) as int))
    }
}

/// The canonical wire form of a well-formed decimal.
pub open spec fn spec_encode_decimal(d: Decimal) -> Seq<char> {
    let sign: Seq<char> = if d.negative { seq!['-'] } else { Seq::empty() };
    if d.scale == 0 {
        sign + dec_digits(d.mantissa as nat)
    } else {
        sign + dec_digits((d.mantissa as nat) / pow10(d.scale as nat)) + seq!['.'] + fixed_digits(
            d.mantissa as nat,
            d.scale as nat,
        )
    }
}

/// The value of a digit string, most significant digit first.
pub open spec fn seq_val(s: Seq<char>) -> int
    decreases s.len(),
{
    if s.len() == 0 {
        0
    } else {
        10 * seq_val(s.drop_last()) + digit_val(s.last())
    }
}

/// The index of the first `.` in `s`, if any.
pub open spec fn find_dot(s: Seq<char>) -> Option<int>
    decreases s.len(),
{
    if s.len() == 0 {
        Option::None
    } else if s[0] == '.' {
        Option::Some(0)
    } else {
        match find_dot(s.skip(1)) {
            Option::Some(i) => Option::Some(i + 1),
            Option::None => Option::None,
        }
    }
}

/// A canonical integer part: at least one digit, and no leading zero
/// unless it is the single digit `0`.
pub open spec fn valid_int_chars(s: Seq<char>) -> bool {
    s.len() >= 1 && all_digits(s) && (s[0] != '0' || s.len() == 1)
}

/// Decoding of the unsigned magnitude part of a decimal literal.
pub open spec fn spec_decode_mag(s: Seq<char>) -> Result<Decimal, ExchangeError> {
    match find_dot(s) {
        Option::Some(p) => {
            let ic = s.take(p);
            let fc = s.skip(p + 1);
            if valid_int_chars(ic) && 1 <= fc.len() <= 28 && all_digits(fc) && seq_val(ic) * pow10(
                fc.len(),
            ) + seq_val(fc) <= u64::MAX {
                Result::Ok(
                    Decimal {
                        negative: false,
                        mantissa: (seq_val(ic) * pow10(fc.len()) + seq_val(fc)) as u64,
                        scale: fc.len() as u32,
                    },
                )
            } else {
                Result::Err(ExchangeError::InvalidNumericFormat)
            }
        },
        Option::None => {
            if valid_int_chars(s) && seq_val(s) <= u64::MAX {
                Result::Ok(
                    Decimal { negative: false, mantissa: seq_val(s) as u64, scale: 0 },
                )
            } else {
                Result::Err(ExchangeError::InvalidNumericFormat)
            }
        },
    }
}

/// Decoding of a complete decimal literal: an optional sign followed
/// by the magnitude; a negative zero is rejected.
pub open spec fn spec_decode_decimal(s: Seq<char>) -> Result<Decimal, ExchangeError> {
    if s.len() >= 1 && s[0] == '-' {
        match spec_decode_mag(s.skip(1)) {
            Result::Ok(d) => {
                if d.mantissa > 0 {
                    Result::Ok(Decimal { negative: true, ..d })
                } else {
                    Result::Err(ExchangeError::InvalidNumericFormat)
                }
            },
            Result::Err(e) => Result::Err(e),
        }
    } else {
        spec_decode_mag(s)
    }
}

// ---------------------------------------------------------------------
// Facts about the grammar specification.
// ---------------------------------------------------------------------

pub proof fn lemma_pow10_pos(k: nat)
    ensures
        pow10(k) >= 1,
    decreases k,
{
    if k > 0 {
        lemma_pow10_pos((k - 1) as nat);
    }
}

pub proof fn lemma_pow10_mono(a: nat, b: nat)
    requires
        a <= b,
    ensures
        pow10(a) <= pow10(b),
    decreases b,
{
    if a < b {
        lemma_pow10_mono(a, (b - 1) as nat);
        lemma_pow10_pos((b - 1) as nat);
    }
}

proof fn lemma_digit_char_val(d: int)
    requires
        0 <= d <= 9,
    ensures
        digit_char(d) as int == 48 + d,
        is_digit_char(digit_char(d)),
        digit_val(digit_char(d)) == d,
        digit_char(d) != '.',
        digit_char(d) != '-',
        d != 0 ==> digit_char(d) != '0',
        d == 0 ==> digit_char(d) == '0',
{
}

proof fn lemma_digit_char_of_val(c: char)
    requires
        is_digit_char(c),
    ensures
        digit_char(digit_val(c)) == c,
{
}

pub proof fn lemma_seq_val_bounds(s: Seq<char>)
    requires
        all_digits(s),
    ensures
        0 <= seq_val(s) < pow10(s.len()),
    decreases s.len(),
{
    if s.len() > 0 {
        assert(all_digits(s.drop_last()));
        lemma_seq_val_bounds(s.drop_last());
        let p = pow10((s.len() - 1) as nat);
        assert(is_digit_char(s.last()));
        assert(10 * seq_val(s.drop_last()) <= 10 * (p - 1));
    }
}

pub proof fn lemma_dec_digits_props(n: nat)
    ensures
        dec_digits(n).len() >= 1,
        all_digits(dec_digits(n)),
        seq_val(dec_digits(n)) == n,
        n == 0 ==> dec_digits(n) =~= seq!['0'],
        n > 0 ==> dec_digits(n)[0] != '0',
    decreases n,
{
    if n < 10 {
        lemma_digit_char_val(n as int);
        let s = seq![digit_char(n as int)];
        assert(s.drop_last() =~= Seq::<char>::empty());
        assert(seq_val(s) == 10 * seq_val(Seq::<char>::empty()) + digit_val(s.last()));
    } else {
        lemma_dec_digits_props(n / 10);
        lemma_digit_char_val((n % 10) as int);
        let s = dec_digits(n / 10);
        let c = digit_char((n % 10) as int);
        assert(s.push(c).drop_last() =~= s);
        assert(s.push(c).last() == c);
        lemma_fundamental_div_mod(n as int, 10);
        assert(all_digits(s.push(c))) by {
            assert(forall|i: int|
                0 <= i < s.push(c).len() ==> is_digit_char(#[trigger] s.push(c)[i]));
        }
        assert(s.push(c)[0] == s[0]);
    }
}

pub proof fn lemma_fixed_digits_props(n: nat, k: nat)
    ensures
        fixed_digits(n, k).len() == k,
        all_digits(fixed_digits(n, k)),
        seq_val(fixed_digits(n, k)) == n % pow10(k),
    decreases k,
{
    if k == 0 {
        assert(n % 1 == 0) by {
            lemma_mod_self_0(1);
            lemma_mod_multiples_basic(n as int, 1);
        }
    } else {
        lemma_fixed_digits_props(n / 10, (k - 1) as nat);
        lemma_digit_char_val((n % 10) as int);
        let p = pow10((k - 1) as nat);
        lemma_pow10_pos((k - 1) as nat);
        let s = fixed_digits(n / 10, (k - 1) as nat);
        let c = digit_char((n % 10) as int);
        assert(s.push(c).drop_last() =~= s);
        assert(s.push(c).last() == c);
        lemma_breakdown(n as int, 10, p as int);
        assert(all_digits(s.push(c))) by {
            assert(forall|i: int|
                0 <= i < s.push(c).len() ==> is_digit_char(#[trigger] s.push(c)[i]));
        }
    }
}

pub proof fn lemma_seq_val_concat(a: Seq<char>, b: Seq<char>)
    ensures
        seq_val(a + b) == seq_val(a) * pow10(b.len()) + seq_val(b),
    decreases b.len(),
{
    if b.len() == 0 {
        assert(a + b =~= a);
        assert(pow10(b.len()) == 1);
        lemma_mul_basics(seq_val(a));
    } else {
        let b0 = b.drop_last();
        let c = b.last();
        lemma_seq_val_concat(a, b0);
        assert((a + b).drop_last() =~= a + b0);
        assert((a + b).last() == c);
        let p0: int = pow10(b0.len()) as int;
        let va = seq_val(a);
        assert(pow10(b.len()) == 10 * p0);
        assert(seq_val(a + b) == 10 * seq_val(a + b0) + digit_val(c));
        assert(seq_val(b) == 10 * seq_val(b0) + digit_val(c));
        assert(10 * (va * p0 + seq_val(b0)) == 10 * (va * p0) + 10 * seq_val(b0));
        assert(10 * (va * p0) == va * (10 * p0)) by (nonlinear_arith);
        assert(seq_val(a + b) == va * (10 * p0) + seq_val(b));
        assert(va * pow10(b.len()) == va * (10 * p0));
    }
}

proof fn lemma_seq_val_lower(s: Seq<char>)
    requires
        all_digits(s),
        s.len() >= 1,
        s[0] != '0',
    ensures
        seq_val(s) >= 1,
    decreases s.len(),
{
    if s.len() == 1 {
        assert(is_digit_char(s[0]));
        assert(s.drop_last() =~= Seq::<char>::empty());
        assert(s.last() == s[0]);
        assert(seq_val(s) == 10 * seq_val(Seq::<char>::empty()) + digit_val(s[0]));
        assert(digit_val(s[0]) >= 1);
    } else {
        assert(all_digits(s.drop_last()));
        assert(s.drop_last()[0] == s[0]);
        lemma_seq_val_lower(s.drop_last());
        assert(is_digit_char(s.last()));
        assert(seq_val(s) == 10 * seq_val(s.drop_last()) + digit_val(s.last()));
        assert(digit_val(s.last()) >= 0);
    }
}

pub proof fn lemma_seq_val_prefix(s: Seq<char>, k: int)
    requires
        all_digits(s),
        0 <= k <= s.len(),
    ensures
        0 <= seq_val(s.take(k)) <= seq_val(s),
{
    assert(s =~= s.take(k) + s.skip(k));
    lemma_seq_val_concat(s.take(k), s.skip(k));
    assert(all_digits(s.take(k)));
    assert(all_digits(s.skip(k)));
    lemma_seq_val_bounds(s.take(k));
    lemma_seq_val_bounds(s.skip(k));
    let p = pow10(s.skip(k).len());
    lemma_pow10_pos(s.skip(k).len());
    lemma_mul_inequality(1, p as int, seq_val(s.take(k)));
}

pub proof fn lemma_dec_digits_inv(s: Seq<char>)
    requires
        valid_int_chars(s),
    ensures
        dec_digits(seq_val(s) as nat) =~= s,
    decreases s.len(),
{
    lemma_seq_val_bounds(s);
    if s.len() == 1 {
        assert(is_digit_char(s[0]));
        assert(s.drop_last() =~= Seq::<char>::empty());
        assert(s.last() == s[0]);
        assert(seq_val(s) == 10 * seq_val(Seq::<char>::empty()) + digit_val(s[0]));
        assert(seq_val(s) == digit_val(s[0]));
        lemma_digit_char_of_val(s[0]);
        assert(dec_digits(seq_val(s) as nat) =~= seq![s[0]]);
        assert(s =~= seq![s[0]]);
    } else {
        let s0 = s.drop_last();
        let c = s.last();
        assert(all_digits(s0));
        assert(s0[0] == s[0]);
        assert(valid_int_chars(s0));
        lemma_dec_digits_inv(s0);
        lemma_seq_val_lower(s0);
        let v0 = seq_val(s0);
        assert(is_digit_char(c));
        let v = seq_val(s);
        assert(v == 10 * v0 + digit_val(c));
        lemma_fundamental_div_mod_converse_div(v, 10, v0, digit_val(c));
        lemma_fundamental_div_mod_converse_mod(v, 10, v0, digit_val(c));
        lemma_digit_char_of_val(c);
        assert(dec_digits(v as nat) == dec_digits((v as nat) / 10).push(
            digit_char(((v as nat) % 10) as int),
        ));
        assert((v as nat) / 10 == v0 as nat);
        assert(((v as nat) % 10) as int == digit_val(c));
        assert(dec_digits(v as nat) =~= s0.push(c));
        assert(s0.push(c) =~= s);
    }
}

pub proof fn lemma_fixed_digits_inv(s: Seq<char>, n: nat)
    requires
        all_digits(s),
        n % pow10(s.len()) == seq_val(s),
    ensures
        fixed_digits(n, s.len()) =~= s,
    decreases s.len(),
{
    if s.len() == 0 {
        assert(fixed_digits(n, 0) =~= Seq::<char>::empty());
    } else {
        let s0 = s.drop_last();
        let c = s.last();
        assert(all_digits(s0));
        assert(is_digit_char(c));
        let p: int = pow10(s0.len()) as int;
        lemma_pow10_pos(s0.len());
        lemma_breakdown(n as int, 10, p);
        assert(n % pow10(s.len()) == 10 * ((n as int / 10) % p) + n % 10);
        assert(seq_val(s) == 10 * seq_val(s0) + digit_val(c));
        lemma_seq_val_bounds(s0);
        lemma_mod_division_less_than_divisor(n as int / 10, p);
        lemma_mod_division_less_than_divisor(n as int, 10);
        assert((n as int / 10) % p == seq_val(s0) && n % 10 == digit_val(c)) by {
            let a = (n as int / 10) % p;
            let b = seq_val(s0);
            let r1 = n % 10;
            let r2 = digit_val(c);
            assert(10 * a + r1 == 10 * b + r2);
            assert(0 <= r1 < 10 && 0 <= r2 < 10);
        }
        lemma_fixed_digits_inv(s0, (n / 10) as nat);
        lemma_digit_char_of_val(c);
        assert(fixed_digits(n, s.len()) == fixed_digits(n / 10, s0.len()).push(
            digit_char((n % 10) as int),
        ));
        assert(fixed_digits(n, s.len()) =~= s0.push(c));
        assert(s0.push(c) =~= s);
    }
}

pub proof fn lemma_find_dot_none(s: Seq<char>)
    requires
        forall|i: int| 0 <= i < s.len() ==> #[trigger] s[i] != '.',
    ensures
        find_dot(s) is None,
    decreases s.len(),
{
    if s.len() > 0 {
        assert(forall|i: int| 0 <= i < s.skip(1).len() ==> #[trigger] s.skip(1)[i] != '.');
        lemma_find_dot_none(s.skip(1));
    }
}

pub proof fn lemma_find_dot_at(s: Seq<char>, p: int)
    requires
        0 <= p < s.len(),
        s[p] == '.',
        forall|i: int| 0 <= i < p ==> #[trigger] s[i] != '.',
    ensures
        find_dot(s) == Option::Some(p),
    decreases p,
{
    if p > 0 {
        assert(forall|i: int| 0 <= i < p - 1 ==> #[trigger] s.skip(1)[i] != '.');
        assert(s.skip(1)[p - 1] == s[p]);
        lemma_find_dot_at(s.skip(1), p - 1);
    }
}

pub proof fn lemma_find_dot_props(s: Seq<char>)
    ensures
        find_dot(s) matches Option::Some(p) ==> 0 <= p < s.len() && s[p] == '.' && forall|i: int|
            0 <= i < p ==> #[trigger] s[i] != '.',
        find_dot(s) is None ==> forall|i: int| 0 <= i < s.len() ==> #[trigger] s[i] != '.',
    decreases s.len(),
{
    if s.len() == 0 {
    } else if s[0] == '.' {
        assert(find_dot(s) == Option::Some(0int));
    } else {
        lemma_find_dot_props(s.skip(1));
        assert(forall|i: int| 1 <= i < s.len() ==> s[i] == #[trigger] s.skip(1)[i - 1]);
        match find_dot(s.skip(1)) {
            Option::Some(q) => {
                assert(find_dot(s) == Option::Some(q + 1));
                assert(s[q + 1] == s.skip(1)[q]);
                assert forall|i: int| 0 <= i < q + 1 implies #[trigger] s[i] != '.' by {
                    if i >= 1 {
                        assert(s[i] == s.skip(1)[i - 1]);
                    }
                }
            },
            Option::None => {
                assert(find_dot(s) is None);
                assert forall|i: int| 0 <= i < s.len() implies #[trigger] s[i] != '.' by {
                    if i >= 1 {
                        assert(s[i] == s.skip(1)[i - 1]);
                    }
                }
            },
        }
    }
}

// ---------------------------------------------------------------------
// The executable codec.
// ---------------------------------------------------------------------

fn pow10_u64(k: u32) -> (r: u64)
    requires
        k <= 19,
    ensures
        r as nat == pow10(k as nat),
{
    let mut r: u64 = 1;
    let mut i: u32 = 0;
    while i < k
        invariant
            i <= k <= 19,
            r as nat == pow10(i as nat),
        decreases k - i,
    {
        proof {
            reveal_with_fuel(pow10, 21);
            assert(pow10(19nat) == 10000000000000000000nat);
            lemma_pow10_mono((i + 1) as nat, 19nat);
            assert(pow10((i + 1) as nat) == 10 * pow10(i as nat));
        }
        r = r * 10;
        i = i + 1;
    }
    r
}

fn push_digit(out: &mut String, d: u8)
    requires
        d < 10,
    ensures
        final(out)@ == old(out)@.push(digit_char(d as int)),
{
    match d {
        0 => {
            out.append("0");
            proof {
                reveal_strlit("0");
                lemma_digit_char_val(0);
                assert(old(out)@ + "0"@ =~= old(out)@.push(digit_char(0)));
            }
        },
        1 => {
            out.append("1");
            proof {
                reveal_strlit("1");
                lemma_digit_char_val(1);
                assert(old(out)@ + "1"@ =~= old(out)@.push(digit_char(1)));
            }
        },
        2 => {
            out.append("2");
            proof {
                reveal_strlit("2");
                lemma_digit_char_val(2);
                assert(old(out)@ + "2"@ =~= old(out)@.push(digit_char(2)));
            }
        },
        3 => {
            out.append("3");
            proof {
                reveal_strlit("3");
                lemma_digit_char_val(3);
                assert(old(out)@ + "3"@ =~= old(out)@.push(digit_char(3)));
            }
        },
        4 => {
            out.append("4");
            proof {
                reveal_strlit("4");
                lemma_digit_char_val(4);
                assert(old(out)@ + "4"@ =~= old(out)@.push(digit_char(4)));
            }
        },
        5 => {
            out.append("5");
            proof {
                reveal_strlit("5");
                lemma_digit_char_val(5);
                assert(old(out)@ + "5"@ =~= old(out)@.push(digit_char(5)));
            }
        },
        6 => {
            out.append("6");
            proof {
                reveal_strlit("6");
                lemma_digit_char_val(6);
                assert(old(out)@ + "6"@ =~= old(out)@.push(digit_char(6)));
            }
        },
        7 => {
            out.append("7");
            proof {
                reveal_strlit("7");
                lemma_digit_char_val(7);
                assert(old(out)@ + "7"@ =~= old(out)@.push(digit_char(7)));
            }
        },
        8 => {
            out.append("8");
            proof {
                reveal_strlit("8");
                lemma_digit_char_val(8);
                assert(old(out)@ + "8"@ =~= old(out)@.push(digit_char(8)));
            }
        },
        _ => {
            out.append("9");
            proof {
                reveal_strlit("9");
                lemma_digit_char_val(9);
                assert(old(out)@ + "9"@ =~= old(out)@.push(digit_char(9)));
            }
        },
    }
}

fn push_dec_digits(out: &mut String, n: u64)
    ensures
        final(out)@ == old(out)@ + dec_digits(n as nat),
    decreases n,
{
    if n >= 10 {
        push_dec_digits(out, n / 10);
        push_digit(out, (n % 10) as u8);
        proof {
            assert((old(out)@ + dec_digits((n / 10) as nat)).push(
                digit_char((n % 10) as int),
            ) =~= old(out)@ + dec_digits(n as nat));
        }
    } else {
        push_digit(out, n as u8);
        proof {
            assert(old(out)@.push(digit_char(n as int)) =~= old(out)@ + dec_digits(n as nat));
        }
    }
}

fn push_fixed_digits(out: &mut String, n: u64, k: u32)
    ensures
        final(out)@ == old(out)@ + fixed_digits(n as nat, k as nat),
    decreases k,
{
    if k > 0 {
        push_fixed_digits(out, n / 10, k - 1);
        push_digit(out, (n % 10) as u8);
        proof {
            assert((old(out)@ + fixed_digits((n / 10) as nat, (k - 1) as nat)).push(
                digit_char((n % 10) as int),
            ) =~= old(out)@ + fixed_digits(n as nat, k as nat));
        }
    } else {
        proof {
            assert(old(out)@ + fixed_digits(n as nat, 0) =~= old(out)@);
        }
    }
}

/// Serialize a decimal into its canonical, precision-preserving wire
/// string: no scientific notation and no truncation of trailing zeros.
pub fn encode(d: &Decimal) -> (r: String)
    requires
        d.wf(),
    ensures
        r@ == spec_encode_decimal(*d),
{
    let mut out = String::new();
    if d.negative {
        out.append("-");
    }
    proof {
        reveal_strlit("-");
        if d.negative {
            assert(out@ =~= seq!['-']);
        } else {
            assert(out@ =~= Seq::<char>::empty());
        }
    }
    let ghost sign: Seq<char> = out@;
    if d.scale == 0 {
        push_dec_digits(&mut out, d.mantissa);
        proof {
            assert(out@ == sign + dec_digits(d.mantissa as nat));
        }
    } else {
        let ip: u64;
        if d.scale <= 19 {
            let p = pow10_u64(d.scale);
            proof {
                lemma_pow10_pos(d.scale as nat);
            }
            ip = d.mantissa / p;
            proof {
                assert(ip as nat == (d.mantissa as nat) / pow10(d.scale as nat));
            }
        } else {
            ip = 0;
            proof {
                reveal_with_fuel(pow10, 22);
                assert(pow10(20nat) == 100000000000000000000nat);
                lemma_pow10_mono(20nat, d.scale as nat);
                lemma_basic_div(d.mantissa as int, pow10(d.scale as nat) as int);
                assert(ip as nat == (d.mantissa as nat) / pow10(d.scale as nat));
            }
        }
        push_dec_digits(&mut out, ip);
        out.append(".");
        proof {
            reveal_strlit(".");
            assert(out@ =~= sign + dec_digits(ip as nat) + seq!['.']);
        }
        push_fixed_digits(&mut out, d.mantissa, d.scale);
        proof {
            assert(out@ =~= sign + dec_digits(ip as nat) + seq!['.'] + fixed_digits(
                d.mantissa as nat,
                d.scale as nat,
            ));
        }
    }
    out
}

/// Deserialize a canonical decimal wire string.
///
/// Succeeds exactly on the canonical numeric grammar (including the
/// magnitude limits of the representation), as `spec_decode_decimal`
/// states it; everything else is `InvalidNumericFormat`.
#[verifier::rlimit(100)]
#[verifier::spinoff_prover]
#[verifier::loop_isolation(false)]
pub fn decode(s: &str) -> (r: Result<Decimal, ExchangeError>)
    ensures
        r == spec_decode_decimal(s@),
{
    let err: Result<Decimal, ExchangeError> = Result::Err(ExchangeError::InvalidNumericFormat);
    let n = s.unicode_len();
    if n == 0 {
        proof {
            lemma_find_dot_none(s@);
        }
        return err;
    }
    let neg = s.get_char(0) == '-';
    let off: usize = if neg { 1 } else { 0 };
    let ghost mag: Seq<char> = s@.skip(off as int);
    proof {
        if !neg {
            assert(mag =~= s@);
        }
    }

    // Find the first '.' at or after `off`; `n` means there is none.
    let mut dot: usize = n;
    let mut j: usize = off;
    while j < n
        invariant
            off <= j <= n,
            n == s@.len(),
            off <= n,
            dot == n || (off <= dot < j && s@[dot as int] == '.'),
            dot == n ==> forall|i: int| off <= i < j ==> s@[i] != '.',
            dot < n ==> forall|i: int| off <= i < dot ==> s@[i] != '.',
        decreases n - j,
    {
        if dot == n && s.get_char(j) == '.' {
            dot = j;
        }
        j = j + 1;
    }
    proof {
        if dot == n {
            assert(forall|i: int|
                0 <= i < mag.len() ==> mag[i] == #[trigger] s@[i + off]);
            lemma_find_dot_none(mag);
        } else {
            assert(forall|i: int|
                0 <= i < mag.len() ==> mag[i] == #[trigger] s@[i + off]);
            lemma_find_dot_at(mag, dot - off);
        }
    }
    let ghost ic: Seq<char> = s@.subrange(off as int, dot as int);
    let ghost fc: Seq<char> = if dot < n {
        s@.subrange(dot + 1, n as int)
    } else {
        Seq::<char>::empty()
    };
    proof {
        assert(ic =~= mag.take(dot - off));
        if dot < n {
            assert(fc =~= mag.skip(dot - off + 1));
        }
    }

    // The integer part must hold at least one digit.
    if dot == off {
        proof {
            assert(ic.len() == 0);
            if dot == n {
                assert(ic =~= mag);
            }
            assert(!valid_int_chars(ic));
        }
        return err;
    }

    // Scan the integer part, accumulating its value.
    let mut acc: u64 = 0;
    let mut k: usize = off;
    let first = s.get_char(off);
    while k < dot
        invariant
            off <= k <= dot <= n,
            n == s@.len(),
            off < dot,
            forall|i: int| off <= i < k ==> is_digit_char(#[trigger] s@[i]),
            acc as int == seq_val(s@.subrange(off as int, k as int)),
            ic == s@.subrange(off as int, dot as int),
        decreases dot - k,
    {
        let c = s.get_char(k);
        let u = c as u32;
        if u < 48 || u > 57 {
            proof {
                assert(ic[k - off] == s@[k as int]);
                assert(!all_digits(ic)) by {
                    assert(!is_digit_char(ic[k - off]));
                }
            }
            return err;
        }
        let d = (u - 48) as u64;
        if acc > (u64::MAX - d) / 10 {
            proof {
                let pre = s@.subrange(off as int, k as int).push(s@[k as int]);
                assert(pre =~= s@.subrange(off as int, k + 1));
                assert(pre.drop_last() =~= s@.subrange(off as int, k as int));
                assert(seq_val(pre) == 10 * (acc as int) + (d as int));
                assert(10 * (acc as int) + (d as int) > u64::MAX as int) by {
                    lemma_fundamental_div_mod((u64::MAX - d) as int, 10);
                };
                assert((ic + fc).take(k + 1 - off) =~= pre);
                lemma_err_when_too_big(mag, ic, fc, dot - off, dot == n, k + 1 - off,
                    seq_val(pre));
            }
            return err;
        }
        acc = acc * 10 + d;
        proof {
            let pre = s@.subrange(off as int, k as int).push(s@[k as int]);
            assert(pre =~= s@.subrange(off as int, k + 1));
            assert(pre.drop_last() =~= s@.subrange(off as int, k as int));
        }
        k = k + 1;
    }
    proof {
        assert(all_digits(ic));
        assert(acc as int == seq_val(ic));
    }

    // A leading zero is only canonical as the single digit `0`.
    if first == '0' && dot - off > 1 {
        proof {
            assert(ic[0] == s@[off as int]);
            assert(!valid_int_chars(ic));
        }
        return err;
    }
    proof {
        assert(ic[0] == s@[off as int]);
        assert(valid_int_chars(ic));
    }

    let scale: u32;
    if dot == n {
        // No fractional part.
        scale = 0;
        proof {
            assert(ic =~= mag);
            assert(spec_decode_mag(mag) == Result::<Decimal, ExchangeError>::Ok(
                Decimal { negative: false, mantissa: acc, scale: 0 },
            ));
        }
        if neg {
            if acc == 0 {
                return err;
            }
            return Result::Ok(Decimal { negative: true, mantissa: acc, scale: 0 });
        }
        return Result::Ok(Decimal { negative: false, mantissa: acc, scale: 0 });
    }

    // The fractional part: everything after the dot, at least one digit,
    // at most the supported precision.
    if n - dot - 1 == 0 {
        proof {
            assert(fc.len() == 0);
            assert(spec_decode_mag(mag) == Result::<Decimal, ExchangeError>::Err(
                ExchangeError::InvalidNumericFormat,
            ));
        }
        return err;
    }
    if n - dot - 1 > 28 {
        proof {
            assert(fc.len() > 28);
            assert(spec_decode_mag(mag) == Result::<Decimal, ExchangeError>::Err(
                ExchangeError::InvalidNumericFormat,
            ));
        }
        return err;
    }
    scale = (n - dot - 1) as u32;
    let mut k2: usize = dot + 1;
    while k2 < n
        invariant
            dot + 1 <= k2 <= n,
            n == s@.len(),
            off < dot < n,
            forall|i: int| dot + 1 <= i < k2 ==> is_digit_char(#[trigger] s@[i]),
            acc as int == seq_val(ic + s@.subrange(dot + 1, k2 as int)),
            ic == s@.subrange(off as int, dot as int),
            fc == s@.subrange(dot + 1, n as int),
            all_digits(ic),
        decreases n - k2,
    {
        let c = s.get_char(k2);
        let u = c as u32;
        if u < 48 || u > 57 {
            proof {
                assert(fc[k2 - dot - 1] == s@[k2 as int]);
                assert(!all_digits(fc)) by {
                    assert(!is_digit_char(fc[k2 - dot - 1]));
                }
            }
            return err;
        }
        let d = (u - 48) as u64;
        if acc > (u64::MAX - d) / 10 {
            proof {
                let prev = ic + s@.subrange(dot + 1, k2 as int);
                let pre = prev.push(s@[k2 as int]);
                assert(pre =~= ic + s@.subrange(dot + 1, k2 + 1));
                assert(pre.drop_last() =~= prev);
                assert(seq_val(pre) == 10 * (acc as int) + (d as int));
                assert(10 * (acc as int) + (d as int) > u64::MAX as int) by {
                    lemma_fundamental_div_mod((u64::MAX - d) as int, 10);
                };
                assert((ic + fc).take(ic.len() as int + (k2 + 1 - dot - 1)) =~= pre);
                lemma_err_when_too_big(mag, ic, fc, dot - off, false,
                    ic.len() as int + (k2 + 1 - dot - 1), seq_val(pre));
            }
            return err;
        }
        acc = acc * 10 + d;
        proof {
            let prev = ic + s@.subrange(dot + 1, k2 as int);
            let pre = prev.push(s@[k2 as int]);
            assert(pre =~= ic + s@.subrange(dot + 1, k2 + 1));
            assert(pre.drop_last() =~= prev);
        }
        k2 = k2 + 1;
    }
    proof {
        assert(s@.subrange(dot + 1, n as int) == fc);
        assert(acc as int == seq_val(ic + fc));
        assert(all_digits(fc));
        lemma_seq_val_concat(ic, fc);
        assert(seq_val(ic) * pow10(fc.len()) + seq_val(fc) == acc as int);
        assert(spec_decode_mag(mag) == Result::<Decimal, ExchangeError>::Ok(
            Decimal { negative: false, mantissa: acc, scale: fc.len() as u32 },
        ));
        assert(fc.len() as u32 == scale);
    }
    if neg {
        if acc == 0 {
            return err;
        }
        return Result::Ok(Decimal { negative: true, mantissa: acc, scale });
    }
    Result::Ok(Decimal { negative: false, mantissa: acc, scale })
}

/// When some digit prefix of the magnitude already exceeds the
/// representable mantissa, the whole literal is rejected.
proof fn lemma_err_when_too_big(
    mag: Seq<char>,
    ic: Seq<char>,
    fc: Seq<char>,
    p: int,
    no_dot: bool,
    plen: int,
    pval: int,
)
    requires
        no_dot ==> find_dot(mag) is None && ic == mag && fc.len() == 0,
        !no_dot ==> find_dot(mag) == Option::Some(p) && 0 <= p <= mag.len() && ic == mag.take(p)
            && fc == mag.skip(p + 1),
        0 <= plen <= ic.len() + fc.len(),
        pval == seq_val((ic + fc).take(plen)),
        pval > u64::MAX as int,
    ensures
        spec_decode_mag(mag) == Result::<Decimal, ExchangeError>::Err(
            ExchangeError::InvalidNumericFormat,
        ),
{
    if no_dot {
        if valid_int_chars(mag) {
            assert(ic + fc =~= mag);
            lemma_seq_val_prefix(mag, plen);
            assert(mag.take(plen) =~= (ic + fc).take(plen));
            assert(seq_val(mag) >= seq_val((ic + fc).take(plen)));
        }
    } else {
        if valid_int_chars(ic) && 1 <= fc.len() <= 28 && all_digits(fc) {
            assert(all_digits(ic + fc));
            lemma_seq_val_prefix(ic + fc, plen);
            lemma_seq_val_concat(ic, fc);
            assert(seq_val(ic) * pow10(fc.len()) + seq_val(fc) >= pval);
        }
    }
}

// ---------------------------------------------------------------------
// The codec round-trip laws.
// ---------------------------------------------------------------------

/// Decoding of the unsigned magnitude succeeds exactly on canonical
/// magnitudes, and recovers them exactly.
proof fn lemma_decode_mag_inv(s: Seq<char>, d: Decimal)
    requires
        spec_decode_mag(s) == Result::<Decimal, ExchangeError>::Ok(d),
    ensures
        d.wf(),
        !d.negative,
        spec_encode_decimal(d) == s,
{
    lemma_find_dot_props(s);
    match find_dot(s) {
        Option::Some(p) => {
            let ic = s.take(p);
            let fc = s.skip(p + 1);
            lemma_seq_val_bounds(ic);
            lemma_seq_val_bounds(fc);
            lemma_pow10_pos(fc.len());
            let v = seq_val(ic) * pow10(fc.len()) + seq_val(fc);
            assert(v >= 0) by {
                lemma_mul_nonnegative(seq_val(ic), pow10(fc.len()) as int);
            }
            assert(d.mantissa == v && d.scale == fc.len());
            lemma_fundamental_div_mod_converse_div(v, pow10(fc.len()) as int, seq_val(ic),
                seq_val(fc));
            lemma_fundamental_div_mod_converse_mod(v, pow10(fc.len()) as int, seq_val(ic),
                seq_val(fc));
            assert((d.mantissa as nat) / pow10(d.scale as nat) == seq_val(ic));
            lemma_dec_digits_inv(ic);
            lemma_fixed_digits_inv(fc, d.mantissa as nat);
            assert(spec_encode_decimal(d) == Seq::<char>::empty() + dec_digits(seq_val(ic) as nat)
                + seq!['.'] + fixed_digits(d.mantissa as nat, d.scale as nat));
            assert(spec_encode_decimal(d) =~= ic + seq![s[p]] + fc);
            assert(s =~= ic + seq![s[p]] + fc);
        },
        Option::None => {
            lemma_seq_val_bounds(s);
            assert(d.mantissa == seq_val(s) && d.scale == 0);
            lemma_dec_digits_inv(s);
            assert(spec_encode_decimal(d) =~= dec_digits(seq_val(s) as nat));
        },
    }
}

/// Encoding a well-formed decimal always yields a string that decodes
/// back to the same value: `decode(encode(x)) == x`, with no loss of
/// precision.
pub proof fn lemma_decimal_round_trip(d: Decimal)
    requires
        d.wf(),
    ensures
        spec_decode_decimal(spec_encode_decimal(d)) == Result::<Decimal, ExchangeError>::Ok(d),
{
    let m = d.mantissa as nat;
    let k = d.scale as nat;
    let body: Seq<char> = if d.scale == 0 {
        dec_digits(m)
    } else {
        dec_digits(m / pow10(k)) + seq!['.'] + fixed_digits(m, k)
    };
    let e = spec_encode_decimal(d);
    lemma_dec_digits_props(m);
    let mag = Decimal { negative: false, mantissa: d.mantissa, scale: d.scale };
    if d.scale == 0 {
        assert(forall|i: int| 0 <= i < body.len() ==> #[trigger] body[i] != '.') by {
            assert(all_digits(body));
        }
        lemma_find_dot_none(body);
        assert(valid_int_chars(body)) by {
            if m == 0 {
                assert(body =~= seq!['0']);
            }
        }
        assert(spec_decode_mag(body) == Result::<Decimal, ExchangeError>::Ok(mag));
    } else {
        let ip = m / pow10(k);
        lemma_pow10_pos(k);
        lemma_dec_digits_props(ip);
        lemma_fixed_digits_props(m, k);
        let il = dec_digits(ip).len() as int;
        assert(body[il] == '.');
        assert(forall|i: int| 0 <= i < il ==> #[trigger] body[i] != '.') by {
            assert(forall|i: int| 0 <= i < il ==> body[i] == #[trigger] dec_digits(ip)[i]);
        }
        lemma_find_dot_at(body, il);
        assert(body.take(il) =~= dec_digits(ip));
        assert(body.skip(il + 1) =~= fixed_digits(m, k));
        assert(valid_int_chars(dec_digits(ip))) by {
            if ip == 0 {
                assert(dec_digits(ip) =~= seq!['0']);
            }
        }
        lemma_fundamental_div_mod(m as int, pow10(k) as int);
        assert(seq_val(dec_digits(ip)) * pow10(fixed_digits(m, k).len()) + seq_val(
            fixed_digits(m, k),
        ) == m);
        assert(spec_decode_mag(body) == Result::<Decimal, ExchangeError>::Ok(mag));
    }
    if d.negative {
        assert(e =~= seq!['-'] + body);
        assert(e[0] == '-');
        assert(e.skip(1) =~= body);
        assert(spec_decode_decimal(e) == Result::<Decimal, ExchangeError>::Ok(d));
    } else {
        assert(e =~= body);
        assert(e[0] != '-') by {
            if d.scale == 0 {
                assert(all_digits(body));
                assert(is_digit_char(body[0]));
            } else {
                lemma_dec_digits_props(m / pow10(k));
                assert(all_digits(dec_digits(m / pow10(k))));
                assert(body[0] == dec_digits(m / pow10(k))[0]);
                assert(is_digit_char(body[0]));
            }
        }
        assert(spec_decode_decimal(e) == spec_decode_mag(e));
        assert(mag == d);
    }
}

/// Every string the decoder accepts is the canonical encoding of the
/// value it returns: `encode(decode(s)) == s` on the canonical numeric
/// grammar.
pub proof fn lemma_decimal_canonical(s: Seq<char>, d: Decimal)
    requires
        spec_decode_decimal(s) == Result::<Decimal, ExchangeError>::Ok(d),
    ensures
        d.wf(),
        spec_encode_decimal(d) == s,
{
    if s.len() >= 1 && s[0] == '-' {
        let mag = s.skip(1);
        let d0 = spec_decode_mag(mag)->Ok_0;
        lemma_decode_mag_inv(mag, d0);
        assert(d == Decimal { negative: true, ..d0 });
        assert(spec_encode_decimal(d0) == mag);
        assert(spec_encode_decimal(d) =~= seq!['-'] + spec_encode_decimal(d0)) by {
            assert(spec_encode_decimal(d0) =~= Seq::<char>::empty() + spec_encode_decimal(d0));
        }
        assert(spec_encode_decimal(d) =~= s);
    } else {
        lemma_decode_mag_inv(s, d);
    }
}

impl Decimal {
    /// Runtime check of well-formedness, for validating caller-built
    /// values before they are put on the wire.
    pub fn check_wf(&self) -> (r: bool)
        ensures
            r == self.wf(),
    {
        self.scale <= 28 && (!self.negative || self.mantissa > 0)
    }
}

} // verus!
