//! Exact decimal numbers for the JSON layer.
//!
//! A `JsonNum` is a fixed-point decimal: its mathematical value is
//! `scaled() / 10^19`, where `scaled()` is a signed integer with magnitude
//! below `10^38`.  Every decimal literal with at most 38 significant digits
//! and a value whose magnitude is below `10^19` (down to a resolution of
//! `10^-19`) is represented exactly; anything finer or larger is rejected by
//! the parser as out of range.

use vstd::prelude::*;
use crate::bytes::{dec_digits, push_dec_u128};

verus! {

/// Magnitude bound of the scaled value: `10^38`.
pub const MANT_LIMIT: u128 = 100_000_000_000_000_000_000_000_000_000_000_000_000;

/// Scale factor: the scaled value of `1` is `10^19`.
pub const ONE_SCALE: u128 = 10_000_000_000_000_000_000;

/// `10^n`.
pub open spec fn pow10(n: nat) -> nat
    decreases n,
{
    if n == 0 {
        1
    } else {
        10 * pow10((n - 1) as nat)
    }
}

#[derive(Clone, Copy, Debug)]
pub struct JsonNum {
    pub neg: bool,
    pub mant: u128,
}

impl JsonNum {
    /// Well-formed numbers keep their mantissa strictly below `10^38`.
    pub open spec fn wf(self) -> bool {
        self.mant < MANT_LIMIT
    }

    /// The value multiplied by `10^19`, as a signed integer.
    pub open spec fn scaled(self) -> int {
        if self.neg {
            -(self.mant as int)
        } else {
            self.mant as int
        }
    }

    /// The number `n`.
    pub fn from_u64(n: u64) -> (r: Option<JsonNum>)
        ensures
            n < 10_000_000_000_000_000_000u64 <==> r is Some,
            r matches Some(v) ==> v.wf() && v.scaled() == n * ONE_SCALE,
    {
        if n < 10_000_000_000_000_000_000u64 {
            let mant = (n as u128) * ONE_SCALE;
            proof {
                assert((n as u128) * ONE_SCALE < MANT_LIMIT) by (nonlinear_arith)
                    requires
                        n < 10_000_000_000_000_000_000u64,
                        ONE_SCALE == 10_000_000_000_000_000_000u128,
                        MANT_LIMIT == 100_000_000_000_000_000_000_000_000_000_000_000_000u128,
                ;
            }
            Some(JsonNum { neg: false, mant })
        } else {
            None
        }
    }

    /// A number given directly by sign and scaled magnitude.
    pub fn from_scaled(neg: bool, mant: u128) -> (r: Option<JsonNum>)
        ensures
            mant < MANT_LIMIT <==> r is Some,
            r matches Some(v) ==> v.wf() && v.neg == neg && v.mant == mant,
    {
        if mant < MANT_LIMIT {
            Some(JsonNum { neg, mant })
        } else {
            None
        }
    }

    /// `self <= other` on the represented values.
    pub fn le(&self, other: &JsonNum) -> (r: bool)
        ensures
            r == (self.scaled() <= other.scaled()),
    {
        if self.neg && self.mant != 0 {
            if other.neg && other.mant != 0 {
                other.mant <= self.mant
            } else {
                true
            }
        } else {
            if other.neg && other.mant != 0 {
                false
            } else {
                self.mant <= other.mant
            }
        }
    }

    /// `self >= 0` on the represented value.
    pub fn is_nonneg(&self) -> (r: bool)
        ensures
            r == (self.scaled() >= 0),
    {
        !self.neg || self.mant == 0
    }
}

/// Combines the pieces of a decimal literal into a `JsonNum`.
///
/// `digits` is the contiguous digit string (integer and fraction digits
/// together), `frac_len` how many of them sit after the decimal point, and
/// `exp` the explicit exponent.  The literal's value is
/// `digits * 10^(exp - frac_len)`; it is representable exactly when the
/// scaled value `digits * 10^(19 + exp - frac_len)` is an integer with
/// magnitude below `10^38`.
pub open spec fn spec_make_num(neg: bool, digits: nat, frac_len: nat, exp: int) -> Option<
    JsonNum,
> {
    let net = 19 + exp - frac_len;
    if net >= 0 {
        if digits * pow10(net as nat) < MANT_LIMIT {
            Some(JsonNum { neg, mant: (digits * pow10(net as nat)) as u128 })
        } else {
            None
        }
    } else {
        let p = pow10((-net) as nat);
        if digits % p == 0 && digits / p < MANT_LIMIT {
            Some(JsonNum { neg, mant: (digits / p) as u128 })
        } else {
            None
        }
    }
}

pub proof fn lemma_pow10_pos(n: nat)
    ensures
        pow10(n) >= 1,
    decreases n,
{
    if n > 0 {
        lemma_pow10_pos((n - 1) as nat);
    }
}

pub proof fn lemma_pow10_grows(n: nat)
    requires
        n >= 39,
    ensures
        pow10(n) >= MANT_LIMIT,
    decreases n,
{
    assert(pow10(38) == MANT_LIMIT) by {
        reveal_with_fuel(pow10, 40);
    }
    if n == 39 {
        assert(pow10(39) == 10 * pow10(38));
    } else {
        lemma_pow10_grows((n - 1) as nat);
    }
}

/// Computes `10^n` when it fits below `10^38`.
pub fn pow10_exec(n: u32) -> (r: u128)
    requires
        n <= 38,
    ensures
        r == pow10(n as nat),
        r >= 1,
{
    let mut r: u128 = 1;
    let mut i: u32 = 0;
    while i < n
        invariant
            i <= n <= 38,
            r == pow10(i as nat),
            r >= 1,
        decreases n - i,
    {
        proof {
            lemma_pow10_le_limit(i as nat);
            assert(pow10(37) == 10_000_000_000_000_000_000_000_000_000_000_000_000) by {
                reveal_with_fuel(pow10, 40);
            }
            assert(pow10((i + 1) as nat) == 10 * pow10(i as nat));
        }
        r = r * 10;
        i = i + 1;
    }
    r
}

pub proof fn lemma_pow10_le_limit(n: nat)
    requires
        n <= 37,
    ensures
        pow10(n) <= pow10(37),
    decreases 37 - n,
{
    if n < 37 {
        lemma_pow10_le_limit(n + 1);
        lemma_pow10_pos(n);
        assert(pow10(n + 1) == 10 * pow10(n));
    }
}

/// Builds the number for a parsed decimal literal, as `spec_make_num` says.
pub fn make_num(neg: bool, digits: u128, frac_len: u32, exp: i64) -> (r: Option<JsonNum>)
    requires
        digits < MANT_LIMIT,
        frac_len <= 50,
        -20_000 <= exp <= 20_000,
    ensures
        r == spec_make_num(neg, digits as nat, frac_len as nat, exp as int),
        r matches Some(v) ==> v.wf(),
{
    let net: i64 = 19 + exp - (frac_len as i64);
    if net >= 0 {
        if net > 38 {
            if digits == 0 {
                proof {
                    assert(0 * pow10(net as nat) == 0) by (nonlinear_arith);
                }
                Some(JsonNum { neg, mant: 0 })
            } else {
                proof {
                    lemma_pow10_grows(net as nat);
                    assert(digits * pow10(net as nat) >= pow10(net as nat)) by (nonlinear_arith)
                        requires
                            digits >= 1,
                            pow10(net as nat) >= 0,
                    ;
                }
                None
            }
        } else {
            let p = pow10_exec(net as u32);
            match digits.checked_mul(p) {
                Some(m) => {
                    if m < MANT_LIMIT {
                        Some(JsonNum { neg, mant: m })
                    } else {
                        None
                    }
                },
                None => {
                    proof {
                        assert(digits * pow10(net as nat) >= u128::MAX + 1 >= MANT_LIMIT);
                    }
                    None
                },
            }
        }
    } else {
        let minus_net = (-net) as u32;
        if minus_net > 38 {
            proof {
                lemma_pow10_grows((-net) as nat);
            }
            if digits == 0 {
                proof {
                    lemma_pow10_pos((-net) as nat);
                }
                Some(JsonNum { neg, mant: 0 })
            } else {
                // the divisibility test cannot succeed: p exceeds digits
                let ghost p = pow10((-net) as nat);
                proof {
                    lemma_pow10_pos((-net) as nat);
                    if digits as nat % p == 0 {
                        vstd::arithmetic::div_mod::lemma_fundamental_div_mod(
                            digits as int,
                            p as int,
                        );
                        assert(digits as int == (digits as int / p as int) * (p as int));
                        if digits as int / p as int >= 1 {
                            assert((digits as int / p as int) * (p as int) >= p as int)
                                by (nonlinear_arith)
                                requires
                                    digits as int / p as int >= 1,
                                    p as int >= 1,
                            ;
                        } else {
                            assert((digits as int / p as int) * (p as int) <= 0)
                                by (nonlinear_arith)
                                requires
                                    digits as int / p as int <= 0,
                                    p as int >= 1,
                            ;
                        }
                        assert(false);
                    }
                }
                None
            }
        } else {
            let p = pow10_exec(minus_net);
            if digits % p == 0 {
                Some(JsonNum { neg, mant: digits / p })
            } else {
                None
            }
        }
    }
}

pub proof fn lemma_pow10_mono(a: nat, b: nat)
    requires
        a <= b,
    ensures
        pow10(a) <= pow10(b),
    decreases b - a,
{
    if a < b {
        lemma_pow10_mono(a, (b - 1) as nat);
        lemma_pow10_pos((b - 1) as nat);
        assert(pow10(b) == 10 * pow10((b - 1) as nat));
    }
}

pub proof fn lemma_pow10_add(a: nat, b: nat)
    ensures
        pow10(a + b) == pow10(a) * pow10(b),
    decreases a,
{
    if a == 0 {
        assert(pow10(b) == 1 * pow10(b)) by (nonlinear_arith);
    } else {
        lemma_pow10_add((a - 1) as nat, b);
        assert((a + b) >= 1);
        assert(pow10(a + b) == 10 * pow10((a + b - 1) as nat));
        assert((a + b - 1) as nat == (a - 1) as nat + b);
        assert(10 * (pow10((a - 1) as nat) * pow10(b)) == (10 * pow10((a - 1) as nat)) * pow10(
            b,
        )) by (nonlinear_arith);
    }
}

/// With an exponent so large that the scaled value would carry at least 39
/// digits, only zero is representable.
pub proof fn lemma_make_num_high_shape(neg: bool, digits: nat, frac_len: nat, exp: int)
    requires
        19 + exp - frac_len > 38,
    ensures
        spec_make_num(neg, digits, frac_len, exp) == if digits == 0 {
            Some(JsonNum { neg, mant: 0 })
        } else {
            Option::<JsonNum>::None
        },
{
    let net = (19 + exp - frac_len) as nat;
    lemma_pow10_grows(net);
    if digits == 0 {
        assert(0 * pow10(net) == 0) by (nonlinear_arith);
    } else {
        assert(digits * pow10(net) >= pow10(net)) by (nonlinear_arith)
            requires
                digits >= 1,
                pow10(net) >= 0,
        ;
    }
}

/// With an exponent so small that the fraction cannot be scaled away, only
/// zero is representable.
pub proof fn lemma_make_num_low_shape(neg: bool, digits: nat, frac_len: nat, exp: int)
    requires
        19 + exp - frac_len < -38,
        digits < MANT_LIMIT,
    ensures
        spec_make_num(neg, digits, frac_len, exp) == if digits == 0 {
            Some(JsonNum { neg, mant: 0 })
        } else {
            Option::<JsonNum>::None
        },
{
    let net = 19 + exp - frac_len;
    let p = pow10((-net) as nat);
    lemma_pow10_grows((-net) as nat);
    lemma_pow10_pos((-net) as nat);
    if digits == 0 {
    } else {
        if digits % p == 0 {
            vstd::arithmetic::div_mod::lemma_fundamental_div_mod(digits as int, p as int);
            assert(digits as int == (digits as int / p as int) * (p as int));
            if digits as int / p as int >= 1 {
                assert((digits as int / p as int) * (p as int) >= p as int) by (nonlinear_arith)
                    requires
                        digits as int / p as int >= 1,
                        p as int >= 1,
                ;
            } else {
                assert((digits as int / p as int) * (p as int) <= 0) by (nonlinear_arith)
                    requires
                        digits as int / p as int <= 0,
                        p as int >= 1,
                ;
            }
            assert(false);
        }
    }
}

/// Leading zeros used to pad a fraction to 19 digits.
pub open spec fn zero_pad(n: nat) -> Seq<u8> {
    Seq::new(n, |i: int| 48u8)
}

/// Drops trailing `'0'` characters.
pub open spec fn strip_tz(s: Seq<u8>) -> Seq<u8>
    decreases s.len(),
{
    if s.len() > 0 && s.last() == 48u8 {
        strip_tz(s.drop_last())
    } else {
        s
    }
}

/// Fraction digits of a scaled remainder `0 < fr < 10^19`: the 19-digit
/// zero-padded decimal rendering with trailing zeros removed.
pub open spec fn frac_digits(fr: nat) -> Seq<u8> {
    let d = dec_digits(fr);
    if d.len() <= 19 {
        strip_tz(zero_pad((19 - d.len()) as nat) + d)
    } else {
        strip_tz(d)
    }
}

/// Canonical JSON text of a number.
pub open spec fn render_num(n: JsonNum) -> Seq<u8> {
    let sign: Seq<u8> = if n.neg && n.mant != 0 {
        seq![45u8]
    } else {
        Seq::<u8>::empty()
    };
    let ip = dec_digits((n.mant / ONE_SCALE) as nat);
    let fr = (n.mant % ONE_SCALE) as nat;
    if fr == 0 {
        sign + ip
    } else {
        sign + ip + seq![46u8] + frac_digits(fr)
    }
}

proof fn lemma_dec_digits_len(n: nat, k: nat)
    requires
        k >= 1,
        n < pow10(k),
    ensures
        dec_digits(n).len() <= k,
    decreases n,
{
    if n >= 10 {
        assert(pow10(k) == 10 * pow10((k - 1) as nat));
        lemma_dec_digits_len(n / 10, (k - 1) as nat);
    }
}

impl JsonNum {
    /// Appends the canonical JSON text of this number to `out`.
    pub fn push_render(&self, out: &mut Vec<u8>)
        ensures
            final(out)@ == old(out)@ + render_num(*self),
    {
        if self.neg && self.mant != 0 {
            out.push(45);
        }
        push_dec_u128(out, self.mant / ONE_SCALE);
        let fr = self.mant % ONE_SCALE;
        if fr != 0 {
            out.push(46);
            let mut d: Vec<u8> = Vec::new();
            push_dec_u128(&mut d, fr);
            proof {
                assert(pow10(19) == ONE_SCALE) by {
                    reveal_with_fuel(pow10, 20);
                }
                lemma_dec_digits_len(fr as nat, 19);
            }
            let mut padded: Vec<u8> = Vec::new();
            let pad_n = 19 - d.len();
            let mut i: usize = 0;
            while i < pad_n
                invariant
                    i <= pad_n,
                    padded@ == zero_pad(i as nat),
                decreases pad_n - i,
            {
                padded.push(48);
                proof {
                    assert(padded@ =~= zero_pad((i + 1) as nat));
                }
                i += 1;
            }
            crate::bytes::push_all(&mut padded, d.as_slice());
            while padded.len() > 0 && padded[padded.len() - 1] == 48
                invariant
                    strip_tz(padded@) == strip_tz(zero_pad((19 - dec_digits(fr as nat).len()) as nat) + dec_digits(fr as nat)),
                decreases padded@.len(),
            {
                proof {
                    assert(padded@.drop_last() =~= padded@.subrange(0, padded@.len() - 1));
                }
                padded.pop();
            }
            proof {
                assert(strip_tz(padded@) == padded@);
                assert(padded@ == frac_digits(fr as nat));
            }
            crate::bytes::push_all(out, padded.as_slice());
            proof {
                assert(out@ =~= old(out)@ + render_num(*self));
            }
        } else {
            proof {
                assert(out@ =~= old(out)@ + render_num(*self));
            }
        }
    }
}

} // verus!
