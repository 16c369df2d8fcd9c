//! Non-negative decimal USD prices and their conversion to the ledger's
//! unsigned fixed-point encoding at scale 10^18.

use vstd::prelude::*;
use vstd::arithmetic::power::{pow, lemma_pow_adds, lemma_pow_positive, lemma_pow_increases};
use vstd::arithmetic::div_mod::{lemma_div_denominator, lemma_div_by_multiple};
use rust_decimal::Decimal;

verus! {

#[verifier::external_type_specification]
#[verifier::external_body]
pub struct ExDecimal(Decimal);

/// Relies on `Decimal::scale`: the exponent is read from an 8-bit field of
/// the flags word.
pub assume_specification[ Decimal::scale ](d: &Decimal) -> (r: u32)
    ensures
        r <= 255,
;

/// Relies on `Decimal::mantissa`: the magnitude is assembled from three
/// 32-bit words and then signed.
pub assume_specification[ Decimal::mantissa ](d: &Decimal) -> (r: i128)
    ensures
        -0x1_0000_0000_0000_0000_0000_0000 < r < 0x1_0000_0000_0000_0000_0000_0000,
;

/// The largest number of decimal digits after the point that a price holds.
pub const MAX_SCALE: u32 = 28;

/// The number of decimal digits of the ledger's fixed-point encoding.
pub const LEDGER_DECIMALS: u32 = 18;

pub open spec fn pow10(n: nat) -> int {
    pow(10, n)
}

/// A non-negative decimal number `mantissa / 10^scale`.
#[derive(Clone, Copy, Debug, PartialEq, Eq, Structural)]
pub struct UsdPrice {
    pub mantissa: u128,
    pub scale: u32,
}

impl UsdPrice {
    pub open spec fn wf(self) -> bool {
        self.scale <= MAX_SCALE
    }

    /// `floor(price)`.
    pub open spec fn integer_part(self) -> int {
        self.mantissa as int / pow10(self.scale as nat)
    }

    /// `fractional(price) * 10^scale`.
    pub open spec fn fraction_digits(self) -> int {
        self.mantissa as int % pow10(self.scale as nat)
    }

    /// `mantissa / 10^scale`.
    pub fn new(mantissa: u128, scale: u32) -> (r: Self)
        requires
            scale <= MAX_SCALE,
        ensures
            r.mantissa == mantissa,
            r.scale == scale,
            r.wf(),
    {
        UsdPrice { mantissa, scale }
    }

    /// The price with the given signed mantissa and scale, or `None` where
    /// it is negative or holds more than `MAX_SCALE` fractional digits.
    pub fn from_parts(mantissa: i128, scale: u32) -> (r: Option<Self>)
        ensures
            r == (if mantissa >= 0 && scale <= MAX_SCALE {
                Some(UsdPrice { mantissa: mantissa as u128, scale })
            } else {
                None
            }),
            r matches Some(p) ==> p.wf(),
    {
        if mantissa >= 0 && scale <= MAX_SCALE {
            Some(UsdPrice { mantissa: mantissa as u128, scale })
        } else {
            None
        }
    }

    /// The value of a decimal quote, or `None` where it is negative.
    pub fn from_decimal(d: &Decimal) -> (r: Option<Self>)
        ensures
            r matches Some(p) ==> p.wf(),
    {
        let mantissa = d.mantissa();
        let scale = d.scale();
        Self::from_parts(mantissa, scale)
    }
}

/// `floor(price) * 10^18 + floor(fractional(price) * 10^18)`.
pub open spec fn scaled_spec(p: UsdPrice) -> int {
    p.integer_part() * pow10(LEDGER_DECIMALS as nat)
        + (p.fraction_digits() * pow10(LEDGER_DECIMALS as nat)) / pow10(p.scale as nat)
}

/// `10^n`.
pub fn pow10_u128(n: u32) -> (r: u128)
    requires
        n <= 38,
    ensures
        r == pow10(n as nat),
{
    let mut r: u128 = 1;
    let mut i: u32 = 0;
    proof {
        reveal_with_fuel(pow, 39);
        assert(pow(10, 38) == 100_000_000_000_000_000_000_000_000_000_000_000_000);
    }
    while i < n
        invariant
            i <= n <= 38,
            r == pow10(i as nat),
            pow(10, 38) == 100_000_000_000_000_000_000_000_000_000_000_000_000,
        decreases n - i,
    {
        proof {
            lemma_pow_adds(10, i as nat, 1);
            reveal_with_fuel(pow, 2);
            lemma_pow_increases(10, (i + 1) as nat, 38);
        }
        r = r * 10;
        i = i + 1;
    }
    r
}

/// The ledger's fixed-point encoding of `p` at scale 10^18: integer part
/// and fractional part are scaled separately, the fractional product is
/// truncated and the two are summed. `None` where the result does not fit
/// in 128 bits.
pub fn to_scaled(p: &UsdPrice) -> (r: Option<u128>)
    requires
        p.wf(),
    ensures
        r == (if scaled_spec(*p) <= u128::MAX {
            Some(scaled_spec(*p) as u128)
        } else {
            None
        }),
{
    let s = p.scale;
    let unit = pow10_u128(LEDGER_DECIMALS);
    let denom = pow10_u128(s);
    proof {
        lemma_pow_positive(10, s as nat);
        lemma_pow_positive(10, LEDGER_DECIMALS as nat);
    }
    let integer = p.mantissa / denom;
    let fraction = p.mantissa % denom;
    let ghost f = fraction as int;
    let ghost u = unit as int;
    let ghost d = denom as int;
    let fraction_scaled: u128 = if s <= LEDGER_DECIMALS {
        let up = pow10_u128(LEDGER_DECIMALS - s);
        proof {
            lemma_pow_adds(10, (LEDGER_DECIMALS - s) as nat, s as nat);
            lemma_pow_positive(10, (LEDGER_DECIMALS - s) as nat);
            assert(u == up * d);
            assert(f < d);
            assert(f * up < d * up) by (nonlinear_arith)
                requires f < d, up > 0;
            assert(f * u == (f * up) * d) by (nonlinear_arith)
                requires u == up * d;
            lemma_div_by_multiple(f * up, d);
        }
        fraction * up
    } else {
        let down = pow10_u128(s - LEDGER_DECIMALS);
        proof {
            lemma_pow_adds(10, LEDGER_DECIMALS as nat, (s - LEDGER_DECIMALS) as nat);
            lemma_pow_positive(10, (s - LEDGER_DECIMALS) as nat);
            assert(d == u * down);
            lemma_div_by_multiple(f, u);
            assert((f * u) / u == f);
            lemma_div_denominator(f * u, u, down as int);
            assert(f * u >= 0) by (nonlinear_arith)
                requires f >= 0, u > 0;
        }
        fraction / down
    };
    assert(fraction_scaled as int == (f * u) / d);
    match integer.checked_mul(unit) {
        None => {
            assert(fraction_scaled >= 0);
            None
        },
        Some(whole) => whole.checked_add(fraction_scaled),
    }
}

} // verus!
