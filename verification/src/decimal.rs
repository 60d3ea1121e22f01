use vstd::prelude::*;

use rust_decimal::Decimal;

use crate::calendar::zero_padded;
use crate::text::decimal_text;

verus! {

/// The largest scale (digits after the decimal point) a decimal may have.
pub const MAX_SCALE: u32 = 28;

/// A fixed-point decimal number held as its parts: a 96-bit magnitude split in three 32-bit
/// words, a sign and a scale. Its value is `(-1)^negative * magnitude / 10^scale`.
#[derive(Clone, Copy, Debug, PartialEq, Eq)]
pub struct DecimalValue {
    negative: bool,
    scale: u32,
    hi: u32,
    mid: u32,
    lo: u32,
}

/// The parts of a decimal: `(negative, scale, hi, mid, lo)`.
pub type DecimalParts = (bool, u32, u32, u32, u32);

/// What `Decimal::checked_sub` returns for two decimals given by their parts, as parts.
pub uninterp spec fn decimal_checked_sub_parts(a: DecimalParts, b: DecimalParts) -> Option<DecimalParts>;

/// The magnitude `hi * 2^64 + mid * 2^32 + lo` of a decimal given by its parts.
pub open spec fn parts_magnitude(p: DecimalParts) -> nat {
    (p.2 * 0x1_0000_0000_0000_0000 + p.3 * 0x1_0000_0000 + p.4) as nat
}

/// `10^k`.
pub open spec fn pow10(k: nat) -> nat
    decreases k,
{
    if k == 0 {
        1
    } else {
        10 * pow10((k - 1) as nat)
    }
}

/// The parts of the decimal with this sign, scale and magnitude (below 2^96); zero is never
/// negative.
pub open spec fn parts_of(negative: bool, scale: u32, magnitude: nat) -> DecimalParts {
    (
        negative && magnitude != 0,
        scale,
        (magnitude / 0x1_0000_0000_0000_0000) as u32,
        ((magnitude / 0x1_0000_0000) % 0x1_0000_0000) as u32,
        (magnitude % 0x1_0000_0000) as u32,
    )
}

/// `m / 10^k` rounded to the nearest integer, a tie going to the even neighbour.
pub open spec fn round_half_even(m: nat, k: nat) -> nat {
    let p = pow10(k);
    let q = m / p;
    let r = m % p;
    if 2 * r > p || (2 * r == p && q % 2 == 1) {
        q + 1
    } else {
        q
    }
}

/// What `Decimal::round_dp` returns for a decimal given by its parts, as parts: unchanged when
/// it has at most `dp` decimal places, otherwise rounded to `dp` places by banker's rounding (a
/// tie goes to the even neighbour). A zero result is never negative.
pub open spec fn decimal_round_dp_parts(a: DecimalParts, dp: u32) -> DecimalParts {
    if a.1 <= dp {
        parts_of(a.0, a.1, parts_magnitude(a))
    } else {
        parts_of(a.0, dp, round_half_even(parts_magnitude(a), (a.1 - dp) as nat))
    }
}

/// The text that `Decimal`'s `Display` writes for a decimal given by its parts: a minus sign
/// when it is below zero, the integer digits (`0` when there are none), and, when the scale is
/// not zero, a point followed by exactly `scale` digits.
pub open spec fn decimal_display_text(a: DecimalParts) -> Seq<char> {
    let m = parts_magnitude(a);
    let scale = a.1 as nat;
    let digits = zero_padded(decimal_text(m), scale);
    let whole = digits.take(digits.len() - scale);
    let body = (if whole.len() == 0 {
        seq!['0']
    } else {
        whole
    }) + if scale == 0 {
        Seq::<char>::empty()
    } else {
        seq!['.'] + digits.skip(digits.len() - scale)
    };
    if a.0 && m != 0 {
        seq!['-'] + body
    } else {
        body
    }
}

/// Whether a decimal given by its parts is below zero, as `d < Decimal::ZERO` decides it: its
/// sign flag is set and its magnitude is not zero.
pub open spec fn parts_below_zero(p: DecimalParts) -> bool {
    p.0 && (p.2 != 0 || p.3 != 0 || p.4 != 0)
}

impl DecimalValue {
    #[verifier::type_invariant]
    spec fn valid(self) -> bool {
        self.scale <= MAX_SCALE
    }

    /// The parts `(negative, scale, hi, mid, lo)`.
    pub closed spec fn parts(self) -> DecimalParts {
        (self.negative, self.scale, self.hi, self.mid, self.lo)
    }

    /// The magnitude `hi * 2^64 + mid * 2^32 + lo`.
    pub open spec fn magnitude(self) -> int {
        self.parts().2 * 0x1_0000_0000_0000_0000 + self.parts().3 * 0x1_0000_0000
            + self.parts().4
    }

    /// Whether the sign flag is set.
    pub open spec fn sign_negative(self) -> bool {
        self.parts().0
    }

    /// The scale.
    pub open spec fn spec_scale(self) -> nat {
        self.parts().1 as nat
    }

    /// Whether the value is below zero, as `d < Decimal::ZERO` decides it (a zero magnitude is
    /// never below zero, whatever its sign flag).
    pub open spec fn is_below_zero(self) -> bool {
        parts_below_zero(self.parts())
    }

    /// The decimal `mantissa / 10^scale`, or `None` when the scale exceeds 28 or the mantissa
    /// does not fit in 96 bits (the cases `Decimal::try_from_i128_with_scale` refuses).
    pub fn from_i128_with_scale(mantissa: i128, scale: u32) -> (r: Option<DecimalValue>)
        ensures
            r is Some <==> (scale <= MAX_SCALE && -0x1_0000_0000_0000_0000_0000_0000
                < mantissa < 0x1_0000_0000_0000_0000_0000_0000),
            r matches Some(d) ==> d.spec_scale() == scale && d.sign_negative() == (mantissa < 0)
                && d.magnitude() == (if mantissa < 0 {
                -mantissa
            } else {
                mantissa as int
            }),
    {
        if scale > MAX_SCALE || mantissa <= -0x1_0000_0000_0000_0000_0000_0000 || mantissa
            >= 0x1_0000_0000_0000_0000_0000_0000 {
            return None;
        }
        let negative = mantissa < 0;
        let m: u128 = if negative {
            (-mantissa) as u128
        } else {
            mantissa as u128
        };
        let lo = (m % 0x1_0000_0000) as u32;
        let mid = ((m / 0x1_0000_0000) % 0x1_0000_0000) as u32;
        let hi = (m / 0x1_0000_0000_0000_0000) as u32;
        assert(m == hi * 0x1_0000_0000_0000_0000 + mid * 0x1_0000_0000 + lo) by (nonlinear_arith)
            requires
                m < 0x1_0000_0000_0000_0000_0000_0000,
                lo == m % 0x1_0000_0000,
                mid == (m / 0x1_0000_0000) % 0x1_0000_0000,
                hi == m / 0x1_0000_0000_0000_0000,
        ;
        Some(DecimalValue { negative, scale, hi, mid, lo })
    }

    /// Zero, as `Decimal::default()` gives it.
    pub fn zero() -> (r: DecimalValue)
        ensures
            r.parts() == (false, 0u32, 0u32, 0u32, 0u32),
    {
        DecimalValue { negative: false, scale: 0, hi: 0, mid: 0, lo: 0 }
    }

    /// The value built from parts, or `None` when the scale exceeds 28.
    pub fn from_parts(negative: bool, scale: u32, hi: u32, mid: u32, lo: u32) -> (r: Option<
        DecimalValue,
    >)
        ensures
            r is Some <==> scale <= MAX_SCALE,
            r matches Some(d) ==> d.parts() == (negative, scale, hi, mid, lo),
    {
        if scale > MAX_SCALE {
            None
        } else {
            Some(DecimalValue { negative, scale, hi, mid, lo })
        }
    }

    /// Whether the value is below zero.
    pub fn below_zero(&self) -> (r: bool)
        ensures
            r == self.is_below_zero(),
    {
        self.negative && (self.hi != 0 || self.mid != 0 || self.lo != 0)
    }

    /// The scale.
    pub fn scale(&self) -> (s: u32)
        ensures
            s == self.spec_scale(),
            s <= MAX_SCALE,
    {
        proof {
            use_type_invariant(self);
        }
        self.scale
    }

    /// The parts `(negative, scale, hi, mid, lo)`.
    pub fn to_parts(&self) -> (p: DecimalParts)
        ensures
            p == self.parts(),
    {
        (self.negative, self.scale, self.hi, self.mid, self.lo)
    }
}

/// `Decimal::checked_sub` on two decimals given by their parts (built with `Decimal::from_parts`, read
/// back with `Decimal::unpack`): `None` exactly where `a - b` would panic
/// with an overflow. The result is named; of it the contract states only that its scale is at
/// most 28, which the crate keeps for every decimal.
#[verifier::external_body]
fn checked_sub_parts(a: DecimalParts, b: DecimalParts) -> (r: Option<DecimalParts>)
    requires
        a.1 <= MAX_SCALE,
        b.1 <= MAX_SCALE,
    ensures
        r == decimal_checked_sub_parts(a, b),
        r matches Some(p) ==> p.1 <= MAX_SCALE,
{
    let x = Decimal::from_parts(a.4, a.3, a.2, a.0, a.1);
    let y = Decimal::from_parts(b.4, b.3, b.2, b.0, b.1);
    match x.checked_sub(y) {
        Some(d) => {
            let u = d.unpack();
            Some((u.negative, u.scale, u.hi, u.mid, u.lo))
        },
        None => None,
    }
}

/// `Decimal::round_dp` on a decimal given by its parts: banker's rounding to `dp` places, as
/// `decimal_round_dp_parts` states it.
#[verifier::external_body]
fn round_dp_parts(a: DecimalParts, dp: u32) -> (r: DecimalParts)
    requires
        a.1 <= MAX_SCALE,
    ensures
        r == decimal_round_dp_parts(a, dp),
        r.1 <= MAX_SCALE,
{
    let x = Decimal::from_parts(a.4, a.3, a.2, a.0, a.1);
    let u = x.round_dp(dp).unpack();
    (u.negative, u.scale, u.hi, u.mid, u.lo)
}

/// `Decimal`'s `Display` (through `to_string`) on a decimal given by its parts, as
/// `decimal_display_text` states it.
#[verifier::external_body]
fn display_parts(a: DecimalParts) -> (s: String)
    requires
        a.1 <= MAX_SCALE,
    ensures
        s@ == decimal_display_text(a),
{
    Decimal::from_parts(a.4, a.3, a.2, a.0, a.1).to_string()
}

impl DecimalValue {
    /// `self - other`, or `None` where the subtraction overflows.
    pub fn checked_sub(&self, other: &DecimalValue) -> (r: Option<DecimalValue>)
        ensures
            r matches Some(d) ==> decimal_checked_sub_parts(self.parts(), other.parts()) == Some(
                d.parts(),
            ),
            r is None <==> decimal_checked_sub_parts(self.parts(), other.parts()) is None,
    {
        proof {
            use_type_invariant(self);
            use_type_invariant(other);
        }
        match checked_sub_parts(self.to_parts(), other.to_parts()) {
            Some(p) => Some(DecimalValue { negative: p.0, scale: p.1, hi: p.2, mid: p.3, lo: p.4 }),
            None => None,
        }
    }

    /// The value rounded to `dp` decimal places.
    pub fn round_dp(&self, dp: u32) -> (r: DecimalValue)
        ensures
            r.parts() == decimal_round_dp_parts(self.parts(), dp),
    {
        proof {
            use_type_invariant(self);
        }
        let p = round_dp_parts(self.to_parts(), dp);
        DecimalValue { negative: p.0, scale: p.1, hi: p.2, mid: p.3, lo: p.4 }
    }

    /// The value as `Display` writes it, such as `-50.20`.
    pub fn to_text(&self) -> (s: String)
        ensures
            s@ == decimal_display_text(self.parts()),
    {
        proof {
            use_type_invariant(self);
        }
        display_parts(self.to_parts())
    }
}

} // verus!
