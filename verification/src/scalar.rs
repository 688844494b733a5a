//! Fixed-point quantities and their decimal text.

use vstd::prelude::*;
use crate::text::{digit_char, digit_to_char, nat_text, push_nat};

verus! {

/// Thousandths in one whole unit.
pub const THOUSAND: i64 = 1000;

/// The largest colour channel value, one whole unit.
pub const UNIT: i64 = 1000;

/// The largest rotation magnitude, 360 degrees.
pub const FULL_TURN: i64 = 360000;

/// A quantity counted in thousandths of a unit: coordinates and lengths in
/// points, angles in degrees, colour channels and scale factors as ratios.
#[derive(Clone, Copy, Debug, PartialEq, Eq, Structural)]
pub struct Scalar {
    pub thousandths: i64,
}

impl View for Scalar {
    type V = int;

    open spec fn view(&self) -> int {
        self.thousandths as int
    }
}

/// `v` limited to the closed interval from `lo` to `hi`.
pub open spec fn clamp_int(v: int, lo: int, hi: int) -> int {
    if v < lo {
        lo
    } else if v > hi {
        hi
    } else {
        v
    }
}

/// `v` limited to what an `i64` holds.
pub open spec fn saturate(v: int) -> int {
    clamp_int(v, i64::MIN as int, i64::MAX as int)
}

/// Half of `v`, rounded toward zero.
pub open spec fn half_int(v: int) -> int {
    if v >= 0 {
        v / 2
    } else {
        -((-v) / 2)
    }
}

/// The digits after the decimal point for `f` thousandths, `0 < f < 1000`,
/// without trailing zeros.
pub open spec fn fraction_text(f: nat) -> Seq<char> {
    if f % 100 == 0 {
        seq![digit_char((f / 100) as int)]
    } else if f % 10 == 0 {
        seq![digit_char((f / 100) as int), digit_char(((f / 10) % 10) as int)]
    } else {
        seq![
            digit_char((f / 100) as int),
            digit_char(((f / 10) % 10) as int),
            digit_char((f % 10) as int),
        ]
    }
}

/// The decimal text of a magnitude of `m` thousandths: the whole part, then,
/// unless the fraction is zero, a point and the fraction's digits.
pub open spec fn magnitude_text(m: nat) -> Seq<char> {
    if m % 1000 == 0 {
        nat_text(m / 1000)
    } else {
        nat_text(m / 1000) + seq!['.'] + fraction_text(m % 1000)
    }
}

/// The decimal text of `t` thousandths, with a leading minus sign when
/// `t` is negative.
pub open spec fn scalar_text(t: int) -> Seq<char> {
    if t < 0 {
        seq!['-'] + magnitude_text((-t) as nat)
    } else {
        magnitude_text(t as nat)
    }
}

impl Scalar {
    /// The quantity of `thousandths` thousandths.
    pub fn from_thousandths(thousandths: i64) -> (s: Scalar)
        ensures
            s@ == thousandths,
    {
        Scalar { thousandths }
    }

    /// The quantity of `units` whole units.
    pub fn from_units(units: i32) -> (s: Scalar)
        ensures
            s@ == units * 1000,
    {
        let wide: i64 = units as i64;
        Scalar { thousandths: wide * THOUSAND }
    }

    /// The count of thousandths.
    pub fn to_thousandths(&self) -> (t: i64)
        ensures
            t == self@,
    {
        self.thousandths
    }

    /// The quantity limited to the interval from `lo` to `hi`.
    pub fn clamp(self, lo: Scalar, hi: Scalar) -> (s: Scalar)
        requires
            lo@ <= hi@,
        ensures
            s@ == clamp_int(self@, lo@, hi@),
    {
        if self.thousandths < lo.thousandths {
            lo
        } else if self.thousandths > hi.thousandths {
            hi
        } else {
            self
        }
    }

    /// The quantity with negative values raised to zero.
    pub fn at_least_zero(self) -> (s: Scalar)
        ensures
            s == self.floored(),
    {
        if self.thousandths < 0 {
            Scalar { thousandths: 0 }
        } else {
            self
        }
    }

    /// The quantity limited to a colour channel's range, zero to one unit.
    pub fn clamp_unit(self) -> (s: Scalar)
        ensures
            s@ == clamp_int(self@, 0, UNIT as int),
    {
        self.clamp(Scalar { thousandths: 0 }, Scalar { thousandths: UNIT })
    }

    /// The quantity limited to a rotation's range, one full turn either way.
    pub fn clamp_angle(self) -> (s: Scalar)
        ensures
            s@ == clamp_int(self@, -(FULL_TURN as int), FULL_TURN as int),
    {
        self.clamp(Scalar { thousandths: -FULL_TURN }, Scalar { thousandths: FULL_TURN })
    }

    /// The sum of two quantities, limited to what a `Scalar` holds.
    pub open spec fn sum(self, other: Scalar) -> Scalar {
        Scalar { thousandths: saturate(self@ + other@) as i64 }
    }

    /// Half of the quantity, rounded toward zero to the thousandth.
    pub open spec fn halved(self) -> Scalar {
        Scalar { thousandths: half_int(self@) as i64 }
    }

    /// The quantity with negative values raised to zero.
    pub open spec fn floored(self) -> Scalar {
        if self@ < 0 {
            Scalar { thousandths: 0 }
        } else {
            self
        }
    }

    /// The sum of two quantities, limited to what a `Scalar` holds.
    pub fn plus(self, other: Scalar) -> (s: Scalar)
        ensures
            s == self.sum(other),
    {
        let wide: i128 = self.thousandths as i128 + other.thousandths as i128;
        if wide > i64::MAX as i128 {
            Scalar { thousandths: i64::MAX }
        } else if wide < i64::MIN as i128 {
            Scalar { thousandths: i64::MIN }
        } else {
            Scalar { thousandths: wide as i64 }
        }
    }

    /// Half of the quantity, rounded toward zero to the thousandth.
    pub fn half(self) -> (s: Scalar)
        ensures
            s == self.halved(),
    {
        let t: i64 = self.thousandths;
        if t >= 0 {
            Scalar { thousandths: t / 2 }
        } else {
            let magnitude: i128 = -(t as i128);
            Scalar { thousandths: (-(magnitude / 2)) as i64 }
        }
    }

    /// The decimal text of the quantity, as [`scalar_text`] defines it.
    pub open spec fn text(self) -> Seq<char> {
        scalar_text(self@)
    }

    /// Appends the quantity's decimal text to `out`.
    pub fn write_to(&self, out: &mut String)
        ensures
            final(out)@ == old(out)@ + self.text(),
    {
        let t: i64 = self.thousandths;
        let magnitude: u64 = if t < 0 {
            out.push('-');
            (-(t as i128)) as u64
        } else {
            t as u64
        };
        let whole: u64 = magnitude / 1000;
        let fraction: u64 = magnitude % 1000;
        push_nat(out, whole);
        if fraction != 0 {
            out.push('.');
            let hundreds: u8 = (fraction / 100) as u8;
            let tens: u8 = ((fraction / 10) % 10) as u8;
            let ones: u8 = (fraction % 10) as u8;
            out.push(digit_to_char(hundreds));
            if fraction % 100 != 0 {
                out.push(digit_to_char(tens));
                if fraction % 10 != 0 {
                    out.push(digit_to_char(ones));
                }
            }
        }
        proof {
            assert(out@ =~= old(out)@ + self.text());
        }
    }

    /// The quantity's decimal text as a new string.
    pub fn to_text(&self) -> (s: String)
        ensures
            s@ == self.text(),
    {
        let mut out = String::new();
        self.write_to(&mut out);
        proof {
            assert(out@ =~= self.text());
        }
        out
    }
}

} // verus!
