//! Exact non-negative fractions.
//!
//! Reputation, success rates and the other fractional quantities of the ledger
//! are held as a pair of counters rather than as a rounded number, so that they
//! can be recomputed, compared and ranked without drift.

use vstd::prelude::*;

verus! {

/// The fraction `numerator / denominator`. A ratio whose denominator is zero
/// stands for zero, so that "successes out of no attempts" needs no special case.
#[derive(Clone, Copy, Debug, PartialEq, Eq, Structural)]
pub struct Ratio {
    pub numerator: u64,
    pub denominator: u64,
}

impl Ratio {
    /// The numerator of the fraction this ratio stands for.
    pub open spec fn top(self) -> nat {
        if self.denominator == 0 {
            0
        } else {
            self.numerator as nat
        }
    }

    /// The (positive) denominator of the fraction this ratio stands for.
    pub open spec fn bottom(self) -> nat {
        if self.denominator == 0 {
            1
        } else {
            self.denominator as nat
        }
    }

    /// `self < other` as fractions.
    pub open spec fn lt(self, other: Ratio) -> bool {
        self.top() * other.bottom() < other.top() * self.bottom()
    }

    /// `self <= other` as fractions.
    pub open spec fn le(self, other: Ratio) -> bool {
        self.top() * other.bottom() <= other.top() * self.bottom()
    }

    /// `self` and `other` stand for the same fraction.
    pub open spec fn same_value(self, other: Ratio) -> bool {
        self.top() * other.bottom() == other.top() * self.bottom()
    }

    /// The fraction as a percentage, in hundredths of a percent, rounded to the
    /// nearest hundredth (halves upwards).
    pub open spec fn percent_hundredths(self) -> nat {
        (20000 * self.top() + self.bottom()) / (2 * self.bottom())
    }

    /// The fraction in hundredths, rounded to the nearest hundredth (halves
    /// upwards).
    pub open spec fn hundredths(self) -> nat {
        (200 * self.top() + self.bottom()) / (2 * self.bottom())
    }

    /// The ratio `part / whole`.
    pub fn of(part: u64, whole: u64) -> (r: Ratio)
        ensures
            r == (Ratio { numerator: part, denominator: whole }),
    {
        Ratio { numerator: part, denominator: whole }
    }

    /// The ratio that stands for zero.
    pub fn zero() -> (r: Ratio)
        ensures
            r == (Ratio { numerator: 0, denominator: 1 }),
            r.top() == 0,
    {
        Ratio { numerator: 0, denominator: 1 }
    }

    fn scaled_pair(&self, other: &Ratio) -> (p: (u128, u128))
        ensures
            p.0 == self.top() * other.bottom(),
            p.1 == other.top() * self.bottom(),
    {
        let a: u64 = if self.denominator == 0 { 0 } else { self.numerator };
        let b: u64 = if self.denominator == 0 { 1 } else { self.denominator };
        let c: u64 = if other.denominator == 0 { 0 } else { other.numerator };
        let d: u64 = if other.denominator == 0 { 1 } else { other.denominator };
        assert(a * d <= u64::MAX * u64::MAX && c * b <= u64::MAX * u64::MAX) by (nonlinear_arith)
            requires
                0 <= a <= u64::MAX,
                0 <= b <= u64::MAX,
                0 <= c <= u64::MAX,
                0 <= d <= u64::MAX,
        ;
        ((a as u128) * (d as u128), (c as u128) * (b as u128))
    }

    /// Whether `self < other` as fractions.
    pub fn is_less_than(&self, other: &Ratio) -> (r: bool)
        ensures
            r == self.lt(*other),
    {
        let p = self.scaled_pair(other);
        p.0 < p.1
    }

    /// Whether `self >= other` as fractions.
    pub fn is_at_least(&self, other: &Ratio) -> (r: bool)
        ensures
            r == other.le(*self),
    {
        let p = self.scaled_pair(other);
        p.0 >= p.1
    }

    /// Whether `self` and `other` stand for the same fraction.
    pub fn has_same_value(&self, other: &Ratio) -> (r: bool)
        ensures
            r == self.same_value(*other),
    {
        let p = self.scaled_pair(other);
        p.0 == p.1
    }

    /// The fraction as a percentage in hundredths of a percent, rounded to the
    /// nearest hundredth: `1/3` gives `3333`, `2/3` gives `6667`.
    pub fn to_percent_hundredths(&self) -> (r: u128)
        ensures
            r == self.percent_hundredths(),
    {
        let a: u128 = if self.denominator == 0 { 0 } else { self.numerator as u128 };
        let b: u128 = if self.denominator == 0 { 1 } else { self.denominator as u128 };
        (20000 * a + b) / (2 * b)
    }

    /// The fraction in hundredths, rounded to the nearest hundredth: `1/3` gives
    /// `33`, `5/2` gives `250`.
    pub fn to_hundredths(&self) -> (r: u128)
        ensures
            r == self.hundredths(),
    {
        let a: u128 = if self.denominator == 0 { 0 } else { self.numerator as u128 };
        let b: u128 = if self.denominator == 0 { 1 } else { self.denominator as u128 };
        (200 * a + b) / (2 * b)
    }

    /// Any two ratios are comparable.
    pub proof fn order_is_total(a: Ratio, b: Ratio)
        ensures
            a.le(b) || b.le(a),
            a.lt(b) <==> !b.le(a),
            a.same_value(b) <==> a.le(b) && b.le(a),
    {
    }

    /// The order on ratios is transitive.
    pub proof fn order_is_transitive(a: Ratio, b: Ratio, c: Ratio)
        requires
            a.le(b),
            b.le(c),
        ensures
            a.le(c),
    {
        let (an, ad) = (a.top() as int, a.bottom() as int);
        let (bn, bd) = (b.top() as int, b.bottom() as int);
        let (cn, cd) = (c.top() as int, c.bottom() as int);
        assert(an * cd <= cn * ad) by (nonlinear_arith)
            requires
                an * bd <= bn * ad,
                bn * cd <= cn * bd,
                0 <= an,
                0 <= bn,
                0 <= cn,
                0 < ad,
                0 < bd,
                0 < cd,
        ;
    }
}

} // verus!
