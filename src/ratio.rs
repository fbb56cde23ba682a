use vstd::prelude::*;

verus! {

/// A non-negative rational number `num / den`.
#[derive(Clone, Copy, Debug, PartialEq, Eq, Structural)]
pub struct Ratio {
    pub num: u64,
    pub den: u64,
}

/// The product of two `u64` values fits in a `u128`.
pub proof fn lemma_product_fits(a: u64, b: u64)
    ensures
        a as int * b as int <= u128::MAX as int,
{
    assert(a as int * b as int <= u64::MAX as int * u64::MAX as int) by (nonlinear_arith)
        requires
            a <= u64::MAX,
            b <= u64::MAX,
    ;
}

impl Ratio {
    pub open spec fn wf(&self) -> bool {
        self.den > 0
    }

    /// `num / den <= p / q`
    pub open spec fn at_most(&self, p: int, q: int) -> bool {
        self.num as int * q <= p * self.den as int
    }

    /// `num / den >= p / q`
    pub open spec fn at_least(&self, p: int, q: int) -> bool {
        self.num as int * q >= p * self.den as int
    }

    /// `num / den == p / q`
    pub open spec fn equals(&self, p: int, q: int) -> bool {
        self.num as int * q == p * self.den as int
    }

    /// The value times one hundred, rounded to the nearest integer, halves upwards.
    pub open spec fn hundredths_spec(&self) -> int {
        (self.num as int * 200 + self.den as int) / (2 * self.den as int)
    }

    /// Compares `num / den` with `p / q`: `-1`, `0` or `1` as it is below, equal or above.
    pub fn compare(&self, p: u64, q: u64) -> (r: i8)
        ensures
            r == 0 <==> self.equals(p as int, q as int),
            r < 0 <==> !self.at_least(p as int, q as int),
            r > 0 <==> !self.at_most(p as int, q as int),
    {
        proof {
            lemma_product_fits(self.num, q);
            lemma_product_fits(p, self.den);
        }
        let lhs: u128 = self.num as u128 * q as u128;
        let rhs: u128 = p as u128 * self.den as u128;
        if lhs < rhs {
            -1
        } else if lhs == rhs {
            0
        } else {
            1
        }
    }

    /// The value times one hundred, rounded to the nearest integer (halves upwards).
    pub fn hundredths(&self) -> (r: u128)
        requires
            self.wf(),
        ensures
            r as int == self.hundredths_spec(),
    {
        proof {
            lemma_product_fits(self.num, 200);
        }
        let n: u128 = self.num as u128 * 200 + self.den as u128;
        let d: u128 = 2 * self.den as u128;
        n / d
    }
}

} // verus!
