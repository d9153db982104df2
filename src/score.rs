//! Exact percentages: a score is the fraction `num / den`, a number between 0
//! and 100 for every score that the engine hands out.
use vstd::prelude::*;

verus! {

/// The fraction `num / den`.
#[derive(Debug, Clone, Copy, PartialEq, Eq, Structural)]
pub struct Score {
    /// Numerator.
    pub num: u128,
    /// Denominator, never zero.
    pub den: usize,
}

impl Score {
    /// The denominator is positive.
    pub open spec fn wf(self) -> bool {
        self.den > 0
    }

    /// The score is at least `t`.
    pub open spec fn at_least(self, t: int) -> bool {
        self.num >= t * self.den
    }

    /// The score is strictly below `o`.
    pub open spec fn below(self, o: Score) -> bool {
        self.num * o.den < o.num * self.den
    }

    /// The score is `n / d`.
    pub open spec fn equals(self, n: int, d: int) -> bool {
        self.num * d == n * self.den
    }

    /// The whole number `v` as a score.
    pub fn whole(v: u64) -> (r: Score)
        ensures
            r.num == v,
            r.den == 1,
    {
        Score { num: v as u128, den: 1 }
    }

    /// Whether the score is at least `t`.
    pub fn reaches(&self, t: u64) -> (r: bool)
        ensures
            r == self.at_least(t as int),
    {
        proof {
            assert((t as int) * (self.den as int) <= (u64::MAX as int) * (usize::MAX as int))
                by (nonlinear_arith)
                requires
                    t <= u64::MAX,
                    self.den <= usize::MAX,
            ;
            assert((u64::MAX as int) * (usize::MAX as int) <= u128::MAX) by (nonlinear_arith)
                requires
                    usize::MAX <= u64::MAX,
            ;
        }
        self.num >= (t as u128) * (self.den as u128)
    }

    /// Whether the score is strictly below `o`.
    pub fn is_below(&self, o: &Score) -> (r: bool)
        requires
            self.wf(),
            o.wf(),
        ensures
            r == self.below(*o),
    {
        let b = self.den as u128;
        let d = o.den as u128;
        let qa = self.num / b;
        let ra = self.num % b;
        let qc = o.num / d;
        let rc = o.num % d;
        let ghost a = self.num as int;
        let ghost c = o.num as int;
        proof {
            assert(a == qa * b + ra) by (nonlinear_arith)
                requires
                    qa == a / (b as int),
                    ra == a % (b as int),
                    b > 0,
            ;
            assert(c == qc * d + rc) by (nonlinear_arith)
                requires
                    qc == c / (d as int),
                    rc == c % (d as int),
                    d > 0,
            ;
        }
        if qa < qc {
            proof {
                assert(a * d < c * b) by (nonlinear_arith)
                    requires
                        a == qa * b + ra,
                        c == qc * d + rc,
                        0 <= ra < b,
                        0 <= rc < d,
                        qa < qc,
                        0 <= qa,
                ;
            }
            true
        } else if qa > qc {
            proof {
                assert(c * b < a * d) by (nonlinear_arith)
                    requires
                        a == qa * b + ra,
                        c == qc * d + rc,
                        0 <= ra < b,
                        0 <= rc < d,
                        qc < qa,
                        0 <= qc,
                ;
            }
            false
        } else {
            proof {
                assert((ra as int) * (d as int) <= (usize::MAX as int) * (usize::MAX as int))
                    by (nonlinear_arith)
                    requires
                        ra < b <= usize::MAX,
                        d <= usize::MAX,
                ;
                assert((rc as int) * (b as int) <= (usize::MAX as int) * (usize::MAX as int))
                    by (nonlinear_arith)
                    requires
                        rc < d <= usize::MAX,
                        b <= usize::MAX,
                ;
                assert((usize::MAX as int) * (usize::MAX as int) <= u128::MAX) by (nonlinear_arith)
                    requires
                        usize::MAX <= u64::MAX,
                ;
                assert((a * d < c * b) == (ra * d < rc * b)) by (nonlinear_arith)
                    requires
                        a == qa * b + ra,
                        c == qc * d + rc,
                        qa == qc,
                ;
            }
            ra * d < rc * b
        }
    }
}

} // verus!
