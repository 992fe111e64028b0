//! Rounding of a counter down to its leading significant digit, for display.
use vstd::prelude::*;

verus! {

/// `n` with every digit after the leading one set to zero (`12345` gives `10000`).
pub open spec fn significant_floor(n: nat) -> nat
    decreases n,
{
    if n < 10 {
        n
    } else {
        10 * significant_floor(n / 10)
    }
}

pub trait Floorer: Sized {
    /// Rounds down to the leading significant digit times its magnitude.
    fn reduce_to_significant_digit(self) -> u64;
}

impl Floorer for u64 {
    fn reduce_to_significant_digit(self) -> (r: u64)
        ensures
            r as nat == significant_floor(self as nat),
    {
        let mut rest: u64 = self;
        let mut magnitude: u64 = 1;
        while rest >= 10
            invariant
                magnitude >= 1,
                rest * magnitude <= self,
                significant_floor(rest as nat) * magnitude == significant_floor(self as nat),
            decreases rest,
        {
            let ghost old_rest = rest as int;
            let ghost old_mag = magnitude as int;
            proof {
                let q = old_rest / 10;
                assert(q >= 1);
                assert(q * 10 <= old_rest);
                assert(q * (old_mag * 10) <= old_rest * old_mag) by (nonlinear_arith)
                    requires
                        q * 10 <= old_rest,
                        old_mag >= 1,
                ;
                assert(old_mag * 10 <= q * (old_mag * 10)) by (nonlinear_arith)
                    requires
                        q >= 1,
                        old_mag >= 1,
                ;
                assert(significant_floor(old_rest as nat) == 10 * significant_floor(q as nat));
                assert(significant_floor(old_rest as nat) * old_mag == significant_floor(q as nat)
                    * (old_mag * 10)) by (nonlinear_arith)
                    requires
                        significant_floor(old_rest as nat) == 10 * significant_floor(q as nat),
                ;
            }
            rest = rest / 10;
            magnitude = magnitude * 10;
        }
        rest * magnitude
    }
}

} // verus!
