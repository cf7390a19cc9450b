use vstd::prelude::*;
use crate::uint256::{limb_base, u256_bound, U256};

verus! {

/// 2^512: every `U512` value lies below it.
pub open spec fn u512_bound() -> nat {
    limb_base() * limb_base() * limb_base() * limb_base() * limb_base() * limb_base()
        * limb_base() * limb_base()
}

/// Unsigned 512-bit integer, eight little-endian 64-bit limbs.
#[derive(Clone, Copy, Debug, PartialEq, Eq)]
pub struct U512(pub [u64; 8]);

impl U512 {
    pub open spec fn value(&self) -> nat {
        (self.0[0] + limb_base() * (self.0[1] + limb_base() * (self.0[2] + limb_base() * (
        self.0[3] + limb_base() * (self.0[4] + limb_base() * (self.0[5] + limb_base() * (
        self.0[6] + limb_base() * self.0[7]))))))) as nat
    }

    /// Widens a 256-bit value.
    pub fn from_u256(v: U256) -> (r: U512)
        ensures
            r.value() == v.value(),
    {
        U512([v.0[0], v.0[1], v.0[2], v.0[3], 0, 0, 0, 0])
    }

    pub fn is_zero(&self) -> (r: bool)
        ensures
            r == (self.value() == 0),
    {
        let r = self.0[0] == 0 && self.0[1] == 0 && self.0[2] == 0 && self.0[3] == 0
            && self.0[4] == 0 && self.0[5] == 0 && self.0[6] == 0 && self.0[7] == 0;
        proof {
            if !r {
                let b = limb_base() as int;
                let t7 = self.0[7] as int;
                let t6 = self.0[6] + b * t7;
                let t5 = self.0[5] + b * t6;
                let t4 = self.0[4] + b * t5;
                let t3 = self.0[3] + b * t4;
                let t2 = self.0[2] + b * t3;
                let t1 = self.0[1] + b * t2;
                let t0 = self.0[0] + b * t1;
                assert(t7 >= 0 && t6 >= 0 && t5 >= 0 && t4 >= 0 && t3 >= 0 && t2 >= 0 && t1 >= 0)
                    by (nonlinear_arith)
                    requires
                        b > 0, t7 >= 0, t6 == self.0[6] + b * t7, t5 == self.0[5] + b * t6,
                        t4 == self.0[4] + b * t5, t3 == self.0[3] + b * t4,
                        t2 == self.0[2] + b * t3, t1 == self.0[1] + b * t2,
                        self.0[6] >= 0, self.0[5] >= 0, self.0[4] >= 0, self.0[3] >= 0,
                        self.0[2] >= 0, self.0[1] >= 0;
                assert(t0 > 0) by (nonlinear_arith)
                    requires
                        b > 0, t7 >= 0, t6 == self.0[6] + b * t7, t5 == self.0[5] + b * t6,
                        t4 == self.0[4] + b * t5, t3 == self.0[3] + b * t4,
                        t2 == self.0[2] + b * t3, t1 == self.0[1] + b * t2,
                        t0 == self.0[0] + b * t1, t6 >= 0, t5 >= 0, t4 >= 0, t3 >= 0, t2 >= 0,
                        t1 >= 0, self.0[6] >= 0, self.0[5] >= 0, self.0[4] >= 0, self.0[3] >= 0,
                        self.0[2] >= 0, self.0[1] >= 0, self.0[0] >= 0,
                        self.0[0] != 0 || self.0[1] != 0 || self.0[2] != 0 || self.0[3] != 0
                            || self.0[4] != 0 || self.0[5] != 0 || self.0[6] != 0 || t7 != 0;
            }
        }
        r
    }

/// The value as a `U256`, or `None` when it reaches 2^256.
    pub fn to_u256(&self) -> (r: Option<U256>)
        ensures
            match r {
                Some(v) => v.value() == self.value(),
                None => self.value() >= u256_bound(),
            },
    {
        let ghost b = limb_base() as int;
        let ghost lo = U256::limbs_value(self.0[0], self.0[1], self.0[2], self.0[3]) as int;
        let ghost hi = U256::limbs_value(self.0[4], self.0[5], self.0[6], self.0[7]) as int;
        proof {
            let l = self.0;
            assert(self.value() == lo + b * b * b * b * hi) by (nonlinear_arith)
                requires
                    self.value() == l[0] + b * (l[1] + b * (l[2] + b * (l[3] + b * (l[4] + b * (l[5]
                        + b * (l[6] + b * l[7])))))),
                    lo == l[0] + b * (l[1] + b * (l[2] + b * l[3])),
                    hi == l[4] + b * (l[5] + b * (l[6] + b * l[7]));
        }
        if self.0[4] == 0 && self.0[5] == 0 && self.0[6] == 0 && self.0[7] == 0 {
            Some(U256([self.0[0], self.0[1], self.0[2], self.0[3]]))
        } else {
            proof {
                let l = self.0;
                let t6 = l[6] + b * l[7];
                let t5 = l[5] + b * t6;
                assert(t6 >= 0 && t5 >= 0) by (nonlinear_arith)
                    requires b > 0, l[7] >= 0, l[6] >= 0, l[5] >= 0, t6 == l[6] + b * l[7], t5 == l[5] + b * t6;
                assert(hi >= 1) by (nonlinear_arith)
                    requires
                        b > 0, t6 == l[6] + b * l[7], t5 == l[5] + b * t6, hi == l[4] + b * t5,
                        t6 >= 0, t5 >= 0, l[4] >= 0, l[5] >= 0, l[6] >= 0, l[7] >= 0,
                        l[4] != 0 || l[5] != 0 || l[6] != 0 || l[7] != 0;
                assert(lo >= 0);
                assert(self.value() >= b * b * b * b) by (nonlinear_arith)
                    requires self.value() == lo + b * b * b * b * hi, lo >= 0, hi >= 1, b > 0;
            }
            None
        }
    }

    /// Relies on uint's `integer_sqrt`: the largest `r` with `r * r <= self`.
    #[verifier::external_body]
    pub fn integer_sqrt(&self) -> (r: U512)
        ensures
            r.value() * r.value() <= self.value(),
            self.value() < (r.value() + 1) * (r.value() + 1),
    {
        U512(primitive_types::U512(self.0).integer_sqrt().0)
    }

    /// Relies on uint's `checked_mul`: the product, or `None` when it reaches 2^512.
    #[verifier::external_body]
    pub fn checked_mul(self, other: U512) -> (r: Option<U512>)
        ensures
            match r {
                Some(v) => self.value() * other.value() < u512_bound() && v.value() == self.value()
                    * other.value(),
                None => self.value() * other.value() >= u512_bound(),
            },
    {
        primitive_types::U512(self.0).checked_mul(primitive_types::U512(other.0)).map(|v| U512(v.0))
    }

    /// Relies on uint's `checked_div`: the quotient rounded down, `None` for a zero divisor.
    #[verifier::external_body]
    pub fn checked_div(self, other: U512) -> (r: Option<U512>)
        ensures
            match r {
                Some(v) => other.value() != 0 && v.value() == self.value() / other.value(),
                None => other.value() == 0,
            },
    {
        primitive_types::U512(self.0).checked_div(primitive_types::U512(other.0)).map(|v| U512(v.0))
    }
}

/// `a * b / c` rounded down at 512-bit width, with zero for a zero divisor;
/// `None` when `a * b` reaches 2^512.
pub fn mul_div512(a: U512, b: U512, c: U512) -> (r: Option<U512>)
    ensures
        c.value() == 0 ==> r.is_some() && r.unwrap().value() == 0,
        c.value() != 0 ==> match r {
            Some(v) => a.value() * b.value() < u512_bound() && v.value() == a.value()
                * b.value() / c.value(),
            None => a.value() * b.value() >= u512_bound(),
        },
{
    if c.is_zero() {
        Some(U512([0, 0, 0, 0, 0, 0, 0, 0]))
    } else {
        match a.checked_mul(b) {
            Some(p) => p.checked_div(c),
            None => None,
        }
    }
}

/// Integer square root of `a * b`, the product taken at 512 bits.
pub fn sqrt_of_product(a: U256, b: U256) -> (r: U256)
    ensures
        r.value() * r.value() <= a.value() * b.value(),
        a.value() * b.value() < (r.value() + 1) * (r.value() + 1),
{
    let ghost bb = u256_bound() as int;
    proof {
        let x = a.value() as int;
        let y = b.value() as int;
        let l = limb_base() as int;
        assert(u512_bound() == bb * bb) by (nonlinear_arith)
            requires bb == l * l * l * l, u512_bound() == l * l * l * l * l * l * l * l;
        assert(x * y < bb * bb) by (nonlinear_arith)
            requires 0 <= x < bb, 0 <= y < bb;
    }
    let p = U512::from_u256(a).checked_mul(U512::from_u256(b)).unwrap();
    let q = p.integer_sqrt();
    proof {
        let v = q.value() as int;
        if v >= bb {
            assert(v * v >= bb * bb) by (nonlinear_arith)
                requires v >= bb, bb >= 0;
        }
    }
    q.to_u256().unwrap()
}

} // verus!
