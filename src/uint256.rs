use vstd::prelude::*;
use crate::uint512::{u512_bound, U512};

verus! {

/// 2^64, the weight of one limb.
pub open spec fn limb_base() -> nat {
    18446744073709551616
}

/// 2^256: every `U256` value lies below it.
pub open spec fn u256_bound() -> nat {
    limb_base() * limb_base() * limb_base() * limb_base()
}

/// Unsigned 256-bit integer, four little-endian 64-bit limbs.
#[derive(Clone, Copy, Debug, PartialEq, Eq)]
pub struct U256(pub [u64; 4]);

impl U256 {
    pub open spec fn value(&self) -> nat {
        (self.0[0] + limb_base() * (self.0[1] + limb_base() * (self.0[2] + limb_base()
            * self.0[3]))) as nat
    }

    pub fn zero() -> (r: U256)
        ensures
            r.value() == 0,
    {
        U256([0, 0, 0, 0])
    }

    pub fn from_u128(v: u128) -> (r: U256)
        ensures
            r.value() == v,
    {
        let lo = (v % 18446744073709551616u128) as u64;
        let hi = (v / 18446744073709551616u128) as u64;
        U256([lo, hi, 0, 0])
    }
}


/// Numeric value of a decimal digit character.
pub open spec fn digit_of(c: char) -> int {
    c as int - '0' as int
}

pub open spec fn is_digit(c: char) -> bool {
    '0' <= c && c <= '9'
}

pub open spec fn all_digits(s: Seq<char>) -> bool {
    forall|i: int| 0 <= i < s.len() ==> is_digit(#[trigger] s[i])
}

/// The number that a string of decimal digits denotes (0 for the empty string).
pub open spec fn digits_value(s: Seq<char>) -> nat
    decreases s.len(),
{
    if s.len() == 0 {
        0
    } else {
        (digits_value(s.drop_last()) * 10 + digit_of(s.last())) as nat
    }
}

/// The character of a decimal digit `d` (0 to 9).
pub open spec fn digit_char(d: int) -> char {
    seq!['0', '1', '2', '3', '4', '5', '6', '7', '8', '9'][d]
}

/// The decimal digits of `n`, most significant first, without leading zeros.
pub open spec fn dec_digits(n: nat) -> Seq<char>
    decreases n,
{
    if n < 10 {
        seq![digit_char(n as int)]
    } else {
        dec_digits(n / 10).push(digit_char((n % 10) as int))
    }
}

/// Numbers written as `a + 2^64 * x` order by `x` first, then by the limb `a`.
proof fn lemma_limb_order(a: int, b: int, x: int, y: int)
    requires
        0 <= a < limb_base(),
        0 <= b < limb_base(),
        x >= 0,
        y >= 0,
    ensures
        x >= 0 && y >= 0,
        a + limb_base() * x >= 0,
        x < y ==> a + limb_base() * x < b + limb_base() * y,
        x == y ==> (a < b <==> a + limb_base() * x < b + limb_base() * y),
        x == y ==> (a == b <==> a + limb_base() * x == b + limb_base() * y),
{
    let m = limb_base() as int;
    assert(a + m * x >= 0) by (nonlinear_arith)
        requires a >= 0, x >= 0, m > 0;
    assert(x < y ==> a + m * x < b + m * y) by (nonlinear_arith)
        requires 0 <= a < m, 0 <= b, m > 0;
}

impl U256 {
    pub open spec fn limbs_value(l0: u64, l1: u64, l2: u64, l3: u64) -> nat {
        (l0 + limb_base() * (l1 + limb_base() * (l2 + limb_base() * l3))) as nat
    }

    /// Relies on uint's `checked_add`: the sum, or `None` when it reaches 2^256.
    #[verifier::external_body]
    pub fn checked_add(self, other: U256) -> (r: Option<U256>)
        ensures
            match r {
                Some(v) => self.value() + other.value() < u256_bound() && v.value() == self.value()
                    + other.value(),
                None => self.value() + other.value() >= u256_bound(),
            },
    {
        primitive_types::U256(self.0).checked_add(primitive_types::U256(other.0)).map(|v| U256(v.0))
    }

    /// Relies on uint's `checked_sub`: the difference, or `None` below zero.
    #[verifier::external_body]
    pub fn checked_sub(self, other: U256) -> (r: Option<U256>)
        ensures
            match r {
                Some(v) => other.value() <= self.value() && v.value() == self.value()
                    - other.value(),
                None => other.value() > self.value(),
            },
    {
        primitive_types::U256(self.0).checked_sub(primitive_types::U256(other.0)).map(|v| U256(v.0))
    }

    /// Relies on uint's `checked_mul`: the product, or `None` when it reaches 2^256.
    #[verifier::external_body]
    pub fn checked_mul(self, other: U256) -> (r: Option<U256>)
        ensures
            match r {
                Some(v) => self.value() * other.value() < u256_bound() && v.value() == self.value()
                    * other.value(),
                None => self.value() * other.value() >= u256_bound(),
            },
    {
        primitive_types::U256(self.0).checked_mul(primitive_types::U256(other.0)).map(|v| U256(v.0))
    }

    /// Relies on uint's `checked_div`: the quotient rounded down, `None` for a zero divisor.
    #[verifier::external_body]
    pub fn checked_div(self, other: U256) -> (r: Option<U256>)
        ensures
            match r {
                Some(v) => other.value() != 0 && v.value() == self.value() / other.value(),
                None => other.value() == 0,
            },
    {
        primitive_types::U256(self.0).checked_div(primitive_types::U256(other.0)).map(|v| U256(v.0))
    }

    /// Relies on uint's `checked_rem`: the remainder, `None` for a zero divisor.
    #[verifier::external_body]
    pub fn checked_rem(self, other: U256) -> (r: Option<U256>)
        ensures
            match r {
                Some(v) => other.value() != 0 && v.value() == self.value() % other.value(),
                None => other.value() == 0,
            },
    {
        primitive_types::U256(self.0).checked_rem(primitive_types::U256(other.0)).map(|v| U256(v.0))
    }

    /// Relies on uint's `pow`, which panics only when the power reaches 2^256.
    #[verifier::external_body]
    pub fn pow(self, expon: U256) -> (r: U256)
        requires
            vstd::arithmetic::power::pow(self.value() as int, expon.value()) < u256_bound(),
        ensures
            r.value() == vstd::arithmetic::power::pow(self.value() as int, expon.value()),
    {
        U256(primitive_types::U256(self.0).pow(primitive_types::U256(expon.0)).0)
    }

    /// Orders by numeric value, comparing limbs from the most significant.
    pub fn compare(&self, other: &U256) -> (r: core::cmp::Ordering)
        ensures
            (r == core::cmp::Ordering::Less) == (self.value() < other.value()),
            (r == core::cmp::Ordering::Equal) == (self.value() == other.value()),
            (r == core::cmp::Ordering::Greater) == (self.value() > other.value()),
    {
        let x = self.0;
        let y = other.0;
        proof {
            let b = limb_base() as int;
            let x2 = x[2] + b * x[3];
            let y2 = y[2] + b * y[3];
            let x1 = x[1] + b * x2;
            let y1 = y[1] + b * y2;
            lemma_limb_order(x[2] as int, y[2] as int, x[3] as int, y[3] as int);
            lemma_limb_order(y[2] as int, x[2] as int, y[3] as int, x[3] as int);
            lemma_limb_order(x[1] as int, y[1] as int, x2, y2);
            lemma_limb_order(y[1] as int, x[1] as int, y2, x2);
            lemma_limb_order(x[0] as int, y[0] as int, x1, y1);
            lemma_limb_order(y[0] as int, x[0] as int, y1, x1);
        }
        if x[3] != y[3] {
            if x[3] < y[3] { core::cmp::Ordering::Less } else { core::cmp::Ordering::Greater }
        } else if x[2] != y[2] {
            if x[2] < y[2] { core::cmp::Ordering::Less } else { core::cmp::Ordering::Greater }
        } else if x[1] != y[1] {
            if x[1] < y[1] { core::cmp::Ordering::Less } else { core::cmp::Ordering::Greater }
        } else if x[0] != y[0] {
            if x[0] < y[0] { core::cmp::Ordering::Less } else { core::cmp::Ordering::Greater }
        } else {
            core::cmp::Ordering::Equal
        }
    }

    /// Relies on uint's `from_dec_str`: digits only, and a value below 2^256.
    #[verifier::external_body]
    pub fn from_dec_str(s: &str) -> (r: Option<U256>)
        ensures
            match r {
                Some(v) => all_digits(s@) && digits_value(s@) < u256_bound() && v.value()
                    == digits_value(s@),
                None => !all_digits(s@) || digits_value(s@) >= u256_bound(),
            },
    {
        primitive_types::U256::from_dec_str(s).ok().map(|v| U256(v.0))
    }

    /// Relies on uint's `Display` impl: the decimal digits, without leading zeros.
    #[verifier::external_body]
    pub fn to_dec_string(&self) -> (r: String)
        ensures
            r@ == dec_digits(self.value()),
    {
        primitive_types::U256(self.0).to_string()
    }

    pub fn is_zero(&self) -> (r: bool)
        ensures
            r == (self.value() == 0),
    {
        match self.compare(&U256::zero()) {
            core::cmp::Ordering::Equal => true,
            _ => false,
        }
    }

    pub fn lt(&self, other: &U256) -> (r: bool)
        ensures
            r == (self.value() < other.value()),
    {
        match self.compare(other) {
            core::cmp::Ordering::Less => true,
            _ => false,
        }
    }

    pub fn le(&self, other: &U256) -> (r: bool)
        ensures
            r == (self.value() <= other.value()),
    {
        match self.compare(other) {
            core::cmp::Ordering::Greater => false,
            _ => true,
        }
    }

    pub fn eq(&self, other: &U256) -> (r: bool)
        ensures
            r == (self.value() == other.value()),
    {
        match self.compare(other) {
            core::cmp::Ordering::Equal => true,
            _ => false,
        }
    }

    /// The value as a `u128`, or `None` when it does not fit.
    pub fn to_u128(&self) -> (r: Option<u128>)
        ensures
            match r {
                Some(v) => v == self.value(),
                None => self.value() > u128::MAX,
            },
    {
        if self.0[2] == 0 && self.0[3] == 0 {
            proof {
                let l0 = self.0[0] as int;
                let l1 = self.0[1] as int;
                assert(l1 * 18446744073709551616 <= 18446744073709551615 * 18446744073709551616)
                    by (nonlinear_arith)
                    requires 0 <= l1 <= 18446744073709551615;
                assert(self.value() == l0 + l1 * limb_base());
            }
            let v: u128 = self.0[0] as u128 + (self.0[1] as u128) * 18446744073709551616u128;
            Some(v)
        } else {
            proof {
                let l0 = self.0[0] as int;
                let l1 = self.0[1] as int;
                let l2 = self.0[2] as int;
                let l3 = self.0[3] as int;
                let b = limb_base() as int;
                assert(l2 + b * l3 >= 1);
                assert(b * (l2 + b * l3) >= b) by (nonlinear_arith)
                    requires l2 + b * l3 >= 1, b > 0;
                assert(l1 + b * (l2 + b * l3) >= b);
                assert(b * (l1 + b * (l2 + b * l3)) >= b * b) by (nonlinear_arith)
                    requires l1 + b * (l2 + b * l3) >= b, b > 0;
            }
            None
        }
    }
}

impl From<u128> for U256 {
    fn from(v: u128) -> (r: U256) {
        U256([(v % 18446744073709551616u128) as u64, (v / 18446744073709551616u128) as u64, 0, 0])
    }
}

impl vstd::std_specs::convert::FromSpecImpl<u128> for U256 {
    open spec fn obeys_from_spec() -> bool {
        true
    }

    open spec fn from_spec(v: u128) -> U256 {
        U256([(v % 18446744073709551616) as u64, (v / 18446744073709551616) as u64, 0, 0])
    }
}

/// `a * b / c` rounded down, with `0` for a zero divisor; `None` when `a * b`
/// reaches 2^256 (the product is taken at 256 bits) or the quotient does not
/// fit a `u128`.
pub fn mul_div(a: U256, b: U256, c: U256) -> (r: Option<u128>)
    ensures
        c.value() == 0 ==> r == Some(0u128),
        c.value() != 0 ==> r == (if a.value() * b.value() < u256_bound() && a.value()
            * b.value() / c.value() <= u128::MAX {
            Some((a.value() * b.value() / c.value()) as u128)
        } else {
            None
        }),
{
    if c.is_zero() {
        Some(0)
    } else {
        match a.checked_mul(b) {
            Some(p) => match p.checked_div(c) {
                Some(q) => q.to_u128(),
                None => None,
            },
            None => None,
        }
    }
}

/// `a * b / c` rounded down, the product taken at 512 bits, with zero for a
/// zero divisor; `None` when the quotient reaches 2^256.
pub fn mul_div256(a: U256, b: U256, c: U256) -> (r: Option<U256>)
    ensures
        c.value() == 0 ==> r.is_some() && r.unwrap().value() == 0,
        c.value() != 0 ==> match r {
            Some(v) => a.value() * b.value() / c.value() < u256_bound() && v.value() == a.value()
                * b.value() / c.value(),
            None => a.value() * b.value() / c.value() >= u256_bound(),
        },
{
    if c.is_zero() {
        Some(U256::zero())
    } else {
        let wa = U512::from_u256(a);
        let wb = U512::from_u256(b);
        let wc = U512::from_u256(c);
        proof {
            let x = a.value() as int;
            let y = b.value() as int;
            let bb = u256_bound() as int;
            let l = limb_base() as int;
            assert(u512_bound() == bb * bb) by (nonlinear_arith)
                requires bb == l * l * l * l, u512_bound() == l * l * l * l * l * l * l * l;
            assert(x * y < bb * bb) by (nonlinear_arith)
                requires 0 <= x < bb, 0 <= y < bb;
        }
        let p = wa.checked_mul(wb).unwrap();
        let q = p.checked_div(wc).unwrap();
        q.to_u256()
    }
}

} // verus!
