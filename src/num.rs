use vstd::prelude::*;
use vstd::arithmetic::power::pow;
use crate::uint256::{mul_div256, u256_bound, U256};
use crate::uint512::sqrt_of_product;
use crate::strings::{cast_float_to_integer, cast_integer_to_float, fixed_point_string, parse_fixed};
use crate::utils::{cast_decimals, cast_value};

verus! {

/// 10^24, the scale of a `Num`.
pub open spec fn den() -> nat {
    1000000000000000000000000
}

/// A raw value a `Num` can hold.
pub open spec fn fits(x: int) -> bool {
    0 <= x < u256_bound()
}

/// Sum of two fixed-point values, `None` past the top.
pub open spec fn n_add(a: Option<int>, b: Option<int>) -> Option<int> {
    match (a, b) {
        (Some(x), Some(y)) => n_add_v(x, y),
        _ => None,
    }
}

#[verifier::opaque]
pub open spec fn n_add_v(x: int, y: int) -> Option<int> {
    if fits(x + y) { Some(x + y) } else { None }
}

/// Difference of two fixed-point values, `None` below zero.
pub open spec fn n_sub(a: Option<int>, b: Option<int>) -> Option<int> {
    match (a, b) {
        (Some(x), Some(y)) => n_sub_v(x, y),
        _ => None,
    }
}

#[verifier::opaque]
pub open spec fn n_sub_v(x: int, y: int) -> Option<int> {
    if fits(x - y) { Some(x - y) } else { None }
}

/// Product of two fixed-point values, rounded down, with the raw product
/// taken at 512 bits; `None` when the result reaches 2^256.
pub open spec fn n_mul(a: Option<int>, b: Option<int>) -> Option<int> {
    match (a, b) {
        (Some(x), Some(y)) => n_mul_v(x, y),
        _ => None,
    }
}

#[verifier::opaque]
pub open spec fn n_mul_v(x: int, y: int) -> Option<int> {
    if (x * y / den() as int) < u256_bound() { Some(x * y / den() as int) } else { None }
}

/// Quotient of two fixed-point values, rounded down, with the scaled dividend
/// taken at 512 bits; zero for a zero divisor; `None` when the result
/// reaches 2^256.
pub open spec fn n_div(a: Option<int>, b: Option<int>) -> Option<int> {
    match (a, b) {
        (Some(x), Some(y)) => n_div_v(x, y),
        _ => None,
    }
}

#[verifier::opaque]
pub open spec fn n_div_v(x: int, y: int) -> Option<int> {
    if y == 0 {
        Some(0)
    } else if x * den() / y < u256_bound() {
        Some(x * den() / y)
    } else {
        None
    }
}

/// Sum of the values in `s`, added from the first; `None` once a partial sum
/// reaches 2^256.
pub open spec fn sum_of(s: Seq<Num>) -> Option<int>
    decreases s.len(),
{
    if s.len() == 0 {
        Some(0)
    } else {
        n_add(sum_of(s.drop_last()), Some(s.last().val()))
    }
}

proof fn lemma_sum_of_none(s: Seq<Num>, j: int)
    requires
        0 <= j <= s.len(),
        sum_of(s.subrange(0, j)) is None,
    ensures
        sum_of(s) is None,
    decreases s.len() - j,
{
    if j == s.len() {
        assert(s.subrange(0, j) == s);
    } else {
        assert(s.subrange(0, j + 1).drop_last() == s.subrange(0, j));
        lemma_sum_of_none(s, j + 1);
    }
}

/// Fixed-point non-negative decimal: the raw integer `value` stands for
/// `value / 10^24`.
#[derive(Clone, Copy, Debug, PartialEq, Eq)]
pub struct Num {
    pub value: U256,
}

pub open spec fn num_opt(r: Option<Num>) -> Option<int> {
    match r {
        Some(v) => Some(v.val()),
        None => None,
    }
}

impl Num {
    pub const DECIMALS: u8 = 24;

    /// The raw integer.
    pub open spec fn val(&self) -> int {
        self.value.value() as int
    }

    pub fn zero() -> (r: Num)
        ensures
            r.val() == 0,
    {
        Num { value: U256([0, 0, 0, 0]) }
    }

    pub fn one() -> (r: Num)
        ensures
            r.val() == den(),
    {
        Num { value: U256([2003764205206896640, 54210, 0, 0]) }
    }

    /// The largest value, (2^256 - 1) / 10^24.
    pub fn max() -> (r: Num)
        ensures
            r.val() == u256_bound() - 1,
    {
        let m: u64 = 18446744073709551615;
        Num { value: U256([m, m, m, m]) }
    }

    pub fn denominator() -> (r: U256)
        ensures
            r.value() == den(),
    {
        U256([2003764205206896640, 54210, 0, 0])
    }

    /// A `Num` from its raw integer.
    pub fn from_raw(value: U256) -> (r: Num)
        ensures
            r.val() == value.value(),
    {
        Num { value }
    }

    /// A `Num` from a raw integer `value` that carries `decimals` fractional digits.
    pub fn with_decimals(value: U256, decimals: u8) -> (r: Num)
        requires
            pow(10, if decimals >= 24 { (decimals - 24) as nat } else { (24 - decimals) as nat })
                < u256_bound(),
            cast_value(value.value(), decimals as nat, 24) < u256_bound(),
        ensures
            r.val() == cast_value(value.value(), decimals as nat, 24),
    {
        Num { value: cast_decimals(value, decimals, 24) }
    }

    /// The raw integer re-expressed with `decimals` fractional digits.
    pub fn scaled(&self, decimals: u8) -> (r: U256)
        requires
            pow(10, if decimals <= 24 { (24 - decimals) as nat } else { (decimals - 24) as nat })
                < u256_bound(),
            cast_value(self.value.value(), 24, decimals as nat) < u256_bound(),
        ensures
            r.value() == cast_value(self.value.value(), 24, decimals as nat),
    {
        cast_decimals(self.value, 24, decimals)
    }

    pub fn is_zero(&self) -> (r: bool)
        ensures
            r == (self.val() == 0),
    {
        self.value.is_zero()
    }

    pub fn eq(&self, other: &Num) -> (r: bool)
        ensures
            r == (self.val() == other.val()),
    {
        self.value.eq(&other.value)
    }

    pub fn lt(&self, other: &Num) -> (r: bool)
        ensures
            r == (self.val() < other.val()),
    {
        self.value.lt(&other.value)
    }

    pub fn le(&self, other: &Num) -> (r: bool)
        ensures
            r == (self.val() <= other.val()),
    {
        self.value.le(&other.value)
    }

    pub fn gt(&self, other: &Num) -> (r: bool)
        ensures
            r == (self.val() > other.val()),
    {
        other.value.lt(&self.value)
    }

    pub fn cmp(&self, other: &Num) -> (r: core::cmp::Ordering)
        ensures
            (r == core::cmp::Ordering::Less) == (self.val() < other.val()),
            (r == core::cmp::Ordering::Equal) == (self.val() == other.val()),
            (r == core::cmp::Ordering::Greater) == (self.val() > other.val()),
    {
        self.value.compare(&other.value)
    }

    pub fn checked_add(self, other: Num) -> (r: Option<Num>)
        ensures
            num_opt(r) == n_add(Some(self.val()), Some(other.val())),
    {
        reveal(n_add_v);
        match self.value.checked_add(other.value) {
            Some(v) => Some(Num { value: v }),
            None => None,
        }
    }

    pub fn checked_sub(self, other: Num) -> (r: Option<Num>)
        ensures
            num_opt(r) == n_sub(Some(self.val()), Some(other.val())),
    {
        reveal(n_sub_v);
        match self.value.checked_sub(other.value) {
            Some(v) => Some(Num { value: v }),
            None => None,
        }
    }

    pub fn checked_mul(self, other: Num) -> (r: Option<Num>)
        ensures
            num_opt(r) == n_mul(Some(self.val()), Some(other.val())),
    {
        reveal(n_mul_v);
        match mul_div256(self.value, other.value, Num::denominator()) {
            Some(v) => Some(Num { value: v }),
            None => None,
        }
    }

    pub fn checked_div(self, other: Num) -> (r: Option<Num>)
        ensures
            num_opt(r) == n_div(Some(self.val()), Some(other.val())),
    {
        reveal(n_div_v);
        match mul_div256(self.value, Num::denominator(), other.value) {
            Some(v) => Some(Num { value: v }),
            None => None,
        }
    }

    pub fn add(self, other: Num) -> (r: Num)
        requires
            fits(self.val() + other.val()),
        ensures
            r.val() == self.val() + other.val(),
    {
        reveal(n_add_v);
        self.checked_add(other).unwrap()
    }

    pub fn sub(self, other: Num) -> (r: Num)
        requires
            other.val() <= self.val(),
        ensures
            r.val() == self.val() - other.val(),
    {
        reveal(n_sub_v);
        self.checked_sub(other).unwrap()
    }

    /// Fixed-point product, rounded down.
    pub fn mul(self, other: Num) -> (r: Num)
        requires
            (self.val() * other.val() / den() as int) < u256_bound(),
        ensures
            r.val() == self.val() * other.val() / den() as int,
    {
        reveal(n_mul_v);
        self.checked_mul(other).unwrap()
    }

    /// Fixed-point quotient, rounded down; zero for a zero divisor.
    pub fn div(self, other: Num) -> (r: Num)
        requires
            other.val() != 0 ==> self.val() * den() / other.val() < u256_bound(),
        ensures
            other.val() == 0 ==> r.val() == 0,
            other.val() != 0 ==> r.val() == self.val() * den() / other.val(),
    {
        reveal(n_div_v);
        self.checked_div(other).unwrap()
    }

    /// The sum of `values`; `None` when it reaches 2^256.
    pub fn sum(values: &Vec<Num>) -> (r: Option<Num>)
        ensures
            num_opt(r) == sum_of(values@),
    {
        let mut acc = Num::zero();
        let mut i: usize = 0;
        assert(values@.subrange(0, 0).len() == 0);
        while i < values.len()
            invariant
                i <= values.len(),
                sum_of(values@.subrange(0, i as int)) == Some(acc.val()),
            decreases values.len() - i,
        {
            proof {
                assert(values@.subrange(0, i + 1).drop_last() == values@.subrange(0, i as int));
                assert(values@.subrange(0, i + 1).last() == values@[i as int]);
            }
            match acc.checked_add(values[i]) {
                Some(v) => {
                    acc = v;
                },
                None => {
                    proof {
                        lemma_sum_of_none(values@, i + 1);
                    }
                    return None;
                },
            }
            i += 1;
        }
        assert(values@.subrange(0, values.len() as int) == values@);
        Some(acc)
    }

    /// Remainder of the raw integers.
    pub fn rem(self, other: Num) -> (r: Num)
        requires
            other.val() != 0,
        ensures
            r.val() == self.val() % other.val(),
    {
        Num { value: self.value.checked_rem(other.value).unwrap() }
    }

    pub fn pow2(&self) -> (r: Num)
        requires
            (self.val() * self.val() / den() as int) < u256_bound(),
        ensures
            r.val() == self.val() * self.val() / den() as int,
    {
        self.mul(*self)
    }

    /// Square root of the decimal: the integer square root of `value * 10^24`,
    /// the product taken at 512 bits.
    pub fn sqrt(&self) -> (r: Num)
        ensures
            r.val() * r.val() <= self.val() * den(),
            self.val() * den() < (r.val() + 1) * (r.val() + 1),
    {
        Num { value: sqrt_of_product(self.value, Num::denominator()) }
    }

    /// `self` rounded down to a multiple of `base`.
    pub fn round(&self, base: Num) -> (r: Num)
        requires
            base.val() != 0,
        ensures
            r.val() == self.val() / base.val() * base.val(),
    {
        let q = self.value.checked_div(base.value).unwrap();
        proof {
            let a = self.val();
            let b = base.val();
            assert(a / b * b <= a) by (nonlinear_arith)
                requires a >= 0, b > 0;
        }
        Num { value: q.checked_mul(base.value).unwrap() }
    }

    /// Reads a decimal such as "3.14159"; the text must be digits with at most
    /// one point, of a value that fits.
    pub fn from(value: &str) -> (r: Num)
        requires
            parse_fixed(value@, 24) is Some,
        ensures
            r.val() == parse_fixed(value@, 24)->0,
    {
        Num { value: cast_float_to_integer(value, 24).unwrap() }
    }

    /// Reads a decimal; `None` where `from` would not accept the text.
    pub fn parse(value: &str) -> (r: Option<Num>)
        ensures
            num_opt(r) == match parse_fixed(value@, 24) {
                Some(v) => Some(v as int),
                None => None::<int>,
            },
    {
        match cast_float_to_integer(value, 24) {
            Some(v) => Some(Num { value: v }),
            None => None,
        }
    }

    /// The shortest decimal form, such as "3.14159" or "1000".
    pub fn to_string(&self) -> (r: String)
        ensures
            r@ == fixed_point_string(self.value.value(), 24),
    {
        cast_integer_to_float(self.value, 24)
    }
}

impl From<U256> for Num {
    fn from(value: U256) -> (r: Num) {
        Num { value }
    }
}

impl vstd::std_specs::convert::FromSpecImpl<U256> for Num {
    open spec fn obeys_from_spec() -> bool {
        true
    }

    open spec fn from_spec(value: U256) -> Num {
        Num { value }
    }
}

impl From<u128> for Num {
    fn from(value: u128) -> (r: Num) {
        Num {
            value: U256(
                [(value % 18446744073709551616u128) as u64, (value / 18446744073709551616u128) as u64, 0, 0],
            ),
        }
    }
}

impl vstd::std_specs::convert::FromSpecImpl<u128> for Num {
    open spec fn obeys_from_spec() -> bool {
        true
    }

    open spec fn from_spec(value: u128) -> Num {
        Num {
            value: U256([(value % 18446744073709551616) as u64, (value / 18446744073709551616) as u64, 0, 0]),
        }
    }
}

} // verus!
