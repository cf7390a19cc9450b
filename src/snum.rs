use vstd::prelude::*;
use crate::num::{den, n_add_v, n_div_v, n_mul_v, Num};
use crate::strings::{chars_of, fixed_point_string, parse_fixed, string_of};
use crate::uint256::u256_bound;
use crate::uint512::sqrt_of_product;

verus! {

pub open spec fn abs(x: int) -> int {
    if x < 0 { -x } else { x }
}

/// A signed raw value an `SNum` can hold.
pub open spec fn s_fits(x: int) -> bool {
    abs(x) < u256_bound()
}

/// `x` divided by 10^24, rounded toward zero.
pub open spec fn tdiv(x: int) -> int {
    if x < 0 { -((-x) / den() as int) } else { x / den() as int }
}

#[verifier::opaque]
pub open spec fn s_add_v(x: int, y: int) -> Option<int> {
    if s_fits(x + y) { Some(x + y) } else { None }
}

pub open spec fn s_add(a: Option<int>, b: Option<int>) -> Option<int> {
    match (a, b) {
        (Some(x), Some(y)) => s_add_v(x, y),
        _ => None,
    }
}

#[verifier::opaque]
pub open spec fn s_sub_v(x: int, y: int) -> Option<int> {
    if s_fits(x - y) { Some(x - y) } else { None }
}

pub open spec fn s_sub(a: Option<int>, b: Option<int>) -> Option<int> {
    match (a, b) {
        (Some(x), Some(y)) => s_sub_v(x, y),
        _ => None,
    }
}

#[verifier::opaque]
pub open spec fn s_mul_v(x: int, y: int) -> Option<int> {
    if (abs(x) * abs(y) / den() as int) < u256_bound() {
        Some(tdiv(x * y))
    } else {
        None
    }
}

/// Signed fixed-point product, rounded toward zero, the raw magnitudes'
/// product taken at 512 bits; `None` when the result reaches 2^256.
pub open spec fn s_mul(a: Option<int>, b: Option<int>) -> Option<int> {
    match (a, b) {
        (Some(x), Some(y)) => s_mul_v(x, y),
        _ => None,
    }
}

#[verifier::opaque]
pub open spec fn s_div_v(x: int, y: int) -> Option<int> {
    if y == 0 {
        Some(0)
    } else if abs(x) * den() / abs(y) < u256_bound() {
        Some(if (x < 0) == (y < 0) {
            abs(x) * den() / abs(y)
        } else {
            -(abs(x) * den() / abs(y))
        })
    } else {
        None
    }
}

/// Signed fixed-point quotient, rounded toward zero, the scaled dividend
/// taken at 512 bits; zero for a zero divisor; `None` when the result reaches
/// 2^256.
pub open spec fn s_div(a: Option<int>, b: Option<int>) -> Option<int> {
    match (a, b) {
        (Some(x), Some(y)) => s_div_v(x, y),
        _ => None,
    }
}

pub open spec fn s_neg(a: Option<int>) -> Option<int> {
    match a {
        Some(x) => Some(-x),
        None => None,
    }
}

/// `x` to the power `e` in fixed point, multiplying from the left.
pub open spec fn s_pow(x: int, e: nat) -> Option<int>
    decreases e,
{
    if e == 0 {
        Some(den() as int)
    } else {
        s_mul(s_pow(x, (e - 1) as nat), Some(x))
    }
}

proof fn lemma_s_pow_none(x: int, e: nat, f: nat)
    requires
        s_pow(x, e) is None,
        e <= f,
    ensures
        s_pow(x, f) is None,
    decreases f - e,
{
    if e < f {
        lemma_s_pow_none(x, e + 1, f);
    }
}

/// `r` is the integer square root of `n`.
pub open spec fn is_isqrt(r: int, n: int) -> bool {
    0 <= r && r * r <= n < (r + 1) * (r + 1)
}

/// The integer square root of `n`.
pub open spec fn isqrt(n: int) -> int {
    choose|r: int| is_isqrt(r, n)
}

#[verifier::opaque]
pub open spec fn s_sqrt_v(x: int) -> Option<int> {
    Some(isqrt(abs(x) * den()))
}

/// Square root of the magnitude, as the integer square root of `|x| * 10^24`.
pub open spec fn s_sqrt(a: Option<int>) -> Option<int> {
    match a {
        Some(x) => s_sqrt_v(x),
        None => None,
    }
}

pub proof fn lemma_isqrt_unique(r: int, n: int)
    requires
        is_isqrt(r, n),
    ensures
        isqrt(n) == r,
{
    let q = isqrt(n);
    assert(is_isqrt(q, n));
    if q < r {
        assert((q + 1) * (q + 1) <= r * r) by (nonlinear_arith)
            requires 0 <= q, q + 1 <= r;
    } else if r < q {
        assert((r + 1) * (r + 1) <= q * q) by (nonlinear_arith)
            requires 0 <= r, r + 1 <= q;
    }
}

/// Signed decimal in sign-magnitude form; `+0` and `-0` are equal.
#[derive(Clone, Copy, Debug)]
pub struct SNum {
    pub value: Num,
    pub is_negative: bool,
}

pub open spec fn snum_opt(r: Option<SNum>) -> Option<int> {
    match r {
        Some(v) => Some(v.val()),
        None => None,
    }
}

impl SNum {
    /// The signed raw integer.
    pub open spec fn val(&self) -> int {
        if self.is_negative { -self.value.val() } else { self.value.val() }
    }

    pub fn zero() -> (r: SNum)
        ensures
            r.val() == 0,
    {
        SNum { value: Num::zero(), is_negative: false }
    }

    pub fn one() -> (r: SNum)
        ensures
            r.val() == den(),
    {
        SNum { value: Num::one(), is_negative: false }
    }

    pub fn max() -> (r: SNum)
        ensures
            r.val() == u256_bound() - 1,
    {
        SNum { value: Num::max(), is_negative: false }
    }

    pub fn min() -> (r: SNum)
        ensures
            r.val() == 1 - u256_bound(),
    {
        SNum { value: Num::max(), is_negative: true }
    }

    pub fn from_num(value: Num) -> (r: SNum)
        ensures
            r.val() == value.val(),
    {
        SNum { value, is_negative: false }
    }

    /// Reads a decimal with an optional leading minus sign.
    pub fn from(value: &str) -> (r: SNum)
        requires
            value@.len() > 0 && value@[0] == '-' ==> parse_fixed(
                value@.subrange(1, value@.len() as int),
                24,
            ) is Some,
            !(value@.len() > 0 && value@[0] == '-') ==> parse_fixed(value@, 24) is Some,
        ensures
            value@.len() > 0 && value@[0] == '-' ==> r.val() == -parse_fixed(
                value@.subrange(1, value@.len() as int),
                24,
            )->0,
            !(value@.len() > 0 && value@[0] == '-') ==> r.val() == parse_fixed(value@, 24)->0,
    {
        let c = chars_of(value);
        if c.len() > 0 && c[0] == '-' {
            let mut rest: Vec<char> = Vec::new();
            let mut i: usize = 1;
            while i < c.len()
                invariant
                    c@ == value@,
                    1 <= i <= c.len(),
                    rest@ == c@.subrange(1, i as int),
                decreases c.len() - i,
            {
                rest.push(c[i]);
                i += 1;
                proof {
                    assert(c@.subrange(1, i as int) == c@.subrange(1, i - 1).push(c@[i - 1]));
                }
            }
            let text = string_of(&rest);
            SNum { value: Num::from(text.as_str()), is_negative: true }
        } else {
            SNum { value: Num::from(value), is_negative: false }
        }
    }

/// Reads a decimal with an optional leading minus sign; `None` where `from`
    /// would not accept the text.
    pub fn parse(value: &str) -> (r: Option<SNum>)
        ensures
            value@.len() > 0 && value@[0] == '-' ==> snum_opt(r) == match parse_fixed(
                value@.subrange(1, value@.len() as int),
                24,
            ) {
                Some(v) => Some(-v),
                None => None::<int>,
            },
            !(value@.len() > 0 && value@[0] == '-') ==> snum_opt(r) == match parse_fixed(value@, 24) {
                Some(v) => Some(v as int),
                None => None::<int>,
            },
    {
        let c = chars_of(value);
        if c.len() > 0 && c[0] == '-' {
            let mut rest: Vec<char> = Vec::new();
            let mut i: usize = 1;
            while i < c.len()
                invariant
                    c@ == value@,
                    1 <= i <= c.len(),
                    rest@ == c@.subrange(1, i as int),
                decreases c.len() - i,
            {
                rest.push(c[i]);
                i += 1;
                proof {
                    assert(c@.subrange(1, i as int) == c@.subrange(1, i - 1).push(c@[i - 1]));
                }
            }
            let text = string_of(&rest);
            match Num::parse(text.as_str()) {
                Some(v) => Some(SNum { value: v, is_negative: true }),
                None => None,
            }
        } else {
            match Num::parse(value) {
                Some(v) => Some(SNum { value: v, is_negative: false }),
                None => None,
            }
        }
    }

    /// The shortest decimal form, with a minus sign when negative and not zero.
    pub fn to_string(&self) -> (r: String)
        ensures
            r@ == if self.is_negative && self.val() != 0 {
                seq!['-'] + fixed_point_string(self.value.value.value(), 24)
            } else {
                fixed_point_string(self.value.value.value(), 24)
            },
    {
        let text = self.value.to_string();
        if self.is_negative && !self.value.is_zero() {
            let digits = chars_of(text.as_str());
            let mut out: Vec<char> = Vec::new();
            out.push('-');
            let mut i: usize = 0;
            while i < digits.len()
                invariant
                    0 <= i <= digits.len(),
                    out@ == seq!['-'] + digits@.subrange(0, i as int),
                decreases digits.len() - i,
            {
                out.push(digits[i]);
                i += 1;
                proof {
                    assert(digits@.subrange(0, i as int) == digits@.subrange(0, i - 1).push(digits@[i - 1]));
                }
            }
            assert(digits@.subrange(0, digits@.len() as int) == digits@);
            string_of(&out)
        } else {
            text
        }
    }

    pub fn is_negative(&self) -> (r: bool)
        ensures
            r == self.is_negative,
    {
        self.is_negative
    }

    /// The magnitude.
    pub fn abs(&self) -> (r: Num)
        ensures
            r.val() == abs(self.val()),
    {
        self.value
    }

    pub fn is_zero(&self) -> (r: bool)
        ensures
            r == (self.val() == 0),
    {
        self.value.is_zero()
    }

    /// The magnitude rounded down to a multiple of `base`, sign kept.
    pub fn round(&self, base: Num) -> (r: SNum)
        requires
            base.val() != 0,
        ensures
            abs(r.val()) == abs(self.val()) / base.val() * base.val(),
            r.is_negative == self.is_negative,
    {
        SNum { value: self.value.round(base), is_negative: self.is_negative }
    }

    /// Square root of the magnitude.
    pub fn checked_sqrt(&self) -> (r: Option<SNum>)
        ensures
            snum_opt(r) == s_sqrt(Some(self.val())),
    {
        reveal(s_sqrt_v);
        let q = sqrt_of_product(self.value.value, Num::denominator());
        proof {
            lemma_isqrt_unique(q.value() as int, abs(self.val()) * den());
        }
        Some(SNum { value: Num::from_raw(q), is_negative: false })
    }

    /// Square root of the magnitude, as the integer square root of `|self| * 10^24`.
    pub fn sqrt(&self) -> (r: SNum)
        ensures
            r.val() == isqrt(abs(self.val()) * den()),
    {
        reveal(s_sqrt_v);
        self.checked_sqrt().unwrap()
    }

    /// `self` raised to `exp` in fixed point (each step rounded toward zero);
    /// `None` on an overflow.
    pub fn pow(&self, exp: u32) -> (r: Option<SNum>)
        ensures
            snum_opt(r) == s_pow(self.val(), exp as nat),
    {
        let mut acc = SNum::one();
        let mut i: u32 = 0;
        while i < exp
            invariant
                i <= exp,
                s_pow(self.val(), i as nat) == Some(acc.val()),
            decreases exp - i,
        {
            match acc.checked_mul(*self) {
                Some(v) => {
                    acc = v;
                },
                None => {
                    proof {
                        lemma_s_pow_none(self.val(), (i + 1) as nat, exp as nat);
                    }
                    return None;
                },
            }
            i += 1;
        }
        Some(acc)
    }

    pub fn neg(self) -> (r: SNum)
        ensures
            r.val() == -self.val(),
    {
        SNum { value: self.value, is_negative: !self.is_negative }
    }

    pub fn eq(&self, other: &SNum) -> (r: bool)
        ensures
            r == (self.val() == other.val()),
    {
        self.is_zero() && other.is_zero() || self.value.eq(&other.value) && self.is_negative
            == other.is_negative
    }

    pub fn partial_cmp(&self, other: &SNum) -> (r: Option<core::cmp::Ordering>)
        ensures
            (r == Some(core::cmp::Ordering::Less)) == (self.val() < other.val()),
            (r == Some(core::cmp::Ordering::Equal)) == (self.val() == other.val()),
            (r == Some(core::cmp::Ordering::Greater)) == (self.val() > other.val()),
    {
        if self.is_zero() && other.is_zero() {
            return Some(core::cmp::Ordering::Equal);
        }
        match (self.is_negative, other.is_negative) {
            (false, false) => Some(self.value.cmp(&other.value)),
            (true, true) => Some(other.value.cmp(&self.value)),
            (false, true) => Some(core::cmp::Ordering::Greater),
            (true, false) => Some(core::cmp::Ordering::Less),
        }
    }

    pub fn lt(&self, other: &SNum) -> (r: bool)
        ensures
            r == (self.val() < other.val()),
    {
        match self.partial_cmp(other) {
            Some(core::cmp::Ordering::Less) => true,
            _ => false,
        }
    }

    pub fn gt(&self, other: &SNum) -> (r: bool)
        ensures
            r == (self.val() > other.val()),
    {
        other.lt(self)
    }

    pub fn ge(&self, other: &SNum) -> (r: bool)
        ensures
            r == (self.val() >= other.val()),
    {
        !self.lt(other)
    }

    /// Sum, `None` past the top; a zero sum is the non-negative zero.
    pub fn checked_add(self, other: SNum) -> (r: Option<SNum>)
        ensures
            snum_opt(r) == s_add(Some(self.val()), Some(other.val())),
            r is Some && r->0.val() == 0 ==> !r->0.is_negative,
    {
        reveal(s_add_v);
        reveal(n_add_v);
        let a = self.value;
        let b = other.value;
        match (self.is_negative, other.is_negative) {
            (true, true) => match a.checked_add(b) {
                Some(v) => Some(SNum { value: v, is_negative: !v.is_zero() }),
                None => None,
            },
            (false, false) => match a.checked_add(b) {
                Some(v) => Some(SNum { value: v, is_negative: false }),
                None => None,
            },
            (true, false) => if b.lt(&a) {
                Some(SNum { value: a.sub(b), is_negative: true })
            } else {
                Some(SNum { value: b.sub(a), is_negative: false })
            },
            (false, true) => if a.lt(&b) {
                Some(SNum { value: b.sub(a), is_negative: true })
            } else {
                Some(SNum { value: a.sub(b), is_negative: false })
            },
        }
    }

    /// Sum; a zero sum is the non-negative zero.
    pub fn add(self, other: SNum) -> (r: SNum)
        requires
            s_fits(self.val() + other.val()),
        ensures
            r.val() == self.val() + other.val(),
            r.val() == 0 ==> !r.is_negative,
    {
        reveal(s_add_v);
        self.checked_add(other).unwrap()
    }

    /// Difference; a zero difference is the non-negative zero.
    pub fn sub(self, other: SNum) -> (r: SNum)
        requires
            s_fits(self.val() - other.val()),
        ensures
            r.val() == self.val() - other.val(),
            r.val() == 0 ==> !r.is_negative,
    {
        reveal(s_sub_v);
        self.checked_sub(other).unwrap()
    }

    /// Difference, `None` past the top; a zero difference is the non-negative zero.
    pub fn checked_sub(self, other: SNum) -> (r: Option<SNum>)
        ensures
            snum_opt(r) == s_sub(Some(self.val()), Some(other.val())),
            r is Some && r->0.val() == 0 ==> !r->0.is_negative,
    {
        reveal(s_sub_v);
        reveal(s_add_v);
        self.checked_add(other.neg())
    }

    pub fn checked_mul(self, other: SNum) -> (r: Option<SNum>)
        ensures
            snum_opt(r) == s_mul(Some(self.val()), Some(other.val())),
    {
        reveal(s_mul_v);
        reveal(n_mul_v);
        match self.value.checked_mul(other.value) {
            Some(v) => {
                proof {
                    let x = self.val();
                    let y = other.val();
                    let a = self.value.val();
                    let b = other.value.val();
                    assert(a * b >= 0) by (nonlinear_arith)
                        requires a >= 0, b >= 0;
                    assert(x * y == if self.is_negative != other.is_negative { -(a * b) } else { a * b })
                        by (nonlinear_arith)
                        requires
                            x == if self.is_negative { -a } else { a },
                            y == if other.is_negative { -b } else { b };
                    assert(abs(x) == a && abs(y) == b);
                    if self.is_negative != other.is_negative {
                        if a * b == 0 {
                            assert(tdiv(x * y) == 0);
                        } else {
                            assert(tdiv(x * y) == -(a * b / den() as int));
                        }
                    }
                }
                Some(SNum { value: v, is_negative: self.is_negative != other.is_negative })
            },
            None => {
                proof {
                    let x = self.val();
                    let y = other.val();
                    assert(abs(x) * abs(y) == self.value.val() * other.value.val());
                }
                None
            },
        }
    }

    pub fn checked_div(self, other: SNum) -> (r: Option<SNum>)
        ensures
            snum_opt(r) == s_div(Some(self.val()), Some(other.val())),
    {
        reveal(s_div_v);
        reveal(n_div_v);
        match self.value.checked_div(other.value) {
            Some(v) => Some(SNum { value: v, is_negative: self.is_negative != other.is_negative }),
            None => None,
        }
    }
}

impl PartialEq for SNum {
    fn eq(&self, other: &SNum) -> (r: bool) {
        SNum::eq(self, other)
    }
}

impl vstd::std_specs::cmp::PartialEqSpecImpl for SNum {
    open spec fn obeys_eq_spec() -> bool {
        true
    }

    open spec fn eq_spec(&self, other: &SNum) -> bool {
        self.val() == other.val()
    }
}

impl From<Num> for SNum {
    fn from(value: Num) -> (r: SNum) {
        SNum { value, is_negative: false }
    }
}

impl vstd::std_specs::convert::FromSpecImpl<Num> for SNum {
    open spec fn obeys_from_spec() -> bool {
        true
    }

    open spec fn from_spec(value: Num) -> SNum {
        SNum { value, is_negative: false }
    }
}

} // verus!
