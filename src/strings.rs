use vstd::prelude::*;
use vstd::arithmetic::power::pow;
use crate::uint256::{all_digits, dec_digits, digits_value, u256_bound, U256};
use crate::utils::{cast_value, pow10};

verus! {

/// `n` zero characters.
pub open spec fn zeros(n: nat) -> Seq<char> {
    Seq::new(n, |i: int| '0')
}

/// Digits `d` with a point placed `k` digits from the right, padded with
/// zeros on the left so that a digit stands before the point.
pub open spec fn point_form(d: Seq<char>, k: nat) -> Seq<char> {
    if d.len() > k {
        d.subrange(0, d.len() - k) + seq!['.'] + d.subrange(d.len() - k, d.len() as int)
    } else {
        seq!['0', '.'] + zeros((k - d.len()) as nat) + d
    }
}

/// `s` without its trailing zeros.
pub open spec fn trim_zeros(s: Seq<char>) -> Seq<char>
    decreases s.len(),
{
    if s.len() > 0 && s.last() == '0' {
        trim_zeros(s.drop_last())
    } else {
        s
    }
}

/// `s` without a trailing point.
pub open spec fn trim_point(s: Seq<char>) -> Seq<char> {
    if s.len() > 0 && s.last() == '.' {
        s.drop_last()
    } else {
        s
    }
}

/// The shortest decimal form of `n / 10^k`: no trailing zeros after the point,
/// and no point when the fraction is empty.
pub open spec fn fixed_point_string(n: nat, k: nat) -> Seq<char> {
    trim_point(trim_zeros(point_form(dec_digits(n), k)))
}

/// Relies on `str::chars`: the characters of `s`, in order.
#[verifier::external_body]
pub(crate) fn chars_of(s: &str) -> (r: Vec<char>)
    ensures
        r@ == s@,
{
    s.chars().collect()
}

/// Relies on `String: FromIterator<char>`: the string of the characters of `v`.
#[verifier::external_body]
pub(crate) fn string_of(v: &Vec<char>) -> (r: String)
    ensures
        r@ == v@,
{
    v.iter().collect()
}

/// Prints a fixed-point integer with `decimals` fractional digits as a decimal.
pub fn cast_integer_to_float(num: U256, decimals: u8) -> (r: String)
    ensures
        r@ == fixed_point_string(num.value(), decimals as nat),
{
    let d = chars_of(num.to_dec_string().as_str());
    let k = decimals as usize;
    let mut v: Vec<char> = Vec::new();
    let n = d.len();
    if n > k {
        let mut i: usize = 0;
        while i < n - k
            invariant
                n == d.len(),
                n > k,
                i <= n - k,
                v@ == d@.subrange(0, i as int),
            decreases n - k - i,
        {
            v.push(d[i]);
            i += 1;
        }
        v.push('.');
        while i < n
            invariant
                n == d.len(),
                n > k,
                n - k <= i <= n,
                v@ == d@.subrange(0, n - k) + seq!['.'] + d@.subrange(n - k, i as int),
            decreases n - i,
        {
            v.push(d[i]);
            i += 1;
            proof {
                assert(d@.subrange(n - k, i as int) == d@.subrange(n - k, i - 1).push(
                    d@[i - 1],
                ));
            }
        }
        assert(v@ == point_form(d@, k as nat));
    } else {
        v.push('0');
        v.push('.');
        let mut j: usize = 0;
        while j < k - n
            invariant
                n <= k,
                j <= k - n,
                v@ == seq!['0', '.'] + zeros(j as nat),
            decreases k - n - j,
        {
            v.push('0');
            j += 1;
            proof {
                assert(zeros(j as nat) == zeros((j - 1) as nat).push('0'));
            }
        }
        let mut i: usize = 0;
        while i < n
            invariant
                n == d.len(),
                n <= k,
                i <= n,
                v@ == seq!['0', '.'] + zeros((k - n) as nat) + d@.subrange(0, i as int),
            decreases n - i,
        {
            v.push(d[i]);
            i += 1;
            proof {
                assert(d@.subrange(0, i as int) == d@.subrange(0, i - 1).push(d@[i - 1]));
            }
        }
        assert(d@.subrange(0, n as int) == d@);
    }
    let ghost full = v@;
    assert(full == point_form(dec_digits(num.value()), decimals as nat));
    while v.len() > 0 && v[v.len() - 1] == '0'
        invariant
            trim_zeros(v@) == trim_zeros(full),
        decreases v.len(),
    {
        proof {
            assert(v@.drop_last() == v@.subrange(0, v@.len() - 1));
        }
        v.pop();
    }
    assert(trim_zeros(v@) == v@);
    if v.len() > 0 && v[v.len() - 1] == '.' {
        v.pop();
    }
    string_of(&v)
}


/// Index of the first point in `s`, or its length when it has none.
pub open spec fn point_index(s: Seq<char>) -> nat
    decreases s.len(),
{
    if s.len() == 0 || s[0] == '.' {
        0
    } else {
        1 + point_index(s.subrange(1, s.len() as int))
    }
}

/// The digits before the first point.
pub open spec fn int_part(s: Seq<char>) -> Seq<char> {
    s.subrange(0, point_index(s) as int)
}

/// The digits after the first point (empty without a point).
pub open spec fn frac_part(s: Seq<char>) -> Seq<char> {
    if point_index(s) < s.len() {
        s.subrange(point_index(s) + 1int, s.len() as int)
    } else {
        Seq::empty()
    }
}

/// The fixed-point integer with `k` fractional digits that the decimal `s`
/// denotes (extra digits dropped), or `None` when `s` is not digits with at
/// most one point, a value on the way reaches 2^256, or the digit shift
/// exceeds 77 (10^78 does not fit).
pub open spec fn parse_fixed(s: Seq<char>, k: nat) -> Option<nat> {
    let i = int_part(s);
    let f = frac_part(s);
    let p = f.len();
    if !all_digits(i) || !all_digits(f) || p > 77 || digits_value(i) >= u256_bound()
        || digits_value(f) >= u256_bound() {
        None
    } else {
        let m = digits_value(i) * pow(10, p);
        if m >= u256_bound() || m + digits_value(f) >= u256_bound() || k > p + 77 {
            None
        } else {
            let c = cast_value((m + digits_value(f)) as nat, p, k);
            if c >= u256_bound() {
                None
            } else {
                Some(c as nat)
            }
        }
    }
}

pub open spec fn value_of(r: Option<U256>) -> Option<nat> {
    match r {
        Some(v) => Some(v.value()),
        None => None,
    }
}

proof fn lemma_pow10_fits(e: nat)
    requires
        e <= 77,
    ensures
        0 < pow(10, e) < u256_bound(),
{
    vstd::arithmetic::power::lemma_pow_positive(10, e);
    if e < 77 {
        vstd::arithmetic::power::lemma_pow_strictly_increases(10, e, 77);
    }
    reveal_with_fuel(pow, 78);
    assert(pow(10, 77) < u256_bound());
}

/// Reads a decimal such as "10.1" as a fixed-point integer with `decimals`
/// fractional digits; `None` where the text is malformed or too large.
pub fn cast_float_to_integer(value: &str, decimals: u8) -> (r: Option<U256>)
    ensures
        value_of(r) == parse_fixed(value@, decimals as nat),
{
    let c = chars_of(value);
    let n = c.len();
    let mut p: usize = 0;
    assert(c@.subrange(0, n as int) == c@);
    while p < n && c[p] != '.'
        invariant
            n == c.len(),
            p <= n,
            point_index(c@) == p + point_index(c@.subrange(p as int, n as int)),
        decreases n - p,
    {
        proof {
            let t = c@.subrange(p as int, n as int);
            assert(t.subrange(1, t.len() as int) == c@.subrange(p + 1, n as int));
        }
        p += 1;
    }
    let mut iv: Vec<char> = Vec::new();
    let mut j: usize = 0;
    while j < p
        invariant
            p <= n == c.len(),
            j <= p,
            iv@ == c@.subrange(0, j as int),
        decreases p - j,
    {
        iv.push(c[j]);
        j += 1;
        proof {
            assert(c@.subrange(0, j as int) == c@.subrange(0, j - 1).push(c@[j - 1]));
        }
    }
    let mut fv: Vec<char> = Vec::new();
    if p < n {
        let mut k: usize = p + 1;
        while k < n
            invariant
                p < n == c.len(),
                p + 1 <= k <= n,
                fv@ == c@.subrange(p + 1, k as int),
            decreases n - k,
        {
            fv.push(c[k]);
            k += 1;
            proof {
                assert(c@.subrange(p + 1, k as int) == c@.subrange(p + 1, k - 1).push(c@[k - 1]));
            }
        }
    }
    assert(iv@ == int_part(value@));
    assert(fv@ == frac_part(value@));
    let prev = fv.len();
    let a = match U256::from_dec_str(string_of(&iv).as_str()) {
        Some(a) => a,
        None => return None,
    };
    let b = match U256::from_dec_str(string_of(&fv).as_str()) {
        Some(b) => b,
        None => return None,
    };
    if prev > 77 {
        return None;
    }
    proof {
        lemma_pow10_fits(prev as nat);
    }
    let m = match a.checked_mul(pow10(prev as u8)) {
        Some(m) => m,
        None => return None,
    };
    let v = match m.checked_add(b) {
        Some(v) => v,
        None => return None,
    };
    let d = decimals as usize;
    if prev == d {
        Some(v)
    } else if prev > d {
        proof {
            lemma_pow10_fits((prev - d) as nat);
        }
        v.checked_div(pow10((prev - d) as u8))
    } else if d - prev > 77 {
        None
    } else {
        proof {
            lemma_pow10_fits((d - prev) as nat);
        }
        v.checked_mul(pow10((d - prev) as u8))
    }
}

} // verus!
