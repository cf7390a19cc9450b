use vstd::prelude::*;
use vstd::arithmetic::power::{lemma_pow_adds, lemma_pow_positive, pow};
use crate::strings::{
    fixed_point_string, frac_part, int_part, parse_fixed, point_form, point_index, trim_point,
    trim_zeros, zeros,
};
use crate::uint256::{
    all_digits, dec_digits, digit_char, digit_of, digits_value, is_digit,
};
use crate::utils::cast_value;

verus! {

proof fn lemma_digit_char_of(c: char)
    requires
        is_digit(c),
    ensures
        0 <= digit_of(c) <= 9,
        digit_char(digit_of(c)) == c,
{
    let d = digit_of(c);
    assert(0 <= d <= 9);
    if d == 0 { assert(c == '0'); }
    else if d == 1 { assert(c == '1'); }
    else if d == 2 { assert(c == '2'); }
    else if d == 3 { assert(c == '3'); }
    else if d == 4 { assert(c == '4'); }
    else if d == 5 { assert(c == '5'); }
    else if d == 6 { assert(c == '6'); }
    else if d == 7 { assert(c == '7'); }
    else if d == 8 { assert(c == '8'); }
    else { assert(c == '9'); }
}


/// The last `k` decimal digits of `n`, zero-padded on the left.
pub open spec fn digits_k(n: nat, k: nat) -> Seq<char>
    decreases k,
{
    if k == 0 {
        Seq::empty()
    } else {
        digits_k(n / 10, (k - 1) as nat).push(digit_char((n % 10) as int))
    }
}

proof fn lemma_pow10_step(k: nat)
    requires
        k >= 1,
    ensures
        pow(10, k) == 10 * pow(10, (k - 1) as nat),
        pow(10, (k - 1) as nat) >= 1,
{
    reveal(pow);
    lemma_pow_positive(10, (k - 1) as nat);
}

proof fn lemma_div_10(a: int, q: int, r: int)
    requires
        a == 10 * q + r,
        0 <= r < 10,
    ensures
        a / 10 == q,
        a % 10 == r,
{
    vstd::arithmetic::div_mod::lemma_fundamental_div_mod_converse(a, 10, q, r);
}

proof fn lemma_digits_value_bound(x: Seq<char>)
    requires
        all_digits(x),
    ensures
        digits_value(x) < pow(10, x.len()),
    decreases x.len(),
{
    if x.len() == 0 {
        assert(pow(10, 0) == 1) by { reveal_with_fuel(pow, 1); }
    } else {
        let y = x.drop_last();
        assert(all_digits(y)) by {
            assert forall|i: int| 0 <= i < y.len() implies is_digit(#[trigger] y[i]) by {
                assert(y[i] == x[i]);
            }
        }
        lemma_digits_value_bound(y);
        lemma_digit_char_of(x.last());
        lemma_pow10_step(x.len());
    }
}

proof fn lemma_digits_k_of_value(x: Seq<char>)
    requires
        all_digits(x),
    ensures
        digits_k(digits_value(x), x.len()) == x,
    decreases x.len(),
{
    if x.len() > 0 {
        let y = x.drop_last();
        assert(all_digits(y)) by {
            assert forall|i: int| 0 <= i < y.len() implies is_digit(#[trigger] y[i]) by {
                assert(y[i] == x[i]);
            }
        }
        lemma_digits_k_of_value(y);
        lemma_digit_char_of(x.last());
        lemma_div_10(digits_value(x) as int, digits_value(y) as int, digit_of(x.last()));
        assert(x == y.push(x.last()));
    }
}

proof fn lemma_digits_k_shift(x: nat, m: nat, j: nat)
    ensures
        digits_k(x * pow(10, j) as nat, m + j) == digits_k(x, m) + zeros(j),
    decreases j,
{
    if j == 0 {
        assert(pow(10, 0) == 1) by { reveal_with_fuel(pow, 1); }
        assert(digits_k(x, m) + zeros(0) == digits_k(x, m));
    } else {
        lemma_pow10_step(j);
        let n = x * pow(10, j);
        let n1 = x * pow(10, (j - 1) as nat);
        assert(n == 10 * n1 + 0) by (nonlinear_arith)
            requires n == x * pow(10, j), n1 == x * pow(10, (j - 1) as nat), pow(10, j) == 10 * pow(10, (j - 1) as nat);
        assert(n1 >= 0) by (nonlinear_arith)
            requires n1 == x * pow(10, (j - 1) as nat), pow(10, (j - 1) as nat) >= 1, x >= 0;
        lemma_div_10(n, n1, 0);
        lemma_digits_k_shift(x, m, (j - 1) as nat);
        assert(zeros(j) == zeros((j - 1) as nat).push('0'));
        assert(digit_char(0) == '0');
        assert(digits_k(n as nat, m + j) == digits_k(n1 as nat, (m + j - 1) as nat).push('0'));
        assert((digits_k(x, m) + zeros((j - 1) as nat)).push('0') == digits_k(x, m) + zeros(j));
    }
}

proof fn lemma_digits_k_zero(k: nat)
    ensures
        digits_k(0, k) == zeros(k),
    decreases k,
{
    if k > 0 {
        lemma_digits_k_zero((k - 1) as nat);
        assert(digit_char(0) == '0');
        assert(zeros(k) == zeros((k - 1) as nat).push('0'));
    }
}

/// For `0 < r < 10^k`, its last `k` digits are its digits padded with zeros.
proof fn lemma_digits_k_pad(r: nat, k: nat)
    requires
        0 < r < pow(10, k),
    ensures
        dec_digits(r).len() <= k,
        digits_k(r, k) == zeros((k - dec_digits(r).len()) as nat) + dec_digits(r),
    decreases k,
{
    if k == 0 {
        assert(pow(10, 0) == 1) by { reveal_with_fuel(pow, 1); }
    } else {
        lemma_pow10_step(k);
        lemma_div_10(r as int, (r / 10) as int, (r % 10) as int);
        if r < 10 {
            assert(r / 10 == 0);
            lemma_digits_k_zero((k - 1) as nat);
            assert(zeros((k - 1) as nat) + seq![digit_char(r as int)] == zeros((k - 1) as nat).push(digit_char(r as int)));
        } else {
            assert(r / 10 < pow(10, (k - 1) as nat)) by (nonlinear_arith)
                requires r < pow(10, k), pow(10, k) == 10 * pow(10, (k - 1) as nat), r == 10 * (r / 10) + r % 10, 0 <= r % 10 < 10;
            lemma_digits_k_pad(r / 10, (k - 1) as nat);
            let d = dec_digits(r / 10);
            assert(zeros((k - 1 - d.len()) as nat) + d.push(digit_char((r % 10) as int))
                == (zeros((k - 1 - d.len()) as nat) + d).push(digit_char((r % 10) as int)));
        }
    }
}

/// Digits of `a * 10^k + r` for `a > 0` and `r < 10^k`.
proof fn lemma_dec_digits_split(a: nat, r: nat, k: nat)
    requires
        a > 0,
        r < pow(10, k),
    ensures
        dec_digits((a * pow(10, k) + r) as nat) == dec_digits(a) + digits_k(r, k),
    decreases k,
{
    if k == 0 {
        assert(pow(10, 0) == 1) by { reveal_with_fuel(pow, 1); }
        assert(dec_digits(a) + digits_k(r, 0) == dec_digits(a));
    } else {
        lemma_pow10_step(k);
        let lower_pow = pow(10, (k - 1) as nat);
        let n = a * pow(10, k) + r;
        let q = a * lower_pow + r / 10;
        vstd::arithmetic::div_mod::lemma_fundamental_div_mod(r as int, 10);
        assert(n == 10 * q + r % 10) by (nonlinear_arith)
            requires n == a * pow(10, k) + r, pow(10, k) == 10 * lower_pow, q == a * lower_pow + r / 10, r == 10 * (r / 10) + r % 10;
        assert(r / 10 < lower_pow) by (nonlinear_arith)
            requires r < pow(10, k), pow(10, k) == 10 * lower_pow, r == 10 * (r / 10) + r % 10, 0 <= r % 10 < 10;
        assert(n >= 10) by (nonlinear_arith)
            requires n == a * pow(10, k) + r, pow(10, k) == 10 * lower_pow, lower_pow >= 1, a >= 1, r >= 0;
        assert(q >= 0) by (nonlinear_arith)
            requires q == a * lower_pow + r / 10, a >= 1, lower_pow >= 1, r >= 0;
        lemma_div_10(n, q, (r % 10) as int);
        lemma_dec_digits_split(a, r / 10, (k - 1) as nat);
        assert(q == a * pow(10, (k - 1) as nat) + r / 10);
        assert(dec_digits(n as nat) == dec_digits(q as nat).push(digit_char((r % 10) as int)));
        assert((dec_digits(a) + digits_k(r / 10, (k - 1) as nat)).push(digit_char((r % 10) as int))
            == dec_digits(a) + digits_k(r, k));
    }
}

/// A digit string without a superfluous leading zero is the digit string of its value.
proof fn lemma_dec_digits_of_value(x: Seq<char>)
    requires
        x.len() >= 1,
        all_digits(x),
        x[0] == '0' ==> x.len() == 1,
    ensures
        dec_digits(digits_value(x)) == x,
        x[0] != '0' ==> digits_value(x) >= 1,
    decreases x.len(),
{
    let y = x.drop_last();
    lemma_digit_char_of(x.last());
    assert(all_digits(y)) by {
        assert forall|i: int| 0 <= i < y.len() implies is_digit(#[trigger] y[i]) by {
            assert(y[i] == x[i]);
        }
    }
    if x.len() == 1 {
        assert(digits_value(y) == 0);
        assert(x == seq![x.last()]);
        if x[0] != '0' {
            assert(digit_of(x[0]) != 0);
        }
    } else {
        assert(y[0] == x[0]);
        lemma_dec_digits_of_value(y);
        lemma_div_10(digits_value(x) as int, digits_value(y) as int, digit_of(x.last()));
        assert(x == y.push(x.last()));
    }
}

proof fn lemma_trim_zeros_pad(x: Seq<char>, n: nat)
    ensures
        trim_zeros(x + zeros(n)) == trim_zeros(x),
    decreases n,
{
    if n == 0 {
        assert(x + zeros(0) == x);
    } else {
        let y = x + zeros(n);
        assert(y.last() == '0');
        assert(y.drop_last() == x + zeros((n - 1) as nat));
        lemma_trim_zeros_pad(x, (n - 1) as nat);
    }
}

proof fn lemma_point_index(s: Seq<char>)
    ensures
        point_index(s) <= s.len(),
        point_index(s) < s.len() ==> s[point_index(s) as int] == '.',
        forall|i: int| 0 <= i < point_index(s) ==> s[i] != '.',
    decreases s.len(),
{
    if s.len() > 0 && s[0] != '.' {
        let t = s.subrange(1, s.len() as int);
        lemma_point_index(t);
        assert forall|i: int| 0 <= i < point_index(s) implies s[i] != '.' by {
            if i > 0 {
                assert(s[i] == t[i - 1]);
            }
        }
    }
}


/// A decimal in its shortest form: digits before the point without a
/// superfluous leading zero, and, when there is a point, one to 24 digits
/// after it that do not end in zero.
pub open spec fn canonical_decimal(s: Seq<char>) -> bool {
    let i = int_part(s);
    let f = frac_part(s);
    &&& i.len() >= 1
    &&& all_digits(i)
    &&& (i[0] == '0' ==> i.len() == 1)
    &&& all_digits(f)
    &&& f.len() <= 24
    &&& (point_index(s) < s.len() ==> f.len() >= 1 && f.last() != '0')
}

/// Reading a decimal written in its shortest form and printing the value
/// gives back the same text, for every such text that reads without overflow.
pub proof fn lemma_decimal_text_round_trip(s: Seq<char>)
    requires
        canonical_decimal(s),
        parse_fixed(s, 24) is Some,
    ensures
        parse_fixed(s, 24) is Some,
        fixed_point_string(parse_fixed(s, 24)->0, 24) == s,
{
    let i = int_part(s);
    let f = frac_part(s);
    let p = f.len();
    let a = digits_value(i);
    let b = digits_value(f);
    lemma_point_index(s);
    lemma_digits_value_bound(f);
    lemma_pow_adds(10, p, (24 - p) as nat);
    lemma_pow_positive(10, p);
    lemma_pow_positive(10, (24 - p) as nat);
    let pp = pow(10, p);
    let qq = pow(10, (24 - p) as nat);
    let tt = pow(10, 24);
    assert(tt == pp * qq);
    assert(pp <= tt) by (nonlinear_arith)
        requires tt == pp * qq, pp >= 1, qq >= 1;
    let m = a * pp;
    assert(m + b < (a + 1) * tt) by (nonlinear_arith)
        requires m == a * pp, b < pp, pp <= tt, a >= 0;
    assert(m >= 0) by (nonlinear_arith)
        requires m == a * pp, a >= 0, pp >= 1;
    let r = b * qq;
    assert(r < tt) by (nonlinear_arith)
        requires r == b * qq, b < pp, tt == pp * qq, qq >= 1;
    assert(r >= 0) by (nonlinear_arith)
        requires r == b * qq, b >= 0, qq >= 1;
    let v = a * tt + r;
    assert((m + b) * qq == v) by (nonlinear_arith)
        requires m == a * pp, r == b * qq, tt == pp * qq, v == a * tt + r;
    assert(cast_value((m + b) as nat, p, 24) == v) by {
        if p == 24 {
            assert(qq == 1) by { reveal(pow); }
            assert((m + b) * 1 == m + b);
        } else {
            assert(cast_value((m + b) as nat, p, 24) == (m + b) * pow(10, (24 - p) as nat));
        }
    }
    assert(parse_fixed(s, 24) == Some(v as nat));
    lemma_digits_k_shift(b, p, (24 - p) as nat);
    lemma_digits_k_of_value(f);
    assert(digits_k(r as nat, 24) == f + zeros((24 - p) as nat));
    lemma_dec_digits_of_value(i);
    let pi = point_index(s) as int;
    if a > 0 {
        lemma_dec_digits_split(a, r as nat, 24);
        let d = dec_digits(v as nat);
        assert(d == i + (f + zeros((24 - p) as nat)));
        assert(d.subrange(0, d.len() - 24) == i);
        assert(d.subrange(d.len() - 24, d.len() as int) == f + zeros((24 - p) as nat));
        let x = i + seq!['.'] + f;
        assert(point_form(d, 24) == x + zeros((24 - p) as nat));
        lemma_trim_zeros_pad(x, (24 - p) as nat);
        if pi < s.len() {
            assert(trim_zeros(x) == x);
            assert(s == x) by {
                assert(s == s.subrange(0, pi) + seq![s[pi]] + s.subrange(pi + 1, s.len() as int));
            }
        } else {
            assert(f.len() == 0);
            assert(x == i.push('.'));
            assert(trim_zeros(x) == x);
            assert(trim_point(x) == i);
            assert(s == i) by {
                assert(s == s.subrange(0, s.len() as int));
            }
        }
    } else {
        assert(i == seq!['0']) by {
            if i[0] != '0' {
                assert(a >= 1);
            }
        }
        if pi < s.len() {
            let fl = f.drop_last();
            lemma_digit_char_of(f.last());
            assert(digit_of(f.last()) != 0) by {
                if digit_of(f.last()) == 0 {
                    assert(digit_char(0) == '0');
                }
            }
            assert(b >= 1);
            assert(r >= 1) by (nonlinear_arith)
                requires r == b * qq, b >= 1, qq >= 1;
            lemma_digits_k_pad(r as nat, 24);
            let d = dec_digits(r as nat);
            assert(a == 0);
            assert(a * tt == 0) by (nonlinear_arith)
                requires a == 0;
            assert(v == r);
            let z = zeros((24 - d.len()) as nat);
            assert(point_form(d, 24) == seq!['0', '.'] + z + d);
            assert(seq!['0', '.'] + z + d == seq!['0', '.'] + (z + d));
            assert(point_form(d, 24) == seq!['0', '.'] + f + zeros((24 - p) as nat));
            let x = seq!['0', '.'] + f;
            lemma_trim_zeros_pad(x, (24 - p) as nat);
            assert(trim_zeros(x) == x);
            assert(s == x) by {
                assert(s == s.subrange(0, pi) + seq![s[pi]] + s.subrange(pi + 1, s.len() as int));
            }
        } else {
            assert(f.len() == 0);
            assert(b == 0);
            assert(v == 0);
            assert(dec_digits(0) == seq!['0']);
            let x = seq!['0', '.'];
            assert(point_form(seq!['0'], 24) == x + zeros(24)) by {
                assert(zeros(23) + seq!['0'] == zeros(24));
            }
            lemma_trim_zeros_pad(x, 24);
            assert(trim_zeros(x) == x);
            assert(s == seq!['0']) by {
                assert(s == s.subrange(0, s.len() as int));
            }
        }
    }
}

} // verus!
