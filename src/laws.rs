use vstd::prelude::*;
use crate::core_math::{
    burn_model, burn_rev_model, dev_burn, dev_mint, k, mint_model, mint_rev_model, params, MpAsset,
    MpContext, MpError, Outcome,
};
use crate::num::{den, n_add, n_add_v, n_div, n_div_v, n_mul, n_mul_v, n_sub_v, Num};
use crate::snum::{is_isqrt, isqrt, lemma_isqrt_unique, s_add, s_add_v, s_neg, s_fits, SNum};
use crate::uint256::u256_bound;

verus! {

/// Multiplying by `b` and dividing by `b` gives `a` back whenever the
/// product is exact at 24 digits and representable.
pub proof fn lemma_mul_div_round_trip(a: Num, b: Num)
    requires
        b.val() != 0,
        (a.val() * b.val() / den() as int) < u256_bound(),
        (a.val() * b.val()) % (den() as int) == 0,
    ensures
        n_div(n_mul(Some(a.val()), Some(b.val())), Some(b.val())) == Some(a.val()),
{
    reveal(n_mul_v);
    reveal(n_div_v);
    let x = a.val();
    let y = b.val();
    let d = den() as int;
    let p = x * y / d;
    assert(p * d == x * y) by (nonlinear_arith)
        requires (x * y) % d == 0, d > 0, p == x * y / d;
    assert(p * d / y == x) by (nonlinear_arith)
        requires p * d == x * y, y > 0;
}

/// The square root of `x * x` is `x` whenever the square is exact at 24 digits.
pub proof fn lemma_sqrt_of_square(x: Num)
    requires
        (x.val() * x.val() / den() as int) < u256_bound(),
        (x.val() * x.val()) % (den() as int) == 0,
    ensures
        n_mul(Some(x.val()), Some(x.val())) == Some(x.val() * x.val() / den() as int),
        isqrt((x.val() * x.val() / den() as int) * den()) == x.val(),
{
    reveal(n_mul_v);
    let v = x.val();
    let d = den() as int;
    let p = v * v / d;
    assert(p * d == v * v) by (nonlinear_arith)
        requires (v * v) % d == 0, d > 0, p == v * v / d;
    assert(v * v < (v + 1) * (v + 1)) by (nonlinear_arith)
        requires v >= 0;
    assert(is_isqrt(v, p * d));
    lemma_isqrt_unique(v, p * d);
}

/// `-x + x` is zero, and zero is its own negation.
pub proof fn lemma_neg_add_cancels(x: SNum)
    requires
        s_fits(x.val()),
    ensures
        s_add(s_neg(Some(x.val())), Some(x.val())) == Some(0int),
        s_neg(Some(0int)) == Some(0int),
{
    reveal(s_add_v);
}

/// A mint that leaves the touched asset no further from its target (the
/// branch without a deviation fee).
pub open spec fn mint_improves(c: MpContext, a: MpAsset, s: int) -> bool {
    let x = params(a, c);
    let nf = n_div(Some(s), n_add(k(1), Some(x.fee)));
    match (dev_mint(nf, x), dev_mint(Some(0), x)) {
        (Some(dn), Some(d0)) => dn <= d0,
        _ => false,
    }
}

/// A burn that leaves the touched asset no further from its target.
pub open spec fn burn_improves(c: MpContext, a: MpAsset, s: int) -> bool {
    let x = params(a, c);
    match (dev_burn(Some(s), x), dev_burn(Some(0), x)) {
        (Some(dn), Some(d0)) => dn <= d0,
        _ => false,
    }
}

/// An improving mint credits `supplied / (1 + base_fee)` and moves cashback
/// from the asset to the user: their sum does not change. Only a fixed-point
/// overflow can stop it.
pub proof fn lemma_mint_cashback_conserved(c: MpContext, a: MpAsset, s: int)
    requires
        c.total_current_usd_amount.val() != 0,
        mint_improves(c, a, s),
    ensures
        mint_model(c, a, s) is Ok || mint_model(c, a, s) == Err::<Outcome, MpError>(MpError::Overflow),
        mint_model(c, a, s) is Ok ==> Some(mint_model(c, a, s)->Ok_0.ret) == n_div(
            Some(s),
            n_add(k(1), Some(c.operation_base_fee.val())),
        ),
        mint_model(c, a, s) is Ok ==> mint_model(c, a, s)->Ok_0.cashbacks + mint_model(c, a, s)->Ok_0.user_cashback
            == a.collected_cashbacks.val() + c.user_cashback_balance.val(),
{
    reveal(n_add_v);
    reveal(n_sub_v);
}

/// An improving burn hands out `supplied / (1 + base_fee)` and moves
/// cashback from the asset to the user: their sum does not change. Only a
/// fixed-point overflow can stop it.
pub proof fn lemma_burn_cashback_conserved(c: MpContext, a: MpAsset, s: int)
    requires
        s <= a.quantity.val(),
        burn_improves(c, a, s),
    ensures
        burn_model(c, a, s) is Ok || burn_model(c, a, s) == Err::<Outcome, MpError>(MpError::Overflow),
        burn_model(c, a, s) is Ok ==> Some(burn_model(c, a, s)->Ok_0.ret) == n_div(
            Some(s),
            n_add(k(1), Some(c.operation_base_fee.val())),
        ),
        burn_model(c, a, s) is Ok ==> burn_model(c, a, s)->Ok_0.cashbacks + burn_model(c, a, s)->Ok_0.user_cashback
            == a.collected_cashbacks.val() + c.user_cashback_balance.val(),
{
    reveal(n_add_v);
    reveal(n_sub_v);
}

proof fn lemma_nonneg_ops(x: int, y: int)
    requires
        x >= 0,
        y >= 0,
    ensures
        n_mul_v(x, y) is Some ==> n_mul_v(x, y)->0 >= 0,
        n_div_v(x, y) is Some ==> n_div_v(x, y)->0 >= 0,
        n_add_v(x, y) is Some ==> n_add_v(x, y)->0 >= x,
{
    reveal(n_mul_v);
    reveal(n_div_v);
    reveal(n_add_v);
    assert(x * y >= 0) by (nonlinear_arith)
        requires x >= 0, y >= 0;
    assert(x * den() >= 0) by (nonlinear_arith)
        requires x >= 0;
}

proof fn lemma_nonneg_facts()
    ensures
        forall|x: int, y: int| x >= 0 && y >= 0 && #[trigger] n_mul_v(x, y) is Some ==> n_mul_v(x, y)->0 >= 0,
        forall|x: int, y: int| x >= 0 && y >= 0 && #[trigger] n_div_v(x, y) is Some ==> n_div_v(x, y)->0 >= 0,
        forall|x: int, y: int| x >= 0 && y >= 0 && #[trigger] n_add_v(x, y) is Some ==> n_add_v(x, y)->0 >= x,
        forall|x: int, y: int| #[trigger] n_sub_v(x, y) is Some ==> n_sub_v(x, y)->0 >= 0,
{
    reveal(n_sub_v);
    assert forall|x: int, y: int| x >= 0 && y >= 0 implies (#[trigger] n_mul_v(x, y) is Some ==> n_mul_v(x, y)->0 >= 0) by {
        lemma_nonneg_ops(x, y);
    }
    assert forall|x: int, y: int| x >= 0 && y >= 0 implies (#[trigger] n_div_v(x, y) is Some ==> n_div_v(x, y)->0 >= 0) by {
        lemma_nonneg_ops(x, y);
    }
    assert forall|x: int, y: int| x >= 0 && y >= 0 implies (#[trigger] n_add_v(x, y) is Some ==> n_add_v(x, y)->0 >= x) by {
        lemma_nonneg_ops(x, y);
    }
}

/// A mint never lowers the asset's collected fees.
pub proof fn lemma_mint_fees_never_decrease(c: MpContext, a: MpAsset, q: Num)
    ensures
        mint_model(c, a, q.val()) is Ok ==> mint_model(c, a, q.val())->Ok_0.fees >= a.collected_fees.val(),
{
    lemma_nonneg_facts();
}

/// A reversed mint never lowers the asset's collected fees.
pub proof fn lemma_mint_rev_fees_never_decrease(c: MpContext, a: MpAsset, q: Num)
    ensures
        mint_rev_model(c, a, q.val()) is Ok ==> mint_rev_model(c, a, q.val())->Ok_0.fees >= a.collected_fees.val(),
{
    lemma_nonneg_facts();
}

/// A burn never lowers the asset's collected fees.
pub proof fn lemma_burn_fees_never_decrease(c: MpContext, a: MpAsset, q: Num)
    ensures
        burn_model(c, a, q.val()) is Ok ==> burn_model(c, a, q.val())->Ok_0.fees >= a.collected_fees.val(),
{
    lemma_nonneg_facts();
}

/// A reversed burn never lowers the asset's collected fees.
pub proof fn lemma_burn_rev_fees_never_decrease(c: MpContext, a: MpAsset, q: Num)
    ensures
        burn_rev_model(c, a, q.val()) is Ok ==> burn_rev_model(c, a, q.val())->Ok_0.fees >= a.collected_fees.val(),
{
    lemma_nonneg_facts();
}

/// On an empty pool a mint is a plain deposit: everything supplied counts,
/// the pool's USD total becomes `supplied * price`, and fees and cashbacks
/// stay as they were. It succeeds whenever those two values fit.
pub proof fn lemma_mint_empty_pool(c: MpContext, a: MpAsset, s: Num)
    requires
        c.total_current_usd_amount.val() == 0,
    ensures
        n_mul(Some(s.val()), Some(a.price.val())) is Some && a.quantity.val() + s.val() < u256_bound()
            ==> mint_model(c, a, s.val()) is Ok,
        mint_model(c, a, s.val()) is Ok || mint_model(c, a, s.val()) == Err::<Outcome, MpError>(MpError::Overflow),
        mint_model(c, a, s.val()) is Ok ==> ({
            let o = mint_model(c, a, s.val())->Ok_0;
            &&& o.ret == s.val()
            &&& Some(o.usd) == n_mul(Some(s.val()), Some(a.price.val()))
            &&& o.quantity == a.quantity.val() + s.val()
            &&& o.fees == a.collected_fees.val()
            &&& o.cashbacks == a.collected_cashbacks.val()
            &&& o.user_cashback == c.user_cashback_balance.val()
        }),
{
    reveal(n_add_v);
}

} // verus!
