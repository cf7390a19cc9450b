use vstd::prelude::*;
use crate::num::{den, n_add, n_div, n_mul, n_sub, num_opt, Num};
use crate::snum::{abs, s_add, s_sub_v, s_div, s_mul, s_neg, s_sqrt, s_sub, snum_opt, SNum};
use crate::uint256::U256;

verus! {

/// Snapshot of a pool's trading context.
#[derive(Clone, Copy, Debug, PartialEq, Eq)]
pub struct MpContext {
    pub total_current_usd_amount: Num,
    pub total_asset_percents: Num,
    pub curve_coef: Num,
    pub deviation_percent_limit: Num,
    pub operation_base_fee: Num,
    pub user_cashback_balance: Num,
}

/// Snapshot of one asset of a pool.
#[derive(Clone, Copy, Debug, PartialEq, Eq)]
pub struct MpAsset {
    pub quantity: Num,
    pub price: Num,
    pub collected_fees: Num,
    pub collected_cashbacks: Num,
    pub percent: Num,
}

#[derive(Clone, Copy, Debug, PartialEq, Eq, Structural)]
pub enum MpError {
    NoCurveSolutions,
    DeviationBiggerThanLimit,
    InsufficientBurnQuantity,
    /// A fixed-point step left the representable range (above 2^256 raw, or below zero).
    Overflow,
}

/// `MpContext` with signed fields, for the curve solvers.
#[derive(Clone, Copy, Debug)]
pub struct MpContextSigned {
    pub total_current_usd_amount: SNum,
    pub total_asset_percents: SNum,
    pub curve_coef: SNum,
    pub deviation_percent_limit: SNum,
    pub operation_base_fee: SNum,
    pub user_cashback_balance: SNum,
}

/// `MpAsset` with signed fields, for the curve solvers.
#[derive(Clone, Copy, Debug)]
pub struct MpAssetSigned {
    pub quantity: SNum,
    pub price: SNum,
    pub collected_fees: SNum,
    pub collected_cashbacks: SNum,
    pub percent: SNum,
}

impl MpAsset {
    pub fn sign(&self) -> (r: MpAssetSigned)
        ensures
            r.quantity.val() == self.quantity.val(),
            r.price.val() == self.price.val(),
            r.collected_fees.val() == self.collected_fees.val(),
            r.collected_cashbacks.val() == self.collected_cashbacks.val(),
            r.percent.val() == self.percent.val(),
    {
        MpAssetSigned {
            quantity: SNum::from_num(self.quantity),
            price: SNum::from_num(self.price),
            collected_fees: SNum::from_num(self.collected_fees),
            collected_cashbacks: SNum::from_num(self.collected_cashbacks),
            percent: SNum::from_num(self.percent),
        }
    }
}

impl MpContext {
    pub fn sign(&self) -> (r: MpContextSigned)
        ensures
            r.total_current_usd_amount.val() == self.total_current_usd_amount.val(),
            r.total_asset_percents.val() == self.total_asset_percents.val(),
            r.curve_coef.val() == self.curve_coef.val(),
            r.deviation_percent_limit.val() == self.deviation_percent_limit.val(),
            r.operation_base_fee.val() == self.operation_base_fee.val(),
            r.user_cashback_balance.val() == self.user_cashback_balance.val(),
    {
        MpContextSigned {
            total_current_usd_amount: SNum::from_num(self.total_current_usd_amount),
            total_asset_percents: SNum::from_num(self.total_asset_percents),
            curve_coef: SNum::from_num(self.curve_coef),
            deviation_percent_limit: SNum::from_num(self.deviation_percent_limit),
            operation_base_fee: SNum::from_num(self.operation_base_fee),
            user_cashback_balance: SNum::from_num(self.user_cashback_balance),
        }
    }
}

impl From<(U256, U256, U256, U256, U256, U256)> for MpContext {
    /// Reads the tuple an on-chain pool returns, in field order.
    fn from(v: (U256, U256, U256, U256, U256, U256)) -> (r: MpContext) {
        MpContext {
            total_current_usd_amount: Num { value: v.0 },
            total_asset_percents: Num { value: v.1 },
            curve_coef: Num { value: v.2 },
            deviation_percent_limit: Num { value: v.3 },
            operation_base_fee: Num { value: v.4 },
            user_cashback_balance: Num { value: v.5 },
        }
    }
}

impl vstd::std_specs::convert::FromSpecImpl<(U256, U256, U256, U256, U256, U256)> for MpContext {
    open spec fn obeys_from_spec() -> bool {
        true
    }

    open spec fn from_spec(v: (U256, U256, U256, U256, U256, U256)) -> MpContext {
        MpContext {
            total_current_usd_amount: Num { value: v.0 },
            total_asset_percents: Num { value: v.1 },
            curve_coef: Num { value: v.2 },
            deviation_percent_limit: Num { value: v.3 },
            operation_base_fee: Num { value: v.4 },
            user_cashback_balance: Num { value: v.5 },
        }
    }
}

impl From<(U256, U256, U256, U256, U256)> for MpAsset {
    /// Reads the tuple an on-chain pool returns for an asset, in field order.
    fn from(v: (U256, U256, U256, U256, U256)) -> (r: MpAsset) {
        MpAsset {
            quantity: Num { value: v.0 },
            price: Num { value: v.1 },
            collected_fees: Num { value: v.2 },
            collected_cashbacks: Num { value: v.3 },
            percent: Num { value: v.4 },
        }
    }
}

impl vstd::std_specs::convert::FromSpecImpl<(U256, U256, U256, U256, U256)> for MpAsset {
    open spec fn obeys_from_spec() -> bool {
        true
    }

    open spec fn from_spec(v: (U256, U256, U256, U256, U256)) -> MpAsset {
        MpAsset {
            quantity: Num { value: v.0 },
            price: Num { value: v.1 },
            collected_fees: Num { value: v.2 },
            collected_cashbacks: Num { value: v.3 },
            percent: Num { value: v.4 },
        }
    }
}

/// The plain numbers the pricing formulas read: quantity, price, target
/// percent, pool USD total, sum of percents, curve coefficient, deviation
/// limit and base fee, all raw fixed-point integers.
pub struct Params {
    pub q: int,
    pub p: int,
    pub pct: int,
    pub usd: int,
    pub tap: int,
    pub cc: int,
    pub dl: int,
    pub fee: int,
}

pub open spec fn params(a: MpAsset, c: MpContext) -> Params {
    Params {
        q: a.quantity.val(),
        p: a.price.val(),
        pct: a.percent.val(),
        usd: c.total_current_usd_amount.val(),
        tap: c.total_asset_percents.val(),
        cc: c.curve_coef.val(),
        dl: c.deviation_percent_limit.val(),
        fee: c.operation_base_fee.val(),
    }
}

pub open spec fn signed_params(a: MpAssetSigned, c: MpContextSigned) -> Params {
    Params {
        q: a.quantity.val(),
        p: a.price.val(),
        pct: a.percent.val(),
        usd: c.total_current_usd_amount.val(),
        tap: c.total_asset_percents.val(),
        cc: c.curve_coef.val(),
        dl: c.deviation_percent_limit.val(),
        fee: c.operation_base_fee.val(),
    }
}

/// The target share of the asset, `percent / total_asset_percents`.
pub open spec fn ideal_share(x: Params) -> Option<int> {
    n_div(Some(x.pct), Some(x.tap))
}

/// Deviation of the asset's share from its target after `u` more units enter.
pub open spec fn dev_mint(u: Option<int>, x: Params) -> Option<int> {
    let share = n_div(
        n_mul(n_add(Some(x.q), u), Some(x.p)),
        n_add(Some(x.usd), n_mul(u, Some(x.p))),
    );
    match (share, ideal_share(x)) {
        (Some(s), Some(i)) => Some(abs(s - i)),
        _ => None,
    }
}

/// Deviation of the asset's share from its target after `u` units leave.
pub open spec fn dev_burn(u: Option<int>, x: Params) -> Option<int> {
    let share = n_div(
        n_mul(n_sub(Some(x.q), u), Some(x.p)),
        n_sub(Some(x.usd), n_mul(u, Some(x.p))),
    );
    match (share, ideal_share(x)) {
        (Some(s), Some(i)) => Some(abs(s - i)),
        _ => None,
    }
}

fn ideal_share_exec(asset: &MpAsset, context: &MpContext) -> (r: Option<Num>)
    ensures
        num_opt(r) == ideal_share(params(*asset, *context)),
{
    asset.percent.checked_div(context.total_asset_percents)
}

/// Deviation of the asset's share from its target once `utilisable_quantity`
/// more units are in the pool; `None` on a fixed-point overflow.
pub fn calculate_deviation_mint(utilisable_quantity: Num, asset: &MpAsset, context: &MpContext) -> (r:
    Option<Num>)
    ensures
        num_opt(r) == dev_mint(Some(utilisable_quantity.val()), params(*asset, *context)),
{
    reveal(s_sub_v);
    let held = asset.quantity.checked_add(utilisable_quantity)?;
    let held_usd = held.checked_mul(asset.price)?;
    let added_usd = utilisable_quantity.checked_mul(asset.price)?;
    let total = context.total_current_usd_amount.checked_add(added_usd)?;
    let share = SNum::from_num(held_usd.checked_div(total)?);
    let ideal = SNum::from_num(ideal_share_exec(asset, context)?);
    Some(share.checked_sub(ideal)?.abs())
}

/// Deviation of the asset's share from its target once `supplied_quantity`
/// units have left the pool; `None` on a fixed-point overflow or underflow.
pub fn calculate_deviation_burn(supplied_quantity: Num, asset: &MpAsset, context: &MpContext) -> (r:
    Option<Num>)
    ensures
        num_opt(r) == dev_burn(Some(supplied_quantity.val()), params(*asset, *context)),
{
    reveal(s_sub_v);
    let held = asset.quantity.checked_sub(supplied_quantity)?;
    let held_usd = held.checked_mul(asset.price)?;
    let removed_usd = supplied_quantity.checked_mul(asset.price)?;
    let total = context.total_current_usd_amount.checked_sub(removed_usd)?;
    let share = SNum::from_num(held_usd.checked_div(total)?);
    let ideal = SNum::from_num(ideal_share_exec(asset, context)?);
    Some(share.checked_sub(ideal)?.abs())
}


/// The fixed-point constant `k`.
pub open spec fn k(v: int) -> Option<int> {
    Some(v * den())
}

/// A whole number `v` as a signed fixed-point value.
fn whole(v: u8) -> (r: SNum)
    ensures
        r.val() == v * den(),
{
    let raw = (v as u128) * 1000000000000000000000000u128;
    SNum::from_num(Num::from_raw(U256::from_u128(raw)))
}

/// `1 + operation_base_fee`.
pub open spec fn curve_bf(x: Params) -> Option<int> {
    s_add(k(1), Some(x.fee))
}

/// `1 - percent / total_asset_percents`, the complement of the target weight.
pub open spec fn curve_m(x: Params) -> Option<int> {
    s_sub(k(1), s_div(Some(x.pct), Some(x.tap)))
}

/// `curve_coef / deviation_percent_limit`.
pub open spec fn curve_cp(x: Params) -> Option<int> {
    s_div(Some(x.cc), Some(x.dl))
}

/// `quantity * price - total_usd`.
pub open spec fn curve_t(x: Params) -> Option<int> {
    s_sub(s_mul(Some(x.q), Some(x.p)), Some(x.usd))
}

/// Root selection of the mint solver: a later admissible root wins.
pub open spec fn pick_mint(x1: int, x2: int, above: bool, cmp: int, s: int, cur: int) -> int {
    let ok1 = (if above { x1 > cmp } else { x1 < cmp }) && x1 > 0 && x1 < s;
    let ok2 = (if above { x2 > cmp } else { x2 < cmp }) && x2 > 0 && x2 < s;
    if ok2 {
        x2
    } else if ok1 {
        x1
    } else {
        cur
    }
}

/// Coefficients of one mint branch: `a`, `b`, the discriminant and the cutoff.
pub open spec fn mint_coeffs(s: int, x: Params, bf: int, m: int, cp: int, lower: bool) -> Option<(int, int, int, int)> {
    let p = Some(x.p);
    let usd = Some(x.usd);
    let dlm = if lower { s_sub(Some(x.dl), Some(m)) } else { s_add(Some(x.dl), Some(m)) };
    let t = curve_t(x);
    let cpm = s_mul(Some(cp), Some(m));
    let a = s_mul(if lower { s_add(s_mul(Some(bf), dlm), cpm) } else { s_sub(s_mul(Some(bf), dlm), cpm) }, p);
    let b0 = s_mul(dlm, s_sub(s_mul(usd, Some(bf)), s_mul(Some(s), p)));
    let bt = s_mul(s_sub(Some(bf), Some(cp)), t);
    let bu = s_mul(cpm, usd);
    let b = if lower { s_add(s_sub(b0, bt), bu) } else { s_sub(s_add(b0, bt), bu) };
    let c = s_sub(s_mul(if lower { t } else { s_neg(t) }, Some(s)), s_mul(s_mul(dlm, usd), Some(s)));
    let d = s_sub(s_mul(b, b), s_mul(s_mul(k(4), a), c));
    let cmp = s_div(s_neg(s_add(s_mul(Some(x.q), p), s_mul(usd, s_sub(Some(m), k(1))))), s_mul(Some(m), p));
    match (a, b, d, cmp) {
        (Some(av), Some(bv), Some(dv), Some(cv)) => Some((av, bv, dv, cv)),
        _ => None,
    }
}

/// Roots of one mint branch, given its coefficients `a`, `b`, discriminant
/// `d` and cutoff `cmp`, and the choice among them.
pub open spec fn mint_roots(a: int, b: int, d: int, cmp: int, s: int, lower: bool, cur: int) -> Option<int> {
    if d >= 0 {
        let sq = s_sqrt(Some(d));
        let x1 = s_div(s_div(s_sub(Some(-b), sq), k(2)), Some(a));
        let x2 = s_div(s_div(s_add(Some(-b), sq), k(2)), Some(a));
        match (x1, x2) {
            (Some(r1), Some(r2)) => Some(pick_mint(r1, r2, lower, cmp, s, cur)),
            _ => None,
        }
    } else {
        Some(cur)
    }
}

/// One branch of the mint solver: `lower` is the branch where the new share
/// stays below target (`dlm = D - m`), else `dlm = D + m`. `cur` is the
/// candidate found so far.
pub open spec fn mint_branch(s: int, x: Params, bf: int, m: int, cp: int, lower: bool, cur: int) -> Option<int> {
    match mint_coeffs(s, x, bf, m, cp, lower) {
        Some((a, b, d, cmp)) => mint_roots(a, b, d, cmp, s, lower, cur),
        None => None,
    }
}

/// The utilisable quantity that the deviation curve gives for `s` supplied,
/// 0 where neither branch has an admissible root.
pub open spec fn utilisable_mint(s: int, x: Params) -> Option<int> {
    match (curve_bf(x), curve_m(x), curve_cp(x)) {
        (Some(bf), Some(m), Some(cp)) => match mint_branch(s, x, bf, m, cp, true, 0) {
            Some(u) => mint_branch(s, x, bf, m, cp, false, u),
            None => None,
        },
        _ => None,
    }
}

fn mint_coeffs_exec(
    s: SNum,
    asset: &MpAssetSigned,
    context: &MpContextSigned,
    bf: SNum,
    m: SNum,
    cp: SNum,
    lower: bool,
) -> (r: Option<(SNum, SNum, SNum, SNum)>)
    ensures
        match r {
            Some((a, b, d, cmp)) => mint_coeffs(s.val(), signed_params(*asset, *context), bf.val(), m.val(), cp.val(), lower)
                == Some((a.val(), b.val(), d.val(), cmp.val())),
            None => mint_coeffs(s.val(), signed_params(*asset, *context), bf.val(), m.val(), cp.val(), lower) is None,
        },
{
    let p = asset.price;
    let usd = context.total_current_usd_amount;
    let dl = context.deviation_percent_limit;
    let dlm = if lower { dl.checked_sub(m)? } else { dl.checked_add(m)? };
    let t = asset.quantity.checked_mul(p)?.checked_sub(usd)?;
    let cpm = cp.checked_mul(m)?;
    let bfd = bf.checked_mul(dlm)?;
    let a = if lower { bfd.checked_add(cpm)? } else { bfd.checked_sub(cpm)? }.checked_mul(p)?;
    let b0 = dlm.checked_mul(usd.checked_mul(bf)?.checked_sub(s.checked_mul(p)?)?)?;
    let bt = bf.checked_sub(cp)?.checked_mul(t)?;
    let bu = cpm.checked_mul(usd)?;
    let b = if lower { b0.checked_sub(bt)?.checked_add(bu)? } else { b0.checked_add(bt)?.checked_sub(bu)? };
    let tt = if lower { t } else { t.neg() };
    let c = tt.checked_mul(s)?.checked_sub(dlm.checked_mul(usd)?.checked_mul(s)?)?;
    let d = b.checked_mul(b)?.checked_sub(whole(4).checked_mul(a)?.checked_mul(c)?)?;
    let one = whole(1);
    let cmp = asset.quantity.checked_mul(p)?.checked_add(usd.checked_mul(m.checked_sub(one)?)?)?.neg().checked_div(m.checked_mul(p)?)?;
    Some((a, b, d, cmp))
}

fn mint_roots_exec(a: SNum, b: SNum, d: SNum, cmp: SNum, s: SNum, lower: bool, cur: SNum) -> (r: Option<SNum>)
    ensures
        snum_opt(r) == mint_roots(a.val(), b.val(), d.val(), cmp.val(), s.val(), lower, cur.val()),
{
    if d.ge(&SNum::zero()) {
        let sq = d.checked_sqrt()?;
        let two = whole(2);
        let x1 = b.neg().checked_sub(sq)?.checked_div(two)?.checked_div(a)?;
        let x2 = b.neg().checked_add(sq)?.checked_div(two)?.checked_div(a)?;
        let zero = SNum::zero();
        let mut u = cur;
        if (if lower { x1.gt(&cmp) } else { x1.lt(&cmp) }) && x1.gt(&zero) && x1.lt(&s) {
            u = x1;
        }
        if (if lower { x2.gt(&cmp) } else { x2.lt(&cmp) }) && x2.gt(&zero) && x2.lt(&s) {
            u = x2;
        }
        Some(u)
    } else {
        Some(cur)
    }
}

fn mint_branch_exec(
    s: SNum,
    asset: &MpAssetSigned,
    context: &MpContextSigned,
    bf: SNum,
    m: SNum,
    cp: SNum,
    lower: bool,
    cur: SNum,
) -> (r: Option<SNum>)
    ensures
        snum_opt(r) == mint_branch(s.val(), signed_params(*asset, *context), bf.val(), m.val(), cp.val(), lower, cur.val()),
{
    let (a, b, d, cmp) = mint_coeffs_exec(s, asset, context, bf, m, cp, lower)?;
    mint_roots_exec(a, b, d, cmp, s, lower, cur)
}

/// Solves the deviation curve for the quantity that `supplied_quantity`
/// yields on mint; 0 where no root is admissible, `None` on a fixed-point
/// overflow.
pub fn get_utilisable_mint_quantity(
    supplied_quantity: SNum,
    asset: &MpAssetSigned,
    context: &MpContextSigned,
) -> (r: Option<SNum>)
    ensures
        snum_opt(r) == utilisable_mint(supplied_quantity.val(), signed_params(*asset, *context)),
{
    let one = whole(1);
    let bf = one.checked_add(context.operation_base_fee)?;
    let m = one.checked_sub(asset.percent.checked_div(context.total_asset_percents)?)?;
    let cp = context.curve_coef.checked_div(context.deviation_percent_limit)?;
    let u = mint_branch_exec(supplied_quantity, asset, context, bf, m, cp, true, SNum::zero())?;
    mint_branch_exec(supplied_quantity, asset, context, bf, m, cp, false, u)
}


/// `|m + t / (total_usd - r * price)|`, the deviation the burn solver tests a
/// root `r` against.
pub open spec fn burn_root_dev(r: int, x: Params, m: int, t: int) -> Option<int> {
    match s_add(Some(m), s_div(Some(t), s_sub(Some(x.usd), s_mul(Some(r), Some(x.p))))) {
        Some(v) => Some(abs(v)),
        None => None,
    }
}

/// Root selection of the burn solver, a running minimum: an admissible root
/// `r` replaces the candidate `cur` when `cur` is zero or larger than `r`.
/// A root that is itself zero therefore replaces a positive candidate.
pub open spec fn pick_burn(r: int, ok: bool, cur: int) -> int {
    if ok && (cur > r || cur == 0) {
        r
    } else {
        cur
    }
}

/// Coefficients of one burn branch: `a`, `b`, the discriminant, the cutoff
/// and `t`.
pub open spec fn burn_coeffs(u: int, x: Params, bf: int, m: int, cp: int, lower: bool) -> Option<(int, int, int, int, int)> {
    let p = Some(x.p);
    let usd = Some(x.usd);
    let dlm = if lower { s_sub(Some(x.dl), Some(m)) } else { s_add(Some(x.dl), Some(m)) };
    let t = curve_t(x);
    let cpm = s_mul(Some(cp), Some(m));
    let base = s_add(s_mul(s_mul(Some(bf), p), Some(u)), usd);
    let a = if lower { s_mul(s_neg(dlm), p) } else { s_mul(dlm, p) };
    let b = s_sub(
        s_add(s_mul(if lower { base } else { s_neg(base) }, dlm), s_mul(s_mul(cpm, p), Some(u))),
        t,
    );
    let c1 = s_mul(s_mul(s_mul(if lower { Some(-bf) } else { Some(bf) }, usd), Some(u)), dlm);
    let c = s_sub(s_add(c1, s_mul(s_mul(t, Some(u)), s_sub(Some(bf), Some(cp)))), s_mul(s_mul(cpm, usd), Some(u)));
    let cmp = s_div(s_add(t, s_mul(Some(m), usd)), s_mul(Some(m), p));
    let d = s_sub(s_mul(b, b), s_mul(s_mul(k(4), a), c));
    match (a, b, d, cmp, t) {
        (Some(av), Some(bv), Some(dv), Some(cv), Some(tv)) => Some((av, bv, dv, cv, tv)),
        _ => None,
    }
}

/// Roots of one burn branch, given its coefficients `a`, `b`, discriminant
/// `d`, cutoff `cmp` and `t`, and the choice among them.
pub open spec fn burn_roots(a: int, b: int, d: int, cmp: int, t: int, x: Params, m: int, lower: bool, cur: int) -> Option<int> {
    if d > 0 {
        let sq = s_sqrt(Some(d));
        let x1 = s_div(s_div(s_sub(Some(-b), sq), k(2)), Some(a));
        let x2 = s_div(s_div(s_add(Some(-b), sq), k(2)), Some(a));
        match (x1, x2) {
            (Some(r1), Some(r2)) => match (burn_root_dev(r1, x, m, t), burn_root_dev(r2, x, m, t)) {
                (Some(e1), Some(e2)) => {
                    let ok1 = e1 < abs(x.dl) && (if lower { r1 < cmp } else { r1 > cmp });
                    let ok2 = e2 < abs(x.dl) && (if lower { r2 < cmp } else { r2 > cmp });
                    Some(pick_burn(r2, ok2, pick_burn(r1, ok1, cur)))
                },
                _ => None,
            },
            _ => None,
        }
    } else {
        Some(cur)
    }
}

/// One branch of the burn solver, as `mint_branch` is for mint.
pub open spec fn burn_branch(u: int, x: Params, bf: int, m: int, cp: int, lower: bool, cur: int) -> Option<int> {
    match burn_coeffs(u, x, bf, m, cp, lower) {
        Some((a, b, d, cmp, t)) => burn_roots(a, b, d, cmp, t, x, m, lower, cur),
        None => None,
    }
}

/// The quantity that must leave the pool for `u` to reach the user on burn,
/// 0 where neither branch has an admissible root.
pub open spec fn suppliable_burn(u: int, x: Params) -> Option<int> {
    match (curve_bf(x), curve_m(x), curve_cp(x)) {
        (Some(bf), Some(m), Some(cp)) => match burn_branch(u, x, bf, m, cp, true, 0) {
            Some(v) => burn_branch(u, x, bf, m, cp, false, v),
            None => None,
        },
        _ => None,
    }
}

fn burn_root_dev_exec(r: SNum, asset: &MpAssetSigned, context: &MpContextSigned, m: SNum, t: SNum) -> (res:
    Option<Num>)
    ensures
        num_opt(res) == burn_root_dev(r.val(), signed_params(*asset, *context), m.val(), t.val()),
{
    let left = context.total_current_usd_amount.checked_sub(r.checked_mul(asset.price)?)?;
    Some(m.checked_add(t.checked_div(left)?)?.abs())
}

fn burn_coeffs_exec(
    u: SNum,
    asset: &MpAssetSigned,
    context: &MpContextSigned,
    bf: SNum,
    m: SNum,
    cp: SNum,
    lower: bool,
) -> (r: Option<(SNum, SNum, SNum, SNum, SNum)>)
    ensures
        match r {
            Some((a, b, d, cmp, t)) => burn_coeffs(u.val(), signed_params(*asset, *context), bf.val(), m.val(), cp.val(), lower)
                == Some((a.val(), b.val(), d.val(), cmp.val(), t.val())),
            None => burn_coeffs(u.val(), signed_params(*asset, *context), bf.val(), m.val(), cp.val(), lower) is None,
        },
{
    let p = asset.price;
    let usd = context.total_current_usd_amount;
    let dl = context.deviation_percent_limit;
    let dlm = if lower { dl.checked_sub(m)? } else { dl.checked_add(m)? };
    let t = asset.quantity.checked_mul(p)?.checked_sub(usd)?;
    let cpm = cp.checked_mul(m)?;
    let base = bf.checked_mul(p)?.checked_mul(u)?.checked_add(usd)?;
    let a = if lower { dlm.neg().checked_mul(p)? } else { dlm.checked_mul(p)? };
    let b = if lower { base } else { base.neg() }.checked_mul(dlm)?.checked_add(cpm.checked_mul(p)?.checked_mul(u)?)?.checked_sub(t)?;
    let c1 = if lower { bf.neg() } else { bf }.checked_mul(usd)?.checked_mul(u)?.checked_mul(dlm)?;
    let c = c1.checked_add(t.checked_mul(u)?.checked_mul(bf.checked_sub(cp)?)?)?.checked_sub(cpm.checked_mul(usd)?.checked_mul(u)?)?;
    let cmp = t.checked_add(m.checked_mul(usd)?)?.checked_div(m.checked_mul(p)?)?;
    let d = b.checked_mul(b)?.checked_sub(whole(4).checked_mul(a)?.checked_mul(c)?)?;
    Some((a, b, d, cmp, t))
}

fn burn_roots_exec(
    a: SNum,
    b: SNum,
    d: SNum,
    cmp: SNum,
    t: SNum,
    asset: &MpAssetSigned,
    context: &MpContextSigned,
    m: SNum,
    lower: bool,
    cur: SNum,
) -> (r: Option<SNum>)
    ensures
        snum_opt(r) == burn_roots(a.val(), b.val(), d.val(), cmp.val(), t.val(), signed_params(*asset, *context), m.val(), lower, cur.val()),
{
    let zero = SNum::zero();
    if d.gt(&zero) {
        let sq = d.checked_sqrt()?;
        let two = whole(2);
        let x1 = b.neg().checked_sub(sq)?.checked_div(two)?.checked_div(a)?;
        let x2 = b.neg().checked_add(sq)?.checked_div(two)?.checked_div(a)?;
        let e1 = burn_root_dev_exec(x1, asset, context, m, t)?;
        let e2 = burn_root_dev_exec(x2, asset, context, m, t)?;
        let limit = context.deviation_percent_limit.abs();
        let mut v = cur;
        if e1.lt(&limit) && (if lower { x1.lt(&cmp) } else { x1.gt(&cmp) }) {
            if v.gt(&x1) || v.is_zero() {
                v = x1;
            }
        }
        if e2.lt(&limit) && (if lower { x2.lt(&cmp) } else { x2.gt(&cmp) }) {
            if v.gt(&x2) || v.is_zero() {
                v = x2;
            }
        }
        Some(v)
    } else {
        Some(cur)
    }
}

fn burn_branch_exec(
    u: SNum,
    asset: &MpAssetSigned,
    context: &MpContextSigned,
    bf: SNum,
    m: SNum,
    cp: SNum,
    lower: bool,
    cur: SNum,
) -> (r: Option<SNum>)
    ensures
        snum_opt(r) == burn_branch(u.val(), signed_params(*asset, *context), bf.val(), m.val(), cp.val(), lower, cur.val()),
{
    let (a, b, d, cmp, t) = burn_coeffs_exec(u, asset, context, bf, m, cp, lower)?;
    burn_roots_exec(a, b, d, cmp, t, asset, context, m, lower, cur)
}

/// Solves the deviation curve for the quantity that must be burnt so that
/// `utilisable_quantity` reaches the user; 0 where no root is admissible,
/// `None` on a fixed-point overflow.
pub fn get_suppliable_burn_quantity(
    utilisable_quantity: SNum,
    asset: &MpAssetSigned,
    context: &MpContextSigned,
) -> (r: Option<SNum>)
    ensures
        snum_opt(r) == suppliable_burn(utilisable_quantity.val(), signed_params(*asset, *context)),
{
    let one = whole(1);
    let bf = one.checked_add(context.operation_base_fee)?;
    let m = one.checked_sub(asset.percent.checked_div(context.total_asset_percents)?)?;
    let cp = context.curve_coef.checked_div(context.deviation_percent_limit)?;
    let v = burn_branch_exec(utilisable_quantity, asset, context, bf, m, cp, true, SNum::zero())?;
    burn_branch_exec(utilisable_quantity, asset, context, bf, m, cp, false, v)
}


/// What an operation leaves behind: its result, and the asset's quantity,
/// fees and cashbacks, the pool's USD total and the user's cashback, all raw.
pub struct Outcome {
    pub ret: int,
    pub quantity: int,
    pub usd: int,
    pub fees: int,
    pub cashbacks: int,
    pub user_cashback: int,
}

pub open spec fn commit(
    ret: int,
    quantity: Option<int>,
    usd: Option<int>,
    fees: Option<int>,
    cashbacks: Option<int>,
    user_cashback: Option<int>,
) -> Result<Outcome, MpError> {
    match (quantity, usd, fees, cashbacks, user_cashback) {
        (Some(q), Some(u), Some(f), Some(c), Some(b)) => Ok(
            Outcome { ret, quantity: q, usd: u, fees: f, cashbacks: c, user_cashback: b },
        ),
        _ => Err(MpError::Overflow),
    }
}

/// The operation's result and the state it leaves, as the model states them.
pub open spec fn observed(r: Result<Num, MpError>, c: MpContext, a: MpAsset) -> Result<Outcome, MpError> {
    match r {
        Ok(v) => Ok(
            Outcome {
                ret: v.val(),
                quantity: a.quantity.val(),
                usd: c.total_current_usd_amount.val(),
                fees: a.collected_fees.val(),
                cashbacks: a.collected_cashbacks.val(),
                user_cashback: c.user_cashback_balance.val(),
            },
        ),
        Err(e) => Err(e),
    }
}

/// The fields that no operation changes.
pub open spec fn same_terms(c0: MpContext, a0: MpAsset, c1: MpContext, a1: MpAsset) -> bool {
    &&& c1.total_asset_percents == c0.total_asset_percents
    &&& c1.curve_coef == c0.curve_coef
    &&& c1.deviation_percent_limit == c0.deviation_percent_limit
    &&& c1.operation_base_fee == c0.operation_base_fee
    &&& a1.price == a0.price
    &&& a1.percent == a0.percent
}

/// The share of `cashbacks` released when deviation falls from `old_dev` to `new_dev`.
pub open spec fn released_cashback(cashbacks: int, old_dev: int, new_dev: int) -> Option<int> {
    if old_dev != 0 {
        n_div(n_mul(Some(cashbacks), n_sub(Some(old_dev), Some(new_dev))), Some(old_dev))
    } else {
        Some(0)
    }
}

/// Commit of a mint: `u` units enter, fees grow by `u * base_fee`.
pub open spec fn mint_commit(ret: int, u: int, x: Params, fees: int, cashbacks: Option<int>, user_cashback: Option<int>) -> Result<Outcome, MpError> {
    commit(
        ret,
        n_add(Some(x.q), Some(u)),
        n_add(Some(x.usd), n_mul(Some(u), Some(x.p))),
        n_add(Some(fees), n_mul(Some(u), Some(x.fee))),
        cashbacks,
        user_cashback,
    )
}

/// Commit of a burn: `out` units leave, fees grow by `u * base_fee`.
pub open spec fn burn_commit(ret: int, out: int, u: int, x: Params, fees: int, cashbacks: Option<int>, user_cashback: Option<int>) -> Result<Outcome, MpError> {
    commit(
        ret,
        n_sub(Some(x.q), Some(out)),
        n_sub(Some(x.usd), n_mul(Some(out), Some(x.p))),
        n_add(Some(fees), n_mul(Some(u), Some(x.fee))),
        cashbacks,
        user_cashback,
    )
}

pub open spec fn abs_opt(v: Option<int>) -> Option<int> {
    match v {
        Some(w) => Some(abs(w)),
        None => None,
    }
}

/// Mint of `s` supplied units.
pub open spec fn mint_model(c: MpContext, a: MpAsset, s: int) -> Result<Outcome, MpError> {
    mint_step(params(a, c), a.collected_fees.val(), a.collected_cashbacks.val(), c.user_cashback_balance.val(), s)
}

pub open spec fn mint_step(x: Params, fees: int, cb: int, ucb: int, s: int) -> Result<Outcome, MpError> {
    if x.usd == 0 {
        commit(s, n_add(Some(x.q), Some(s)), n_mul(Some(s), Some(x.p)), Some(fees), Some(cb), Some(ucb))
    } else {
        let wf = abs_opt(utilisable_mint(s, x));
        let nf = n_div(Some(s), n_add(k(1), Some(x.fee)));
        match (wf, nf, dev_mint(wf, x), dev_mint(nf, x), dev_mint(Some(0), x)) {
            (Some(w), Some(n), Some(dw), Some(dn), Some(d0)) => if dn <= d0 {
                let cash = released_cashback(cb, d0, dn);
                mint_commit(n, n, x, fees, n_sub(Some(cb), cash), n_add(Some(ucb), cash))
            } else if dw > x.dl {
                Err(MpError::DeviationBiggerThanLimit)
            } else if w == 0 {
                Err(MpError::NoCurveSolutions)
            } else {
                let excess = n_sub(n_sub(Some(s), Some(w)), n_mul(Some(w), Some(x.fee)));
                mint_commit(w, w, x, fees, n_add(Some(cb), excess), Some(ucb))
            },
            _ => Err(MpError::Overflow),
        }
    }
}

/// Mint that must credit `u` utilisable units; the result is what the user supplies.
pub open spec fn mint_rev_model(c: MpContext, a: MpAsset, u: int) -> Result<Outcome, MpError> {
    mint_rev_step(params(a, c), a.collected_fees.val(), a.collected_cashbacks.val(), c.user_cashback_balance.val(), u)
}

pub open spec fn mint_rev_step(x: Params, fees: int, cb: int, ucb: int, u: int) -> Result<Outcome, MpError> {
    if x.usd == 0 {
        commit(u, n_add(Some(x.q), Some(u)), n_mul(Some(u), Some(x.p)), Some(fees), Some(cb), Some(ucb))
    } else {
        match (dev_mint(Some(u), x), dev_mint(Some(0), x)) {
            (Some(dn), Some(d0)) => if dn <= d0 {
                let cash = released_cashback(cb, d0, dn);
                match n_add(Some(u), n_mul(Some(u), Some(x.fee))) {
                    Some(sup) => mint_commit(sup, u, x, fees, n_sub(Some(cb), cash), n_add(Some(ucb), cash)),
                    None => Err(MpError::Overflow),
                }
            } else if dn > x.dl {
                Err(MpError::DeviationBiggerThanLimit)
            } else {
                let dev_fee = n_div(
                    n_div(n_mul(n_mul(Some(x.cc), Some(dn)), Some(u)), Some(x.dl)),
                    n_sub(Some(x.dl), Some(dn)),
                );
                match n_add(n_add(Some(u), n_mul(Some(u), Some(x.fee))), dev_fee) {
                    Some(sup) => mint_commit(sup, u, x, fees, n_add(Some(cb), dev_fee), Some(ucb)),
                    None => Err(MpError::Overflow),
                }
            },
            _ => Err(MpError::Overflow),
        }
    }
}

/// Burn of `s` supplied units; the result is what reaches the user.
pub open spec fn burn_model(c: MpContext, a: MpAsset, s: int) -> Result<Outcome, MpError> {
    burn_step(params(a, c), a.collected_fees.val(), a.collected_cashbacks.val(), c.user_cashback_balance.val(), s)
}

pub open spec fn burn_step(x: Params, fees: int, cb: int, ucb: int, s: int) -> Result<Outcome, MpError> {
    if s > x.q {
        Err(MpError::InsufficientBurnQuantity)
    } else {
        match (dev_burn(Some(s), x), dev_burn(Some(0), x)) {
            (Some(dn), Some(d0)) => if dn <= d0 {
                let cash = released_cashback(cb, d0, dn);
                match n_div(Some(s), n_add(k(1), Some(x.fee))) {
                    Some(u) => burn_commit(u, s, u, x, fees, n_sub(Some(cb), cash), n_add(Some(ucb), cash)),
                    None => Err(MpError::Overflow),
                }
            } else if dn > x.dl {
                Err(MpError::DeviationBiggerThanLimit)
            } else {
                let ratio = n_div(n_div(n_mul(Some(x.cc), Some(dn)), Some(x.dl)), n_sub(Some(x.dl), Some(dn)));
                match n_div(Some(s), n_add(n_add(k(1), ratio), Some(x.fee))) {
                    Some(u) => {
                        let excess = n_sub(n_sub(Some(s), Some(u)), n_mul(Some(u), Some(x.fee)));
                        burn_commit(u, s, u, x, fees, n_add(Some(cb), excess), Some(ucb))
                    },
                    None => Err(MpError::Overflow),
                }
            },
            _ => Err(MpError::Overflow),
        }
    }
}

/// Burn that must hand `u` units to the user; the result is what leaves the pool.
pub open spec fn burn_rev_model(c: MpContext, a: MpAsset, u: int) -> Result<Outcome, MpError> {
    burn_rev_step(params(a, c), a.collected_fees.val(), a.collected_cashbacks.val(), c.user_cashback_balance.val(), u)
}

pub open spec fn burn_rev_step(x: Params, fees: int, cb: int, ucb: int, u: int) -> Result<Outcome, MpError> {
    if u > x.q {
        Err(MpError::InsufficientBurnQuantity)
    } else {
        let wf = abs_opt(suppliable_burn(u, x));
        let nf = n_mul(Some(u), n_add(k(1), Some(x.fee)));
        match (wf, nf, dev_burn(wf, x), dev_burn(nf, x), dev_burn(Some(0), x)) {
            (Some(w), Some(n), Some(dw), Some(dn), Some(d0)) => if dn <= d0 {
                if n > x.q {
                    Err(MpError::InsufficientBurnQuantity)
                } else {
                    let cash = released_cashback(cb, d0, dn);
                    burn_commit(n, n, u, x, fees, n_sub(Some(cb), cash), n_add(Some(ucb), cash))
                }
            } else if w > x.q {
                Err(MpError::InsufficientBurnQuantity)
            } else if dw > x.dl {
                Err(MpError::DeviationBiggerThanLimit)
            } else if w == 0 {
                Err(MpError::NoCurveSolutions)
            } else {
                let excess = n_sub(n_sub(Some(w), Some(u)), n_mul(Some(u), Some(x.fee)));
                burn_commit(w, w, u, x, fees, n_add(Some(cb), excess), Some(ucb))
            },
            _ => Err(MpError::Overflow),
        }
    }
}

/// `Some` as `Ok`, `None` as an overflow.
fn ovf<T>(o: Option<T>) -> (r: Result<T, MpError>)
    ensures
        o is Some ==> r == Ok::<T, MpError>(o->0),
        o is None ==> r == Err::<T, MpError>(MpError::Overflow),
{
    match o {
        Some(v) => Ok(v),
        None => Err(MpError::Overflow),
    }
}

fn cashback_exec(cashbacks: Num, old_dev: Num, new_dev: Num) -> (r: Option<Num>)
    ensures
        num_opt(r) == released_cashback(cashbacks.val(), old_dev.val(), new_dev.val()),
{
    if !old_dev.is_zero() {
        cashbacks.checked_mul(old_dev.checked_sub(new_dev)?)?.checked_div(old_dev)
    } else {
        Some(Num::zero())
    }
}


impl MpContext {
    /// Mints from `supplied_quantity` units of `asset`; returns the units
    /// credited toward shares. On an error nothing changes.
    pub fn mint(&mut self, asset: &mut MpAsset, supplied_quantity: Num) -> (r: Result<Num, MpError>)
        ensures
            observed(r, *final(self), *final(asset)) == mint_model(*old(self), *old(asset), supplied_quantity.val()),
            same_terms(*old(self), *old(asset), *final(self), *final(asset)),
            r is Err ==> *final(self) == *old(self) && *final(asset) == *old(asset),
    {
        let s = supplied_quantity;
        if self.total_current_usd_amount.is_zero() {
            let usd = ovf(s.checked_mul(asset.price))?;
            let q = ovf(asset.quantity.checked_add(s))?;
            self.total_current_usd_amount = usd;
            asset.quantity = q;
            return Ok(s);
        }
        let fee = self.operation_base_fee;
        let solved = ovf(get_utilisable_mint_quantity(SNum::from_num(s), &asset.sign(), &self.sign()))?;
        let with_fees = solved.abs();
        let no_fees = ovf(s.checked_div(ovf(Num::one().checked_add(fee))?))?;
        let dev_with_fees = ovf(calculate_deviation_mint(with_fees, asset, self))?;
        let dev_no_fees = ovf(calculate_deviation_mint(no_fees, asset, self))?;
        let dev_old = ovf(calculate_deviation_mint(Num::zero(), asset, self))?;
        let u;
        let cashbacks;
        let user_cashback;
        if dev_no_fees.le(&dev_old) {
            let cash = ovf(cashback_exec(asset.collected_cashbacks, dev_old, dev_no_fees))?;
            u = no_fees;
            cashbacks = ovf(asset.collected_cashbacks.checked_sub(cash))?;
            user_cashback = ovf(self.user_cashback_balance.checked_add(cash))?;
        } else {
            if dev_with_fees.gt(&self.deviation_percent_limit) {
                return Err(MpError::DeviationBiggerThanLimit);
            }
            if with_fees.is_zero() {
                return Err(MpError::NoCurveSolutions);
            }
            u = with_fees;
            let excess = ovf(ovf(s.checked_sub(u))?.checked_sub(ovf(u.checked_mul(fee))?))?;
            cashbacks = ovf(asset.collected_cashbacks.checked_add(excess))?;
            user_cashback = self.user_cashback_balance;
        }
        let q = ovf(asset.quantity.checked_add(u))?;
        let usd = ovf(self.total_current_usd_amount.checked_add(ovf(u.checked_mul(asset.price))?))?;
        let fees = ovf(asset.collected_fees.checked_add(ovf(u.checked_mul(fee))?))?;
        asset.quantity = q;
        asset.collected_fees = fees;
        asset.collected_cashbacks = cashbacks;
        self.total_current_usd_amount = usd;
        self.user_cashback_balance = user_cashback;
        Ok(u)
    }

    /// Mints so that `utilisable_quantity` units are credited toward shares;
    /// returns the units the user must supply. On an error nothing changes.
    pub fn mint_rev(&mut self, asset: &mut MpAsset, utilisable_quantity: Num) -> (r: Result<Num, MpError>)
        ensures
            observed(r, *final(self), *final(asset)) == mint_rev_model(*old(self), *old(asset), utilisable_quantity.val()),
            same_terms(*old(self), *old(asset), *final(self), *final(asset)),
            r is Err ==> *final(self) == *old(self) && *final(asset) == *old(asset),
    {
        let u = utilisable_quantity;
        if self.total_current_usd_amount.is_zero() {
            let usd = ovf(u.checked_mul(asset.price))?;
            let q = ovf(asset.quantity.checked_add(u))?;
            self.total_current_usd_amount = usd;
            asset.quantity = q;
            return Ok(u);
        }
        let fee = self.operation_base_fee;
        let dl = self.deviation_percent_limit;
        let dev_new = ovf(calculate_deviation_mint(u, asset, self))?;
        let dev_old = ovf(calculate_deviation_mint(Num::zero(), asset, self))?;
        let supplied;
        let cashbacks;
        let user_cashback;
        if dev_new.le(&dev_old) {
            let cash = ovf(cashback_exec(asset.collected_cashbacks, dev_old, dev_new))?;
            supplied = ovf(u.checked_add(ovf(u.checked_mul(fee))?))?;
            cashbacks = ovf(asset.collected_cashbacks.checked_sub(cash))?;
            user_cashback = ovf(self.user_cashback_balance.checked_add(cash))?;
        } else {
            if dev_new.gt(&dl) {
                return Err(MpError::DeviationBiggerThanLimit);
            }
            let scaled = ovf(ovf(self.curve_coef.checked_mul(dev_new))?.checked_mul(u))?;
            let dev_fee = ovf(ovf(scaled.checked_div(dl))?.checked_div(ovf(dl.checked_sub(dev_new))?))?;
            supplied = ovf(ovf(u.checked_add(ovf(u.checked_mul(fee))?))?.checked_add(dev_fee))?;
            cashbacks = ovf(asset.collected_cashbacks.checked_add(dev_fee))?;
            user_cashback = self.user_cashback_balance;
        }
        let q = ovf(asset.quantity.checked_add(u))?;
        let usd = ovf(self.total_current_usd_amount.checked_add(ovf(u.checked_mul(asset.price))?))?;
        let fees = ovf(asset.collected_fees.checked_add(ovf(u.checked_mul(fee))?))?;
        asset.quantity = q;
        asset.collected_fees = fees;
        asset.collected_cashbacks = cashbacks;
        self.total_current_usd_amount = usd;
        self.user_cashback_balance = user_cashback;
        Ok(supplied)
    }

    /// Burns `supplied_quantity` units of `asset`; returns the units that
    /// reach the user. On an error nothing changes.
    pub fn burn(&mut self, asset: &mut MpAsset, supplied_quantity: Num) -> (r: Result<Num, MpError>)
        ensures
            observed(r, *final(self), *final(asset)) == burn_model(*old(self), *old(asset), supplied_quantity.val()),
            same_terms(*old(self), *old(asset), *final(self), *final(asset)),
            r is Err ==> *final(self) == *old(self) && *final(asset) == *old(asset),
    {
        let s = supplied_quantity;
        if asset.quantity.lt(&s) {
            return Err(MpError::InsufficientBurnQuantity);
        }
        let fee = self.operation_base_fee;
        let dl = self.deviation_percent_limit;
        let dev_new = ovf(calculate_deviation_burn(s, asset, self))?;
        let dev_old = ovf(calculate_deviation_burn(Num::zero(), asset, self))?;
        let u;
        let cashbacks;
        let user_cashback;
        if dev_new.le(&dev_old) {
            let cash = ovf(cashback_exec(asset.collected_cashbacks, dev_old, dev_new))?;
            u = ovf(s.checked_div(ovf(Num::one().checked_add(fee))?))?;
            cashbacks = ovf(asset.collected_cashbacks.checked_sub(cash))?;
            user_cashback = ovf(self.user_cashback_balance.checked_add(cash))?;
        } else {
            if dev_new.gt(&dl) {
                return Err(MpError::DeviationBiggerThanLimit);
            }
            let scaled = ovf(self.curve_coef.checked_mul(dev_new))?;
            let ratio = ovf(ovf(scaled.checked_div(dl))?.checked_div(ovf(dl.checked_sub(dev_new))?))?;
            let divisor = ovf(ovf(Num::one().checked_add(ratio))?.checked_add(fee))?;
            u = ovf(s.checked_div(divisor))?;
            let excess = ovf(ovf(s.checked_sub(u))?.checked_sub(ovf(u.checked_mul(fee))?))?;
            cashbacks = ovf(asset.collected_cashbacks.checked_add(excess))?;
            user_cashback = self.user_cashback_balance;
        }
        let q = ovf(asset.quantity.checked_sub(s))?;
        let usd = ovf(self.total_current_usd_amount.checked_sub(ovf(s.checked_mul(asset.price))?))?;
        let fees = ovf(asset.collected_fees.checked_add(ovf(u.checked_mul(fee))?))?;
        asset.quantity = q;
        asset.collected_fees = fees;
        asset.collected_cashbacks = cashbacks;
        self.total_current_usd_amount = usd;
        self.user_cashback_balance = user_cashback;
        Ok(u)
    }

    /// Burns so that `utilisable_quantity` units reach the user; returns the
    /// units taken from the pool. On an error nothing changes.
    pub fn burn_rev(&mut self, asset: &mut MpAsset, utilisable_quantity: Num) -> (r: Result<Num, MpError>)
        ensures
            observed(r, *final(self), *final(asset)) == burn_rev_model(*old(self), *old(asset), utilisable_quantity.val()),
            same_terms(*old(self), *old(asset), *final(self), *final(asset)),
            r is Err ==> *final(self) == *old(self) && *final(asset) == *old(asset),
    {
        let u = utilisable_quantity;
        if asset.quantity.lt(&u) {
            return Err(MpError::InsufficientBurnQuantity);
        }
        let fee = self.operation_base_fee;
        let solved = ovf(get_suppliable_burn_quantity(SNum::from_num(u), &asset.sign(), &self.sign()))?;
        let with_fees = solved.abs();
        let no_fees = ovf(u.checked_mul(ovf(Num::one().checked_add(fee))?))?;
        let dev_with_fees = ovf(calculate_deviation_burn(with_fees, asset, self))?;
        let dev_no_fees = ovf(calculate_deviation_burn(no_fees, asset, self))?;
        let dev_old = ovf(calculate_deviation_burn(Num::zero(), asset, self))?;
        let supplied;
        let cashbacks;
        let user_cashback;
        if dev_no_fees.le(&dev_old) {
            supplied = no_fees;
            if asset.quantity.lt(&supplied) {
                return Err(MpError::InsufficientBurnQuantity);
            }
            let cash = ovf(cashback_exec(asset.collected_cashbacks, dev_old, dev_no_fees))?;
            cashbacks = ovf(asset.collected_cashbacks.checked_sub(cash))?;
            user_cashback = ovf(self.user_cashback_balance.checked_add(cash))?;
        } else {
            supplied = with_fees;
            if asset.quantity.lt(&supplied) {
                return Err(MpError::InsufficientBurnQuantity);
            }
            if dev_with_fees.gt(&self.deviation_percent_limit) {
                return Err(MpError::DeviationBiggerThanLimit);
            }
            if with_fees.is_zero() {
                return Err(MpError::NoCurveSolutions);
            }
            let excess = ovf(ovf(supplied.checked_sub(u))?.checked_sub(ovf(u.checked_mul(fee))?))?;
            cashbacks = ovf(asset.collected_cashbacks.checked_add(excess))?;
            user_cashback = self.user_cashback_balance;
        }
        let q = ovf(asset.quantity.checked_sub(supplied))?;
        let usd = ovf(self.total_current_usd_amount.checked_sub(ovf(supplied.checked_mul(asset.price))?))?;
        let fees = ovf(asset.collected_fees.checked_add(ovf(u.checked_mul(fee))?))?;
        asset.quantity = q;
        asset.collected_fees = fees;
        asset.collected_cashbacks = cashbacks;
        self.total_current_usd_amount = usd;
        self.user_cashback_balance = user_cashback;
        Ok(supplied)
    }
}

} // verus!
