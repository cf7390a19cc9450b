use vstd::prelude::*;
use crate::core_math::{
    burn_rev_step, burn_step, mint_rev_step, mint_step, params, MpAsset, MpContext, MpError, Params,
};
use crate::num::{n_add, n_div, n_mul, num_opt, Num};

verus! {

/// Which side of a trade the user fixes: what goes in, or what comes out.
#[derive(Clone, Copy, Debug)]
pub enum SidedQuantity {
    QuantityIn(Num),
    QuantityOut(Num),
}

/// Tolerance applied to the computed amount, as a fraction (`0.10` is 10%).
#[derive(Clone, Copy, Debug)]
pub enum Slippage {
    Percent(Num),
}

/// Deadline of a transaction: blocks from now, or an absolute block.
#[derive(Clone, Copy, Debug)]
pub enum Deadline {
    BlockInterval(Num),
    Block(Num),
}

#[derive(Clone, Debug)]
pub struct MintTxnParams {
    pub pool_address: String,
    pub asset_in_address: String,
    pub shares: Num,
    pub amount_in_max: Num,
    pub receiver_address: String,
    pub deadline: Num,
}

#[derive(Clone, Debug)]
pub struct BurnTxnParams {
    pub pool_address: String,
    pub asset_out_address: String,
    pub shares: Num,
    pub amount_out_min: Num,
    pub receiver_address: String,
    pub deadline: Num,
}

#[derive(Clone, Debug)]
pub struct SwapTxnParams {
    pub pool_address: String,
    pub asset_in_address: String,
    pub asset_out_address: String,
    pub shares: Num,
    pub amount_in_max: Num,
    pub amount_out_min: Num,
    pub receiver_address: String,
    pub deadline: Num,
}

/// Configuration of one user flow: inputs, fetched snapshots, and the
/// transaction parameters computed from them.
#[derive(Clone, Debug)]
pub struct ActionSettings {
    pub quantity: Option<SidedQuantity>,
    pub slippage: Option<Slippage>,
    pub asset_in: Option<MpAsset>,
    pub asset_out: Option<MpAsset>,
    pub context: Option<MpContext>,
    pub total_supply: Option<Num>,
    pub pool_address: Option<String>,
    pub asset_in_address: Option<String>,
    pub asset_out_address: Option<String>,
    pub receiver_address: Option<String>,
    pub router_address: Option<String>,
    pub deadline: Option<Deadline>,
    pub mint_params: Option<MintTxnParams>,
    pub burn_params: Option<BurnTxnParams>,
    pub swap_params: Option<SwapTxnParams>,
}

/// Upper bound on an amount paid in: `x + x * p` under a percent slippage,
/// `x` without one.
pub open spec fn with_slippage(x: int, slippage: Option<Slippage>) -> Option<int> {
    match slippage {
        Some(Slippage::Percent(p)) => n_add(Some(x), n_mul(Some(x), Some(p.val()))),
        None => Some(x),
    }
}

/// Lower bound on an amount received: `x - x * p` under a percent slippage
/// (zero when `p` is above one), `x` without one.
pub open spec fn less_slippage(x: int, slippage: Option<Slippage>) -> Option<int> {
    match slippage {
        Some(Slippage::Percent(p)) => match n_mul(Some(x), Some(p.val())) {
            Some(m) => Some(if m <= x { x - m } else { 0 }),
            None => None,
        },
        None => Some(x),
    }
}

/// The deadline block: absolute, `block` plus the interval, or zero when unset.
pub open spec fn deadline_value(deadline: Option<Deadline>, block: int) -> Option<int> {
    match deadline {
        Some(Deadline::Block(b)) => Some(b.val()),
        Some(Deadline::BlockInterval(i)) => n_add(Some(block), Some(i.val())),
        None => Some(0),
    }
}

/// Shares worth `u` units: `u * price * total_supply / usd`.
pub open spec fn shares_for(u: int, price: int, ts: int, usd: int) -> Option<int> {
    n_div(n_mul(n_mul(Some(u), Some(price)), Some(ts)), Some(usd))
}

/// `shares * usd / d1 / d2`, units worth `shares`.
pub open spec fn units_for(shares: int, usd: int, d1: int, d2: int) -> Option<int> {
    n_div(n_div(n_mul(Some(shares), Some(usd)), Some(d1)), Some(d2))
}

/// `x` with its pool USD total replaced.
pub open spec fn with_usd(x: Params, usd: int) -> Params {
    Params { usd, ..x }
}

/// Shares and maximal amount in of a mint.
pub open spec fn mint_quote(q: SidedQuantity, slippage: Option<Slippage>, c: MpContext, a: MpAsset, ts: int) -> Result<(int, int), MpError> {
    let x = params(a, c);
    let fees = a.collected_fees.val();
    let cb = a.collected_cashbacks.val();
    let ucb = c.user_cashback_balance.val();
    match q {
        SidedQuantity::QuantityIn(amount) => match mint_step(x, fees, cb, ucb, amount.val()) {
            Ok(o) => match shares_for(o.ret, x.p, ts, o.usd) {
                Some(sh) => Ok((sh, amount.val())),
                None => Err(MpError::Overflow),
            },
            Err(e) => Err(e),
        },
        SidedQuantity::QuantityOut(shares) => match units_for(shares.val(), x.usd, x.p, ts) {
            Some(out) => match mint_rev_step(x, fees, cb, ucb, out) {
                Ok(o) => match with_slippage(o.ret, slippage) {
                    Some(m) => Ok((shares.val(), m)),
                    None => Err(MpError::Overflow),
                },
                Err(e) => Err(e),
            },
            None => Err(MpError::Overflow),
        },
    }
}

/// Shares and minimal amount out of a burn; a slippage lowers the minimum.
pub open spec fn burn_quote(q: SidedQuantity, slippage: Option<Slippage>, c: MpContext, a: MpAsset, ts: int) -> Result<(int, int), MpError> {
    let x = params(a, c);
    let fees = a.collected_fees.val();
    let cb = a.collected_cashbacks.val();
    let ucb = c.user_cashback_balance.val();
    match q {
        SidedQuantity::QuantityIn(shares) => match units_for(shares.val(), x.usd, x.p, ts) {
            Some(amount) => match burn_step(x, fees, cb, ucb, amount) {
                Ok(o) => match less_slippage(o.ret, slippage) {
                    Some(m) => Ok((shares.val(), m)),
                    None => Err(MpError::Overflow),
                },
                Err(e) => Err(e),
            },
            None => Err(MpError::Overflow),
        },
        SidedQuantity::QuantityOut(amount) => match burn_rev_step(x, fees, cb, ucb, amount.val()) {
            Ok(o) => match shares_for(o.ret, x.p, ts, o.usd) {
                Some(sh) => Ok((sh, amount.val())),
                None => Err(MpError::Overflow),
            },
            Err(e) => Err(e),
        },
    }
}

/// Shares, maximal amount in and minimal amount out of a swap: a mint of the
/// input asset followed by a burn of the output asset on the updated pool.
/// Reversed without a slippage, the maximal amount in is the requested
/// amount out.
pub open spec fn swap_quote(q: SidedQuantity, slippage: Option<Slippage>, c: MpContext, ain: MpAsset, aout: MpAsset, ts: int) -> Result<(int, int, int), MpError> {
    let xi = params(ain, c);
    let xo = params(aout, c);
    let ucb = c.user_cashback_balance.val();
    match q {
        SidedQuantity::QuantityIn(amount) => match mint_step(xi, ain.collected_fees.val(), ain.collected_cashbacks.val(), ucb, amount.val()) {
            Ok(o1) => match shares_for(o1.ret, xi.p, ts, o1.usd) {
                Some(sh) => match units_for(sh, o1.usd, ts, xo.p) {
                    Some(burnt) => match burn_step(with_usd(xo, o1.usd), aout.collected_fees.val(), aout.collected_cashbacks.val(), o1.user_cashback, burnt) {
                        Ok(o2) => match less_slippage(o2.ret, slippage) {
                            Some(m) => Ok((sh, amount.val(), m)),
                            None => Err(MpError::Overflow),
                        },
                        Err(e) => Err(e),
                    },
                    None => Err(MpError::Overflow),
                },
                None => Err(MpError::Overflow),
            },
            Err(e) => Err(e),
        },
        SidedQuantity::QuantityOut(amount) => match burn_rev_step(xo, aout.collected_fees.val(), aout.collected_cashbacks.val(), ucb, amount.val()) {
            Ok(o1) => match shares_for(o1.ret, xo.p, ts, o1.usd) {
                Some(sh) => match units_for(sh, o1.usd, ts, xi.p) {
                    Some(minted) => match mint_rev_step(with_usd(xi, o1.usd), ain.collected_fees.val(), ain.collected_cashbacks.val(), o1.user_cashback, minted) {
                        Ok(o2) => match (if slippage is Some { with_slippage(o2.ret, slippage) } else { Some(amount.val()) }) {
                            Some(m) => Ok((sh, m, amount.val())),
                            None => Err(MpError::Overflow),
                        },
                        Err(e) => Err(e),
                    },
                    None => Err(MpError::Overflow),
                },
                None => Err(MpError::Overflow),
            },
            Err(e) => Err(e),
        },
    }
}

fn slippage_exec(x: Num, slippage: Option<Slippage>) -> (r: Option<Num>)
    ensures
        num_opt(r) == with_slippage(x.val(), slippage),
{
    match slippage {
        Some(Slippage::Percent(p)) => x.checked_add(x.checked_mul(p)?),
        None => Some(x),
    }
}

fn less_slippage_exec(x: Num, slippage: Option<Slippage>) -> (r: Option<Num>)
    ensures
        num_opt(r) == less_slippage(x.val(), slippage),
{
    match slippage {
        Some(Slippage::Percent(p)) => {
            let m = x.checked_mul(p)?;
            if m.le(&x) {
                Some(x.sub(m))
            } else {
                Some(Num::zero())
            }
        },
        None => Some(x),
    }
}

fn deadline_exec(deadline: Option<Deadline>, block: Num) -> (r: Option<Num>)
    ensures
        num_opt(r) == deadline_value(deadline, block.val()),
{
    match deadline {
        Some(Deadline::Block(b)) => Some(b),
        Some(Deadline::BlockInterval(i)) => block.checked_add(i),
        None => Some(Num::zero()),
    }
}

fn shares_exec(u: Num, price: Num, ts: Num, usd: Num) -> (r: Option<Num>)
    ensures
        num_opt(r) == shares_for(u.val(), price.val(), ts.val(), usd.val()),
{
    u.checked_mul(price)?.checked_mul(ts)?.checked_div(usd)
}

fn units_exec(shares: Num, usd: Num, d1: Num, d2: Num) -> (r: Option<Num>)
    ensures
        num_opt(r) == units_for(shares.val(), usd.val(), d1.val(), d2.val()),
{
    shares.checked_mul(usd)?.checked_div(d1)?.checked_div(d2)
}

fn overflow<T>(o: Option<T>) -> (r: Result<T, MpError>)
    ensures
        o is Some ==> r == Ok::<T, MpError>(o->0),
        o is None ==> r == Err::<T, MpError>(MpError::Overflow),
{
    match o {
        Some(v) => Ok(v),
        None => Err(MpError::Overflow),
    }
}

pub open spec fn quote_pair(r: Result<(Num, Num), MpError>) -> Result<(int, int), MpError> {
    match r {
        Ok((a, b)) => Ok((a.val(), b.val())),
        Err(e) => Err(e),
    }
}

fn mint_quote_exec(q: SidedQuantity, slippage: Option<Slippage>, c: MpContext, a: MpAsset, ts: Num) -> (r: Result<(Num, Num), MpError>)
    ensures
        quote_pair(r) == mint_quote(q, slippage, c, a, ts.val()),
{
    let mut context = c;
    let mut asset = a;
    match q {
        SidedQuantity::QuantityIn(amount) => {
            let out = context.mint(&mut asset, amount)?;
            let shares = overflow(shares_exec(out, asset.price, ts, context.total_current_usd_amount))?;
            Ok((shares, amount))
        },
        SidedQuantity::QuantityOut(shares) => {
            let out = overflow(units_exec(shares, context.total_current_usd_amount, asset.price, ts))?;
            let amount = context.mint_rev(&mut asset, out)?;
            Ok((shares, overflow(slippage_exec(amount, slippage))?))
        },
    }
}

fn burn_quote_exec(q: SidedQuantity, slippage: Option<Slippage>, c: MpContext, a: MpAsset, ts: Num) -> (r: Result<(Num, Num), MpError>)
    ensures
        quote_pair(r) == burn_quote(q, slippage, c, a, ts.val()),
{
    let mut context = c;
    let mut asset = a;
    match q {
        SidedQuantity::QuantityIn(shares) => {
            let amount = overflow(units_exec(shares, context.total_current_usd_amount, asset.price, ts))?;
            let out = context.burn(&mut asset, amount)?;
            Ok((shares, overflow(less_slippage_exec(out, slippage))?))
        },
        SidedQuantity::QuantityOut(amount) => {
            let taken = context.burn_rev(&mut asset, amount)?;
            let shares = overflow(shares_exec(taken, asset.price, ts, context.total_current_usd_amount))?;
            Ok((shares, amount))
        },
    }
}

pub open spec fn quote_triple(r: Result<(Num, Num, Num), MpError>) -> Result<(int, int, int), MpError> {
    match r {
        Ok((a, b, c)) => Ok((a.val(), b.val(), c.val())),
        Err(e) => Err(e),
    }
}

fn swap_quote_exec(
    q: SidedQuantity,
    slippage: Option<Slippage>,
    c: MpContext,
    ain: MpAsset,
    aout: MpAsset,
    ts: Num,
) -> (r: Result<(Num, Num, Num), MpError>)
    ensures
        quote_triple(r) == swap_quote(q, slippage, c, ain, aout, ts.val()),
{
    let mut context = c;
    let mut asset_in = ain;
    let mut asset_out = aout;
    match q {
        SidedQuantity::QuantityIn(amount) => {
            let minted = context.mint(&mut asset_in, amount)?;
            let shares = overflow(shares_exec(minted, asset_in.price, ts, context.total_current_usd_amount))?;
            let burnt = overflow(units_exec(shares, context.total_current_usd_amount, ts, asset_out.price))?;
            assert(params(asset_out, context) == with_usd(params(aout, c), context.total_current_usd_amount.val()));
            let out = context.burn(&mut asset_out, burnt)?;
            Ok((shares, amount, overflow(less_slippage_exec(out, slippage))?))
        },
        SidedQuantity::QuantityOut(amount) => {
            let taken = context.burn_rev(&mut asset_out, amount)?;
            let shares = overflow(shares_exec(taken, asset_out.price, ts, context.total_current_usd_amount))?;
            let wanted = overflow(units_exec(shares, context.total_current_usd_amount, ts, asset_in.price))?;
            assert(params(asset_in, context) == with_usd(params(ain, c), context.total_current_usd_amount.val()));
            let paid = context.mint_rev(&mut asset_in, wanted)?;
            let amount_in_max = match slippage {
                Some(_) => overflow(slippage_exec(paid, slippage))?,
                None => amount,
            };
            Ok((shares, amount_in_max, amount))
        },
    }
}

/// The text of a set field.
fn text_of(v: &Option<String>) -> (r: String)
    requires
        v is Some,
    ensures
        r == v->0,
{
    match v {
        Some(t) => t.clone(),
        None => String::new(),
    }
}

impl ActionSettings {
    /// A configuration with nothing set.
    pub fn new() -> (r: ActionSettings)
        ensures
            r.quantity is None && r.slippage is None && r.asset_in is None && r.asset_out is None,
            r.context is None && r.total_supply is None && r.deadline is None,
            r.pool_address is None && r.asset_in_address is None && r.asset_out_address is None,
            r.receiver_address is None && r.router_address is None,
            r.mint_params is None && r.burn_params is None && r.swap_params is None,
    {
        ActionSettings {
            quantity: None,
            slippage: None,
            asset_in: None,
            asset_out: None,
            context: None,
            total_supply: None,
            pool_address: None,
            asset_in_address: None,
            asset_out_address: None,
            receiver_address: None,
            router_address: None,
            deadline: None,
            mint_params: None,
            burn_params: None,
            swap_params: None,
        }
    }

    /// The router the transaction goes through.
    pub fn router_address(self, val: String) -> (r: ActionSettings)
        ensures
            r == (ActionSettings { router_address: Some(val), ..self }),
    {
        let mut next = self;
        next.router_address = Some(val);
        next
    }

    /// Fixes what goes in: an asset amount for mint and swap, shares for burn.
    pub fn amount_in(self, val: Num) -> (r: ActionSettings)
        ensures
            r == (ActionSettings { quantity: Some(SidedQuantity::QuantityIn(val)), ..self }),
    {
        let mut next = self;
        next.quantity = Some(SidedQuantity::QuantityIn(val));
        next
    }

    /// Fixes what comes out: shares for mint, an asset amount for burn and swap.
    pub fn amount_out(self, val: Num) -> (r: ActionSettings)
        ensures
            r == (ActionSettings { quantity: Some(SidedQuantity::QuantityOut(val)), ..self }),
    {
        let mut next = self;
        next.quantity = Some(SidedQuantity::QuantityOut(val));
        next
    }

    /// Slippage as a fraction (`0.10` is 10%).
    pub fn slippage_percent(self, val: Num) -> (r: ActionSettings)
        ensures
            r == (ActionSettings { slippage: Some(Slippage::Percent(val)), ..self }),
    {
        let mut next = self;
        next.slippage = Some(Slippage::Percent(val));
        next
    }

    /// The pool's address.
    pub fn pool(self, val: String) -> (r: ActionSettings)
        ensures
            r == (ActionSettings { pool_address: Some(val), ..self }),
    {
        let mut next = self;
        next.pool_address = Some(val);
        next
    }

    /// The address of the asset that goes in.
    pub fn asset_in(self, val: String) -> (r: ActionSettings)
        ensures
            r == (ActionSettings { asset_in_address: Some(val), ..self }),
    {
        let mut next = self;
        next.asset_in_address = Some(val);
        next
    }

    /// The address of the asset that comes out.
    pub fn asset_out(self, val: String) -> (r: ActionSettings)
        ensures
            r == (ActionSettings { asset_out_address: Some(val), ..self }),
    {
        let mut next = self;
        next.asset_out_address = Some(val);
        next
    }

    /// Who receives the result.
    pub fn receiver(self, val: String) -> (r: ActionSettings)
        ensures
            r == (ActionSettings { receiver_address: Some(val), ..self }),
    {
        let mut next = self;
        next.receiver_address = Some(val);
        next
    }

    /// An absolute deadline block.
    pub fn until_block(self, val: Num) -> (r: ActionSettings)
        ensures
            r == (ActionSettings { deadline: Some(Deadline::Block(val)), ..self }),
    {
        let mut next = self;
        next.deadline = Some(Deadline::Block(val));
        next
    }

    /// A deadline relative to the current block.
    pub fn blocks_to_live(self, val: Num) -> (r: ActionSettings)
        ensures
            r == (ActionSettings { deadline: Some(Deadline::BlockInterval(val)), ..self }),
    {
        let mut next = self;
        next.deadline = Some(Deadline::BlockInterval(val));
        next
    }

    /// Computes the parameters of a mint of `asset_in` from the fetched
    /// snapshots; `current_block` resolves a relative deadline.
    pub fn mint(self, current_block: Num) -> (r: Result<ActionSettings, MpError>)
        requires
            self.quantity is Some && self.context is Some && self.total_supply is Some,
            self.asset_in is Some && self.pool_address is Some && self.asset_in_address is Some,
            self.receiver_address is Some,
        ensures
            match mint_quote(self.quantity->0, self.slippage, self.context->0, self.asset_in->0, self.total_supply->0.val()) {
                Ok((shares, amount_in_max)) => match deadline_value(self.deadline, current_block.val()) {
                    Some(deadline) => r is Ok && ({
                        let n = r->Ok_0;
                        let p = n.mint_params->0;
                        &&& n == ActionSettings { mint_params: n.mint_params, ..self }
                        &&& n.mint_params is Some
                        &&& p.pool_address == self.pool_address->0
                        &&& p.asset_in_address == self.asset_in_address->0
                        &&& p.receiver_address == self.receiver_address->0
                        &&& p.shares.val() == shares
                        &&& p.amount_in_max.val() == amount_in_max
                        &&& p.deadline.val() == deadline
                    }),
                    None => r == Err::<ActionSettings, MpError>(MpError::Overflow),
                },
                Err(e) => r == Err::<ActionSettings, MpError>(e),
            },
    {
        let quote = mint_quote_exec(
            self.quantity.unwrap(),
            self.slippage,
            self.context.unwrap(),
            self.asset_in.unwrap(),
            self.total_supply.unwrap(),
        );
        let (shares, amount_in_max) = match quote {
            Ok(v) => v,
            Err(e) => return Err(e),
        };
        let deadline = overflow(deadline_exec(self.deadline, current_block))?;
        let params = MintTxnParams {
            pool_address: text_of(&self.pool_address),
            asset_in_address: text_of(&self.asset_in_address),
            shares,
            amount_in_max,
            receiver_address: text_of(&self.receiver_address),
            deadline,
        };
        let mut next = self;
        next.mint_params = Some(params);
        Ok(next)
    }

    /// Computes the parameters of a burn of `asset_out` from the fetched
    /// snapshots; `current_block` resolves a relative deadline.
    pub fn burn(self, current_block: Num) -> (r: Result<ActionSettings, MpError>)
        requires
            self.quantity is Some && self.context is Some && self.total_supply is Some,
            self.asset_out is Some && self.pool_address is Some && self.asset_out_address is Some,
            self.receiver_address is Some,
        ensures
            match burn_quote(self.quantity->0, self.slippage, self.context->0, self.asset_out->0, self.total_supply->0.val()) {
                Ok((shares, amount_out_min)) => match deadline_value(self.deadline, current_block.val()) {
                    Some(deadline) => r is Ok && ({
                        let n = r->Ok_0;
                        let p = n.burn_params->0;
                        &&& n == ActionSettings { burn_params: n.burn_params, ..self }
                        &&& n.burn_params is Some
                        &&& p.pool_address == self.pool_address->0
                        &&& p.asset_out_address == self.asset_out_address->0
                        &&& p.receiver_address == self.receiver_address->0
                        &&& p.shares.val() == shares
                        &&& p.amount_out_min.val() == amount_out_min
                        &&& p.deadline.val() == deadline
                    }),
                    None => r == Err::<ActionSettings, MpError>(MpError::Overflow),
                },
                Err(e) => r == Err::<ActionSettings, MpError>(e),
            },
    {
        let quote = burn_quote_exec(
            self.quantity.unwrap(),
            self.slippage,
            self.context.unwrap(),
            self.asset_out.unwrap(),
            self.total_supply.unwrap(),
        );
        let (shares, amount_out_min) = match quote {
            Ok(v) => v,
            Err(e) => return Err(e),
        };
        let deadline = overflow(deadline_exec(self.deadline, current_block))?;
        let params = BurnTxnParams {
            pool_address: text_of(&self.pool_address),
            asset_out_address: text_of(&self.asset_out_address),
            shares,
            amount_out_min,
            receiver_address: text_of(&self.receiver_address),
            deadline,
        };
        let mut next = self;
        next.burn_params = Some(params);
        Ok(next)
    }

    /// Computes the parameters of a swap of `asset_in` for `asset_out`;
    /// `current_block` resolves a relative deadline.
    pub fn swap(self, current_block: Num) -> (r: Result<ActionSettings, MpError>)
        requires
            self.quantity is Some && self.context is Some && self.total_supply is Some,
            self.asset_in is Some && self.asset_out is Some && self.pool_address is Some,
            self.asset_in_address is Some && self.asset_out_address is Some,
            self.receiver_address is Some,
        ensures
            match swap_quote(self.quantity->0, self.slippage, self.context->0, self.asset_in->0, self.asset_out->0, self.total_supply->0.val()) {
                Ok((shares, amount_in_max, amount_out_min)) => match deadline_value(self.deadline, current_block.val()) {
                    Some(deadline) => r is Ok && ({
                        let n = r->Ok_0;
                        let p = n.swap_params->0;
                        &&& n == ActionSettings { swap_params: n.swap_params, ..self }
                        &&& n.swap_params is Some
                        &&& p.pool_address == self.pool_address->0
                        &&& p.asset_in_address == self.asset_in_address->0
                        &&& p.asset_out_address == self.asset_out_address->0
                        &&& p.receiver_address == self.receiver_address->0
                        &&& p.shares.val() == shares
                        &&& p.amount_in_max.val() == amount_in_max
                        &&& p.amount_out_min.val() == amount_out_min
                        &&& p.deadline.val() == deadline
                    }),
                    None => r == Err::<ActionSettings, MpError>(MpError::Overflow),
                },
                Err(e) => r == Err::<ActionSettings, MpError>(e),
            },
    {
        let quote = swap_quote_exec(
            self.quantity.unwrap(),
            self.slippage,
            self.context.unwrap(),
            self.asset_in.unwrap(),
            self.asset_out.unwrap(),
            self.total_supply.unwrap(),
        );
        let (shares, amount_in_max, amount_out_min) = match quote {
            Ok(v) => v,
            Err(e) => return Err(e),
        };
        let deadline = overflow(deadline_exec(self.deadline, current_block))?;
        let params = SwapTxnParams {
            pool_address: text_of(&self.pool_address),
            asset_in_address: text_of(&self.asset_in_address),
            asset_out_address: text_of(&self.asset_out_address),
            shares,
            amount_in_max,
            amount_out_min,
            receiver_address: text_of(&self.receiver_address),
            deadline,
        };
        let mut next = self;
        next.swap_params = Some(params);
        Ok(next)
    }
}

} // verus!
