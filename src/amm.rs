use vstd::prelude::*;
use vstd::arithmetic::div_mod::lemma_multiply_divide_le;
use crate::error::ErrorCode;
use crate::market::PredictionMarket;
use crate::position::{LiquidityPosition, UserPosition};
use crate::profile::UserProfile;
use crate::types::{AccountKey, MarketStatus, Outcome};

verus! {

/// The smallest stake a prediction may carry.
pub const MIN_STAKE: u64 = 500;
/// One whole in basis points.
pub const BPS: u64 = 10000;

/// Price of a pool in basis points of the total pool.
pub open spec fn price_bps(pool: int, total: int) -> int {
    pool * 10000 / total
}

/// Volume-weighted average of two prices.
pub open spec fn weighted_price(a0: int, p0: int, a: int, p: int) -> int {
    (a0 * p0 + a * p) / (a0 + a)
}

pub proof fn lemma_price_le_whole(pool: int, total: int)
    requires
        0 <= pool <= total,
        0 < total,
    ensures
        0 <= price_bps(pool, total) <= 10000,
{
    assert(pool * 10000 <= total * 10000) by (nonlinear_arith)
        requires
            pool <= total,
    ;
    assert(0 <= pool * 10000) by (nonlinear_arith)
        requires
            0 <= pool,
    ;
    lemma_multiply_divide_le(pool * 10000, total, 10000);
}

pub proof fn lemma_weighted_price_bounded(a0: int, p0: int, a: int, p: int, hi: int)
    requires
        0 <= a0,
        0 <= a,
        0 < a0 + a,
        0 <= p0 <= hi,
        0 <= p <= hi,
    ensures
        0 <= weighted_price(a0, p0, a, p) <= hi,
{
    assert(a0 * p0 + a * p <= (a0 + a) * hi) by (nonlinear_arith)
        requires
            0 <= a0,
            0 <= a,
            p0 <= hi,
            p <= hi,
    ;
    assert(0 <= a0 * p0 + a * p) by (nonlinear_arith)
        requires
            0 <= a0,
            0 <= a,
            0 <= p0,
            0 <= p,
    ;
    lemma_multiply_divide_le(a0 * p0 + a * p, a0 + a, hi);
}

/// A product of two 64-bit values fits in 128 bits.
pub proof fn lemma_mul_u64_fits(a: int, b: int)
    requires
        0 <= a <= u64::MAX,
        0 <= b <= u64::MAX,
    ensures
        0 <= a * b <= u128::MAX,
{
    assert(0 <= a * b <= u64::MAX * u64::MAX) by (nonlinear_arith)
        requires
            0 <= a <= u64::MAX,
            0 <= b <= u64::MAX,
    ;
}

/// The first reason for which `place_prediction` refuses, if any.
pub open spec fn place_prediction_error(
    m: PredictionMarket,
    pos: UserPosition,
    profile: UserProfile,
    amount: u64,
    outcome: Outcome,
    now: i64,
) -> Option<ErrorCode> {
    let opens = pos.user.spec_is_default();
    if m.status != MarketStatus::Active {
        Some(ErrorCode::MarketNotActive)
    } else if profile.reputation_score < m.reputation_threshold {
        Some(ErrorCode::InsufficientReputation)
    } else if m.human_verified_required && !profile.human_verified {
        Some(ErrorCode::HumanVerificationRequired)
    } else if amount < MIN_STAKE {
        Some(ErrorCode::PredictionAmountTooSmall)
    } else if now >= m.resolution_date {
        Some(ErrorCode::MarketResolutionDatePassed)
    } else if outcome is Other || (!opens && pos.outcome != outcome) {
        Some(ErrorCode::InvalidInputParameters)
    } else if m.total_pool == 0 || m.total_pool + amount > u64::MAX {
        Some(ErrorCode::MathOverflow)
    } else if opens && m.total_participants == u32::MAX {
        Some(ErrorCode::MathOverflow)
    } else if !opens && (pos.amount + amount > u64::MAX || pos.amount * pos.entry_price
        + amount * price_bps(m.pool_of(outcome) as int, m.total_pool as int) > u128::MAX) {
        Some(ErrorCode::MathOverflow)
    } else if profile.total_predictions == u32::MAX {
        Some(ErrorCode::MathOverflow)
    } else {
        None
    }
}

/// The market after a buy of `amount` on `outcome`: the stake is added to the
/// chosen pool and to the total, and a new position counts one participant more.
pub open spec fn market_after_buy(
    m: PredictionMarket,
    outcome: Outcome,
    amount: u64,
    opens: bool,
) -> PredictionMarket {
    PredictionMarket {
        yes_pool: if outcome == Outcome::Yes {
            (m.yes_pool + amount) as u64
        } else {
            m.yes_pool
        },
        no_pool: if outcome == Outcome::No {
            (m.no_pool + amount) as u64
        } else {
            m.no_pool
        },
        total_pool: (m.total_pool + amount) as u64,
        total_participants: if opens {
            (m.total_participants + 1) as u32
        } else {
            m.total_participants
        },
        ..m
    }
}

/// The position after a buy at `price`: opened with that price, or grown with
/// its entry price re-averaged by volume.
pub open spec fn position_after_buy(
    p: UserPosition,
    user: AccountKey,
    market_key: AccountKey,
    outcome: Outcome,
    amount: u64,
    price: u64,
    now: i64,
) -> UserPosition {
    if p.user.spec_is_default() {
        UserPosition {
            user,
            market: market_key,
            outcome,
            amount,
            entry_price: price,
            created_at: now,
            last_update: now,
            claimed: false,
        }
    } else {
        UserPosition {
            amount: (p.amount + amount) as u64,
            entry_price: weighted_price(p.amount as int, p.entry_price as int, amount as int, price as int) as u64,
            last_update: now,
            ..p
        }
    }
}

/// Buys `amount` of `outcome` for `user`. The price quoted (and returned) is
/// the chosen pool's share of the total before the stake is added; the stake
/// then goes into that pool as it is. A position already open on the other
/// outcome is refused.
pub fn place_prediction(
    market: &mut PredictionMarket,
    position: &mut UserPosition,
    profile: &mut UserProfile,
    user: AccountKey,
    market_key: AccountKey,
    amount: u64,
    outcome: Outcome,
    now: i64,
) -> (r: Result<u64, ErrorCode>)
    requires
        old(market).wf(),
    ensures
        final(market).wf(),
        r is Ok <==> place_prediction_error(*old(market), *old(position), *old(profile), amount, outcome, now) is None,
        r matches Err(e) ==> {
            &&& place_prediction_error(*old(market), *old(position), *old(profile), amount, outcome, now) == Some(e)
            &&& *final(market) == *old(market)
            &&& *final(position) == *old(position)
            &&& *final(profile) == *old(profile)
        },
        r matches Ok(price) ==> {
            let opens = old(position).user.spec_is_default();
            &&& price == price_bps(old(market).pool_of(outcome) as int, old(market).total_pool as int)
            &&& *final(market) == market_after_buy(*old(market), outcome, amount, opens)
            &&& *final(position) == position_after_buy(*old(position), user, market_key, outcome, amount, price, now)
            &&& *final(profile) == (UserProfile {
                total_predictions: (old(profile).total_predictions + 1) as u32,
                last_activity: now,
                ..*old(profile)
            })
        },
{
    if market.status != MarketStatus::Active {
        return Err(ErrorCode::MarketNotActive);
    }
    if profile.reputation_score < market.reputation_threshold as u32 {
        return Err(ErrorCode::InsufficientReputation);
    }
    if market.human_verified_required && !profile.human_verified {
        return Err(ErrorCode::HumanVerificationRequired);
    }
    if amount < MIN_STAKE {
        return Err(ErrorCode::PredictionAmountTooSmall);
    }
    if now >= market.resolution_date {
        return Err(ErrorCode::MarketResolutionDatePassed);
    }
    let opens = position.user.is_default();
    let pool = match outcome {
        Outcome::Yes => market.yes_pool,
        Outcome::No => market.no_pool,
        Outcome::Other(_) => {
            return Err(ErrorCode::InvalidInputParameters);
        },
    };
    if !opens && position.outcome != outcome {
        return Err(ErrorCode::InvalidInputParameters);
    }
    if market.total_pool == 0 || market.total_pool > u64::MAX - amount {
        return Err(ErrorCode::MathOverflow);
    }
    proof {
        lemma_price_le_whole(pool as int, market.total_pool as int);
        lemma_mul_u64_fits(pool as int, BPS as int);
    }
    let price = ((pool as u128) * (BPS as u128) / (market.total_pool as u128)) as u64;
    if opens && market.total_participants == u32::MAX {
        return Err(ErrorCode::MathOverflow);
    }
    let mut new_amount: u64 = amount;
    let mut new_entry: u64 = price;
    if !opens {
        if position.amount > u64::MAX - amount {
            return Err(ErrorCode::MathOverflow);
        }
        proof {
            lemma_mul_u64_fits(position.amount as int, position.entry_price as int);
            lemma_mul_u64_fits(amount as int, price as int);
        }
        let held = (position.amount as u128) * (position.entry_price as u128);
        let added = (amount as u128) * (price as u128);
        if held > u128::MAX - added {
            return Err(ErrorCode::MathOverflow);
        }
        new_amount = position.amount + amount;
        proof {
            lemma_weighted_price_bounded(
                position.amount as int,
                position.entry_price as int,
                amount as int,
                price as int,
                u64::MAX as int,
            );
        }
        new_entry = ((held + added) / (new_amount as u128)) as u64;
    }
    if profile.total_predictions == u32::MAX {
        return Err(ErrorCode::MathOverflow);
    }
    match outcome {
        Outcome::Yes => {
            market.yes_pool = market.yes_pool + amount;
        },
        _ => {
            market.no_pool = market.no_pool + amount;
        },
    }
    market.total_pool = market.total_pool + amount;
    if opens {
        market.total_participants = market.total_participants + 1;
        position.user = user;
        position.market = market_key;
        position.outcome = outcome;
        position.claimed = false;
        position.created_at = now;
    }
    position.amount = new_amount;
    position.entry_price = new_entry;
    position.last_update = now;
    profile.total_predictions = profile.total_predictions + 1;
    profile.last_activity = now;
    Ok(price)
}

} // verus!

verus! {

/// Fee taken on sells and claims, in basis points.
pub const FEE_BPS: u64 = 50;
/// The least share of the gross proceeds, in percent, that a sell must pay out.
pub const MIN_OUT_PERCENT: u64 = 98;

/// What a sell pays: the gross proceeds, the fee routed to the treasury and the
/// rest, which goes to the seller.
#[derive(Clone, Copy, Debug, PartialEq, Eq, Structural)]
pub struct SellReceipt {
    pub tokens_out: u64,
    pub fee: u64,
    pub net: u64,
}

/// The opposite pool after `amount` leaves the same pool, keeping the product
/// of the pools (rounded down).
pub open spec fn opposite_after_sell(same: int, opposite: int, amount: int) -> int {
    same * opposite / (same - amount)
}

pub open spec fn fee_of(gross: int) -> int {
    gross * 50 / 10000
}

pub open spec fn min_out_of(gross: int) -> int {
    gross * 98 / 100
}

/// The pool on the other side of `outcome`.
pub open spec fn opposite_pool_of(m: PredictionMarket, outcome: Outcome) -> nat {
    match outcome {
        Outcome::Yes => m.no_pool as nat,
        Outcome::No => m.yes_pool as nat,
        Outcome::Other(_) => 0,
    }
}

/// The first reason for which `sell_position` refuses, if any.
pub open spec fn sell_position_error(m: PredictionMarket, pos: UserPosition, amount: u64) -> Option<
    ErrorCode,
> {
    let same = m.pool_of(pos.outcome) as int;
    let opp = opposite_pool_of(m, pos.outcome) as int;
    let new_opp = opposite_after_sell(same, opp, amount as int);
    let out = new_opp - opp;
    if m.status != MarketStatus::Active {
        Some(ErrorCode::MarketNotActive)
    } else if amount == 0 || amount > pos.amount {
        Some(ErrorCode::InvalidAmount)
    } else if pos.outcome is Other {
        Some(ErrorCode::InvalidInputParameters)
    } else if amount > same {
        Some(ErrorCode::InsufficientLiquidity)
    } else if amount == same || new_opp > u64::MAX || out * 98 > u64::MAX {
        Some(ErrorCode::MathOverflow)
    } else if out - fee_of(out) < min_out_of(out) {
        Some(ErrorCode::SlippageExceeded)
    } else if (same - amount) + new_opp > u64::MAX {
        Some(ErrorCode::MathOverflow)
    } else {
        None
    }
}

/// The market after a sell of `amount` from a position on `outcome`.
pub open spec fn market_after_sell(m: PredictionMarket, outcome: Outcome, amount: u64) -> PredictionMarket {
    let same = m.pool_of(outcome) as int;
    let opp = opposite_pool_of(m, outcome) as int;
    let new_opp = opposite_after_sell(same, opp, amount as int);
    if outcome == Outcome::Yes {
        m.with_pools((same - amount) as u64, new_opp as u64, m.total_lp_supply)
    } else {
        m.with_pools(new_opp as u64, (same - amount) as u64, m.total_lp_supply)
    }
}

proof fn lemma_opposite_grows(same: int, opp: int, amount: int)
    requires
        0 <= amount < same,
        0 <= opp,
    ensures
        opp <= opposite_after_sell(same, opp, amount),
{
    let d = same - amount;
    assert(opp * d <= same * opp) by (nonlinear_arith)
        requires
            0 < d <= same,
            0 <= opp,
    ;
    vstd::arithmetic::div_mod::lemma_div_is_ordered(opp * d, same * opp, d);
    vstd::arithmetic::div_mod::lemma_div_multiples_vanish(opp, d);
    assert(d * opp == opp * d) by (nonlinear_arith);
}

/// Sells `amount` shares of a position back to the pools. The shares leave
/// the pool of the position's outcome and the opposite pool is recomputed so
/// that the product of the pools is kept; the growth of the opposite pool is
/// the gross proceeds, of which the fee goes to the treasury. The total pool
/// follows the two pools.
pub fn sell_position(market: &mut PredictionMarket, position: &mut UserPosition, amount: u64) -> (r:
    Result<SellReceipt, ErrorCode>)
    requires
        old(market).wf(),
    ensures
        final(market).wf(),
        r is Ok <==> sell_position_error(*old(market), *old(position), amount) is None,
        r matches Err(e) ==> {
            &&& sell_position_error(*old(market), *old(position), amount) == Some(e)
            &&& *final(market) == *old(market)
            &&& *final(position) == *old(position)
        },
        r matches Ok(receipt) ==> {
            let same = old(market).pool_of(old(position).outcome) as int;
            let opp = opposite_pool_of(*old(market), old(position).outcome) as int;
            let out = opposite_after_sell(same, opp, amount as int) - opp;
            &&& receipt.tokens_out == out
            &&& receipt.fee == fee_of(out)
            &&& receipt.net == out - fee_of(out)
            &&& *final(market) == market_after_sell(*old(market), old(position).outcome, amount)
            &&& *final(position) == (UserPosition {
                amount: (old(position).amount - amount) as u64,
                ..*old(position)
            })
        },
{
    if market.status != MarketStatus::Active {
        return Err(ErrorCode::MarketNotActive);
    }
    if amount == 0 || amount > position.amount {
        return Err(ErrorCode::InvalidAmount);
    }
    let (same, opp) = match position.outcome {
        Outcome::Yes => (market.yes_pool, market.no_pool),
        Outcome::No => (market.no_pool, market.yes_pool),
        Outcome::Other(_) => {
            return Err(ErrorCode::InvalidInputParameters);
        },
    };
    if amount > same {
        return Err(ErrorCode::InsufficientLiquidity);
    }
    if amount == same {
        return Err(ErrorCode::MathOverflow);
    }
    proof {
        lemma_mul_u64_fits(same as int, opp as int);
        lemma_opposite_grows(same as int, opp as int, amount as int);
    }
    let k = (same as u128) * (opp as u128);
    let new_same = same - amount;
    let new_opp_wide = k / (new_same as u128);
    if new_opp_wide > u64::MAX as u128 {
        return Err(ErrorCode::MathOverflow);
    }
    let new_opp = new_opp_wide as u64;
    let tokens_out = new_opp - opp;
    if tokens_out > u64::MAX / MIN_OUT_PERCENT {
        return Err(ErrorCode::MathOverflow);
    }
    let fee = tokens_out * FEE_BPS / BPS;
    let net = tokens_out - fee;
    let min_out = tokens_out * MIN_OUT_PERCENT / 100;
    if net < min_out {
        return Err(ErrorCode::SlippageExceeded);
    }
    if new_same > u64::MAX - new_opp {
        return Err(ErrorCode::MathOverflow);
    }
    match position.outcome {
        Outcome::Yes => {
            market.yes_pool = new_same;
            market.no_pool = new_opp;
        },
        _ => {
            market.no_pool = new_same;
            market.yes_pool = new_opp;
        },
    }
    market.total_pool = new_same + new_opp;
    position.amount = position.amount - amount;
    Ok(SellReceipt { tokens_out, fee, net })
}

} // verus!

verus! {

/// Whether a deposit of `ay` and `an` keeps the pools' ratio: the relative
/// deviation `|yes/no - ay/an| / (yes/no)` is at most 5%. An empty pool has no
/// ratio to keep, so every deposit deviates from it.
pub open spec fn ratio_within_tolerance(yes: int, no: int, ay: int, an: int) -> bool {
    let d = yes * an - ay * no;
    let dev = if d < 0 { -d } else { d };
    yes > 0 && no > 0 && dev * 20 <= yes * an
}

/// LP tokens minted for a deposit of `amount`: one for one into a market with
/// no tokens outstanding, otherwise the deposit's share of the total pool in
/// tokens of the outstanding supply.
pub open spec fn lp_minted(amount: int, supply: int, total: int) -> int {
    if supply == 0 {
        amount
    } else {
        amount * supply / total
    }
}

pub open spec fn add_liquidity_error(
    m: PredictionMarket,
    lp: LiquidityPosition,
    ay: u64,
    an: u64,
) -> Option<ErrorCode> {
    let total = ay + an;
    let minted = lp_minted(total, m.total_lp_supply as int, m.total_pool as int);
    if m.status != MarketStatus::Active {
        Some(ErrorCode::MarketNotActive)
    } else if ay == 0 || an == 0 {
        Some(ErrorCode::InvalidAmount)
    } else if !ratio_within_tolerance(m.yes_pool as int, m.no_pool as int, ay as int, an as int) {
        Some(ErrorCode::ImbalancedLiquidity)
    } else if total > u64::MAX || minted > u64::MAX || m.total_pool + total > u64::MAX
        || m.total_lp_supply + minted > u64::MAX {
        Some(ErrorCode::MathOverflow)
    } else if minted == 0 {
        Some(ErrorCode::InvalidAmount)
    } else if !lp.provider.spec_is_default() && (lp.lp_tokens + minted > u64::MAX || lp.amount_yes
        + ay > u64::MAX || lp.amount_no + an > u64::MAX) {
        Some(ErrorCode::MathOverflow)
    } else {
        None
    }
}

pub open spec fn liquidity_after_add(
    lp: LiquidityPosition,
    provider: AccountKey,
    market_key: AccountKey,
    ay: u64,
    an: u64,
    minted: u64,
    now: i64,
) -> LiquidityPosition {
    if lp.provider.spec_is_default() {
        LiquidityPosition {
            provider,
            market: market_key,
            lp_tokens: minted,
            amount_yes: ay,
            amount_no: an,
            created_at: now,
            last_update: now,
            ..lp
        }
    } else {
        LiquidityPosition {
            lp_tokens: (lp.lp_tokens + minted) as u64,
            amount_yes: (lp.amount_yes + ay) as u64,
            amount_no: (lp.amount_no + an) as u64,
            last_update: now,
            ..lp
        }
    }
}

pub proof fn lemma_scaled_le(dev: int, x: int, c: int)
    requires
        0 <= dev,
        0 <= x,
        0 < c,
    ensures
        (dev * c <= x) <==> (dev <= x / c),
{
    vstd::arithmetic::div_mod::lemma_fundamental_div_mod(x, c);
    vstd::arithmetic::div_mod::lemma_mod_bound(x, c);
    if dev <= x / c {
        assert(dev * c <= (x / c) * c) by (nonlinear_arith)
            requires
                dev <= x / c,
                0 < c,
        ;
        assert((x / c) * c == c * (x / c)) by (nonlinear_arith);
    }
    if dev * c <= x {
        assert(dev <= x / c) by (nonlinear_arith)
            requires
                dev * c <= x,
                x == c * (x / c) + x % c,
                0 <= x % c < c,
                0 < c,
        ;
    }
}

/// Deposits `amount_yes` and `amount_no` into the pools for `provider` and
/// mints LP tokens against the market's outstanding supply (returned). A
/// deposit too small to earn a single LP token is refused. The
/// supply is tracked for the whole market, so a first deposit by a new
/// provider into a seeded market is priced like any other.
pub fn add_liquidity(
    market: &mut PredictionMarket,
    lp: &mut LiquidityPosition,
    provider: AccountKey,
    market_key: AccountKey,
    amount_yes: u64,
    amount_no: u64,
    now: i64,
) -> (r: Result<u64, ErrorCode>)
    requires
        old(market).wf(),
    ensures
        final(market).wf(),
        r is Ok <==> add_liquidity_error(*old(market), *old(lp), amount_yes, amount_no) is None,
        r matches Err(e) ==> {
            &&& add_liquidity_error(*old(market), *old(lp), amount_yes, amount_no) == Some(e)
            &&& *final(market) == *old(market)
            &&& *final(lp) == *old(lp)
        },
        r matches Ok(minted) ==> {
            &&& minted == lp_minted(
                amount_yes + amount_no,
                old(market).total_lp_supply as int,
                old(market).total_pool as int,
            )
            &&& *final(market) == old(market).with_pools(
                (old(market).yes_pool + amount_yes) as u64,
                (old(market).no_pool + amount_no) as u64,
                (old(market).total_lp_supply + minted) as u64,
            )
            &&& *final(lp) == liquidity_after_add(*old(lp), provider, market_key, amount_yes, amount_no, minted, now)
        },
{
    if market.status != MarketStatus::Active {
        return Err(ErrorCode::MarketNotActive);
    }
    if amount_yes == 0 || amount_no == 0 {
        return Err(ErrorCode::InvalidAmount);
    }
    if market.yes_pool == 0 || market.no_pool == 0 {
        return Err(ErrorCode::ImbalancedLiquidity);
    }
    proof {
        lemma_mul_u64_fits(market.yes_pool as int, amount_no as int);
        lemma_mul_u64_fits(amount_yes as int, market.no_pool as int);
    }
    let current = (market.yes_pool as u128) * (amount_no as u128);
    let provided = (amount_yes as u128) * (market.no_pool as u128);
    let dev = if current >= provided {
        current - provided
    } else {
        provided - current
    };
    proof {
        lemma_scaled_le(dev as int, current as int, 20);
    }
    if dev > current / 20 {
        return Err(ErrorCode::ImbalancedLiquidity);
    }
    if amount_yes > u64::MAX - amount_no {
        return Err(ErrorCode::MathOverflow);
    }
    let total_amount = amount_yes + amount_no;
    let minted_wide: u128 = if market.total_lp_supply == 0 {
        total_amount as u128
    } else {
        proof {
            lemma_mul_u64_fits(total_amount as int, market.total_lp_supply as int);
        }
        (total_amount as u128) * (market.total_lp_supply as u128) / (market.total_pool as u128)
    };
    if minted_wide > u64::MAX as u128 {
        return Err(ErrorCode::MathOverflow);
    }
    let minted = minted_wide as u64;
    if market.total_pool > u64::MAX - total_amount || market.total_lp_supply > u64::MAX - minted {
        return Err(ErrorCode::MathOverflow);
    }
    if minted == 0 {
        return Err(ErrorCode::InvalidAmount);
    }
    let opens = lp.provider.is_default();
    if !opens {
        if lp.lp_tokens > u64::MAX - minted || lp.amount_yes > u64::MAX - amount_yes
            || lp.amount_no > u64::MAX - amount_no {
            return Err(ErrorCode::MathOverflow);
        }
    }
    market.yes_pool = market.yes_pool + amount_yes;
    market.no_pool = market.no_pool + amount_no;
    market.total_pool = market.total_pool + total_amount;
    market.total_lp_supply = market.total_lp_supply + minted;
    if opens {
        lp.provider = provider;
        lp.market = market_key;
        lp.lp_tokens = minted;
        lp.amount_yes = amount_yes;
        lp.amount_no = amount_no;
        lp.created_at = now;
    } else {
        lp.lp_tokens = lp.lp_tokens + minted;
        lp.amount_yes = lp.amount_yes + amount_yes;
        lp.amount_no = lp.amount_no + amount_no;
    }
    lp.last_update = now;
    Ok(minted)
}

/// What a withdrawal of liquidity pays out of each pool.
#[derive(Clone, Copy, Debug, PartialEq, Eq, Structural)]
pub struct LiquidityWithdrawal {
    pub yes: u64,
    pub no: u64,
}

/// A holder's proportional claim on one pool for `lp_tokens` of `supply`
/// (nothing where no tokens are outstanding).
pub open spec fn pool_share(pool: int, lp_tokens: int, supply: int) -> int {
    if supply == 0 {
        0
    } else {
        pool * lp_tokens / supply
    }
}

pub open spec fn remove_liquidity_error(m: PredictionMarket, lp: LiquidityPosition, lp_tokens: u64) -> Option<
    ErrorCode,
> {
    if m.status != MarketStatus::Active && m.status != MarketStatus::Resolved {
        Some(ErrorCode::MarketNotActive)
    } else if lp_tokens == 0 {
        Some(ErrorCode::InvalidAmount)
    } else if lp.lp_tokens < lp_tokens || m.total_lp_supply < lp_tokens {
        Some(ErrorCode::InsufficientLiquidity)
    } else {
        None
    }
}

proof fn lemma_share_le_pool(pool: int, lp_tokens: int, supply: int)
    requires
        0 <= pool,
        0 <= lp_tokens <= supply,
        0 < supply,
    ensures
        0 <= pool_share(pool, lp_tokens, supply) <= pool,
{
    assert(pool * lp_tokens <= supply * pool) by (nonlinear_arith)
        requires
            0 <= pool,
            lp_tokens <= supply,
    ;
    assert(0 <= pool * lp_tokens) by (nonlinear_arith)
        requires
            0 <= pool,
            0 <= lp_tokens,
    ;
    lemma_multiply_divide_le(pool * lp_tokens, supply, pool);
}

/// Burns `lp_tokens` of a provider's LP tokens and pays out their proportional
/// share of each pool, measured against the market's outstanding supply. The
/// provider's record of contributed amounts goes down in the same proportion
/// as its LP tokens, so it never falls below zero.
pub fn remove_liquidity(
    market: &mut PredictionMarket,
    lp: &mut LiquidityPosition,
    lp_tokens: u64,
    now: i64,
) -> (r: Result<LiquidityWithdrawal, ErrorCode>)
    requires
        old(market).wf(),
    ensures
        final(market).wf(),
        r is Ok <==> remove_liquidity_error(*old(market), *old(lp), lp_tokens) is None,
        r matches Err(e) ==> {
            &&& remove_liquidity_error(*old(market), *old(lp), lp_tokens) == Some(e)
            &&& *final(market) == *old(market)
            &&& *final(lp) == *old(lp)
        },
        r matches Ok(w) ==> {
            &&& w.yes == pool_share(old(market).yes_pool as int, lp_tokens as int, old(market).total_lp_supply as int)
            &&& w.no == pool_share(old(market).no_pool as int, lp_tokens as int, old(market).total_lp_supply as int)
            &&& *final(market) == old(market).with_pools(
                (old(market).yes_pool - w.yes) as u64,
                (old(market).no_pool - w.no) as u64,
                (old(market).total_lp_supply - lp_tokens) as u64,
            )
            &&& *final(lp) == (LiquidityPosition {
                lp_tokens: (old(lp).lp_tokens - lp_tokens) as u64,
                amount_yes: (old(lp).amount_yes - pool_share(old(lp).amount_yes as int, lp_tokens as int, old(lp).lp_tokens as int)) as u64,
                amount_no: (old(lp).amount_no - pool_share(old(lp).amount_no as int, lp_tokens as int, old(lp).lp_tokens as int)) as u64,
                last_update: now,
                ..*old(lp)
            })
        },
{
    if market.status != MarketStatus::Active && market.status != MarketStatus::Resolved {
        return Err(ErrorCode::MarketNotActive);
    }
    if lp_tokens == 0 {
        return Err(ErrorCode::InvalidAmount);
    }
    if lp.lp_tokens < lp_tokens || market.total_lp_supply < lp_tokens {
        return Err(ErrorCode::InsufficientLiquidity);
    }
    let supply = market.total_lp_supply;
    proof {
        lemma_mul_u64_fits(market.yes_pool as int, lp_tokens as int);
        lemma_mul_u64_fits(market.no_pool as int, lp_tokens as int);
        lemma_share_le_pool(market.yes_pool as int, lp_tokens as int, supply as int);
        lemma_share_le_pool(market.no_pool as int, lp_tokens as int, supply as int);
        if lp_tokens == supply {
            vstd::arithmetic::div_mod::lemma_div_by_multiple(market.yes_pool as int, supply as int);
            vstd::arithmetic::div_mod::lemma_div_by_multiple(market.no_pool as int, supply as int);
        }
    }
    let share_yes = ((market.yes_pool as u128) * (lp_tokens as u128) / (supply as u128)) as u64;
    let share_no = ((market.no_pool as u128) * (lp_tokens as u128) / (supply as u128)) as u64;
    market.yes_pool = market.yes_pool - share_yes;
    market.no_pool = market.no_pool - share_no;
    market.total_pool = market.yes_pool + market.no_pool;
    market.total_lp_supply = supply - lp_tokens;
    let held = lp.lp_tokens;
    proof {
        lemma_mul_u64_fits(lp.amount_yes as int, lp_tokens as int);
        lemma_mul_u64_fits(lp.amount_no as int, lp_tokens as int);
        lemma_share_le_pool(lp.amount_yes as int, lp_tokens as int, held as int);
        lemma_share_le_pool(lp.amount_no as int, lp_tokens as int, held as int);
    }
    let returned_yes = ((lp.amount_yes as u128) * (lp_tokens as u128) / (held as u128)) as u64;
    let returned_no = ((lp.amount_no as u128) * (lp_tokens as u128) / (held as u128)) as u64;
    lp.amount_yes = lp.amount_yes - returned_yes;
    lp.amount_no = lp.amount_no - returned_no;
    lp.lp_tokens = held - lp_tokens;
    lp.last_update = now;
    Ok(LiquidityWithdrawal { yes: share_yes, no: share_no })
}

} // verus!

verus! {

/// Dividing a sum loses at least as little as dividing its parts.
pub proof fn lemma_floor_add(a: int, b: int, d: int)
    requires
        0 <= a,
        0 <= b,
        0 < d,
    ensures
        a / d + b / d <= (a + b) / d,
{
    vstd::arithmetic::div_mod::lemma_fundamental_div_mod(a, d);
    vstd::arithmetic::div_mod::lemma_fundamental_div_mod(b, d);
    vstd::arithmetic::div_mod::lemma_mod_bound(a, d);
    vstd::arithmetic::div_mod::lemma_mod_bound(b, d);
    vstd::arithmetic::div_mod::lemma_div_pos_is_pos(a, d);
    vstd::arithmetic::div_mod::lemma_div_pos_is_pos(b, d);
    assert((a / d + b / d) * d <= a + b) by (nonlinear_arith)
        requires
            a == d * (a / d) + a % d,
            b == d * (b / d) + b % d,
            0 <= a % d,
            0 <= b % d,
    ;
    lemma_scaled_le(a / d + b / d, a + b, d);
}

/// LP tokens held by a list of positions, together.
pub open spec fn lp_token_sum(lps: Seq<LiquidityPosition>) -> int
    decreases lps.len(),
{
    if lps.len() == 0 {
        0
    } else {
        lp_token_sum(lps.drop_last()) + lps.last().lp_tokens
    }
}

/// The positions' claims on one pool of `pool`, with `supply` LP tokens
/// outstanding, together.
pub open spec fn pool_claims(pool: int, lps: Seq<LiquidityPosition>, supply: int) -> int
    decreases lps.len(),
{
    if lps.len() == 0 {
        0
    } else {
        pool_claims(pool, lps.drop_last(), supply) + pool_share(pool, lps.last().lp_tokens as int, supply)
    }
}

/// The positions' claims on both pools of a market, together: what they would
/// be paid if each withdrew all its tokens at the current balances.
pub open spec fn lp_claims(m: PredictionMarket, lps: Seq<LiquidityPosition>) -> int {
    pool_claims(m.yes_pool as int, lps, m.total_lp_supply as int) + pool_claims(
        m.no_pool as int,
        lps,
        m.total_lp_supply as int,
    )
}

proof fn lemma_pool_claims_bound(pool: int, lps: Seq<LiquidityPosition>, supply: int)
    requires
        0 <= pool,
        0 < supply,
    ensures
        0 <= lp_token_sum(lps),
        pool_claims(pool, lps, supply) <= pool_share(pool, lp_token_sum(lps), supply),
    decreases lps.len(),
{
    if lps.len() > 0 {
        let init = lps.drop_last();
        let t = lps.last().lp_tokens as int;
        lemma_pool_claims_bound(pool, init, supply);
        let rest = lp_token_sum(init);
        assert(0 <= pool * rest && 0 <= pool * t) by (nonlinear_arith)
            requires
                0 <= pool,
                0 <= rest,
                0 <= t,
        ;
        lemma_floor_add(pool * rest, pool * t, supply);
        assert(pool * rest + pool * t == pool * (rest + t)) by (nonlinear_arith);
    }
}

/// However many liquidity positions there are, as long as their LP tokens
/// together do not exceed the market's outstanding supply, their proportional
/// claims on the pools together never exceed the total pool.
pub proof fn lemma_lp_claims_within_pool(m: PredictionMarket, lps: Seq<LiquidityPosition>)
    requires
        m.wf(),
        lp_token_sum(lps) <= m.total_lp_supply,
    ensures
        lp_claims(m, lps) <= m.total_pool,
{
    if m.total_lp_supply == 0 {
        assert forall|pool: int, l: Seq<LiquidityPosition>| #[trigger] pool_claims(pool, l, 0) == 0 by {
            lemma_pool_claims_zero(pool, l);
        }
    } else {
        let s = m.total_lp_supply as int;
        lemma_pool_claims_bound(m.yes_pool as int, lps, s);
        lemma_pool_claims_bound(m.no_pool as int, lps, s);
        lemma_share_le_pool(m.yes_pool as int, lp_token_sum(lps), s);
        lemma_share_le_pool(m.no_pool as int, lp_token_sum(lps), s);
    }
}

proof fn lemma_pool_claims_zero(pool: int, lps: Seq<LiquidityPosition>)
    ensures
        pool_claims(pool, lps, 0) == 0,
    decreases lps.len(),
{
    if lps.len() > 0 {
        lemma_pool_claims_zero(pool, lps.drop_last());
    }
}

/// A deposit that adding liquidity accepts mints at least one LP token, and
/// withdrawing at once every token it minted is accepted too. That withdrawal
/// pays the provider back no more than the deposit, so the pools end no lower
/// than they started; and the provider loses to rounding less than two units
/// plus the pool's value of one LP token (`total / supply` after the deposit).
pub proof fn lemma_add_remove_round_trip(
    m: PredictionMarket,
    lp: LiquidityPosition,
    provider: AccountKey,
    market_key: AccountKey,
    amount_yes: u64,
    amount_no: u64,
    now: i64,
)
    requires
        m.wf(),
        add_liquidity_error(m, lp, amount_yes, amount_no) is None,
    ensures
        ({
            let deposit = amount_yes + amount_no;
            let minted = lp_minted(deposit, m.total_lp_supply as int, m.total_pool as int);
            let m1 = m.with_pools(
                (m.yes_pool + amount_yes) as u64,
                (m.no_pool + amount_no) as u64,
                (m.total_lp_supply + minted) as u64,
            );
            let back_yes = pool_share(m1.yes_pool as int, minted, m1.total_lp_supply as int);
            let back_no = pool_share(m1.no_pool as int, minted, m1.total_lp_supply as int);
            let lp1 = liquidity_after_add(lp, provider, market_key, amount_yes, amount_no, minted as u64, now);
            &&& minted > 0
            &&& remove_liquidity_error(m1, lp1, minted as u64) is None
            &&& back_yes + back_no <= deposit
            &&& (m1.yes_pool - back_yes) + (m1.no_pool - back_no) >= m.total_pool
            &&& (back_yes + back_no + 2) * m1.total_lp_supply + m.total_pool > deposit
                * m1.total_lp_supply
        }),
{
    let a = amount_yes + amount_no;
    let s = m.total_lp_supply as int;
    let t = m.total_pool as int;
    assert(s > 0);
    let k = a * s / t;
    assert(0 <= a * s) by (nonlinear_arith)
        requires
            0 <= a,
            0 <= s,
    ;
    vstd::arithmetic::div_mod::lemma_fundamental_div_mod(a * s, t);
    vstd::arithmetic::div_mod::lemma_mod_bound(a * s, t);
    vstd::arithmetic::div_mod::lemma_div_pos_is_pos(a * s, t);
    assert(k * t <= a * s) by (nonlinear_arith)
        requires
            a * s == t * k + (a * s) % t,
            0 <= (a * s) % t,
    ;
    let y1 = m.yes_pool + amount_yes;
    let n1 = m.no_pool + amount_no;
    let s1 = s + k;
    assert(0 <= y1 * k && 0 <= n1 * k) by (nonlinear_arith)
        requires
            0 <= y1,
            0 <= n1,
            0 <= k,
    ;
    lemma_floor_add(y1 * k, n1 * k, s1);
    assert((y1 + n1) * k <= s1 * a) by (nonlinear_arith)
        requires
            y1 + n1 == t + a,
            k * t <= a * s,
            s1 == s + k,
    ;
    assert(y1 * k + n1 * k == (y1 + n1) * k) by (nonlinear_arith);
    lemma_multiply_divide_le((y1 + n1) * k, s1, a);
    // lower bound: each share loses less than one unit to rounding, and the
    // minted tokens lose less than one LP token
    assert(s1 > 0);
    let qy = (y1 * k) / s1;
    let qn = (n1 * k) / s1;
    vstd::arithmetic::div_mod::lemma_fundamental_div_mod(y1 * k, s1);
    vstd::arithmetic::div_mod::lemma_mod_bound(y1 * k, s1);
    vstd::arithmetic::div_mod::lemma_fundamental_div_mod(n1 * k, s1);
    vstd::arithmetic::div_mod::lemma_mod_bound(n1 * k, s1);
    assert(qy * s1 > y1 * k - s1 && qn * s1 > n1 * k - s1) by (nonlinear_arith)
        requires
            y1 * k == s1 * qy + (y1 * k) % s1,
            (y1 * k) % s1 < s1,
            n1 * k == s1 * qn + (n1 * k) % s1,
            (n1 * k) % s1 < s1,
    ;
    assert(k * t > a * s - t) by (nonlinear_arith)
        requires
            a * s == t * k + (a * s) % t,
            (a * s) % t < t,
    ;
    assert((qy + qn + 2) * s1 + t > a * s1) by (nonlinear_arith)
        requires
            qy * s1 > y1 * k - s1,
            qn * s1 > n1 * k - s1,
            k * t > a * s - t,
            y1 + n1 == t + a,
            s1 == s + k,
    ;
}

} // verus!

verus! {

proof fn lemma_token_sum_push(s: Seq<LiquidityPosition>, x: LiquidityPosition)
    ensures
        lp_token_sum(s.push(x)) == lp_token_sum(s) + x.lp_tokens,
{
    assert(s.push(x).drop_last() =~= s);
}

/// Adding liquidity keeps the liquidity positions' LP tokens within the
/// market's outstanding supply, so after the deposit their proportional claims
/// (the depositor's updated position among them) still do not exceed the
/// total pool.
pub proof fn lemma_add_keeps_claims_within_pool(
    m: PredictionMarket,
    others: Seq<LiquidityPosition>,
    lp: LiquidityPosition,
    provider: AccountKey,
    market_key: AccountKey,
    amount_yes: u64,
    amount_no: u64,
    now: i64,
)
    requires
        m.wf(),
        add_liquidity_error(m, lp, amount_yes, amount_no) is None,
        lp_token_sum(others.push(lp)) <= m.total_lp_supply,
    ensures
        ({
            let minted = lp_minted(amount_yes + amount_no, m.total_lp_supply as int, m.total_pool as int);
            let m1 = m.with_pools(
                (m.yes_pool + amount_yes) as u64,
                (m.no_pool + amount_no) as u64,
                (m.total_lp_supply + minted) as u64,
            );
            let lp1 = liquidity_after_add(lp, provider, market_key, amount_yes, amount_no, minted as u64, now);
            &&& lp_token_sum(others.push(lp1)) <= m1.total_lp_supply
            &&& lp_claims(m1, others.push(lp1)) <= m1.total_pool
        }),
{
    let minted = lp_minted(amount_yes + amount_no, m.total_lp_supply as int, m.total_pool as int);
    let m1 = m.with_pools(
        (m.yes_pool + amount_yes) as u64,
        (m.no_pool + amount_no) as u64,
        (m.total_lp_supply + minted) as u64,
    );
    let lp1 = liquidity_after_add(lp, provider, market_key, amount_yes, amount_no, minted as u64, now);
    lemma_token_sum_push(others, lp);
    lemma_token_sum_push(others, lp1);
    lemma_pool_claims_bound(0, others, 1);
    assert(m1.wf());
    lemma_lp_claims_within_pool(m1, others.push(lp1));
}

/// Removing liquidity keeps the liquidity positions' LP tokens within the
/// market's outstanding supply, so after the withdrawal their proportional
/// claims (the provider's updated position among them) still do not exceed
/// the total pool.
pub proof fn lemma_remove_keeps_claims_within_pool(
    m: PredictionMarket,
    others: Seq<LiquidityPosition>,
    lp: LiquidityPosition,
    lp_tokens: u64,
    now: i64,
)
    requires
        m.wf(),
        remove_liquidity_error(m, lp, lp_tokens) is None,
        lp_token_sum(others.push(lp)) <= m.total_lp_supply,
    ensures
        ({
            let s = m.total_lp_supply as int;
            let wy = pool_share(m.yes_pool as int, lp_tokens as int, s);
            let wn = pool_share(m.no_pool as int, lp_tokens as int, s);
            let m1 = m.with_pools((m.yes_pool - wy) as u64, (m.no_pool - wn) as u64, (m.total_lp_supply - lp_tokens) as u64);
            let lp1 = LiquidityPosition {
                lp_tokens: (lp.lp_tokens - lp_tokens) as u64,
                amount_yes: (lp.amount_yes - pool_share(lp.amount_yes as int, lp_tokens as int, lp.lp_tokens as int)) as u64,
                amount_no: (lp.amount_no - pool_share(lp.amount_no as int, lp_tokens as int, lp.lp_tokens as int)) as u64,
                last_update: now,
                ..lp
            };
            &&& lp_token_sum(others.push(lp1)) <= m1.total_lp_supply
            &&& lp_claims(m1, others.push(lp1)) <= m1.total_pool
        }),
{
    let s = m.total_lp_supply as int;
    let wy = pool_share(m.yes_pool as int, lp_tokens as int, s);
    let wn = pool_share(m.no_pool as int, lp_tokens as int, s);
    let m1 = m.with_pools((m.yes_pool - wy) as u64, (m.no_pool - wn) as u64, (m.total_lp_supply - lp_tokens) as u64);
    let lp1 = LiquidityPosition {
        lp_tokens: (lp.lp_tokens - lp_tokens) as u64,
        amount_yes: (lp.amount_yes - pool_share(lp.amount_yes as int, lp_tokens as int, lp.lp_tokens as int)) as u64,
        amount_no: (lp.amount_no - pool_share(lp.amount_no as int, lp_tokens as int, lp.lp_tokens as int)) as u64,
        last_update: now,
        ..lp
    };
    lemma_token_sum_push(others, lp);
    lemma_token_sum_push(others, lp1);
    lemma_share_le_pool(m.yes_pool as int, lp_tokens as int, s);
    lemma_share_le_pool(m.no_pool as int, lp_tokens as int, s);
    if lp_tokens == m.total_lp_supply {
        vstd::arithmetic::div_mod::lemma_div_by_multiple(m.yes_pool as int, s);
        vstd::arithmetic::div_mod::lemma_div_by_multiple(m.no_pool as int, s);
    }
    assert(m1.wf());
    lemma_lp_claims_within_pool(m1, others.push(lp1));
}

} // verus!
