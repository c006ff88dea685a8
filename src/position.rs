use vstd::prelude::*;
use crate::types::{AccountKey, Outcome};

verus! {

/// A user's stake in one market. A record whose `user` is the all-zero key has
/// not been opened yet.
pub struct UserPosition {
    pub user: AccountKey,
    pub market: AccountKey,
    pub outcome: Outcome,
    pub amount: u64,
    /// Volume-weighted average entry price, in basis points.
    pub entry_price: u64,
    pub created_at: i64,
    pub last_update: i64,
    pub claimed: bool,
}

impl UserPosition {
    /// A record that has not been opened.
    pub fn empty() -> (r: UserPosition)
        ensures
            r.user.spec_is_default(),
            r.market.spec_is_default(),
            r.amount == 0,
            r.entry_price == 0,
            !r.claimed,
    {
        UserPosition {
            user: AccountKey::default_key(),
            market: AccountKey::default_key(),
            outcome: Outcome::Yes,
            amount: 0,
            entry_price: 0,
            created_at: 0,
            last_update: 0,
            claimed: false,
        }
    }
}

/// A provider's share of a market's pools.
pub struct LiquidityPosition {
    pub provider: AccountKey,
    pub market: AccountKey,
    pub lp_tokens: u64,
    pub amount_yes: u64,
    pub amount_no: u64,
    pub created_at: i64,
    pub last_update: i64,
    pub fees_earned: u64,
}

impl LiquidityPosition {
    /// A record that has not been opened.
    pub fn empty() -> (r: LiquidityPosition)
        ensures
            r.provider.spec_is_default(),
            r.market.spec_is_default(),
            r.lp_tokens == 0,
            r.amount_yes == 0,
            r.amount_no == 0,
    {
        LiquidityPosition {
            provider: AccountKey::default_key(),
            market: AccountKey::default_key(),
            lp_tokens: 0,
            amount_yes: 0,
            amount_no: 0,
            created_at: 0,
            last_update: 0,
            fees_earned: 0,
        }
    }
}

} // verus!
