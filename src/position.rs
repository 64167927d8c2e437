//! The liquidity position ledger: one record per owner of what the owner has
//! staked and when the owner last deposited.
use vstd::prelude::*;

verus! {

/// How long, in clock units, a position stays locked after its last deposit.
pub const LOCK_DURATION: i64 = 100;

/// A liquidity provider's staking record.
///
/// `staked_token_amount` is the cumulative amount staked, less what was
/// withdrawn. `last_update_time` is set to the time of every deposit, so a
/// new deposit relocks the whole position, including principal whose lock had
/// already expired. Withdrawals leave it as it is.
#[derive(Debug, Clone, Copy)]
pub struct LiquidityAccount {
    pub owner: [u8; 32],
    pub staked_token_amount: u64,
    pub last_update_time: i64,
}

/// Opens the record of `owner`: nothing staked yet, and a timestamp of zero.
pub fn initialize_user_liquidity_account(owner: [u8; 32]) -> (r: LiquidityAccount)
    ensures
        r.owner == owner,
        r.staked_token_amount == 0,
        r.last_update_time == 0,
{
    LiquidityAccount { owner, staked_token_amount: 0, last_update_time: 0 }
}

} // verus!
