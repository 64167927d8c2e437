//! The pool and its public operations: add liquidity, remove liquidity, swap.
//!
//! Each operation reads the reserves and the caller's position, checks every
//! condition first, and only then moves balances: it either succeeds with all
//! of its effects or returns an error and changes nothing.
//!
//! What each operation does is stated on a plain model of the books
//! (`Books`, `Stake`) by the spec functions `add_liquidity_step`,
//! `remove_liquidity_step` and `swap_step`; the operations are proved to
//! follow them exactly.
use vstd::prelude::*;

use crate::amm::{price_swap, swap_outcome};
use crate::error::TokenSwapError;
use crate::position::{LiquidityAccount, LOCK_DURATION};
use crate::vault::{transfer_possible, Asset, Vault, VaultAuthority};

verus! {

/// The caller's balances of the two assets, outside the pool.
#[derive(Debug, Clone, Copy, PartialEq, Eq, Structural)]
pub struct Wallet {
    pub token_a: u64,
    pub token_b: u64,
}

/// The two reserves and the caller's two balances, as numbers.
pub struct Books {
    pub reserve_a: nat,
    pub reserve_b: nat,
    pub wallet_a: nat,
    pub wallet_b: nat,
}

/// A position's record, as numbers.
pub struct Stake {
    pub staked: nat,
    pub last_update_time: int,
}

/// The asset that a swap paying in `input` pays out.
pub open spec fn other(input: Asset) -> Asset {
    match input {
        Asset::A => Asset::B,
        Asset::B => Asset::A,
    }
}

pub open spec fn reserve_of(b: Books, asset: Asset) -> nat {
    match asset {
        Asset::A => b.reserve_a,
        Asset::B => b.reserve_b,
    }
}

pub open spec fn wallet_of(b: Books, asset: Asset) -> nat {
    match asset {
        Asset::A => b.wallet_a,
        Asset::B => b.wallet_b,
    }
}

/// The books after `amount` of both assets moved from the wallet into the
/// vaults.
pub open spec fn deposited_both(b: Books, amount: nat) -> Books {
    Books {
        reserve_a: b.reserve_a + amount,
        reserve_b: b.reserve_b + amount,
        wallet_a: (b.wallet_a - amount) as nat,
        wallet_b: (b.wallet_b - amount) as nat,
    }
}

/// The books after `amount` of both assets moved from the vaults into the
/// wallet.
pub open spec fn withdrawn_both(b: Books, amount: nat) -> Books {
    Books {
        reserve_a: (b.reserve_a - amount) as nat,
        reserve_b: (b.reserve_b - amount) as nat,
        wallet_a: b.wallet_a + amount,
        wallet_b: b.wallet_b + amount,
    }
}

/// The books after a trade: `amount_in` of `input` moved from the wallet into
/// its vault, and `amount_out` of the other asset moved from its vault into
/// the wallet.
pub open spec fn traded(b: Books, input: Asset, amount_in: nat, amount_out: nat) -> Books {
    match input {
        Asset::A => Books {
            reserve_a: b.reserve_a + amount_in,
            reserve_b: (b.reserve_b - amount_out) as nat,
            wallet_a: (b.wallet_a - amount_in) as nat,
            wallet_b: b.wallet_b + amount_out,
        },
        Asset::B => Books {
            reserve_a: (b.reserve_a - amount_out) as nat,
            reserve_b: b.reserve_b + amount_in,
            wallet_a: b.wallet_a + amount_out,
            wallet_b: (b.wallet_b - amount_in) as nat,
        },
    }
}

/// Adding liquidity: both deposits of the same `amount` must be possible
/// (else `TransferFailed`), and the stake must not overflow 64 bits (else
/// `CalculationError`). On success the stake grows by `amount` and the
/// position is relocked from `now`.
pub open spec fn add_liquidity_step(b: Books, s: Stake, amount: nat, now: int) -> Result<
    (Books, Stake),
    TokenSwapError,
> {
    if !transfer_possible(b.wallet_a, b.reserve_a, amount) || !transfer_possible(
        b.wallet_b,
        b.reserve_b,
        amount,
    ) {
        Err(TokenSwapError::TransferFailed)
    } else if s.staked + amount > u64::MAX {
        Err(TokenSwapError::CalculationError)
    } else {
        Ok((deposited_both(b, amount), Stake { staked: s.staked + amount, last_update_time: now }))
    }
}

/// Removing liquidity: the lock must have expired (else `TimeConstraint`),
/// the stake must cover `amount` (else `InsufficientLiquidityTokens`), and
/// both withdrawals must be possible (else `TransferFailed`). On success the
/// stake falls by `amount`; the time of the last deposit is kept.
pub open spec fn remove_liquidity_step(b: Books, s: Stake, amount: nat, now: int) -> Result<
    (Books, Stake),
    TokenSwapError,
> {
    if now - s.last_update_time < LOCK_DURATION {
        Err(TokenSwapError::TimeConstraint)
    } else if s.staked < amount {
        Err(TokenSwapError::InsufficientLiquidityTokens)
    } else if !transfer_possible(b.reserve_a, b.wallet_a, amount) || !transfer_possible(
        b.reserve_b,
        b.wallet_b,
        amount,
    ) {
        Err(TokenSwapError::TransferFailed)
    } else {
        Ok(
            (
                withdrawn_both(b, amount),
                Stake { staked: (s.staked - amount) as nat, last_update_time: s.last_update_time },
            ),
        )
    }
}

/// A swap paying `amount_in` of `input`: priced from the reserves as they
/// stand (`swap_outcome`); then the deposit and the payout must both be
/// possible (else `TransferFailed`). On success, the new books and the
/// amount paid out.
pub open spec fn swap_step(b: Books, input: Asset, amount_in: nat, min_amount_out: nat) -> Result<
    (Books, nat),
    TokenSwapError,
> {
    let out = other(input);
    match swap_outcome(
        reserve_of(b, input),
        reserve_of(b, out),
        amount_in,
        min_amount_out,
        out,
    ) {
        Err(e) => Err(e),
        Ok(net) => if !transfer_possible(wallet_of(b, input), reserve_of(b, input), amount_in)
            || !transfer_possible(reserve_of(b, out), wallet_of(b, out), net as nat) {
            Err(TokenSwapError::TransferFailed)
        } else {
            Ok((traded(b, input, amount_in, net as nat), net as nat))
        },
    }
}

/// The pool: the vaults of assets A and B, and the authority over each.
pub struct Pool {
    vault_a: Vault,
    vault_b: Vault,
    authority_a: VaultAuthority,
    authority_b: VaultAuthority,
}

impl Pool {
    /// Each vault holds its own asset, and each authority controls its vault.
    pub closed spec fn wf(&self) -> bool {
        &&& self.vault_a.spec_asset() == Asset::A
        &&& self.vault_b.spec_asset() == Asset::B
        &&& self.authority_a.authorizes() == Asset::A
        &&& self.authority_b.authorizes() == Asset::B
    }

    pub closed spec fn spec_reserve_a(&self) -> nat {
        self.vault_a.spec_balance()
    }

    pub closed spec fn spec_reserve_b(&self) -> nat {
        self.vault_b.spec_balance()
    }

    /// The pool over two vaults as they stand; the authority over each vault
    /// is derived here, once.
    pub fn new(vault_a: Vault, vault_b: Vault) -> (r: Pool)
        requires
            vault_a.spec_asset() == Asset::A,
            vault_b.spec_asset() == Asset::B,
        ensures
            r.wf(),
            r.spec_reserve_a() == vault_a.spec_balance(),
            r.spec_reserve_b() == vault_b.spec_balance(),
    {
        Pool {
            vault_a,
            vault_b,
            authority_a: VaultAuthority::derive(Asset::A),
            authority_b: VaultAuthority::derive(Asset::B),
        }
    }

    /// The pool whose vaults hold `reserve_a` and `reserve_b`.
    pub fn from_reserves(reserve_a: u64, reserve_b: u64) -> (r: Pool)
        ensures
            r.wf(),
            r.spec_reserve_a() == reserve_a,
            r.spec_reserve_b() == reserve_b,
    {
        Pool::new(Vault::with_balance(Asset::A, reserve_a), Vault::with_balance(Asset::B, reserve_b))
    }

    pub fn reserve_a(&self) -> (r: u64)
        ensures
            r == self.spec_reserve_a(),
    {
        self.vault_a.balance()
    }

    pub fn reserve_b(&self) -> (r: u64)
        ensures
            r == self.spec_reserve_b(),
    {
        self.vault_b.balance()
    }
}

/// The books of a pool and a caller's wallet.
pub open spec fn books(pool: Pool, user: Wallet) -> Books {
    Books {
        reserve_a: pool.spec_reserve_a(),
        reserve_b: pool.spec_reserve_b(),
        wallet_a: user.token_a as nat,
        wallet_b: user.token_b as nat,
    }
}

/// The record of a position.
pub open spec fn stake(position: LiquidityAccount) -> Stake {
    Stake {
        staked: position.staked_token_amount as nat,
        last_update_time: position.last_update_time as int,
    }
}

/// Adds `token_amount` of both assets to the pool from the caller's wallet,
/// credits the position with it and relocks the position from `now`.
///
/// The same amount of each asset is taken, whatever the ratio of the
/// reserves. On success it returns the number of receipt tokens to mint to
/// the caller, which is `token_amount`. An amount of zero is accepted: it
/// moves nothing and only relocks the position.
#[allow(non_snake_case)]
pub fn addLiquidity(
    pool: &mut Pool,
    position: &mut LiquidityAccount,
    user: &mut Wallet,
    token_amount: u64,
    now: i64,
) -> (r: Result<u64, TokenSwapError>)
    requires
        old(pool).wf(),
    ensures
        final(pool).wf(),
        final(position).owner == old(position).owner,
        match add_liquidity_step(
            books(*old(pool), *old(user)),
            stake(*old(position)),
            token_amount as nat,
            now as int,
        ) {
            Ok((b, s)) => {
                &&& r == Ok::<u64, TokenSwapError>(token_amount)
                &&& books(*final(pool), *final(user)) == b
                &&& stake(*final(position)) == s
            },
            Err(e) => {
                &&& r == Err::<u64, TokenSwapError>(e)
                &&& *final(pool) == *old(pool)
                &&& *final(user) == *old(user)
                &&& *final(position) == *old(position)
            },
        },
{
    if !pool.vault_a.can_deposit(user.token_a, token_amount) || !pool.vault_b.can_deposit(
        user.token_b,
        token_amount,
    ) {
        return Err(TokenSwapError::TransferFailed);
    }
    if token_amount > u64::MAX - position.staked_token_amount {
        return Err(TokenSwapError::CalculationError);
    }
    match pool.vault_a.deposit(&mut user.token_a, token_amount) {
        Ok(()) => {},
        Err(e) => return Err(e),
    }
    match pool.vault_b.deposit(&mut user.token_b, token_amount) {
        Ok(()) => {},
        Err(e) => return Err(e),
    }
    position.staked_token_amount = position.staked_token_amount + token_amount;
    position.last_update_time = now;
    Ok(token_amount)
}

/// Withdraws `token_amount` of both assets from the pool to the caller's
/// wallet and debits the position, once `LOCK_DURATION` has passed since the
/// position's last deposit. No receipt tokens are burned.
#[allow(non_snake_case)]
pub fn removeLiquidity(
    pool: &mut Pool,
    position: &mut LiquidityAccount,
    user: &mut Wallet,
    token_amount: u64,
    now: i64,
) -> (r: Result<(), TokenSwapError>)
    requires
        old(pool).wf(),
    ensures
        final(pool).wf(),
        final(position).owner == old(position).owner,
        match remove_liquidity_step(
            books(*old(pool), *old(user)),
            stake(*old(position)),
            token_amount as nat,
            now as int,
        ) {
            Ok((b, s)) => {
                &&& r is Ok
                &&& books(*final(pool), *final(user)) == b
                &&& stake(*final(position)) == s
            },
            Err(e) => {
                &&& r == Err::<(), TokenSwapError>(e)
                &&& *final(pool) == *old(pool)
                &&& *final(user) == *old(user)
                &&& *final(position) == *old(position)
            },
        },
{
    if (now as i128) - (position.last_update_time as i128) < LOCK_DURATION as i128 {
        return Err(TokenSwapError::TimeConstraint);
    }
    if position.staked_token_amount < token_amount {
        return Err(TokenSwapError::InsufficientLiquidityTokens);
    }
    if !pool.vault_a.can_withdraw(user.token_a, token_amount) || !pool.vault_b.can_withdraw(
        user.token_b,
        token_amount,
    ) {
        return Err(TokenSwapError::TransferFailed);
    }
    match pool.vault_a.withdraw(&pool.authority_a, &mut user.token_a, token_amount) {
        Ok(()) => {},
        Err(e) => return Err(e),
    }
    match pool.vault_b.withdraw(&pool.authority_b, &mut user.token_b, token_amount) {
        Ok(()) => {},
        Err(e) => return Err(e),
    }
    position.staked_token_amount = position.staked_token_amount - token_amount;
    Ok(())
}

/// Swaps `amount_in` of `input` for the other asset, priced from the
/// reserves as they stand, and returns the amount paid out (the 3% fee is
/// deducted from the output). Fails with `SlippageExceeded` when that amount
/// is below `min_amount_out`.
pub fn swap(
    pool: &mut Pool,
    user: &mut Wallet,
    input: Asset,
    amount_in: u64,
    min_amount_out: u64,
) -> (r: Result<u64, TokenSwapError>)
    requires
        old(pool).wf(),
    ensures
        final(pool).wf(),
        match swap_step(
            books(*old(pool), *old(user)),
            input,
            amount_in as nat,
            min_amount_out as nat,
        ) {
            Ok((b, out)) => {
                &&& r == Ok::<u64, TokenSwapError>(out as u64)
                &&& books(*final(pool), *final(user)) == b
            },
            Err(e) => {
                &&& r == Err::<u64, TokenSwapError>(e)
                &&& *final(pool) == *old(pool)
                &&& *final(user) == *old(user)
            },
        },
{
    match input {
        Asset::A => {
            let net = match price_swap(
                pool.vault_a.balance(),
                pool.vault_b.balance(),
                amount_in,
                min_amount_out,
                Asset::B,
            ) {
                Ok(n) => n,
                Err(e) => return Err(e),
            };
            if !pool.vault_a.can_deposit(user.token_a, amount_in) || !pool.vault_b.can_withdraw(
                user.token_b,
                net,
            ) {
                return Err(TokenSwapError::TransferFailed);
            }
            match pool.vault_a.deposit(&mut user.token_a, amount_in) {
                Ok(()) => {},
                Err(e) => return Err(e),
            }
            match pool.vault_b.withdraw(&pool.authority_b, &mut user.token_b, net) {
                Ok(()) => {},
                Err(e) => return Err(e),
            }
            Ok(net)
        },
        Asset::B => {
            let net = match price_swap(
                pool.vault_b.balance(),
                pool.vault_a.balance(),
                amount_in,
                min_amount_out,
                Asset::A,
            ) {
                Ok(n) => n,
                Err(e) => return Err(e),
            };
            if !pool.vault_b.can_deposit(user.token_b, amount_in) || !pool.vault_a.can_withdraw(
                user.token_a,
                net,
            ) {
                return Err(TokenSwapError::TransferFailed);
            }
            match pool.vault_b.deposit(&mut user.token_b, amount_in) {
                Ok(()) => {},
                Err(e) => return Err(e),
            }
            match pool.vault_a.withdraw(&pool.authority_a, &mut user.token_a, net) {
                Ok(()) => {},
                Err(e) => return Err(e),
            }
            Ok(net)
        },
    }
}

/// Swaps `amount_of_token_a` of asset A for asset B; see `swap`.
pub fn swap_a_for_b(
    pool: &mut Pool,
    user: &mut Wallet,
    amount_of_token_a: u64,
    min_expected_output: u64,
) -> (r: Result<u64, TokenSwapError>)
    requires
        old(pool).wf(),
    ensures
        final(pool).wf(),
        match swap_step(
            books(*old(pool), *old(user)),
            Asset::A,
            amount_of_token_a as nat,
            min_expected_output as nat,
        ) {
            Ok((b, out)) => {
                &&& r == Ok::<u64, TokenSwapError>(out as u64)
                &&& books(*final(pool), *final(user)) == b
            },
            Err(e) => {
                &&& r == Err::<u64, TokenSwapError>(e)
                &&& *final(pool) == *old(pool)
                &&& *final(user) == *old(user)
            },
        },
{
    swap(pool, user, Asset::A, amount_of_token_a, min_expected_output)
}

/// Swaps `amount_of_token_b` of asset B for asset A; see `swap`.
pub fn swap_b_for_a(
    pool: &mut Pool,
    user: &mut Wallet,
    amount_of_token_b: u64,
    min_expected_output: u64,
) -> (r: Result<u64, TokenSwapError>)
    requires
        old(pool).wf(),
    ensures
        final(pool).wf(),
        match swap_step(
            books(*old(pool), *old(user)),
            Asset::B,
            amount_of_token_b as nat,
            min_expected_output as nat,
        ) {
            Ok((b, out)) => {
                &&& r == Ok::<u64, TokenSwapError>(out as u64)
                &&& books(*final(pool), *final(user)) == b
            },
            Err(e) => {
                &&& r == Err::<u64, TokenSwapError>(e)
                &&& *final(pool) == *old(pool)
                &&& *final(user) == *old(user)
            },
        },
{
    swap(pool, user, Asset::B, amount_of_token_b, min_expected_output)
}

} // verus!
