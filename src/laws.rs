//! Laws that relate the pool's operations to one another, proved over the
//! model of the books that the operations' contracts use.
use vstd::prelude::*;
use vstd::arithmetic::div_mod::{lemma_fundamental_div_mod, lemma_mod_pos_bound};

use crate::amm::{gross_output, invariant_product, lemma_gross_output_bounds, swap_fee, swap_outcome};
use crate::error::TokenSwapError;
use crate::pool::{
    add_liquidity_step, other, remove_liquidity_step, reserve_of, swap_step, Books, Stake,
};
use crate::position::LOCK_DURATION;
use crate::vault::Asset;

verus! {

/// Every balance in the books fits in 64 bits, as every balance held on the
/// ledger does.
pub open spec fn books_valid(b: Books) -> bool {
    &&& b.reserve_a <= u64::MAX
    &&& b.reserve_b <= u64::MAX
    &&& b.wallet_a <= u64::MAX
    &&& b.wallet_b <= u64::MAX
}

/// One swap as a caller asks for it.
pub struct SwapRequest {
    pub input: Asset,
    pub amount_in: nat,
    pub min_amount_out: nat,
}

/// The books after a swap request: the new books if the swap succeeds, the
/// same books if it fails.
pub open spec fn apply_swap(b: Books, q: SwapRequest) -> Books {
    match swap_step(b, q.input, q.amount_in, q.min_amount_out) {
        Ok((nb, _)) => nb,
        Err(_) => b,
    }
}

/// The books after a sequence of swap requests, with nothing else between them.
pub open spec fn run_swaps(b: Books, qs: Seq<SwapRequest>) -> Books
    decreases qs.len(),
{
    if qs.len() == 0 {
        b
    } else {
        run_swaps(apply_swap(b, qs[0]), qs.drop_first())
    }
}

/// The product of the two reserves.
pub open spec fn reserve_product(b: Books) -> nat {
    b.reserve_a * b.reserve_b
}

/// If the swap succeeds, the fee it keeps in the output vault makes up for
/// the rounding of the new output reserve: the fee is positive, or the
/// division that rounds is exact.
///
/// A swap that succeeds with a zero fee and an inexact division lowers the
/// product: the output reserve is rounded down and nothing makes up for it.
pub open spec fn fee_covers_rounding(b: Books, q: SwapRequest) -> bool {
    let rin = reserve_of(b, q.input);
    let rout = reserve_of(b, other(q.input));
    swap_step(b, q.input, q.amount_in, q.min_amount_out) is Ok ==> (swap_fee(
        gross_output(rin, rout, q.amount_in),
    ) > 0 || invariant_product(rin, rout) % (rin + q.amount_in) == 0)
}

/// Each swap in the sequence, from the books it meets, keeps its rounding
/// covered by its fee.
pub open spec fn fees_cover_rounding(b: Books, qs: Seq<SwapRequest>) -> bool
    decreases qs.len(),
{
    if qs.len() == 0 {
        true
    } else {
        fee_covers_rounding(b, qs[0]) && fees_cover_rounding(apply_swap(b, qs[0]), qs.drop_first())
    }
}

/// A single swap whose fee covers its rounding does not lower the product of
/// the reserves.
pub proof fn lemma_swap_keeps_product(b: Books, q: SwapRequest)
    requires
        fee_covers_rounding(b, q),
    ensures
        reserve_product(apply_swap(b, q)) >= reserve_product(b),
{
    if swap_step(b, q.input, q.amount_in, q.min_amount_out) is Ok {
        let rin = reserve_of(b, q.input);
        let rout = reserve_of(b, other(q.input));
        let x = q.amount_in;
        let d = (rin + x) as int;
        let p = (rin * rout) as int;
        lemma_gross_output_bounds(rin, rout, x);
        lemma_fundamental_div_mod(p, d);
        lemma_mod_pos_bound(p, d);
        let kept = p / d;
        let r = p % d;
        let fee = swap_fee(gross_output(rin, rout, x));
        assert(d * (kept + fee) >= p) by (nonlinear_arith)
            requires
                p == d * kept + r,
                0 <= r < d,
                fee >= 0,
                fee > 0 || r == 0,
        ;
        let nb = apply_swap(b, q);
        match q.input {
            Asset::A => {
                assert(nb.reserve_a == d && nb.reserve_b == kept + fee);
                assert(reserve_product(b) == p);
            },
            Asset::B => {
                assert(nb.reserve_b == d && nb.reserve_a == kept + fee);
                assert(reserve_product(b) == p) by (nonlinear_arith)
                    requires
                        p == rin * rout,
                        rin == b.reserve_b,
                        rout == b.reserve_a,
                ;
                assert(nb.reserve_a * nb.reserve_b == d * (kept + fee)) by (nonlinear_arith)
                    requires
                        nb.reserve_b == d,
                        nb.reserve_a == kept + fee,
                ;
            },
        }
    }
}

/// Over any sequence of swaps with no deposit or withdrawal between them, the
/// product of the reserves never falls, provided each swap's fee covers the
/// rounding of its output (see `fee_covers_rounding`).
pub proof fn lemma_swaps_keep_product(b: Books, qs: Seq<SwapRequest>)
    requires
        fees_cover_rounding(b, qs),
    ensures
        reserve_product(run_swaps(b, qs)) >= reserve_product(b),
    decreases qs.len(),
{
    if qs.len() > 0 {
        lemma_swap_keeps_product(b, qs[0]);
        lemma_swaps_keep_product(apply_swap(b, qs[0]), qs.drop_first());
    }
}

/// A successful withdrawal never takes more than is staked: the new stake is
/// the old stake less the amount, and is never negative.
pub proof fn lemma_withdrawal_never_underflows(b: Books, s: Stake, amount: nat, now: int)
    requires
        remove_liquidity_step(b, s, amount, now) is Ok,
    ensures
        s.staked >= amount,
        remove_liquidity_step(b, s, amount, now)->Ok_0.1.staked == s.staked - amount,
        remove_liquidity_step(b, s, amount, now)->Ok_0.1.staked >= 0,
{
}

/// Adding liquidity and, once the lock has expired, removing the same amount
/// succeeds and gives back the stake, both reserves and the caller's wallet as
/// they were before the deposit.
pub proof fn lemma_add_then_remove_restores(
    b: Books,
    s: Stake,
    amount: nat,
    now: int,
    later: int,
)
    requires
        books_valid(b),
        add_liquidity_step(b, s, amount, now) is Ok,
        later - now >= LOCK_DURATION,
    ensures
        ({
            let (b1, s1) = add_liquidity_step(b, s, amount, now)->Ok_0;
            &&& remove_liquidity_step(b1, s1, amount, later) is Ok
            &&& remove_liquidity_step(b1, s1, amount, later)->Ok_0.0 == b
            &&& remove_liquidity_step(b1, s1, amount, later)->Ok_0.1.staked == s.staked
        }),
{
    let (b1, s1) = add_liquidity_step(b, s, amount, now)->Ok_0;
    let b2 = remove_liquidity_step(b1, s1, amount, later)->Ok_0.0;
    assert(b2 == b);
}

/// A swap of zero is defined: against an empty input reserve it fails with
/// `CalculationError` (its price would divide by zero); otherwise it prices to
/// an output of zero, so it fails with `SlippageExceeded` when the caller asks
/// for any output, and else succeeds without moving anything.
pub proof fn lemma_zero_input_swap(b: Books, input: Asset, min_amount_out: nat)
    requires
        books_valid(b),
    ensures
        reserve_of(b, input) == 0 ==> swap_step(b, input, 0, min_amount_out) == Err::<
            (Books, nat),
            TokenSwapError,
        >(TokenSwapError::CalculationError),
        reserve_of(b, input) > 0 && min_amount_out > 0 ==> swap_step(b, input, 0, min_amount_out)
            == Err::<(Books, nat), TokenSwapError>(TokenSwapError::SlippageExceeded),
        reserve_of(b, input) > 0 && min_amount_out == 0 ==> swap_step(b, input, 0, min_amount_out)
            == Ok::<(Books, nat), TokenSwapError>((b, 0)),
{
    let rin = reserve_of(b, input);
    let rout = reserve_of(b, other(input));
    if rin > 0 {
        assert((rin * rout) / rin == rout) by (nonlinear_arith)
            requires
                rin > 0,
        ;
        assert(swap_outcome(rin, rout, 0, min_amount_out, other(input)) == if min_amount_out
            == 0 {
            Ok::<u64, TokenSwapError>(0)
        } else {
            Err(TokenSwapError::SlippageExceeded)
        });
        if min_amount_out == 0 {
            let nb = swap_step(b, input, 0, 0)->Ok_0.0;
            assert(nb == b);
        }
    }
}

/// No operation creates or destroys tokens: each keeps, for each asset, the
/// sum of the vault's balance and the caller's balance.
pub proof fn lemma_operations_conserve_tokens(
    b: Books,
    s: Stake,
    amount: nat,
    now: int,
    input: Asset,
    min_amount_out: nat,
)
    ensures
        add_liquidity_step(b, s, amount, now) is Ok ==> {
            let b1 = add_liquidity_step(b, s, amount, now)->Ok_0.0;
            &&& b1.reserve_a + b1.wallet_a == b.reserve_a + b.wallet_a
            &&& b1.reserve_b + b1.wallet_b == b.reserve_b + b.wallet_b
        },
        remove_liquidity_step(b, s, amount, now) is Ok ==> {
            let b1 = remove_liquidity_step(b, s, amount, now)->Ok_0.0;
            &&& b1.reserve_a + b1.wallet_a == b.reserve_a + b.wallet_a
            &&& b1.reserve_b + b1.wallet_b == b.reserve_b + b.wallet_b
        },
        swap_step(b, input, amount, min_amount_out) is Ok ==> {
            let b1 = swap_step(b, input, amount, min_amount_out)->Ok_0.0;
            &&& b1.reserve_a + b1.wallet_a == b.reserve_a + b.wallet_a
            &&& b1.reserve_b + b1.wallet_b == b.reserve_b + b.wallet_b
        },
{
}

} // verus!
