//! The pricing engine: a pure function from the reserves read at call time,
//! the input amount and the caller's slippage floor to the swap's output.
//!
//! The quote follows the constant product: the output reserve is lowered to
//! `reserve_in * reserve_out / (reserve_in + amount_in)` (floor), and the
//! difference is the gross output. The fee, `gross * 3 / 100` (floor), is
//! taken from the output, not from the input: what the caller receives is the
//! gross output less the fee.
use vstd::prelude::*;
use vstd::arithmetic::div_mod::{lemma_div_by_multiple, lemma_div_is_ordered, lemma_div_pos_is_pos};
use vstd::arithmetic::mul::lemma_mul_inequality;

use crate::error::TokenSwapError;
use crate::vault::Asset;

verus! {

/// The fee rate on the output side, as a fraction `FEE_NUMERATOR / FEE_DENOMINATOR`.
pub const FEE_NUMERATOR: u128 = 3;

pub const FEE_DENOMINATOR: u128 = 100;

/// The constant product of two reserves.
pub open spec fn invariant_product(reserve_in: nat, reserve_out: nat) -> nat {
    reserve_in * reserve_out
}

/// The output before the fee: how far the output reserve must fall for the
/// product to be kept, with the new output reserve rounded down.
pub open spec fn gross_output(reserve_in: nat, reserve_out: nat, amount_in: nat) -> int
    recommends
        reserve_in + amount_in > 0,
{
    reserve_out - invariant_product(reserve_in, reserve_out) / (reserve_in + amount_in)
}

/// The fee charged on a gross output.
pub open spec fn swap_fee(gross: int) -> int {
    gross * 3 / 100
}

/// What the caller receives: the gross output less the fee.
pub open spec fn net_output(reserve_in: nat, reserve_out: nat, amount_in: nat) -> int
    recommends
        reserve_in + amount_in > 0,
{
    gross_output(reserve_in, reserve_out, amount_in) - swap_fee(
        gross_output(reserve_in, reserve_out, amount_in),
    )
}

/// The error a swap reports when its output would exceed the output reserve.
pub open spec fn insufficient(out: Asset) -> TokenSwapError {
    match out {
        Asset::A => TokenSwapError::InsufficientTokenA,
        Asset::B => TokenSwapError::InsufficientTokenB,
    }
}

/// The outcome of pricing a swap whose output is paid from the vault of `out`.
///
/// The checks come in this order: the division needs a positive divisor and
/// the output must narrow to 64 bits (else `CalculationError`); the output
/// must not exceed the output reserve (else `InsufficientTokenA` or
/// `InsufficientTokenB`); it must reach the caller's floor (else
/// `SlippageExceeded`).
///
/// An input of zero against a non-empty input reserve prices to an output of
/// zero: it succeeds exactly when the floor is zero, and then moves nothing.
pub open spec fn swap_outcome(
    reserve_in: nat,
    reserve_out: nat,
    amount_in: nat,
    min_amount_out: nat,
    out: Asset,
) -> Result<u64, TokenSwapError> {
    let net = net_output(reserve_in, reserve_out, amount_in);
    if reserve_in + amount_in == 0 {
        Err(TokenSwapError::CalculationError)
    } else if net < 0 || net > u64::MAX {
        Err(TokenSwapError::CalculationError)
    } else if net > reserve_out {
        Err(insufficient(out))
    } else if net < min_amount_out {
        Err(TokenSwapError::SlippageExceeded)
    } else {
        Ok(net as u64)
    }
}

/// The three parts of a quote.
#[derive(Debug, Clone, Copy, PartialEq, Eq, Structural)]
pub struct SwapQuote {
    pub gross_out: u64,
    pub fee: u64,
    pub net_out: u64,
}

/// The gross output lies between zero and the output reserve.
pub proof fn lemma_gross_output_bounds(reserve_in: nat, reserve_out: nat, amount_in: nat)
    requires
        reserve_in + amount_in > 0,
    ensures
        0 <= gross_output(reserve_in, reserve_out, amount_in) <= reserve_out,
        0 <= swap_fee(gross_output(reserve_in, reserve_out, amount_in)) <= gross_output(
            reserve_in,
            reserve_out,
            amount_in,
        ),
        0 <= net_output(reserve_in, reserve_out, amount_in) <= reserve_out,
{
    let d = (reserve_in + amount_in) as int;
    let p = (reserve_in * reserve_out) as int;
    lemma_mul_inequality(reserve_in as int, d, reserve_out as int);
    lemma_div_by_multiple(reserve_out as int, d);
    assert(reserve_out * d == d * reserve_out) by (nonlinear_arith);
    lemma_div_is_ordered(p, d * reserve_out, d);
    lemma_div_pos_is_pos(p, d);
    let g = gross_output(reserve_in, reserve_out, amount_in);
    assert(0 <= g * 3 / 100 <= g) by (nonlinear_arith)
        requires
            g >= 0,
    ;
}

/// The constant product of two reserves, computed in 128 bits.
pub fn amm_calculation(token_a_quantity: u64, token_b_quantity: u64) -> (r: Result<
    u128,
    TokenSwapError,
>)
    ensures
        r == Ok::<u128, TokenSwapError>(
            invariant_product(token_a_quantity as nat, token_b_quantity as nat) as u128,
        ),
        invariant_product(token_a_quantity as nat, token_b_quantity as nat) <= u128::MAX,
{
    let a = token_a_quantity as u128;
    let b = token_b_quantity as u128;
    assert(a * b <= u128::MAX) by (nonlinear_arith)
        requires
            a <= u64::MAX,
            b <= u64::MAX,
    ;
    match a.checked_mul(b) {
        Some(x) => Ok(x),
        None => Err(TokenSwapError::CalculationError),
    }
}

/// Quotes a swap of `amount_in` against the reserves read at call time.
///
/// Fails with `CalculationError` exactly when both `reserve_in` and
/// `amount_in` are zero: the quote would divide by zero.
pub fn quote_swap(reserve_in: u64, reserve_out: u64, amount_in: u64) -> (r: Result<
    SwapQuote,
    TokenSwapError,
>)
    ensures
        reserve_in + amount_in == 0 <==> r == Err::<SwapQuote, TokenSwapError>(
            TokenSwapError::CalculationError,
        ),
        r is Ok ==> {
            let q = r->Ok_0;
            &&& q.gross_out == gross_output(reserve_in as nat, reserve_out as nat, amount_in as nat)
            &&& q.fee == swap_fee(q.gross_out as int)
            &&& q.net_out == net_output(reserve_in as nat, reserve_out as nat, amount_in as nat)
        },
        r is Ok <==> reserve_in + amount_in > 0,
{
    if reserve_in as u128 + amount_in as u128 == 0 {
        return Err(TokenSwapError::CalculationError);
    }
    let x = match amm_calculation(reserve_in, reserve_out) {
        Ok(x) => x,
        Err(e) => return Err(e),
    };
    proof {
        lemma_gross_output_bounds(reserve_in as nat, reserve_out as nat, amount_in as nat);
    }
    let kept = x / (reserve_in as u128 + amount_in as u128);
    let gross = match (reserve_out as u128).checked_sub(kept) {
        Some(g) => g,
        None => return Err(TokenSwapError::CalculationError),
    };
    let fee = gross * FEE_NUMERATOR / FEE_DENOMINATOR;
    let net = gross - fee;
    if gross > u64::MAX as u128 || net > u64::MAX as u128 {
        return Err(TokenSwapError::CalculationError);
    }
    Ok(SwapQuote { gross_out: gross as u64, fee: fee as u64, net_out: net as u64 })
}

/// Prices a swap whose output is paid from the vault of `out`, and returns
/// the output that the caller receives (fee already deducted).
pub fn price_swap(
    reserve_in: u64,
    reserve_out: u64,
    amount_in: u64,
    min_amount_out: u64,
    out: Asset,
) -> (r: Result<u64, TokenSwapError>)
    ensures
        r == swap_outcome(
            reserve_in as nat,
            reserve_out as nat,
            amount_in as nat,
            min_amount_out as nat,
            out,
        ),
{
    let q = match quote_swap(reserve_in, reserve_out, amount_in) {
        Ok(q) => q,
        Err(e) => return Err(e),
    };
    proof {
        lemma_gross_output_bounds(reserve_in as nat, reserve_out as nat, amount_in as nat);
    }
    if q.net_out > reserve_out {
        return match out {
            Asset::A => Err(TokenSwapError::InsufficientTokenA),
            Asset::B => Err(TokenSwapError::InsufficientTokenB),
        };
    }
    if q.net_out < min_amount_out {
        return Err(TokenSwapError::SlippageExceeded);
    }
    Ok(q.net_out)
}

} // verus!
